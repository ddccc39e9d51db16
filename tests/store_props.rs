use securefolder::store::{has_encrypted_suffix, select_files};
use securefolder::{
    decrypt_data, BulkAction, BulkEvent, CipherError, Direction, FileSystem, FsError, ListedEntry,
};
use std::path::PathBuf;

fn store(n: usize) -> FileSystem {
    FileSystem::from_dirs((0..n).map(|i| PathBuf::from(format!("/home/u/d{}", i))).collect())
}

/// Runs a whole bulk operation over in-memory files, as a caller would over
/// a directory: fail-fast, writing each result in place.
fn run_over(
    fs: &mut FileSystem,
    index: usize,
    direction: Direction,
    key: &str,
    files: &mut Vec<(String, Vec<u8>)>,
) -> Result<(), FsError> {
    let mut run = fs.begin(index, direction, key)?;
    let mut next = 0usize;
    let mut event =
        if files.is_empty() { BulkEvent::Exhausted } else { file_event(files, 0) };
    loop {
        match fs.advance(&mut run, event) {
            BulkAction::Write(bytes) => {
                files[next].1 = bytes;
                next += 1;
                assert_eq!(fs.advance(&mut run, BulkEvent::Written), BulkAction::ReadNext);
                event = if next < files.len() { file_event(files, next) } else { BulkEvent::Exhausted };
            }
            BulkAction::ReadNext => unreachable!(),
            BulkAction::Finish(r) => return r,
        }
    }
}

fn file_event(files: &[(String, Vec<u8>)], i: usize) -> BulkEvent {
    BulkEvent::File { name: files[i].0.clone(), contents: files[i].1.clone() }
}

#[test]
fn new_store_tracks_dirs_unencrypted() {
    let fs = store(3);
    assert_eq!(fs.len(), 3);
    assert_eq!(fs.dirs()[1], PathBuf::from("/home/u/d1"));
    for i in 0..4 {
        assert!(!fs.is_encrypted(i));
    }
}

#[test]
fn mark_encrypted_sets_and_ignores_out_of_range() {
    let mut fs = store(2);
    fs.mark_encrypted(1, true);
    assert!(fs.is_encrypted(1));
    assert!(!fs.is_encrypted(0));
    fs.mark_encrypted(5, true);
    assert!(!fs.is_encrypted(5));
    fs.mark_encrypted(1, false);
    assert!(!fs.is_encrypted(1));
}

#[test]
fn add_and_remove_folders() {
    let mut fs = store(1);
    fs.add_folder(PathBuf::from("/home/u/new"));
    assert_eq!(fs.len(), 2);
    assert!(!fs.is_encrypted(1));
    fs.mark_encrypted(0, true);
    assert_eq!(fs.remove_folder(0), Ok(PathBuf::from("/home/u/d0")));
    assert_eq!(fs.len(), 1);
    assert!(!fs.is_encrypted(0));
    assert_eq!(fs.dir(0), Ok(&PathBuf::from("/home/u/new")));
    assert_eq!(fs.remove_folder(1), Err(FsError::InvalidIndex));
}

#[test]
fn index_out_of_range_is_rejected() {
    let fs = store(2);
    assert_eq!(fs.dir(2), Err(FsError::InvalidIndex));
    assert!(matches!(fs.begin(2, Direction::Encrypt, "k"), Err(FsError::InvalidIndex)));
    assert!(matches!(fs.begin(usize::MAX, Direction::Decrypt, "k"), Err(FsError::InvalidIndex)));
    let empty = store(0);
    assert!(matches!(empty.begin(0, Direction::Encrypt, "k"), Err(FsError::InvalidIndex)));
}

#[test]
fn select_files_keeps_regular_files_in_order() {
    let entries = vec![
        ListedEntry { name: "b.txt".to_string(), is_file: true },
        ListedEntry { name: "sub".to_string(), is_file: false },
        ListedEntry { name: "a.txt".to_string(), is_file: true },
    ];
    assert_eq!(select_files(&entries), vec!["b.txt".to_string(), "a.txt".to_string()]);
    assert!(select_files(&Vec::new()).is_empty());
}

#[test]
fn enc_suffix_marks_encrypted_names() {
    assert!(has_encrypted_suffix("a.enc"));
    assert!(has_encrypted_suffix("notes.txt.enc"));
    assert!(!has_encrypted_suffix(".enc"));
    assert!(!has_encrypted_suffix("a.txt"));
    assert!(!has_encrypted_suffix("enc"));
    assert!(!has_encrypted_suffix("a.ENC"));
}

#[test]
fn hello_scenario_encrypt_wrong_key_then_decrypt() {
    let mut fs = store(1);
    let mut files = vec![("a.txt".to_string(), b"hello".to_vec())];
    assert_eq!(run_over(&mut fs, 0, Direction::Encrypt, "secret", &mut files), Ok(()));
    assert_eq!(files[0].1.len(), 33);
    assert!(fs.is_encrypted(0));

    let before = files[0].1.clone();
    let r = run_over(&mut fs, 0, Direction::Decrypt, "wrong", &mut files);
    assert_eq!(
        r,
        Err(FsError::Cipher { file: "a.txt".to_string(), cause: CipherError::Authentication })
    );
    assert_eq!(files[0].1, before);
    assert!(fs.is_encrypted(0));

    assert_eq!(run_over(&mut fs, 0, Direction::Decrypt, "secret", &mut files), Ok(()));
    assert_eq!(files[0].1, b"hello".to_vec());
    assert!(!fs.is_encrypted(0));
}

#[test]
fn flag_follows_successful_runs() {
    let mut fs = store(2);
    let mut files = vec![
        ("x".to_string(), b"one".to_vec()),
        ("y".to_string(), b"two".to_vec()),
        ("z".to_string(), Vec::new()),
    ];
    assert_eq!(run_over(&mut fs, 1, Direction::Encrypt, "k", &mut files), Ok(()));
    assert!(fs.is_encrypted(1));
    assert!(!fs.is_encrypted(0));
    for (_, c) in &files {
        assert_eq!(decrypt_data(c.clone(), "k").map(|p| p.len() + 28), Ok(c.len()));
    }
    assert_eq!(run_over(&mut fs, 1, Direction::Decrypt, "k", &mut files), Ok(()));
    assert!(!fs.is_encrypted(1));
    assert_eq!(files[0].1, b"one".to_vec());
    assert_eq!(files[2].1, Vec::<u8>::new());
}

#[test]
fn failure_partway_keeps_flag_and_earlier_files() {
    let mut fs = store(1);
    let mut run = fs.begin(0, Direction::Encrypt, "k").unwrap();
    let first = fs.advance(
        &mut run,
        BulkEvent::File { name: "a".to_string(), contents: b"first".to_vec() },
    );
    assert!(matches!(&first, BulkAction::Write(b) if b.len() == 5 + 28));
    assert_eq!(fs.advance(&mut run, BulkEvent::Written), BulkAction::ReadNext);
    let failed = fs.advance(&mut run, BulkEvent::Failed("b: permission denied".to_string()));
    assert_eq!(failed, BulkAction::Finish(Err(FsError::Io("b: permission denied".to_string()))));
    assert!(run.is_finished());
    assert!(!fs.is_encrypted(0));
    assert_eq!(
        fs.advance(&mut run, BulkEvent::Exhausted),
        BulkAction::Finish(Err(FsError::OutOfOrder))
    );
    assert!(!fs.is_encrypted(0));
}

#[test]
fn failed_decrypt_keeps_encrypted_flag() {
    let mut fs = store(1);
    fs.mark_encrypted(0, true);
    let mut files = vec![("plain.txt".to_string(), b"not ciphertext at all".to_vec())];
    let r = run_over(&mut fs, 0, Direction::Decrypt, "k", &mut files);
    assert_eq!(
        r,
        Err(FsError::Cipher { file: "plain.txt".to_string(), cause: CipherError::Authentication })
    );
    assert!(fs.is_encrypted(0));
    assert_eq!(files[0].1, b"not ciphertext at all".to_vec());
}

#[test]
fn short_file_fails_decrypt_as_too_short() {
    let mut fs = store(1);
    let mut files = vec![("tiny".to_string(), b"abc".to_vec())];
    let r = run_over(&mut fs, 0, Direction::Decrypt, "k", &mut files);
    assert_eq!(r, Err(FsError::Cipher { file: "tiny".to_string(), cause: CipherError::TooShort }));
}

#[test]
fn empty_directory_flips_flag_both_ways() {
    let mut fs = store(1);
    let mut files = Vec::new();
    assert_eq!(run_over(&mut fs, 0, Direction::Encrypt, "k", &mut files), Ok(()));
    assert!(fs.is_encrypted(0));
    assert_eq!(run_over(&mut fs, 0, Direction::Decrypt, "k", &mut files), Ok(()));
    assert!(!fs.is_encrypted(0));
}

#[test]
fn events_out_of_turn_end_the_run() {
    let mut fs = store(1);
    let mut run = fs.begin(0, Direction::Encrypt, "k").unwrap();
    assert_eq!(fs.advance(&mut run, BulkEvent::Written), BulkAction::Finish(Err(FsError::OutOfOrder)));
    assert!(!fs.is_encrypted(0));

    let mut run = fs.begin(0, Direction::Encrypt, "k").unwrap();
    let w = fs.advance(&mut run, BulkEvent::File { name: "a".to_string(), contents: vec![1] });
    assert!(matches!(w, BulkAction::Write(_)));
    assert_eq!(fs.advance(&mut run, BulkEvent::Exhausted), BulkAction::Finish(Err(FsError::OutOfOrder)));
    assert!(!fs.is_encrypted(0));
}

#[test]
fn run_on_removed_directory_reports_invalid_index() {
    let mut fs = store(1);
    let mut run = fs.begin(0, Direction::Encrypt, "k").unwrap();
    fs.remove_folder(0).unwrap();
    assert_eq!(fs.advance(&mut run, BulkEvent::Exhausted), BulkAction::Finish(Err(FsError::InvalidIndex)));
}
