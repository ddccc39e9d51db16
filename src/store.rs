//! The tracked directories, each with an "encrypted" flag, and the steps of
//! a bulk operation that encrypts or decrypts every file of one of them.
//!
//! A bulk operation alternates file work and decisions. The caller lists the
//! directory and reads, writes and reports each file; `FileSystem::advance`
//! decides what happens next. The policy is fail-fast with no rollback: the
//! first failure ends the run, files already written stay transformed, and
//! the directory's flag changes only when every file went through.

use crate::cipher::{
    decrypted, derive_key, encrypt_with_key, is_sealing, key_material, open_with_key,
    CipherError, KEY_LEN, MAX_SEAL_LEN, NONCE_LEN, TAG_LEN,
};
use std::path::PathBuf;
use vstd::prelude::*;
use vstd::string::StringSliceAdditionalSpecFns;

verus! {

#[verifier::external_type_specification]
#[verifier::external_body]
pub struct ExPathBuf(PathBuf);

/// Why a store operation failed.
#[derive(Debug, Clone, PartialEq, Eq)]
pub enum FsError {
    /// The directory index is not below the number of tracked directories.
    InvalidIndex,
    /// Listing, reading or writing failed; the text says what and where.
    Io(String),
    /// A file could not be encrypted or decrypted.
    Cipher { file: String, cause: CipherError },
    /// An event came that the run was not waiting for, or came after its end.
    OutOfOrder,
}

/// Which way a bulk operation transforms the files.
#[derive(Debug, Clone, Copy, PartialEq, Eq, Structural)]
pub enum Direction {
    Encrypt,
    Decrypt,
}

/// What the caller reports to a running bulk operation.
#[derive(Debug, Clone, PartialEq, Eq)]
pub enum BulkEvent {
    /// The next regular file of the directory was read.
    File { name: String, contents: Vec<u8> },
    /// The bytes of the last `Write` were stored in place of the file.
    Written,
    /// Listing, reading or writing failed.
    Failed(String),
    /// Every regular file of the directory has been handed over.
    Exhausted,
}

/// What a running bulk operation asks the caller to do next.
#[derive(Debug, PartialEq, Eq)]
pub enum BulkAction {
    /// Replace the contents of the file just read with these bytes.
    Write(Vec<u8>),
    /// Read the next regular file, or report that there is none.
    ReadNext,
    /// The run is over, with this outcome.
    Finish(Result<(), FsError>),
}

/// An entry of a directory listing.
#[derive(Debug, Clone, PartialEq, Eq)]
pub struct ListedEntry {
    pub name: String,
    pub is_file: bool,
}

/// The names of the regular files of a listing, in listing order.
pub open spec fn file_names(entries: Seq<ListedEntry>) -> Seq<Seq<char>>
    decreases entries.len(),
{
    if entries.len() == 0 {
        Seq::empty()
    } else {
        let rest = file_names(entries.drop_last());
        if entries.last().is_file {
            rest.push(entries.last().name@)
        } else {
            rest
        }
    }
}

/// Keeps the names of the regular files of a listing, in listing order.
pub fn select_files(entries: &Vec<ListedEntry>) -> (names: Vec<String>)
    ensures
        names@.map_values(|s: String| s@) == file_names(entries@),
{
    let mut names: Vec<String> = Vec::new();
    let mut i: usize = 0;
    while i < entries.len()
        invariant
            i <= entries@.len(),
            names@.map_values(|s: String| s@) == file_names(entries@.take(i as int)),
        decreases entries@.len() - i,
    {
        assert(entries@.take(i + 1).drop_last() == entries@.take(i as int));
        if entries[i].is_file {
            names.push(entries[i].name.clone());
        }
        i += 1;
    }
    assert(entries@.take(entries@.len() as int) == entries@);
    names
}

/// The file name carries the `.enc` extension: it ends in `.enc` after a
/// non-empty stem.
pub open spec fn marked_encrypted(name: Seq<u8>) -> bool {
    &&& name.len() > 4
    &&& name.subrange(name.len() - 4, name.len() as int) == seq![46u8, 101u8, 110u8, 99u8]
}

/// Whether a file name marks an encrypted file by its `.enc` extension.
pub fn has_encrypted_suffix(name: &str) -> (r: bool)
    ensures
        r == marked_encrypted(name.spec_bytes()),
{
    let b = name.as_bytes();
    let n = b.len();
    if n <= 4 {
        return false;
    }
    let r = b[n - 4] == 46u8 && b[n - 3] == 101u8 && b[n - 2] == 110u8 && b[n - 1] == 99u8;
    assert(r == (b@.subrange(n - 4, n as int) == seq![46u8, 101u8, 110u8, 99u8])) by {
        if r {
            assert(b@.subrange(n - 4, n as int) =~= seq![46u8, 101u8, 110u8, 99u8]);
        }
        if b@.subrange(n - 4, n as int) == seq![46u8, 101u8, 110u8, 99u8] {
            assert(b@.subrange(n - 4, n as int)[0] == 46u8);
            assert(b@.subrange(n - 4, n as int)[1] == 101u8);
            assert(b@.subrange(n - 4, n as int)[2] == 110u8);
            assert(b@.subrange(n - 4, n as int)[3] == 99u8);
        }
    }
    r
}

/// The progress of one bulk operation over one tracked directory.
pub struct BulkRun {
    index: usize,
    direction: Direction,
    key: Vec<u8>,
    pending: bool,
    finished: bool,
}

impl BulkRun {
    /// The index of the directory that the run works on.
    pub closed spec fn index(&self) -> usize {
        self.index
    }

    pub closed spec fn direction(&self) -> Direction {
        self.direction
    }

    /// The key material that the run encrypts or decrypts under.
    pub closed spec fn key(&self) -> Seq<u8> {
        self.key@
    }

    /// A `Write` was asked for and not yet reported done.
    pub closed spec fn pending(&self) -> bool {
        self.pending
    }

    /// The run has ended and takes no more events.
    pub closed spec fn finished(&self) -> bool {
        self.finished
    }

    /// Whether the run has ended.
    pub fn is_finished(&self) -> (r: bool)
        ensures
            r == self.finished(),
    {
        self.finished
    }
}

/// The tracked directories, in order, each with its "encrypted" flag.
pub struct FileSystem {
    dirs: Vec<PathBuf>,
    encrypted: Vec<bool>,
}

impl View for FileSystem {
    type V = Seq<(PathBuf, bool)>;

    closed spec fn view(&self) -> Seq<(PathBuf, bool)> {
        Seq::new(self.dirs@.len(), |i: int| (self.dirs@[i], self.encrypted@[i]))
    }
}

impl FileSystem {
    /// Every tracked directory has exactly one flag.
    pub closed spec fn wf(&self) -> bool {
        self.dirs@.len() == self.encrypted@.len()
    }

    /// Tracks the given directories, none of them encrypted.
    pub fn from_dirs(dirs: Vec<PathBuf>) -> (fs: Self)
        ensures
            fs.wf(),
            fs@.len() == dirs@.len(),
            forall|i: int| 0 <= i < dirs@.len() ==> #[trigger] fs@[i] == (dirs@[i], false),
    {
        let mut encrypted: Vec<bool> = Vec::new();
        let mut i: usize = 0;
        while i < dirs.len()
            invariant
                i <= dirs@.len(),
                encrypted@.len() == i,
                forall|j: int| 0 <= j < i ==> !#[trigger] encrypted@[j],
            decreases dirs@.len() - i,
        {
            encrypted.push(false);
            i += 1;
        }
        FileSystem { dirs, encrypted }
    }

    /// The number of tracked directories.
    pub fn len(&self) -> (n: usize)
        requires
            self.wf(),
        ensures
            n == self@.len(),
    {
        self.dirs.len()
    }

    /// The tracked directories' paths, in order.
    pub fn dirs(&self) -> (paths: &Vec<PathBuf>)
        requires
            self.wf(),
        ensures
            paths@.len() == self@.len(),
            forall|i: int| 0 <= i < paths@.len() ==> #[trigger] paths@[i] == self@[i].0,
    {
        &self.dirs
    }

    /// The path of the directory at `index`.
    pub fn dir(&self, index: usize) -> (r: Result<&PathBuf, FsError>)
        requires
            self.wf(),
        ensures
            index < self@.len() ==> (r matches Ok(p) && *p == self@[index as int].0),
            index >= self@.len() ==> r == Err::<&PathBuf, FsError>(FsError::InvalidIndex),
    {
        if index < self.dirs.len() {
            Ok(&self.dirs[index])
        } else {
            Err(FsError::InvalidIndex)
        }
    }

    /// Tracks one more directory, not encrypted, after the others.
    pub fn add_folder(&mut self, path: PathBuf)
        requires
            old(self).wf(),
        ensures
            final(self).wf(),
            final(self)@ == old(self)@.push((path, false)),
    {
        self.dirs.push(path);
        self.encrypted.push(false);
        assert(self@ == old(self)@.push((path, false)));
    }

    /// Stops tracking the directory at `index` and hands back its path.
    pub fn remove_folder(&mut self, index: usize) -> (r: Result<PathBuf, FsError>)
        requires
            old(self).wf(),
        ensures
            final(self).wf(),
            index < old(self)@.len() ==> (r matches Ok(p) && p == old(self)@[index as int].0
                && final(self)@ == old(self)@.remove(index as int)),
            index >= old(self)@.len() ==> r == Err::<PathBuf, FsError>(FsError::InvalidIndex)
                && final(self)@ == old(self)@,
    {
        if index < self.dirs.len() {
            let p = self.dirs.remove(index);
            self.encrypted.remove(index);
            assert(self@ == old(self)@.remove(index as int));
            Ok(p)
        } else {
            Err(FsError::InvalidIndex)
        }
    }

    /// Sets the flag of the directory at `index`; an index out of range
    /// changes nothing.
    pub fn mark_encrypted(&mut self, index: usize, encrypted: bool)
        requires
            old(self).wf(),
        ensures
            final(self).wf(),
            index < old(self)@.len() ==> final(self)@ == old(self)@.update(
                index as int,
                (old(self)@[index as int].0, encrypted),
            ),
            index >= old(self)@.len() ==> final(self)@ == old(self)@,
    {
        if index < self.encrypted.len() {
            self.encrypted.set(index, encrypted);
            assert(self@ == old(self)@.update(index as int, (old(self)@[index as int].0, encrypted)));
        }
    }

    /// The flag of the directory at `index`; `false` out of range.
    pub fn is_encrypted(&self, index: usize) -> (r: bool)
        requires
            self.wf(),
        ensures
            r == (index < self@.len() && self@[index as int].1),
    {
        index < self.encrypted.len() && self.encrypted[index]
    }
    /// Starts encrypting or decrypting the directory at `index` under a
    /// passphrase. Nothing changes until the run is advanced.
    pub fn begin(&self, index: usize, direction: Direction, passphrase: &str) -> (r: Result<
        BulkRun,
        FsError,
    >)
        requires
            self.wf(),
        ensures
            index >= self@.len() ==> r == Err::<BulkRun, FsError>(FsError::InvalidIndex),
            index < self@.len() ==> (r matches Ok(run) && run.index() == index
                && run.direction() == direction
                && run.key() == key_material(passphrase.spec_bytes()) && !run.pending()
                && !run.finished()),
    {
        if index >= self.dirs.len() {
            return Err(FsError::InvalidIndex);
        }
        let key = derive_key(passphrase);
        Ok(BulkRun { index, direction, key, pending: false, finished: false })
    }

    /// Takes the caller's report on the run and says what to do next.
    ///
    /// A file that was read is encrypted or decrypted and handed back to be
    /// written; a failure, or an event out of turn, ends the run with that
    /// error and leaves every flag as it was. When every file went through,
    /// the run ends in success and the directory's flag says which way the
    /// files went.
    pub fn advance(&mut self, run: &mut BulkRun, event: BulkEvent) -> (action: BulkAction)
        requires
            old(self).wf(),
        ensures
            final(self).wf(),
            final(run).index() == old(run).index(),
            final(run).direction() == old(run).direction(),
            final(run).key() == old(run).key(),
            final(run).finished() <==> action is Finish,
            final(run).pending() <==> action is Write,
            old(run).finished() ==> action == BulkAction::Finish(Err(FsError::OutOfOrder)),
            !old(run).finished() ==> match event {
                BulkEvent::File { name, contents } => if old(run).pending() {
                    action == BulkAction::Finish(Err(FsError::OutOfOrder))
                } else {
                    match old(run).direction() {
                        Direction::Encrypt => (old(run).key().len() == KEY_LEN && contents@.len()
                            <= MAX_SEAL_LEN ==> (action is Write || action == BulkAction::Finish(
                            Err(FsError::Cipher { file: name, cause: CipherError::RandomSource }),
                        ))) && match action {
                            BulkAction::Write(out) => {
                                &&& is_sealing(old(run).key(), contents@, out@)
                                &&& out@.len() == contents@.len() + NONCE_LEN + TAG_LEN
                                &&& decrypted(old(run).key(), out@) == Ok::<Seq<u8>, CipherError>(
                                    contents@,
                                )
                            },
                            BulkAction::Finish(Err(FsError::Cipher { file, cause })) => file == name
                                && (cause == CipherError::RandomSource || cause
                                == CipherError::Seal),
                            _ => false,
                        },
                        Direction::Decrypt => match decrypted(old(run).key(), contents@) {
                            Ok(p) => action matches BulkAction::Write(out) && out@ == p
                                && contents@.len() >= NONCE_LEN + TAG_LEN && out@.len()
                                == contents@.len() - NONCE_LEN - TAG_LEN && is_sealing(
                                old(run).key(),
                                out@,
                                contents@,
                            ),
                            Err(e) => action == BulkAction::Finish(
                                Err(FsError::Cipher { file: name, cause: e }),
                            ),
                        },
                    }
                },
                BulkEvent::Written => if old(run).pending() {
                    action == BulkAction::ReadNext
                } else {
                    action == BulkAction::Finish(Err(FsError::OutOfOrder))
                },
                BulkEvent::Failed(msg) => action == BulkAction::Finish(Err(FsError::Io(msg))),
                BulkEvent::Exhausted => if old(run).pending() {
                    action == BulkAction::Finish(Err(FsError::OutOfOrder))
                } else if old(run).index() >= old(self)@.len() {
                    action == BulkAction::Finish(Err(FsError::InvalidIndex))
                } else {
                    action == BulkAction::Finish(Ok(()))
                },
            },
            action == BulkAction::Finish(Ok(())) ==> old(run).index() < old(self)@.len()
                && final(self)@ == old(self)@.update(
                old(run).index() as int,
                (
                    old(self)@[old(run).index() as int].0,
                    old(run).direction() == Direction::Encrypt,
                ),
            ),
            action != BulkAction::Finish(Ok(())) ==> final(self)@ == old(self)@,
    {
        if run.finished {
            run.pending = false;
            return BulkAction::Finish(Err(FsError::OutOfOrder));
        }
        match event {
            BulkEvent::File { name, contents } => {
                if run.pending {
                    run.pending = false;
                    run.finished = true;
                    return BulkAction::Finish(Err(FsError::OutOfOrder));
                }
                let outcome = match run.direction {
                    Direction::Encrypt => encrypt_with_key(contents, &run.key),
                    Direction::Decrypt => open_with_key(contents, &run.key),
                };
                match outcome {
                    Ok(out) => {
                        run.pending = true;
                        BulkAction::Write(out)
                    },
                    Err(cause) => {
                        run.finished = true;
                        BulkAction::Finish(Err(FsError::Cipher { file: name, cause }))
                    },
                }
            },
            BulkEvent::Written => {
                if run.pending {
                    run.pending = false;
                    BulkAction::ReadNext
                } else {
                    run.finished = true;
                    BulkAction::Finish(Err(FsError::OutOfOrder))
                }
            },
            BulkEvent::Failed(msg) => {
                run.pending = false;
                run.finished = true;
                BulkAction::Finish(Err(FsError::Io(msg)))
            },
            BulkEvent::Exhausted => {
                run.finished = true;
                if run.pending {
                    run.pending = false;
                    BulkAction::Finish(Err(FsError::OutOfOrder))
                } else if run.index >= self.dirs.len() {
                    BulkAction::Finish(Err(FsError::InvalidIndex))
                } else {
                    self.mark_encrypted(run.index, run.direction == Direction::Encrypt);
                    BulkAction::Finish(Ok(()))
                }
            },
        }
    }
}

} // verus!
