//! Folder encryption engine: per-file authenticated encryption under a
//! passphrase, and the tracked-directory store that drives it over folders.

pub mod cipher;
pub mod store;

pub use cipher::{decrypt_data, derive_key, encrypt_data, CipherError};
pub use store::{BulkAction, BulkEvent, BulkRun, Direction, FileSystem, FsError, ListedEntry};
