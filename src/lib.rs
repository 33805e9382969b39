//! Cross-platform file identity.
//!
//! A [`FileId`] names a file within a filesystem: two identities compare
//! equal exactly when they were read from the same file, for as long as that
//! file stays alive. A [`Handle`] pairs an open file-like resource with its
//! identity, so that the identity stays meaningful for the handle's lifetime.
//! Reading an identity from the operating system is left to the caller; this
//! crate holds the value types, their order, and the decisions built on them.
//! Unix-like systems identify a file by device and inode, volume-based
//! systems by volume serial and file identifier; [`FileId`] holds either.
//! [`FileIdentity`] stands in on platforms that offer no identities at all.

mod file_id;
mod handle;
mod same_file;
mod unsupported;

pub use file_id::{
    check_disk_handle, lemma_eq_iff_neither_less, lemma_le_transitive, lemma_lt_transitive,
    lemma_order_antisymmetric, lex_order, FileId,
};
pub use handle::{lemma_handle_eq_equivalence, lemma_handles_follow_identities, Handle};
pub use same_file::is_same_file;
pub use unsupported::{error, FileIdentity, RawOsFile, ERROR_MESSAGE};
