use vstd::prelude::*;

verus! {

/// The identity of a file: the device (or volume) that holds it, and its
/// number on that device.
///
/// Unix-like systems give a device number and a 64-bit inode number.
/// Volume-based systems give a volume serial number and a 128-bit file
/// identifier. Two identities are equal exactly when both numbers are. That
/// means "same file" only while the files compared are kept alive and open:
/// an inode number is handed out again once its file is gone, and a file
/// identifier is not promised to stay stable across a close and a reopen on
/// every filesystem.
#[derive(Debug, Clone, Copy, PartialEq, Eq, Structural, Hash, Ord)]
pub struct FileId {
    dev: u64,
    ino: u128,
}

/// Lexicographic order on (device, number) pairs: device first, then number.
pub open spec fn lex_order(a: (u64, u128), b: (u64, u128)) -> core::cmp::Ordering {
    if a.0 < b.0 {
        core::cmp::Ordering::Less
    } else if a.0 > b.0 {
        core::cmp::Ordering::Greater
    } else if a.1 < b.1 {
        core::cmp::Ordering::Less
    } else if a.1 > b.1 {
        core::cmp::Ordering::Greater
    } else {
        core::cmp::Ordering::Equal
    }
}

impl View for FileId {
    type V = (u64, u128);

    closed spec fn view(&self) -> (u64, u128) {
        (self.dev, self.ino)
    }
}

impl FileId {
    /// Builds an identity from the device and inode numbers found in a
    /// file's metadata.
    pub fn from_metadata(dev: u64, ino: u64) -> (r: FileId)
        ensures
            r@ == (dev, ino as u128),
    {
        FileId { dev, ino: ino as u128 }
    }

    /// Builds an identity from the volume serial number and the file
    /// identifier reported for an open file, the identifier's sixteen bytes
    /// read as one big-endian number.
    pub fn from_file_id_info(volume_serial: u64, file_id: u128) -> (r: FileId)
        ensures
            r@ == (volume_serial, file_id),
    {
        FileId { dev: volume_serial, ino: file_id }
    }

    /// The device number, or the volume serial number.
    pub fn dev(&self) -> (r: u64)
        ensures
            r == self@.0,
    {
        self.dev
    }

    /// The inode number, or the file identifier.
    pub fn ino(&self) -> (r: u128)
        ensures
            r == self@.1,
    {
        self.ino
    }

    /// Two identities are equal exactly when their views are.
    pub proof fn lemma_eq_iff_view_eq(a: FileId, b: FileId)
        ensures
            (a == b) <==> (a@ == b@),
    {
    }
}

/// Identities are ordered as their (device, number) pairs, lexicographically;
/// `<=` under that order is transitive.
pub proof fn lemma_le_transitive(a: FileId, b: FileId, c: FileId)
    requires
        lex_order(a@, b@) != core::cmp::Ordering::Greater,
        lex_order(b@, c@) != core::cmp::Ordering::Greater,
    ensures
        lex_order(a@, c@) != core::cmp::Ordering::Greater,
{
}

/// `<` is transitive.
pub proof fn lemma_lt_transitive(a: FileId, b: FileId, c: FileId)
    requires
        lex_order(a@, b@) == core::cmp::Ordering::Less,
        lex_order(b@, c@) == core::cmp::Ordering::Less,
    ensures
        lex_order(a@, c@) == core::cmp::Ordering::Less,
{
}

/// Swapping the operands reverses the order: `a < b` exactly when `b > a`.
pub proof fn lemma_order_antisymmetric(a: FileId, b: FileId)
    ensures
        (lex_order(a@, b@) == core::cmp::Ordering::Less) <==> (lex_order(b@, a@)
            == core::cmp::Ordering::Greater),
        (lex_order(a@, b@) == core::cmp::Ordering::Equal) <==> (lex_order(b@, a@)
            == core::cmp::Ordering::Equal),
{
}

/// The order agrees with equality: two identities are equal exactly when
/// neither is less than the other.
pub proof fn lemma_eq_iff_neither_less(a: FileId, b: FileId)
    ensures
        (a == b) <==> (lex_order(a@, b@) != core::cmp::Ordering::Less && lex_order(b@, a@)
            != core::cmp::Ordering::Less),
        (a == b) <==> (lex_order(a@, b@) == core::cmp::Ordering::Equal),
{
}

/// Only a handle on a disk file has an identity to read. Succeeds exactly
/// when `file_type` is `disk_type`; otherwise gives back the handle's type,
/// for the error that names it.
pub fn check_disk_handle(file_type: u32, disk_type: u32) -> (r: Result<(), u32>)
    ensures
        r is Ok <==> file_type == disk_type,
        r is Err ==> r->Err_0 == file_type,
{
    if file_type == disk_type {
        Ok(())
    } else {
        Err(file_type)
    }
}

impl PartialOrd for FileId {
    fn partial_cmp(&self, other: &FileId) -> (r: Option<core::cmp::Ordering>) {
        if self.dev < other.dev {
            Some(core::cmp::Ordering::Less)
        } else if self.dev > other.dev {
            Some(core::cmp::Ordering::Greater)
        } else if self.ino < other.ino {
            Some(core::cmp::Ordering::Less)
        } else if self.ino > other.ino {
            Some(core::cmp::Ordering::Greater)
        } else {
            Some(core::cmp::Ordering::Equal)
        }
    }
}

impl vstd::std_specs::cmp::PartialOrdSpecImpl for FileId {
    open spec fn obeys_partial_cmp_spec() -> bool {
        true
    }

    open spec fn partial_cmp_spec(&self, other: &FileId) -> Option<core::cmp::Ordering> {
        Some(lex_order(self@, other@))
    }
}

} // verus!
