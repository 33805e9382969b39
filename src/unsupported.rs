use vstd::prelude::*;

verus! {

/// `std::io::Error`, carried through as an opaque value.
#[verifier::external_type_specification]
#[verifier::external_body]
pub struct ExIoError(std::io::Error);

/// The message of the error that every operation reports on a platform with
/// no way to read file identities.
pub const ERROR_MESSAGE: &'static str = "same-file is not supported on this platform.";

/// `std::io::ErrorKind`, the category of an I/O error.
#[verifier::external_type_specification]
pub struct ExErrorKind(std::io::ErrorKind);

/// Relies on `std::io::Error::new`: an error of the given kind carrying `msg`.
#[verifier::external_body]
fn new_io_error(kind: std::io::ErrorKind, msg: &str) -> (r: std::io::Error) {
    std::io::Error::new(kind, msg)
}

/// The identity of a file on a platform that has none to offer. No value of
/// it is ever handed out: reading one always fails.
#[derive(Debug, Clone, Copy, PartialEq, Eq, Structural, PartialOrd, Ord, Hash)]
pub struct FileIdentity {
    unreadable: Unreadable,
}

/// A private, data-free marker: nothing outside this module can build a
/// [`FileIdentity`], and nothing inside it does.
#[derive(Debug, Clone, Copy, PartialEq, Eq, Structural, PartialOrd, Ord, Hash)]
struct Unreadable;

/// A raw file resource on a platform whose files carry no identity.
#[derive(Debug)]
pub struct RawOsFile;

/// The failure that every operation gives on a platform with no way to read
/// file identities: an error of kind `Other`.
pub fn error<T>() -> (r: std::io::Result<T>)
    ensures
        r is Err,
{
    Err(new_io_error(std::io::ErrorKind::Other, ERROR_MESSAGE))
}

impl FileIdentity {
    /// Reading an identity always fails here.
    pub fn from_os_file(_f: RawOsFile) -> (r: std::io::Result<FileIdentity>)
        ensures
            r is Err,
    {
        error()
    }
}

} // verus!
