//! The I/O errors that the start-up protocol inspects.
use vstd::prelude::*;

verus! {

/// Makes `std::io::Error` known to Verus as an opaque type, so that errors
/// can be carried through the pid file protocol.
#[verifier::external_type_specification]
#[verifier::external_body]
pub struct ExIoError(std::io::Error);

/// The kinds of I/O failure that the start-up protocol tells apart.
#[derive(Clone, Copy, Debug, PartialEq, Eq, Structural)]
pub enum IoErrorKind {
    WouldBlock,
    AlreadyExists,
    UnexpectedEof,
    Other,
}

/// Calls `std::io::Error::kind` and sorts the kind into [`IoErrorKind`].
/// Nothing is stated of the result: for an error that came from the
/// operating system the kind is read off the platform's error-number table.
#[verifier::external_body]
pub(crate) fn io_error_kind(err: &std::io::Error) -> IoErrorKind {
    match err.kind() {
        std::io::ErrorKind::WouldBlock => IoErrorKind::WouldBlock,
        std::io::ErrorKind::AlreadyExists => IoErrorKind::AlreadyExists,
        std::io::ErrorKind::UnexpectedEof => IoErrorKind::UnexpectedEof,
        _ => IoErrorKind::Other,
    }
}

/// Whether `kind` is a kind that [`io_error_kind`] reports for `err`: it holds
/// of the kind that a call of it on `err` returned.
pub closed spec fn reported_kind(err: std::io::Error, kind: IoErrorKind) -> bool {
    call_ensures(io_error_kind, (&err,), kind)
}

/// The kind of `err`, as [`io_error_kind`] reports it.
pub(crate) fn kind_of(err: &std::io::Error) -> (kind: IoErrorKind)
    ensures
        reported_kind(*err, kind),
{
    let report = io_error_kind;
    report(err)
}

} // verus!
