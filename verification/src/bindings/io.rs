use vstd::prelude::*;

verus! {

/// `std::io::Error`.
#[verifier::external_type_specification]
#[verifier::external_body]
pub struct ExIoError(std::io::Error);

/// The kinds of I/O error that the library tells apart; every other kind is
/// `Other`.
#[derive(Clone, Copy, PartialEq, Eq, Debug)]
pub enum IoErrorKind {
    AlreadyExists,
    BrokenPipe,
    ConnectionReset,
    ConnectionAborted,
    ConnectionRefused,
    InvalidData,
    InvalidInput,
    IsADirectory,
    NotADirectory,
    PermissionDenied,
    NotFound,
    TimedOut,
    Other,
}

/// Calls `std::io::Error::kind` and tells the kinds above apart. Nothing is
/// stated of the kind: an error made by the operating system gets its kind
/// from the machine's error code.
#[verifier::external_body]
pub fn io_error_kind(error: &std::io::Error) -> (r: IoErrorKind) {

    match error.kind() {
        std::io::ErrorKind::AlreadyExists => IoErrorKind::AlreadyExists,
        std::io::ErrorKind::BrokenPipe => IoErrorKind::BrokenPipe,
        std::io::ErrorKind::ConnectionReset => IoErrorKind::ConnectionReset,
        std::io::ErrorKind::ConnectionAborted => IoErrorKind::ConnectionAborted,
        std::io::ErrorKind::ConnectionRefused => IoErrorKind::ConnectionRefused,
        std::io::ErrorKind::InvalidData => IoErrorKind::InvalidData,
        std::io::ErrorKind::InvalidInput => IoErrorKind::InvalidInput,
        std::io::ErrorKind::IsADirectory => IoErrorKind::IsADirectory,
        std::io::ErrorKind::NotADirectory => IoErrorKind::NotADirectory,
        std::io::ErrorKind::PermissionDenied => IoErrorKind::PermissionDenied,
        std::io::ErrorKind::NotFound => IoErrorKind::NotFound,
        std::io::ErrorKind::TimedOut => IoErrorKind::TimedOut,
        _ => IoErrorKind::Other,
    }
}

/// Calls `ToString::to_string` on the error, its `Display` text. Nothing
/// is stated of the text: for errors of the operating system it is the
/// machine's message.
#[verifier::external_body]
pub fn io_error_text(error: &std::io::Error) -> (r: String) {
    format!("{}", error)
}

} // verus!
