//! The error type shared by the whole crate.

use vstd::prelude::*;
use vstd::std_specs::convert::FromSpecImpl;

verus! {

/// `std::io::Error`, of which nothing is known here but that it is a value.
#[verifier::external_type_specification]
#[verifier::external_body]
pub struct ExIoError(std::io::Error);

/// The error type potentially returned by many functions in this crate.
#[derive(Debug)]
#[non_exhaustive]
pub enum Error {
    /// Library initialization failed.
    Init,
    /// An invalid argument was passed to a function.
    InvalidArgument,
    /// Standard IO error.
    Io(std::io::Error),
    /// Unspecified error from the native engine.
    Unknown,
}

impl From<std::io::Error> for Error {
    fn from(err: std::io::Error) -> (r: Self) {
        Error::Io(err)
    }
}

impl FromSpecImpl<std::io::Error> for Error {
    open spec fn obeys_from_spec() -> bool {
        true
    }

    open spec fn from_spec(err: std::io::Error) -> Self {
        Error::Io(err)
    }
}

/// `to_string` on a `std::io::Error`: the text that the IO error displays.
/// The text may come from the operating system, so nothing is claimed of it.
#[verifier::external_body]
fn io_error_text(err: &std::io::Error) -> (text: String) {
    err.to_string()
}

impl Error {
    /// The text of each variant that carries no payload.
    pub open spec fn fixed_message(self) -> Seq<char> {
        match self {
            Error::Init => "Library initialization failed"@,
            Error::InvalidArgument => "Invalid argument"@,
            Error::Unknown => "Unspecified error"@,
            Error::Io(_) => Seq::empty(),
        }
    }

    /// Maps a native status code to a result: a negative code is a failure
    /// without further detail, anything else is success.
    pub fn from_status(status: i32) -> (r: Result<(), Error>)
        ensures
            status < 0 <==> r is Err,
            r is Err ==> r->Err_0 is Unknown,
    {
        if status < 0 {
            Err(Error::Unknown)
        } else {
            Ok(())
        }
    }

    /// A human-readable description of the error. For an IO error this is the
    /// description of the underlying error.
    pub fn message(&self) -> (text: String)
        ensures
            !(*self is Io) ==> text@ == self.fixed_message(),
    {
        match self {
            Error::Init => "Library initialization failed".to_string(),
            Error::InvalidArgument => "Invalid argument".to_string(),
            Error::Io(err) => io_error_text(err),
            Error::Unknown => "Unspecified error".to_string(),
        }
    }

    /// The lower-level cause of this error: the IO error it wraps, if any.
    pub fn source(&self) -> (cause: Option<&std::io::Error>)
        ensures
            cause == match *self {
                Error::Io(err) => Some(&err),
                _ => None,
            },
    {
        match self {
            Error::Io(err) => Some(err),
            _ => None,
        }
    }
}

} // verus!
