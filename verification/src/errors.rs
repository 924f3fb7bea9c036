//! Error taxonomy for the server and conversion into it.

use vstd::prelude::*;

verus! {

/// What went wrong, as a closed set of causes.
#[derive(Debug, Clone, Copy, PartialEq, Eq, Structural)]
pub enum ErrorKind {
    /// The pool was asked for zero workers.
    InvalidConfig,
    /// The listener could not bind its address.
    BindError,
    /// The request line is missing tokens.
    MalformedRequest,
    /// The request method is not `GET`.
    UnsupportedMethod,
    /// The request version is not `HTTP/1.1`.
    UnsupportedVersion,
    /// The request path does not start with `/`.
    MalformedPath,
    /// A read or write on a socket, a file, or a lock failed.
    IoError,
    /// A status code outside the produced set was asked for.
    UnknownStatusCode,
}

/// The error type every fallible operation of this crate returns.
#[derive(Debug, Clone, Copy, PartialEq, Eq, Structural)]
pub struct WebServerError(pub ErrorKind);

impl WebServerError {
    /// The cause this error carries.
    pub open spec fn kind(self) -> ErrorKind {
        self.0
    }
}

/// Conversion of a foreign fallible outcome into this crate's `Result`.
///
/// `conversion_ok` and `converted_value` say, per implementing type, which
/// values convert successfully and to what.
pub trait ConvertibleToResult<T>: Sized {
    /// Whether `self` converts to an `Ok` value.
    spec fn conversion_ok(&self) -> bool;

    /// The value `self` converts to, when `conversion_ok` holds.
    spec fn converted_value(&self) -> T;

    /// Convert, keeping a success and turning any failure into a
    /// `WebServerError`.
    fn to_web_server_result(self) -> (r: Result<T, WebServerError>)
        ensures
            self.conversion_ok() ==> r == Result::<T, WebServerError>::Ok(self.converted_value()),
            !self.conversion_ok() ==> r is Err,
    ;
}

impl<T, E> ConvertibleToResult<T> for Result<T, E> {
    open spec fn conversion_ok(&self) -> bool {
        self is Ok
    }

    open spec fn converted_value(&self) -> T {
        self->Ok_0
    }

    fn to_web_server_result(self) -> (r: Result<T, WebServerError>) {
        match self {
            Ok(value) => Ok(value),
            Err(_) => Err(WebServerError(ErrorKind::IoError)),
        }
    }
}

} // verus!
