use vstd::prelude::*;
use reqwest::Error as HttpError;
use serde_json::Error as JsonError;

verus! {

/// `reqwest::Error`, the error of a failed HTTP request.
#[verifier::external_type_specification]
#[verifier::external_body]
pub struct ExHttpError(HttpError);

/// What can go wrong in a client.
pub enum Error {
    /// The socket connection failed or could not be closed; the text says why.
    SocketIo(String),
    /// An HTTP request failed.
    Http(HttpError),
    /// A value could not be turned into JSON or back.
    Serialization(JsonError),
    /// The client is not connected.
    NotConnected,
    /// A handler failed; the text says why.
    Handler(String),
    /// The configuration is unusable; the text says why.
    Config(String),
}

/// A result whose error is an [`Error`].
pub type Result<T> = std::result::Result<T, Error>;

impl From<HttpError> for Error {
    fn from(e: HttpError) -> (r: Error) {
        Error::Http(e)
    }
}

impl vstd::std_specs::convert::FromSpecImpl<HttpError> for Error {
    open spec fn obeys_from_spec() -> bool {
        true
    }

    open spec fn from_spec(v: HttpError) -> Error {
        Error::Http(v)
    }
}

impl From<JsonError> for Error {
    fn from(e: JsonError) -> (r: Error) {
        Error::Serialization(e)
    }
}

impl vstd::std_specs::convert::FromSpecImpl<JsonError> for Error {
    open spec fn obeys_from_spec() -> bool {
        true
    }

    open spec fn from_spec(v: JsonError) -> Error {
        Error::Serialization(v)
    }
}

} // verus!
