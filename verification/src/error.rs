//! The ways a request can fail, and what each failure looks like from outside.

use vstd::prelude::*;

verus! {

/// Why a request produced no payload.
#[derive(Debug, PartialEq, Eq)]
pub enum Error {
    /// The remote address does not decode to a well-formed absolute URL.
    InvalidURL,
    /// The remote server took too long. Nothing in this library reports it:
    /// no deadline is set on a download.
    RequestTimeOut,
    /// The local image is missing or cannot be read.
    ImageDoesntExist,
    /// The remote server announced a body longer than the download cap.
    RequestedImageToLarge,
    /// The bytes obtained are not an image that the decoder understands.
    InvalidImage,
    /// The transport failed while the remote image was fetched. The text is
    /// the cause, kept for the log only.
    InternalError(String),
}

/// "The request was malformed."
pub const STATUS_BAD_REQUEST: u16 = 400;

/// "There is no such resource."
pub const STATUS_NOT_FOUND: u16 = 404;

/// "The server failed."
pub const STATUS_INTERNAL_SERVER_ERROR: u16 = 500;

/// The status code under which `error` is reported.
pub open spec fn status_of(error: Error) -> u16 {
    match error {
        Error::InvalidURL => STATUS_BAD_REQUEST,
        Error::RequestTimeOut => STATUS_INTERNAL_SERVER_ERROR,
        Error::ImageDoesntExist => STATUS_NOT_FOUND,
        Error::RequestedImageToLarge => STATUS_BAD_REQUEST,
        Error::InvalidImage => STATUS_BAD_REQUEST,
        Error::InternalError(_) => STATUS_INTERNAL_SERVER_ERROR,
    }
}

/// The text that describes `error` to the requester. It never holds the
/// cause of a transport failure.
pub open spec fn message_of(error: Error) -> Seq<char> {
    match error {
        Error::InvalidURL => "Invalid URL"@,
        Error::RequestTimeOut => "Request to remote server timed out"@,
        Error::ImageDoesntExist => "The requested image doesnt exist"@,
        Error::RequestedImageToLarge => "Requested image is to large"@,
        Error::InvalidImage => "The requested image was invalid"@,
        Error::InternalError(_) => "Internal error"@,
    }
}

impl Error {
    /// The status code under which this error is reported.
    pub fn status(&self) -> (code: u16)
        ensures
            code == status_of(*self),
    {
        match self {
            Error::InvalidURL => STATUS_BAD_REQUEST,
            Error::RequestTimeOut => STATUS_INTERNAL_SERVER_ERROR,
            Error::ImageDoesntExist => STATUS_NOT_FOUND,
            Error::RequestedImageToLarge => STATUS_BAD_REQUEST,
            Error::InvalidImage => STATUS_BAD_REQUEST,
            Error::InternalError(_) => STATUS_INTERNAL_SERVER_ERROR,
        }
    }

    /// The text that describes this error to the requester.
    pub fn message(&self) -> (text: String)
        ensures
            text@ == message_of(*self),
    {
        match self {
            Error::InvalidURL => "Invalid URL".to_owned(),
            Error::RequestTimeOut => "Request to remote server timed out".to_owned(),
            Error::ImageDoesntExist => "The requested image doesnt exist".to_owned(),
            Error::RequestedImageToLarge => "Requested image is to large".to_owned(),
            Error::InvalidImage => "The requested image was invalid".to_owned(),
            Error::InternalError(_) => "Internal error".to_owned(),
        }
    }

    /// The status code and the body of the response that reports this error.
    pub fn into_response(self) -> (response: (u16, String))
        ensures
            response.0 == status_of(self),
            response.1@ == message_of(self),
    {
        let code = self.status();
        let text = self.message();
        (code, text)
    }
}

} // verus!
