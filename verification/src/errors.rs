//! Errors of the gateway to the game server.

use crate::shared::ErrorMessage;
use vstd::prelude::*;

verus! {

/// Why a call to the game server failed.
#[derive(Debug, Clone, PartialEq, Eq)]
pub enum ClientError {
    /// The server is down for maintenance.
    ServiceUnavailable,
    /// The token was refused.
    Unauthorized,
    /// The server answered with its error envelope.
    ApiError(ErrorMessage),
    /// The transport failed, or the status has no other reading.
    Http(String),
    /// The body was neither the expected value nor an error envelope.
    JsonParse(String),
    /// The server throttled the retry as well.
    TooManyRetries,
}

/// Why the game status could not be read.
#[derive(Debug, Clone, PartialEq, Eq)]
pub enum GameStatusError {
    ServiceUnavailable,
    HttpError(String),
    ParseError(String),
}

impl ClientError {
    /// The error calls for the whole process to stop: the server is in
    /// maintenance or no longer knows the account.
    pub open spec fn spec_is_fatal(&self) -> bool {
        self is ServiceUnavailable || self is Unauthorized
    }

    #[verifier::when_used_as_spec(spec_is_fatal)]
    pub fn is_fatal(&self) -> (fatal: bool)
        ensures
            fatal == self.spec_is_fatal(),
    {
        match self {
            ClientError::ServiceUnavailable => true,
            ClientError::Unauthorized => true,
            _ => false,
        }
    }
}

impl GameStatusError {
    /// The error as one line of text.
    pub open spec fn spec_text(self) -> Seq<char> {
        match self {
            GameStatusError::ServiceUnavailable => "SpaceTraders API is down for maintenance"@,
            GameStatusError::HttpError(cause) => "Http Client error: "@ + cause@,
            GameStatusError::ParseError(cause) => "Error parsing game status response: "@ + cause@,
        }
    }

    /// Writes the error as one line of text.
    pub fn to_string(&self) -> (text: String)
        ensures
            text@ == self.spec_text(),
    {
        match self {
            GameStatusError::ServiceUnavailable => String::from_str(
                "SpaceTraders API is down for maintenance",
            ),
            GameStatusError::HttpError(cause) => String::from_str("Http Client error: ").concat(
                cause.as_str(),
            ),
            GameStatusError::ParseError(cause) => String::from_str(
                "Error parsing game status response: ",
            ).concat(cause.as_str()),
        }
    }
}

} // verus!
