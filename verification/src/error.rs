//! The errors that the library hands to its callers.

use vstd::prelude::*;

verus! {

#[verifier::external_type_specification]
#[verifier::external_body]
pub struct ExIoError(std::io::Error);

#[verifier::external_type_specification]
#[verifier::external_body]
pub struct ExJsonError(serde_json::Error);

#[verifier::external_type_specification]
#[verifier::external_body]
pub struct ExTransportError(reqwest::Error);

/// Why an operation failed.
#[derive(Debug)]
pub enum CustomError {
    /// Reading or writing failed.
    IO(std::io::Error),
    /// A text was not JSON, or a JSON document was not the record asked for.
    Serde(serde_json::Error),
    /// A request could not be exchanged with the server.
    Reqwest(reqwest::Error),
    /// Any other failure, with its message.
    Other(String),
}

impl CustomError {
    /// The message of each error: the name of its source, or the message
    /// that it carries.
    pub open spec fn message(self) -> Seq<char> {
        match self {
            CustomError::IO(_) => "IO"@,
            CustomError::Serde(_) => "serde_json"@,
            CustomError::Reqwest(_) => "reqwest"@,
            CustomError::Other(message) => message@,
        }
    }

    /// The message of this error.
    pub fn describe(&self) -> (message: String)
        ensures
            message@ == self.message(),
    {
        match self {
            CustomError::IO(_) => String::from_str("IO"),
            CustomError::Serde(_) => String::from_str("serde_json"),
            CustomError::Reqwest(_) => String::from_str("reqwest"),
            CustomError::Other(message) => message.clone(),
        }
    }
}

impl From<std::io::Error> for CustomError {
    fn from(error: std::io::Error) -> (wrapped: CustomError) {
        CustomError::IO(error)
    }
}

impl vstd::std_specs::convert::FromSpecImpl<std::io::Error> for CustomError {
    open spec fn obeys_from_spec() -> bool {
        true
    }

    open spec fn from_spec(error: std::io::Error) -> CustomError {
        CustomError::IO(error)
    }
}

impl From<serde_json::Error> for CustomError {
    fn from(error: serde_json::Error) -> (wrapped: CustomError) {
        CustomError::Serde(error)
    }
}

impl vstd::std_specs::convert::FromSpecImpl<serde_json::Error> for CustomError {
    open spec fn obeys_from_spec() -> bool {
        true
    }

    open spec fn from_spec(error: serde_json::Error) -> CustomError {
        CustomError::Serde(error)
    }
}

impl From<reqwest::Error> for CustomError {
    fn from(error: reqwest::Error) -> (wrapped: CustomError) {
        CustomError::Reqwest(error)
    }
}

impl vstd::std_specs::convert::FromSpecImpl<reqwest::Error> for CustomError {
    open spec fn obeys_from_spec() -> bool {
        true
    }

    open spec fn from_spec(error: reqwest::Error) -> CustomError {
        CustomError::Reqwest(error)
    }
}

} // verus!
