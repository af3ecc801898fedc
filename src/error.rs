use vstd::prelude::*;
use crate::text::{decimal, decimal_string};

verus! {

/// Every failure that a request or a download can end in.
#[derive(Debug, Clone, PartialEq, Eq)]
pub enum HttpError {
    /// An unexpected status code, or a response that lacks what the transfer needs.
    BadResponse(usize, String),
    /// The address could not be split into scheme, host and path.
    InvalidUrl(String),
    /// A malformed number, header or message; also failures of an open channel.
    ParseError(String),
    /// The channel, or its secure session, could not be set up.
    ConnectionError(String),
}

impl HttpError {
    /// The status code carried by a `BadResponse`, if this is one.
    pub fn status(&self) -> (r: Option<usize>)
        ensures
            r == (match self {
                HttpError::BadResponse(code, _) => Some(*code),
                _ => None::<usize>,
            }),
    {
        match self {
            HttpError::BadResponse(code, _) => Some(*code),
            _ => None,
        }
    }

    /// The message that the error carries.
    pub fn message(&self) -> (r: &String)
        ensures
            r == (match self {
                HttpError::BadResponse(_, m) => m,
                HttpError::InvalidUrl(m) => m,
                HttpError::ParseError(m) => m,
                HttpError::ConnectionError(m) => m,
            }),
    {
        match self {
            HttpError::BadResponse(_, m) => m,
            HttpError::InvalidUrl(m) => m,
            HttpError::ParseError(m) => m,
            HttpError::ConnectionError(m) => m,
        }
    }

    /// The text that describes the error to a person.
    pub open spec fn text_spec(self) -> Seq<char> {
        match self {
            HttpError::BadResponse(code, m) => decimal(code as nat) + ": "@ + m@,
            HttpError::ParseError(m) => m@,
            HttpError::InvalidUrl(m) => "Invalid Url: `"@ + m@ + "`"@,
            HttpError::ConnectionError(m) => "Connection error: `"@ + m@ + "`"@,
        }
    }

    /// The text that describes the error to a person.
    pub fn to_text(&self) -> (r: String)
        ensures
            r@ == self.text_spec(),
    {
        match self {
            HttpError::BadResponse(code, m) => decimal_string(*code).concat(": ").concat(m.as_str()),
            HttpError::ParseError(m) => m.clone(),
            HttpError::InvalidUrl(m) => "Invalid Url: `".to_owned().concat(m.as_str()).concat("`"),
            HttpError::ConnectionError(m) => "Connection error: `".to_owned().concat(m.as_str()).concat(
                "`",
            ),
        }
    }
}

} // verus!
