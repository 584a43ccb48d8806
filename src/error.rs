use vstd::prelude::*;

use crate::text::{format_int, int_text};

verus! {

/// Why a call failed.
#[derive(Debug)]
pub enum Error {
    /// The server refused the credential (status 401 or 403).
    Auth { status_code: u16, message: String },
    /// Any other status outside [200, 300), or a success body of the wrong shape.
    Api { status_code: u16, message: String, body: String },
    /// The request could not be completed at all; the transport's own
    /// description of the failure.
    Network(String),
}

impl Error {
    /// One line that describes the error.
    pub fn to_display_string(&self) -> (r: String)
        ensures
            match self {
                Error::Auth { status_code, message } => r@ == "auth error "@ + int_text(
                    *status_code as int,
                ) + ": "@ + message@,
                Error::Api { status_code, message, .. } => r@ == "API error "@ + int_text(
                    *status_code as int,
                ) + ": "@ + message@,
                Error::Network(text) => r@ == "network error: "@ + text@,
            },
    {
        match self {
            Error::Auth { status_code, message } => {
                let mut r = String::from_str("auth error ");
                r.append(format_int(*status_code as i64).as_str());
                r.append(": ");
                r.append(message.as_str());
                r
            },
            Error::Api { status_code, message, .. } => {
                let mut r = String::from_str("API error ");
                r.append(format_int(*status_code as i64).as_str());
                r.append(": ");
                r.append(message.as_str());
                r
            },
            Error::Network(e) => {
                let mut r = String::from_str("network error: ");
                r.append(e.as_str());
                r
            },
        }
    }
}

} // verus!
