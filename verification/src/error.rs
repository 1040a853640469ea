use vstd::prelude::*;

use crate::text::joined;

verus! {

/// The standard library's I/O error, carried opaquely.
#[verifier::external_type_specification]
#[verifier::external_body]
pub struct ExIoError(std::io::Error);

/// serde_json's (de)serialisation error, carried opaquely.
#[verifier::external_type_specification]
#[verifier::external_body]
pub struct ExSerdeJsonError(serde_json::Error);

/// Everything that can go wrong while talking to Aegis.
#[derive(Debug)]
pub enum AegisError {
    Connection(String),
    Registration(String),
    Io(std::io::Error),
    Json(serde_json::Error),
    Timeout,
}

pub type Result<T> = std::result::Result<T, AegisError>;

/// `s` is how [`AegisError::to_string`] renders `err`: a fixed prefix per
/// kind, followed by the message, or by the `Display` text of the I/O or
/// JSON error it wraps.
pub open spec fn describes(err: AegisError, s: Seq<char>) -> bool {
    match err {
        AegisError::Connection(m) => s == "connection error: "@ + m@,
        AegisError::Registration(m) => s == "registration error: "@ + m@,
        AegisError::Io(x) => exists|inner: String|
            vstd::string::to_string_from_display_ensures::<std::io::Error>(&x, inner) && s
                == "I/O error: "@ + inner@,
        AegisError::Json(x) => exists|inner: String|
            vstd::string::to_string_from_display_ensures::<serde_json::Error>(&x, inner) && s
                == "JSON error: "@ + inner@,
        AegisError::Timeout => s == "read timeout"@,
    }
}

impl AegisError {
    /// The human-readable text of the error.
    pub fn to_string(&self) -> (s: String)
        ensures
            describes(*self, s@),
    {
        match self {
            AegisError::Connection(m) => joined("connection error: ", m.as_str()),
            AegisError::Registration(m) => joined("registration error: ", m.as_str()),
            AegisError::Io(e) => {
                let inner = e.to_string();
                joined("I/O error: ", inner.as_str())
            },
            AegisError::Json(e) => {
                let inner = e.to_string();
                joined("JSON error: ", inner.as_str())
            },
            AegisError::Timeout => "read timeout".to_string(),
        }
    }
}

} // verus!
