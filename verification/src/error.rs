//! The error taxonomy of the client.

use vstd::prelude::*;

verus! {

/// Everything that can go wrong in the client.
///
/// - `MissingGasKey`: the credential handed to [`crate::Aethokit::new`] was
///   empty or all-whitespace; no client is created.
/// - `Http`: a transport-level failure before any status code was known;
///   carries a description of the underlying cause.
/// - `UnexpectedStatus`: a response arrived but its status was not 2xx;
///   carries the status code and the raw body text verbatim.
/// - `Serde`: the status was 2xx but the body could not be decoded into the
///   expected JSON shape; carries the raw body text.
#[derive(Debug, Clone)]
pub enum AethokitError {
    MissingGasKey,
    Http(String),
    UnexpectedStatus { status: u16, body: String },
    Serde(String),
}

impl AethokitError {
    /// A short human-readable description, in place of a `Display` impl.
    pub fn describe(&self) -> (r: &'static str)
        ensures
            self is MissingGasKey ==> r@ == "GAS KEY is required to initialize the SDK"@,
            self is Http ==> r@ == "http error"@,
            self is UnexpectedStatus ==> r@ == "unexpected response status"@,
            self is Serde ==> r@ == "serialization error"@,
    {
        match self {
            AethokitError::MissingGasKey => "GAS KEY is required to initialize the SDK",
            AethokitError::Http(_) => "http error",
            AethokitError::UnexpectedStatus { .. } => "unexpected response status",
            AethokitError::Serde(_) => "serialization error",
        }
    }
}

} // verus!
