//! The ways in which a call can fail.
use vstd::prelude::*;

verus! {

/// A failure of the client, with the context that it arose in.
#[derive(Debug, Clone)]
pub enum PolygonError {
    /// The API key is missing from the configuration.
    Configuration,
    /// The endpoint text does not parse as an absolute URL.
    InvalidUrl { url: String },
    /// The request did not get a response (DNS, connection, timeout).
    Transport { url: String, message: String },
    /// The server answered with a status other than 200.
    HttpStatus { url: String, status: u16, body: String },
    /// A 200 response whose body is not the expected JSON.
    Decode { url: String, message: String },
}

} // verus!
