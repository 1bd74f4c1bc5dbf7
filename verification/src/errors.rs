use vstd::prelude::*;

verus! {

/// The error surface of the catalog client.
///
/// All four kinds are surfaced directly to the caller; nothing is retried or
/// downgraded by this layer.
#[derive(Debug, Clone)]
pub enum ImgapiError {
    /// Malformed input supplied by the caller, detected before any network
    /// activity (bad identifier, bad enum text, bad boolean or integer text).
    ValidationError(String),
    /// The composed request URL is not well formed; a configuration problem
    /// with the base endpoint, not a user-data problem.
    UrlConstructionError(String),
    /// The request could not be completed over the network.
    TransportError(String),
    /// A response body was received but does not parse as JSON or does not
    /// match the expected image schema.
    DecodeError(String),
}

impl ImgapiError {
    /// The human-readable description carried by the error.
    pub fn message(&self) -> (r: &str)
        ensures
            r@ == self.spec_message(),
    {
        match self {
            ImgapiError::ValidationError(m) => m.as_str(),
            ImgapiError::UrlConstructionError(m) => m.as_str(),
            ImgapiError::TransportError(m) => m.as_str(),
            ImgapiError::DecodeError(m) => m.as_str(),
        }
    }

    pub open spec fn spec_message(&self) -> Seq<char> {
        match self {
            ImgapiError::ValidationError(m) => m@,
            ImgapiError::UrlConstructionError(m) => m@,
            ImgapiError::TransportError(m) => m@,
            ImgapiError::DecodeError(m) => m@,
        }
    }
}

/// The error returned when a textual operating-system name is not recognized.
#[derive(Debug, Clone, Copy, PartialEq, Eq, Structural)]
pub struct ParseOsError {}

impl ParseOsError {
    /// The fixed description of this error.
    pub fn message(&self) -> (r: &'static str)
        ensures
            r@ == "invalid operating system"@,
    {
        "invalid operating system"
    }
}

} // verus!
