use vstd::prelude::*;

verus! {

/// The error taxonomy of the library.
///
/// Callers can tell apart bad input (`ValidationError`, `ConfigError`),
/// cryptographic failure (`KeyError`, `SignError`, `DecryptError`),
/// protocol drift after a successful decryption (`ParseError`),
/// and failure of the transport itself (`TransportError`).
#[derive(Debug, Clone)]
pub enum RPayError {
    /// The configured private key could not be parsed.
    KeyError(String),
    /// The signing operation itself failed.
    SignError(String),
    /// A request field or a notification envelope was malformed.
    ValidationError(String),
    /// Authenticated decryption failed: the payload is not trustworthy.
    DecryptError(String),
    /// Decryption succeeded but the plaintext was not the expected JSON.
    ParseError(String),
    /// The HTTP exchange with the gateway failed.
    TransportError(String),
    /// Required merchant credentials are missing or malformed.
    ConfigError(String),
}

impl RPayError {
    /// The human-readable description carried by the error.
    pub fn message(&self) -> (r: String)
        ensures
            r@ == self.spec_message(),
    {
        match self {
            RPayError::KeyError(m) => m.clone(),
            RPayError::SignError(m) => m.clone(),
            RPayError::ValidationError(m) => m.clone(),
            RPayError::DecryptError(m) => m.clone(),
            RPayError::ParseError(m) => m.clone(),
            RPayError::TransportError(m) => m.clone(),
            RPayError::ConfigError(m) => m.clone(),
        }
    }

    pub open spec fn spec_message(&self) -> Seq<char> {
        match self {
            RPayError::KeyError(m) => m@,
            RPayError::SignError(m) => m@,
            RPayError::ValidationError(m) => m@,
            RPayError::DecryptError(m) => m@,
            RPayError::ParseError(m) => m@,
            RPayError::TransportError(m) => m@,
            RPayError::ConfigError(m) => m@,
        }
    }
}

/// The result type used throughout the library.
pub type RPayResult<T> = Result<T, RPayError>;

} // verus!
