use vstd::prelude::*;

verus! {

/// Credential material that a request needs is missing or invalid.
#[derive(Debug, Clone, Copy, PartialEq, Eq, Structural)]
pub enum AuthError {
    /// OIDC is in effect but no token was obtained.
    MissingToken,
}

/// The errors of this library.
#[derive(Debug, Clone, PartialEq, Eq)]
pub enum Error {
    /// The caller misused the API.
    Usage(String),
    /// The network exchange failed.
    Transport(String),
    /// A response body did not have the expected shape.
    Decode(String),
    /// Credential material is missing or invalid.
    Auth(AuthError),
}

} // verus!
