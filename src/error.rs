use vstd::prelude::*;

verus! {

/// Every way in which acquiring a token or calling the key-set service fails.
#[derive(Debug, Clone, PartialEq, Eq)]
pub enum MicrosoftGraphError {
    /// A required connection parameter is missing; holds its variable name.
    ConfigurationError { name: String },
    /// The request could not be carried out (network, TLS); holds the reason.
    RequestError(String),
    /// The identity provider answered the token request with a non-success status.
    AuthError { status: u16, body: String },
    /// The token response was not JSON of the expected shape, or its
    /// `expires_on` was not an unsigned integer; holds the response body.
    TokenFormatError(String),
    /// The key-set service answered with a non-success status.
    HttpResponseError { status: u16, body: String },
    /// A JSON body could not be written or did not match the expected shape.
    SerdeError(String),
}

} // verus!
