use vstd::prelude::*;

verus! {

/// Why a token was rejected.
#[derive(Debug, Clone, PartialEq, Eq)]
pub enum InvalidJwt {
    /// The token is not three base64url segments joined by dots.
    Malformed,
    /// The token header carries no `kid`.
    MissingKid,
    /// The issuer's key set is empty.
    MissingJwk,
    /// The key set holds no key with the token's `kid`.
    MatchingJwkNotFound,
    /// The selected key cannot be turned into an RSA public key.
    InvalidKeyMaterial,
    /// The RS256 signature does not match header and payload.
    InvalidSignature,
    /// `exp` is not after the verification time.
    Expired,
    /// `iat` lies in the future beyond the allowed clock skew.
    InvalidIssuedAt,
    /// `aud` is not the project id.
    InvalidAudience,
    /// `iss` is not the project's secure token issuer.
    InvalidIssuer,
    /// `sub` is absent or empty.
    InvalidSubject,
    /// The key set could not be fetched or parsed.
    TransportError,
}

/// Failures while loading credentials.
#[derive(Debug, Clone, PartialEq, Eq)]
pub enum Env {
    InvalidFirebaseCredentials(String),
    InvalidFileFormat(String),
}

/// Every failure the library reports.
#[derive(Debug, Clone, PartialEq, Eq)]
pub enum AuthError {
    InvalidJwt(InvalidJwt),
    Env(Env),
}

} // verus!
