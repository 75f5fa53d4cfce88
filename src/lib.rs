//! Verification of Firebase ID tokens: token framing, key selection from a
//! cached JSON Web Key set, RS256 signature checking and claim validation.

pub mod errors;
pub mod external;
pub mod firebase_auth;
pub mod jwk;
pub mod jwt;
pub mod text;
