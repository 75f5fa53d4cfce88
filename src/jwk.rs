//! JSON Web Keys, their conversion into RSA key material, and the cache of the
//! issuer's current key set.

use vstd::prelude::*;
use crate::errors::{AuthError, InvalidJwt};
use crate::external::{b64url_decoded, decode_b64url};
use crate::text::text_eq;

verus! {

/// One JSON Web Key as published by the token issuer.
#[derive(Debug, Clone, PartialEq, Eq)]
pub struct Jwk {
    pub e: String,
    pub alg: String,
    pub kty: String,
    pub kid: String,
    pub n: String,
}

/// RSA public key material: big-endian modulus and exponent.
#[derive(Debug, Clone, PartialEq, Eq)]
pub struct PublicKey {
    pub n: Vec<u8>,
    pub e: Vec<u8>,
}

/// The mathematical value of a key: modulus bytes and exponent bytes.
pub type KeyView = (Seq<u8>, Seq<u8>);

impl PublicKey {
    pub open spec fn view(&self) -> KeyView {
        (self.n@, self.e@)
    }
}

/// The key material that a JWK stands for, or `InvalidKeyMaterial`.
pub open spec fn materialized(k: Jwk) -> Result<KeyView, AuthError> {
    if k.kty@ == "RSA"@ && k.alg@ == "RS256"@ && b64url_decoded(k.n@) is Some
        && b64url_decoded(k.e@) is Some {
        Ok((b64url_decoded(k.n@)->0, b64url_decoded(k.e@)->0))
    } else {
        Err(AuthError::InvalidJwt(InvalidJwt::InvalidKeyMaterial))
    }
}

/// Whether some key of `keys` carries the id `kid`.
pub open spec fn holds_kid(keys: Seq<Jwk>, kid: Seq<char>) -> bool {
    exists|i: int| 0 <= i < keys.len() && #[trigger] keys[i].kid@ == kid
}

/// Index of the first key of `keys` with id `kid`.
pub open spec fn first_with_kid(keys: Seq<Jwk>, kid: Seq<char>) -> int
    recommends
        holds_kid(keys, kid),
{
    choose|i: int|
        0 <= i < keys.len() && keys[i].kid@ == kid && forall|j: int|
            0 <= j < i ==> #[trigger] keys[j].kid@ != kid
}

/// The key for `kid` that a key set yields: `MissingJwk` where the set is
/// absent or empty, `MatchingJwkNotFound` where no key has that id, and
/// otherwise the material of the first key with that id.
pub open spec fn key_for(keys: Option<Seq<Jwk>>, kid: Seq<char>) -> Result<KeyView, AuthError> {
    match keys {
        None => Err(AuthError::InvalidJwt(InvalidJwt::MissingJwk)),
        Some(ks) => if ks.len() == 0 {
            Err(AuthError::InvalidJwt(InvalidJwt::MissingJwk))
        } else if !holds_kid(ks, kid) {
            Err(AuthError::InvalidJwt(InvalidJwt::MatchingJwkNotFound))
        } else {
            materialized(ks[first_with_kid(ks, kid)])
        },
    }
}

impl Jwk {
    /// Converts the key's base64url modulus and exponent into RSA key material.
    pub fn materialize(&self) -> (r: Result<PublicKey, AuthError>)
        ensures
            match (r, materialized(*self)) {
                (Ok(k), Ok(v)) => k@ == v,
                (Err(e), Err(f)) => e == f,
                _ => false,
            },
    {
        proof {
            reveal_strlit("RSA");
            reveal_strlit("RS256");
        }
        if !text_eq(self.kty.as_str(), "RSA") || !text_eq(self.alg.as_str(), "RS256") {
            return Err(AuthError::InvalidJwt(InvalidJwt::InvalidKeyMaterial));
        }
        match (decode_b64url(self.n.as_str()), decode_b64url(self.e.as_str())) {
            (Some(n), Some(e)) => Ok(PublicKey { n, e }),
            _ => Err(AuthError::InvalidJwt(InvalidJwt::InvalidKeyMaterial)),
        }
    }
}

/// Position of the first key with id `kid`, if any.
pub fn find_kid(keys: &Vec<Jwk>, kid: &str) -> (r: Option<usize>)
    ensures
        match r {
            Some(i) => i < keys@.len() && holds_kid(keys@, kid@) && i == first_with_kid(keys@, kid@),
            None => !holds_kid(keys@, kid@),
        },
{
    let mut i: usize = 0;
    while i < keys.len()
        invariant
            i <= keys@.len(),
            forall|j: int| 0 <= j < i ==> #[trigger] keys@[j].kid@ != kid@,
        decreases keys@.len() - i,
    {
        if text_eq(keys[i].kid.as_str(), kid) {
            assert(keys@[i as int].kid@ == kid@);
            let ghost w = first_with_kid(keys@, kid@);
            assert(w == i) by {
                assert(0 <= w < keys@.len() && keys@[w].kid@ == kid@ && forall|j: int|
                    0 <= j < w ==> #[trigger] keys@[j].kid@ != kid@);
                if w < i {
                    assert(keys@[w].kid@ != kid@);
                } else if w > i {
                    assert(keys@[i as int].kid@ != kid@);
                }
            }
            return Some(i);
        }
        i = i + 1;
    }
    None
}

/// The issuer's key set as last fetched; empty until the first fetch.
#[derive(Debug, Clone)]
pub struct JwksCache {
    keys: Option<Vec<Jwk>>,
}

impl JwksCache {
    /// The cached key set, `None` before any successful fetch.
    pub closed spec fn view(&self) -> Option<Seq<Jwk>> {
        match self.keys {
            Some(v) => Some(v@),
            None => None,
        }
    }

    /// Whether the cache answers for `kid` without a fetch.
    pub open spec fn answers(&self, kid: Seq<char>) -> bool {
        self@ is Some && holds_kid(self@->0, kid)
    }

    /// An empty cache.
    pub fn new() -> (r: Self)
        ensures
            r@ is None,
    {
        JwksCache { keys: None }
    }

    /// Whether resolving `kid` needs a fresh key set from the issuer.
    pub fn needs_fetch(&self, kid: &str) -> (r: bool)
        ensures
            r == !self.answers(kid@),
    {
        match &self.keys {
            None => true,
            Some(ks) => find_kid(ks, kid).is_none(),
        }
    }

    /// Takes in the outcome of a fetch: a fetched set replaces the cached one
    /// whole; a failed fetch leaves the cache as it was and is reported.
    pub fn refresh(&mut self, fetched: Result<Vec<Jwk>, ()>) -> (r: Result<(), AuthError>)
        ensures
            match fetched {
                Ok(ks) => final(self)@ == Some(ks@) && r is Ok,
                Err(_) => final(self)@ == old(self)@
                    && r == Err::<(), AuthError>(AuthError::InvalidJwt(InvalidJwt::TransportError)),
            },
    {
        match fetched {
            Ok(ks) => {
                self.keys = Some(ks);
                Ok(())
            },
            Err(_) => Err(AuthError::InvalidJwt(InvalidJwt::TransportError)),
        }
    }

    /// The key material for `kid` from the cached set.
    pub fn key(&self, kid: &str) -> (r: Result<PublicKey, AuthError>)
        ensures
            match (r, key_for(self@, kid@)) {
                (Ok(k), Ok(v)) => k@ == v,
                (Err(e), Err(f)) => e == f,
                _ => false,
            },
    {
        match &self.keys {
            None => Err(AuthError::InvalidJwt(InvalidJwt::MissingJwk)),
            Some(ks) => {
                if ks.len() == 0 {
                    return Err(AuthError::InvalidJwt(InvalidJwt::MissingJwk));
                }
                match find_kid(ks, kid) {
                    None => Err(AuthError::InvalidJwt(InvalidJwt::MatchingJwkNotFound)),
                    Some(i) => ks[i].materialize(),
                }
            },
        }
    }
}

} // verus!
