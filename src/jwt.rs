//! Token verification: framing, key selection, signature and claims.

use vstd::prelude::*;
use vstd::string::StrSliceExecFns;
use crate::errors::{AuthError, InvalidJwt};
use crate::external::{
    b64url_decoded,
    decode_b64url,
    is_json_object,
    json_is_object,
    json_text_field,
    json_uint_field,
    rs256_accepts,
    rs256_verify,
    text_field,
    uint_field,
};
use crate::firebase_auth::FirebaseAuth;
use crate::jwk::{first_with_kid, holds_kid, key_for, materialized, Jwk, JwksCache};
use crate::text::{is_concat, text_eq};

verus! {

/// Seconds by which `iat` may lie ahead of the verification time.
pub const CLOCK_SKEW: u64 = 60;

/// The claims of a verified token.
#[derive(Debug, Clone, PartialEq, Eq)]
pub struct DecodedToken {
    /// The user id: the token's `sub`.
    pub uid: String,
    /// `iat`, in seconds since the Unix epoch.
    pub issued_at: u64,
    /// `exp`, in seconds since the Unix epoch.
    pub expires_at: u64,
    /// The payload's JSON text, as decoded from the token.
    pub claims: Vec<u8>,
}

/// The mathematical value of a decoded token.
pub struct DecodedView {
    pub uid: Seq<char>,
    pub issued_at: u64,
    pub expires_at: u64,
    pub claims: Seq<u8>,
}

impl DecodedToken {
    pub open spec fn view(&self) -> DecodedView {
        DecodedView {
            uid: self.uid@,
            issued_at: self.issued_at,
            expires_at: self.expires_at,
            claims: self.claims@,
        }
    }
}

/// Namespace of the token verifier.
pub struct Jwt;

/// Position of the first `.` of `t` at or after `from`, or `t.len()`.
pub open spec fn dot_from(t: Seq<char>, from: int) -> int
    decreases t.len() - from,
{
    if from < 0 || from >= t.len() {
        t.len() as int
    } else if t[from] == '.' {
        from
    } else {
        dot_from(t, from + 1)
    }
}

/// The positions of the two dots of a compact token, where it has exactly two.
pub open spec fn segments(t: Seq<char>) -> Option<(int, int)> {
    let d1 = dot_from(t, 0);
    let d2 = dot_from(t, d1 + 1);
    if d1 < t.len() && d2 < t.len() && dot_from(t, d2 + 1) == t.len() {
        Some((d1, d2))
    } else {
        None
    }
}

/// The decoded header, payload and signature of a compact token: three
/// unpadded base64url segments joined by two dots.
pub open spec fn decoded_parts(t: Seq<char>) -> Option<(Seq<u8>, Seq<u8>, Seq<u8>)> {
    match segments(t) {
        None => None,
        Some((d1, d2)) => {
            let h = b64url_decoded(t.subrange(0, d1));
            let p = b64url_decoded(t.subrange(d1 + 1, d2));
            let g = b64url_decoded(t.subrange(d2 + 1, t.len() as int));
            if h is Some && p is Some && g is Some {
                Some((h->0, p->0, g->0))
            } else {
                None
            }
        },
    }
}

/// The `kid` named by a token's header: `Malformed` where the token is not
/// three base64url segments or its header is no JSON object, `MissingKid`
/// where the header has no string `kid`.
pub open spec fn key_id(t: Seq<char>) -> Result<Seq<char>, AuthError> {
    match decoded_parts(t) {
        None => Err(AuthError::InvalidJwt(InvalidJwt::Malformed)),
        Some((h, _, _)) => if !json_is_object(h) {
            Err(AuthError::InvalidJwt(InvalidJwt::Malformed))
        } else {
            match json_text_field(h, "kid"@) {
                None => Err(AuthError::InvalidJwt(InvalidJwt::MissingKid)),
                Some(k) => Ok(k),
            }
        },
    }
}

/// Whether verifying `t` against the key set `keys` needs a fresh key set:
/// only when the header names a key that the set does not hold.
pub open spec fn fetch_needed(t: Seq<char>, keys: Option<Seq<Jwk>>) -> bool {
    key_id(t) is Ok && !(keys is Some && holds_kid(keys->0, key_id(t)->Ok_0))
}

/// The issuer that tokens of a project carry.
pub open spec fn issuer_for(project: Seq<char>) -> Seq<char> {
    "https://securetoken.google.com/"@ + project
}

/// What the claims of a payload yield at time `now`.
pub open spec fn claims_outcome(p: Seq<u8>, project: Seq<char>, now: u64) -> Result<
    DecodedView,
    AuthError,
> {
    let exp = json_uint_field(p, "exp"@);
    let iat = json_uint_field(p, "iat"@);
    let aud = json_text_field(p, "aud"@);
    let iss = json_text_field(p, "iss"@);
    let sub = json_text_field(p, "sub"@);
    if exp is None {
        Err(AuthError::InvalidJwt(InvalidJwt::Malformed))
    } else if exp->0 <= now {
        Err(AuthError::InvalidJwt(InvalidJwt::Expired))
    } else if iat is None {
        Err(AuthError::InvalidJwt(InvalidJwt::Malformed))
    } else if iat->0 > now + CLOCK_SKEW {
        Err(AuthError::InvalidJwt(InvalidJwt::InvalidIssuedAt))
    } else if aud != Some(project) {
        Err(AuthError::InvalidJwt(InvalidJwt::InvalidAudience))
    } else if iss != Some(issuer_for(project)) {
        Err(AuthError::InvalidJwt(InvalidJwt::InvalidIssuer))
    } else if sub is None || sub->0.len() == 0 {
        Err(AuthError::InvalidJwt(InvalidJwt::InvalidSubject))
    } else {
        Ok(DecodedView { uid: sub->0, issued_at: iat->0, expires_at: exp->0, claims: p })
    }
}

/// The outcome of verifying token `t` for `project` against the key set
/// `keys` at time `now`, step by step: framing and decoding, key id, key,
/// signature over header and payload, then claims.
pub open spec fn verified(t: Seq<char>, project: Seq<char>, keys: Option<Seq<Jwk>>, now: u64) -> Result<
    DecodedView,
    AuthError,
> {
    match key_id(t) {
        Err(e) => Err(e),
        Ok(kid) => match key_for(keys, kid) {
            Err(e) => Err(e),
            Ok(k) => {
                let (_, d2) = segments(t)->0;
                let (_, p, sig) = decoded_parts(t)->0;
                if !rs256_accepts(k.0, k.1, t.subrange(0, d2), sig) {
                    Err(AuthError::InvalidJwt(InvalidJwt::InvalidSignature))
                } else {
                    claims_outcome(p, project, now)
                }
            },
        },
    }
}

/// A successfully verified token was issued for `project` by the project's
/// issuer, names its user in `sub`, and expires after `now`; where it was
/// issued no later than `now`, it expires after it was issued.
pub proof fn law_accepted_claims(
    t: Seq<char>,
    project: Seq<char>,
    keys: Option<Seq<Jwk>>,
    now: u64,
    d: DecodedView,
)
    requires
        verified(t, project, keys, now) == Ok::<DecodedView, AuthError>(d),
    ensures
        json_text_field(d.claims, "sub"@) == Some(d.uid),
        d.uid.len() > 0,
        json_text_field(d.claims, "aud"@) == Some(project),
        json_text_field(d.claims, "iss"@) == Some(issuer_for(project)),
        json_uint_field(d.claims, "exp"@) == Some(d.expires_at),
        json_uint_field(d.claims, "iat"@) == Some(d.issued_at),
        d.expires_at > now,
        d.issued_at <= now + CLOCK_SKEW,
        d.issued_at <= now ==> d.expires_at > d.issued_at,
{
}

/// A token whose header names no key is rejected with `MissingKid`, whatever
/// the key set, and never calls for a fetch.
pub proof fn law_missing_kid(t: Seq<char>, project: Seq<char>, keys: Option<Seq<Jwk>>, now: u64)
    requires
        key_id(t) == Err::<Seq<char>, AuthError>(AuthError::InvalidJwt(InvalidJwt::MissingKid)),
    ensures
        verified(t, project, keys, now) == Err::<DecodedView, AuthError>(
            AuthError::InvalidJwt(InvalidJwt::MissingKid),
        ),
        !fetch_needed(t, keys),
{
}

/// A token whose key set is empty is rejected with `MissingJwk`.
pub proof fn law_empty_key_set(t: Seq<char>, project: Seq<char>, keys: Seq<Jwk>, now: u64)
    requires
        key_id(t) is Ok,
        keys.len() == 0,
    ensures
        verified(t, project, Some(keys), now) == Err::<DecodedView, AuthError>(
            AuthError::InvalidJwt(InvalidJwt::MissingJwk),
        ),
{
}

/// A token whose non-empty key set holds no key with its `kid` is rejected
/// with `MatchingJwkNotFound`.
pub proof fn law_no_matching_key(t: Seq<char>, project: Seq<char>, keys: Seq<Jwk>, now: u64)
    requires
        key_id(t) is Ok,
        keys.len() > 0,
        !holds_kid(keys, key_id(t)->Ok_0),
    ensures
        verified(t, project, Some(keys), now) == Err::<DecodedView, AuthError>(
            AuthError::InvalidJwt(InvalidJwt::MatchingJwkNotFound),
        ),
{
}

/// Two successful verifications of one token against one key set at one time
/// yield equal decoded tokens.
pub proof fn law_repeatable(
    t: Seq<char>,
    project: Seq<char>,
    keys: Option<Seq<Jwk>>,
    now: u64,
    first: DecodedView,
    second: DecodedView,
)
    requires
        verified(t, project, keys, now) == Ok::<DecodedView, AuthError>(first),
        verified(t, project, keys, now) == Ok::<DecodedView, AuthError>(second),
    ensures
        first == second,
{
}

/// Once the cached set holds the key that a token names, verifying that
/// token calls for no fetch.
pub proof fn law_cached_key_needs_no_fetch(t: Seq<char>, keys: Seq<Jwk>)
    requires
        key_id(t) is Ok,
        holds_kid(keys, key_id(t)->Ok_0),
    ensures
        !fetch_needed(t, Some(keys)),
{
}

/// A token that is not three base64url segments joined by dots, or whose
/// header is no JSON object, is rejected with `Malformed`, whatever the key
/// set, and never calls for a fetch.
pub proof fn law_malformed(t: Seq<char>, project: Seq<char>, keys: Option<Seq<Jwk>>, now: u64)
    requires
        (match decoded_parts(t) {
            None => true,
            Some((h, _, _)) => !json_is_object(h),
        }),
    ensures
        verified(t, project, keys, now) == Err::<DecodedView, AuthError>(
            AuthError::InvalidJwt(InvalidJwt::Malformed),
        ),
        !fetch_needed(t, keys),
{
}

/// A token whose decoded signature is not an RS256 signature of header and
/// payload under the selected key is rejected with `InvalidSignature`.
pub proof fn law_bad_signature(t: Seq<char>, project: Seq<char>, keys: Option<Seq<Jwk>>, now: u64)
    requires
        key_id(t) is Ok,
        key_for(keys, key_id(t)->Ok_0) is Ok,
        ({
            let (_, d2) = segments(t)->0;
            let k = key_for(keys, key_id(t)->Ok_0)->Ok_0;
            let (_, _, sig) = decoded_parts(t)->0;
            !rs256_accepts(k.0, k.1, t.subrange(0, d2), sig)
        }),
    ensures
        verified(t, project, keys, now) == Err::<DecodedView, AuthError>(
            AuthError::InvalidJwt(InvalidJwt::InvalidSignature),
        ),
{
}

/// A token with a valid signature whose `exp` is not after `now` is rejected
/// with `Expired`, whatever its other claims.
pub proof fn law_expired(t: Seq<char>, project: Seq<char>, keys: Option<Seq<Jwk>>, now: u64)
    requires
        key_id(t) is Ok,
        key_for(keys, key_id(t)->Ok_0) is Ok,
        ({
            let (_, d2) = segments(t)->0;
            let k = key_for(keys, key_id(t)->Ok_0)->Ok_0;
            let (_, p, sig) = decoded_parts(t)->0;
            &&& rs256_accepts(k.0, k.1, t.subrange(0, d2), sig)
            &&& json_uint_field(p, "exp"@) is Some
            &&& json_uint_field(p, "exp"@)->0 <= now
        }),
    ensures
        verified(t, project, keys, now) == Err::<DecodedView, AuthError>(
            AuthError::InvalidJwt(InvalidJwt::Expired),
        ),
{
}

/// A token signed with the first key of the set that carries its `kid`,
/// issued for `project` by the project's issuer, unexpired, issued no later
/// than `now` and naming a user, is accepted: the user id is its `sub`, and it
/// expires after it was issued.
pub proof fn law_valid_token_accepted(
    t: Seq<char>,
    project: Seq<char>,
    keys: Seq<Jwk>,
    now: u64,
)
    requires
        key_id(t) is Ok,
        holds_kid(keys, key_id(t)->Ok_0),
        materialized(keys[first_with_kid(keys, key_id(t)->Ok_0)]) is Ok,
        ({
            let (_, d2) = segments(t)->0;
            let k = materialized(keys[first_with_kid(keys, key_id(t)->Ok_0)])->Ok_0;
            let (_, p, sig) = decoded_parts(t)->0;
            &&& rs256_accepts(k.0, k.1, t.subrange(0, d2), sig)
            &&& json_uint_field(p, "exp"@) is Some
            &&& json_uint_field(p, "exp"@)->0 > now
            &&& json_uint_field(p, "iat"@) is Some
            &&& json_uint_field(p, "iat"@)->0 <= now
            &&& json_text_field(p, "aud"@) == Some(project)
            &&& json_text_field(p, "iss"@) == Some(issuer_for(project))
            &&& json_text_field(p, "sub"@) is Some
            &&& json_text_field(p, "sub"@)->0.len() > 0
        }),
    ensures
        verified(t, project, Some(keys), now) is Ok,
        ({
            let (_, p, _) = decoded_parts(t)->0;
            Some(verified(t, project, Some(keys), now)->Ok_0.uid) == json_text_field(p, "sub"@)
        }),
        verified(t, project, Some(keys), now)->Ok_0.expires_at > verified(
            t,
            project,
            Some(keys),
            now,
        )->Ok_0.issued_at,
{
}

/// Position of the first `.` of `t` at or after `from`, or the length.
fn next_dot(t: &str, len: usize, from: usize) -> (r: usize)
    requires
        len == t@.len(),
        from <= len,
    ensures
        r == dot_from(t@, from as int),
        from <= r <= len,
{
    let mut i: usize = from;
    while i < len
        invariant
            len == t@.len(),
            from <= i <= len,
            dot_from(t@, from as int) == dot_from(t@, i as int),
        decreases len - i,
    {
        if t.get_char(i) == '.' {
            return i;
        }
        i = i + 1;
    }
    i
}

/// The `kid` of a decoded token header.
fn header_kid(header: &[u8]) -> (r: Result<String, AuthError>)
    ensures
        match r {
            Ok(k) => json_is_object(header@) && json_text_field(header@, "kid"@) == Some(k@),
            Err(e) => if !json_is_object(header@) {
                e == AuthError::InvalidJwt(InvalidJwt::Malformed)
            } else {
                json_text_field(header@, "kid"@) is None && e == AuthError::InvalidJwt(
                    InvalidJwt::MissingKid,
                )
            },
        },
{
    proof {
        reveal_strlit("kid");
    }
    if !is_json_object(header) {
        return Err(AuthError::InvalidJwt(InvalidJwt::Malformed));
    }
    match text_field(header, "kid") {
        None => Err(AuthError::InvalidJwt(InvalidJwt::MissingKid)),
        Some(k) => Ok(k),
    }
}

impl Jwt {
    /// The positions of the two dots of a compact token, where it has exactly two.
    pub fn split(token: &str) -> (r: Option<(usize, usize)>)
        ensures
            match (r, segments(token@)) {
                (Some((a, b)), Some((x, y))) => a == x && b == y && a < b && b < token@.len(),
                (None, None) => true,
                _ => false,
            },
    {
        let len = token.unicode_len();
        let d1 = next_dot(token, len, 0);
        if d1 >= len {
            return None;
        }
        let d2 = next_dot(token, len, d1 + 1);
        if d2 >= len {
            return None;
        }
        let d3 = next_dot(token, len, d2 + 1);
        if d3 < len {
            return None;
        }
        Some((d1, d2))
    }

    /// The position of the second dot and the decoded header, payload and
    /// signature of a compact token, where it is three base64url segments.
    pub fn decode(token: &str) -> (r: Option<(usize, Vec<u8>, Vec<u8>, Vec<u8>)>)
        ensures
            match (r, decoded_parts(token@)) {
                (Some((d2, h, p, g)), Some((x, y, z))) => segments(token@) matches Some((_, e2))
                    && d2 == e2 && h@ == x && p@ == y && g@ == z,
                (None, None) => true,
                _ => false,
            },
    {
        let (d1, d2) = match Jwt::split(token) {
            None => return None,
            Some(q) => q,
        };
        let len = token.unicode_len();
        let h = decode_b64url(token.substring_char(0, d1));
        let p = decode_b64url(token.substring_char(d1 + 1, d2));
        let g = decode_b64url(token.substring_char(d2 + 1, len));
        match (h, p, g) {
            (Some(h), Some(p), Some(g)) => Some((d2, h, p, g)),
            _ => None,
        }
    }

    /// The key id named by a token's header.
    pub fn key_id(token: &str) -> (r: Result<String, AuthError>)
        ensures
            match (r, key_id(token@)) {
                (Ok(k), Ok(v)) => k@ == v,
                (Err(e), Err(f)) => e == f,
                _ => false,
            },
    {
        match Jwt::decode(token) {
            None => Err(AuthError::InvalidJwt(InvalidJwt::Malformed)),
            Some((_, header, _, _)) => header_kid(header.as_slice()),
        }
    }

    /// Whether verifying `token` needs the issuer's key set to be fetched
    /// into `cache` first.
    pub fn needs_fetch(token: &str, cache: &JwksCache) -> (r: bool)
        ensures
            r == fetch_needed(token@, cache@),
    {
        match Jwt::key_id(token) {
            Err(_) => false,
            Ok(kid) => cache.needs_fetch(kid.as_str()),
        }
    }

    /// Checks the decoded claims of a token whose signature was verified.
    pub fn check_claims(payload: Vec<u8>, project_id: &str, now: u64) -> (r: Result<
        DecodedToken,
        AuthError,
    >)
        ensures
            match (r, claims_outcome(payload@, project_id@, now)) {
                (Ok(d), Ok(v)) => d@ == v,
                (Err(e), Err(f)) => e == f,
                _ => false,
            },
    {
        proof {
            reveal_strlit("exp");
            reveal_strlit("iat");
            reveal_strlit("aud");
            reveal_strlit("iss");
            reveal_strlit("sub");
        }
        let exp = uint_field(payload.as_slice(), "exp");
        let iat = uint_field(payload.as_slice(), "iat");
        let aud = text_field(payload.as_slice(), "aud");
        let iss = text_field(payload.as_slice(), "iss");
        let sub = text_field(payload.as_slice(), "sub");
        let exp = match exp {
            Some(e) => e,
            None => return Err(AuthError::InvalidJwt(InvalidJwt::Malformed)),
        };
        if exp <= now {
            return Err(AuthError::InvalidJwt(InvalidJwt::Expired));
        }
        let iat = match iat {
            Some(i) => i,
            None => return Err(AuthError::InvalidJwt(InvalidJwt::Malformed)),
        };
        if iat > now && iat - now > CLOCK_SKEW {
            return Err(AuthError::InvalidJwt(InvalidJwt::InvalidIssuedAt));
        }
        match aud {
            Some(a) => if !text_eq(a.as_str(), project_id) {
                return Err(AuthError::InvalidJwt(InvalidJwt::InvalidAudience));
            },
            None => return Err(AuthError::InvalidJwt(InvalidJwt::InvalidAudience)),
        }
        match iss {
            Some(i) => if !is_concat(i.as_str(), "https://securetoken.google.com/", project_id) {
                return Err(AuthError::InvalidJwt(InvalidJwt::InvalidIssuer));
            },
            None => return Err(AuthError::InvalidJwt(InvalidJwt::InvalidIssuer)),
        }
        match sub {
            Some(s) => {
                if s.as_str().unicode_len() == 0 {
                    return Err(AuthError::InvalidJwt(InvalidJwt::InvalidSubject));
                }
                Ok(DecodedToken { uid: s, issued_at: iat, expires_at: exp, claims: payload })
            },
            None => Err(AuthError::InvalidJwt(InvalidJwt::InvalidSubject)),
        }
    }

    /// Verifies a compact RS256 token issued for `auth`'s project against the
    /// key set held in `cache`, at `now` seconds since the Unix epoch.
    pub fn verify(token: &str, auth: &FirebaseAuth, cache: &JwksCache, now: u64) -> (r: Result<
        DecodedToken,
        AuthError,
    >)
        ensures
            match (r, verified(token@, auth.credentials.project_id@, cache@, now)) {
                (Ok(d), Ok(v)) => d@ == v,
                (Err(e), Err(f)) => e == f,
                _ => false,
            },
    {
        let (d2, header, payload, sig) = match Jwt::decode(token) {
            None => return Err(AuthError::InvalidJwt(InvalidJwt::Malformed)),
            Some(q) => q,
        };
        let kid = header_kid(header.as_slice())?;
        let key = cache.key(kid.as_str())?;
        let signed = token.substring_char(0, d2);
        if !rs256_verify(key.n.as_slice(), key.e.as_slice(), signed, sig.as_slice()) {
            return Err(AuthError::InvalidJwt(InvalidJwt::InvalidSignature));
        }
        Jwt::check_claims(payload, auth.project_id(), now)
    }

    /// Verifies `token` after taking in the outcome of a key-set fetch, if one
    /// was made: a fetched set replaces the cached one before verification; a
    /// failed fetch is reported as `TransportError` and leaves the cache as it
    /// was, without falling back on it.
    pub fn verify_after_fetch(
        token: &str,
        auth: &FirebaseAuth,
        cache: &mut JwksCache,
        fetched: Option<Result<Vec<Jwk>, ()>>,
        now: u64,
    ) -> (r: Result<DecodedToken, AuthError>)
        ensures
            match fetched {
                Some(Err(_)) => final(cache)@ == old(cache)@ && r == Err::<DecodedToken, AuthError>(
                    AuthError::InvalidJwt(InvalidJwt::TransportError),
                ),
                Some(Ok(ks)) => final(cache)@ == Some(ks@),
                None => final(cache)@ == old(cache)@,
            },
            fetched matches Some(Err(_)) || match (
                r,
                verified(token@, auth.credentials.project_id@, final(cache)@, now),
            ) {
                (Ok(d), Ok(v)) => d@ == v,
                (Err(e), Err(f)) => e == f,
                _ => false,
            },
    {
        if let Some(f) = fetched {
            cache.refresh(f)?;
        }
        Jwt::verify(token, auth, cache, now)
    }
}

} // verus!
