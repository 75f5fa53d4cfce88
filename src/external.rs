//! The calls into outside crates that the verification logic makes, each with
//! the contract that the rest of the library relies on.

use vstd::prelude::*;

verus! {

/// The bytes that unpadded base64url text stands for, or `None` where the text
/// is not valid unpadded base64url.
pub uninterp spec fn b64url_decoded(s: Seq<char>) -> Option<Seq<u8>>;

/// The string member `key` of the JSON object held in the UTF-8 bytes `doc`,
/// or `None` where `doc` is no JSON object or the member is absent or not a
/// string.
pub uninterp spec fn json_text_field(doc: Seq<u8>, key: Seq<char>) -> Option<Seq<char>>;

/// Whether the UTF-8 bytes `doc` hold a JSON object.
pub uninterp spec fn json_is_object(doc: Seq<u8>) -> bool;

/// The non-negative integer member `key` of the JSON object held in `doc`, or
/// `None` where there is none that fits in a `u64`.
pub uninterp spec fn json_uint_field(doc: Seq<u8>, key: Seq<char>) -> Option<u64>;

/// The string member `key` of the JSON object written out in the text `doc`.
pub uninterp spec fn json_text_member(doc: Seq<char>, key: Seq<char>) -> Option<Seq<char>>;

/// Whether `sig` is a valid RSASSA-PKCS1-v1_5 SHA-256 signature of the UTF-8
/// bytes of `msg` under the RSA public key with big-endian modulus `n` and
/// exponent `e` (false where those do not form an acceptable key).
pub uninterp spec fn rs256_accepts(n: Seq<u8>, e: Seq<u8>, msg: Seq<char>, sig: Seq<u8>) -> bool;

/// Relies on base64's `URL_SAFE_NO_PAD` engine `decode`: the bytes that the
/// text encodes, or an error, depending on the text alone.
#[verifier::external_body]
pub(crate) fn decode_b64url(s: &str) -> (r: Option<Vec<u8>>)
    ensures
        match r {
            Some(v) => b64url_decoded(s@) == Some(v@),
            None => b64url_decoded(s@) is None,
        },
{
    base64::Engine::decode(&base64::engine::general_purpose::URL_SAFE_NO_PAD, s).ok()
}

/// Relies on `serde_json::from_slice` into a `serde_json::Value`, read through
/// `Value::get`: the string member named `key`, if the object has one.
#[verifier::external_body]
pub(crate) fn text_field(doc: &[u8], key: &str) -> (r: Option<String>)
    ensures
        match r {
            Some(v) => json_text_field(doc@, key@) == Some(v@),
            None => json_text_field(doc@, key@) is None,
        },
{
    match serde_json::from_slice::<serde_json::Value>(doc) {
        Ok(v) => match v.get(key) {
            Some(serde_json::Value::String(s)) => Some(s.clone()),
            _ => None,
        },
        Err(_) => None,
    }
}

/// Relies on `serde_json::from_slice` into a `serde_json::Value` and
/// `Value::is_object`: whether the bytes parse as a JSON object.
#[verifier::external_body]
pub(crate) fn is_json_object(doc: &[u8]) -> (r: bool)
    ensures
        r == json_is_object(doc@),
{
    match serde_json::from_slice::<serde_json::Value>(doc) {
        Ok(v) => v.is_object(),
        Err(_) => false,
    }
}

/// Relies on `serde_json::from_slice` into a `serde_json::Value`, read through
/// `Value::get` and `Value::as_u64`: the integer member named `key`.
#[verifier::external_body]
pub(crate) fn uint_field(doc: &[u8], key: &str) -> (r: Option<u64>)
    ensures
        r == json_uint_field(doc@, key@),
{
    match serde_json::from_slice::<serde_json::Value>(doc) {
        Ok(v) => match v.get(key) {
            Some(f) => f.as_u64(),
            None => None,
        },
        Err(_) => None,
    }
}

/// Relies on `serde_json::from_str` into a `serde_json::Value`, read through
/// `Value::get`: the string member named `key`, if the object has one.
#[verifier::external_body]
pub(crate) fn text_member(doc: &str, key: &str) -> (r: Option<String>)
    ensures
        match r {
            Some(v) => json_text_member(doc@, key@) == Some(v@),
            None => json_text_member(doc@, key@) is None,
        },
{
    match serde_json::from_str::<serde_json::Value>(doc) {
        Ok(v) => match v.get(key) {
            Some(serde_json::Value::String(s)) => Some(s.clone()),
            _ => None,
        },
        Err(_) => None,
    }
}

/// Relies on rsa's `RsaPublicKey::new` (from big-endian `BigUint`s) and
/// `RsaPublicKey::verify` with `Pkcs1v15Sign::new::<Sha256>()`, over the
/// sha2 `Sha256` digest of the message: RS256 signature verification.
#[verifier::external_body]
pub(crate) fn rs256_verify(n: &[u8], e: &[u8], msg: &str, sig: &[u8]) -> (r: bool)
    ensures
        r == rs256_accepts(n@, e@, msg@, sig@),
{
    let hashed = <sha2::Sha256 as sha2::Digest>::digest(msg.as_bytes());
    match rsa::RsaPublicKey::new(rsa::BigUint::from_bytes_be(n), rsa::BigUint::from_bytes_be(e)) {
        Ok(key) => key.verify(rsa::Pkcs1v15Sign::new::<sha2::Sha256>(), &hashed, sig).is_ok(),
        Err(_) => false,
    }
}

} // verus!
