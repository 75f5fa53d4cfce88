use firebase_auth::errors::{AuthError, Env, InvalidJwt};
use firebase_auth::firebase_auth::FirebaseAuth;
use firebase_auth::jwk::{find_kid, Jwk, JwksCache, PublicKey};
use firebase_auth::text::{ends_with, is_concat, text_eq};

fn jwk(kty: &str, alg: &str, kid: &str, n: &str, e: &str) -> Jwk {
    Jwk {
        e: e.to_string(),
        alg: alg.to_string(),
        kty: kty.to_string(),
        kid: kid.to_string(),
        n: n.to_string(),
    }
}

#[test]
fn materialize_decodes_components() {
    let k = jwk("RSA", "RS256", "a", "AQID", "AQAB").materialize().unwrap();
    assert_eq!(k, PublicKey { n: vec![1, 2, 3], e: vec![1, 0, 1] });
}

#[test]
fn materialize_rejects_bad_material() {
    let bad = AuthError::InvalidJwt(InvalidJwt::InvalidKeyMaterial);
    assert_eq!(jwk("EC", "RS256", "a", "AQID", "AQAB").materialize(), Err(bad.clone()));
    assert_eq!(jwk("RSA", "HS256", "a", "AQID", "AQAB").materialize(), Err(bad.clone()));
    assert_eq!(jwk("RSA", "RS256", "a", "AQ==", "AQAB").materialize(), Err(bad.clone()));
    assert_eq!(jwk("RSA", "RS256", "a", "AQID", "*").materialize(), Err(bad));
}

#[test]
fn find_kid_takes_first_match() {
    let keys = vec![
        jwk("RSA", "RS256", "a", "AQ", "AQAB"),
        jwk("RSA", "RS256", "b", "Ag", "AQAB"),
        jwk("RSA", "RS256", "b", "Aw", "AQAB"),
    ];
    assert_eq!(find_kid(&keys, "b"), Some(1));
    assert_eq!(find_kid(&keys, "c"), None);
    assert_eq!(find_kid(&Vec::new(), "a"), None);
}

#[test]
fn cache_lookup() {
    let mut cache = JwksCache::new();
    assert!(cache.needs_fetch("b"));
    assert_eq!(cache.key("b"), Err(AuthError::InvalidJwt(InvalidJwt::MissingJwk)));
    cache
        .refresh(Ok(vec![jwk("RSA", "RS256", "a", "AQ", "AQAB"), jwk("RSA", "RS256", "b", "Ag", "AQAB")]))
        .unwrap();
    assert!(!cache.needs_fetch("b"));
    assert_eq!(cache.key("b").unwrap().n, vec![2]);
    assert_eq!(cache.key("z"), Err(AuthError::InvalidJwt(InvalidJwt::MatchingJwkNotFound)));
    assert_eq!(cache.refresh(Err(())), Err(AuthError::InvalidJwt(InvalidJwt::TransportError)));
    assert!(!cache.needs_fetch("b"));
    cache.refresh(Ok(Vec::new())).unwrap();
    assert_eq!(cache.key("b"), Err(AuthError::InvalidJwt(InvalidJwt::MissingJwk)));
}

#[test]
fn text_helpers() {
    assert!(text_eq("abc", "abc"));
    assert!(!text_eq("abc", "abd"));
    assert!(!text_eq("ab", "abc"));
    assert!(is_concat("https://x/p", "https://x/", "p"));
    assert!(!is_concat("https://x/q", "https://x/", "p"));
    assert!(!is_concat("https://x/", "https://x/", "p"));
    assert!(ends_with("creds.json", ".json"));
    assert!(!ends_with("json", ".json"));
}

#[test]
fn credentials_from_json() {
    let doc = "{\"type\":\"service_account\",\"project_id\":\"p1\",\"private_key_id\":\"k\",\
               \"private_key\":\"SECRET-REDACTED\",\"client_email\":\"a@b\",\"client_id\":\"7\"}";
    let auth = FirebaseAuth::try_from_json(doc).unwrap();
    assert_eq!(auth.project_id(), "p1");
    assert_eq!(auth.credentials.client_id, "7");
    let missing = FirebaseAuth::try_from_json("{\"project_id\":\"p1\"}");
    assert!(matches!(missing, Err(AuthError::Env(Env::InvalidFirebaseCredentials(_)))));
    assert!(matches!(
        FirebaseAuth::try_from_json("not json"),
        Err(AuthError::Env(Env::InvalidFirebaseCredentials(_)))
    ));
}

#[test]
fn json_file_names() {
    assert!(FirebaseAuth::is_json_file("creds.json"));
    assert!(!FirebaseAuth::is_json_file("creds.env"));
    assert!(!FirebaseAuth::is_json_file(".jso"));
}

#[test]
fn default_context_is_empty() {
    assert_eq!(FirebaseAuth::default().project_id(), "");
}

#[test]
fn credentials_try_from_string() {
    let doc = "{\"project_id\":\"p2\",\"private_key_id\":\"k\",\"private_key\":\"SECRET-REDACTED\",\
               \"client_email\":\"a@b\",\"client_id\":\"7\"}"
        .to_string();
    let auth = FirebaseAuth::try_from(doc).unwrap();
    assert_eq!(auth.project_id(), "p2");
    for doc in ["{}", "not json", "[1]", "{\"project_id\":1}"] {
        assert!(matches!(
            FirebaseAuth::try_from(doc.to_string()),
            Err(AuthError::Env(Env::InvalidFirebaseCredentials(_)))
        ));
    }
}
