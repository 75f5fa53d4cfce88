//! The project identity that tokens are checked against.

use vstd::prelude::*;
use crate::errors::{AuthError, Env};
use crate::external::{json_text_member, text_member};
use crate::text::ends_with;

verus! {

/// A partial representation of a Firebase service-account document.
///
/// Verification reads only `project_id`; the other fields are carried for
/// callers that sign their own tokens. All of them should be kept secret.
#[derive(Debug, Clone)]
pub struct Credentials {
    pub project_id: String,
    pub private_key_id: String,
    pub private_key: String,
    pub client_email: String,
    pub client_id: String,
}

/// The Firebase Auth context: the credentials of one project.
#[derive(Debug, Clone)]
pub struct FirebaseAuth {
    pub credentials: Credentials,
}

impl Default for FirebaseAuth {
    fn default() -> (r: Self)
        ensures
            r.credentials.project_id@.len() == 0,
            r.credentials.private_key_id@.len() == 0,
            r.credentials.private_key@.len() == 0,
            r.credentials.client_email@.len() == 0,
            r.credentials.client_id@.len() == 0,
    {
        FirebaseAuth {
            credentials: Credentials {
                project_id: String::new(),
                private_key_id: String::new(),
                private_key: String::new(),
                client_email: String::new(),
                client_id: String::new(),
            },
        }
    }
}

/// The fields of a service-account document written out as JSON text, if it
/// holds each of them as a string.
pub open spec fn credentials_of(doc: Seq<char>) -> Option<(Seq<char>, Seq<char>, Seq<char>, Seq<char>, Seq<char>)> {
    let p = json_text_member(doc, "project_id"@);
    let ki = json_text_member(doc, "private_key_id"@);
    let k = json_text_member(doc, "private_key"@);
    let m = json_text_member(doc, "client_email"@);
    let c = json_text_member(doc, "client_id"@);
    if p is Some && ki is Some && k is Some && m is Some && c is Some {
        Some((p->0, ki->0, k->0, m->0, c->0))
    } else {
        None
    }
}

impl TryFrom<String> for FirebaseAuth {
    type Error = AuthError;

    /// Reads a Firebase service-account document, given as JSON text.
    fn try_from(credentials: String) -> (r: Result<Self, AuthError>)
        ensures
            match (r, credentials_of(credentials@)) {
                (Ok(a), Some(f)) => a.credentials.project_id@ == f.0
                    && a.credentials.private_key_id@ == f.1
                    && a.credentials.private_key@ == f.2
                    && a.credentials.client_email@ == f.3
                    && a.credentials.client_id@ == f.4,
                (Err(e), None) => e matches AuthError::Env(Env::InvalidFirebaseCredentials(_)),
                _ => false,
            },
    {
        FirebaseAuth::try_from_json(credentials.as_str())
    }
}

/// The conversion gives no spec-level result of its own: its contract is the
/// `ensures` of `try_from` above.
impl vstd::std_specs::convert::TryFromSpecImpl<String> for FirebaseAuth {
    open spec fn obeys_try_from_spec() -> bool {
        false
    }

    open spec fn try_from_spec(v: String) -> Result<Self, AuthError> {
        arbitrary()
    }
}

impl FirebaseAuth {
    /// Creates a Firebase Auth context from the given credentials.
    pub fn new(credentials: Credentials) -> (r: Self)
        ensures
            r.credentials == credentials,
    {
        FirebaseAuth { credentials }
    }

    /// The project id that tokens must be issued for.
    pub fn project_id(&self) -> (r: &str)
        ensures
            r@ == self.credentials.project_id@,
    {
        self.credentials.project_id.as_str()
    }

    /// Reads a Firebase service-account document, given as JSON text.
    pub fn try_from_json(credentials: &str) -> (r: Result<Self, AuthError>)
        ensures
            match (r, credentials_of(credentials@)) {
                (Ok(a), Some(f)) => a.credentials.project_id@ == f.0
                    && a.credentials.private_key_id@ == f.1
                    && a.credentials.private_key@ == f.2
                    && a.credentials.client_email@ == f.3
                    && a.credentials.client_id@ == f.4,
                (Err(e), None) => e matches AuthError::Env(Env::InvalidFirebaseCredentials(_)),
                _ => false,
            },
    {
        let p = text_member(credentials, "project_id");
        let ki = text_member(credentials, "private_key_id");
        let k = text_member(credentials, "private_key");
        let m = text_member(credentials, "client_email");
        let c = text_member(credentials, "client_id");
        match (p, ki, k, m, c) {
            (Some(p), Some(ki), Some(k), Some(m), Some(c)) => Ok(FirebaseAuth {
                credentials: Credentials {
                    project_id: p,
                    private_key_id: ki,
                    private_key: k,
                    client_email: m,
                    client_id: c,
                },
            }),
            _ => Err(AuthError::Env(Env::InvalidFirebaseCredentials(
                String::from_str("missing or malformed service-account field"),
            ))),
        }
    }

    /// Whether a credentials file path names a `.json` file.
    pub fn is_json_file(filepath: &str) -> (r: bool)
        ensures
            r == (filepath@.len() >= 5 && filepath@.subrange(filepath@.len() - 5, filepath@.len() as int)
                == ".json"@),
    {
        proof {
            reveal_strlit(".json");
        }
        ends_with(filepath, ".json")
    }
}

} // verus!
