//! Accounts and credentials: the user record, the stored form of a password,
//! and the login decision.
//!
//! Looking a user up, signing a token and every other database or
//! credential-issuer exchange happens outside; this module owns what is
//! decided between those exchanges.

use vstd::prelude::*;
use vstd::string::StringExecFns;
use sha2::{Digest, Sha256};

verus! {

/// An authenticated user, as the credential verifier reports one.
pub struct User {
    pub user_id: i64,
    pub username: String,
    pub is_admin: bool,
}

/// The authentication endpoints of the service.
pub struct AuthApi {}

/// What `str::trim` leaves of `s`.
pub uninterp spec fn trimmed_of(s: Seq<char>) -> Seq<char>;

/// The lowercase hex text of the SHA-256 digest of `s`.
pub uninterp spec fn sha256_hex_of(s: Seq<char>) -> Seq<char>;

/// Relies on str::trim: leading and trailing whitespace stripped; the result
/// depends on the characters alone.
#[verifier::external_body]
fn trim_text(s: &str) -> (r: &str)
    ensures
        r@ == trimmed_of(s@),
{
    s.trim()
}

/// Relies on sha2::Sha256 and generic-array's hex formatting: the digest of
/// the text, written as two lowercase hex digits per digest byte — 64
/// characters for SHA-256 — and depending on the text alone.
#[verifier::external_body]
fn sha256_hex(s: &str) -> (r: String)
    ensures
        r@ == sha256_hex_of(s@),
        r@.len() == 64,
{
    let digest = Sha256::new().chain_update(s).finalize();
    format!("{:x}", digest)
}

/// The stored form of a password: the hex SHA-256 digest of its trimmed text.
pub open spec fn password_hash_spec(password: Seq<char>) -> Seq<char> {
    sha256_hex_of(trimmed_of(password))
}

/// Computes the stored form of a password, for registration and for login.
pub fn password_hash(password: &str) -> (r: String)
    ensures
        r@ == password_hash_spec(password@),
        r@.len() == 64,
{
    sha256_hex(trim_text(password))
}

/// What a login attempt concludes once the store has answered.
pub enum LoginDecision {
    /// No user carries the submitted name and password hash.
    Unauthorized,
    /// The credentials match: issue this user a signed token.
    IssueToken(User),
}

impl AuthApi {
    /// Decides a login from the store's answer to the name-and-hash lookup:
    /// no match is refused, a match is issued a token.
    pub fn login_decision(found: Option<User>) -> (r: LoginDecision)
        ensures
            found is None ==> r is Unauthorized,
            found matches Some(u) ==> r matches LoginDecision::IssueToken(t) && t == u,
    {
        match found {
            None => LoginDecision::Unauthorized,
            Some(u) => LoginDecision::IssueToken(u),
        }
    }

    /// The response body of a refused login.
    pub fn invalid_credentials_text() -> (r: String)
        ensures
            r@ == "invalid credentials"@,
    {
        String::from_str("invalid credentials")
    }
}

} // verus!
