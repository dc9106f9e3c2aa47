//! Identity tokens of the provider: which key checks one, and what is asked of
//! its claims.

use vstd::prelude::*;
use crate::cert::{Cert, CertificateError};
use crate::clock::unix_now;
use crate::jwt::{accepted_claims, decode_claims, decode_key_id, header_key_id, ClaimsModel, Key, RawClaims};
use crate::text::{contains_text, texts};
use crate::token::{claims_model, same_answer};

verus! {

/// Why an identity token was turned down.
#[derive(Debug, Clone, Copy, PartialEq, Eq, Structural)]
pub enum GoogleAuthError {
    /// The header of the token cannot be read, or names no key.
    KidNotFound,
    /// The provider's key set holds no key with the identifier of the header.
    KeyNotFound,
    /// The key set could not be had.
    DownloadCerts,
    /// The email of the token is not among the granted ones.
    NotGranted,
    /// The token has run out.
    ExpiredToken,
    /// The signature does not match the key, or the claims are not those of
    /// an identity.
    InvalidToken,
}

impl GoogleAuthError {
    /// The text that describes the error.
    pub fn message(&self) -> (text: String)
        ensures
            text@ == (match *self {
                GoogleAuthError::KidNotFound => "kid not found"@,
                GoogleAuthError::KeyNotFound => "Key not found"@,
                GoogleAuthError::DownloadCerts => "Can not download certs"@,
                GoogleAuthError::NotGranted => "Not granted"@,
                GoogleAuthError::ExpiredToken => "Expired token"@,
                GoogleAuthError::InvalidToken => "Invalid token"@,
            }),
    {
        match self {
            GoogleAuthError::KidNotFound => "kid not found".to_owned(),
            GoogleAuthError::KeyNotFound => "Key not found".to_owned(),
            GoogleAuthError::DownloadCerts => "Can not download certs".to_owned(),
            GoogleAuthError::NotGranted => "Not granted".to_owned(),
            GoogleAuthError::ExpiredToken => "Expired token".to_owned(),
            GoogleAuthError::InvalidToken => "Invalid token".to_owned(),
        }
    }
}

/// The key identifier of a token whose header was read as `header`.
pub open spec fn wanted_key(header: Option<Option<Seq<char>>>) -> Result<Seq<char>, GoogleAuthError> {
    match header {
        Some(Some(kid)) => Ok(kid),
        _ => Err(GoogleAuthError::KidNotFound),
    }
}

/// Reads the key identifier out of the header of an identity token, without
/// any check of the signature.
pub fn get_kid(token: &str) -> (kid: Result<String, GoogleAuthError>)
    ensures
        same_answer(kid, wanted_key(header_key_id(token@))),
{
    match decode_key_id(token) {
        Ok(Some(kid)) => Ok(kid),
        _ => Err(GoogleAuthError::KidNotFound),
    }
}

/// How a failure to get the key is reported: a key set without the key as
/// `KeyNotFound`, everything else as `DownloadCerts`.
pub open spec fn key_failure(error: CertificateError) -> GoogleAuthError {
    match error {
        CertificateError::NotFound => GoogleAuthError::KeyNotFound,
        _ => GoogleAuthError::DownloadCerts,
    }
}

/// The answer to an identity token whose signature check gave `claims`, asked
/// at second `now`.
///
/// Without accepted claims, or with claims that lack an email or an expiry,
/// the answer is `InvalidToken`. Then the expiry must lie strictly after
/// `now`. Last, the email must be granted.
pub open spec fn identity_answer(claims: Option<ClaimsModel>, granted: Seq<Seq<char>>, now: i64)
    -> Result<Seq<char>, GoogleAuthError> {
    match claims {
        Some((Some(email), Some(exp))) => if exp <= now {
            Err(GoogleAuthError::ExpiredToken)
        } else if !granted.contains(email) {
            Err(GoogleAuthError::NotGranted)
        } else {
            Ok(email)
        },
        _ => Err(GoogleAuthError::InvalidToken),
    }
}

/// Answers an identity token from the outcome of its signature check.
pub fn check_claims(claims: Option<RawClaims>, granted_emails: &Vec<String>, now: i64) -> (answer:
    Result<String, GoogleAuthError>)
    ensures
        same_answer(answer, identity_answer(claims_model(claims), texts(granted_emails@), now)),
{
    match claims {
        Some(RawClaims { email: Some(email), exp: Some(exp) }) => {
            if exp <= now {
                Err(GoogleAuthError::ExpiredToken)
            } else if !contains_text(granted_emails, email.as_str()) {
                Err(GoogleAuthError::NotGranted)
            } else {
                Ok(email)
            }
        },
        _ => Err(GoogleAuthError::InvalidToken),
    }
}

/// The answer to `token` at second `now`, given how the search for its key
/// ended: a failure of the search is reported by [`key_failure`]; with a key,
/// the signature is checked under `RS256` and the claims are answered by
/// [`identity_answer`].
pub open spec fn auth_answer(
    token: Seq<char>,
    key: Result<Cert, CertificateError>,
    granted: Seq<Seq<char>>,
    now: i64,
) -> Result<Seq<char>, GoogleAuthError> {
    match key {
        Ok(cert) => identity_answer(
            accepted_claims(token, true, Seq::empty(), cert.n@, cert.e@),
            granted,
            now,
        ),
        Err(error) => Err(key_failure(error)),
    }
}

/// Validates an identity token as of second `now`, with the outcome of the
/// search for the key that its header names.
pub fn auth_at(
    token: &str,
    key: Result<Cert, CertificateError>,
    granted_emails: &Vec<String>,
    now: i64,
) -> (answer: Result<String, GoogleAuthError>)
    ensures
        same_answer(answer, auth_answer(token@, key, texts(granted_emails@), now)),
{
    match key {
        Ok(cert) => {
            let rsa = Key::Rs256 { n: cert.n, e: cert.e };
            let claims = match decode_claims(token, &rsa) {
                Ok(found) => Some(found),
                Err(_) => None,
            };
            check_claims(claims, granted_emails, now)
        },
        Err(CertificateError::NotFound) => Err(GoogleAuthError::KeyNotFound),
        Err(_) => Err(GoogleAuthError::DownloadCerts),
    }
}

/// Validates an identity token as of the current second.
///
/// The clock decides which second that is, so the answer is the one that
/// [`auth_at`] gives at some second.
pub fn auth(token: &str, key: Result<Cert, CertificateError>, granted_emails: &Vec<String>) -> (answer:
    Result<String, GoogleAuthError>)
    ensures
        exists|now: i64|
            same_answer(answer, #[trigger] auth_answer(token@, key, texts(granted_emails@), now)),
{
    let now = unix_now();
    auth_at(token, key, granted_emails, now)
}

/// A key set that lacks the key of a token has the token answered with
/// `KeyNotFound`, whoever is granted.
pub proof fn lemma_missing_key_is_reported(token: Seq<char>, granted: Seq<Seq<char>>, now: i64)
    ensures
        auth_answer(token, Err(CertificateError::NotFound), granted, now) == Err::<
            Seq<char>,
            GoogleAuthError,
        >(GoogleAuthError::KeyNotFound),
{
}

/// An identity token is answered with an email only if its signature check
/// gave that email, the email is granted, and the expiry lies after `now`.
pub proof fn lemma_accepted_identity_is_granted_and_live(
    claims: Option<ClaimsModel>,
    granted: Seq<Seq<char>>,
    now: i64,
    email: Seq<char>,
)
    requires
        identity_answer(claims, granted, now) == Ok::<Seq<char>, GoogleAuthError>(email),
    ensures
        granted.contains(email),
        claims.is_some(),
        claims.unwrap().0 == Some(email),
        claims.unwrap().1.is_some(),
        claims.unwrap().1.unwrap() > now,
{
}

} // verus!
