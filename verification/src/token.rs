//! Session tokens: how one is issued, and what is asked of one that comes
//! back.

use vstd::prelude::*;
use crate::clock::{add_seconds, instant_after, unix_now};
use crate::text::{contains_text, texts};
use crate::jwt::{accepted_claims, decode_claims, encode_hs256, hs256_token, ClaimsModel, Key, RawClaims};

verus! {

/// What a session token states.
#[derive(Debug, PartialEq, Eq)]
pub struct Claims {
    /// Whom the session belongs to.
    pub email: String,
    /// The first Unix second at which the token is no longer valid.
    pub exp: i64,
}

/// Why no token was issued.
#[derive(Debug, Clone, Copy, PartialEq, Eq, Structural)]
pub enum CreateError {
    /// The claims could not be encoded or signed.
    Encode,
}

/// Why a session token was turned down.
#[derive(Debug, Clone, Copy, PartialEq, Eq, Structural)]
pub enum VerifyError {
    /// The token is no token, its signature does not match the secret, or its
    /// claims are not those of a session.
    Parse,
    /// The token has run out.
    Expired,
    /// The email of the token is not among the granted ones.
    NotGrunted,
}

impl VerifyError {
    /// The text that describes the error.
    pub fn message(&self) -> (text: String)
        ensures
            text@ == (match *self {
                VerifyError::Parse => "Can not parse certificates"@,
                VerifyError::Expired => "Token expired"@,
                VerifyError::NotGrunted => "Not grunted"@,
            }),
    {
        match self {
            VerifyError::Parse => "Can not parse certificates".to_owned(),
            VerifyError::Expired => "Token expired".to_owned(),
            VerifyError::NotGrunted => "Not grunted".to_owned(),
        }
    }
}

/// The claims of a session for `email` that starts at second `now` and lasts
/// `token_lifetime` seconds.
pub fn claims_at(email: &str, token_lifetime: i64, now: i64) -> (claims: Claims)
    ensures
        claims.email@ == email@,
        claims.exp == instant_after(now, token_lifetime),
{
    Claims { email: email.to_owned(), exp: add_seconds(now, token_lifetime) }
}

/// Issues a session token at second `now`: the claims of [`claims_at`], signed
/// under `HS256` with `secret`.
pub fn create_at(email: &str, secret: &[u8], token_lifetime: i64, now: i64) -> (token: Result<
    String,
    CreateError,
>)
    ensures
        match token {
            Ok(text) => hs256_token(email@, instant_after(now, token_lifetime), secret@) == Some(
                text@,
            ),
            Err(error) => error == CreateError::Encode && hs256_token(
                email@,
                instant_after(now, token_lifetime),
                secret@,
            ) == None::<Seq<char>>,
        },
{
    let claims = claims_at(email, token_lifetime, now);
    match encode_hs256(claims.email.as_str(), claims.exp, secret) {
        Ok(text) => Ok(text),
        Err(_) => Err(CreateError::Encode),
    }
}

/// Issues a session token that lasts `token_lifetime` seconds from the current
/// second.
///
/// The clock decides which second that is, so the token is the one that
/// [`create_at`] issues at some second.
pub fn create(email: &str, secret: &[u8], token_lifetime: i64) -> (token: Result<
    String,
    CreateError,
>)
    ensures
        exists|now: i64|
            match token {
                Ok(text) => (#[trigger] hs256_token(
                    email@,
                    instant_after(now, token_lifetime),
                    secret@,
                )) == Some(text@),
                Err(error) => error == CreateError::Encode && hs256_token(
                    email@,
                    instant_after(now, token_lifetime),
                    secret@,
                ) == None::<Seq<char>>,
            },
{
    let now = unix_now();
    create_at(email, secret, token_lifetime, now)
}

/// The answer to a session token whose signature check gave `claims`, asked
/// at second `now`.
///
/// The signature comes first: without accepted claims, or with claims that
/// lack an email or an expiry, the answer is `Parse`, whoever is granted. Then
/// the email must be granted. Last, the expiry must lie strictly after `now`.
pub open spec fn session_answer(claims: Option<ClaimsModel>, granted: Seq<Seq<char>>, now: i64)
    -> Result<Seq<char>, VerifyError> {
    match claims {
        Some((Some(email), Some(exp))) => if !granted.contains(email) {
            Err(VerifyError::NotGrunted)
        } else if exp <= now {
            Err(VerifyError::Expired)
        } else {
            Ok(email)
        },
        _ => Err(VerifyError::Parse),
    }
}

/// How an email that was handed out relates to the answer it stands for.
pub open spec fn same_answer<E>(given: Result<String, E>, answer: Result<Seq<char>, E>) -> bool {
    match given {
        Ok(email) => answer == Ok::<Seq<char>, E>(email@),
        Err(error) => answer == Err::<Seq<char>, E>(error),
    }
}

/// The claims as plain values, where there are any.
pub open spec fn claims_model(claims: Option<RawClaims>) -> Option<ClaimsModel> {
    match claims {
        Some(found) => Some(found.model()),
        None => None,
    }
}

/// Answers a session token from the outcome of its signature check.
pub fn verify_claims(claims: Option<RawClaims>, granted_emails: &Vec<String>, now: i64) -> (answer:
    Result<String, VerifyError>)
    ensures
        same_answer(answer, session_answer(claims_model(claims), texts(granted_emails@), now)),
{
    match claims {
        Some(RawClaims { email: Some(email), exp: Some(exp) }) => {
            if !contains_text(granted_emails, email.as_str()) {
                Err(VerifyError::NotGrunted)
            } else if exp <= now {
                Err(VerifyError::Expired)
            } else {
                Ok(email)
            }
        },
        _ => Err(VerifyError::Parse),
    }
}

/// Verifies a session token as of second `now`.
pub fn verify_at(token: &str, secret: &[u8], granted_emails: &Vec<String>, now: i64) -> (answer:
    Result<String, VerifyError>)
    ensures
        same_answer(
            answer,
            session_answer(
                accepted_claims(token@, false, secret@, Seq::empty(), Seq::empty()),
                texts(granted_emails@),
                now,
            ),
        ),
{
    let key = Key::Hs256 { secret: vstd::slice::slice_to_vec(secret) };
    let claims = match decode_claims(token, &key) {
        Ok(found) => Some(found),
        Err(_) => None,
    };
    verify_claims(claims, granted_emails, now)
}

/// Verifies a session token as of the current second.
///
/// The clock decides which second that is, so the answer is the one that
/// [`verify_at`] gives at some second.
pub fn verify(token: &str, secret: &[u8], granted_emails: &Vec<String>) -> (answer: Result<
    String,
    VerifyError,
>)
    ensures
        exists|now: i64|
            same_answer(
                answer,
                #[trigger] session_answer(
                    accepted_claims(token@, false, secret@, Seq::empty(), Seq::empty()),
                    texts(granted_emails@),
                    now,
                ),
            ),
{
    let now = unix_now();
    verify_at(token, secret, granted_emails, now)
}

/// A session that was issued to a granted email with a positive lifetime is
/// answered with that email at the second of its issue, unless that second is
/// the last one an `i64` can hold.
pub proof fn lemma_fresh_session_is_accepted(
    email: Seq<char>,
    granted: Seq<Seq<char>>,
    token_lifetime: i64,
    now: i64,
)
    requires
        granted.contains(email),
        token_lifetime > 0,
        now < i64::MAX,
    ensures
        session_answer(Some((Some(email), Some(instant_after(now, token_lifetime)))), granted, now)
            == Ok::<Seq<char>, VerifyError>(email),
{
}

/// A session that was issued to a granted email with a lifetime of zero or
/// less is answered with `Expired`, at the second of its issue and later.
pub proof fn lemma_outlived_session_is_expired(
    email: Seq<char>,
    granted: Seq<Seq<char>>,
    token_lifetime: i64,
    now: i64,
    later: i64,
)
    requires
        granted.contains(email),
        token_lifetime <= 0,
        now <= later,
    ensures
        session_answer(Some((Some(email), Some(instant_after(now, token_lifetime)))), granted, later)
            == Err::<Seq<char>, VerifyError>(VerifyError::Expired),
{
}

/// A session of an email that is not granted is answered with `NotGrunted`,
/// whatever its expiry.
pub proof fn lemma_stranger_is_not_granted(
    email: Seq<char>,
    granted: Seq<Seq<char>>,
    exp: i64,
    now: i64,
)
    requires
        !granted.contains(email),
    ensures
        session_answer(Some((Some(email), Some(exp))), granted, now) == Err::<
            Seq<char>,
            VerifyError,
        >(VerifyError::NotGrunted),
{
}

/// A token whose signature check fails is answered with `Parse`, whoever is
/// granted and whatever the second.
pub proof fn lemma_rejected_signature_is_invalid(granted: Seq<Seq<char>>, now: i64)
    ensures
        session_answer(None, granted, now) == Err::<Seq<char>, VerifyError>(VerifyError::Parse),
{
}

} // verus!
