//! The two entry points that every transport calls: a login with an identity
//! token, and the verification of a session token.

use vstd::prelude::*;
use crate::cache::{Cache, Entries};
use crate::cert::{decision, download_certs_at, entries_after, Cert, Event, Step};
use crate::clock::{instant_after, unix_now};
use crate::google_auth::{auth_answer, auth_at, get_kid, wanted_key, GoogleAuthError};
use crate::jwt::{accepted_claims, header_key_id, hs256_token};
use crate::text::texts;
use crate::token::{create_at, session_answer, verify_at, CreateError, VerifyError};

verus! {

/// A session that a login opened.
#[derive(Debug, PartialEq, Eq)]
pub struct Session {
    /// The session token.
    pub token: String,
    /// Whom the session belongs to.
    pub email: String,
}

/// Why a login opened no session.
#[derive(Debug, Clone, Copy, PartialEq, Eq, Structural)]
pub enum LoginError {
    /// The identity token was turned down.
    Identity(GoogleAuthError),
    /// The identity token is valid, and no session token could be issued.
    Issue(CreateError),
}

/// What [`login`] decides.
#[derive(Debug, PartialEq, Eq)]
pub enum Progress {
    /// The key of the identity token is not cached: download the key set, and
    /// call again with the outcome.
    Fetch,
    /// The login is settled.
    Done(Result<Session, LoginError>),
}

/// A settled login as plain values: the session token and the email, or the
/// failure.
pub type Settled = Result<(Seq<char>, Seq<char>), LoginError>;

/// The step that a login with `credential` takes at second `now`, on `event`
/// and with a key cache that holds `entries`: nothing where the key set is to
/// be downloaded first, else how the login is settled.
///
/// The key that the header of the credential names is looked for, in the
/// cache or in the download that `event` reports. With the outcome of that
/// search the credential is validated. To the email of a valid one a session
/// token is issued that lasts `token_lifetime` seconds from `now`.
pub open spec fn login_step(
    credential: Seq<char>,
    granted: Seq<Seq<char>>,
    secret: Seq<u8>,
    token_lifetime: i64,
    entries: Entries<Cert>,
    event: Event,
    now: i64,
) -> Option<Settled> {
    match wanted_key(header_key_id(credential)) {
        Err(error) => Some(Err(LoginError::Identity(error))),
        Ok(kid) => match decision(entries, kid, event, now) {
            Step::Fetch => None,
            Step::Done(key) => match auth_answer(credential, key, granted, now) {
                Err(error) => Some(Err(LoginError::Identity(error))),
                Ok(email) => match hs256_token(email, instant_after(now, token_lifetime), secret) {
                    Some(token) => Some(Ok((token, email))),
                    None => Some(Err(LoginError::Issue(CreateError::Encode))),
                },
            },
        },
    }
}

/// What the key cache holds after a login step: what the search for the key
/// left in it, where the login came as far as that search.
pub open spec fn login_entries(credential: Seq<char>, entries: Entries<Cert>, event: Event, now: i64)
    -> Entries<Cert> {
    match wanted_key(header_key_id(credential)) {
        Err(_) => entries,
        Ok(kid) => entries_after(entries, kid, event, now),
    }
}

impl Progress {
    /// The step as plain values.
    pub open spec fn model(&self) -> Option<Settled> {
        match *self {
            Progress::Fetch => None,
            Progress::Done(Ok(session)) => Some(Ok((session.token@, session.email@))),
            Progress::Done(Err(error)) => Some(Err(error)),
        }
    }
}

/// One step of a login, as of second `now`.
pub fn login_at(
    credential: &str,
    granted_emails: &Vec<String>,
    secret: &[u8],
    token_lifetime: i64,
    cache: &mut Cache<Cert>,
    event: Event,
    now: i64,
) -> (progress: Progress)
    ensures
        progress.model() == login_step(
            credential@,
            texts(granted_emails@),
            secret@,
            token_lifetime,
            old(cache)@,
            event,
            now,
        ),
        final(cache)@ == login_entries(credential@, old(cache)@, event, now),
{
    let kid = match get_kid(credential) {
        Ok(kid) => kid,
        Err(error) => {
            return Progress::Done(Err(LoginError::Identity(error)));
        },
    };
    let key = match download_certs_at(cache, kid.as_str(), event, now) {
        Step::Fetch => {
            return Progress::Fetch;
        },
        Step::Done(key) => key,
    };
    let email = match auth_at(credential, key, granted_emails, now) {
        Ok(email) => email,
        Err(error) => {
            return Progress::Done(Err(LoginError::Identity(error)));
        },
    };
    match create_at(email.as_str(), secret, token_lifetime, now) {
        Ok(token) => Progress::Done(Ok(Session { token, email })),
        Err(error) => Progress::Done(Err(LoginError::Issue(error))),
    }
}

/// One step of a login, as of the current second.
///
/// Call it with `Event::Requested` first. Where it answers `Fetch`, download
/// the key set and call it again with `Event::Answered` and the outcome. The
/// clock decides which second a step is taken at, so the step is the one that
/// [`login_at`] takes at some second.
pub fn login(
    credential: &str,
    granted_emails: &Vec<String>,
    secret: &[u8],
    token_lifetime: i64,
    cache: &mut Cache<Cert>,
    event: Event,
) -> (progress: Progress)
    ensures
        exists|now: i64|
            progress.model() == #[trigger] login_step(
                credential@,
                texts(granted_emails@),
                secret@,
                token_lifetime,
                old(cache)@,
                event,
                now,
            ) && final(cache)@ == login_entries(credential@, old(cache)@, event, now),
{
    let now = unix_now();
    login_at(credential, granted_emails, secret, token_lifetime, cache, event, now)
}

/// What a transport says of a session token.
#[derive(Debug, Clone, Copy, PartialEq, Eq, Structural)]
pub enum TokenStatus {
    /// The token is valid, and its email is granted.
    Valid,
    /// The token is no token, or its signature does not match.
    Invalid,
    /// The token has run out.
    Expired,
    /// The email of the token is not granted.
    NotGrunted,
}

impl TokenStatus {
    /// The number that stands for the status on the wire.
    pub open spec fn wire(self) -> i32 {
        match self {
            TokenStatus::Valid => 0,
            TokenStatus::Invalid => 1,
            TokenStatus::Expired => 2,
            TokenStatus::NotGrunted => 3,
        }
    }

    /// The number that stands for the status on the wire.
    pub fn code(&self) -> (code: i32)
        ensures
            code == self.wire(),
    {
        match self {
            TokenStatus::Valid => 0,
            TokenStatus::Invalid => 1,
            TokenStatus::Expired => 2,
            TokenStatus::NotGrunted => 3,
        }
    }
}

/// The status that stands for an answer. Here, and nowhere else, error kinds
/// are merged: every failure of the signature check is `Invalid`.
pub open spec fn status_of(answer: Result<Seq<char>, VerifyError>) -> TokenStatus {
    match answer {
        Ok(_) => TokenStatus::Valid,
        Err(VerifyError::Expired) => TokenStatus::Expired,
        Err(VerifyError::NotGrunted) => TokenStatus::NotGrunted,
        Err(VerifyError::Parse) => TokenStatus::Invalid,
    }
}

/// The email that goes out with an answer: that of the session, or none.
pub open spec fn email_of(answer: Result<Seq<char>, VerifyError>) -> Seq<char> {
    match answer {
        Ok(email) => email,
        Err(_) => Seq::empty(),
    }
}

/// Turns the answer to a session token into a status and an email.
pub fn summarize(answer: Result<String, VerifyError>) -> (summary: (TokenStatus, String))
    ensures
        match answer {
            Ok(email) => summary.0 == status_of(Ok(email@)) && summary.1@ == email_of(Ok(email@)),
            Err(error) => summary.0 == status_of(Err(error)) && summary.1@ == email_of(Err(error)),
        },
{
    match answer {
        Ok(email) => (TokenStatus::Valid, email),
        Err(VerifyError::Expired) => (TokenStatus::Expired, String::new()),
        Err(VerifyError::NotGrunted) => (TokenStatus::NotGrunted, String::new()),
        Err(VerifyError::Parse) => (TokenStatus::Invalid, String::new()),
    }
}

/// The answer to the session token `token` at second `now`.
pub open spec fn verified(token: Seq<char>, secret: Seq<u8>, granted: Seq<Seq<char>>, now: i64)
    -> Result<Seq<char>, VerifyError> {
    session_answer(accepted_claims(token, false, secret, Seq::empty(), Seq::empty()), granted, now)
}

/// Verifies a session token as of second `now`, and gives its status with the
/// email of the session.
pub fn verify_status_at(token: &str, secret: &[u8], granted_emails: &Vec<String>, now: i64)
    -> (summary: (TokenStatus, String))
    ensures
        summary.0 == status_of(verified(token@, secret@, texts(granted_emails@), now)),
        summary.1@ == email_of(verified(token@, secret@, texts(granted_emails@), now)),
{
    summarize(verify_at(token, secret, granted_emails, now))
}

/// Verifies a session token as of the current second.
///
/// The clock decides which second that is, so the status is the one that
/// [`verify_status_at`] gives at some second.
pub fn verify(token: &str, secret: &[u8], granted_emails: &Vec<String>) -> (summary: (
    TokenStatus,
    String,
))
    ensures
        exists|now: i64|
            summary.0 == status_of(#[trigger] verified(token@, secret@, texts(granted_emails@), now))
                && summary.1@ == email_of(verified(token@, secret@, texts(granted_emails@), now)),
{
    let now = unix_now();
    verify_status_at(token, secret, granted_emails, now)
}

/// An email goes out only with the status `Valid`.
pub proof fn lemma_email_only_with_valid(answer: Result<Seq<char>, VerifyError>)
    requires
        status_of(answer) != TokenStatus::Valid,
    ensures
        email_of(answer) == Seq::<char>::empty(),
{
}

/// A login with a credential whose key set lacks its key opens no session: it
/// ends in `KeyNotFound`.
pub proof fn lemma_login_without_key_fails(
    credential: Seq<char>,
    granted: Seq<Seq<char>>,
    secret: Seq<u8>,
    token_lifetime: i64,
    entries: Entries<Cert>,
    event: Event,
    now: i64,
)
    requires
        wanted_key(header_key_id(credential)).is_ok(),
        decision(entries, wanted_key(header_key_id(credential)).unwrap(), event, now)
            == Step::Done(Err(crate::cert::CertificateError::NotFound)),
    ensures
        login_step(credential, granted, secret, token_lifetime, entries, event, now) == Some(
            Err::<(Seq<char>, Seq<char>), LoginError>(
                LoginError::Identity(GoogleAuthError::KeyNotFound),
            ),
        ),
{
}

} // verus!
