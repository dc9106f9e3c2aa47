//! The decisions of the document transport: whether a login may send the
//! browser back to where it came from, what a login is answered with, and what
//! a verification request is answered with.

use vstd::prelude::*;
use vstd::utf8::encode_utf8;
use crate::cache::{Cache, Entries};
use crate::cert::{Cert, Event};
use crate::clock::{add_seconds, instant_after, unix_now};
use crate::config::Config;
use crate::facade::{login_step, verified, Progress};
use crate::text::{contains_text, texts};
use crate::token::VerifyError;

verus! {

/// The form of a login: the identity token that the provider issued.
#[derive(Debug)]
pub struct LoginRequest {
    pub credential: String,
}

/// The query of a login: where the browser goes after it.
#[derive(Debug)]
#[allow(non_snake_case)]
pub struct QueryParameters {
    pub returnTo: String,
}

/// The body of a verification request: the session token.
#[derive(Debug)]
pub struct VerifyRequest {
    pub token: String,
}

/// The body of the answer to a session token that was accepted.
#[derive(Debug, PartialEq, Eq)]
pub struct VerifyResponse {
    pub email: String,
}

/// The failure that `url` reports for an address that is no URL.
#[verifier::external_type_specification]
#[verifier::external_body]
pub struct ExParseError(url::ParseError);

/// What `url::Url::parse` makes of `address`, cut off before the path:
/// scheme, credentials, host and port. Nothing where the address is no URL.
pub uninterp spec fn origin_of(address: Seq<char>) -> Option<Seq<char>>;

/// Calls `url::Url::parse` and hands out the part of the parsed URL from
/// `Position::BeforeScheme` to `Position::BeforePath`.
///
/// Taken on trust: the outcome depends on the address alone.
#[verifier::external_body]
fn parse_origin(address: &str) -> (origin: Result<String, url::ParseError>)
    ensures
        match origin {
            Ok(text) => origin_of(address@) == Some(text@),
            Err(_) => origin_of(address@) == None::<Seq<char>>,
        },
{
    match url::Url::parse(address) {
        Ok(parsed) => Ok(parsed[url::Position::BeforeScheme..url::Position::BeforePath].to_string()),
        Err(error) => Err(error),
    }
}

/// Whether an address with the given origin may be returned to: it must have
/// an origin, and the origin must be one of the allowed ones, letter for
/// letter.
pub open spec fn allowed(origin: Option<Seq<char>>, allowed_origins: Seq<Seq<char>>) -> bool {
    match origin {
        Some(text) => allowed_origins.contains(text),
        None => false,
    }
}

/// Holds the origin of an address against the allowed origins.
pub fn origin_allowed(origin: Option<String>, allowed_origins: &Vec<String>) -> (granted: bool)
    ensures
        granted == allowed(
            match origin {
                Some(text) => Some(text@),
                None => None,
            },
            texts(allowed_origins@),
        ),
{
    match origin {
        Some(text) => contains_text(allowed_origins, text.as_str()),
        None => false,
    }
}

/// Whether a login may send the browser to `origin`.
pub fn is_allowd_origin(origin: &str, allowed_origins: &Vec<String>) -> (granted: bool)
    ensures
        granted == allowed(origin_of(origin@), texts(allowed_origins@)),
{
    let parsed = match parse_origin(origin) {
        Ok(text) => Some(text),
        Err(_) => None,
    };
    origin_allowed(parsed, allowed_origins)
}

/// The cookie that carries a session.
#[derive(Debug, PartialEq, Eq)]
pub struct SessionCookie {
    /// The name of the cookie.
    pub name: String,
    /// The session token.
    pub value: String,
    /// The Unix second at which the cookie expires.
    pub expires: i64,
    /// The domain that the cookie is scoped to.
    pub domain: String,
}

/// What a login is answered with.
#[derive(Debug, PartialEq, Eq)]
pub enum LoginReply {
    /// The address to return to is not allowed.
    OriginNotAllowed,
    /// The identity token was turned down.
    Unauthorized,
    /// No session token could be issued.
    Failed,
    /// The login went through: the browser is sent to `location` with the
    /// session in `cookie`.
    Redirect { location: String, cookie: SessionCookie },
}

impl LoginReply {
    /// The HTTP status of the reply.
    pub fn status(&self) -> (code: u16)
        ensures
            code == (match *self {
                LoginReply::OriginNotAllowed => 401u16,
                LoginReply::Unauthorized => 401u16,
                LoginReply::Failed => 500u16,
                LoginReply::Redirect { .. } => 301u16,
            }),
    {
        match self {
            LoginReply::OriginNotAllowed => 401,
            LoginReply::Unauthorized => 401,
            LoginReply::Failed => 500,
            LoginReply::Redirect { .. } => 301,
        }
    }

    /// The body of the reply.
    pub fn body(&self) -> (text: String)
        ensures
            text@ == (match *self {
                LoginReply::OriginNotAllowed => "Origin not allowed"@,
                LoginReply::Unauthorized => "Unauthorized"@,
                LoginReply::Failed => ""@,
                LoginReply::Redirect { .. } => ""@,
            }),
    {
        match self {
            LoginReply::OriginNotAllowed => "Origin not allowed".to_owned(),
            LoginReply::Unauthorized => "Unauthorized".to_owned(),
            LoginReply::Failed => "".to_owned(),
            LoginReply::Redirect { .. } => "".to_owned(),
        }
    }
}

/// What [`login`] decides.
#[derive(Debug, PartialEq, Eq)]
pub enum LoginStep {
    /// The key of the identity token is not cached: download the key set, and
    /// call again with the outcome.
    Fetch,
    /// The login is settled.
    Reply(LoginReply),
}

/// Whether `cookie` carries `token` for the service at second `now`.
pub open spec fn carries(cookie: SessionCookie, token: Seq<char>, cfg: Config, now: i64) -> bool {
    &&& cookie.name@ == "access_token"@
    &&& cookie.value@ == token
    &&& cookie.expires == instant_after(now, cfg.token_lifetime)
    &&& cookie.domain@ == cfg.domain@
}

/// Whether `step` is the step that a login takes at second `now`, on `event`
/// and with a key cache that holds `entries`.
///
/// The address to return to is looked at first: where it is not allowed, the
/// login is refused, whatever the credential. Else the login proper takes its
/// step, with the settings of `cfg`. A credential that is turned down is
/// refused. With a session, the browser is sent back to where it came from,
/// and the cookie carries the session token.
pub open spec fn is_login_step(
    step: LoginStep,
    query: QueryParameters,
    req: LoginRequest,
    cfg: Config,
    entries: Entries<Cert>,
    event: Event,
    now: i64,
) -> bool {
    if !allowed(origin_of(query.returnTo@), texts(cfg.allowed_origins@)) {
        step == LoginStep::Reply(LoginReply::OriginNotAllowed)
    } else {
        match login_step(
            req.credential@,
            texts(cfg.granted_emails@),
            encode_utf8(cfg.secret@),
            cfg.token_lifetime,
            entries,
            event,
            now,
        ) {
            None => step == LoginStep::Fetch,
            Some(Err(crate::facade::LoginError::Identity(_))) => step == LoginStep::Reply(
                LoginReply::Unauthorized,
            ),
            Some(Err(crate::facade::LoginError::Issue(_))) => step == LoginStep::Reply(
                LoginReply::Failed,
            ),
            Some(Ok((token, email))) => step matches LoginStep::Reply(
                LoginReply::Redirect { location, cookie },
            ) && location@ == query.returnTo@ && carries(cookie, token, cfg, now),
        }
    }
}

/// What the key cache holds after a login step: a login that is refused for
/// its address leaves it as it was.
pub open spec fn login_entries(
    query: QueryParameters,
    req: LoginRequest,
    cfg: Config,
    entries: Entries<Cert>,
    event: Event,
    now: i64,
) -> Entries<Cert> {
    if !allowed(origin_of(query.returnTo@), texts(cfg.allowed_origins@)) {
        entries
    } else {
        crate::facade::login_entries(req.credential@, entries, event, now)
    }
}

/// One step of a login, as of second `now`.
pub fn login_at(
    query: &QueryParameters,
    req: &LoginRequest,
    cfg: &Config,
    cache: &mut Cache<Cert>,
    event: Event,
    now: i64,
) -> (step: LoginStep)
    ensures
        is_login_step(step, *query, *req, *cfg, old(cache)@, event, now),
        final(cache)@ == login_entries(*query, *req, *cfg, old(cache)@, event, now),
{
    if !is_allowd_origin(query.returnTo.as_str(), &cfg.allowed_origins) {
        return LoginStep::Reply(LoginReply::OriginNotAllowed);
    }
    let progress = crate::facade::login_at(
        req.credential.as_str(),
        &cfg.granted_emails,
        cfg.secret.as_str().as_bytes(),
        cfg.token_lifetime,
        cache,
        event,
        now,
    );
    match progress {
        Progress::Fetch => LoginStep::Fetch,
        Progress::Done(Err(crate::facade::LoginError::Identity(_))) => LoginStep::Reply(
            LoginReply::Unauthorized,
        ),
        Progress::Done(Err(crate::facade::LoginError::Issue(_))) => LoginStep::Reply(
            LoginReply::Failed,
        ),
        Progress::Done(Ok(session)) => {
            let cookie = SessionCookie {
                name: "access_token".to_owned(),
                value: session.token,
                expires: add_seconds(now, cfg.token_lifetime),
                domain: cfg.domain.clone(),
            };
            LoginStep::Reply(LoginReply::Redirect { location: query.returnTo.clone(), cookie })
        },
    }
}

/// One step of a login, as of the current second.
///
/// Call it with `Event::Requested` first. Where it answers `Fetch`, download
/// the key set and call it again with `Event::Answered` and the outcome. The
/// clock decides which second a step is taken at, so the step is the one that
/// [`login_at`] takes at some second.
pub fn login(
    query: &QueryParameters,
    req: &LoginRequest,
    cfg: &Config,
    cache: &mut Cache<Cert>,
    event: Event,
) -> (step: LoginStep)
    ensures
        exists|now: i64|
            #[trigger] is_login_step(step, *query, *req, *cfg, old(cache)@, event, now)
                && final(cache)@ == login_entries(*query, *req, *cfg, old(cache)@, event, now),
{
    let now = unix_now();
    login_at(query, req, cfg, cache, event, now)
}

/// The answer to the session token of a verification request at second
/// `now`.
pub open spec fn verify_answer(req: VerifyRequest, cfg: Config, now: i64) -> Result<
    Seq<char>,
    VerifyError,
> {
    verified(req.token@, encode_utf8(cfg.secret@), texts(cfg.granted_emails@), now)
}

/// How the body of an accepted request relates to the answer it stands for.
pub open spec fn same_response(
    given: Result<VerifyResponse, VerifyError>,
    answer: Result<Seq<char>, VerifyError>,
) -> bool {
    match given {
        Ok(response) => answer == Ok::<Seq<char>, VerifyError>(response.email@),
        Err(error) => answer == Err::<Seq<char>, VerifyError>(error),
    }
}

/// Answers a verification request as of second `now`.
pub fn verify_at(req: &VerifyRequest, cfg: &Config, now: i64) -> (answer: Result<
    VerifyResponse,
    VerifyError,
>)
    ensures
        same_response(answer, verify_answer(*req, *cfg, now)),
{
    match crate::token::verify_at(
        req.token.as_str(),
        cfg.secret.as_str().as_bytes(),
        &cfg.granted_emails,
        now,
    ) {
        Ok(email) => Ok(VerifyResponse { email }),
        Err(error) => Err(error),
    }
}

/// Answers a verification request as of the current second.
///
/// The clock decides which second that is, so the answer is the one that
/// [`verify_at`] gives at some second.
pub fn verify(req: &VerifyRequest, cfg: &Config) -> (answer: Result<VerifyResponse, VerifyError>)
    ensures
        exists|now: i64| same_response(answer, #[trigger] verify_answer(*req, *cfg, now)),
{
    let now = unix_now();
    self::verify_at(req, cfg, now)
}

/// A login whose address to return to is not allowed is refused on either
/// event, whatever the credential, the cache and the second, and leaves the
/// cache as it was.
pub proof fn lemma_foreign_origin_is_refused(
    step: LoginStep,
    query: QueryParameters,
    req: LoginRequest,
    cfg: Config,
    entries: Entries<Cert>,
    event: Event,
    now: i64,
)
    requires
        !allowed(origin_of(query.returnTo@), texts(cfg.allowed_origins@)),
        is_login_step(step, query, req, cfg, entries, event, now),
    ensures
        step == LoginStep::Reply(LoginReply::OriginNotAllowed),
        login_entries(query, req, cfg, entries, event, now) == entries,
{
}

} // verus!
