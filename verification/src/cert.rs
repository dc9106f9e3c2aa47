//! The signing keys of the identity provider: how a downloaded key set is
//! searched, how long a key may be cached, and when a download is due.
//!
//! The download itself is not made here. [`download_certs`] says when one is
//! needed and takes its outcome as a [`KeySetResponse`].

use vstd::prelude::*;
use crate::cache::{read, written, Cache, Entries};
use crate::clock::{instant_after, unix_now};

verus! {

/// One public signing key of the identity provider.
#[derive(Debug, PartialEq, Eq)]
pub struct Cert {
    /// The public exponent, in URL-safe base 64.
    pub e: String,
    /// The modulus, in URL-safe base 64.
    pub n: String,
    /// The identifier by which token headers name the key.
    pub kid: String,
}

impl Clone for Cert {
    fn clone(&self) -> (copy: Self)
        ensures
            copy == *self,
    {
        Cert { e: self.e.clone(), n: self.n.clone(), kid: self.kid.clone() }
    }
}

/// A key set as the provider publishes it.
#[derive(Debug, PartialEq, Eq)]
pub struct Certs {
    pub keys: Vec<Cert>,
}

/// Why no key could be handed out.
#[derive(Debug, Clone, Copy, PartialEq, Eq, Structural)]
pub enum CertificateError {
    /// The key set could not be downloaded.
    Http,
    /// The downloaded body is no key set.
    Parse,
    /// The key set holds no key with the identifier asked for.
    NotFound,
}

impl CertificateError {
    /// The text that describes the error.
    pub fn message(&self) -> (text: String)
        ensures
            text@ == (match *self {
                CertificateError::Http => "Can not download actual certificates"@,
                CertificateError::Parse => "Can not parse certificates"@,
                CertificateError::NotFound => "Certificate with kid not found"@,
            }),
    {
        match self {
            CertificateError::Http => "Can not download actual certificates".to_owned(),
            CertificateError::Parse => "Can not parse certificates".to_owned(),
            CertificateError::NotFound => "Certificate with kid not found".to_owned(),
        }
    }
}

/// The lifetime, in seconds, of a key whose download named none.
pub const DEFAULT_MAX_AGE: i64 = 3600;

/// Whether `byte` is one of the ASCII digits `0` to `9`.
pub open spec fn is_digit(byte: u8) -> bool {
    48 <= byte && byte <= 57
}

/// Whether the eight bytes `max-age=` stand in `text` from index `at` on.
pub open spec fn directive_at(text: Seq<u8>, at: int) -> bool {
    &&& 0 <= at
    &&& at + 8 <= text.len()
    &&& text[at] == 109      // m
    &&& text[at + 1] == 97   // a
    &&& text[at + 2] == 120  // x
    &&& text[at + 3] == 45   // -
    &&& text[at + 4] == 97   // a
    &&& text[at + 5] == 103  // g
    &&& text[at + 6] == 101  // e
    &&& text[at + 7] == 61   // =
}

/// Whether a directive with at least one digit behind it starts at `at`.
pub open spec fn directive_with_seconds_at(text: Seq<u8>, at: int) -> bool {
    directive_at(text, at) && at + 8 < text.len() && is_digit(text[at + 8])
}

/// The first index from `from` on at which a directive with seconds starts.
pub open spec fn first_directive(text: Seq<u8>, from: int) -> Option<int>
    decreases text.len() - from,
{
    if from < 0 || from >= text.len() {
        None
    } else if directive_with_seconds_at(text, from) {
        Some(from)
    } else {
        first_directive(text, from + 1)
    }
}

/// The index behind the run of digits that starts at `from`.
pub open spec fn digits_end(text: Seq<u8>, from: int) -> int
    decreases text.len() - from,
{
    if 0 <= from && from < text.len() && is_digit(text[from]) {
        digits_end(text, from + 1)
    } else {
        from
    }
}

/// The number that a sequence of ASCII digits writes in base ten.
pub open spec fn decimal(digits: Seq<u8>) -> nat
    decreases digits.len(),
{
    if digits.len() == 0 {
        0
    } else {
        10 * decimal(digits.drop_last()) + (digits.last() - 48) as nat
    }
}

/// The seconds of the first `max-age=<digits>` in `text`, with the longest run
/// of digits taken; nothing where `text` holds no such directive, or where the
/// number does not fit an `i64`.
pub open spec fn max_age(text: Seq<u8>) -> Option<i64> {
    match first_directive(text, 0) {
        Some(at) => {
            let seconds = decimal(text.subrange(at + 8, digits_end(text, at + 8)));
            if seconds <= i64::MAX {
                Some(seconds as i64)
            } else {
                None
            }
        },
        None => None,
    }
}

fn directive_with_seconds_here(text: &[u8], at: usize) -> (found: bool)
    requires
        at < text@.len(),
    ensures
        found == directive_with_seconds_at(text@, at as int),
{
    text.len() - at > 8 && text[at] == 109 && text[at + 1] == 97 && text[at + 2] == 120 && text[at
        + 3] == 45 && text[at + 4] == 97 && text[at + 5] == 103 && text[at + 6] == 101 && text[at
        + 7] == 61 && text[at + 8] >= 48 && text[at + 8] <= 57
}

fn seconds_from(text: &[u8], start: usize) -> (seconds: Option<i64>)
    requires
        start <= text@.len(),
    ensures
        seconds == (if decimal(text@.subrange(start as int, digits_end(text@, start as int)))
            <= i64::MAX {
            Some(decimal(text@.subrange(start as int, digits_end(text@, start as int))) as i64)
        } else {
            None
        }),
{
    let len = text.len();
    let mut end: usize = start;
    let mut value: i64 = 0;
    let mut fits = true;
    while end < len && text[end] >= 48 && text[end] <= 57
        invariant
            len == text@.len(),
            start <= end <= len,
            digits_end(text@, start as int) == digits_end(text@, end as int),
            0 <= value,
            fits ==> value == decimal(text@.subrange(start as int, end as int)),
            !fits ==> decimal(text@.subrange(start as int, end as int)) > i64::MAX,
        decreases len - end,
    {
        let digit: i64 = (text[end] - 48) as i64;
        proof {
            let longer = text@.subrange(start as int, end + 1);
            assert(longer.drop_last() =~= text@.subrange(start as int, end as int));
            assert(longer.last() == text@[end as int]);
        }
        if fits {
            if value <= (i64::MAX - digit) / 10 {
                value = value * 10 + digit;
            } else {
                fits = false;
            }
        }
        end += 1;
    }
    if fits {
        Some(value)
    } else {
        None
    }
}

/// Reads the lifetime out of the value of a `Cache-Control` header.
pub fn get_max_age(cache_control: &[u8]) -> (age: Option<i64>)
    ensures
        age == max_age(cache_control@),
{
    let len = cache_control.len();
    let mut at: usize = 0;
    while at < len
        invariant
            len == cache_control@.len(),
            at <= len,
            first_directive(cache_control@, 0) == first_directive(cache_control@, at as int),
        decreases len - at,
    {
        if directive_with_seconds_here(cache_control, at) {
            return seconds_from(cache_control, at + 8);
        }
        at += 1;
    }
    None
}

/// The lifetime that a download with the given `Cache-Control` value grants:
/// its `max-age`, or [`DEFAULT_MAX_AGE`] where the header is missing or names
/// none that can be read.
pub open spec fn lifetime(cache_control: Option<Seq<u8>>) -> i64 {
    match cache_control {
        Some(text) => match max_age(text) {
            Some(seconds) => seconds,
            None => DEFAULT_MAX_AGE,
        },
        None => DEFAULT_MAX_AGE,
    }
}

/// The `Cache-Control` value of a response as a sequence of bytes.
pub open spec fn header_bytes(cache_control: Option<Vec<u8>>) -> Option<Seq<u8>> {
    match cache_control {
        Some(text) => Some(text@),
        None => None,
    }
}

/// Computes the lifetime of a downloaded key.
pub fn cache_ttl(cache_control: &Option<Vec<u8>>) -> (ttl: i64)
    ensures
        ttl == lifetime(header_bytes(*cache_control)),
{
    match cache_control {
        Some(text) => match get_max_age(text.as_slice()) {
            Some(seconds) => seconds,
            None => DEFAULT_MAX_AGE,
        },
        None => DEFAULT_MAX_AGE,
    }
}

/// The index of the first key from `from` on whose identifier is `kid`.
pub open spec fn first_with_kid(keys: Seq<Cert>, kid: Seq<char>, from: int) -> Option<int>
    decreases keys.len() - from,
{
    if from < 0 || from >= keys.len() {
        None
    } else if keys[from].kid@ == kid {
        Some(from)
    } else {
        first_with_kid(keys, kid, from + 1)
    }
}

/// The first key of `keys` whose identifier is `kid`.
pub open spec fn key_for(keys: Seq<Cert>, kid: Seq<char>) -> Option<Cert> {
    match first_with_kid(keys, kid, 0) {
        Some(at) => Some(keys[at]),
        None => None,
    }
}

/// Searches a key set for the key with identifier `kid`.
pub fn find_cert(certs: &Certs, kid: &str) -> (found: Option<Cert>)
    ensures
        found == key_for(certs.keys@, kid@),
{
    let wanted = kid.to_owned();
    let mut at: usize = 0;
    while at < certs.keys.len()
        invariant
            at <= certs.keys@.len(),
            wanted@ == kid@,
            first_with_kid(certs.keys@, kid@, 0) == first_with_kid(certs.keys@, kid@, at as int),
        decreases certs.keys@.len() - at,
    {
        if certs.keys[at].kid == wanted {
            return Some(certs.keys[at].clone());
        }
        at += 1;
    }
    None
}

/// How a download of the key set ended.
#[derive(Debug, PartialEq, Eq)]
pub enum KeySetResponse {
    /// The request failed, or the provider answered with an error.
    Failed,
    /// An answer came, and its body is no key set.
    Undecodable,
    /// A key set came, with the value of its `Cache-Control` header where it
    /// had one.
    Loaded { cache_control: Option<Vec<u8>>, certs: Certs },
}

/// What [`download_certs`] is told.
#[derive(Debug, PartialEq, Eq)]
pub enum Event {
    /// A key is asked for.
    Requested,
    /// The download that an earlier step asked for has ended.
    Answered(KeySetResponse),
}

/// What [`download_certs`] decides.
#[derive(Debug, PartialEq, Eq)]
pub enum Step {
    /// The key is not cached: download the key set, and report the outcome.
    Fetch,
    /// The request is settled.
    Done(Result<Cert, CertificateError>),
}

/// What a download gives for `kid`.
pub open spec fn answer(response: KeySetResponse, kid: Seq<char>) -> Result<Cert, CertificateError> {
    match response {
        KeySetResponse::Failed => Err(CertificateError::Http),
        KeySetResponse::Undecodable => Err(CertificateError::Parse),
        KeySetResponse::Loaded { cache_control, certs } => match key_for(certs.keys@, kid) {
            Some(cert) => Ok(cert),
            None => Err(CertificateError::NotFound),
        },
    }
}

/// What the cache holds after a download for `kid` was taken in at second
/// `now`: the key that was found is written under `kid` with the lifetime the
/// response grants; without such a key nothing changes.
pub open spec fn taken_in(entries: Entries<Cert>, kid: Seq<char>, response: KeySetResponse, now: i64)
    -> Entries<Cert> {
    match response {
        KeySetResponse::Loaded { cache_control, certs } => match key_for(certs.keys@, kid) {
            Some(cert) => written(entries, kid, cert, lifetime(header_bytes(cache_control)), now),
            None => entries,
        },
        _ => entries,
    }
}

/// The decision for `event` at second `now`.
pub open spec fn decision(entries: Entries<Cert>, kid: Seq<char>, event: Event, now: i64) -> Step {
    match event {
        Event::Requested => match read(entries, kid, now) {
            Some(cert) => Step::Done(Ok(cert)),
            None => Step::Fetch,
        },
        Event::Answered(response) => Step::Done(answer(response, kid)),
    }
}

/// What the cache holds after `event` at second `now`.
pub open spec fn entries_after(entries: Entries<Cert>, kid: Seq<char>, event: Event, now: i64)
    -> Entries<Cert> {
    match event {
        Event::Requested => entries,
        Event::Answered(response) => taken_in(entries, kid, response, now),
    }
}

/// Takes the outcome of a download in, as of second `now`.
pub fn accept_key_set_at(cache: &mut Cache<Cert>, kid: &str, response: KeySetResponse, now: i64)
    -> (found: Result<Cert, CertificateError>)
    ensures
        found == answer(response, kid@),
        final(cache)@ == taken_in(old(cache)@, kid@, response, now),
{
    match response {
        KeySetResponse::Failed => Err(CertificateError::Http),
        KeySetResponse::Undecodable => Err(CertificateError::Parse),
        KeySetResponse::Loaded { cache_control, certs } => {
            let ttl = cache_ttl(&cache_control);
            match find_cert(&certs, kid) {
                Some(cert) => {
                    cache.insert_at(kid, cert.clone(), ttl, now);
                    Ok(cert)
                },
                None => Err(CertificateError::NotFound),
            }
        },
    }
}

/// One step of getting the key `kid`, as of second `now`.
///
/// A request is answered from the cache where the key is readable there, and
/// asks for a download where it is not. The outcome of that download settles
/// the request, and a key that was found is cached under `kid`.
pub fn download_certs_at(cache: &mut Cache<Cert>, kid: &str, event: Event, now: i64) -> (step: Step)
    ensures
        step == decision(old(cache)@, kid@, event, now),
        final(cache)@ == entries_after(old(cache)@, kid@, event, now),
{
    match event {
        Event::Requested => match cache.get_at(kid, now) {
            Some(cert) => Step::Done(Ok(cert.clone())),
            None => Step::Fetch,
        },
        Event::Answered(response) => Step::Done(accept_key_set_at(cache, kid, response, now)),
    }
}

/// One step of getting the key `kid`, as of the current second.
///
/// The clock decides which second that is, so the step is the one that
/// [`download_certs_at`] takes at some second.
pub fn download_certs(cache: &mut Cache<Cert>, kid: &str, event: Event) -> (step: Step)
    ensures
        exists|now: i64|
            step == #[trigger] decision(old(cache)@, kid@, event, now) && final(cache)@
                == entries_after(old(cache)@, kid@, event, now),
{
    let now = unix_now();
    download_certs_at(cache, kid, event, now)
}

/// A key set searched for an identifier that none of its keys has gives no
/// key.
pub proof fn lemma_absent_kid_gives_no_key(keys: Seq<Cert>, kid: Seq<char>, from: int)
    requires
        forall|i: int| 0 <= i < keys.len() ==> (#[trigger] keys[i]).kid@ != kid,
    ensures
        first_with_kid(keys, kid, from) == None::<int>,
    decreases keys.len() - from,
{
    if 0 <= from && from < keys.len() {
        lemma_absent_kid_gives_no_key(keys, kid, from + 1);
    }
}

/// A download whose key set lacks the identifier asked for ends in
/// `NotFound`, whatever the cache held, and leaves the cache as it was.
pub proof fn lemma_missing_key_is_not_found(
    entries: Entries<Cert>,
    kid: Seq<char>,
    cache_control: Option<Vec<u8>>,
    certs: Certs,
    now: i64,
)
    requires
        forall|i: int| 0 <= i < certs.keys@.len() ==> (#[trigger] certs.keys@[i]).kid@ != kid,
    ensures
        decision(entries, kid, Event::Answered(KeySetResponse::Loaded { cache_control, certs }), now)
            == Step::Done(Err(CertificateError::NotFound)),
        entries_after(entries, kid, Event::Answered(KeySetResponse::Loaded { cache_control, certs }), now)
            == entries,
{
    lemma_absent_kid_gives_no_key(certs.keys@, kid, 0);
}

/// Once a download has given the key, every request for it before the
/// lifetime that the download granted has run out is answered from the cache:
/// no second download is asked for.
pub proof fn lemma_downloaded_key_is_served_from_cache(
    entries: Entries<Cert>,
    kid: Seq<char>,
    cache_control: Option<Vec<u8>>,
    certs: Certs,
    now: i64,
    later: i64,
)
    requires
        key_for(certs.keys@, kid).is_some(),
        later < instant_after(now, lifetime(header_bytes(cache_control))),
    ensures
        decision(
            entries_after(entries, kid, Event::Answered(KeySetResponse::Loaded { cache_control, certs }), now),
            kid,
            Event::Requested,
            later,
        ) == Step::Done(Ok(key_for(certs.keys@, kid).unwrap())),
{
}

} // verus!
