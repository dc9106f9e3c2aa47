//! The settings that the service runs with.

use vstd::prelude::*;
use crate::text::{copy_texts, texts};

verus! {

/// The settings of the service.
#[derive(Debug)]
pub struct Config {
    /// The port of the listener.
    pub port: String,
    /// The secret that session tokens are signed with.
    pub secret: String,
    /// The domain that the session cookie is scoped to.
    pub domain: String,
    /// The lifetime of a session token, in seconds.
    pub token_lifetime: i64,
    /// The emails that may have a session.
    pub granted_emails: Vec<String>,
    /// The origins that a login may send the browser back to.
    pub allowed_origins: Vec<String>,
}

impl Clone for Config {
    fn clone(&self) -> (copy: Self)
        ensures
            copy.port == self.port,
            copy.secret == self.secret,
            copy.domain == self.domain,
            copy.token_lifetime == self.token_lifetime,
            copy.granted_emails@ == self.granted_emails@,
            copy.allowed_origins@ == self.allowed_origins@,
    {
        Config {
            port: self.port.clone(),
            secret: self.secret.clone(),
            domain: self.domain.clone(),
            token_lifetime: self.token_lifetime,
            granted_emails: copy_texts(&self.granted_emails),
            allowed_origins: copy_texts(&self.allowed_origins),
        }
    }
}

/// The number of characters of a secret that the service makes up.
pub const SECRET_LENGTH: usize = 256;

/// Whether `c` is an ASCII letter or digit.
pub open spec fn is_alphanumeric(c: char) -> bool {
    ('0' <= c && c <= '9') || ('A' <= c && c <= 'Z') || ('a' <= c && c <= 'z')
}

/// Whether `secret` has the shape of a secret that the service makes up:
/// [`SECRET_LENGTH`] ASCII letters and digits.
pub open spec fn is_fresh_secret(secret: Seq<char>) -> bool {
    secret.len() == SECRET_LENGTH && forall|i: int|
        0 <= i < secret.len() ==> is_alphanumeric(#[trigger] secret[i])
}

/// Draws `length` characters from `rand::distributions::Alphanumeric` with the
/// generator of `rand::thread_rng`.
///
/// Taken on trust: the string has the length asked for, and holds ASCII
/// letters and digits only. Which ones is left to chance.
#[verifier::external_body]
fn random_alphanumeric(length: usize) -> (text: String)
    ensures
        text@.len() == length,
        forall|i: int| 0 <= i < text@.len() ==> is_alphanumeric(#[trigger] text@[i]),
{
    rand::Rng::sample_iter(rand::thread_rng(), &rand::distributions::Alphanumeric)
        .take(length)
        .map(char::from)
        .collect()
}

impl Default for Config {
    /// The settings of a service that was given none: a secret made up on the
    /// spot, nobody granted, and a browser on the same machine.
    fn default() -> (config: Self)
        ensures
            config.port@ == "3002"@,
            is_fresh_secret(config.secret@),
            config.domain@ == "localhost:3002"@,
            config.token_lifetime == 3600,
            texts(config.granted_emails@) == Seq::<Seq<char>>::empty(),
            texts(config.allowed_origins@) == seq!["http://localhost:3000"@],
    {
        let granted_emails: Vec<String> = Vec::new();
        let mut allowed_origins: Vec<String> = Vec::new();
        allowed_origins.push("http://localhost:3000".to_owned());
        proof {
            assert(texts(granted_emails@) =~= Seq::<Seq<char>>::empty());
            assert(texts(allowed_origins@) =~= seq!["http://localhost:3000"@]);
        }
        Config {
            port: "3002".to_owned(),
            secret: random_alphanumeric(SECRET_LENGTH),
            domain: "localhost:3002".to_owned(),
            token_lifetime: 3600,
            granted_emails,
            allowed_origins,
        }
    }
}

} // verus!
