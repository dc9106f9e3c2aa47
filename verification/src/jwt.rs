//! Signed tokens: what is taken on trust from the `jsonwebtoken` crate.
//!
//! Signing, signature checks and the encoding of tokens are that crate's work.
//! The items here give its results a name, so that the rest of the library can
//! say exactly what it does with them. Expiry is not left to the crate: the
//! claims come back with their `exp`, and the callers hold it against a second
//! of their own choosing.

use vstd::prelude::*;

verus! {

/// The failure that `jsonwebtoken` reports.
#[verifier::external_type_specification]
#[verifier::external_body]
pub struct ExTokenError(jsonwebtoken::errors::Error);

/// The key of a signature, with the algorithm that it is used under.
pub enum Key {
    /// A shared secret, for HMAC with SHA-256 (`HS256`).
    Hs256 { secret: Vec<u8> },
    /// The modulus and exponent of an RSA public key, each in URL-safe base
    /// 64, for RSA signatures with SHA-256 (`RS256`).
    Rs256 { n: String, e: String },
}

impl Key {
    /// Whether the key is an RSA public key.
    pub open spec fn asymmetric(&self) -> bool {
        self is Rs256
    }

    /// The shared secret; empty for an RSA key.
    pub open spec fn secret(&self) -> Seq<u8> {
        match *self {
            Key::Hs256 { secret } => secret@,
            Key::Rs256 { .. } => Seq::empty(),
        }
    }

    /// The modulus of an RSA key; empty for a shared secret.
    pub open spec fn modulus(&self) -> Seq<char> {
        match *self {
            Key::Hs256 { .. } => Seq::empty(),
            Key::Rs256 { n, e } => n@,
        }
    }

    /// The exponent of an RSA key; empty for a shared secret.
    pub open spec fn exponent(&self) -> Seq<char> {
        match *self {
            Key::Hs256 { .. } => Seq::empty(),
            Key::Rs256 { n, e } => e@,
        }
    }
}

/// The claims of a token, as far as the library reads them. A claim that is
/// missing, or is not of the expected JSON type, is absent.
#[derive(Debug, PartialEq, Eq)]
pub struct RawClaims {
    /// The claim `email`, where it is a string.
    pub email: Option<String>,
    /// The claim `exp`, where it is an integer that fits an `i64`.
    pub exp: Option<i64>,
}

/// The two claims as plain values.
pub type ClaimsModel = (Option<Seq<char>>, Option<i64>);

impl RawClaims {
    /// The claims as plain values.
    pub open spec fn model(&self) -> ClaimsModel {
        (
            match self.email {
                Some(email) => Some(email@),
                None => None,
            },
            self.exp,
        )
    }
}

/// The token that `jsonwebtoken::encode` builds under `HS256` for the claims
/// `email` and `exp` with the given secret; nothing where it reports a
/// failure.
pub uninterp spec fn hs256_token(email: Seq<char>, exp: i64, secret: Seq<u8>) -> Option<Seq<char>>;

/// The claims that `jsonwebtoken::decode` accepts from `token` under the given
/// key, expiry left unchecked; nothing where it reports a failure (a token
/// that is no token, another algorithm in its header, a signature that the key
/// does not confirm, claims that are no JSON object).
pub uninterp spec fn accepted_claims(
    token: Seq<char>,
    asymmetric: bool,
    secret: Seq<u8>,
    modulus: Seq<char>,
    exponent: Seq<char>,
) -> Option<ClaimsModel>;

/// The key identifier that `jsonwebtoken::decode_header` reads from the header
/// of `token`: nothing where the header cannot be decoded, and inside that,
/// nothing where the header names no key.
pub uninterp spec fn header_key_id(token: Seq<char>) -> Option<Option<Seq<char>>>;

/// Calls `jsonwebtoken::encode` with the header of `HS256`, a JSON object that
/// holds the claims `email` and `exp`, and the secret as the key.
///
/// Taken on trust: the outcome depends on the three values alone.
#[verifier::external_body]
pub(crate) fn encode_hs256(email: &str, exp: i64, secret: &[u8]) -> (token: Result<
    String,
    jsonwebtoken::errors::Error,
>)
    ensures
        match token {
            Ok(text) => hs256_token(email@, exp, secret@) == Some(text@),
            Err(_) => hs256_token(email@, exp, secret@) == None::<Seq<char>>,
        },
{
    let mut claims = serde_json::Map::new();
    claims.insert(String::from("email"), serde_json::Value::from(email));
    claims.insert(String::from("exp"), serde_json::Value::from(exp));
    let header = jsonwebtoken::Header::new(jsonwebtoken::Algorithm::HS256);
    jsonwebtoken::encode(&header, &claims, &jsonwebtoken::EncodingKey::from_secret(secret))
}

/// Calls `jsonwebtoken::decode` with the key and its algorithm, and with the
/// check of `exp` switched off, and hands out the claims `email` and `exp`.
///
/// Taken on trust: the outcome depends on the token and the key alone.
#[verifier::external_body]
pub(crate) fn decode_claims(token: &str, key: &Key) -> (claims: Result<
    RawClaims,
    jsonwebtoken::errors::Error,
>)
    ensures
        match claims {
            Ok(found) => accepted_claims(
                token@,
                key.asymmetric(),
                key.secret(),
                key.modulus(),
                key.exponent(),
            ) == Some(found.model()),
            Err(_) => accepted_claims(
                token@,
                key.asymmetric(),
                key.secret(),
                key.modulus(),
                key.exponent(),
            ) == None::<ClaimsModel>,
        },
{
    let (decoding_key, algorithm) = match key {
        Key::Hs256 { secret } => (jsonwebtoken::DecodingKey::from_secret(secret), jsonwebtoken::Algorithm::HS256),
        Key::Rs256 { n, e } => (jsonwebtoken::DecodingKey::from_rsa_components(n, e), jsonwebtoken::Algorithm::RS256),
    };
    let mut validation = jsonwebtoken::Validation::new(algorithm);
    validation.validate_exp = false;
    match jsonwebtoken::decode::<serde_json::Value>(token, &decoding_key, &validation) {
        Ok(data) => Ok(RawClaims {
            email: data.claims.get("email").and_then(serde_json::Value::as_str).map(String::from),
            exp: data.claims.get("exp").and_then(serde_json::Value::as_i64),
        }),
        Err(error) => Err(error),
    }
}

/// Calls `jsonwebtoken::decode_header` and hands out the field `kid` of the
/// header.
///
/// Taken on trust: the outcome depends on the token alone.
#[verifier::external_body]
pub(crate) fn decode_key_id(token: &str) -> (kid: Result<Option<String>, jsonwebtoken::errors::Error>)
    ensures
        match kid {
            Ok(Some(id)) => header_key_id(token@) == Some(Some(id@)),
            Ok(None) => header_key_id(token@) == Some(None::<Seq<char>>),
            Err(_) => header_key_id(token@) == None::<Option<Seq<char>>>,
        },
{
    match jsonwebtoken::decode_header(token) {
        Ok(header) => Ok(header.kid),
        Err(error) => Err(error),
    }
}

} // verus!
