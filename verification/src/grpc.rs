//! The answer of the remote-procedure transport to a session token.

use vstd::prelude::*;
use vstd::utf8::encode_utf8;
use crate::clock::unix_now;
use crate::facade::{email_of, status_of, verified, verify_status_at};
use crate::text::texts;
use crate::token::VerifyError;

verus! {

/// The reply to a verification request.
#[derive(Debug, PartialEq, Eq)]
pub struct VerifyResponse {
    /// The status, as `TokenStatus::code` numbers it.
    pub status: i32,
    /// The email of the session; empty unless the status is that of a valid
    /// token.
    pub email: String,
}

/// Whether `response` is the reply that stands for `answer`.
pub open spec fn replies(response: VerifyResponse, answer: Result<Seq<char>, VerifyError>) -> bool {
    response.status == status_of(answer).wire() && response.email@ == email_of(answer)
}

/// The verification service: the secret that session tokens are signed with,
/// and the emails that may have a session.
#[derive(Debug)]
pub struct SessionService {
    pub secret: String,
    pub granted_emails: Vec<String>,
}

impl SessionService {
    /// The answer of the service to `token` at second `now`.
    pub open spec fn answer(&self, token: Seq<char>, now: i64) -> Result<Seq<char>, VerifyError> {
        verified(token, encode_utf8(self.secret@), texts(self.granted_emails@), now)
    }

    /// Verifies a session token as of second `now`.
    pub fn verify_at(&self, token: &str, now: i64) -> (response: VerifyResponse)
        ensures
            replies(response, self.answer(token@, now)),
    {
        let (status, email) = verify_status_at(
            token,
            self.secret.as_str().as_bytes(),
            &self.granted_emails,
            now,
        );
        VerifyResponse { status: status.code(), email }
    }

    /// Verifies a session token as of the current second.
    ///
    /// The clock decides which second that is, so the reply is the one that
    /// [`Self::verify_at`] gives at some second.
    pub fn verify(&self, token: &str) -> (response: VerifyResponse)
        ensures
            exists|now: i64| replies(response, #[trigger] self.answer(token@, now)),
    {
        let now = unix_now();
        self.verify_at(token, now)
    }
}

} // verus!
