//! Reading the reply to `RCPT TO`, and the failures of a session, as a
//! verification result.

use crate::error::AppError;
use crate::smtp::result::{SmtpVerificationResult, SmtpVerificationResultView};
use crate::text::{contains_ignoring_case, contains_phrase, text_bytes};
use vstd::prelude::*;
use vstd::string::StringSliceAdditionalSpecFns;

verus! {

/// What a reply to `RCPT TO` says about the mailbox.
#[derive(Debug, Clone, Copy, PartialEq, Eq, Structural)]
pub enum ReplyClass {
    /// The server accepts mail for the address.
    Accepted,
    /// The server refuses the address for good.
    Rejected,
    /// The server refuses for now.
    Temporary,
    /// The reply settles nothing and will not change.
    Unclear,
}

/// How a session failed without a reply to `RCPT TO`.
#[derive(Debug, Clone, Copy, PartialEq, Eq, Structural)]
pub enum SessionFailure {
    /// The server could not be connected to.
    Connect,
    /// The server did not answer in time.
    Timeout,
    /// The STARTTLS handshake failed.
    Tls,
    /// The server broke the protocol or refused the session.
    Protocol,
}

/// The phrases by which a server says that it does not know the user.
pub open spec fn unknown_user_phrases() -> Seq<Seq<u8>> {
    seq![
        "user unknown".spec_bytes(),
        "unknown user".spec_bytes(),
        "no such user".spec_bytes(),
        "no such mailbox".spec_bytes(),
        "does not exist".spec_bytes(),
        "doesn't exist".spec_bytes(),
        "mailbox not found".spec_bytes(),
        "mailbox unavailable".spec_bytes(),
        "recipient not found".spec_bytes(),
        "invalid recipient".spec_bytes(),
        "recipient rejected".spec_bytes(),
        "user not found".spec_bytes(),
    ]
}

/// Whether a reply text says, in one of the known phrases and whatever the
/// ASCII case, that the server does not know the user.
pub open spec fn mentions_unknown_user(message: Seq<u8>) -> bool {
    exists|i: int|
        0 <= i < unknown_user_phrases().len() && contains_ignoring_case(
            message,
            #[trigger] unknown_user_phrases()[i],
        )
}

/// The class of a reply to `RCPT TO`.
///
/// 250 and 251 accept. 550, 551 and 553 reject, and so does any other 5xx
/// whose text says that the user is unknown. Every 4xx, such as 450, 451 and
/// 452, is temporary. Anything else settles nothing.
pub open spec fn classify_reply(code: u16, message: Seq<u8>) -> ReplyClass {
    if code == 250 || code == 251 {
        ReplyClass::Accepted
    } else if code == 550 || code == 551 || code == 553 {
        ReplyClass::Rejected
    } else if 500 <= code <= 599 && mentions_unknown_user(message) {
        ReplyClass::Rejected
    } else if 400 <= code <= 499 {
        ReplyClass::Temporary
    } else {
        ReplyClass::Unclear
    }
}

/// The result that a reply of the given class stands for: acceptance and
/// rejection are conclusive, a temporary refusal asks for a retry, an
/// unclear reply does not.
pub open spec fn class_result(class: ReplyClass, message: Seq<char>) -> SmtpVerificationResultView {
    SmtpVerificationResultView {
        exists: match class {
            ReplyClass::Accepted => Some(true),
            ReplyClass::Rejected => Some(false),
            _ => None,
        },
        message,
        should_retry: class == ReplyClass::Temporary,
        is_catch_all: false,
    }
}

/// The result that a failed session stands for: a server that could not be
/// reached or did not answer in time is worth another try, a failed TLS
/// handshake or a broken protocol is not.
pub open spec fn failure_result(
    failure: SessionFailure,
    message: Seq<char>,
) -> SmtpVerificationResultView {
    SmtpVerificationResultView {
        exists: None,
        message,
        should_retry: failure == SessionFailure::Connect || failure == SessionFailure::Timeout,
        is_catch_all: false,
    }
}

/// Says whether a reply text tells that the server does not know the user.
pub fn says_unknown_user(message: &[u8]) -> (r: bool)
    ensures
        r == mentions_unknown_user(message@),
{
    let phrases: Vec<&'static str> = vec![
        "user unknown",
        "unknown user",
        "no such user",
        "no such mailbox",
        "does not exist",
        "doesn't exist",
        "mailbox not found",
        "mailbox unavailable",
        "recipient not found",
        "invalid recipient",
        "recipient rejected",
        "user not found",
    ];
    assert(phrases@.len() == unknown_user_phrases().len());
    assert(forall|k: int|
        0 <= k < phrases@.len() ==> (#[trigger] phrases@[k]).spec_bytes()
            == unknown_user_phrases()[k]);
    let mut i: usize = 0;
    while i < phrases.len()
        invariant
            i <= phrases.len(),
            phrases@.len() == unknown_user_phrases().len(),
            forall|k: int|
                0 <= k < phrases@.len() ==> (#[trigger] phrases@[k]).spec_bytes()
                    == unknown_user_phrases()[k],
            forall|k: int|
                0 <= k < i ==> !contains_ignoring_case(
                    message@,
                    #[trigger] unknown_user_phrases()[k],
                ),
        decreases phrases.len() - i,
    {
        if contains_phrase(message, phrases[i].as_bytes()) {
            return true;
        }
        i += 1;
    }
    false
}

/// Classifies a reply to `RCPT TO`.
pub fn classify(code: u16, message: &str) -> (class: ReplyClass)
    ensures
        class == classify_reply(code, text_bytes(message@)),
{
    if code == 250 || code == 251 {
        ReplyClass::Accepted
    } else if code == 550 || code == 551 || code == 553 {
        ReplyClass::Rejected
    } else if 500 <= code && code <= 599 && says_unknown_user(message.as_bytes()) {
        ReplyClass::Rejected
    } else if 400 <= code && code <= 499 {
        ReplyClass::Temporary
    } else {
        ReplyClass::Unclear
    }
}

/// Reads the reply to `RCPT TO` as a verification result that keeps the
/// server's text.
pub fn interpret_reply(code: u16, message: String) -> (r: SmtpVerificationResult)
    ensures
        r@ == class_result(classify_reply(code, text_bytes(message@)), message@),
        r.message == message,
        r@.well_formed(),
{
    match classify(code, message.as_str()) {
        ReplyClass::Accepted => SmtpVerificationResult::conclusive(true, message, false),
        ReplyClass::Rejected => SmtpVerificationResult::conclusive(false, message, false),
        ReplyClass::Temporary => SmtpVerificationResult::inconclusive_retry(message),
        ReplyClass::Unclear => SmtpVerificationResult::inconclusive_no_retry(message),
    }
}

/// Reads the failure of a session as a verification result.
pub fn interpret_failure(failure: SessionFailure, message: String) -> (r: SmtpVerificationResult)
    ensures
        r@ == failure_result(failure, message@),
        r.message == message,
        r@.well_formed(),
{
    match failure {
        SessionFailure::Connect => SmtpVerificationResult::inconclusive_retry(message),
        SessionFailure::Timeout => SmtpVerificationResult::inconclusive_retry(message),
        SessionFailure::Tls => SmtpVerificationResult::inconclusive_no_retry(message),
        SessionFailure::Protocol => SmtpVerificationResult::inconclusive_no_retry(message),
    }
}

/// Whether `err` is the error under which a failed session is reported
/// besides its result. A failed TLS handshake has an error of its own; a
/// server that could not be reached or did not answer is a temporary
/// failure; a broken protocol is inconclusive.
pub open spec fn failure_error_fits(
    failure: SessionFailure,
    message: Seq<char>,
    err: AppError,
) -> bool {
    match failure {
        SessionFailure::Tls => err matches AppError::SmtpTls(text) && text@ == message,
        SessionFailure::Timeout | SessionFailure::Connect => err matches AppError::SmtpTemporaryFailure(
            text,
        ) && text@ == message,
        SessionFailure::Protocol => err matches AppError::SmtpInconclusive(text) && text@
            == message,
    }
}

/// The error under which the failure of a session is reported besides its
/// result.
pub fn failure_error(failure: SessionFailure, message: String) -> (err: AppError)
    ensures
        failure_error_fits(failure, message@, err),
{
    match failure {
        SessionFailure::Tls => AppError::SmtpTls(message),
        SessionFailure::Timeout => AppError::SmtpTemporaryFailure(message),
        SessionFailure::Connect => AppError::SmtpTemporaryFailure(message),
        SessionFailure::Protocol => AppError::SmtpInconclusive(message),
    }
}

/// A permanent rejection code is conclusive and never retried, whatever the
/// text; a temporary code settles nothing and is retried, whatever the text.
pub proof fn lemma_code_mapping(code: u16, message: Seq<u8>, text: Seq<char>)
    ensures
        (code == 250 || code == 251) ==> class_result(classify_reply(code, message), text).exists
            == Some(true),
        (code == 550 || code == 551 || code == 553) ==> {
            &&& class_result(classify_reply(code, message), text).exists == Some(false)
            &&& !class_result(classify_reply(code, message), text).should_retry
        },
        400 <= code <= 499 ==> {
            &&& class_result(classify_reply(code, message), text).exists is None
            &&& class_result(classify_reply(code, message), text).should_retry
        },
        class_result(classify_reply(code, message), text).well_formed(),
        !class_result(classify_reply(code, message), text).is_catch_all,
{
}

} // verus!
