use email_sleuth_core::error::AppError;
use email_sleuth_core::models::VerificationStatus;
use email_sleuth_core::smtp::domain::smtp_status;
use email_sleuth_core::smtp::response::{
    classify, failure_error, interpret_failure, interpret_reply, says_unknown_user, ReplyClass,
    SessionFailure,
};
use email_sleuth_core::smtp::result::SmtpVerificationResult;

#[test]
fn conclusive_result_holds_its_arguments() {
    let r = SmtpVerificationResult::conclusive(true, String::from("250 ok"), false);
    assert_eq!(r.exists, Some(true));
    assert_eq!(r.message, "250 ok");
    assert!(!r.should_retry);
    assert!(!r.is_catch_all);
    let r = SmtpVerificationResult::conclusive(false, String::from("550 no"), true);
    assert_eq!(r.exists, Some(false));
    assert!(r.is_catch_all);
    assert!(!r.should_retry);
}

#[test]
fn inconclusive_results_differ_in_retry_only() {
    let r = SmtpVerificationResult::inconclusive_retry(String::from("timeout"));
    assert_eq!(r.exists, None);
    assert_eq!(r.message, "timeout");
    assert!(r.should_retry);
    assert!(!r.is_catch_all);
    let r = SmtpVerificationResult::inconclusive_no_retry(String::from("blocked"));
    assert_eq!(r.exists, None);
    assert_eq!(r.message, "blocked");
    assert!(!r.should_retry);
    assert!(!r.is_catch_all);
}

#[test]
fn catch_all_result_is_inconclusive_and_final() {
    let r = SmtpVerificationResult::catch_all(String::from("accepts all"));
    assert_eq!(r.exists, None);
    assert_eq!(r.message, "accepts all");
    assert!(!r.should_retry);
    assert!(r.is_catch_all);
    let copy = r.clone();
    assert_eq!(copy.message, r.message);
    assert_eq!(copy.is_catch_all, r.is_catch_all);
}

#[test]
fn code_550_rejects_without_retry() {
    let r = interpret_reply(550, String::from("5.1.1 mailbox gone"));
    assert_eq!(r.exists, Some(false));
    assert!(!r.should_retry);
    assert!(!r.is_catch_all);
    assert_eq!(r.message, "5.1.1 mailbox gone");
}

#[test]
fn code_451_is_inconclusive_with_retry() {
    let r = interpret_reply(451, String::from("try again later"));
    assert_eq!(r.exists, None);
    assert!(r.should_retry);
    assert!(!r.is_catch_all);
}

#[test]
fn reply_codes_map_to_their_class() {
    assert_eq!(classify(250, "ok"), ReplyClass::Accepted);
    assert_eq!(classify(251, "will forward"), ReplyClass::Accepted);
    assert_eq!(classify(550, ""), ReplyClass::Rejected);
    assert_eq!(classify(551, ""), ReplyClass::Rejected);
    assert_eq!(classify(553, ""), ReplyClass::Rejected);
    assert_eq!(classify(450, ""), ReplyClass::Temporary);
    assert_eq!(classify(451, ""), ReplyClass::Temporary);
    assert_eq!(classify(452, ""), ReplyClass::Temporary);
    assert_eq!(classify(421, "service not available"), ReplyClass::Temporary);
    assert_eq!(classify(554, "Transaction failed"), ReplyClass::Unclear);
    assert_eq!(classify(554, "5.1.1 User Unknown in table"), ReplyClass::Rejected);
    assert_eq!(classify(552, "no such user here"), ReplyClass::Rejected);
    assert_eq!(classify(500, "recipient REJECTED"), ReplyClass::Rejected);
    assert_eq!(classify(252, "cannot verify"), ReplyClass::Unclear);
    assert_eq!(classify(354, "go ahead"), ReplyClass::Unclear);
    assert_eq!(classify(0, "user unknown"), ReplyClass::Unclear);
    assert_eq!(classify(450, "user unknown"), ReplyClass::Temporary);
    assert_eq!(classify(600, "user unknown"), ReplyClass::Unclear);
}

#[test]
fn unknown_user_phrases_are_found_whatever_the_case() {
    assert!(says_unknown_user(b"550 5.1.1 USER UNKNOWN"));
    assert!(says_unknown_user(b"the mailbox does not exist"));
    assert!(says_unknown_user(b"Mailbox Unavailable"));
    assert!(says_unknown_user(b"address doesn't exist"));
    assert!(says_unknown_user(b"Invalid recipient <x@y>"));
    assert!(!says_unknown_user(b"policy rejection"));
    assert!(!says_unknown_user(b""));
    assert!(!says_unknown_user(b"user unknow"));
}

#[test]
fn accepted_and_unclear_replies() {
    let r = interpret_reply(250, String::from("2.1.5 ok"));
    assert_eq!(r.exists, Some(true));
    assert!(!r.should_retry);
    let r = interpret_reply(554, String::from("policy"));
    assert_eq!(r.exists, None);
    assert!(!r.should_retry);
}

#[test]
fn session_failures_map_to_results_and_errors() {
    let r = interpret_failure(SessionFailure::Connect, String::from("refused"));
    assert_eq!(r.exists, None);
    assert!(r.should_retry);
    assert_eq!(r.message, "refused");
    let r = interpret_failure(SessionFailure::Timeout, String::from("timed out"));
    assert!(r.should_retry);
    let r = interpret_failure(SessionFailure::Tls, String::from("handshake"));
    assert_eq!(r.exists, None);
    assert!(!r.should_retry);
    let r = interpret_failure(SessionFailure::Protocol, String::from("garbage"));
    assert!(!r.should_retry);
    assert!(matches!(
        failure_error(SessionFailure::Tls, String::from("handshake")),
        AppError::SmtpTls(text) if text == "handshake"
    ));
    assert!(matches!(
        failure_error(SessionFailure::Timeout, String::from("t")),
        AppError::SmtpTemporaryFailure(_)
    ));
    assert!(matches!(
        failure_error(SessionFailure::Connect, String::from("t")),
        AppError::SmtpTemporaryFailure(_)
    ));
    assert!(matches!(
        failure_error(SessionFailure::Protocol, String::from("t")),
        AppError::SmtpInconclusive(_)
    ));
}

#[test]
fn status_follows_the_result_unless_catch_all() {
    let yes = SmtpVerificationResult::conclusive(true, String::new(), false);
    assert_eq!(smtp_status(&yes), VerificationStatus::Confirmed(true));
    let no = SmtpVerificationResult::conclusive(false, String::new(), false);
    assert_eq!(smtp_status(&no), VerificationStatus::Confirmed(false));
    let accepted_by_catch_all = SmtpVerificationResult::conclusive(true, String::new(), true);
    assert_eq!(smtp_status(&accepted_by_catch_all), VerificationStatus::Unknown);
    let retry = SmtpVerificationResult::inconclusive_retry(String::new());
    assert_eq!(smtp_status(&retry), VerificationStatus::Unknown);
    let catch_all = SmtpVerificationResult::catch_all(String::new());
    assert_eq!(smtp_status(&catch_all), VerificationStatus::Unknown);
}
