use email_sleuth_core::candidate::Candidate;
use email_sleuth_core::error::{decimal_string, AppError};
use email_sleuth_core::headless::dispatcher::{Dispatch, HeadlessDispatcher, SkipReason};
use email_sleuth_core::models::{CandidateSource, Provider, VerificationStatus};
use email_sleuth_core::ranking::Thresholds;
use email_sleuth_core::scheduler::{CandidateSeed, TaskState, VerificationScheduler};
use email_sleuth_core::smtp::domain::DomainVerificationState;
use email_sleuth_core::smtp::mailbox::{SmtpVerifier, VerifierState};
use email_sleuth_core::smtp::result::SmtpVerificationResult;

#[test]
fn errors_are_shown_with_their_kind() {
    assert_eq!(AppError::Config("bad".into()).to_text(), "Configuration Error: bad");
    assert_eq!(AppError::Initialization("x".into()).to_text(), "Initialization Error: x");
    assert_eq!(AppError::Io("x".into()).to_text(), "IO Error: x");
    assert_eq!(AppError::Json("x".into()).to_text(), "JSON Error: x");
    assert_eq!(AppError::UrlParse("x".into()).to_text(), "URL Parsing Error: x");
    assert_eq!(AppError::Request("x".into()).to_text(), "HTTP Request Error: x");
    assert_eq!(AppError::HtmlParse("x".into()).to_text(), "HTML Parsing Error: x");
    assert_eq!(AppError::Dns("x".into()).to_text(), "DNS Resolution Error: x");
    assert_eq!(AppError::NxDomain("x.org".into()).to_text(), "Domain Not Found (NXDOMAIN): x.org");
    assert_eq!(
        AppError::NoDnsRecords("x.org".into()).to_text(),
        "No DNS Records Found (MX/A): x.org"
    );
    assert_eq!(AppError::DnsTimeout("x.org".into()).to_text(), "DNS Timeout for domain: x.org");
    assert_eq!(AppError::Smtp("x".into()).to_text(), "SMTP Error: x");
    assert_eq!(
        AppError::SmtpCommand { code: 550, message: "no such user".into() }.to_text(),
        "SMTP Command Error: Code=550, Message='no such user'"
    );
    assert_eq!(AppError::SmtpTls("x".into()).to_text(), "SMTP STARTTLS Error: x");
    assert_eq!(AppError::AddrParse("x".into()).to_text(), "Address Parsing Error: x");
    assert_eq!(AppError::Task("x".into()).to_text(), "Task Execution Error: x");
    assert_eq!(AppError::Generic("x".into()).to_text(), "Generic Error: x");
    assert_eq!(AppError::InsufficientInput("x".into()).to_text(), "Insufficient Input Data: x");
    assert_eq!(
        AppError::DomainExtraction("x".into()).to_text(),
        "Failed to extract domain from URL: x"
    );
    assert_eq!(AppError::SmtpTemporaryFailure("x".into()).to_text(), "SMTP Temporary Failure: x");
    assert_eq!(AppError::SmtpPermanentFailure("x".into()).to_text(), "SMTP Permanent Failure: x");
    assert_eq!(AppError::SmtpInconclusive("x".into()).to_text(), "SMTP Inconclusive: x");
    assert_eq!(
        AppError::WebDriverConnection("x".into()).to_text(),
        "WebDriver Connection Error: x"
    );
    assert_eq!(AppError::VerificationBlocked("x".into()).to_text(), "Verification Blocked: x");
    assert_eq!(AppError::FantocciniCmd("x".into()).to_text(), "WebDriver Command Error: x");
}

#[test]
fn numbers_are_written_in_decimal() {
    assert_eq!(decimal_string(0), "0");
    assert_eq!(decimal_string(7), "7");
    assert_eq!(decimal_string(10), "10");
    assert_eq!(decimal_string(451), "451");
    assert_eq!(decimal_string(65535), "65535");
    assert_eq!(decimal_string(1009), "1009");
}

#[test]
fn states_can_be_checked_for_consistency() {
    let mut domain = DomainVerificationState::resolved(vec!["mx1".to_string()]);
    assert!(domain.is_well_formed());
    domain.claim();
    assert!(domain.is_well_formed());
    domain.settle(&SmtpVerificationResult::conclusive(false, "no".to_string(), false));
    assert!(domain.is_well_formed());
    domain.probe_count = 2;
    assert!(!domain.is_well_formed());
    domain.probe_count = 0;
    assert!(!domain.is_well_formed());
    let mut bare = DomainVerificationState::resolved(Vec::new());
    assert!(bare.is_well_formed());
    bare.probing = true;
    assert!(!bare.is_well_formed());

    let mut c = Candidate::new("a@x.org".to_string(), CandidateSource::PatternGenerated, false);
    assert!(c.is_well_formed());
    c.confidence = 9;
    assert!(!c.is_well_formed());
    c.confidence = 4;
    c.confirmed_by = Some(Provider::Yahoo);
    assert!(!c.is_well_formed());
    c.verification_status = VerificationStatus::Confirmed(true);
    c.confidence = 8;
    assert!(c.is_well_formed());

    let mut good = DomainVerificationState::resolved(vec!["mx1".to_string(), "mx2".to_string()]);
    let (mut v, _) = SmtpVerifier::start(&mut good, 2);
    assert!(v.is_fit_for(&good));
    v.state = VerifierState::Probing { host: 1, attempt: 2 };
    assert!(v.is_fit_for(&good));
    v.state = VerifierState::Probing { host: 2, attempt: 1 };
    assert!(!v.is_fit_for(&good));
    v.state = VerifierState::Pausing { host: 0, attempt: 3 };
    assert!(!v.is_fit_for(&good));
    v.state = VerifierState::Pausing { host: 0, attempt: 0 };
    assert!(!v.is_fit_for(&good));
}

fn two() -> VerificationScheduler {
    VerificationScheduler::new(
        vec![
            CandidateSeed {
                email: "a@yahoo.com".to_string(),
                source: CandidateSource::PatternGenerated,
                is_generic: false,
            },
            CandidateSeed {
                email: "b@example.com".to_string(),
                source: CandidateSource::PatternGenerated,
                is_generic: false,
            },
        ],
        2,
        Thresholds { personal: 4, generic: 7 },
        9,
    )
}

#[test]
fn scheduler_can_be_checked_for_consistency() {
    let mut s = two();
    assert!(s.is_well_formed());
    s.start_next();
    assert!(s.is_well_formed());
    s.running = 0;
    assert!(!s.is_well_formed());
    s.running = 1;
    s.stopped = true;
    assert!(!s.is_well_formed());
    s.stopped = false;
    s.tasks.push(TaskState::Done);
    assert!(!s.is_well_formed());
    s.tasks.pop();
    s.candidates[1].confidence = 10;
    assert!(!s.is_well_formed());
    s.candidates[1].confidence = 4;
    s.max_concurrency = 0;
    assert!(!s.is_well_formed());
    s.max_concurrency = 1;
    assert!(s.is_well_formed());
}

#[test]
fn headless_is_planned_only_for_unknown_running_candidates() {
    let dispatcher = HeadlessDispatcher::new(true, Some("http://localhost:4444".to_string()));
    let off = HeadlessDispatcher::new(false, None);
    let mut s = two();
    assert_eq!(s.headless_plan(0, &dispatcher), Dispatch::Skip(SkipReason::Settled));
    s.start_next();
    s.start_next();
    assert_eq!(s.headless_plan(0, &dispatcher), Dispatch::Run(Provider::Yahoo));
    assert_eq!(s.headless_plan(1, &dispatcher), Dispatch::Skip(SkipReason::NoProvider));
    assert_eq!(s.headless_plan(0, &off), Dispatch::Skip(SkipReason::Disabled));
    assert_eq!(s.headless_plan(5, &dispatcher), Dispatch::Skip(SkipReason::Settled));
    s.record_smtp(0, &SmtpVerificationResult::conclusive(true, "ok".to_string(), false));
    assert_eq!(s.headless_plan(0, &dispatcher), Dispatch::Skip(SkipReason::Settled));
    s.record_smtp(1, &SmtpVerificationResult::catch_all("catch-all".to_string()));
    assert_eq!(s.headless_plan(1, &dispatcher), Dispatch::Skip(SkipReason::NoProvider));
}
