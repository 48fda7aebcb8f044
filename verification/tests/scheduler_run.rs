use email_sleuth_core::models::{CandidateSource, Provider, VerificationStatus};
use email_sleuth_core::ranking::Thresholds;
use email_sleuth_core::scheduler::{CandidateSeed, TaskState, VerificationScheduler};
use email_sleuth_core::smtp::result::SmtpVerificationResult;

fn seed(email: &str, source: CandidateSource) -> CandidateSeed {
    CandidateSeed { email: email.to_string(), source, is_generic: false }
}

fn three(max_concurrency: usize) -> VerificationScheduler {
    VerificationScheduler::new(
        vec![
            seed("a@x.org", CandidateSource::PatternGenerated),
            seed("b@x.org", CandidateSource::PatternGenerated),
            seed("c@x.org", CandidateSource::PatternGenerated),
        ],
        max_concurrency,
        Thresholds { personal: 4, generic: 7 },
        9,
    )
}

fn accepted() -> SmtpVerificationResult {
    SmtpVerificationResult::conclusive(true, "250 ok".to_string(), false)
}

#[test]
fn early_termination_stops_what_has_not_started() {
    let mut s = three(2);
    assert_eq!(s.start_next(), Some(0));
    assert_eq!(s.start_next(), Some(1));
    assert_eq!(s.start_next(), None);
    assert_eq!(s.running, 2);
    s.record_smtp(0, &accepted());
    assert_eq!(s.candidates[0].confidence, 9);
    s.complete(0);
    assert!(s.stopped);
    assert_eq!(s.tasks, vec![TaskState::Done, TaskState::Running, TaskState::Cancelled]);
    assert_eq!(s.running, 1);
    assert_eq!(s.start_next(), None);
    assert!(!s.is_finished());
    s.record_smtp(1, &accepted());
    s.complete(1);
    assert_eq!(s.tasks, vec![TaskState::Done, TaskState::Done, TaskState::Cancelled]);
    assert_eq!(s.candidates[1].verification_status, VerificationStatus::Confirmed(true));
    assert!(s.is_finished());
    assert_eq!(s.start_next(), None);
    let report = s.report();
    let emails: Vec<&str> = report.iter().map(|f| f.email.as_str()).collect();
    assert_eq!(emails, vec!["a@x.org", "b@x.org", "c@x.org"]);
    assert_eq!(report[0].confidence, 9);
    assert_eq!(report[2].confidence, 4);
    assert_eq!(report[2].verification_status, None);
}

#[test]
fn in_flight_candidates_complete_after_the_stop() {
    let mut s = three(3);
    assert_eq!(s.start_next(), Some(0));
    assert_eq!(s.start_next(), Some(1));
    assert_eq!(s.start_next(), Some(2));
    s.record_smtp(0, &accepted());
    s.complete(0);
    assert!(s.stopped);
    assert_eq!(s.tasks, vec![TaskState::Done, TaskState::Running, TaskState::Running]);
    s.record_smtp(2, &SmtpVerificationResult::conclusive(false, "550".to_string(), false));
    s.complete(2);
    s.complete(1);
    assert!(s.is_finished());
    let report = s.report();
    let emails: Vec<&str> = report.iter().map(|f| f.email.as_str()).collect();
    assert_eq!(emails, vec!["a@x.org", "b@x.org"]);
}

#[test]
fn concurrency_never_exceeds_the_bound() {
    let mut s = three(1);
    assert_eq!(s.start_next(), Some(0));
    assert_eq!(s.start_next(), None);
    s.record_smtp(0, &SmtpVerificationResult::inconclusive_no_retry("?".to_string()));
    s.complete(0);
    assert!(!s.stopped);
    assert_eq!(s.start_next(), Some(1));
    assert_eq!(s.start_next(), None);
    s.complete(1);
    assert_eq!(s.start_next(), Some(2));
    s.complete(2);
    assert_eq!(s.start_next(), None);
    assert!(s.is_finished());
    let zero = three(0);
    assert_eq!(zero.max_concurrency, 1);
}

#[test]
fn results_for_tasks_that_are_not_running_are_ignored() {
    let mut s = three(2);
    s.record_smtp(0, &accepted());
    assert_eq!(s.candidates[0].verification_status, VerificationStatus::Unknown);
    s.complete(0);
    assert_eq!(s.tasks[0], TaskState::Pending);
    s.complete(17);
    s.record_smtp(17, &accepted());
    s.record_headless(17, Provider::Yahoo, &None);
    assert_eq!(s.running, 0);
    assert_eq!(s.start_next(), Some(0));
    s.complete(0);
    s.record_smtp(0, &accepted());
    assert_eq!(s.candidates[0].verification_status, VerificationStatus::Unknown);
}

#[test]
fn headless_result_is_taken_in_while_running() {
    let mut s = VerificationScheduler::new(
        vec![seed("a@yahoo.com", CandidateSource::PatternGenerated)],
        4,
        Thresholds { personal: 4, generic: 7 },
        9,
    );
    assert_eq!(s.start_next(), Some(0));
    s.record_smtp(0, &SmtpVerificationResult::inconclusive_no_retry("blocked".to_string()));
    s.record_headless(0, Provider::Yahoo, &Some(Provider::Yahoo.conclusive_result("a@yahoo.com", true)));
    s.complete(0);
    assert!(!s.stopped);
    assert!(s.is_finished());
    let report = s.report();
    assert_eq!(report.len(), 1);
    assert_eq!(report[0].confidence, 8);
    assert_eq!(report[0].source, "headless_yahoo");
    assert_eq!(report[0].verification_status, Some(true));
}

#[test]
fn empty_run_is_finished_at_once() {
    let mut s =
        VerificationScheduler::new(Vec::new(), 4, Thresholds { personal: 4, generic: 7 }, 9);
    assert!(s.is_finished());
    assert_eq!(s.start_next(), None);
    assert!(s.report().is_empty());
}
