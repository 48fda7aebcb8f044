use email_sleuth_core::smtp::domain::{
    catch_all_probe_address, probe_address_from, DnsFailure, DomainVerificationState, ProbeClaim,
};
use email_sleuth_core::smtp::mailbox::{SmtpVerifier, VerifierAction, VerifierEvent, VerifierState};
use email_sleuth_core::smtp::response::{interpret_failure, interpret_reply, SessionFailure};
use email_sleuth_core::smtp::result::SmtpVerificationResult;

fn hosts(names: &[&str]) -> DomainVerificationState {
    DomainVerificationState::resolved(names.iter().map(|n| n.to_string()).collect())
}

fn timeout() -> VerifierEvent {
    VerifierEvent::ProbeResult(interpret_failure(SessionFailure::Timeout, "timed out".to_string()))
}

fn reply(code: u16) -> VerifierEvent {
    VerifierEvent::ProbeResult(interpret_reply(code, format!("{} reply", code)))
}

#[test]
fn second_exchanger_confirms_after_two_timeouts_on_the_first() {
    let mut domain = hosts(&["mx1", "mx2"]);
    let (v, action) = SmtpVerifier::start(&mut domain, 2);
    assert!(matches!(action, VerifierAction::ProbeCatchAll { host_index: 0 }));
    let (v, action) = v.step(&mut domain, reply(550));
    assert_eq!(domain.catch_all, Some(false));
    assert!(matches!(action, VerifierAction::Probe { host_index: 0 }));
    let (v, action) = v.step(&mut domain, timeout());
    assert!(matches!(action, VerifierAction::Pause));
    let (v, action) = v.step(&mut domain, VerifierEvent::Paused);
    assert!(matches!(action, VerifierAction::Probe { host_index: 0 }));
    assert_eq!(v.state, VerifierState::Probing { host: 0, attempt: 2 });
    let (v, action) = v.step(&mut domain, timeout());
    assert!(matches!(action, VerifierAction::Pause));
    assert_eq!(v.state, VerifierState::Pausing { host: 1, attempt: 1 });
    let (v, action) = v.step(&mut domain, VerifierEvent::Paused);
    assert!(matches!(action, VerifierAction::Probe { host_index: 1 }));
    let (v, action) = v.step(&mut domain, reply(250));
    assert!(v.is_done());
    assert_eq!(v.attempts, 3);
    match action {
        VerifierAction::Finish(result) => {
            assert_eq!(result.exists, Some(true));
            assert!(!result.is_catch_all);
        }
        other => panic!("unexpected action {:?}", other),
    }
    assert_eq!(domain.probe_count, 1);
}

#[test]
fn catch_all_domain_is_never_probed_for_the_candidate() {
    let mut domain = hosts(&["mx1"]);
    let (v, action) = SmtpVerifier::start(&mut domain, 2);
    assert!(matches!(action, VerifierAction::ProbeCatchAll { host_index: 0 }));
    let (v, action) = v.step(&mut domain, reply(250));
    assert_eq!(domain.catch_all, Some(true));
    assert!(v.is_done());
    assert_eq!(v.attempts, 0);
    match action {
        VerifierAction::Finish(result) => {
            assert_eq!(result.exists, None);
            assert!(result.is_catch_all);
            assert!(!result.should_retry);
        }
        other => panic!("unexpected action {:?}", other),
    }
    let (v2, action) = SmtpVerifier::start(&mut domain, 2);
    assert!(v2.is_done());
    assert!(matches!(action, VerifierAction::Finish(ref r) if r.is_catch_all && r.exists.is_none()));
    assert_eq!(domain.probe_count, 1);
}

#[test]
fn one_catch_all_probe_for_many_candidates() {
    let mut domain = hosts(&["mx1", "mx2"]);
    let (first, a1) = SmtpVerifier::start(&mut domain, 1);
    let (second, a2) = SmtpVerifier::start(&mut domain, 1);
    let (third, a3) = SmtpVerifier::start(&mut domain, 1);
    assert!(matches!(a1, VerifierAction::ProbeCatchAll { .. }));
    assert!(matches!(a2, VerifierAction::AwaitClassification));
    assert!(matches!(a3, VerifierAction::AwaitClassification));
    assert_eq!(second.state, VerifierState::Waiting);
    let (second, a2) = second.step(&mut domain, VerifierEvent::ClassificationSettled);
    assert!(matches!(a2, VerifierAction::AwaitClassification));
    let (_first, a1) = first.step(&mut domain, reply(550));
    assert!(matches!(a1, VerifierAction::Probe { host_index: 0 }));
    let (_second, a2) = second.step(&mut domain, VerifierEvent::ClassificationSettled);
    assert!(matches!(a2, VerifierAction::Probe { host_index: 0 }));
    let (_third, a3) = third.step(&mut domain, VerifierEvent::ClassificationSettled);
    assert!(matches!(a3, VerifierAction::Probe { host_index: 0 }));
    let (_fourth, a4) = SmtpVerifier::start(&mut domain, 1);
    assert!(matches!(a4, VerifierAction::Probe { host_index: 0 }));
    assert_eq!(domain.probe_count, 1);
    assert_eq!(domain.claim(), ProbeClaim::Known(false));
}

#[test]
fn exhausting_every_exchanger_yields_unknown() {
    let mut domain = hosts(&["mx1", "mx2"]);
    let (v, _) = SmtpVerifier::start(&mut domain, 1);
    let (v, _) = v.step(&mut domain, reply(550));
    let (v, action) = v.step(&mut domain, reply(451));
    assert!(matches!(action, VerifierAction::Pause));
    let (v, _) = v.step(&mut domain, VerifierEvent::Paused);
    assert_eq!(v.state, VerifierState::Probing { host: 1, attempt: 1 });
    let (v, action) = v.step(&mut domain, timeout());
    assert!(v.is_done());
    assert_eq!(v.attempts, 2);
    match action {
        VerifierAction::Finish(result) => {
            assert_eq!(result.exists, None);
            assert!(!result.should_retry);
            assert!(!result.is_catch_all);
            assert_eq!(result.message, "no mail exchanger gave a final answer");
        }
        other => panic!("unexpected action {:?}", other),
    }
}

#[test]
fn final_answer_stops_the_walk_at_once() {
    let mut domain = hosts(&["mx1", "mx2", "mx3"]);
    let (v, _) = SmtpVerifier::start(&mut domain, 3);
    let (v, _) = v.step(&mut domain, reply(550));
    let (v, action) = v.step(&mut domain, reply(550));
    assert!(v.is_done());
    assert_eq!(v.attempts, 1);
    assert!(matches!(action, VerifierAction::Finish(ref r) if r.exists == Some(false)));
    let (v, action) = v.step(&mut domain, reply(250));
    assert!(v.is_done());
    assert!(matches!(action, VerifierAction::Nothing));
}

#[test]
fn dns_failure_short_circuits_every_candidate() {
    for (failure, text) in [
        (DnsFailure::NxDomain, "domain does not exist"),
        (DnsFailure::NoRecords, "domain has no mail exchanger"),
        (DnsFailure::Timeout, "DNS resolution timed out"),
    ] {
        let mut domain = DomainVerificationState::unresolved(failure);
        for _ in 0..3 {
            let (v, action) = SmtpVerifier::start(&mut domain, 2);
            assert!(v.is_done());
            match action {
                VerifierAction::Finish(result) => {
                    assert_eq!(result.exists, None);
                    assert!(!result.should_retry);
                    assert_eq!(result.message, text);
                }
                other => panic!("unexpected action {:?}", other),
            }
        }
        assert_eq!(domain.probe_count, 0);
    }
    let mut empty = DomainVerificationState::resolved(Vec::new());
    assert_eq!(empty.dns_failure, Some(DnsFailure::NoRecords));
    assert_eq!(empty.claim(), ProbeClaim::Unreachable);
}

#[test]
fn events_out_of_turn_change_nothing() {
    let mut domain = hosts(&["mx1"]);
    let (v, _) = SmtpVerifier::start(&mut domain, 2);
    let (v, action) = v.step(&mut domain, VerifierEvent::Paused);
    assert!(matches!(action, VerifierAction::Nothing));
    assert_eq!(v.state, VerifierState::Classifying);
    let (v, _) = v.step(&mut domain, reply(550));
    let (v, action) = v.step(&mut domain, VerifierEvent::Paused);
    assert!(matches!(action, VerifierAction::Nothing));
    assert_eq!(v.state, VerifierState::Probing { host: 0, attempt: 1 });
    assert_eq!(v.attempts, 0);
}

#[test]
fn no_attempt_allowed_yields_unknown_without_probing() {
    let mut domain = hosts(&["mx1"]);
    let (v, _) = SmtpVerifier::start(&mut domain, 0);
    let (v, action) = v.step(&mut domain, reply(550));
    assert!(v.is_done());
    assert!(matches!(action, VerifierAction::Finish(ref r) if r.exists.is_none()));
}

#[test]
fn classification_is_put_on_every_result() {
    let mut domain = hosts(&["mx1"]);
    assert_eq!(domain.claim(), ProbeClaim::Probe);
    assert_eq!(domain.claim(), ProbeClaim::Wait);
    domain.settle(&SmtpVerificationResult::conclusive(true, "ok".to_string(), false));
    assert_eq!(domain.claim(), ProbeClaim::Known(true));
    let forced =
        domain.classify(SmtpVerificationResult::conclusive(true, "250 ok".to_string(), false));
    assert_eq!(forced.exists, None);
    assert!(forced.is_catch_all);
    assert!(!forced.should_retry);
    assert_eq!(forced.message, "250 ok");
    domain.settle(&SmtpVerificationResult::conclusive(false, "no".to_string(), false));
    assert_eq!(domain.catch_all, Some(true));
    let mut other = hosts(&["mx1"]);
    other.claim();
    other.settle(&SmtpVerificationResult::inconclusive_retry("timeout".to_string()));
    assert_eq!(other.catch_all, Some(false));
    let kept =
        other.classify(SmtpVerificationResult::conclusive(true, "250 ok".to_string(), false));
    assert_eq!(kept.exists, Some(true));
    assert!(!kept.is_catch_all);
}

#[test]
fn probe_address_is_built_from_the_draws() {
    let address = probe_address_from(&vec![0, 1, 25, 26, 35, 36, 71], "example.com");
    assert_eq!(address, "verify-probe-abz09a9@example.com");
    assert_eq!(probe_address_from(&Vec::new(), "x.org"), "verify-probe-@x.org");
}

#[test]
fn random_probe_address_has_the_fixed_shape() {
    let a = catch_all_probe_address("example.com");
    let b = catch_all_probe_address("example.com");
    for address in [&a, &b] {
        assert!(address.starts_with("verify-probe-"));
        assert!(address.ends_with("@example.com"));
        let local = &address["verify-probe-".len()..address.len() - "@example.com".len()];
        assert_eq!(local.len(), 16);
        assert!(local.chars().all(|c| c.is_ascii_lowercase() || c.is_ascii_digit()));
    }
    let mut distinct = std::collections::HashSet::new();
    for _ in 0..20 {
        distinct.insert(catch_all_probe_address("example.com"));
    }
    assert!(distinct.len() > 1);
}
