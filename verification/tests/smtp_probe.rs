use email_sleuth_core::error::AppError;
use email_sleuth_core::smtp::probe::{ProbeAction, ProbeEvent, ProbeState, SmtpProbe};
use email_sleuth_core::smtp::response::SessionFailure;

fn reply(code: u16, message: &str) -> ProbeEvent {
    ProbeEvent::Reply { code, message: message.to_string() }
}

fn failed(failure: SessionFailure, message: &str) -> ProbeEvent {
    ProbeEvent::Failed { failure, message: message.to_string() }
}

#[test]
fn plain_session_reads_the_recipient_reply() {
    let probe = SmtpProbe::new();
    assert_eq!(probe.state, ProbeState::Connecting);
    let (probe, action) = probe.step(ProbeEvent::Connected { starttls_offered: false });
    assert!(matches!(action, ProbeAction::MailFrom));
    let (probe, action) = probe.step(reply(250, "sender ok"));
    assert!(matches!(action, ProbeAction::RcptTo));
    assert_eq!(probe.state, ProbeState::RecipientSent);
    let (probe, action) = probe.step(reply(250, "recipient ok"));
    assert!(matches!(action, ProbeAction::Abort));
    assert_eq!(probe.state, ProbeState::Aborting);
    let (probe, action) = probe.step(ProbeEvent::Closed);
    assert!(probe.is_done());
    match action {
        ProbeAction::Finish(report) => {
            assert_eq!(report.result.exists, Some(true));
            assert_eq!(report.result.message, "recipient ok");
            assert!(!report.result.should_retry);
            assert!(report.error.is_none());
        }
        other => panic!("unexpected action {:?}", other),
    }
}

#[test]
fn starttls_is_used_when_offered() {
    let probe = SmtpProbe::new();
    let (probe, action) = probe.step(ProbeEvent::Connected { starttls_offered: true });
    assert!(matches!(action, ProbeAction::StartTls));
    assert_eq!(probe.state, ProbeState::SecuringTls);
    let (probe, action) = probe.step(ProbeEvent::TlsEstablished);
    assert!(matches!(action, ProbeAction::MailFrom));
    let (probe, _) = probe.step(reply(250, "ok"));
    let (probe, action) = probe.step(reply(550, "user unknown"));
    assert!(matches!(action, ProbeAction::Abort));
    let (_, action) = probe.step(ProbeEvent::Closed);
    match action {
        ProbeAction::Finish(report) => {
            assert_eq!(report.result.exists, Some(false));
            assert!(!report.result.should_retry);
        }
        other => panic!("unexpected action {:?}", other),
    }
}

#[test]
fn tls_failure_is_final_and_has_its_own_error() {
    let probe = SmtpProbe::new();
    let (probe, _) = probe.step(ProbeEvent::Connected { starttls_offered: true });
    let (probe, action) = probe.step(failed(SessionFailure::Tls, "bad certificate"));
    assert!(matches!(action, ProbeAction::Abort));
    let (probe, action) = probe.step(ProbeEvent::Closed);
    assert!(probe.is_done());
    match action {
        ProbeAction::Finish(report) => {
            assert_eq!(report.result.exists, None);
            assert!(!report.result.should_retry);
            assert_eq!(report.result.message, "bad certificate");
            assert!(
                matches!(report.error, Some(AppError::SmtpTls(text)) if text == "bad certificate")
            );
        }
        other => panic!("unexpected action {:?}", other),
    }
}

#[test]
fn connect_failure_and_timeout_ask_for_a_retry() {
    let (probe, action) = SmtpProbe::new().step(failed(SessionFailure::Connect, "refused"));
    assert!(probe.is_done());
    match action {
        ProbeAction::Finish(report) => {
            assert_eq!(report.result.exists, None);
            assert!(report.result.should_retry);
            assert!(matches!(report.error, Some(AppError::SmtpTemporaryFailure(_))));
        }
        other => panic!("unexpected action {:?}", other),
    }
    let (probe, _) = SmtpProbe::new().step(ProbeEvent::Connected { starttls_offered: false });
    let (probe, _) = probe.step(reply(250, "ok"));
    let (probe, action) = probe.step(failed(SessionFailure::Timeout, "read timed out"));
    assert!(matches!(action, ProbeAction::Abort));
    let (_, action) = probe.step(ProbeEvent::Closed);
    match action {
        ProbeAction::Finish(report) => {
            assert!(report.result.should_retry);
            assert_eq!(report.result.message, "read timed out");
        }
        other => panic!("unexpected action {:?}", other),
    }
}

#[test]
fn refused_sender_settles_nothing_about_the_recipient() {
    let (probe, _) = SmtpProbe::new().step(ProbeEvent::Connected { starttls_offered: false });
    let (probe, action) = probe.step(reply(550, "sender blocked"));
    assert!(matches!(action, ProbeAction::Abort));
    let (_, action) = probe.step(ProbeEvent::Closed);
    match action {
        ProbeAction::Finish(report) => {
            assert_eq!(report.result.exists, None);
            assert!(!report.result.should_retry);
            assert!(matches!(
                report.error,
                Some(AppError::SmtpCommand { code: 550, ref message }) if message == "sender blocked"
            ));
        }
        other => panic!("unexpected action {:?}", other),
    }
    let (probe, _) = SmtpProbe::new().step(ProbeEvent::Connected { starttls_offered: false });
    let (probe, _) = probe.step(reply(451, "greylisted"));
    let (_, action) = probe.step(ProbeEvent::Closed);
    match action {
        ProbeAction::Finish(report) => assert!(report.result.should_retry),
        other => panic!("unexpected action {:?}", other),
    }
}

#[test]
fn no_action_of_a_session_sends_data() {
    let events: Vec<ProbeEvent> = vec![
        ProbeEvent::Connected { starttls_offered: true },
        ProbeEvent::TlsEstablished,
        reply(250, "ok"),
        reply(250, "ok"),
        ProbeEvent::Closed,
        ProbeEvent::Closed,
    ];
    let mut probe = SmtpProbe::new();
    let mut names: Vec<String> = Vec::new();
    for event in events {
        let (next, action) = probe.step(event);
        probe = next;
        names.push(format!("{:?}", action));
    }
    assert!(names.iter().all(|name| !name.to_uppercase().contains("DATA")));
    assert!(names[4].starts_with("Finish"));
    assert_eq!(names[5], "Nothing");
}

#[test]
fn event_out_of_turn_ends_the_session() {
    let (probe, action) = SmtpProbe::new().step(ProbeEvent::TlsEstablished);
    assert!(probe.is_done());
    match action {
        ProbeAction::Finish(report) => {
            assert!(!report.result.should_retry);
            assert_eq!(
                report.result.message,
                "event does not answer the outstanding SMTP action"
            );
            assert!(matches!(report.error, Some(AppError::SmtpInconclusive(_))));
        }
        other => panic!("unexpected action {:?}", other),
    }
}
