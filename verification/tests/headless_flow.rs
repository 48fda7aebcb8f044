use email_sleuth_core::error::AppError;
use email_sleuth_core::headless::capabilities::hardened_capabilities;
use email_sleuth_core::headless::flow::{FlowAction, FlowEvent, FlowState, FormStep, HeadlessFlow};
use email_sleuth_core::headless::provider::{IndicatorKind, ELEMENT_WAIT_SECS, SETTLE_PAUSE_MS};
use email_sleuth_core::headless::selectors::{MicrosoftSelectors, YahooSelectors};
use email_sleuth_core::models::Provider;
use fantoccini::Locator;

fn submitted(provider: Provider, email: &str) -> HeadlessFlow {
    let flow = HeadlessFlow::new(provider, email.to_string());
    let (flow, action) = flow.step(FlowEvent::SessionOpened);
    assert!(matches!(action, FlowAction::Navigate { .. }));
    let (flow, action) = flow.step(FlowEvent::CommandSucceeded);
    assert!(matches!(action, FlowAction::TypeText { .. }));
    let (flow, action) = flow.step(FlowEvent::CommandSucceeded);
    assert!(matches!(action, FlowAction::Click { .. }));
    let (flow, action) = flow.step(FlowEvent::CommandSucceeded);
    assert!(matches!(action, FlowAction::RaceIndicators { .. }));
    assert_eq!(flow.state, FlowState::FormSubmitted);
    flow
}

#[test]
fn yahoo_recaptcha_confirms_the_account() {
    let flow = submitted(Provider::Yahoo, "jane@yahoo.com");
    let table = Provider::Yahoo.outcome_indicators();
    let recaptcha = table
        .iter()
        .position(|row| row.locator == YahooSelectors::exists_recaptcha())
        .unwrap();
    assert_eq!(table[recaptcha].kind, IndicatorKind::Captcha);
    let (flow, action) = flow.step(FlowEvent::RaceFinished(Some(recaptcha)));
    assert_eq!(flow.state, FlowState::Exists);
    assert!(matches!(action, FlowAction::CloseSession));
    let (flow, action) = flow.step(FlowEvent::SessionClosed);
    assert_eq!(flow.state, FlowState::Closed);
    assert!(flow.is_closed());
    match action {
        FlowAction::Finish(Ok(Some(found))) => {
            assert_eq!(found.email, "jane@yahoo.com");
            assert_eq!(found.verification_status, Some(true));
            assert_eq!(found.confidence, 8);
            assert_eq!(found.source, "headless_yahoo");
            assert!(!found.is_generic);
            assert_eq!(
                found.verification_message,
                "Verified via Yahoo password recovery flow (options/code/captcha shown)"
            );
        }
        other => panic!("unexpected action {:?}", other),
    }
}

#[test]
fn microsoft_captcha_leaves_the_status_unknown() {
    let flow = submitted(Provider::Microsoft, "jane@outlook.com");
    let table = Provider::Microsoft.outcome_indicators();
    let captcha = table
        .iter()
        .position(|row| row.locator == MicrosoftSelectors::captcha())
        .unwrap();
    assert_eq!(table[captcha].implies(), None);
    let (flow, action) = flow.step(FlowEvent::RaceFinished(Some(captcha)));
    assert_eq!(flow.state, FlowState::Inconclusive);
    assert!(matches!(action, FlowAction::CloseSession));
    let (flow, action) = flow.step(FlowEvent::SessionClosed);
    assert!(flow.is_closed());
    assert!(matches!(action, FlowAction::Finish(Ok(None))));
}

#[test]
fn microsoft_options_confirm_with_trust_seven() {
    let flow = submitted(Provider::Microsoft, "joe@hotmail.com");
    let (flow, _) = flow.step(FlowEvent::RaceFinished(Some(1)));
    assert_eq!(flow.state, FlowState::Exists);
    let (_, action) = flow.step(FlowEvent::SessionClosed);
    match action {
        FlowAction::Finish(Ok(Some(found))) => {
            assert_eq!(found.confidence, 7);
            assert_eq!(found.source, "headless_hotmail");
            assert_eq!(found.verification_status, Some(true));
            assert_eq!(
                found.verification_message,
                "Verified via Microsoft password recovery flow (options/code shown)"
            );
        }
        other => panic!("unexpected action {:?}", other),
    }
}

#[test]
fn error_indicators_reject_with_confidence_zero() {
    let flow = submitted(Provider::Microsoft, "nobody@live.com");
    let (flow, _) = flow.step(FlowEvent::RaceFinished(Some(4)));
    assert_eq!(flow.state, FlowState::NotExists);
    let (_, action) = flow.step(FlowEvent::SessionClosed);
    match action {
        FlowAction::Finish(Ok(Some(found))) => {
            assert_eq!(found.confidence, 0);
            assert_eq!(found.verification_status, Some(false));
            assert_eq!(
                found.verification_message,
                "Non-existent per Microsoft password recovery flow (error shown)"
            );
        }
        other => panic!("unexpected action {:?}", other),
    }
    let flow = submitted(Provider::Yahoo, "nobody@yahoo.com");
    let (flow, _) = flow.step(FlowEvent::RaceFinished(Some(4)));
    assert_eq!(flow.state, FlowState::NotExists);
    let (_, action) = flow.step(FlowEvent::SessionClosed);
    match action {
        FlowAction::Finish(Ok(Some(found))) => {
            assert_eq!(found.confidence, 0);
            assert_eq!(found.source, "headless_yahoo");
            assert_eq!(
                found.verification_message,
                "Non-existent or disabled per Yahoo password recovery flow"
            );
        }
        other => panic!("unexpected action {:?}", other),
    }
}

#[test]
fn no_indicator_in_time_is_inconclusive() {
    let flow = submitted(Provider::Yahoo, "jane@yahoo.com");
    let (flow, action) = flow.step(FlowEvent::RaceFinished(None));
    assert_eq!(flow.state, FlowState::Inconclusive);
    assert!(matches!(action, FlowAction::CloseSession));
    let (_, action) = flow.step(FlowEvent::SessionClosed);
    assert!(matches!(action, FlowAction::Finish(Ok(None))));
}

#[test]
fn winner_outside_the_table_is_inconclusive() {
    let flow = submitted(Provider::Yahoo, "jane@yahoo.com");
    let (flow, _) = flow.step(FlowEvent::RaceFinished(Some(99)));
    assert_eq!(flow.state, FlowState::Inconclusive);
}

#[test]
fn actions_carry_the_providers_locators_and_timeouts() {
    let flow = HeadlessFlow::new(Provider::Microsoft, "a@msn.com".to_string());
    let (flow, action) = flow.step(FlowEvent::SessionOpened);
    match action {
        FlowAction::Navigate { url, ready, timeout_secs } => {
            assert_eq!(url, "https://account.live.com/password/reset");
            assert_eq!(ready, Locator::Id("iSigninName"));
            assert_eq!(timeout_secs, 25);
        }
        other => panic!("unexpected action {:?}", other),
    }
    assert_eq!(flow.state, FlowState::SessionOpen(FormStep::Navigating));
    let (flow, action) = flow.step(FlowEvent::CommandSucceeded);
    match action {
        FlowAction::TypeText { target, timeout_secs } => {
            assert_eq!(target, Locator::Id("iSigninName"));
            assert_eq!(timeout_secs, ELEMENT_WAIT_SECS);
        }
        other => panic!("unexpected action {:?}", other),
    }
    let (_, action) = flow.step(FlowEvent::CommandSucceeded);
    match action {
        FlowAction::Click { target, timeout_secs } => {
            assert_eq!(target, Locator::Id("resetPwdHipAction"));
            assert_eq!(timeout_secs, 15);
        }
        other => panic!("unexpected action {:?}", other),
    }
    let flow = HeadlessFlow::new(Provider::Yahoo, "a@yahoo.com".to_string());
    let (_, action) = flow.step(FlowEvent::SessionOpened);
    match action {
        FlowAction::Navigate { url, ready, timeout_secs } => {
            assert_eq!(url, "https://login.yahoo.com/forgot");
            assert_eq!(ready, Locator::Css("#username"));
            assert_eq!(timeout_secs, 20);
        }
        other => panic!("unexpected action {:?}", other),
    }
    assert_eq!(SETTLE_PAUSE_MS, 300);
}

#[test]
fn session_that_cannot_be_opened_ends_the_flow_at_once() {
    let flow = HeadlessFlow::new(Provider::Yahoo, "a@yahoo.com".to_string());
    let (flow, action) =
        flow.step(FlowEvent::SessionFailed(AppError::WebDriverConnection("refused".to_string())));
    assert!(flow.is_closed());
    match action {
        FlowAction::Finish(Err(AppError::WebDriverConnection(text))) => assert_eq!(text, "refused"),
        other => panic!("unexpected action {:?}", other),
    }
}

#[test]
fn failed_command_closes_the_session_before_the_error_is_handed_out() {
    let flow = HeadlessFlow::new(Provider::Yahoo, "a@yahoo.com".to_string());
    let (flow, _) = flow.step(FlowEvent::SessionOpened);
    let (flow, action) =
        flow.step(FlowEvent::CommandFailed(AppError::FantocciniCmd("no such element".to_string())));
    assert_eq!(flow.state, FlowState::Failed);
    assert!(matches!(action, FlowAction::CloseSession));
    let (flow, action) = flow.step(FlowEvent::SessionClosed);
    assert!(flow.is_closed());
    match action {
        FlowAction::Finish(Err(AppError::FantocciniCmd(text))) => {
            assert_eq!(text, "no such element")
        }
        other => panic!("unexpected action {:?}", other),
    }
}

#[test]
fn event_out_of_turn_fails_the_flow() {
    let flow = HeadlessFlow::new(Provider::Yahoo, "a@yahoo.com".to_string());
    let (flow, action) = flow.step(FlowEvent::CommandSucceeded);
    assert!(flow.is_closed());
    match action {
        FlowAction::Finish(Err(AppError::Task(text))) => {
            assert_eq!(text, "event does not answer the outstanding browser action")
        }
        other => panic!("unexpected action {:?}", other),
    }
    let flow = HeadlessFlow::new(Provider::Yahoo, "a@yahoo.com".to_string());
    let (flow, _) = flow.step(FlowEvent::SessionOpened);
    let (flow, action) = flow.step(FlowEvent::RaceFinished(Some(0)));
    assert_eq!(flow.state, FlowState::Failed);
    assert!(matches!(action, FlowAction::CloseSession));
    let (_, action) = flow.step(FlowEvent::SessionClosed);
    assert!(matches!(action, FlowAction::Finish(Err(AppError::Task(_)))));
}

#[test]
fn closed_flow_stays_closed() {
    let flow = HeadlessFlow::new(Provider::Yahoo, "a@yahoo.com".to_string());
    let (flow, _) = flow.step(FlowEvent::SessionFailed(AppError::WebDriverConnection(
        "refused".to_string(),
    )));
    let (flow, action) = flow.step(FlowEvent::SessionOpened);
    assert!(flow.is_closed());
    assert!(matches!(action, FlowAction::Nothing));
}

#[test]
fn any_six_events_close_a_new_flow() {
    let scripts: Vec<Vec<u8>> = vec![
        vec![0, 1, 1, 1, 2, 3],
        vec![0, 0, 0, 0, 0, 0],
        vec![0, 1, 3, 3, 3, 3],
        vec![0, 1, 1, 1, 1, 1],
        vec![2, 2, 2, 2, 2, 2],
    ];
    for script in scripts {
        let mut flow = HeadlessFlow::new(Provider::Microsoft, "a@live.com".to_string());
        for code in script {
            let event = match code {
                0 => FlowEvent::SessionOpened,
                1 => FlowEvent::CommandSucceeded,
                2 => FlowEvent::RaceFinished(Some(1)),
                _ => FlowEvent::SessionClosed,
            };
            flow = flow.step(event).0;
        }
        assert!(flow.is_closed());
    }
}

#[test]
fn hardened_capabilities_are_fixed() {
    let caps = hardened_capabilities();
    assert_eq!(caps.browser_name, "chrome");
    assert_eq!(
        caps.arguments,
        vec![
            "--headless=new",
            "--no-sandbox",
            "--disable-gpu",
            "--disable-dev-shm-usage",
            "--window-size=1024,768",
            "--disable-extensions",
            "--disable-background-networking",
            "--disable-sync",
            "--disable-translate",
            "--mute-audio",
            "--safebrowsing-disable-auto-update",
            "--ignore-certificate-errors",
            "--log-level=1",
        ]
    );
}

#[test]
fn selectors_name_the_elements_of_the_recovery_pages() {
    assert_eq!(YahooSelectors::email_input(), Locator::Css("#username"));
    assert_eq!(YahooSelectors::submit_button(), Locator::Css("button[name='verifyYid']"));
    assert_eq!(YahooSelectors::exists_recaptcha(), Locator::Css(".recaptcha-challenge"));
    assert_eq!(YahooSelectors::exists_verification_code(), Locator::Id("email-verify-challenge"));
    assert_eq!(
        YahooSelectors::exists_challenge_selector(),
        Locator::Id("challenge-selector-challenge")
    );
    assert_eq!(YahooSelectors::not_exists_error(), Locator::Css(".error-msg"));
    assert_eq!(YahooSelectors::account_disabled(), Locator::Css(".ctx-account_is_locked"));
    assert_eq!(MicrosoftSelectors::email_input(), Locator::Id("iSigninName"));
    assert_eq!(MicrosoftSelectors::submit_button(), Locator::Id("resetPwdHipAction"));
    assert_eq!(MicrosoftSelectors::exists_verify_identity(), Locator::Id("iSelectProofTitle"));
    assert_eq!(MicrosoftSelectors::exists_authenticator(), Locator::Id("iEnterVerification"));
    assert_eq!(MicrosoftSelectors::not_exists_error1(), Locator::Id("pMemberNameErr"));
    assert_eq!(MicrosoftSelectors::not_exists_error2(), Locator::Id("iSigninNameError"));
    assert_eq!(
        MicrosoftSelectors::captcha(),
        Locator::Css("#hipEnforcementContainer, iframe[src*='captcha'], iframe[title*='CAPTCHA']")
    );
}

#[test]
fn indicator_tables_tag_each_row() {
    let ms: Vec<Option<bool>> =
        Provider::Microsoft.outcome_indicators().iter().map(|row| row.implies()).collect();
    assert_eq!(ms, vec![None, Some(true), Some(true), Some(false), Some(false)]);
    let yahoo: Vec<Option<bool>> =
        Provider::Yahoo.outcome_indicators().iter().map(|row| row.implies()).collect();
    assert_eq!(yahoo, vec![Some(true), Some(true), Some(true), Some(false), Some(false)]);
    assert_eq!(Provider::Yahoo.outcome_of_race(Some(0)), Some(true));
    assert_eq!(Provider::Microsoft.outcome_of_race(Some(0)), None);
    assert_eq!(Provider::Microsoft.outcome_of_race(Some(3)), Some(false));
    assert_eq!(Provider::Microsoft.outcome_of_race(None), None);
    assert_eq!(Provider::Microsoft.outcome_of_race(Some(5)), None);
    assert_eq!(Provider::Microsoft.trust(), 7);
    assert_eq!(Provider::Yahoo.trust(), 8);
}
