//! One SMTP session against one mail exchanger for one address.
//!
//! The caller owns the connection. It performs the action the probe asks
//! for, reports what the server did, and gets the next action back. The
//! session greets the server, secures the connection where the server offers
//! STARTTLS, names the probe sender and the recipient, reads the reply to the
//! recipient, and then abandons the transaction: no action sends `DATA`, so
//! no mail is ever delivered.

use crate::error::AppError;
use crate::smtp::response::{
    class_result, classify_reply, failure_error, failure_error_fits, failure_result,
    interpret_failure, interpret_reply, SessionFailure,
};
use crate::smtp::result::SmtpVerificationResult;
use crate::text::text_bytes;
use vstd::prelude::*;

verus! {

/// Where a session stands.
#[derive(Debug, Clone, Copy, PartialEq, Eq, Structural)]
pub enum ProbeState {
    /// The connection is being opened and the server greeted.
    Connecting,
    /// The STARTTLS handshake is outstanding.
    SecuringTls,
    /// `MAIL FROM` was sent; its reply is outstanding.
    SenderSent,
    /// `RCPT TO` was sent; its reply is outstanding.
    RecipientSent,
    /// The outcome is known; the transaction is being abandoned.
    Aborting,
    /// The session is over.
    Done,
}

/// What the caller reports after performing an action.
#[derive(Debug)]
pub enum ProbeEvent {
    /// The server was reached and answered the greeting; `starttls_offered`
    /// says whether it lists STARTTLS among its extensions.
    Connected { starttls_offered: bool },
    /// The connection is now encrypted.
    TlsEstablished,
    /// The server answered the last command.
    Reply { code: u16, message: String },
    /// The action failed.
    Failed { failure: SessionFailure, message: String },
    /// The transaction was abandoned and the connection closed, or that was
    /// tried.
    Closed,
}

/// What the probe asks the caller to do next.
#[derive(Debug)]
pub enum ProbeAction {
    /// Start the STARTTLS handshake.
    StartTls,
    /// Send `MAIL FROM` with the probe sender address.
    MailFrom,
    /// Send `RCPT TO` with the address that is checked.
    RcptTo,
    /// Abandon the transaction and close the connection.
    Abort,
    /// The session is over with this report.
    Finish(ProbeReport),
    /// The session was over before: there is nothing to do.
    Nothing,
}

/// What a session found out.
#[derive(Debug)]
pub struct ProbeReport {
    /// The verification result.
    pub result: SmtpVerificationResult,
    /// The error behind the result, where the session failed.
    pub error: Option<AppError>,
}

/// A session in progress.
#[derive(Debug)]
pub struct SmtpProbe {
    /// Where the session stands.
    pub state: ProbeState,
    /// The report that is handed out once the transaction is abandoned.
    pub pending: Option<ProbeReport>,
}

/// The text of the report on an event that the outstanding action cannot
/// have produced.
pub open spec fn out_of_turn_text() -> Seq<char> {
    "event does not answer the outstanding SMTP action"@
}

/// Whether a reply to `MAIL FROM` accepts the sender.
pub open spec fn sender_accepted(code: u16) -> bool {
    200 <= code <= 299
}

/// The state that follows `state` on `event`. Every event moves the session
/// on; one that does not answer the outstanding action ends it.
pub open spec fn next_probe_state(state: ProbeState, event: ProbeEvent) -> ProbeState {
    match state {
        ProbeState::Connecting => match event {
            ProbeEvent::Connected { starttls_offered } => if starttls_offered {
                ProbeState::SecuringTls
            } else {
                ProbeState::SenderSent
            },
            _ => ProbeState::Done,
        },
        ProbeState::SecuringTls => match event {
            ProbeEvent::TlsEstablished => ProbeState::SenderSent,
            _ => ProbeState::Aborting,
        },
        ProbeState::SenderSent => match event {
            ProbeEvent::Reply { code, message } => if sender_accepted(code) {
                ProbeState::RecipientSent
            } else {
                ProbeState::Aborting
            },
            _ => ProbeState::Aborting,
        },
        ProbeState::RecipientSent => ProbeState::Aborting,
        _ => ProbeState::Done,
    }
}

/// Whether `report` is what a session reports when it ends on `event` in
/// `state`: the reading of the reply to `RCPT TO`; for a sender that was
/// refused, a retry if the refusal is temporary; for a failure, its result
/// and its error; for an event out of turn, a broken protocol.
pub open spec fn report_fits(state: ProbeState, event: ProbeEvent, report: ProbeReport) -> bool {
    match event {
        ProbeEvent::Failed { failure, message } => {
            &&& report.result@ == failure_result(failure, message@)
            &&& report.error matches Some(err) && failure_error_fits(failure, message@, err)
        },
        ProbeEvent::Reply { code, message } => if state == ProbeState::RecipientSent {
            &&& report.result@ == class_result(
                classify_reply(code, text_bytes(message@)),
                message@,
            )
            &&& report.error is None
        } else if state == ProbeState::SenderSent {
            &&& report.result.exists is None
            &&& report.result.message@ == message@
            &&& report.result.should_retry == (400 <= code <= 499)
            &&& !report.result.is_catch_all
            &&& report.error == Some(AppError::SmtpCommand { code, message })
        } else {
            is_out_of_turn_report(report)
        },
        _ => is_out_of_turn_report(report),
    }
}

/// Whether `report` is the report on an event out of turn.
pub open spec fn is_out_of_turn_report(report: ProbeReport) -> bool {
    &&& report.result@ == failure_result(SessionFailure::Protocol, out_of_turn_text())
    &&& report.error matches Some(err) && failure_error_fits(
        SessionFailure::Protocol,
        out_of_turn_text(),
        err,
    )
}

/// Whether `action` is what the probe asks for when `event` arrives in the
/// state of `before`.
pub open spec fn probe_action_fits(before: SmtpProbe, event: ProbeEvent, action: ProbeAction) -> bool {
    match next_probe_state(before.state, event) {
        ProbeState::Connecting => false,
        ProbeState::SecuringTls => action is StartTls,
        ProbeState::SenderSent => action is MailFrom,
        ProbeState::RecipientSent => action is RcptTo,
        ProbeState::Aborting => action is Abort,
        ProbeState::Done => match before.state {
            ProbeState::Connecting => action matches ProbeAction::Finish(report) && report_fits(
                before.state,
                event,
                report,
            ),
            ProbeState::Aborting => match before.pending {
                Some(report) => action == ProbeAction::Finish(report),
                None => action matches ProbeAction::Finish(report) && is_out_of_turn_report(
                    report,
                ),
            },
            _ => action is Nothing,
        },
    }
}

impl SmtpProbe {
    /// Starts a session. The caller connects to the mail exchanger, greets
    /// it, and reports how that went.
    pub fn new() -> (probe: SmtpProbe)
        ensures
            probe.state == ProbeState::Connecting,
            probe.pending is None,
    {
        SmtpProbe { state: ProbeState::Connecting, pending: None }
    }

    /// Whether the session is over.
    pub fn is_done(&self) -> (b: bool)
        ensures
            b == (self.state == ProbeState::Done),
    {
        self.state == ProbeState::Done
    }

    /// Takes the report of what the last action led to and says what to do
    /// next.
    pub fn step(self, event: ProbeEvent) -> (r: (SmtpProbe, ProbeAction))
        ensures
            r.0.state == next_probe_state(self.state, event),
            r.0.state == ProbeState::Aborting ==> (r.0.pending matches Some(report) && report_fits(
                self.state,
                event,
                report,
            )),
            r.0.state != ProbeState::Aborting ==> r.0.pending is None,
            probe_action_fits(self, event, r.1),
    {
        let state = self.state;
        let pending = self.pending;
        match state {
            ProbeState::Connecting => match event {
                ProbeEvent::Connected { starttls_offered } => {
                    if starttls_offered {
                        (
                            SmtpProbe { state: ProbeState::SecuringTls, pending: None },
                            ProbeAction::StartTls,
                        )
                    } else {
                        (
                            SmtpProbe { state: ProbeState::SenderSent, pending: None },
                            ProbeAction::MailFrom,
                        )
                    }
                },
                other => {
                    let report = ending_report(state, other);
                    (
                        SmtpProbe { state: ProbeState::Done, pending: None },
                        ProbeAction::Finish(report),
                    )
                },
            },
            ProbeState::SecuringTls => match event {
                ProbeEvent::TlsEstablished => (
                    SmtpProbe { state: ProbeState::SenderSent, pending: None },
                    ProbeAction::MailFrom,
                ),
                other => {
                    let report = ending_report(state, other);
                    (
                        SmtpProbe { state: ProbeState::Aborting, pending: Some(report) },
                        ProbeAction::Abort,
                    )
                },
            },
            ProbeState::SenderSent => {
                let accepted = match &event {
                    ProbeEvent::Reply { code, .. } => 200 <= *code && *code <= 299,
                    _ => false,
                };
                if accepted {
                    (
                        SmtpProbe { state: ProbeState::RecipientSent, pending: None },
                        ProbeAction::RcptTo,
                    )
                } else {
                    let report = ending_report(state, event);
                    (
                        SmtpProbe { state: ProbeState::Aborting, pending: Some(report) },
                        ProbeAction::Abort,
                    )
                }
            },
            ProbeState::RecipientSent => {
                let report = ending_report(state, event);
                (
                    SmtpProbe { state: ProbeState::Aborting, pending: Some(report) },
                    ProbeAction::Abort,
                )
            },
            ProbeState::Aborting => {
                let report = match pending {
                    Some(report) => report,
                    None => out_of_turn_report(),
                };
                (SmtpProbe { state: ProbeState::Done, pending: None }, ProbeAction::Finish(report))
            },
            ProbeState::Done => (
                SmtpProbe { state: ProbeState::Done, pending: None },
                ProbeAction::Nothing,
            ),
        }
    }
}

/// The report of a session that ends on `event` in `state`.
fn ending_report(state: ProbeState, event: ProbeEvent) -> (report: ProbeReport)
    ensures
        report_fits(state, event, report),
        report.result@.well_formed(),
{
    match event {
        ProbeEvent::Failed { failure, message } => {
            let result = interpret_failure(failure, message.clone());
            ProbeReport { result, error: Some(failure_error(failure, message)) }
        },
        ProbeEvent::Reply { code, message } => {
            if state == ProbeState::RecipientSent {
                ProbeReport { result: interpret_reply(code, message), error: None }
            } else if state == ProbeState::SenderSent {
                let result = if 400 <= code && code <= 499 {
                    SmtpVerificationResult::inconclusive_retry(message.clone())
                } else {
                    SmtpVerificationResult::inconclusive_no_retry(message.clone())
                };
                ProbeReport { result, error: Some(AppError::SmtpCommand { code, message }) }
            } else {
                out_of_turn_report()
            }
        },
        _ => out_of_turn_report(),
    }
}

/// The report on an event that the outstanding action cannot have produced.
fn out_of_turn_report() -> (report: ProbeReport)
    ensures
        is_out_of_turn_report(report),
        report.result@.well_formed(),
{
    let text = "event does not answer the outstanding SMTP action";
    ProbeReport {
        result: interpret_failure(SessionFailure::Protocol, text.to_owned()),
        error: Some(failure_error(SessionFailure::Protocol, text.to_owned())),
    }
}

/// A finished session stays finished: one probe is one session.
pub proof fn lemma_done_is_terminal(event: ProbeEvent)
    ensures
        next_probe_state(ProbeState::Done, event) == ProbeState::Done,
{
}

/// A session that got as far as a connection ends only after the
/// transaction was abandoned and the connection closed.
pub proof fn lemma_connection_closed_before_end(state: ProbeState, event: ProbeEvent)
    requires
        state != ProbeState::Connecting,
        state != ProbeState::Done,
        next_probe_state(state, event) == ProbeState::Done,
    ensures
        state == ProbeState::Aborting,
{
}

} // verus!
