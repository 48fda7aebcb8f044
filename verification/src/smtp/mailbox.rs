//! Verifying one candidate over SMTP: the catch-all classification of its
//! domain first, then its mail exchangers in turn, with retries and pauses.
//!
//! The caller owns the network. It performs the action the verifier asks
//! for, reports what happened, and gets the next action back.

use crate::models::VerificationStatus;
use crate::smtp::domain::{
    classified, status_of, DnsFailure, DomainVerificationState, ProbeClaim,
};
use crate::smtp::result::{SmtpVerificationResult, SmtpVerificationResultView};
use vstd::prelude::*;

verus! {

/// Where the verification of a candidate stands.
#[derive(Debug, Clone, Copy, PartialEq, Eq, Structural)]
pub enum VerifierState {
    /// This candidate probes the domain for catch-all; the probe is
    /// outstanding.
    Classifying,
    /// Another candidate probes the domain for catch-all; this one waits.
    Waiting,
    /// The probe of the candidate at mail exchanger `host` is outstanding; it
    /// is attempt number `attempt` at that exchanger.
    Probing { host: usize, attempt: u32 },
    /// A pause is outstanding, after which mail exchanger `host` is probed
    /// as attempt number `attempt`.
    Pausing { host: usize, attempt: u32 },
    /// The verification is over.
    Done,
}

/// What the caller reports after performing an action.
#[derive(Debug)]
pub enum VerifierEvent {
    /// The probe that was asked for ended with this result.
    ProbeResult(SmtpVerificationResult),
    /// The pause is over.
    Paused,
    /// The probe that this candidate waited for may be settled.
    ClassificationSettled,
}

/// What the verifier asks the caller to do next.
#[derive(Debug)]
pub enum VerifierAction {
    /// Probe the mail exchanger at `host_index` with an address that cannot
    /// exist, and report the result.
    ProbeCatchAll { host_index: usize },
    /// Wait until the catch-all probe under way is settled, then report so.
    AwaitClassification,
    /// Probe the mail exchanger at `host_index` with the candidate's address,
    /// and report the result.
    Probe { host_index: usize },
    /// Pause for a random while within the configured range, then report so.
    Pause,
    /// The verification is over with this result.
    Finish(SmtpVerificationResult),
    /// The event answers no outstanding action, or the verification was
    /// over before: there is nothing to do.
    Nothing,
}

/// The verification of one candidate in progress.
#[derive(Debug)]
pub struct SmtpVerifier {
    /// Where the verification stands.
    pub state: VerifierState,
    /// How often one mail exchanger is probed at most.
    pub max_attempts: u32,
    /// How many probes of the candidate's address have ended so far.
    pub attempts: u64,
}

/// The message for a candidate whose domain is known to accept everything.
pub open spec fn catch_all_message() -> Seq<char> {
    "domain accepts every recipient (catch-all)"@
}

/// The message for a candidate whose mail exchangers all failed to give a
/// final answer.
pub open spec fn exhausted_message() -> Seq<char> {
    "no mail exchanger gave a final answer"@
}

/// The message for a candidate on a domain without mail exchangers.
pub open spec fn unreachable_message(failure: Option<DnsFailure>) -> Seq<char> {
    match failure {
        Some(DnsFailure::NxDomain) => "domain does not exist"@,
        Some(DnsFailure::Timeout) => "DNS resolution timed out"@,
        _ => "domain has no mail exchanger"@,
    }
}

/// An inconclusive result that is not worth a retry.
pub open spec fn unknown_result(message: Seq<char>) -> SmtpVerificationResultView {
    SmtpVerificationResultView { exists: None, message, should_retry: false, is_catch_all: false }
}

/// The catch-all result.
pub open spec fn catch_all_result(message: Seq<char>) -> SmtpVerificationResultView {
    SmtpVerificationResultView { exists: None, message, should_retry: false, is_catch_all: true }
}

/// The state that follows an answer to the request for the classification:
/// probing or waiting for catch-all where that is not settled; over where
/// the domain is unreachable or catch-all, or where no attempt is allowed;
/// else the first attempt at the first mail exchanger.
pub open spec fn state_on_claim(claim: ProbeClaim, max_attempts: u32) -> VerifierState {
    match claim {
        ProbeClaim::Probe => VerifierState::Classifying,
        ProbeClaim::Wait => VerifierState::Waiting,
        ProbeClaim::Unreachable => VerifierState::Done,
        ProbeClaim::Known(true) => VerifierState::Done,
        ProbeClaim::Known(false) => if max_attempts == 0 {
            VerifierState::Done
        } else {
            VerifierState::Probing { host: 0, attempt: 1 }
        },
    }
}

/// Whether `action` is what follows an answer to the request for the
/// classification of `domain`.
pub open spec fn action_on_claim(
    domain: DomainVerificationState,
    claim: ProbeClaim,
    max_attempts: u32,
    action: VerifierAction,
) -> bool {
    match claim {
        ProbeClaim::Probe => action == (VerifierAction::ProbeCatchAll { host_index: 0 }),
        ProbeClaim::Wait => action is AwaitClassification,
        ProbeClaim::Unreachable => action matches VerifierAction::Finish(result) && result@
            == unknown_result(unreachable_message(domain.dns_failure)),
        ProbeClaim::Known(true) => action matches VerifierAction::Finish(result) && result@
            == catch_all_result(catch_all_message()),
        ProbeClaim::Known(false) => if max_attempts == 0 {
            action matches VerifierAction::Finish(result) && result@ == unknown_result(
                exhausted_message(),
            )
        } else {
            action == (VerifierAction::Probe { host_index: 0 })
        },
    }
}

/// The state that follows a probe of the candidate that ended with a result
/// asking for a retry or not: over on a final answer; else a pause before
/// the next attempt at the same mail exchanger, or before the first at the
/// next one; over where none is left.
pub open spec fn state_on_result(
    host: usize,
    attempt: u32,
    should_retry: bool,
    host_count: nat,
    max_attempts: u32,
) -> VerifierState {
    if !should_retry {
        VerifierState::Done
    } else if attempt < max_attempts {
        VerifierState::Pausing { host, attempt: (attempt + 1) as u32 }
    } else if host + 1 < host_count {
        VerifierState::Pausing { host: (host + 1) as usize, attempt: 1 }
    } else {
        VerifierState::Done
    }
}

impl SmtpVerifier {
    /// The state after `event`, for a domain in the state `domain`.
    pub open spec fn next_state(
        &self,
        domain: DomainVerificationState,
        event: VerifierEvent,
    ) -> VerifierState {
        match self.state {
            VerifierState::Classifying => match event {
                VerifierEvent::ProbeResult(result) => state_on_claim(
                    domain.after_settle(result.exists == Some(true)).claim_spec(),
                    self.max_attempts,
                ),
                _ => self.state,
            },
            VerifierState::Waiting => state_on_claim(domain.claim_spec(), self.max_attempts),
            VerifierState::Probing { host, attempt } => match event {
                VerifierEvent::ProbeResult(result) => state_on_result(
                    host,
                    attempt,
                    classified(domain.is_catch_all(), result@).should_retry,
                    domain.mx_hosts@.len(),
                    self.max_attempts,
                ),
                _ => self.state,
            },
            VerifierState::Pausing { host, attempt } => match event {
                VerifierEvent::Paused => VerifierState::Probing { host, attempt },
                _ => self.state,
            },
            VerifierState::Done => VerifierState::Done,
        }
    }

    /// The state of the domain after `event`: a probe for catch-all that
    /// ends is settled, a candidate that waited asks again.
    pub open spec fn next_domain(
        &self,
        domain: DomainVerificationState,
        event: VerifierEvent,
    ) -> DomainVerificationState {
        match self.state {
            VerifierState::Classifying => match event {
                VerifierEvent::ProbeResult(result) => domain.after_settle(
                    result.exists == Some(true),
                ).after_claim(),
                _ => domain,
            },
            VerifierState::Waiting => domain.after_claim(),
            _ => domain,
        }
    }

    /// Whether `action` is what the verifier asks for after `event`.
    pub open spec fn action_fits(
        &self,
        domain: DomainVerificationState,
        event: VerifierEvent,
        action: VerifierAction,
    ) -> bool {
        match self.state {
            VerifierState::Classifying => match event {
                VerifierEvent::ProbeResult(result) => {
                    let settled = domain.after_settle(result.exists == Some(true));
                    action_on_claim(settled, settled.claim_spec(), self.max_attempts, action)
                },
                _ => action is Nothing,
            },
            VerifierState::Waiting => action_on_claim(
                domain,
                domain.claim_spec(),
                self.max_attempts,
                action,
            ),
            VerifierState::Probing { host, attempt } => match event {
                VerifierEvent::ProbeResult(result) => {
                    let seen = classified(domain.is_catch_all(), result@);
                    match state_on_result(
                        host,
                        attempt,
                        seen.should_retry,
                        domain.mx_hosts@.len(),
                        self.max_attempts,
                    ) {
                        VerifierState::Pausing { .. } => action is Pause,
                        _ => if seen.should_retry {
                            action matches VerifierAction::Finish(r) && r@ == unknown_result(
                                exhausted_message(),
                            )
                        } else {
                            action matches VerifierAction::Finish(r) && r@ == seen
                        },
                    }
                },
                _ => action is Nothing,
            },
            VerifierState::Pausing { host, attempt } => match event {
                VerifierEvent::Paused => action == (VerifierAction::Probe { host_index: host }),
                _ => action is Nothing,
            },
            VerifierState::Done => action is Nothing,
        }
    }

    /// How many probes of the candidate's address have ended after `event`.
    pub open spec fn next_attempts(&self, event: VerifierEvent) -> u64 {
        if self.state is Probing && event is ProbeResult && self.attempts < u64::MAX {
            (self.attempts + 1) as u64
        } else {
            self.attempts
        }
    }

    /// Whether the state names a mail exchanger of the domain, where it
    /// names one.
    pub open spec fn fits(&self, domain: DomainVerificationState) -> bool {
        match self.state {
            VerifierState::Probing { host, attempt } => host < domain.mx_hosts@.len() && 1
                <= attempt <= self.max_attempts,
            VerifierState::Pausing { host, attempt } => host < domain.mx_hosts@.len() && 1
                <= attempt <= self.max_attempts,
            _ => true,
        }
    }

    /// Says whether the state names a mail exchanger of the domain, where it
    /// names one.
    pub fn is_fit_for(&self, domain: &DomainVerificationState) -> (b: bool)
        ensures
            b == self.fits(*domain),
    {
        match self.state {
            VerifierState::Probing { host, attempt } => host < domain.mx_hosts.len() && 1
                <= attempt && attempt <= self.max_attempts,
            VerifierState::Pausing { host, attempt } => host < domain.mx_hosts.len() && 1
                <= attempt && attempt <= self.max_attempts,
            _ => true,
        }
    }

    /// Starts the verification of a candidate on `domain`, probing each mail
    /// exchanger at most `max_attempts` times: asks for the catch-all
    /// classification of the domain and goes on from the answer.
    pub fn start(domain: &mut DomainVerificationState, max_attempts: u32) -> (r: (
        SmtpVerifier,
        VerifierAction,
    ))
        requires
            old(domain).well_formed(),
        ensures
            *final(domain) == old(domain).after_claim(),
            final(domain).well_formed(),
            r.0.max_attempts == max_attempts,
            r.0.attempts == 0,
            r.0.state == state_on_claim(old(domain).claim_spec(), max_attempts),
            action_on_claim(*old(domain), old(domain).claim_spec(), max_attempts, r.1),
            r.0.fits(*final(domain)),
    {
        let claim = domain.claim();
        let (state, action) = on_claim(domain, claim, max_attempts);
        (SmtpVerifier { state, max_attempts, attempts: 0 }, action)
    }

    /// Whether the verification is over.
    pub fn is_done(&self) -> (b: bool)
        ensures
            b == (self.state == VerifierState::Done),
    {
        self.state == VerifierState::Done
    }

    /// Takes the report of what the last action led to and says what to do
    /// next.
    pub fn step(self, domain: &mut DomainVerificationState, event: VerifierEvent) -> (r: (
        SmtpVerifier,
        VerifierAction,
    ))
        requires
            old(domain).well_formed(),
            self.fits(*old(domain)),
        ensures
            *final(domain) == self.next_domain(*old(domain), event),
            final(domain).well_formed(),
            r.0.max_attempts == self.max_attempts,
            r.0.attempts == self.next_attempts(event),
            r.0.state == self.next_state(*old(domain), event),
            self.action_fits(*old(domain), event, r.1),
            r.0.fits(*final(domain)),
    {
        let max_attempts = self.max_attempts;
        let attempts = self.attempts;
        match self.state {
            VerifierState::Classifying => match event {
                VerifierEvent::ProbeResult(result) => {
                    domain.settle(&result);
                    let claim = domain.claim();
                    let (state, action) = on_claim(domain, claim, max_attempts);
                    (SmtpVerifier { state, max_attempts, attempts }, action)
                },
                _ => (self, VerifierAction::Nothing),
            },
            VerifierState::Waiting => {
                let claim = domain.claim();
                let (state, action) = on_claim(domain, claim, max_attempts);
                (SmtpVerifier { state, max_attempts, attempts }, action)
            },
            VerifierState::Probing { host, attempt } => match event {
                VerifierEvent::ProbeResult(result) => {
                    let attempts = if attempts < u64::MAX {
                        attempts + 1
                    } else {
                        attempts
                    };
                    let host_count = domain.mx_hosts.len();
                    let seen = domain.classify(result);
                    if !seen.should_retry {
                        (
                            SmtpVerifier { state: VerifierState::Done, max_attempts, attempts },
                            VerifierAction::Finish(seen),
                        )
                    } else if attempt < max_attempts {
                        (
                            SmtpVerifier {
                                state: VerifierState::Pausing { host, attempt: attempt + 1 },
                                max_attempts,
                                attempts,
                            },
                            VerifierAction::Pause,
                        )
                    } else if host < host_count - 1 {
                        (
                            SmtpVerifier {
                                state: VerifierState::Pausing { host: host + 1, attempt: 1 },
                                max_attempts,
                                attempts,
                            },
                            VerifierAction::Pause,
                        )
                    } else {
                        (
                            SmtpVerifier { state: VerifierState::Done, max_attempts, attempts },
                            VerifierAction::Finish(
                                SmtpVerificationResult::inconclusive_no_retry(
                                    "no mail exchanger gave a final answer".to_owned(),
                                ),
                            ),
                        )
                    }
                },
                _ => (self, VerifierAction::Nothing),
            },
            VerifierState::Pausing { host, attempt } => match event {
                VerifierEvent::Paused => (
                    SmtpVerifier {
                        state: VerifierState::Probing { host, attempt },
                        max_attempts,
                        attempts,
                    },
                    VerifierAction::Probe { host_index: host },
                ),
                _ => (self, VerifierAction::Nothing),
            },
            VerifierState::Done => (self, VerifierAction::Nothing),
        }
    }
}

/// The number, counting from 0, of the probe that is attempt `attempt` at
/// mail exchanger `host`, when each exchanger is probed `max_attempts` times.
pub open spec fn probe_number(host: int, attempt: int, max_attempts: int) -> int {
    host * max_attempts + (attempt - 1)
}

/// The walk takes the mail exchangers in order and each attempt in turn:
/// after a result that asks for a retry the next probe is the next in
/// number, at an exchanger of the domain; and the walk gives up only after
/// every exchanger was probed as often as allowed. A result that asks for no
/// retry ends the walk at once.
pub proof fn lemma_walk_is_ordered_and_bounded(
    host: usize,
    attempt: u32,
    should_retry: bool,
    host_count: nat,
    max_attempts: u32,
)
    requires
        host < host_count <= usize::MAX,
        1 <= attempt <= max_attempts,
    ensures
        match state_on_result(host, attempt, should_retry, host_count, max_attempts) {
            VerifierState::Pausing { host: next_host, attempt: next_attempt } => {
                &&& should_retry
                &&& next_host < host_count
                &&& 1 <= next_attempt <= max_attempts
                &&& probe_number(next_host as int, next_attempt as int, max_attempts as int)
                    == probe_number(host as int, attempt as int, max_attempts as int) + 1
            },
            VerifierState::Done => !should_retry || probe_number(
                host as int,
                attempt as int,
                max_attempts as int,
            ) + 1 == host_count * max_attempts,
            _ => false,
        },
{
    let m = max_attempts as int;
    let h = host as int;
    assert((h + 1) * m == h * m + m) by (nonlinear_arith);
    if h + 1 == host_count {
        assert(host_count * m == (h + 1) * m);
    }
}

/// On a catch-all domain the probe of a candidate never confirms it: the
/// walk ends at once, with a result that leaves the status unknown,
/// whatever the server said to `RCPT TO`.
pub proof fn lemma_catch_all_domain_never_confirms(
    walk: SmtpVerifier,
    domain: DomainVerificationState,
    result: SmtpVerificationResult,
    action: VerifierAction,
)
    requires
        walk.state is Probing,
        domain.is_catch_all(),
        walk.action_fits(domain, VerifierEvent::ProbeResult(result), action),
    ensures
        walk.next_state(domain, VerifierEvent::ProbeResult(result)) == VerifierState::Done,
        action matches VerifierAction::Finish(r) && status_of(r@) == VerificationStatus::Unknown
            && r.is_catch_all,
{
}

/// What follows an answer to the request for the classification.
fn on_claim(domain: &DomainVerificationState, claim: ProbeClaim, max_attempts: u32) -> (r: (
    VerifierState,
    VerifierAction,
))
    requires
        claim != ProbeClaim::Unreachable ==> domain.mx_hosts@.len() > 0,
    ensures
        r.0 == state_on_claim(claim, max_attempts),
        action_on_claim(*domain, claim, max_attempts, r.1),
        r.0 matches VerifierState::Probing { host, attempt } ==> host < domain.mx_hosts@.len()
            && 1 <= attempt <= max_attempts,
        !(r.0 is Pausing),
{
    match claim {
        ProbeClaim::Probe => (
            VerifierState::Classifying,
            VerifierAction::ProbeCatchAll { host_index: 0 },
        ),
        ProbeClaim::Wait => (VerifierState::Waiting, VerifierAction::AwaitClassification),
        ProbeClaim::Unreachable => {
            let message = match domain.dns_failure {
                Some(DnsFailure::NxDomain) => "domain does not exist",
                Some(DnsFailure::Timeout) => "DNS resolution timed out",
                _ => "domain has no mail exchanger",
            };
            (
                VerifierState::Done,
                VerifierAction::Finish(
                    SmtpVerificationResult::inconclusive_no_retry(message.to_owned()),
                ),
            )
        },
        ProbeClaim::Known(true) => (
            VerifierState::Done,
            VerifierAction::Finish(
                SmtpVerificationResult::catch_all(
                    "domain accepts every recipient (catch-all)".to_owned(),
                ),
            ),
        ),
        ProbeClaim::Known(false) => {
            if max_attempts == 0 {
                (
                    VerifierState::Done,
                    VerifierAction::Finish(
                        SmtpVerificationResult::inconclusive_no_retry(
                            "no mail exchanger gave a final answer".to_owned(),
                        ),
                    ),
                )
            } else {
                (VerifierState::Probing { host: 0, attempt: 1 }, VerifierAction::Probe {
                    host_index: 0,
                })
            }
        },
    }
}

} // verus!
