//! What a run knows about one mail domain: its mail exchangers and whether
//! it accepts every local part.
//!
//! The catch-all probe is single-flight. Whoever asks first is told to probe;
//! whoever asks while that probe is under way is told to wait; everybody
//! after that is told the classification. The domain is never probed again.

use crate::config::random_in_range;
use crate::models::VerificationStatus;
use crate::smtp::result::{SmtpVerificationResult, SmtpVerificationResultView};
use vstd::prelude::*;

verus! {

/// Why a domain has no mail exchangers to probe.
#[derive(Debug, Clone, Copy, PartialEq, Eq, Structural)]
pub enum DnsFailure {
    /// The domain does not exist.
    NxDomain,
    /// The domain has neither MX nor A records.
    NoRecords,
    /// The resolver did not answer in time.
    Timeout,
}

/// The answer to a request for the catch-all classification of a domain.
#[derive(Debug, Clone, Copy, PartialEq, Eq, Structural)]
pub enum ProbeClaim {
    /// Nobody has probed yet: the asker probes, and settles the result.
    Probe,
    /// A probe is under way: the asker waits and asks again.
    Wait,
    /// The domain is classified: `true` where it accepts every local part.
    Known(bool),
    /// The domain has no mail exchanger: nothing is probed.
    Unreachable,
}

/// What a run knows about one mail domain.
#[derive(Debug)]
pub struct DomainVerificationState {
    /// The mail exchangers, by priority.
    pub mx_hosts: Vec<String>,
    /// Why there are no mail exchangers, where resolution failed.
    pub dns_failure: Option<DnsFailure>,
    /// Whether the domain accepts every local part, once that is known.
    pub catch_all: Option<bool>,
    /// How many catch-all probes were issued for the domain.
    pub probe_count: u32,
    /// Whether a catch-all probe is under way.
    pub probing: bool,
}

/// Something that happens to the state of a domain.
pub enum DomainOp {
    /// A candidate asks for the classification.
    Claim,
    /// The probe is settled; `true` where the server accepted the address
    /// that cannot exist.
    Settle(bool),
}

impl DomainVerificationState {
    /// Whether the state is consistent: at most one probe was issued; a
    /// probe is under way or settled exactly when one was issued; and none
    /// was issued for a domain without mail exchangers.
    pub open spec fn well_formed(&self) -> bool {
        &&& self.probe_count <= 1
        &&& self.probing ==> self.catch_all is None
        &&& (self.probe_count == 1 <==> (self.probing || self.catch_all is Some))
        &&& self.dns_failure is Some ==> self.mx_hosts@.len() == 0
        &&& self.mx_hosts@.len() == 0 ==> self.probe_count == 0
    }

    /// Whether the domain has a mail exchanger to probe.
    pub open spec fn reachable(&self) -> bool {
        self.mx_hosts@.len() > 0
    }

    /// Whether the domain is known to accept every local part.
    pub open spec fn is_catch_all(&self) -> bool {
        self.catch_all == Some(true)
    }

    /// The answer to a request for the classification.
    pub open spec fn claim_spec(&self) -> ProbeClaim {
        if !self.reachable() {
            ProbeClaim::Unreachable
        } else if self.catch_all is Some {
            ProbeClaim::Known(self.catch_all->0)
        } else if self.probing {
            ProbeClaim::Wait
        } else {
            ProbeClaim::Probe
        }
    }

    /// The state after a request for the classification: a probe is marked
    /// as under way, and counted, where the asker was told to probe.
    pub open spec fn after_claim(self) -> DomainVerificationState {
        if self.claim_spec() == ProbeClaim::Probe {
            DomainVerificationState {
                probing: true,
                probe_count: (self.probe_count + 1) as u32,
                ..self
            }
        } else {
            self
        }
    }

    /// The state after the probe was settled: classified, where a probe was
    /// under way; unchanged where none was.
    pub open spec fn after_settle(self, accepted: bool) -> DomainVerificationState {
        if self.probing {
            DomainVerificationState { probing: false, catch_all: Some(accepted), ..self }
        } else {
            self
        }
    }

    /// The state after `op`.
    pub open spec fn after(self, op: DomainOp) -> DomainVerificationState {
        match op {
            DomainOp::Claim => self.after_claim(),
            DomainOp::Settle(accepted) => self.after_settle(accepted),
        }
    }

    /// Says whether the state is consistent.
    pub fn is_well_formed(&self) -> (b: bool)
        ensures
            b == self.well_formed(),
    {
        let settled = self.probing || self.catch_all.is_some();
        self.probe_count <= 1 && !(self.probing && self.catch_all.is_some()) && ((self.probe_count
            == 1) == settled) && (self.dns_failure.is_none() || self.mx_hosts.len() == 0) && (
        self.mx_hosts.len() > 0 || self.probe_count == 0)
    }

    /// The state of a domain whose mail exchangers were resolved. An empty
    /// list stands for a domain without records.
    pub fn resolved(mx_hosts: Vec<String>) -> (state: Self)
        ensures
            state.mx_hosts == mx_hosts,
            state.dns_failure == (if mx_hosts@.len() == 0 {
                Some(DnsFailure::NoRecords)
            } else {
                None
            }),
            state.catch_all is None,
            state.probe_count == 0,
            !state.probing,
            state.well_formed(),
    {
        let dns_failure = if mx_hosts.len() == 0 {
            Some(DnsFailure::NoRecords)
        } else {
            None
        };
        DomainVerificationState {
            mx_hosts,
            dns_failure,
            catch_all: None,
            probe_count: 0,
            probing: false,
        }
    }

    /// The state of a domain whose resolution failed: every candidate on it
    /// stays unknown, and no SMTP session is opened.
    pub fn unresolved(failure: DnsFailure) -> (state: Self)
        ensures
            state.mx_hosts@.len() == 0,
            state.dns_failure == Some(failure),
            state.catch_all is None,
            state.probe_count == 0,
            !state.probing,
            state.well_formed(),
            !state.reachable(),
    {
        DomainVerificationState {
            mx_hosts: Vec::new(),
            dns_failure: Some(failure),
            catch_all: None,
            probe_count: 0,
            probing: false,
        }
    }

    /// Asks for the catch-all classification of the domain. Exactly the
    /// first asker on a reachable domain is told to probe.
    pub fn claim(&mut self) -> (claim: ProbeClaim)
        requires
            old(self).well_formed(),
        ensures
            claim == old(self).claim_spec(),
            *final(self) == old(self).after_claim(),
            final(self).well_formed(),
            claim == ProbeClaim::Probe <==> final(self).probe_count == old(self).probe_count + 1,
            claim != ProbeClaim::Probe ==> *final(self) == *old(self),
    {
        if self.mx_hosts.len() == 0 {
            ProbeClaim::Unreachable
        } else {
            match self.catch_all {
                Some(accepts_all) => ProbeClaim::Known(accepts_all),
                None => {
                    if self.probing {
                        ProbeClaim::Wait
                    } else {
                        self.probing = true;
                        self.probe_count = self.probe_count + 1;
                        ProbeClaim::Probe
                    }
                },
            }
        }
    }

    /// Settles the probe that is under way with its result: the domain is
    /// catch-all exactly where the server accepted the address that cannot
    /// exist. Where no probe is under way nothing changes.
    pub fn settle(&mut self, result: &SmtpVerificationResult)
        requires
            old(self).well_formed(),
        ensures
            *final(self) == old(self).after_settle(result.exists == Some(true)),
            final(self).well_formed(),
            final(self).probe_count == old(self).probe_count,
    {
        if self.probing {
            self.probing = false;
            self.catch_all = Some(
                match result.exists {
                    Some(true) => true,
                    _ => false,
                },
            );
        }
    }

    /// Puts the classification of the domain on the result of a candidate:
    /// on a catch-all domain every result becomes the catch-all result,
    /// whatever the server said to this address; elsewhere it is kept.
    pub fn classify(&self, result: SmtpVerificationResult) -> (r: SmtpVerificationResult)
        ensures
            r@ == classified(self.is_catch_all(), result@),
            !self.is_catch_all() ==> r == result,
    {
        match self.catch_all {
            Some(true) => SmtpVerificationResult::catch_all(result.message),
            _ => result,
        }
    }
}

/// A result with the classification of its domain put on it.
pub open spec fn classified(
    is_catch_all: bool,
    result: SmtpVerificationResultView,
) -> SmtpVerificationResultView {
    if is_catch_all {
        SmtpVerificationResultView {
            exists: None,
            message: result.message,
            should_retry: false,
            is_catch_all: true,
        }
    } else {
        result
    }
}

/// What an SMTP result establishes about a candidate: a conclusive answer
/// on a domain that is not catch-all confirms, anything else leaves the
/// status unknown.
pub open spec fn status_of(result: SmtpVerificationResultView) -> VerificationStatus {
    match result.exists {
        Some(exists) => if result.is_catch_all {
            VerificationStatus::Unknown
        } else {
            VerificationStatus::Confirmed(exists)
        },
        None => VerificationStatus::Unknown,
    }
}

/// Reads the status of a candidate from an SMTP result.
pub fn smtp_status(result: &SmtpVerificationResult) -> (status: VerificationStatus)
    ensures
        status == status_of(result@),
{
    match result.exists {
        Some(exists) => if result.is_catch_all {
            VerificationStatus::Unknown
        } else {
            VerificationStatus::Confirmed(exists)
        },
        None => VerificationStatus::Unknown,
    }
}

/// How many probes are issued while `ops` happen to a domain in `state`.
pub open spec fn probes_issued(state: DomainVerificationState, ops: Seq<DomainOp>) -> nat
    decreases ops.len(),
{
    if ops.len() == 0 {
        0
    } else {
        let granted: nat = if ops[0] is Claim && state.claim_spec() == ProbeClaim::Probe {
            1
        } else {
            0
        };
        granted + probes_issued(state.after(ops[0]), ops.drop_first())
    }
}

/// Whatever happens to a domain, and in whatever order, the probes issued
/// before and from now on never add up to more than one.
pub proof fn lemma_at_most_one_probe(state: DomainVerificationState, ops: Seq<DomainOp>)
    requires
        state.well_formed(),
    ensures
        state.probe_count + probes_issued(state, ops) <= 1,
    decreases ops.len(),
{
    if ops.len() > 0 {
        lemma_at_most_one_probe(state.after(ops[0]), ops.drop_first());
    }
}

/// On a reachable domain that nobody has probed, exactly one probe is issued
/// however many candidates ask for the classification, as long as one does.
pub proof fn lemma_exactly_one_probe(state: DomainVerificationState, ops: Seq<DomainOp>)
    requires
        state.well_formed(),
        state.reachable(),
        state.probe_count == 0,
        exists|i: int| 0 <= i < ops.len() && ops[i] is Claim,
    ensures
        probes_issued(state, ops) == 1,
    decreases ops.len(),
{
    let rest = ops.drop_first();
    if ops[0] is Claim {
        lemma_at_most_one_probe(state.after(ops[0]), rest);
    } else {
        let i = choose|i: int| 0 <= i < ops.len() && ops[i] is Claim;
        assert(rest[i - 1] is Claim);
        lemma_exactly_one_probe(state.after(ops[0]), rest);
    }
}

/// On a catch-all domain no result confirms a candidate, whatever the
/// server said to `RCPT TO`.
pub proof fn lemma_catch_all_never_confirms(result: SmtpVerificationResultView)
    ensures
        status_of(classified(true, result)) == VerificationStatus::Unknown,
        classified(true, result).exists is None,
        classified(true, result).is_catch_all,
{
}

/// The letters and digits that a probe address is drawn from.
pub open spec fn probe_alphabet() -> Seq<char> {
    "abcdefghijklmnopqrstuvwxyz0123456789"@
}

/// How many random characters a probe address holds.
pub const PROBE_RANDOM_LEN: usize = 16;

/// The characters picked by `draws`, each taken from the alphabet at the
/// draw's remainder by the alphabet's length.
pub open spec fn drawn_text(draws: Seq<u64>) -> Seq<char> {
    Seq::new(draws.len(), |i: int| probe_alphabet()[(draws[i] % 36) as int])
}

/// The address that probes `domain` for the given draws: a fixed prefix,
/// the drawn characters, `@` and the domain.
pub open spec fn probe_address_text(draws: Seq<u64>, domain: Seq<char>) -> Seq<char> {
    "verify-probe-"@ + drawn_text(draws) + "@"@ + domain
}

/// Builds the address that probes `domain` from the given draws.
pub fn probe_address_from(draws: &Vec<u64>, domain: &str) -> (address: String)
    ensures
        address@ == probe_address_text(draws@, domain@),
{
    let alphabet = "abcdefghijklmnopqrstuvwxyz0123456789";
    proof {
        reveal_strlit("abcdefghijklmnopqrstuvwxyz0123456789");
        assert(alphabet@.len() == 36);
        assert(vstd::utf8::is_ascii_chars(alphabet@));
    }
    let mut address = "verify-probe-".to_owned();
    let mut i: usize = 0;
    while i < draws.len()
        invariant
            i <= draws.len(),
            alphabet@ == probe_alphabet(),
            alphabet@.len() == 36,
            alphabet.is_ascii(),
            address@ == "verify-probe-"@ + drawn_text(draws@.subrange(0, i as int)),
        decreases draws.len() - i,
    {
        let pick: usize = (draws[i] % 36) as usize;
        let letter = alphabet.substring_ascii(pick, pick + 1);
        address.append(letter);
        proof {
            assert(letter@ =~= seq![probe_alphabet()[pick as int]]);
            assert(drawn_text(draws@.subrange(0, i + 1)) =~= drawn_text(
                draws@.subrange(0, i as int),
            ) + letter@);
            assert(address@ =~= "verify-probe-"@ + drawn_text(draws@.subrange(0, i + 1)));
        }
        i += 1;
    }
    proof {
        assert(draws@.subrange(0, draws@.len() as int) =~= draws@);
    }
    address.append("@");
    address.append(domain);
    address
}

/// An address on `domain` whose local part is random, so that no mailbox of
/// that name can be expected to exist: a server that accepts it accepts
/// anything.
pub fn catch_all_probe_address(domain: &str) -> (address: String)
    ensures
        exists|draws: Seq<u64>|
            draws.len() == PROBE_RANDOM_LEN && #[trigger] probe_address_text(draws, domain@)
                == address@,
{
    let mut draws: Vec<u64> = Vec::new();
    let mut i: usize = 0;
    while i < PROBE_RANDOM_LEN
        invariant
            i <= PROBE_RANDOM_LEN,
            draws@.len() == i,
        decreases PROBE_RANDOM_LEN - i,
    {
        draws.push(random_in_range(0, 36));
        i += 1;
    }
    probe_address_from(&draws, domain)
}

} // verus!
