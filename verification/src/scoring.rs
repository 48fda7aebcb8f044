//! The confidence score of a candidate.

use crate::models::{CandidateSource, VerificationStatus};
use vstd::prelude::*;

verus! {

/// The highest confidence there is.
pub const MAX_CONFIDENCE: u8 = 10;

/// Confidence of an unverified address that was found written out.
pub const BASELINE_SCRAPED: u8 = 6;

/// Confidence of an unverified address built by a name pattern.
pub const BASELINE_PATTERN: u8 = 4;

/// Confidence of an unverified role address.
pub const BASELINE_GENERIC: u8 = 3;

/// Confidence of a found address that the mail server confirmed.
pub const CONFIRMED_SCRAPED: u8 = 10;

/// Confidence of a pattern-built address that the mail server confirmed.
pub const CONFIRMED_PATTERN: u8 = 9;

/// Confidence of a role address that the mail server confirmed.
pub const CONFIRMED_GENERIC: u8 = 8;

/// The source that decides the score: a role address scores as a generic
/// prefix wherever it was found.
pub open spec fn scoring_source(source: CandidateSource, is_generic: bool) -> CandidateSource {
    if is_generic {
        CandidateSource::GenericPrefix
    } else {
        source
    }
}

/// Confidence before anything was verified.
pub open spec fn baseline_confidence(source: CandidateSource, is_generic: bool) -> int {
    match scoring_source(source, is_generic) {
        CandidateSource::ScrapedExplicit => BASELINE_SCRAPED as int,
        CandidateSource::PatternGenerated => BASELINE_PATTERN as int,
        CandidateSource::GenericPrefix => BASELINE_GENERIC as int,
    }
}

/// Confidence once the mail server has confirmed the mailbox.
pub open spec fn confirmed_confidence(source: CandidateSource, is_generic: bool) -> int {
    match scoring_source(source, is_generic) {
        CandidateSource::ScrapedExplicit => CONFIRMED_SCRAPED as int,
        CandidateSource::PatternGenerated => CONFIRMED_PATTERN as int,
        CandidateSource::GenericPrefix => CONFIRMED_GENERIC as int,
    }
}

/// Confidence once a provider's recovery flow has confirmed the mailbox:
/// the baseline raised to the trust put in that provider, never above the
/// maximum.
pub open spec fn headless_confidence(
    source: CandidateSource,
    is_generic: bool,
    trust: int,
) -> int {
    let base = baseline_confidence(source, is_generic);
    let capped = if trust > MAX_CONFIDENCE as int {
        MAX_CONFIDENCE as int
    } else {
        trust
    };
    if capped > base {
        capped
    } else {
        base
    }
}

/// The confidence of a candidate.
///
/// In order of priority: a mailbox confirmed to exist on a domain that is
/// not catch-all scores in the confirmed band of its source, or, where a
/// provider's recovery flow gave the confirmation (`headless_trust` is
/// `Some`), its baseline raised to the trust in that provider; a mailbox
/// confirmed not to exist scores 0; anything else keeps the baseline of its
/// source, since nothing that tells candidates apart was learned.
pub open spec fn confidence_spec(
    source: CandidateSource,
    status: VerificationStatus,
    is_catch_all: bool,
    is_generic: bool,
    headless_trust: Option<u8>,
) -> int {
    if status == VerificationStatus::Confirmed(true) && !is_catch_all {
        match headless_trust {
            Some(trust) => headless_confidence(source, is_generic, trust as int),
            None => confirmed_confidence(source, is_generic),
        }
    } else if status == VerificationStatus::Confirmed(false) {
        0
    } else {
        baseline_confidence(source, is_generic)
    }
}

/// Computes the confidence of a candidate from its source, what verification
/// established, whether its domain is catch-all, whether it is a role address
/// and, where a provider's recovery flow confirmed it, the trust in that
/// provider.
pub fn confidence_score(
    source: CandidateSource,
    status: VerificationStatus,
    is_catch_all: bool,
    is_generic: bool,
    headless_trust: Option<u8>,
) -> (score: u8)
    ensures
        score as int == confidence_spec(source, status, is_catch_all, is_generic, headless_trust),
        score <= MAX_CONFIDENCE,
{
    let effective = if is_generic {
        CandidateSource::GenericPrefix
    } else {
        source
    };
    let baseline: u8 = match effective {
        CandidateSource::ScrapedExplicit => BASELINE_SCRAPED,
        CandidateSource::PatternGenerated => BASELINE_PATTERN,
        CandidateSource::GenericPrefix => BASELINE_GENERIC,
    };
    match status {
        VerificationStatus::Confirmed(true) => {
            if is_catch_all {
                baseline
            } else {
                match headless_trust {
                    Some(trust) => {
                        let capped: u8 = if trust > MAX_CONFIDENCE {
                            MAX_CONFIDENCE
                        } else {
                            trust
                        };
                        if capped > baseline {
                            capped
                        } else {
                            baseline
                        }
                    },
                    None => match effective {
                        CandidateSource::ScrapedExplicit => CONFIRMED_SCRAPED,
                        CandidateSource::PatternGenerated => CONFIRMED_PATTERN,
                        CandidateSource::GenericPrefix => CONFIRMED_GENERIC,
                    },
                }
            }
        },
        VerificationStatus::Confirmed(false) => 0,
        VerificationStatus::Unknown => baseline,
    }
}

/// The score never leaves the range from 0 to the maximum.
pub proof fn lemma_confidence_in_range(
    source: CandidateSource,
    status: VerificationStatus,
    is_catch_all: bool,
    is_generic: bool,
    headless_trust: Option<u8>,
)
    ensures
        0 <= confidence_spec(source, status, is_catch_all, is_generic, headless_trust)
            <= MAX_CONFIDENCE as int,
{
}

/// A mailbox confirmed not to exist scores 0, whatever else is known.
pub proof fn lemma_rejected_scores_zero(
    source: CandidateSource,
    is_catch_all: bool,
    is_generic: bool,
    headless_trust: Option<u8>,
)
    ensures
        confidence_spec(
            source,
            VerificationStatus::Confirmed(false),
            is_catch_all,
            is_generic,
            headless_trust,
        ) == 0,
{
}

/// Unless the mailbox was confirmed not to exist, verification never lowers
/// the score below the baseline of the source.
pub proof fn lemma_score_never_below_baseline(
    source: CandidateSource,
    status: VerificationStatus,
    is_catch_all: bool,
    is_generic: bool,
    headless_trust: Option<u8>,
)
    requires
        status != VerificationStatus::Confirmed(false),
    ensures
        confidence_spec(source, status, is_catch_all, is_generic, headless_trust)
            >= baseline_confidence(source, is_generic),
{
}

/// On a catch-all domain, and while nothing is known, the score is the
/// baseline of the source.
pub proof fn lemma_uninformative_keeps_baseline(
    source: CandidateSource,
    status: VerificationStatus,
    is_catch_all: bool,
    is_generic: bool,
    headless_trust: Option<u8>,
)
    requires
        status == VerificationStatus::Unknown || (is_catch_all && status
            != VerificationStatus::Confirmed(false)),
    ensures
        confidence_spec(source, status, is_catch_all, is_generic, headless_trust)
            == baseline_confidence(source, is_generic),
{
}

/// Among confirmed mailboxes, a found address scores highest and a role
/// address lowest; the same holds of the baselines.
pub proof fn lemma_source_order()
    ensures
        confirmed_confidence(CandidateSource::ScrapedExplicit, false) > confirmed_confidence(
            CandidateSource::PatternGenerated,
            false,
        ),
        confirmed_confidence(CandidateSource::PatternGenerated, false) > confirmed_confidence(
            CandidateSource::GenericPrefix,
            false,
        ),
        baseline_confidence(CandidateSource::ScrapedExplicit, false) > baseline_confidence(
            CandidateSource::PatternGenerated,
            false,
        ),
        baseline_confidence(CandidateSource::PatternGenerated, false) > baseline_confidence(
            CandidateSource::GenericPrefix,
            false,
        ),
{
}

} // verus!
