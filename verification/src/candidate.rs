//! A candidate address on its way through verification.

use crate::models::{CandidateSource, FoundEmailData, FoundEmailDataView, Provider, VerificationStatus};
use crate::scoring::{confidence_score, confidence_spec, MAX_CONFIDENCE};
use crate::smtp::domain::{smtp_status, status_of};
use crate::smtp::result::SmtpVerificationResult;
use vstd::prelude::*;

verus! {

/// A hypothesised address awaiting verification.
///
/// Its address, source and generic flag never change. Its confidence is
/// always the score of what is known about it, and its status only ever
/// moves from unknown to confirmed.
#[derive(Debug)]
pub struct Candidate {
    /// The address.
    pub email: String,
    /// Where the address came from.
    pub source: CandidateSource,
    /// Whether the address is a role address.
    pub is_generic: bool,
    /// How likely the address is right, from 0 to 10.
    pub confidence: u8,
    /// What verification has established.
    pub verification_status: VerificationStatus,
    /// Detail about how the status was reached.
    pub verification_message: String,
    /// Whether the domain of the address accepts every local part.
    pub is_catch_all: bool,
    /// The provider whose recovery flow settled the status, if one did.
    pub confirmed_by: Option<Provider>,
}

/// The trust in the provider that settled a status, if one did.
pub open spec fn trust_of(confirmed_by: Option<Provider>) -> Option<u8> {
    match confirmed_by {
        Some(provider) => Some(provider.trust_spec()),
        None => None,
    }
}

/// The label reported for a source.
pub open spec fn source_label(source: CandidateSource) -> Seq<char> {
    match source {
        CandidateSource::ScrapedExplicit => "scraped"@,
        CandidateSource::PatternGenerated => "pattern"@,
        CandidateSource::GenericPrefix => "generic"@,
    }
}

/// Whether `after` is `before` with the result of SMTP verification taken
/// in: a status that is settled stays as it is; an unknown one becomes what
/// the result establishes.
pub open spec fn smtp_recorded(
    before: Candidate,
    result: SmtpVerificationResult,
    after: Candidate,
) -> bool {
    &&& after.well_formed()
    &&& after.same_identity(&before)
    &&& before.verification_status is Confirmed ==> after == before
    &&& before.verification_status is Unknown ==> {
        &&& after.verification_status == status_of(result@)
        &&& after.is_catch_all == result.is_catch_all
        &&& after.verification_message@ == result.message@
        &&& after.confirmed_by is None
    }
}

/// Whether `after` is `before` with what the recovery flow of `provider`
/// found taken in: a status that is settled stays as it is, and so does an
/// unknown one where the flow settled nothing; else the status becomes what
/// the flow found, and the provider is named.
pub open spec fn headless_recorded(
    before: Candidate,
    provider: Provider,
    found: Option<FoundEmailData>,
    after: Candidate,
) -> bool {
    &&& after.well_formed()
    &&& after.same_identity(&before)
    &&& after.is_catch_all == before.is_catch_all
    &&& (before.verification_status is Confirmed || found is None
        || found->0.verification_status is None) ==> after == before
    &&& (before.verification_status is Unknown && found is Some
        && found->0.verification_status is Some) ==> {
        &&& after.verification_status == VerificationStatus::Confirmed(
            found->0.verification_status->0,
        )
        &&& after.verification_message@ == found->0.verification_message@
        &&& after.confirmed_by == Some(provider)
    }
}

impl Candidate {
    /// The score of what is known about the candidate.
    pub open spec fn score_spec(&self) -> int {
        confidence_spec(
            self.source,
            self.verification_status,
            self.is_catch_all,
            self.is_generic,
            trust_of(self.confirmed_by),
        )
    }

    /// A candidate is well formed when its confidence is the score of what
    /// is known about it, and a provider is named only for a settled status.
    pub open spec fn well_formed(&self) -> bool {
        &&& self.confidence as int == self.score_spec()
        &&& self.confirmed_by is Some ==> self.verification_status is Confirmed
    }

    /// Whether `other` is the same candidate: the same address, source and
    /// generic flag.
    pub open spec fn same_identity(&self, other: &Candidate) -> bool {
        &&& self.email == other.email
        &&& self.source == other.source
        &&& self.is_generic == other.is_generic
    }

    /// The record under which the candidate is reported.
    pub open spec fn found_view(&self) -> FoundEmailDataView {
        FoundEmailDataView {
            email: self.email@,
            confidence: self.confidence as nat,
            source: match self.confirmed_by {
                Some(provider) => provider.source_label_spec(),
                None => source_label(self.source),
            },
            is_generic: self.is_generic,
            verification_status: self.verification_status.as_option(),
            verification_message: self.verification_message@,
        }
    }

    /// Says whether the candidate is well formed.
    pub fn is_well_formed(&self) -> (b: bool)
        ensures
            b == self.well_formed(),
    {
        let trust = match self.confirmed_by {
            Some(provider) => Some(provider.trust()),
            None => None,
        };
        let score = confidence_score(
            self.source,
            self.verification_status,
            self.is_catch_all,
            self.is_generic,
            trust,
        );
        let named_for_settled = match self.confirmed_by {
            Some(_) => match self.verification_status {
                VerificationStatus::Confirmed(_) => true,
                VerificationStatus::Unknown => false,
            },
            None => true,
        };
        self.confidence == score && named_for_settled
    }

    /// A candidate about which nothing is known yet: its confidence is the
    /// baseline of its source.
    pub fn new(email: String, source: CandidateSource, is_generic: bool) -> (c: Candidate)
        ensures
            c.email == email,
            c.source == source,
            c.is_generic == is_generic,
            c.verification_status == VerificationStatus::Unknown,
            c.verification_message@ == Seq::<char>::empty(),
            !c.is_catch_all,
            c.confirmed_by is None,
            c.well_formed(),
    {
        Candidate {
            email,
            source,
            is_generic,
            confidence: confidence_score(
                source,
                VerificationStatus::Unknown,
                false,
                is_generic,
                None,
            ),
            verification_status: VerificationStatus::Unknown,
            verification_message: String::new(),
            is_catch_all: false,
            confirmed_by: None,
        }
    }

    /// Takes in the result of SMTP verification. A status that is settled
    /// stays as it is; an unknown one becomes what the result establishes,
    /// and the confidence is scored anew.
    pub fn record_smtp(&mut self, result: &SmtpVerificationResult)
        requires
            old(self).well_formed(),
        ensures
            smtp_recorded(*old(self), *result, *final(self)),
    {
        match self.verification_status {
            VerificationStatus::Confirmed(_) => {},
            VerificationStatus::Unknown => {
                self.verification_status = smtp_status(result);
                self.is_catch_all = result.is_catch_all;
                self.verification_message = result.message.clone();
                self.confirmed_by = None;
                self.confidence =
                confidence_score(
                    self.source,
                    self.verification_status,
                    self.is_catch_all,
                    self.is_generic,
                    None,
                );
            },
        }
    }

    /// Takes in what the recovery flow of `provider` found. A status that is
    /// settled stays as it is, and so does an unknown one where the flow
    /// settled nothing; else the status becomes what the flow found, the
    /// provider is named, and the confidence is scored anew.
    pub fn record_headless(&mut self, provider: Provider, found: &Option<FoundEmailData>)
        requires
            old(self).well_formed(),
        ensures
            headless_recorded(*old(self), provider, *found, *final(self)),
    {
        match self.verification_status {
            VerificationStatus::Confirmed(_) => {},
            VerificationStatus::Unknown => match found {
                Some(data) => match data.verification_status {
                    Some(exists) => {
                        self.verification_status = VerificationStatus::Confirmed(exists);
                        self.verification_message = data.verification_message.clone();
                        self.confirmed_by = Some(provider);
                        self.confidence =
                        confidence_score(
                            self.source,
                            self.verification_status,
                            self.is_catch_all,
                            self.is_generic,
                            Some(provider.trust()),
                        );
                    },
                    None => {},
                },
                None => {},
            },
        }
    }

    /// The record under which the candidate is reported: labelled by the
    /// provider that settled its status, else by its source.
    pub fn to_found(&self) -> (found: FoundEmailData)
        ensures
            found@ == self.found_view(),
    {
        let label: &'static str = match self.confirmed_by {
            Some(provider) => provider.source_label(),
            None => match self.source {
                CandidateSource::ScrapedExplicit => "scraped",
                CandidateSource::PatternGenerated => "pattern",
                CandidateSource::GenericPrefix => "generic",
            },
        };
        FoundEmailData {
            email: self.email.clone(),
            confidence: self.confidence,
            source: label.to_owned(),
            is_generic: self.is_generic,
            verification_status: self.verification_status.to_option(),
            verification_message: self.verification_message.clone(),
        }
    }
}

impl Clone for Candidate {
    fn clone(&self) -> (r: Self)
        ensures
            r == *self,
    {
        Candidate {
            email: self.email.clone(),
            source: self.source,
            is_generic: self.is_generic,
            confidence: self.confidence,
            verification_status: self.verification_status,
            verification_message: self.verification_message.clone(),
            is_catch_all: self.is_catch_all,
            confirmed_by: self.confirmed_by,
        }
    }
}

/// The confidence of a well-formed candidate is never above the maximum,
/// and a candidate confirmed not to exist has confidence 0.
pub proof fn lemma_candidate_confidence(c: Candidate)
    requires
        c.well_formed(),
    ensures
        c.confidence <= MAX_CONFIDENCE,
        c.verification_status == VerificationStatus::Confirmed(false) ==> c.confidence == 0,
{
}

} // verus!
