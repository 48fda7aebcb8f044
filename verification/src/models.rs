//! Plain data shared by the components of the engine.

use vstd::prelude::*;

verus! {

/// Where a candidate address came from.
#[derive(Debug, Clone, Copy, PartialEq, Eq, Structural)]
pub enum CandidateSource {
    /// The address was found written out on a page.
    ScrapedExplicit,
    /// The address was built from a name by a common pattern.
    PatternGenerated,
    /// The address is a role prefix such as `info` put before the domain.
    GenericPrefix,
}

/// What verification has established about a candidate so far.
#[derive(Debug, Clone, Copy, PartialEq, Eq, Structural)]
pub enum VerificationStatus {
    /// Nothing reliable is known.
    Unknown,
    /// The mailbox was shown to exist (`true`) or not to exist (`false`).
    Confirmed(bool),
}

/// A webmail provider whose account-recovery flow can be probed.
#[derive(Debug, Clone, Copy, PartialEq, Eq, Structural)]
pub enum Provider {
    /// Outlook, Hotmail, Live and MSN.
    Microsoft,
    /// Yahoo Mail.
    Yahoo,
}

impl VerificationStatus {
    /// The status as an optional boolean: `None` for `Unknown`.
    pub open spec fn as_option(self) -> Option<bool> {
        match self {
            VerificationStatus::Unknown => None,
            VerificationStatus::Confirmed(b) => Some(b),
        }
    }

    /// The status that an optional boolean stands for.
    pub open spec fn of_option(o: Option<bool>) -> VerificationStatus {
        match o {
            None => VerificationStatus::Unknown,
            Some(b) => VerificationStatus::Confirmed(b),
        }
    }

    /// Turns the status into an optional boolean.
    pub fn to_option(self) -> (o: Option<bool>)
        ensures
            o == self.as_option(),
    {
        match self {
            VerificationStatus::Unknown => None,
            VerificationStatus::Confirmed(b) => Some(b),
        }
    }

    /// Reads a status from an optional boolean.
    pub fn from_option(o: Option<bool>) -> (s: VerificationStatus)
        ensures
            s == Self::of_option(o),
    {
        match o {
            None => VerificationStatus::Unknown,
            Some(b) => VerificationStatus::Confirmed(b),
        }
    }
}

/// One verified or unverified address as handed to reporting.
#[derive(Debug)]
pub struct FoundEmailData {
    /// The address.
    pub email: String,
    /// How likely the address is right, from 0 to 10.
    pub confidence: u8,
    /// A label for where the address or its confirmation came from.
    pub source: String,
    /// Whether the address is a role address rather than a person's.
    pub is_generic: bool,
    /// `None` while unknown, else whether the mailbox exists.
    pub verification_status: Option<bool>,
    /// Detail about how the status was reached.
    pub verification_message: String,
}

/// Mathematical value of a [`FoundEmailData`].
pub struct FoundEmailDataView {
    pub email: Seq<char>,
    pub confidence: nat,
    pub source: Seq<char>,
    pub is_generic: bool,
    pub verification_status: Option<bool>,
    pub verification_message: Seq<char>,
}

impl View for FoundEmailData {
    type V = FoundEmailDataView;

    open spec fn view(&self) -> FoundEmailDataView {
        FoundEmailDataView {
            email: self.email@,
            confidence: self.confidence as nat,
            source: self.source@,
            is_generic: self.is_generic,
            verification_status: self.verification_status,
            verification_message: self.verification_message@,
        }
    }
}

impl Clone for FoundEmailData {
    fn clone(&self) -> (r: Self)
        ensures
            r == *self,
    {
        FoundEmailData {
            email: self.email.clone(),
            confidence: self.confidence,
            source: self.source.clone(),
            is_generic: self.is_generic,
            verification_status: self.verification_status,
            verification_message: self.verification_message.clone(),
        }
    }
}

} // verus!
