//! The outcome of one SMTP verification attempt.

use vstd::prelude::*;

verus! {

/// Outcome of an SMTP verification attempt for one address.
#[derive(Debug)]
pub struct SmtpVerificationResult {
    /// `Some(true)`: the mailbox exists; `Some(false)`: it does not;
    /// `None`: nothing reliable was learned.
    pub exists: Option<bool>,
    /// Human-readable detail about the outcome.
    pub message: String,
    /// Whether another attempt might give a different answer.
    pub should_retry: bool,
    /// Whether the domain accepts every local part.
    pub is_catch_all: bool,
}

/// Mathematical value of an [`SmtpVerificationResult`].
pub struct SmtpVerificationResultView {
    pub exists: Option<bool>,
    pub message: Seq<char>,
    pub should_retry: bool,
    pub is_catch_all: bool,
}

impl View for SmtpVerificationResult {
    type V = SmtpVerificationResultView;

    open spec fn view(&self) -> SmtpVerificationResultView {
        SmtpVerificationResultView {
            exists: self.exists,
            message: self.message@,
            should_retry: self.should_retry,
            is_catch_all: self.is_catch_all,
        }
    }
}

impl SmtpVerificationResultView {
    /// A result is conclusive when it settles whether the mailbox exists.
    pub open spec fn is_conclusive(self) -> bool {
        self.exists is Some
    }

    /// A well-formed result never asks for a retry once it is conclusive or
    /// once the domain is known to accept everything.
    pub open spec fn well_formed(self) -> bool {
        &&& self.exists is Some ==> !self.should_retry
        &&& self.is_catch_all ==> !self.should_retry
    }
}

impl SmtpVerificationResult {
    /// A conclusive result: the mailbox definitely exists or definitely does not.
    pub fn conclusive(exists: bool, message: String, is_catch_all: bool) -> (r: Self)
        ensures
            r.exists == Some(exists),
            r.message == message,
            r.should_retry == false,
            r.is_catch_all == is_catch_all,
            r@.well_formed(),
    {
        SmtpVerificationResult { exists: Some(exists), message, should_retry: false, is_catch_all }
    }

    /// An inconclusive result where another attempt might help.
    pub fn inconclusive_retry(message: String) -> (r: Self)
        ensures
            r.exists == None::<bool>,
            r.message == message,
            r.should_retry == true,
            r.is_catch_all == false,
            r@.well_formed(),
    {
        SmtpVerificationResult { exists: None, message, should_retry: true, is_catch_all: false }
    }

    /// An inconclusive result where another attempt is unlikely to help.
    pub fn inconclusive_no_retry(message: String) -> (r: Self)
        ensures
            r.exists == None::<bool>,
            r.message == message,
            r.should_retry == false,
            r.is_catch_all == false,
            r@.well_formed(),
    {
        SmtpVerificationResult { exists: None, message, should_retry: false, is_catch_all: false }
    }

    /// The result for an address on a domain that accepts every local part:
    /// inconclusive, since acceptance says nothing about this mailbox.
    pub fn catch_all(message: String) -> (r: Self)
        ensures
            r.exists == None::<bool>,
            r.message == message,
            r.should_retry == false,
            r.is_catch_all == true,
            r@.well_formed(),
    {
        SmtpVerificationResult { exists: None, message, should_retry: false, is_catch_all: true }
    }
}

impl Clone for SmtpVerificationResult {
    fn clone(&self) -> (r: Self)
        ensures
            r == *self,
    {
        SmtpVerificationResult {
            exists: self.exists,
            message: self.message.clone(),
            should_retry: self.should_retry,
            is_catch_all: self.is_catch_all,
        }
    }
}

} // verus!
