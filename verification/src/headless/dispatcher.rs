//! Choosing the provider, if any, whose recovery flow can check an address.

use crate::error::AppError;
use crate::models::{FoundEmailData, Provider};
use crate::text::{
    address_domain, domain_of, ends_with_ignoring_case, ends_with_phrase, text_bytes, DOT,
};
use vstd::prelude::*;
use vstd::string::StringSliceAdditionalSpecFns;

verus! {

/// Why no recovery flow is run for an address.
#[derive(Debug, Clone, Copy, PartialEq, Eq, Structural)]
pub enum SkipReason {
    /// Headless checks are switched off in the configuration.
    Disabled,
    /// No browser-automation endpoint is configured.
    NoEndpoint,
    /// The endpoint failed to connect earlier in this run.
    EndpointDown,
    /// The address has no domain.
    NoDomain,
    /// No provider is registered for the domain of the address.
    NoProvider,
    /// The status of the candidate is settled: there is nothing to check.
    Settled,
}

/// What to do about an address.
#[derive(Debug, Clone, Copy, PartialEq, Eq, Structural)]
pub enum Dispatch {
    /// Run the recovery flow of this provider.
    Run(Provider),
    /// Run nothing.
    Skip(SkipReason),
}

impl SkipReason {
    /// Whether the reason says that a headless check does not apply, as
    /// opposed to one that was given up: only a check that applies and is not
    /// run counts as an attempt that was lost.
    pub open spec fn is_not_applicable(self) -> bool {
        self != SkipReason::EndpointDown && self != SkipReason::Settled
    }
}

/// Whether a registered name covers a domain: the domain ends with the name,
/// ASCII case set aside, and the name is the whole domain or follows a dot.
pub open spec fn name_covers(name: Seq<u8>, domain: Seq<u8>) -> bool {
    &&& ends_with_ignoring_case(domain, name)
    &&& (domain.len() == name.len() || domain[domain.len() - name.len() - 1] == DOT)
}

/// The names registered for a provider.
pub open spec fn registered_names(provider: Provider) -> Seq<Seq<u8>> {
    match provider {
        Provider::Microsoft => seq![
            "hotmail.com".spec_bytes(),
            "outlook.com".spec_bytes(),
            "live.com".spec_bytes(),
            "msn.com".spec_bytes(),
        ],
        Provider::Yahoo => seq![
            "yahoo.com".spec_bytes(),
            "ymail.com".spec_bytes(),
            "rocketmail.com".spec_bytes(),
        ],
    }
}

/// Whether one of the names registered for `provider` covers `domain`.
pub open spec fn provider_covers(provider: Provider, domain: Seq<u8>) -> bool {
    exists|i: int|
        0 <= i < registered_names(provider).len() && name_covers(
            #[trigger] registered_names(provider)[i],
            domain,
        )
}

/// The provider registered for a domain, if there is one.
pub open spec fn provider_for(domain: Seq<u8>) -> Option<Provider> {
    if provider_covers(Provider::Microsoft, domain) {
        Some(Provider::Microsoft)
    } else if provider_covers(Provider::Yahoo, domain) {
        Some(Provider::Yahoo)
    } else {
        None
    }
}

/// Says whether a registered name covers a domain.
pub fn covers(name: &[u8], domain: &[u8]) -> (r: bool)
    ensures
        r == name_covers(name@, domain@),
{
    if !ends_with_phrase(domain, name) {
        return false;
    }
    domain.len() == name.len() || domain[domain.len() - name.len() - 1] == DOT
}

/// Says whether one of the names registered for `provider` covers `domain`.
pub fn provider_handles(provider: Provider, domain: &[u8]) -> (r: bool)
    ensures
        r == provider_covers(provider, domain@),
{
    let names: Vec<&'static str> = match provider {
        Provider::Microsoft => vec!["hotmail.com", "outlook.com", "live.com", "msn.com"],
        Provider::Yahoo => vec!["yahoo.com", "ymail.com", "rocketmail.com"],
    };
    assert(names@.len() == registered_names(provider).len());
    assert(forall|i: int|
        0 <= i < names@.len() ==> (#[trigger] names@[i]).spec_bytes() == registered_names(
            provider,
        )[i]);
    let mut i: usize = 0;
    while i < names.len()
        invariant
            i <= names.len(),
            names@.len() == registered_names(provider).len(),
            forall|k: int|
                0 <= k < names@.len() ==> (#[trigger] names@[k]).spec_bytes() == registered_names(
                    provider,
                )[k],
            forall|k: int|
                0 <= k < i ==> !name_covers(#[trigger] registered_names(provider)[k], domain@),
        decreases names.len() - i,
    {
        if covers(names[i].as_bytes(), domain) {
            return true;
        }
        i += 1;
    }
    false
}

/// Finds the provider registered for a domain.
pub fn provider_for_domain(domain: &[u8]) -> (r: Option<Provider>)
    ensures
        r == provider_for(domain@),
{
    if provider_handles(Provider::Microsoft, domain) {
        Some(Provider::Microsoft)
    } else if provider_handles(Provider::Yahoo, domain) {
        Some(Provider::Yahoo)
    } else {
        None
    }
}

/// Decides, address by address, whether a recovery flow is run, and keeps
/// track of whether the one shared endpoint is still worth trying.
#[derive(Debug)]
pub struct HeadlessDispatcher {
    /// Whether headless checks are switched on.
    pub enabled: bool,
    /// The address of the browser-automation endpoint, if one is configured.
    pub endpoint: Option<String>,
    /// Whether the endpoint failed to connect earlier in this run.
    pub endpoint_failed: bool,
}

impl HeadlessDispatcher {
    /// Whether an endpoint is configured: its address is there and not empty.
    pub open spec fn has_endpoint(&self) -> bool {
        self.endpoint matches Some(url) && url@.len() > 0
    }

    /// What is done about `address`. In order: nothing while headless checks
    /// are switched off, nothing without an endpoint, nothing once the
    /// endpoint has failed, nothing for an address without a domain or with a
    /// domain that no provider is registered for; else the flow of the
    /// provider registered for the domain.
    pub open spec fn dispatch_spec(&self, address: Seq<u8>) -> Dispatch {
        if !self.enabled {
            Dispatch::Skip(SkipReason::Disabled)
        } else if !self.has_endpoint() {
            Dispatch::Skip(SkipReason::NoEndpoint)
        } else if self.endpoint_failed {
            Dispatch::Skip(SkipReason::EndpointDown)
        } else {
            match address_domain(address) {
                None => Dispatch::Skip(SkipReason::NoDomain),
                Some(domain) => match provider_for(domain) {
                    None => Dispatch::Skip(SkipReason::NoProvider),
                    Some(provider) => Dispatch::Run(provider),
                },
            }
        }
    }

    /// A dispatcher for a run that is about to start.
    pub fn new(enable_headless_checks: bool, webdriver_url: Option<String>) -> (d: Self)
        ensures
            d.enabled == enable_headless_checks,
            d.endpoint == webdriver_url,
            !d.endpoint_failed,
    {
        HeadlessDispatcher {
            enabled: enable_headless_checks,
            endpoint: webdriver_url,
            endpoint_failed: false,
        }
    }

    /// Decides what is done about `address`.
    pub fn dispatch(&self, address: &str) -> (r: Dispatch)
        ensures
            r == self.dispatch_spec(text_bytes(address@)),
    {
        if !self.enabled {
            return Dispatch::Skip(SkipReason::Disabled);
        }
        let configured = match &self.endpoint {
            Some(url) => !url.as_str().is_empty(),
            None => false,
        };
        if !configured {
            return Dispatch::Skip(SkipReason::NoEndpoint);
        }
        if self.endpoint_failed {
            return Dispatch::Skip(SkipReason::EndpointDown);
        }
        match domain_of(address.as_bytes()) {
            None => Dispatch::Skip(SkipReason::NoDomain),
            Some(domain) => match provider_for_domain(domain.as_slice()) {
                None => Dispatch::Skip(SkipReason::NoProvider),
                Some(provider) => Dispatch::Run(provider),
            },
        }
    }

    /// Takes note of how a flow ended: an endpoint that could not be
    /// connected to is given up for the rest of the run. Nothing else changes,
    /// and an endpoint once given up stays so.
    pub fn note_result(&mut self, result: &Result<Option<FoundEmailData>, AppError>)
        ensures
            final(self).enabled == old(self).enabled,
            final(self).endpoint == old(self).endpoint,
            final(self).endpoint_failed == (old(self).endpoint_failed || (result matches Err(
                AppError::WebDriverConnection(_),
            ))),
    {
        match result {
            Err(AppError::WebDriverConnection(_)) => {
                self.endpoint_failed = true;
            },
            _ => {},
        }
    }
}

/// A flow is run only while headless checks are switched on, an endpoint is
/// configured and has not failed, and then only for the provider registered
/// for the domain of the address.
pub proof fn lemma_run_only_when_applicable(d: HeadlessDispatcher, address: Seq<u8>)
    ensures
        d.dispatch_spec(address) matches Dispatch::Run(provider) ==> {
            &&& d.enabled
            &&& d.has_endpoint()
            &&& !d.endpoint_failed
            &&& address_domain(address) matches Some(domain) && provider_for(domain) == Some(
                provider,
            )
        },
{
}

/// Once the endpoint has failed, no flow is run for any address.
pub proof fn lemma_failed_endpoint_runs_nothing(d: HeadlessDispatcher, address: Seq<u8>)
    requires
        d.endpoint_failed,
    ensures
        d.dispatch_spec(address) is Skip,
{
}

} // verus!
