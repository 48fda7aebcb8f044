//! What is fixed about each provider's recovery flow: where it starts, which
//! elements are used, which indicators may show up and what each implies.

use crate::headless::selectors::{MicrosoftSelectors, YahooSelectors};
use crate::models::{FoundEmailData, FoundEmailDataView, Provider};
use fantoccini::Locator;
use vstd::prelude::*;

verus! {

/// What an outcome indicator shows.
#[derive(Debug, Clone, Copy, PartialEq, Eq, Structural)]
pub enum IndicatorKind {
    /// The provider offers ways to prove identity: the account exists.
    VerificationOptions,
    /// The provider asks for a CAPTCHA.
    Captcha,
    /// The provider says it does not know the identifier.
    NotFound,
    /// The provider says the account is locked or disabled.
    AccountDisabled,
}

/// One row of a provider's table of outcome indicators.
#[derive(Debug, Clone, Copy)]
pub struct OutcomeIndicator {
    /// The element whose appearance is the indicator.
    pub locator: Locator<'static>,
    /// What the element shows.
    pub kind: IndicatorKind,
    /// Where set, what the indicator implies for this provider in place of
    /// what its kind implies by default.
    pub polarity_override: Option<bool>,
}

/// What an indicator of the given kind implies where no row says otherwise:
/// `Some(true)` that the account exists, `Some(false)` that it does not,
/// `None` that the flow was blocked and nothing was learned.
pub open spec fn default_implication(kind: IndicatorKind) -> Option<bool> {
    match kind {
        IndicatorKind::VerificationOptions => Some(true),
        IndicatorKind::Captcha => None,
        IndicatorKind::NotFound => Some(false),
        IndicatorKind::AccountDisabled => Some(false),
    }
}

impl OutcomeIndicator {
    /// What this row implies: its override where it has one, else the
    /// default of its kind.
    pub open spec fn implies_spec(&self) -> Option<bool> {
        match self.polarity_override {
            Some(exists) => Some(exists),
            None => default_implication(self.kind),
        }
    }

    /// What the appearance of this indicator implies about the account.
    pub fn implies(&self) -> (r: Option<bool>)
        ensures
            r == self.implies_spec(),
    {
        match self.polarity_override {
            Some(exists) => Some(exists),
            None => match self.kind {
                IndicatorKind::VerificationOptions => Some(true),
                IndicatorKind::Captcha => None,
                IndicatorKind::NotFound => Some(false),
                IndicatorKind::AccountDisabled => Some(false),
            },
        }
    }
}

/// The pause, in milliseconds, that lets the page settle after each command.
pub const SETTLE_PAUSE_MS: u64 = 300;

/// How long, in seconds, an element is waited for.
pub const ELEMENT_WAIT_SECS: u64 = 15;

/// The trust put in a confirmation by Microsoft's recovery flow.
pub const MICROSOFT_TRUST: u8 = 7;

/// The trust put in a confirmation by Yahoo's recovery flow.
pub const YAHOO_TRUST: u8 = 8;

/// The table of outcome indicators of a provider, in the order in which they
/// are raced.
///
/// Microsoft's CAPTCHA blocks the flow and implies nothing. Yahoo's is
/// rendered only for accounts whose identity can be recovered: its row
/// overrides the default and implies that the account exists.
pub open spec fn indicator_table(provider: Provider) -> Seq<OutcomeIndicator> {
    match provider {
        Provider::Microsoft => seq![
            OutcomeIndicator {
                locator: Locator::Css(
                    "#hipEnforcementContainer, iframe[src*='captcha'], iframe[title*='CAPTCHA']",
                ),
                kind: IndicatorKind::Captcha,
                polarity_override: None,
            },
            OutcomeIndicator {
                locator: Locator::Id("iSelectProofTitle"),
                kind: IndicatorKind::VerificationOptions,
                polarity_override: None,
            },
            OutcomeIndicator {
                locator: Locator::Id("iEnterVerification"),
                kind: IndicatorKind::VerificationOptions,
                polarity_override: None,
            },
            OutcomeIndicator {
                locator: Locator::Id("pMemberNameErr"),
                kind: IndicatorKind::NotFound,
                polarity_override: None,
            },
            OutcomeIndicator {
                locator: Locator::Id("iSigninNameError"),
                kind: IndicatorKind::NotFound,
                polarity_override: None,
            },
        ],
        Provider::Yahoo => seq![
            OutcomeIndicator {
                locator: Locator::Css(".recaptcha-challenge"),
                kind: IndicatorKind::Captcha,
                polarity_override: Some(true),
            },
            OutcomeIndicator {
                locator: Locator::Id("email-verify-challenge"),
                kind: IndicatorKind::VerificationOptions,
                polarity_override: None,
            },
            OutcomeIndicator {
                locator: Locator::Id("challenge-selector-challenge"),
                kind: IndicatorKind::VerificationOptions,
                polarity_override: None,
            },
            OutcomeIndicator {
                locator: Locator::Css(".error-msg"),
                kind: IndicatorKind::NotFound,
                polarity_override: None,
            },
            OutcomeIndicator {
                locator: Locator::Css(".ctx-account_is_locked"),
                kind: IndicatorKind::AccountDisabled,
                polarity_override: None,
            },
        ],
    }
}

/// What the race over a provider's indicators settles: the implication of
/// the indicator that showed up first, or nothing where none showed up in
/// time or the winner is not a row of the table.
pub open spec fn race_outcome(provider: Provider, winner: Option<usize>) -> Option<bool> {
    match winner {
        Some(i) => if i < indicator_table(provider).len() {
            indicator_table(provider)[i as int].implies_spec()
        } else {
            None
        },
        None => None,
    }
}

/// The record that reports a settled flow: the address, the provider's
/// label and message, and as confidence the trust in the provider where the
/// account exists, 0 where it does not.
pub open spec fn conclusive_view(
    provider: Provider,
    email: Seq<char>,
    exists: bool,
) -> FoundEmailDataView {
    FoundEmailDataView {
        email,
        confidence: if exists {
            provider.trust_spec() as nat
        } else {
            0
        },
        source: provider.source_label_spec(),
        is_generic: false,
        verification_status: Some(exists),
        verification_message: if exists {
            provider.exists_message_spec()
        } else {
            provider.not_exists_message_spec()
        },
    }
}

impl Provider {
    /// The address of the recovery page.
    pub open spec fn recovery_url_spec(self) -> Seq<char> {
        match self {
            Provider::Microsoft => "https://account.live.com/password/reset"@,
            Provider::Yahoo => "https://login.yahoo.com/forgot"@,
        }
    }

    /// The label under which a result of this provider is reported.
    pub open spec fn source_label_spec(self) -> Seq<char> {
        match self {
            Provider::Microsoft => "headless_hotmail"@,
            Provider::Yahoo => "headless_yahoo"@,
        }
    }

    /// The trust put in a confirmation by this provider.
    pub open spec fn trust_spec(self) -> u8 {
        match self {
            Provider::Microsoft => MICROSOFT_TRUST,
            Provider::Yahoo => YAHOO_TRUST,
        }
    }

    /// How long, in seconds, the recovery page may take to load.
    pub open spec fn page_load_secs_spec(self) -> u64 {
        match self {
            Provider::Microsoft => 25,
            Provider::Yahoo => 20,
        }
    }

    /// The element that takes the identifier.
    pub open spec fn email_input_spec(self) -> Locator<'static> {
        match self {
            Provider::Microsoft => Locator::Id("iSigninName"),
            Provider::Yahoo => Locator::Css("#username"),
        }
    }

    /// The element that submits the identifier.
    pub open spec fn submit_button_spec(self) -> Locator<'static> {
        match self {
            Provider::Microsoft => Locator::Id("resetPwdHipAction"),
            Provider::Yahoo => Locator::Css("button[name='verifyYid']"),
        }
    }

    /// The message of a result that says the account exists.
    pub open spec fn exists_message_spec(self) -> Seq<char> {
        match self {
            Provider::Microsoft => "Verified via Microsoft password recovery flow (options/code shown)"@,
            Provider::Yahoo => "Verified via Yahoo password recovery flow (options/code/captcha shown)"@,
        }
    }

    /// The message of a result that says the account does not exist.
    pub open spec fn not_exists_message_spec(self) -> Seq<char> {
        match self {
            Provider::Microsoft => "Non-existent per Microsoft password recovery flow (error shown)"@,
            Provider::Yahoo => "Non-existent or disabled per Yahoo password recovery flow"@,
        }
    }

    /// The address of the recovery page.
    pub fn recovery_url(self) -> (url: &'static str)
        ensures
            url@ == self.recovery_url_spec(),
    {
        match self {
            Provider::Microsoft => "https://account.live.com/password/reset",
            Provider::Yahoo => "https://login.yahoo.com/forgot",
        }
    }

    /// The label under which a result of this provider is reported.
    pub fn source_label(self) -> (label: &'static str)
        ensures
            label@ == self.source_label_spec(),
    {
        match self {
            Provider::Microsoft => "headless_hotmail",
            Provider::Yahoo => "headless_yahoo",
        }
    }

    /// The trust put in a confirmation by this provider.
    pub fn trust(self) -> (t: u8)
        ensures
            t == self.trust_spec(),
            t <= 10,
    {
        match self {
            Provider::Microsoft => MICROSOFT_TRUST,
            Provider::Yahoo => YAHOO_TRUST,
        }
    }

    /// How long, in seconds, the recovery page may take to load.
    pub fn page_load_secs(self) -> (secs: u64)
        ensures
            secs == self.page_load_secs_spec(),
    {
        match self {
            Provider::Microsoft => 25,
            Provider::Yahoo => 20,
        }
    }

    /// The element that takes the identifier.
    pub fn email_input(self) -> (l: Locator<'static>)
        ensures
            l == self.email_input_spec(),
    {
        match self {
            Provider::Microsoft => MicrosoftSelectors::email_input(),
            Provider::Yahoo => YahooSelectors::email_input(),
        }
    }

    /// The element that submits the identifier.
    pub fn submit_button(self) -> (l: Locator<'static>)
        ensures
            l == self.submit_button_spec(),
    {
        match self {
            Provider::Microsoft => MicrosoftSelectors::submit_button(),
            Provider::Yahoo => YahooSelectors::submit_button(),
        }
    }

    /// The provider's table of outcome indicators.
    pub fn outcome_indicators(self) -> (table: Vec<OutcomeIndicator>)
        ensures
            table@ == indicator_table(self),
    {
        let mut table: Vec<OutcomeIndicator> = Vec::new();
        match self {
            Provider::Microsoft => {
                table.push(
                    OutcomeIndicator {
                        locator: MicrosoftSelectors::captcha(),
                        kind: IndicatorKind::Captcha,
                        polarity_override: None,
                    },
                );
                table.push(
                    OutcomeIndicator {
                        locator: MicrosoftSelectors::exists_verify_identity(),
                        kind: IndicatorKind::VerificationOptions,
                        polarity_override: None,
                    },
                );
                table.push(
                    OutcomeIndicator {
                        locator: MicrosoftSelectors::exists_authenticator(),
                        kind: IndicatorKind::VerificationOptions,
                        polarity_override: None,
                    },
                );
                table.push(
                    OutcomeIndicator {
                        locator: MicrosoftSelectors::not_exists_error1(),
                        kind: IndicatorKind::NotFound,
                        polarity_override: None,
                    },
                );
                table.push(
                    OutcomeIndicator {
                        locator: MicrosoftSelectors::not_exists_error2(),
                        kind: IndicatorKind::NotFound,
                        polarity_override: None,
                    },
                );
            },
            Provider::Yahoo => {
                table.push(
                    OutcomeIndicator {
                        locator: YahooSelectors::exists_recaptcha(),
                        kind: IndicatorKind::Captcha,
                        polarity_override: Some(true),
                    },
                );
                table.push(
                    OutcomeIndicator {
                        locator: YahooSelectors::exists_verification_code(),
                        kind: IndicatorKind::VerificationOptions,
                        polarity_override: None,
                    },
                );
                table.push(
                    OutcomeIndicator {
                        locator: YahooSelectors::exists_challenge_selector(),
                        kind: IndicatorKind::VerificationOptions,
                        polarity_override: None,
                    },
                );
                table.push(
                    OutcomeIndicator {
                        locator: YahooSelectors::not_exists_error(),
                        kind: IndicatorKind::NotFound,
                        polarity_override: None,
                    },
                );
                table.push(
                    OutcomeIndicator {
                        locator: YahooSelectors::account_disabled(),
                        kind: IndicatorKind::AccountDisabled,
                        polarity_override: None,
                    },
                );
            },
        }
        table
    }

    /// What the race over this provider's indicators settled, given the
    /// index of the indicator that showed up first, if any did.
    pub fn outcome_of_race(self, winner: Option<usize>) -> (outcome: Option<bool>)
        ensures
            outcome == race_outcome(self, winner),
    {
        match winner {
            Some(i) => {
                let table = self.outcome_indicators();
                if i < table.len() {
                    table[i].implies()
                } else {
                    None
                }
            },
            None => None,
        }
    }

    /// The record reported for `email` once the flow has settled whether the
    /// account exists.
    pub fn conclusive_result(self, email: &str, exists: bool) -> (found: FoundEmailData)
        ensures
            found@ == conclusive_view(self, email@, exists),
    {
        let message: &'static str = match self {
            Provider::Microsoft => if exists {
                "Verified via Microsoft password recovery flow (options/code shown)"
            } else {
                "Non-existent per Microsoft password recovery flow (error shown)"
            },
            Provider::Yahoo => if exists {
                "Verified via Yahoo password recovery flow (options/code/captcha shown)"
            } else {
                "Non-existent or disabled per Yahoo password recovery flow"
            },
        };
        FoundEmailData {
            email: email.to_owned(),
            confidence: if exists {
                self.trust()
            } else {
                0
            },
            source: self.source_label().to_owned(),
            is_generic: false,
            verification_status: Some(exists),
            verification_message: message.to_owned(),
        }
    }
}

} // verus!
