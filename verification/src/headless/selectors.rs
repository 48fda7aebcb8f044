//! Element locators of the providers' account-recovery pages.

use fantoccini::Locator;
use vstd::prelude::*;

verus! {

/// Makes `fantoccini::Locator` known to the verifier, variants included, so
/// that verified code can build a locator and contracts can name it exactly.
#[verifier::external_type_specification]
pub struct ExLocator<'a>(Locator<'a>);

/// Locators of the Yahoo account-recovery flow.
pub struct YahooSelectors;

impl YahooSelectors {
    /// The field that takes the account identifier.
    pub fn email_input() -> (r: Locator<'static>)
        ensures
            r == Locator::Css("#username"),
    {
        Locator::Css("#username")
    }

    /// The button that submits the identifier.
    pub fn submit_button() -> (r: Locator<'static>)
        ensures
            r == Locator::Css("button[name='verifyYid']"),
    {
        Locator::Css("button[name='verifyYid']")
    }

    /// The reCAPTCHA challenge, which Yahoo renders only for accounts whose
    /// identity can be recovered.
    pub fn exists_recaptcha() -> (r: Locator<'static>)
        ensures
            r == Locator::Css(".recaptcha-challenge"),
    {
        Locator::Css(".recaptcha-challenge")
    }

    /// The screen that asks for a verification code sent by mail.
    pub fn exists_verification_code() -> (r: Locator<'static>)
        ensures
            r == Locator::Id("email-verify-challenge"),
    {
        Locator::Id("email-verify-challenge")
    }

    /// The screen that offers a choice of recovery challenges.
    pub fn exists_challenge_selector() -> (r: Locator<'static>)
        ensures
            r == Locator::Id("challenge-selector-challenge"),
    {
        Locator::Id("challenge-selector-challenge")
    }

    /// The error shown for an identifier that Yahoo does not know.
    pub fn not_exists_error() -> (r: Locator<'static>)
        ensures
            r == Locator::Css(".error-msg"),
    {
        Locator::Css(".error-msg")
    }

    /// The notice shown for a locked or disabled account.
    pub fn account_disabled() -> (r: Locator<'static>)
        ensures
            r == Locator::Css(".ctx-account_is_locked"),
    {
        Locator::Css(".ctx-account_is_locked")
    }
}

/// Locators of the Microsoft (Outlook, Hotmail, Live) account-recovery flow.
pub struct MicrosoftSelectors;

impl MicrosoftSelectors {
    /// The field that takes the account identifier.
    pub fn email_input() -> (r: Locator<'static>)
        ensures
            r == Locator::Id("iSigninName"),
    {
        Locator::Id("iSigninName")
    }

    /// The button that submits the identifier.
    pub fn submit_button() -> (r: Locator<'static>)
        ensures
            r == Locator::Id("resetPwdHipAction"),
    {
        Locator::Id("resetPwdHipAction")
    }

    /// The screen that asks how the account's owner wants to prove identity.
    pub fn exists_verify_identity() -> (r: Locator<'static>)
        ensures
            r == Locator::Id("iSelectProofTitle"),
    {
        Locator::Id("iSelectProofTitle")
    }

    /// The screen that asks for an authenticator code.
    pub fn exists_authenticator() -> (r: Locator<'static>)
        ensures
            r == Locator::Id("iEnterVerification"),
    {
        Locator::Id("iEnterVerification")
    }

    /// The first of the two errors shown for an unknown identifier.
    pub fn not_exists_error1() -> (r: Locator<'static>)
        ensures
            r == Locator::Id("pMemberNameErr"),
    {
        Locator::Id("pMemberNameErr")
    }

    /// The second of the two errors shown for an unknown identifier.
    pub fn not_exists_error2() -> (r: Locator<'static>)
        ensures
            r == Locator::Id("iSigninNameError"),
    {
        Locator::Id("iSigninNameError")
    }

    /// The CAPTCHA that blocks the flow before any answer is given.
    pub fn captcha() -> (r: Locator<'static>)
        ensures
            r == Locator::Css(
                "#hipEnforcementContainer, iframe[src*='captcha'], iframe[title*='CAPTCHA']",
            ),
    {
        Locator::Css("#hipEnforcementContainer, iframe[src*='captcha'], iframe[title*='CAPTCHA']")
    }
}

} // verus!
