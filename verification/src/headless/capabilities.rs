//! The fixed, hardened set of capabilities every browser session is opened
//! with.

use vstd::prelude::*;

verus! {

/// What a browser session is asked to be.
#[derive(Debug)]
pub struct BrowserCapabilities {
    /// The browser to drive.
    pub browser_name: &'static str,
    /// The command-line switches the browser is started with.
    pub arguments: Vec<&'static str>,
}

/// The switches of a hardened session: headless, a fixed window, and
/// extensions, background traffic, sync and the like switched off.
pub open spec fn hardened_arguments() -> Seq<Seq<char>> {
    seq![
        "--headless=new"@,
        "--no-sandbox"@,
        "--disable-gpu"@,
        "--disable-dev-shm-usage"@,
        "--window-size=1024,768"@,
        "--disable-extensions"@,
        "--disable-background-networking"@,
        "--disable-sync"@,
        "--disable-translate"@,
        "--mute-audio"@,
        "--safebrowsing-disable-auto-update"@,
        "--ignore-certificate-errors"@,
        "--log-level=1"@,
    ]
}

impl BrowserCapabilities {
    /// The switches as texts.
    pub open spec fn argument_texts(&self) -> Seq<Seq<char>> {
        Seq::new(self.arguments@.len(), |i: int| self.arguments@[i]@)
    }
}

/// The capabilities that every session is opened with: Chrome, with the
/// hardened switches in their fixed order.
pub fn hardened_capabilities() -> (caps: BrowserCapabilities)
    ensures
        caps.browser_name@ == "chrome"@,
        caps.argument_texts() == hardened_arguments(),
{
    let mut arguments: Vec<&'static str> = Vec::new();
    arguments.push("--headless=new");
    arguments.push("--no-sandbox");
    arguments.push("--disable-gpu");
    arguments.push("--disable-dev-shm-usage");
    arguments.push("--window-size=1024,768");
    arguments.push("--disable-extensions");
    arguments.push("--disable-background-networking");
    arguments.push("--disable-sync");
    arguments.push("--disable-translate");
    arguments.push("--mute-audio");
    arguments.push("--safebrowsing-disable-auto-update");
    arguments.push("--ignore-certificate-errors");
    arguments.push("--log-level=1");
    let caps = BrowserCapabilities { browser_name: "chrome", arguments };
    proof {
        assert(caps.argument_texts() =~= hardened_arguments());
    }
    caps
}

} // verus!
