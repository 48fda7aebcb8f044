//! The settings of a run, their defaults, and the pause between requests.

use crate::error::AppError;
use crate::scoring::MAX_CONFIDENCE;
use crate::text::{find_last_at_sign, has_at_sign, text_bytes, texts};
use rand::Rng;
use vstd::prelude::*;

verus! {

/// Settings that the engine runs with. Timeouts are in whole seconds, the
/// pause between requests in milliseconds.
#[derive(Debug)]
pub struct Config {
    /// How long an HTTP request may take, in seconds.
    pub request_timeout: u64,
    /// The least and the largest pause between requests, in milliseconds.
    pub sleep_between_requests: (u64, u64),
    /// The user agent sent with HTTP requests.
    pub user_agent: String,
    /// How long a DNS query may take, in seconds.
    pub dns_timeout: u64,
    /// The DNS servers to ask.
    pub dns_servers: Vec<String>,
    /// How long an SMTP command may take, in seconds.
    pub smtp_timeout: u64,
    /// The sender address named in `MAIL FROM`.
    pub smtp_sender_email: String,
    /// How often a mail exchanger is probed before the next one is tried.
    pub max_verification_attempts: u32,
    /// The paths that are scraped on a site.
    pub common_pages_to_scrape: Vec<String>,
    /// The pattern by which addresses are found in a page.
    pub email_regex: String,
    /// The local parts that mark a role address.
    pub generic_email_prefixes: Vec<String>,
    /// The least confidence with which a personal address is reported.
    pub confidence_threshold: u8,
    /// The least confidence with which a role address is reported.
    pub generic_confidence_threshold: u8,
    /// How many candidates are kept per person.
    pub max_alternatives: usize,
    /// How many verifications run at once.
    pub max_concurrency: usize,
    /// Whether third-party API checks are switched on.
    pub enable_api_checks: bool,
    /// Whether headless checks are switched on.
    pub enable_headless_checks: bool,
    /// The address of the browser-automation endpoint.
    pub webdriver_url: Option<String>,
    /// Where the browser driver is installed.
    pub chromedriver_path: Option<String>,
    /// The confidence at which the search for a person stops early.
    pub early_termination_threshold: u8,
    /// The file the settings were loaded from.
    pub loaded_config_path: Option<String>,
}

/// The texts of a list of string literals.
pub open spec fn literal_texts(list: Seq<&'static str>) -> Seq<Seq<char>> {
    Seq::new(list.len(), |i: int| list[i]@)
}

/// The text of an optional string.
pub open spec fn optional_text(text: Option<String>) -> Option<Seq<char>> {
    match text {
        Some(t) => Some(t@),
        None => None,
    }
}

/// The paths scraped by default.
pub open spec fn default_common_pages() -> Seq<Seq<char>> {
    seq![
        "/contact"@,
        "/contact-us"@,
        "/contactus"@,
        "/contact_us"@,
        "/about"@,
        "/about-us"@,
        "/aboutus"@,
        "/about_us"@,
        "/team"@,
        "/our-team"@,
        "/our_team"@,
        "/meet-the-team"@,
        "/people"@,
        "/staff"@,
        "/company"@,
    ]
}

/// The local parts that mark a role address by default.
pub open spec fn default_generic_prefixes() -> Seq<Seq<char>> {
    seq![
        "info"@,
        "contact"@,
        "hello"@,
        "help"@,
        "support"@,
        "admin"@,
        "office"@,
        "sales"@,
        "press"@,
        "media"@,
        "marketing"@,
        "jobs"@,
        "careers"@,
        "hiring"@,
        "privacy"@,
        "security"@,
        "legal"@,
        "membership"@,
        "team"@,
        "people"@,
        "general"@,
        "feedback"@,
        "enquiries"@,
        "inquiries"@,
        "mail"@,
        "email"@,
        "pitch"@,
        "invest"@,
        "investors"@,
        "ir"@,
        "webmaster"@,
        "newsletter"@,
        "apply"@,
        "partner"@,
        "partners"@,
        "ventures"@,
    ]
}

/// The DNS servers asked by default.
pub open spec fn default_dns_servers() -> Seq<Seq<char>> {
    seq!["8.8.8.8"@, "8.8.4.4"@, "1.1.1.1"@, "1.0.0.1"@]
}

/// The pattern by which addresses are found by default.
pub open spec fn default_email_pattern() -> Seq<char> {
    "\\b[A-Za-z0-9._%+-]+@[A-Za-z0-9.-]+\\.[A-Z|a-z]{2,}\\b"@
}

/// Mathematical value of a [`Config`].
pub struct ConfigView {
    pub request_timeout: nat,
    pub sleep_between_requests: (nat, nat),
    pub user_agent: Seq<char>,
    pub dns_timeout: nat,
    pub dns_servers: Seq<Seq<char>>,
    pub smtp_timeout: nat,
    pub smtp_sender_email: Seq<char>,
    pub max_verification_attempts: nat,
    pub common_pages_to_scrape: Seq<Seq<char>>,
    pub email_regex: Seq<char>,
    pub generic_email_prefixes: Seq<Seq<char>>,
    pub confidence_threshold: nat,
    pub generic_confidence_threshold: nat,
    pub max_alternatives: nat,
    pub max_concurrency: nat,
    pub enable_api_checks: bool,
    pub enable_headless_checks: bool,
    pub webdriver_url: Option<Seq<char>>,
    pub chromedriver_path: Option<Seq<char>>,
    pub early_termination_threshold: nat,
    pub loaded_config_path: Option<Seq<char>>,
}

impl View for Config {
    type V = ConfigView;

    open spec fn view(&self) -> ConfigView {
        ConfigView {
            request_timeout: self.request_timeout as nat,
            sleep_between_requests: (
                self.sleep_between_requests.0 as nat,
                self.sleep_between_requests.1 as nat,
            ),
            user_agent: self.user_agent@,
            dns_timeout: self.dns_timeout as nat,
            dns_servers: texts(self.dns_servers@),
            smtp_timeout: self.smtp_timeout as nat,
            smtp_sender_email: self.smtp_sender_email@,
            max_verification_attempts: self.max_verification_attempts as nat,
            common_pages_to_scrape: texts(self.common_pages_to_scrape@),
            email_regex: self.email_regex@,
            generic_email_prefixes: texts(self.generic_email_prefixes@),
            confidence_threshold: self.confidence_threshold as nat,
            generic_confidence_threshold: self.generic_confidence_threshold as nat,
            max_alternatives: self.max_alternatives as nat,
            max_concurrency: self.max_concurrency as nat,
            enable_api_checks: self.enable_api_checks,
            enable_headless_checks: self.enable_headless_checks,
            webdriver_url: optional_text(self.webdriver_url),
            chromedriver_path: optional_text(self.chromedriver_path),
            early_termination_threshold: self.early_termination_threshold as nat,
            loaded_config_path: optional_text(self.loaded_config_path),
        }
    }
}

/// The settings a run has where nothing says otherwise, given the number
/// of threads the machine can run at once.
pub open spec fn default_view(available_parallelism: nat) -> ConfigView {
    ConfigView {
        request_timeout: 10,
        sleep_between_requests: (100, 500),
        user_agent: "email-sleuth-core/0.1.0"@,
        dns_timeout: 5,
        dns_servers: default_dns_servers(),
        smtp_timeout: 5,
        smtp_sender_email: "verify-probe@example.com"@,
        max_verification_attempts: 2,
        common_pages_to_scrape: default_common_pages(),
        email_regex: default_email_pattern(),
        generic_email_prefixes: default_generic_prefixes(),
        confidence_threshold: 4,
        generic_confidence_threshold: 7,
        max_alternatives: 5,
        max_concurrency: if available_parallelism < 1 {
            1
        } else {
            available_parallelism
        },
        enable_api_checks: false,
        enable_headless_checks: false,
        webdriver_url: None,
        chromedriver_path: None,
        early_termination_threshold: 9,
        loaded_config_path: None,
    }
}

impl ConfigView {
    /// Settings are valid when every threshold is a confidence, at least one
    /// verification may run at a time, each mail exchanger is probed at least
    /// once, the least pause is not above the largest, the probe sender is an
    /// address, and no role prefix occurs twice.
    pub open spec fn valid(self) -> bool {
        &&& self.confidence_threshold <= MAX_CONFIDENCE
        &&& self.generic_confidence_threshold <= MAX_CONFIDENCE
        &&& self.early_termination_threshold <= MAX_CONFIDENCE
        &&& self.max_concurrency >= 1
        &&& self.max_verification_attempts >= 1
        &&& self.sleep_between_requests.0 <= self.sleep_between_requests.1
        &&& has_at_sign(text_bytes(self.smtp_sender_email))
        &&& self.generic_email_prefixes.no_duplicates()
    }
}

/// Copies a list of string literals into owned strings.
pub fn owned_list(items: &Vec<&'static str>) -> (list: Vec<String>)
    ensures
        texts(list@) == literal_texts(items@),
{
    let mut list: Vec<String> = Vec::new();
    let mut i: usize = 0;
    while i < items.len()
        invariant
            i <= items.len(),
            list@.len() == i,
            forall|k: int| 0 <= k < i ==> (#[trigger] list@[k])@ == items@[k]@,
        decreases items.len() - i,
    {
        list.push(items[i].to_owned());
        i += 1;
    }
    proof {
        assert(texts(list@) =~= literal_texts(items@));
    }
    list
}

/// Copies a list of strings.
pub fn clone_list(items: &Vec<String>) -> (list: Vec<String>)
    ensures
        list@ == items@,
{
    let mut list: Vec<String> = Vec::new();
    let mut i: usize = 0;
    while i < items.len()
        invariant
            i <= items.len(),
            list@.len() == i,
            forall|k: int| 0 <= k < i ==> list@[k] == items@[k],
        decreases items.len() - i,
    {
        list.push(items[i].clone());
        i += 1;
    }
    proof {
        assert(list@ =~= items@);
    }
    list
}

/// Says whether no string of a list occurs twice in it.
pub fn has_no_repeats(list: &Vec<String>) -> (b: bool)
    ensures
        b == texts(list@).no_duplicates(),
{
    let mut i: usize = 0;
    while i < list.len()
        invariant
            i <= list.len(),
            forall|a: int, c: int|
                0 <= a < i && 0 <= c < list@.len() && a != c ==> texts(list@)[a] != texts(
                    list@,
                )[c],
        decreases list.len() - i,
    {
        let mut j: usize = i + 1;
        while j < list.len()
            invariant
                i < j <= list.len(),
                forall|c: int| i < c < j ==> texts(list@)[i as int] != texts(list@)[c],
            decreases list.len() - j,
        {
            if list[i] == list[j] {
                proof {
                    assert(texts(list@)[i as int] == texts(list@)[j as int]);
                }
                return false;
            }
            j += 1;
        }
        i += 1;
    }
    true
}

/// Copies an optional string.
pub fn clone_optional(text: &Option<String>) -> (copy: Option<String>)
    ensures
        copy == *text,
{
    match text {
        Some(t) => Some(t.clone()),
        None => None,
    }
}

impl Config {
    /// The default settings, given the number of threads the machine can run
    /// at once: that many verifications run concurrently, and at least one.
    pub fn build_default(available_parallelism: usize) -> (config: Config)
        ensures
            config@ == default_view(available_parallelism as nat),
            config@.valid(),
    {
        let pages: Vec<&'static str> = vec![
            "/contact",
            "/contact-us",
            "/contactus",
            "/contact_us",
            "/about",
            "/about-us",
            "/aboutus",
            "/about_us",
            "/team",
            "/our-team",
            "/our_team",
            "/meet-the-team",
            "/people",
            "/staff",
            "/company",
        ];
        let prefixes: Vec<&'static str> = vec![
            "info",
            "contact",
            "hello",
            "help",
            "support",
            "admin",
            "office",
            "sales",
            "press",
            "media",
            "marketing",
            "jobs",
            "careers",
            "hiring",
            "privacy",
            "security",
            "legal",
            "membership",
            "team",
            "people",
            "general",
            "feedback",
            "enquiries",
            "inquiries",
            "mail",
            "email",
            "pitch",
            "invest",
            "investors",
            "ir",
            "webmaster",
            "newsletter",
            "apply",
            "partner",
            "partners",
            "ventures",
        ];
        let servers: Vec<&'static str> = vec!["8.8.8.8", "8.8.4.4", "1.1.1.1", "1.0.0.1"];
        proof {
            assert(literal_texts(pages@) =~= default_common_pages());
            assert(literal_texts(prefixes@) =~= default_generic_prefixes());
            assert(literal_texts(servers@) =~= default_dns_servers());
        }
        let sender = "verify-probe@example.com";
        proof {
            lemma_default_sender_is_an_address();
            lemma_default_prefixes_are_distinct();
        }
        let config = Config {
            request_timeout: 10,
            sleep_between_requests: (100, 500),
            user_agent: "email-sleuth-core/0.1.0".to_owned(),
            dns_timeout: 5,
            dns_servers: owned_list(&servers),
            smtp_timeout: 5,
            smtp_sender_email: sender.to_owned(),
            max_verification_attempts: 2,
            common_pages_to_scrape: owned_list(&pages),
            email_regex: "\\b[A-Za-z0-9._%+-]+@[A-Za-z0-9.-]+\\.[A-Z|a-z]{2,}\\b".to_owned(),
            generic_email_prefixes: owned_list(&prefixes),
            confidence_threshold: 4,
            generic_confidence_threshold: 7,
            max_alternatives: 5,
            max_concurrency: if available_parallelism < 1 {
                1
            } else {
                available_parallelism
            },
            enable_api_checks: false,
            enable_headless_checks: false,
            webdriver_url: None,
            chromedriver_path: None,
            early_termination_threshold: 9,
            loaded_config_path: None,
        };
        config
    }

    /// Checks the settings before a run starts. An error here is fatal: no
    /// verification is started with settings that are not valid.
    pub fn validate(&self) -> (r: Result<(), AppError>)
        ensures
            r is Ok <==> self@.valid(),
            r is Err ==> r->Err_0 is Config,
    {
        if self.confidence_threshold > MAX_CONFIDENCE {
            return Err(AppError::Config("confidence_threshold must be at most 10".to_owned()));
        }
        if self.generic_confidence_threshold > MAX_CONFIDENCE {
            return Err(
                AppError::Config("generic_confidence_threshold must be at most 10".to_owned()),
            );
        }
        if self.early_termination_threshold > MAX_CONFIDENCE {
            return Err(
                AppError::Config("early_termination_threshold must be at most 10".to_owned()),
            );
        }
        if self.max_concurrency < 1 {
            return Err(AppError::Config("max_concurrency must be at least 1".to_owned()));
        }
        if self.max_verification_attempts < 1 {
            return Err(
                AppError::Config("max_verification_attempts must be at least 1".to_owned()),
            );
        }
        if self.sleep_between_requests.0 > self.sleep_between_requests.1 {
            return Err(AppError::Config("min_sleep must not be above max_sleep".to_owned()));
        }
        if find_last_at_sign(self.smtp_sender_email.as_str().as_bytes()).is_none() {
            return Err(AppError::Config("smtp_sender_email must be an address".to_owned()));
        }
        if !has_no_repeats(&self.generic_email_prefixes) {
            return Err(
                AppError::Config("generic_email_prefixes must not hold a prefix twice".to_owned()),
            );
        }
        Ok(())
    }
}

impl Clone for Config {
    fn clone(&self) -> (r: Self)
        ensures
            r@ == self@,
    {
        Config {
            request_timeout: self.request_timeout,
            sleep_between_requests: self.sleep_between_requests,
            user_agent: self.user_agent.clone(),
            dns_timeout: self.dns_timeout,
            dns_servers: clone_list(&self.dns_servers),
            smtp_timeout: self.smtp_timeout,
            smtp_sender_email: self.smtp_sender_email.clone(),
            max_verification_attempts: self.max_verification_attempts,
            common_pages_to_scrape: clone_list(&self.common_pages_to_scrape),
            email_regex: self.email_regex.clone(),
            generic_email_prefixes: clone_list(&self.generic_email_prefixes),
            confidence_threshold: self.confidence_threshold,
            generic_confidence_threshold: self.generic_confidence_threshold,
            max_alternatives: self.max_alternatives,
            max_concurrency: self.max_concurrency,
            enable_api_checks: self.enable_api_checks,
            enable_headless_checks: self.enable_headless_checks,
            webdriver_url: clone_optional(&self.webdriver_url),
            chromedriver_path: clone_optional(&self.chromedriver_path),
            early_termination_threshold: self.early_termination_threshold,
            loaded_config_path: clone_optional(&self.loaded_config_path),
        }
    }
}

/// The default probe sender holds an `@`.
pub proof fn lemma_default_sender_is_an_address()
    ensures
        has_at_sign(text_bytes("verify-probe@example.com"@)),
{
    reveal_strlit("verify-probe@example.com");
    let text = "verify-probe@example.com"@;
    assert(vstd::utf8::is_ascii_chars(text));
    vstd::utf8::is_ascii_chars_encode_utf8(text);
    assert(text[12] == '@');
    assert(text_bytes(text)[12] == 64u8);
}

/// No role prefix occurs twice among the defaults.
pub proof fn lemma_default_prefixes_are_distinct()
    ensures
        default_generic_prefixes().no_duplicates(),
{
    reveal_strlit("info");
    reveal_strlit("contact");
    reveal_strlit("hello");
    reveal_strlit("help");
    reveal_strlit("support");
    reveal_strlit("admin");
    reveal_strlit("office");
    reveal_strlit("sales");
    reveal_strlit("press");
    reveal_strlit("media");
    reveal_strlit("marketing");
    reveal_strlit("jobs");
    reveal_strlit("careers");
    reveal_strlit("hiring");
    reveal_strlit("privacy");
    reveal_strlit("security");
    reveal_strlit("legal");
    reveal_strlit("membership");
    reveal_strlit("team");
    reveal_strlit("people");
    reveal_strlit("general");
    reveal_strlit("feedback");
    reveal_strlit("enquiries");
    reveal_strlit("inquiries");
    reveal_strlit("mail");
    reveal_strlit("email");
    reveal_strlit("pitch");
    reveal_strlit("invest");
    reveal_strlit("investors");
    reveal_strlit("ir");
    reveal_strlit("webmaster");
    reveal_strlit("newsletter");
    reveal_strlit("apply");
    reveal_strlit("partner");
    reveal_strlit("partners");
    reveal_strlit("ventures");
    let list = default_generic_prefixes();
    assert forall|i: int, j: int| 0 <= i < list.len() && 0 <= j < list.len() && i != j implies list[i]
        != list[j] by {
        let a = list[i];
        let b = list[j];
        if a.len() == b.len() && a[0] == b[0] && a[1] == b[1] {
            assert(a[2] != b[2]);
        }
    }
}

/// Draws a number from `low` up to, and not including, `high`.
///
/// Calls `rand::Rng::gen_range` on the generator of `rand::thread_rng`, with
/// the range `low..high`. That call panics on an empty range, which the
/// precondition leaves out; of what it returns, only that it lies in the
/// range is stated. The generator is seeded from the operating system when
/// a thread first uses it and again after it has handed out a fixed amount
/// of output; it panics if that source cannot be read.
#[verifier::external_body]
pub(crate) fn random_in_range(low: u64, high: u64) -> (r: u64)
    requires
        low < high,
    ensures
        low <= r < high,
{
    rand::thread_rng().gen_range(low..high)
}

/// The pause, in milliseconds, to make before the next request: the least
/// pause where the settings leave no room above it, else a random pause from
/// the least up to, and not including, the largest.
pub fn get_random_sleep_duration(config: &Config) -> (pause: u64)
    ensures
        config.sleep_between_requests.0 >= config.sleep_between_requests.1 ==> pause
            == config.sleep_between_requests.0,
        config.sleep_between_requests.0 < config.sleep_between_requests.1
            ==> config.sleep_between_requests.0 <= pause < config.sleep_between_requests.1,
{
    let (min, max) = config.sleep_between_requests;
    if min >= max {
        return min;
    }
    random_in_range(min, max)
}

} // verus!
