use email_sleuth_core::config::{get_random_sleep_duration, has_no_repeats, Config};
use email_sleuth_core::error::AppError;
use email_sleuth_core::text::{
    ascii_lower, contains_phrase, domain_of, ends_with_phrase, find_last_at_sign, matches_at,
};

#[test]
fn default_settings_have_their_values() {
    let c = Config::build_default(8);
    assert_eq!(c.request_timeout, 10);
    assert_eq!(c.sleep_between_requests, (100, 500));
    assert_eq!(c.user_agent, "email-sleuth-core/0.1.0");
    assert_eq!(c.dns_timeout, 5);
    assert_eq!(c.dns_servers, vec!["8.8.8.8", "8.8.4.4", "1.1.1.1", "1.0.0.1"]);
    assert_eq!(c.smtp_timeout, 5);
    assert_eq!(c.smtp_sender_email, "verify-probe@example.com");
    assert_eq!(c.max_verification_attempts, 2);
    assert_eq!(c.common_pages_to_scrape.len(), 15);
    assert_eq!(c.common_pages_to_scrape[0], "/contact");
    assert_eq!(c.common_pages_to_scrape[14], "/company");
    assert_eq!(c.email_regex, r"\b[A-Za-z0-9._%+-]+@[A-Za-z0-9.-]+\.[A-Z|a-z]{2,}\b");
    assert_eq!(c.generic_email_prefixes.len(), 36);
    assert_eq!(c.generic_email_prefixes[0], "info");
    assert_eq!(c.generic_email_prefixes[35], "ventures");
    assert_eq!(c.confidence_threshold, 4);
    assert_eq!(c.generic_confidence_threshold, 7);
    assert_eq!(c.max_alternatives, 5);
    assert_eq!(c.max_concurrency, 8);
    assert!(!c.enable_api_checks);
    assert!(!c.enable_headless_checks);
    assert_eq!(c.webdriver_url, None);
    assert_eq!(c.chromedriver_path, None);
    assert_eq!(c.early_termination_threshold, 9);
    assert_eq!(c.loaded_config_path, None);
    assert!(c.validate().is_ok());
    assert_eq!(Config::build_default(0).max_concurrency, 1);
}

#[test]
fn clone_keeps_every_setting() {
    let mut c = Config::build_default(2);
    c.webdriver_url = Some("http://localhost:4444".to_string());
    c.enable_headless_checks = true;
    let d = c.clone();
    assert_eq!(d.webdriver_url, c.webdriver_url);
    assert_eq!(d.generic_email_prefixes, c.generic_email_prefixes);
    assert_eq!(d.dns_servers, c.dns_servers);
    assert_eq!(d.max_concurrency, 2);
    assert!(d.enable_headless_checks);
}

#[test]
fn settings_that_are_not_valid_are_refused() {
    let cases: Vec<fn(&mut Config)> = vec![
        |c| c.confidence_threshold = 11,
        |c| c.generic_confidence_threshold = 11,
        |c| c.early_termination_threshold = 11,
        |c| c.max_concurrency = 0,
        |c| c.max_verification_attempts = 0,
        |c| c.sleep_between_requests = (500, 100),
        |c| c.smtp_sender_email = "nobody".to_string(),
        |c| c.generic_email_prefixes.push("info".to_string()),
    ];
    for change in cases {
        let mut c = Config::build_default(4);
        change(&mut c);
        assert!(matches!(c.validate(), Err(AppError::Config(_))));
    }
    let mut c = Config::build_default(4);
    c.confidence_threshold = 10;
    c.sleep_between_requests = (300, 300);
    assert!(c.validate().is_ok());
}

#[test]
fn role_prefixes_must_not_repeat() {
    let c = Config::build_default(1);
    assert!(has_no_repeats(&c.generic_email_prefixes));
    assert!(has_no_repeats(&Vec::new()));
    assert!(has_no_repeats(&vec!["a".to_string()]));
    assert!(has_no_repeats(&vec!["a".to_string(), "b".to_string(), "ab".to_string()]));
    assert!(!has_no_repeats(&vec!["a".to_string(), "b".to_string(), "a".to_string()]));
    assert!(!has_no_repeats(&vec!["b".to_string(), "b".to_string()]));
    let mut d = Config::build_default(1);
    d.generic_email_prefixes = vec!["info".to_string(), "sales".to_string()];
    assert!(d.validate().is_ok());
    d.generic_email_prefixes.push("sales".to_string());
    match d.validate() {
        Err(email_sleuth_core::error::AppError::Config(text)) => {
            assert_eq!(text, "generic_email_prefixes must not hold a prefix twice")
        }
        other => panic!("unexpected result {:?}", other),
    }
}

#[test]
fn pause_lies_within_the_configured_range() {
    let mut c = Config::build_default(1);
    for _ in 0..200 {
        let pause = get_random_sleep_duration(&c);
        assert!((100..500).contains(&pause));
    }
    c.sleep_between_requests = (250, 250);
    assert_eq!(get_random_sleep_duration(&c), 250);
    c.sleep_between_requests = (400, 100);
    assert_eq!(get_random_sleep_duration(&c), 400);
    c.sleep_between_requests = (0, 1);
    assert_eq!(get_random_sleep_duration(&c), 0);
    c.sleep_between_requests = (0, 1000);
    let draws: std::collections::HashSet<u64> =
        (0..50).map(|_| get_random_sleep_duration(&c)).collect();
    assert!(draws.len() > 1);
}

#[test]
fn phrases_match_without_regard_to_case() {
    assert_eq!(ascii_lower(b'A'), b'a');
    assert_eq!(ascii_lower(b'Z'), b'z');
    assert_eq!(ascii_lower(b'a'), b'a');
    assert_eq!(ascii_lower(b'@'), b'@');
    assert_eq!(ascii_lower(b'['), b'[');
    assert!(matches_at(b"Hello World", 6, b"world"));
    assert!(!matches_at(b"Hello World", 7, b"world"));
    assert!(!matches_at(b"Hello", 6, b""));
    assert!(matches_at(b"Hello", 5, b""));
    assert!(contains_phrase(b"550 User Unknown", b"user unknown"));
    assert!(contains_phrase(b"abc", b""));
    assert!(contains_phrase(b"", b""));
    assert!(!contains_phrase(b"ab", b"abc"));
    assert!(!contains_phrase(b"abcabd", b"abe"));
    assert!(contains_phrase(b"abcabd", b"ABD"));
    assert!(ends_with_phrase(b"mail.Yahoo.com", b"yahoo.COM"));
    assert!(!ends_with_phrase(b"yahoo.com.au", b"yahoo.com"));
    assert!(ends_with_phrase(b"x", b""));
    assert!(!ends_with_phrase(b"om", b"com"));
}

#[test]
fn domain_is_what_follows_the_last_at_sign() {
    assert_eq!(find_last_at_sign(b"a@b@c"), Some(3));
    assert_eq!(find_last_at_sign(b"abc"), None);
    assert_eq!(find_last_at_sign(b""), None);
    assert_eq!(find_last_at_sign(b"@"), Some(0));
    assert_eq!(domain_of(b"Jane@Example.COM"), Some(b"example.com".to_vec()));
    assert_eq!(domain_of(b"a@b@c.org"), Some(b"c.org".to_vec()));
    assert_eq!(domain_of(b"jane"), None);
    assert_eq!(domain_of(b"jane@"), None);
    assert_eq!(domain_of(b"@example.com"), None);
    assert_eq!(domain_of(b""), None);
}
