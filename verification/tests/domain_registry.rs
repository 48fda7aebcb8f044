use email_sleuth_core::smtp::domain::{DnsFailure, DomainVerificationState, ProbeClaim};
use email_sleuth_core::smtp::registry::{bytes_equal, DomainTable};
use email_sleuth_core::text::domain_of;

#[test]
fn each_domain_is_entered_once() {
    let mut table = DomainTable::new();
    assert_eq!(table.position(b"example.com"), None);
    let first = table.enter(
        domain_of(b"jane@Example.com").unwrap(),
        DomainVerificationState::resolved(vec!["mx1".to_string()]),
    );
    assert_eq!(first, 0);
    assert_eq!(table.states[first].claim(), ProbeClaim::Probe);
    let again = table.enter(
        domain_of(b"joe@EXAMPLE.COM").unwrap(),
        DomainVerificationState::unresolved(DnsFailure::NxDomain),
    );
    assert_eq!(again, 0);
    assert_eq!(table.names.len(), 1);
    assert_eq!(table.states[again].mx_hosts.len(), 1);
    assert_eq!(table.states[again].claim(), ProbeClaim::Wait);
    assert_eq!(table.states[again].probe_count, 1);
    let other =
        table.enter(b"other.org".to_vec(), DomainVerificationState::unresolved(DnsFailure::Timeout));
    assert_eq!(other, 1);
    assert_eq!(table.position(b"other.org"), Some(1));
    assert_eq!(table.position(b"example.com"), Some(0));
    assert_eq!(table.position(b"example.co"), None);
    assert_eq!(table.states[1].dns_failure, Some(DnsFailure::Timeout));
}

#[test]
fn byte_strings_compare_by_content() {
    assert!(bytes_equal(b"", b""));
    assert!(bytes_equal(b"abc", b"abc"));
    assert!(!bytes_equal(b"abc", b"abd"));
    assert!(!bytes_equal(b"abc", b"ab"));
    assert!(!bytes_equal(b"", b"a"));
}
