use apub_engine::error::FederationError;
use apub_engine::uri::Uri;

#[test]
fn parse_keeps_the_canonical_text() {
    let uri = Uri::parse("https://example.com/u/alice").unwrap();
    assert_eq!(uri.as_str(), "https://example.com/u/alice");
}

#[test]
fn parse_writes_the_canonical_form() {
    let uri = Uri::parse("HTTPS://EXAMPLE.com").unwrap();
    assert_eq!(uri.as_str(), "https://example.com/");
    assert_eq!(uri.domain().as_deref(), Some("example.com"));
}

#[test]
fn parse_reads_domain_host_and_port() {
    let uri = Uri::parse("https://sub.example.com:8540/c/main").unwrap();
    assert_eq!(uri.domain().as_deref(), Some("sub.example.com"));
    assert_eq!(uri.host().as_deref(), Some("sub.example.com"));
    assert_eq!(uri.port(), Some(8540));
}

#[test]
fn default_port_is_not_kept() {
    let uri = Uri::parse("https://example.com:443/").unwrap();
    assert_eq!(uri.port(), None);
    assert_eq!(uri.as_str(), "https://example.com/");
}

#[test]
fn an_address_is_a_host_and_no_domain() {
    let uri = Uri::parse("https://127.0.0.1/index.html").unwrap();
    assert_eq!(uri.domain().as_deref(), None);
    assert_eq!(uri.host().as_deref(), Some("127.0.0.1"));
}

#[test]
fn a_url_without_host_has_neither() {
    let uri = Uri::parse("mailto:rms@example.net").unwrap();
    assert_eq!(uri.domain().as_deref(), None);
    assert_eq!(uri.host().as_deref(), None);
}

#[test]
fn a_relative_text_is_malformed() {
    assert!(matches!(Uri::parse("/just/a/path"), Err(FederationError::MalformedUrl)));
    assert!(matches!(Uri::parse(""), Err(FederationError::MalformedUrl)));
    assert!(matches!(Uri::parse("not a url"), Err(FederationError::MalformedUrl)));
}

#[test]
fn same_as_goes_by_the_text() {
    let a = Uri::parse("https://example.com/abc").unwrap();
    let b = Uri::parse("https://example.com/abc").unwrap();
    let c = Uri::parse("https://example.com/123").unwrap();
    assert!(a.same_as(&b));
    assert!(!a.same_as(&c));
    assert_eq!(a, b);
    assert_ne!(a, c);
}

#[test]
fn same_domain_as_goes_by_the_domain() {
    let a = Uri::parse("https://example.com/abc").unwrap();
    let b = Uri::parse("https://example.com/123").unwrap();
    let c = Uri::parse("https://sample.net/abc").unwrap();
    assert!(a.same_domain_as(&b));
    assert!(!a.same_domain_as(&c));
}

#[test]
fn two_addresses_have_the_same_missing_domain() {
    let a = Uri::parse("https://127.0.0.1/a").unwrap();
    let b = Uri::parse("https://10.0.0.1/b").unwrap();
    assert!(a.same_domain_as(&b));
}

#[test]
fn clone_keeps_every_part() {
    let a = Uri::parse("https://example.com:8080/abc").unwrap();
    let b = a.clone();
    assert_eq!(a.as_str(), b.as_str());
    assert_eq!(a.domain(), b.domain());
    assert_eq!(a.host(), b.host());
    assert_eq!(a.port(), b.port());
}

#[test]
fn same_host_as_needs_a_host_on_both_sides() {
    let a = Uri::parse("https://example.com/abc").unwrap();
    let b = Uri::parse("http://example.com:8080/123").unwrap();
    let c = Uri::parse("https://sample.net/abc").unwrap();
    assert!(a.same_host_as(&b));
    assert!(!a.same_host_as(&c));
    let first = Uri::parse("http://10.0.0.1/u/x").unwrap();
    let second = Uri::parse("http://10.0.0.2/c/y").unwrap();
    let again = Uri::parse("http://10.0.0.1/c/y").unwrap();
    assert!(!first.same_host_as(&second));
    assert!(first.same_host_as(&again));
    let mail = Uri::parse("mailto:rms@example.net").unwrap();
    let other_mail = Uri::parse("mailto:rms@example.net").unwrap();
    assert!(!mail.same_host_as(&other_mail));
    assert!(!mail.same_host_as(&a));
    assert!(!a.same_host_as(&mail));
}
