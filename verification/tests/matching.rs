//! Tests of URL preparation and rule matching.

use external_recipe::url_match::ParsedUrl;
use external_recipe::url_match::PreparedUrl;
use external_recipe::url_match::UrlMatch;

/// Decompose a URL with the `url` crate into the library's parsed form, as
/// the surrounding application does.
fn parse(input: &str) -> ParsedUrl {
    let url = url::Url::parse(input).unwrap();
    ParsedUrl {
        serialization: url.as_str().to_string(),
        scheme: url.scheme().to_string(),
        domain: url.domain().map(|d| d.to_string()),
        path: url.path().to_string(),
    }
}

fn rule(schemes: &[&str], domains: &[&str], path_regex: &str) -> UrlMatch {
    UrlMatch {
        schemes: schemes.iter().map(|s| s.to_string()).collect(),
        domains: domains.iter().map(|s| s.to_string()).collect(),
        path_regex: path_regex.to_string(),
    }
}

fn prepare(input: &str) -> Option<PreparedUrl> {
    UrlMatch::prepare_url(&parse(input))
}

#[test]
pub fn test_prepare_url_domains() {
    let url = parse("https://en.wikipedia.org");
    let prepared_url = UrlMatch::prepare_url(&url).unwrap();
    assert_eq!(
        prepared_url.domains,
        vec!["en.wikipedia.org", "wikipedia.org"]
    )
}

#[test]
fn test_prepare_url_deep_subdomain() {
    let prepared = prepare("https://a.b.example.com/x").unwrap();
    assert_eq!(
        prepared.domains,
        vec!["a.b.example.com", "b.example.com", "example.com"]
    );
    assert_eq!(prepared.scheme, "https");
    assert_eq!(prepared.path, "/x");
}

#[test]
fn test_prepare_url_single_label_domain() {
    let prepared = prepare("https://localhost/").unwrap();
    let no_domains: Vec<String> = Vec::new();
    assert_eq!(prepared.domains, no_domains);
}

#[test]
fn test_prepare_url_no_host() {
    assert!(prepare("data:text/plain,hello").is_none());
}

#[test]
fn test_prepare_url_ip_host() {
    assert!(prepare("https://127.0.0.1/r/cake").is_none());
}

#[test]
fn test_is_match_accepts_only_the_declared_shape() {
    let rule = rule(&["https"], &["example.com"], "^/r/");
    let accepts = |input: &str| -> bool {
        match prepare(input) {
            Some(prepared) => rule.is_match(&prepared),
            None => false,
        }
    };
    assert!(accepts("https://example.com/r/cake"));
    assert!(!accepts("http://example.com/r/cake"), "wrong scheme");
    assert!(!accepts("https://notexample.com/r/cake"), "non-suffix domain");
    assert!(!accepts("https://example.com/x/cake"), "path mismatch");
}

#[test]
fn test_is_match_subdomain_matches_parent_domain_rule() {
    let rule = rule(&["https"], &["example.com"], "^/r/");
    let prepared = prepare("https://shop.example.com/r/pie").unwrap();
    assert!(rule.is_match(&prepared));
}

#[test]
fn test_is_match_domain_is_not_a_substring_match() {
    let rule = rule(&["https"], &["example.com"], ".*");
    let evil = prepare("https://example.com.evil.org/r/cake").unwrap();
    assert!(!rule.is_match(&evil));
    let evil_prefix = prepare("https://evilexample.com/r/cake").unwrap();
    assert!(!rule.is_match(&evil_prefix));
}

#[test]
fn test_is_match_invalid_pattern_matches_nothing() {
    let rule = rule(&["https"], &["example.com"], "(unclosed");
    let prepared = prepare("https://example.com/r/cake").unwrap();
    assert!(!rule.is_match(&prepared));
}

#[test]
fn test_is_match_regex_is_applied_to_the_path() {
    let rule = rule(&["https"], &["example.com"], "cake$");
    assert!(rule.is_match(&prepare("https://example.com/r/cake").unwrap()));
    assert!(!rule.is_match(&prepare("https://example.com/cake/r").unwrap()));
}
