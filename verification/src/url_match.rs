//! URL classification: parsing a URL into plain parts, preparing its
//! domain-suffix chain, and matching it against per-site rules.

use vstd::prelude::*;

use crate::strutil::contains_string;
use crate::strutil::join_dots;
use crate::strutil::lemma_split_len;
use crate::strutil::spec_join;
use crate::strutil::spec_split;
use crate::strutil::split_str;

verus! {

/// Whether `url::Url::parse` accepts `s` as an absolute URL.
pub uninterp spec fn url_well_formed(s: Seq<char>) -> bool;

/// The scheme that `url::Url::scheme` returns for the URL parsed from `s`:
/// lower-cased, without the `:` delimiter.
pub uninterp spec fn url_scheme(s: Seq<char>) -> Seq<char>;

/// The domain that `url::Url::domain` returns for the URL parsed from `s`:
/// none when the URL has no host or the host is an IP address.
pub uninterp spec fn url_domain(s: Seq<char>) -> Option<Seq<char>>;

/// The path that `url::Url::path` returns for the URL parsed from `s`.
pub uninterp spec fn url_path(s: Seq<char>) -> Seq<char>;

/// The serialization that `url::Url::as_str` returns for the URL parsed from
/// `s`.
pub uninterp spec fn url_serialization(s: Seq<char>) -> Seq<char>;

/// Whether `regex::Regex::new` accepts `pattern` as a regular expression.
pub uninterp spec fn regex_valid(pattern: Seq<char>) -> bool;

/// Whether the regular expression `pattern` matches anywhere in `text`, as
/// `regex::Regex::is_match` decides; meaningful when `regex_valid(pattern)`
/// holds.
pub uninterp spec fn regex_is_match(pattern: Seq<char>, text: Seq<char>) -> bool;

/// The mathematical value of a [`ParsedUrl`].
#[verifier::ext_equal]
pub ghost struct ParsedUrlView {
    pub serialization: Seq<char>,
    pub scheme: Seq<char>,
    pub domain: Option<Seq<char>>,
    pub path: Seq<char>,
}

/// The mathematical value of a [`PreparedUrl`].
#[verifier::ext_equal]
pub ghost struct PreparedUrlView {
    pub scheme: Seq<char>,
    pub domains: Seq<Seq<char>>,
    pub path: Seq<char>,
}

/// An `Option<String>` as an optional character sequence.
pub open spec fn opt_str_view(d: Option<String>) -> Option<Seq<char>> {
    match d {
        Some(s) => Some(s@),
        None => None,
    }
}

/// A URL parsed into the plain parts this crate reads.
pub struct ParsedUrl {
    /// The whole URL as the parser serializes it.
    pub serialization: String,
    /// The scheme, lower-cased, without the `:` delimiter.
    pub scheme: String,
    /// The host when it is a domain name; none for no-host URLs and for IP
    /// hosts.
    pub domain: Option<String>,
    /// The path component.
    pub path: String,
}

impl View for ParsedUrl {
    type V = ParsedUrlView;

    open spec fn view(&self) -> ParsedUrlView {
        ParsedUrlView {
            serialization: self.serialization@,
            scheme: self.scheme@,
            domain: opt_str_view(self.domain),
            path: self.path@,
        }
    }
}

/// A URL prepared for matching against [`UrlMatch`].
pub struct PreparedUrl {
    /// The URL's scheme.
    pub scheme: String,
    /// The URL's domain-suffix chain, most-specific first: one entry for each
    /// subdomain level, stopping before the final single label.
    pub domains: Vec<String>,
    /// The URL's path.
    pub path: String,
}

impl View for PreparedUrl {
    type V = PreparedUrlView;

    open spec fn view(&self) -> PreparedUrlView {
        PreparedUrlView {
            scheme: self.scheme@,
            domains: self.domains.deep_view(),
            path: self.path@,
        }
    }
}

/// An external recipe URL matching rule.
#[derive(Debug)]
pub struct UrlMatch {
    /// The schemes the rule accepts, e.g. `https`.
    pub schemes: Vec<String>,
    /// The bare registrable domains the rule accepts, e.g. `example.com`.
    /// A URL is accepted only when one of its domain suffixes is exactly one
    /// of these; nothing is matched as a substring.
    pub domains: Vec<String>,
    /// A regular expression matched against the URL's path component. A
    /// pattern that the regex engine rejects matches no path.
    pub path_regex: String,
}

/// The domain-suffix chain of `labels`: position `i` holds the labels from
/// `i` on, joined with dots, so a domain of `k` labels yields `k - 1`
/// suffixes, most-specific first, stopping before the final single label.
pub open spec fn suffix_chain(labels: Seq<Seq<char>>) -> Seq<Seq<char>> {
    if labels.len() == 0 {
        Seq::empty()
    } else {
        Seq::new((labels.len() - 1) as nat, |i: int| spec_join(labels.skip(i), '.'))
    }
}

/// What preparing a URL with the given parts yields.
pub open spec fn spec_prepare(scheme: Seq<char>, domain: Seq<char>, path: Seq<char>) -> PreparedUrlView {
    PreparedUrlView { scheme, domains: suffix_chain(spec_split(domain, '.')), path }
}

/// Whether `rule` accepts a prepared URL: the scheme is one of the rule's
/// schemes, some domain suffix is exactly one of the rule's domains, and the
/// path regular expression matches the path.
pub open spec fn spec_rule_matches(rule: UrlMatch, prepared: PreparedUrlView) -> bool {
    &&& rule.schemes.deep_view().contains(prepared.scheme)
    &&& exists|i: int|
        0 <= i < prepared.domains.len() && rule.domains.deep_view().contains(prepared.domains[i])
    &&& regex_valid(rule.path_regex@)
    &&& regex_is_match(rule.path_regex@, prepared.path)
}

/// Whether any rule in `rules` matches the URL with the given parts, after
/// preparation. A URL without a domain is never matched.
pub open spec fn spec_can_get_parts(
    rules: Seq<UrlMatch>,
    scheme: Seq<char>,
    domain: Option<Seq<char>>,
    path: Seq<char>,
) -> bool {
    match domain {
        Some(d) => exists|i: int|
            0 <= i < rules.len() && spec_rule_matches(rules[i], spec_prepare(scheme, d, path)),
        None => false,
    }
}

/// [`spec_can_get_parts`] over a parsed URL value.
pub open spec fn spec_can_get(rules: Seq<UrlMatch>, url: ParsedUrl) -> bool {
    spec_can_get_parts(rules, url.scheme@, opt_str_view(url.domain), url.path@)
}

/// Relies on `url::Url::parse` and the accessors `Url::as_str`,
/// `Url::scheme`, `Url::domain` and `Url::path`: whether the string parses,
/// and each part of the parsed URL, are functions of the input string alone.
#[verifier::external_body]
pub(crate) fn parse_url_parts(s: &str) -> (r: Option<ParsedUrl>)
    ensures
        r is Some <==> url_well_formed(s@),
        r matches Some(p) ==> p@ == (ParsedUrlView {
            serialization: url_serialization(s@),
            scheme: url_scheme(s@),
            domain: url_domain(s@),
            path: url_path(s@),
        }),
{
    match url::Url::parse(s) {
        Ok(u) => Some(ParsedUrl {
            serialization: u.as_str().to_string(),
            scheme: u.scheme().to_string(),
            domain: u.domain().map(|d| d.to_string()),
            path: u.path().to_string(),
        }),
        Err(_) => None,
    }
}

/// Relies on `regex::Regex::new` and `regex::Regex::is_match`: whether the
/// pattern compiles is a function of the pattern alone, and whether it then
/// matches anywhere in the text is a function of the two strings alone.
#[verifier::external_body]
fn regex_match_str(pattern: &str, text: &str) -> (r: Option<bool>)
    ensures
        r is Some <==> regex_valid(pattern@),
        r matches Some(b) ==> b == regex_is_match(pattern@, text@),
{
    match regex::Regex::new(pattern) {
        Ok(re) => Some(re.is_match(text)),
        Err(_) => None,
    }
}

impl UrlMatch {
    /// Prepare a URL for matching: decompose its domain into the
    /// domain-suffix chain.
    ///
    /// Returns none exactly when the URL has no domain.
    pub fn prepare_url(url: &ParsedUrl) -> (r: Option<PreparedUrl>)
        ensures
            r is Some <==> url.domain is Some,
            r matches Some(p) ==> url.domain matches Some(d) && p@ == spec_prepare(
                url.scheme@,
                d@,
                url.path@,
            ),
    {
        match &url.domain {
            None => None,
            Some(d) => {
                let labels = split_str(d.as_str(), '.');
                proof {
                    lemma_split_len(d@, '.');
                }
                let n = labels.len();
                let mut domains: Vec<String> = Vec::new();
                let mut i: usize = 0;
                while i < n - 1
                    invariant
                        labels.deep_view() == spec_split(d@, '.'),
                        n == labels@.len(),
                        n >= 1,
                        i <= n - 1,
                        domains@.len() == i,
                        forall|k: int|
                            0 <= k < i ==> domains.deep_view()[k] == spec_join(
                                labels.deep_view().skip(k),
                                '.',
                            ),
                    decreases n - 1 - i,
                {
                    let piece = join_dots(&labels, i);
                    let ghost old_domains = domains.deep_view();
                    let ghost piece_view = piece@;
                    domains.push(piece);
                    proof {
                        assert(domains.deep_view() =~= old_domains.push(piece_view));
                    }
                    i += 1;
                }
                let prepared = PreparedUrl {
                    scheme: url.scheme.clone(),
                    domains,
                    path: url.path.clone(),
                };
                proof {
                    assert(prepared@.domains =~= suffix_chain(spec_split(d@, '.')));
                    assert(prepared@ =~= spec_prepare(url.scheme@, d@, url.path@));
                }
                Some(prepared)
            },
        }
    }

    /// Match this rule against a prepared URL.
    pub fn is_match(&self, prepared_url: &PreparedUrl) -> (r: bool)
        ensures
            r == spec_rule_matches(*self, prepared_url@),
    {
        if !contains_string(&self.schemes, &prepared_url.scheme) {
            return false;
        }
        let mut any_domain = false;
        let mut i: usize = 0;
        while i < prepared_url.domains.len()
            invariant
                i <= prepared_url.domains@.len(),
                any_domain == exists|k: int|
                    0 <= k < i && self.domains.deep_view().contains(
                        prepared_url.domains.deep_view()[k],
                    ),
            decreases prepared_url.domains@.len() - i,
        {
            if contains_string(&self.domains, &prepared_url.domains[i]) {
                any_domain = true;
                proof {
                    assert(self.domains.deep_view().contains(prepared_url.domains.deep_view()[i as int]));
                }
            }
            i += 1;
        }
        if !any_domain {
            return false;
        }
        match regex_match_str(self.path_regex.as_str(), prepared_url.path.as_str()) {
            Some(matched) => matched,
            None => false,
        }
    }
}

} // verus!
