//! Link safety: check URLs against known-bad domains, suspicious
//! top-level domains, bare IP addresses and URL shorteners.

use vstd::prelude::*;

use super::KnowledgeError;
use crate::text::{
    char_is_ascii_digit, char_is_whitespace, chars_of, concat_str, contains_exec, contains_seq,
    is_digit, is_white_space, lemma_contains_within, lemma_string_views_push, occurs_at, occurs_at_exec, string_of_range,
    string_views, to_lowercase, to_owned_string, unicode_lowercase,
};

verus! {

/// Link safety verdict.
#[derive(Debug, Clone, Copy, PartialEq, Eq, Structural)]
pub enum LinkSafetyVerdict {
    Safe,
    Suspicious,
    Malicious,
    Unknown,
}

/// Result of a link safety check.
#[derive(Debug, Clone)]
pub struct LinkSafetyResult {
    pub url: String,
    pub verdict: LinkSafetyVerdict,
    pub reasons: Vec<String>,
}

/// Domains known to be malicious.
pub open spec fn malicious_domains() -> Seq<Seq<char>> {
    seq!["evil-phishing.example"@, "malware-download.test"@, "fake-login.scam"@]
}

/// Path prefixes of known URL shorteners.
pub open spec fn url_shorteners() -> Seq<Seq<char>> {
    seq!["bit.ly/"@, "tinyurl.com/"@, "t.co/"@, "goo.gl/"@, "ow.ly/"@]
}

/// One reason `prefix + p` for each pattern `p` of `pats` that occurs in
/// `l`, in the order of `pats`.
pub open spec fn pattern_reasons(l: Seq<char>, prefix: Seq<char>, pats: Seq<Seq<char>>) -> Seq<Seq<char>>
    decreases pats.len(),
{
    if pats.len() == 0 {
        Seq::empty()
    } else {
        pattern_reasons(l, prefix, pats.drop_last()) + (if contains_seq(l, pats.last()) {
            seq![prefix + pats.last()]
        } else {
            Seq::empty()
        })
    }
}

/// The position after the scheme: 8 after `https://`, 7 after `http://`,
/// otherwise 0.
pub open spec fn scheme_end(l: Seq<char>) -> int {
    if occurs_at(l, "https://"@, 0) {
        8
    } else if occurs_at(l, "http://"@, 0) {
        7
    } else {
        0
    }
}

/// The first position at or after `i` that holds `c`, or the length.
pub open spec fn find_char_from(s: Seq<char>, c: char, i: int) -> int
    decreases s.len() - i,
{
    if i >= s.len() {
        s.len() as int
    } else if s[i] == c {
        i
    } else {
        find_char_from(s, c, i + 1)
    }
}

/// The domain of a lowercased URL: the text after the scheme up to the first
/// `/`.
pub open spec fn url_domain(l: Seq<char>) -> Seq<char> {
    l.subrange(scheme_end(l), find_char_from(l, '/', scheme_end(l)))
}

/// `s` ends with `suffix`.
pub open spec fn ends_with(s: Seq<char>, suffix: Seq<char>) -> bool {
    suffix.len() <= s.len() && s.skip(s.len() - suffix.len()) == suffix
}

/// The domain ends in `.tk`, `.ml` or `.ga`.
pub open spec fn has_suspicious_tld(l: Seq<char>) -> bool {
    let d = url_domain(l);
    ends_with(d, ".tk"@) || ends_with(d, ".ml"@) || ends_with(d, ".ga"@)
}

/// A plain-HTTP URL whose host starts with a digit.
pub open spec fn is_ip_only(l: Seq<char>) -> bool {
    occurs_at(l, "http://"@, 0) && l.len() > 7 && is_digit(l[7])
}

/// The reasons reported for a lowercased URL, in the order they are found.
pub open spec fn link_reasons(l: Seq<char>) -> Seq<Seq<char>> {
    pattern_reasons(l, "known_malicious_domain:"@, malicious_domains())
        + (if has_suspicious_tld(l) { seq!["suspicious_tld"@] } else { Seq::empty() })
        + (if is_ip_only(l) { seq!["ip_only_url"@] } else { Seq::empty() })
        + pattern_reasons(l, "url_shortener:"@, url_shorteners())
}

/// The verdict for a lowercased URL: malicious when a known-bad domain
/// occurs, suspicious when any other reason was found, safe otherwise.
pub open spec fn link_verdict(l: Seq<char>) -> LinkSafetyVerdict {
    if pattern_reasons(l, "known_malicious_domain:"@, malicious_domains()).len() > 0 {
        LinkSafetyVerdict::Malicious
    } else if link_reasons(l).len() > 0 {
        LinkSafetyVerdict::Suspicious
    } else {
        LinkSafetyVerdict::Safe
    }
}

/// A pattern of `pats` that occurs in `l` gives the reason `prefix + p`.
pub proof fn lemma_pattern_reasons_found(l: Seq<char>, prefix: Seq<char>, pats: Seq<Seq<char>>, k: int)
    requires
        0 <= k < pats.len(),
        contains_seq(l, pats[k]),
    ensures
        pattern_reasons(l, prefix, pats).contains(prefix + pats[k]),
    decreases pats.len(),
{
    let prev = pattern_reasons(l, prefix, pats.drop_last());
    let whole = pattern_reasons(l, prefix, pats);
    if k == pats.len() - 1 {
        assert(whole[prev.len() as int] == prefix + pats[k]);
    } else {
        lemma_pattern_reasons_found(l, prefix, pats.drop_last(), k);
        let j = choose|j: int| 0 <= j < prev.len() && prev[j] == prefix + pats.drop_last()[k];
        assert(whole[j] == prev[j]);
    }
}

proof fn lemma_find_char_at(s: Seq<char>, c: char, i: int, j: int)
    requires
        0 <= i <= j <= s.len(),
        forall|k: int| i <= k < j ==> s[k] != c,
        j == s.len() || s[j] == c,
    ensures
        find_char_from(s, c, i) == j,
    decreases j - i,
{
    if i < j {
        lemma_find_char_at(s, c, i + 1, j);
    }
}

/// Text that starts with a domain holding no `/` and ending in `.` and two
/// more characters does not start with a scheme.
proof fn lemma_no_scheme_prefix(l: Seq<char>, d: Seq<char>, rest: Seq<char>, pre: Seq<char>)
    requires
        l == d + rest,
        d.len() >= 3,
        d[d.len() - 3] == '.',
        forall|k: int| 0 <= k < d.len() ==> d[k] != '/',
        pre == "https://"@ || pre == "http://"@,
    ensures
        !occurs_at(l, pre, 0),
{
    reveal_strlit("https://");
    reveal_strlit("http://");
    if occurs_at(l, pre, 0) {
        let sub = l.subrange(0, pre.len() as int);
        assert(sub == pre);
        assert(sub[5] == l[5]);
        if pre == "https://"@ {
            assert("https://"@ =~= seq!['h', 't', 't', 'p', 's', ':', '/', '/']);
        } else {
            assert("http://"@ =~= seq!['h', 't', 't', 'p', ':', '/', '/']);
        }
        if d.len() > 5 {
            assert(l[5] == d[5]);
        } else {
            let k = d.len() - 3;
            assert(sub[k] == l[k]);
            assert(l[k] == d[k]);
        }
    }
}

/// A URL on a suspicious top-level domain is flagged. Take a lowercased URL
/// made of a scheme (`https://`, `http://` or none), a domain `host + tld`
/// where `tld` is `.tk`, `.ml` or `.ga` and `host` holds no `/`, and the
/// rest of the URL, empty or starting with `/`: its reasons include
/// `suspicious_tld` and its verdict is not `Safe`.
pub proof fn lemma_suspicious_tld_flagged(scheme: Seq<char>, host: Seq<char>, tld: Seq<char>, rest: Seq<char>)
    requires
        scheme == "https://"@ || scheme == "http://"@ || scheme == Seq::<char>::empty(),
        tld == ".tk"@ || tld == ".ml"@ || tld == ".ga"@,
        forall|k: int| 0 <= k < host.len() ==> host[k] != '/',
        rest.len() == 0 || rest[0] == '/',
    ensures
        link_reasons(scheme + host + tld + rest).contains("suspicious_tld"@),
        link_verdict(scheme + host + tld + rest) != LinkSafetyVerdict::Safe,
{
    reveal_strlit("https://");
    reveal_strlit("http://");
    reveal_strlit(".tk");
    reveal_strlit(".ml");
    reveal_strlit(".ga");
    let l = scheme + host + tld + rest;
    let d = host + tld;
    let n = d.len() as int;
    assert(tld.len() == 3 && tld[0] == '.');
    assert(forall|k: int| 0 <= k < n ==> d[k] != '/') by {
        assert forall|k: int| 0 <= k < n implies d[k] != '/' by {
            if k >= host.len() {
                assert(d[k] == tld[k - host.len()]);
            }
        }
    }
    let a = scheme.len() as int;
    assert(l =~= scheme + d + rest);
    assert forall|k: int| 0 <= k < n implies l[a + k] == d[k] by {}
    if scheme == "https://"@ {
        assert(l.subrange(0, 8) =~= "https://"@);
        assert(occurs_at(l, "https://"@, 0));
    } else if scheme == "http://"@ {
        assert(l[4] == ':');
        if occurs_at(l, "https://"@, 0) {
            assert(l.subrange(0, 8)[4] == 's');
        }
        assert(l.subrange(0, 7) =~= "http://"@);
        assert(occurs_at(l, "http://"@, 0));
    } else {
        assert(l =~= d + rest);
        assert(d[n - 3] == '.');
        lemma_no_scheme_prefix(l, d, rest, "https://"@);
        lemma_no_scheme_prefix(l, d, rest, "http://"@);
    }
    assert(scheme_end(l) == a);
    assert forall|k: int| a <= k < a + n implies l[k] != '/' by {
        assert(l[k] == d[k - a]);
    }
    if rest.len() > 0 {
        assert(l[a + n] == rest[0]);
    }
    lemma_find_char_at(l, '/', a, a + n);
    assert(url_domain(l) =~= d);
    assert(d.skip(n - 3) =~= tld);
    assert(has_suspicious_tld(l));
    let p = pattern_reasons(l, "known_malicious_domain:"@, malicious_domains());
    assert(link_reasons(l)[p.len() as int] == "suspicious_tld"@);
}

/// A known-bad domain makes a URL malicious: lowercased URL text holding
/// `evil-phishing.example`, `malware-download.test` or `fake-login.scam`
/// gets the reason `known_malicious_domain:<domain>` and the verdict
/// `Malicious`.
pub proof fn lemma_malicious_domain_flagged(before: Seq<char>, domain: Seq<char>, after: Seq<char>)
    requires
        domain == "evil-phishing.example"@ || domain == "malware-download.test"@ || domain == "fake-login.scam"@,
    ensures
        link_reasons(before + domain + after).contains("known_malicious_domain:"@ + domain),
        link_verdict(before + domain + after) == LinkSafetyVerdict::Malicious,
{
    let l = before + domain + after;
    let k: int = if domain == "evil-phishing.example"@ {
        0
    } else if domain == "malware-download.test"@ {
        1
    } else {
        2
    };
    assert(malicious_domains()[k] == domain);
    lemma_contains_within(before, domain, after);
    lemma_pattern_reasons_found(l, "known_malicious_domain:"@, malicious_domains(), k);
    let p = pattern_reasons(l, "known_malicious_domain:"@, malicious_domains());
    let j = choose|j: int| 0 <= j < p.len() && p[j] == "known_malicious_domain:"@ + domain;
    assert(link_reasons(l)[j] == p[j]);
}

/// A URL shortener makes a URL suspicious at least: lowercased URL text
/// holding `bit.ly/`, `tinyurl.com/`, `t.co/`, `goo.gl/` or `ow.ly/` gets
/// the reason `url_shortener:<pattern>` and a verdict other than `Safe`.
pub proof fn lemma_url_shortener_flagged(before: Seq<char>, pat: Seq<char>, after: Seq<char>)
    requires
        pat == "bit.ly/"@ || pat == "tinyurl.com/"@ || pat == "t.co/"@ || pat == "goo.gl/"@ || pat == "ow.ly/"@,
    ensures
        link_reasons(before + pat + after).contains("url_shortener:"@ + pat),
        link_verdict(before + pat + after) != LinkSafetyVerdict::Safe,
{
    let l = before + pat + after;
    let k: int = if pat == "bit.ly/"@ {
        0
    } else if pat == "tinyurl.com/"@ {
        1
    } else if pat == "t.co/"@ {
        2
    } else if pat == "goo.gl/"@ {
        3
    } else {
        4
    };
    assert(url_shorteners()[k] == pat);
    lemma_contains_within(before, pat, after);
    lemma_pattern_reasons_found(l, "url_shortener:"@, url_shorteners(), k);
    let u = pattern_reasons(l, "url_shortener:"@, url_shorteners());
    let j = choose|j: int| 0 <= j < u.len() && u[j] == "url_shortener:"@ + pat;
    let front = link_reasons(l).len() - u.len();
    assert(link_reasons(l)[front + j] == u[j]);
}

/// Appends one reason `prefix + p` per pattern `p` of `pats` found in `l`.
pub(crate) fn push_pattern_reasons(
    reasons: &mut Vec<String>,
    l: &Vec<char>,
    prefix: &str,
    pats: &[&str],
)
    ensures
        string_views(final(reasons)@) == string_views(old(reasons)@) + pattern_reasons(
            l@,
            prefix@,
            pats@.map_values(|p: &str| p@),
        ),
{
    let ghost ps = pats@.map_values(|p: &str| p@);
    let ghost start = string_views(reasons@);
    let mut i: usize = 0;
    while i < pats.len()
        invariant
            0 <= i <= pats@.len(),
            ps == pats@.map_values(|p: &str| p@),
            string_views(reasons@) == start + pattern_reasons(l@, prefix@, ps.take(i as int)),
        decreases pats.len() - i,
    {
        let pat = chars_of(pats[i]);
        assert(ps.take(i + 1).drop_last() =~= ps.take(i as int));
        assert(ps.take(i + 1).last() == pat@);
        if contains_exec(l, &pat) {
            let s = concat_str(prefix, pats[i]);
            proof {
                lemma_string_views_push(reasons@, s);
            }
            reasons.push(s);
        }
        i = i + 1;
    }
    assert(ps.take(i as int) =~= ps);
}

/// Check a URL whose lowercased text is `url_lower`.
pub fn check_lowercased_url(url: &str, url_lower: &str) -> (res: LinkSafetyResult)
    ensures
        res.url@ == url@,
        string_views(res.reasons@) == link_reasons(url_lower@),
        res.verdict == link_verdict(url_lower@),
{
    let l = chars_of(url_lower);
    let mut reasons: Vec<String> = Vec::new();
    let domains: [&str; 3] = ["evil-phishing.example", "malware-download.test", "fake-login.scam"];
    assert(domains@.map_values(|p: &str| p@) =~= malicious_domains());
    push_pattern_reasons(&mut reasons, &l, "known_malicious_domain:", domains.as_slice());
    let malicious = reasons.len() > 0;
    let ghost after_malicious = string_views(reasons@);
    // Suspicious top-level domain.
    let https = chars_of("https://");
    let http = chars_of("http://");
    proof {
        reveal_strlit("https://");
        reveal_strlit("http://");
    }
    let start: usize = if occurs_at_exec(&l, &https, 0) {
        8
    } else if occurs_at_exec(&l, &http, 0) {
        7
    } else {
        0
    };
    assert(start == scheme_end(l@));
    let mut end: usize = start;
    while end < l.len() && l[end] != '/'
        invariant
            start <= end <= l@.len(),
            find_char_from(l@, '/', start as int) == find_char_from(l@, '/', end as int),
        decreases l@.len() - end,
    {
        end = end + 1;
    }
    assert(end == find_char_from(l@, '/', start as int));
    let ghost d = url_domain(l@);
    assert(d == l@.subrange(start as int, end as int));
    let tk = chars_of(".tk");
    let ml = chars_of(".ml");
    let ga = chars_of(".ga");
    proof {
        reveal_strlit(".tk");
        reveal_strlit(".ml");
        reveal_strlit(".ga");
    }
    let tld = end - start >= 3 && (occurs_at_exec(&l, &tk, end - 3) || occurs_at_exec(&l, &ml, end - 3)
        || occurs_at_exec(&l, &ga, end - 3));
    assert(tld == has_suspicious_tld(l@)) by {
        if end - start >= 3 {
            assert(d.skip(d.len() - 3) =~= l@.subrange(end - 3, end as int));
        }
    }
    if tld {
        let s = to_owned_string("suspicious_tld");
        proof {
            lemma_string_views_push(reasons@, s);
        }
        reasons.push(s);
    }
    // Bare IP address after a plain-HTTP scheme.
    let ip = occurs_at_exec(&l, &http, 0) && l.len() > 7 && char_is_ascii_digit(l[7]);
    if ip {
        let s = to_owned_string("ip_only_url");
        proof {
            lemma_string_views_push(reasons@, s);
        }
        reasons.push(s);
    }
    // URL shorteners.
    let shorteners: [&str; 5] = ["bit.ly/", "tinyurl.com/", "t.co/", "goo.gl/", "ow.ly/"];
    assert(shorteners@.map_values(|p: &str| p@) =~= url_shorteners());
    push_pattern_reasons(&mut reasons, &l, "url_shortener:", shorteners.as_slice());
    assert(string_views(reasons@) =~= link_reasons(l@));
    let verdict = if malicious {
        LinkSafetyVerdict::Malicious
    } else if reasons.len() > 0 {
        LinkSafetyVerdict::Suspicious
    } else {
        LinkSafetyVerdict::Safe
    };
    LinkSafetyResult { url: to_owned_string(url), verdict, reasons }
}

/// Check a single URL for safety. The checks run on its Unicode lowercase
/// form.
pub fn check_url(url: &str) -> (r: Result<LinkSafetyResult, KnowledgeError>)
    ensures
        r matches Ok(res) && res.url@ == url@ && string_views(res.reasons@) == link_reasons(
            unicode_lowercase(url@),
        ) && res.verdict == link_verdict(unicode_lowercase(url@)),
{
    let lower = to_lowercase(url);
    Ok(check_lowercased_url(url, lower.as_str()))
}

/// Characters that end a URL inside text.
pub open spec fn is_url_stop(c: char) -> bool {
    is_white_space(c) || c == '<' || c == '"' || c == '\''
}

/// The end of the URL starting at `i`: the first stop character at or after
/// `i`, or the end of the text.
pub open spec fn url_end(t: Seq<char>, i: int) -> int
    decreases t.len() - i,
{
    if i >= t.len() {
        t.len() as int
    } else if is_url_stop(t[i]) {
        i
    } else {
        url_end(t, i + 1)
    }
}

/// Position `i` lies inside one of the ranges.
pub open spec fn covered(ranges: Seq<(int, int)>, i: int) -> bool {
    exists|k: int| 0 <= k < ranges.len() && #[trigger] ranges[k].0 <= i && i < ranges[k].1
}

/// The ranges found after looking for `pat` at positions `0..n`, starting
/// from `init`: a match that no earlier range covers adds the range of its
/// URL.
pub open spec fn scan_urls(t: Seq<char>, pat: Seq<char>, n: nat, init: Seq<(int, int)>) -> Seq<(int, int)>
    decreases n,
{
    if n == 0 {
        init
    } else {
        let prev = scan_urls(t, pat, (n - 1) as nat, init);
        let i = n - 1;
        if occurs_at(t, pat, i) && !covered(prev, i) {
            prev.push((i, url_end(t, i)))
        } else {
            prev
        }
    }
}

/// The URL ranges of `t`: every `https://` match in order, then every
/// `http://` match in order, each skipped when an earlier URL covers it.
pub open spec fn url_ranges(t: Seq<char>) -> Seq<(int, int)> {
    scan_urls(t, "http://"@, t.len(), scan_urls(t, "https://"@, t.len(), Seq::empty()))
}

/// The texts of the ranges.
pub open spec fn range_texts(t: Seq<char>, rs: Seq<(int, int)>) -> Seq<Seq<char>> {
    rs.map_values(|r: (int, int)| t.subrange(r.0, r.1))
}

/// The URLs extracted from `t`, in the order they are found.
pub open spec fn extracted_urls(t: Seq<char>) -> Seq<Seq<char>> {
    range_texts(t, url_ranges(t))
}

/// The ranges as integers.
pub open spec fn int_ranges(v: Seq<(usize, usize)>) -> Seq<(int, int)> {
    v.map_values(|r: (usize, usize)| (r.0 as int, r.1 as int))
}

/// Ranges inside the text, each starting before it ends.
pub open spec fn ranges_valid(t: Seq<char>, rs: Seq<(int, int)>) -> bool {
    forall|k: int| 0 <= k < rs.len() ==> 0 <= #[trigger] rs[k].0 <= rs[k].1 <= t.len()
}

proof fn lemma_url_end_bounds(t: Seq<char>, i: int)
    requires
        0 <= i <= t.len(),
    ensures
        i <= url_end(t, i) <= t.len(),
    decreases t.len() - i,
{
    if i < t.len() && !is_url_stop(t[i]) {
        lemma_url_end_bounds(t, i + 1);
    }
}

/// One pass over `t` looking for `pat`, extending the ranges found so far.
fn scan_pass(t: &Vec<char>, pat: &Vec<char>, ranges: &mut Vec<(usize, usize)>, urls: &mut Vec<String>)
    requires
        ranges_valid(t@, int_ranges(old(ranges)@)),
        string_views(old(urls)@) == range_texts(t@, int_ranges(old(ranges)@)),
    ensures
        int_ranges(final(ranges)@) == scan_urls(t@, pat@, t@.len(), int_ranges(old(ranges)@)),
        ranges_valid(t@, int_ranges(final(ranges)@)),
        string_views(final(urls)@) == range_texts(t@, int_ranges(final(ranges)@)),
{
    let ghost init = int_ranges(ranges@);
    let mut i: usize = 0;
    while i < t.len()
        invariant
            0 <= i <= t@.len(),
            int_ranges(ranges@) == scan_urls(t@, pat@, i as nat, init),
            ranges_valid(t@, int_ranges(ranges@)),
            string_views(urls@) == range_texts(t@, int_ranges(ranges@)),
        decreases t@.len() - i,
    {
        if occurs_at_exec(t, pat, i) {
            // Is `i` inside a range found earlier?
            let mut inside = false;
            let mut k: usize = 0;
            while k < ranges.len()
                invariant
                    0 <= k <= ranges@.len(),
                    inside <==> exists|j: int| 0 <= j < k && #[trigger] int_ranges(ranges@)[j].0 <= i && i < int_ranges(ranges@)[j].1,
                decreases ranges@.len() - k,
            {
                let (a, b) = ranges[k];
                assert(int_ranges(ranges@)[k as int] == (a as int, b as int));
                if a <= i && i < b {
                    inside = true;
                }
                k = k + 1;
            }
            assert(inside == covered(int_ranges(ranges@), i as int));
            if !inside {
                let mut end: usize = i;
                proof {
                    lemma_url_end_bounds(t@, i as int);
                }
                while end < t.len() && !(char_is_whitespace(t[end]) || t[end] == '<' || t[end] == '"' || t[end] == '\'')
                    invariant
                        i <= end <= t@.len(),
                        url_end(t@, i as int) == url_end(t@, end as int),
                    decreases t@.len() - end,
                {
                    end = end + 1;
                }
                assert(end == url_end(t@, i as int));
                let u = string_of_range(t, i, end);
                let ghost old_ranges = ranges@;
                proof {
                    lemma_string_views_push(urls@, u);
                }
                ranges.push((i, end));
                urls.push(u);
                assert(int_ranges(ranges@) =~= int_ranges(old_ranges).push((i as int, end as int)));
                assert(range_texts(t@, int_ranges(ranges@)) =~= range_texts(t@, int_ranges(old_ranges)).push(
                    t@.subrange(i as int, end as int),
                ));
            }
        }
        i = i + 1;
    }
}

/// Extract the URLs from text: every `https://` URL in order, then every
/// `http://` URL in order, each running to the first white space, `<`, `"`
/// or `'`; a match inside a URL already found is skipped.
pub fn extract_urls(text: &str) -> (urls: Vec<String>)
    ensures
        string_views(urls@) == extracted_urls(text@),
{
    let t = chars_of(text);
    let https = chars_of("https://");
    let http = chars_of("http://");
    let mut ranges: Vec<(usize, usize)> = Vec::new();
    let mut urls: Vec<String> = Vec::new();
    assert(int_ranges(ranges@) =~= Seq::<(int, int)>::empty());
    assert(string_views(urls@) =~= range_texts(t@, int_ranges(ranges@)));
    scan_pass(&t, &https, &mut ranges, &mut urls);
    scan_pass(&t, &http, &mut ranges, &mut urls);
    urls
}

/// Check all URLs in a text block, in the order [`extract_urls`] finds them.
pub fn check_urls_in_text(text: &str) -> (r: Result<Vec<LinkSafetyResult>, KnowledgeError>)
    ensures
        r matches Ok(results) && results@.len() == extracted_urls(text@).len() && forall|k: int|
            0 <= k < results@.len() ==> {
                let u = extracted_urls(text@)[k];
                &&& (#[trigger] results@[k]).url@ == u
                &&& string_views(results@[k].reasons@) == link_reasons(unicode_lowercase(u))
                &&& results@[k].verdict == link_verdict(unicode_lowercase(u))
            },
{
    let urls = extract_urls(text);
    let mut results: Vec<LinkSafetyResult> = Vec::new();
    let mut i: usize = 0;
    while i < urls.len()
        invariant
            0 <= i <= urls@.len(),
            string_views(urls@) == extracted_urls(text@),
            results@.len() == i,
            forall|k: int|
                0 <= k < i ==> {
                    let u = extracted_urls(text@)[k];
                    &&& (#[trigger] results@[k]).url@ == u
                    &&& string_views(results@[k].reasons@) == link_reasons(unicode_lowercase(u))
                    &&& results@[k].verdict == link_verdict(unicode_lowercase(u))
                },
        decreases urls@.len() - i,
    {
        assert(string_views(urls@)[i as int] == urls@[i as int]@);
        match check_url(urls[i].as_str()) {
            Ok(res) => {
                results.push(res);
            },
            Err(e) => {
                return Err(e);
            },
        }
        i = i + 1;
    }
    Ok(results)
}

} // verus!
