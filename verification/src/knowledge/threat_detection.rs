//! Threat detection: on-device pattern matching for suspicious links,
//! phishing wording and link spam.

use vstd::prelude::*;

use super::link_safety::{lemma_pattern_reasons_found, pattern_reasons, push_pattern_reasons};
use super::KnowledgeError;
use crate::text::{
    chars_of, contains_exec, contains_seq, count_occurrences, count_occurrences_exec, lemma_contains_within,
    lemma_string_views_push, string_views, to_lowercase, to_owned_string, unicode_lowercase,
};

verus! {

/// Threat level for a piece of content.
#[derive(Debug, Clone, Copy, PartialEq, Eq, Structural)]
pub enum ThreatLevel {
    Safe,
    Suspicious,
    Malicious,
}

/// The level and the reasons found for a piece of text.
#[derive(Debug, Clone)]
pub struct ThreatAssessment {
    pub level: ThreatLevel,
    pub reasons: Vec<String>,
}

/// Link patterns treated as suspicious.
pub open spec fn suspicious_patterns() -> Seq<Seq<char>> {
    seq!["bit.ly/"@, "tinyurl.com/"@, "t.co/"@, "goo.gl/"@, "amzn.to/"@]
}

/// Phrases typical of phishing and social engineering.
pub open spec fn phishing_keywords() -> Seq<Seq<char>> {
    seq![
        "verify your account"@,
        "confirm your password"@,
        "urgent action required"@,
        "suspended account"@,
        "click here to claim"@,
        "you've won"@,
        "wire transfer"@,
        "gift card payment"@,
    ]
}

/// Number of `http://` and `https://` occurrences.
pub open spec fn url_count(l: Seq<char>) -> nat {
    count_occurrences(l, "http://"@, l.len() as int) + count_occurrences(l, "https://"@, l.len() as int)
}

/// The reasons found in lowercased text, in the order they are found.
pub open spec fn threat_reasons(l: Seq<char>) -> Seq<Seq<char>> {
    pattern_reasons(l, "suspicious_url:"@, suspicious_patterns()) + pattern_reasons(
        l,
        "phishing_keyword:"@,
        phishing_keywords(),
    ) + (if url_count(l) >= 3 { seq!["excessive_urls"@] } else { Seq::empty() })
}

/// The level for lowercased text: malicious on any phishing phrase,
/// suspicious on any other reason, safe otherwise.
pub open spec fn threat_level(l: Seq<char>) -> ThreatLevel {
    if pattern_reasons(l, "phishing_keyword:"@, phishing_keywords()).len() > 0 {
        ThreatLevel::Malicious
    } else if threat_reasons(l).len() > 0 {
        ThreatLevel::Suspicious
    } else {
        ThreatLevel::Safe
    }
}

/// Analyze text already mapped to lowercase.
pub fn analyze_lowercased_text(text_lower: &str) -> (r: ThreatAssessment)
    ensures
        string_views(r.reasons@) == threat_reasons(text_lower@),
        r.level == threat_level(text_lower@),
{
    let l = chars_of(text_lower);
    let mut reasons: Vec<String> = Vec::new();
    let patterns: [&str; 5] = ["bit.ly/", "tinyurl.com/", "t.co/", "goo.gl/", "amzn.to/"];
    assert(patterns@.map_values(|p: &str| p@) =~= suspicious_patterns());
    push_pattern_reasons(&mut reasons, &l, "suspicious_url:", patterns.as_slice());
    let before_keywords = reasons.len();
    let keywords: [&str; 8] = [
        "verify your account",
        "confirm your password",
        "urgent action required",
        "suspended account",
        "click here to claim",
        "you've won",
        "wire transfer",
        "gift card payment",
    ];
    assert(keywords@.map_values(|p: &str| p@) =~= phishing_keywords());
    push_pattern_reasons(&mut reasons, &l, "phishing_keyword:", keywords.as_slice());
    let phishing = reasons.len() > before_keywords;
    let http = chars_of("http://");
    let https = chars_of("https://");
    let n_http = count_occurrences_exec(&l, &http);
    let n_https = count_occurrences_exec(&l, &https);
    if n_http >= 3 || n_https >= 3 || n_http + n_https >= 3 {
        let s = to_owned_string("excessive_urls");
        proof {
            lemma_string_views_push(reasons@, s);
        }
        reasons.push(s);
    }
    assert(string_views(reasons@) =~= threat_reasons(l@));
    let level = if phishing {
        ThreatLevel::Malicious
    } else if reasons.len() > 0 {
        ThreatLevel::Suspicious
    } else {
        ThreatLevel::Safe
    };
    ThreatAssessment { level, reasons }
}

/// Analyze text for threats; the checks run on its Unicode lowercase form.
pub fn analyze_text(text: &str) -> (r: Result<ThreatAssessment, KnowledgeError>)
    ensures
        r matches Ok(a) && string_views(a.reasons@) == threat_reasons(unicode_lowercase(text@))
            && a.level == threat_level(unicode_lowercase(text@)),
{
    let lower = to_lowercase(text);
    Ok(analyze_lowercased_text(lower.as_str()))
}

/// Lowercased text holds one of the suspicious link patterns.
pub open spec fn has_suspicious_pattern(l: Seq<char>) -> bool {
    exists|i: int| 0 <= i < suspicious_patterns().len() && contains_seq(l, #[trigger] suspicious_patterns()[i])
}

/// Whether lowercased URL text holds one of the suspicious link patterns.
pub fn matches_suspicious_pattern(url_lower: &str) -> (r: bool)
    ensures
        r == has_suspicious_pattern(url_lower@),
{
    let l = chars_of(url_lower);
    let patterns: [&str; 5] = ["bit.ly/", "tinyurl.com/", "t.co/", "goo.gl/", "amzn.to/"];
    assert(patterns@.map_values(|p: &str| p@) =~= suspicious_patterns());
    let mut i: usize = 0;
    while i < 5
        invariant
            0 <= i <= 5,
            l@ == url_lower@,
            patterns@.map_values(|p: &str| p@) == suspicious_patterns(),
            forall|q: int| 0 <= q < i ==> !contains_seq(l@, #[trigger] suspicious_patterns()[q]),
        decreases 5 - i,
    {
        let pat = chars_of(patterns[i]);
        assert(suspicious_patterns()[i as int] == pat@);
        if contains_exec(&l, &pat) {
            return true;
        }
        i = i + 1;
    }
    false
}

/// Check whether a URL is suspicious: its Unicode lowercase form holds one of
/// the suspicious link patterns.
pub fn is_suspicious_url(url: &str) -> (r: bool)
    ensures
        r == has_suspicious_pattern(unicode_lowercase(url@)),
{
    let lower = to_lowercase(url);
    matches_suspicious_pattern(lower.as_str())
}

/// Phishing wording makes text malicious: lowercased text holding any of
/// the phrases "verify your account", "confirm your password", "urgent
/// action required", "suspended account", "click here to claim", "you've
/// won", "wire transfer" or "gift card payment" gets the reason
/// `phishing_keyword:<phrase>` and the level `Malicious`.
pub proof fn lemma_phishing_phrase_is_malicious(before: Seq<char>, phrase: Seq<char>, after: Seq<char>)
    requires
        phrase == "verify your account"@ || phrase == "confirm your password"@ || phrase
            == "urgent action required"@ || phrase == "suspended account"@ || phrase == "click here to claim"@
            || phrase == "you've won"@ || phrase == "wire transfer"@ || phrase == "gift card payment"@,
    ensures
        threat_reasons(before + phrase + after).contains("phishing_keyword:"@ + phrase),
        threat_level(before + phrase + after) == ThreatLevel::Malicious,
{
    let l = before + phrase + after;
    let kw = phishing_keywords();
    let k: int = if phrase == "verify your account"@ {
        0
    } else if phrase == "confirm your password"@ {
        1
    } else if phrase == "urgent action required"@ {
        2
    } else if phrase == "suspended account"@ {
        3
    } else if phrase == "click here to claim"@ {
        4
    } else if phrase == "you've won"@ {
        5
    } else if phrase == "wire transfer"@ {
        6
    } else {
        7
    };
    assert(kw[k] == phrase);
    lemma_contains_within(before, phrase, after);
    lemma_pattern_reasons_found(l, "phishing_keyword:"@, kw, k);
    let a = pattern_reasons(l, "suspicious_url:"@, suspicious_patterns());
    let p = pattern_reasons(l, "phishing_keyword:"@, kw);
    let j = choose|j: int| 0 <= j < p.len() && p[j] == "phishing_keyword:"@ + phrase;
    assert(threat_reasons(l)[a.len() + j] == p[j]);
}

/// Shortened or affiliate links make text suspicious at least: lowercased
/// text holding `bit.ly/`, `tinyurl.com/`, `t.co/`, `goo.gl/` or `amzn.to/`
/// gets the reason `suspicious_url:<pattern>` and a level other than `Safe`;
/// for a URL, `is_suspicious_url` holds.
pub proof fn lemma_suspicious_link_flagged(before: Seq<char>, pat: Seq<char>, after: Seq<char>)
    requires
        pat == "bit.ly/"@ || pat == "tinyurl.com/"@ || pat == "t.co/"@ || pat == "goo.gl/"@ || pat == "amzn.to/"@,
    ensures
        threat_reasons(before + pat + after).contains("suspicious_url:"@ + pat),
        threat_level(before + pat + after) != ThreatLevel::Safe,
        has_suspicious_pattern(before + pat + after),
{
    let l = before + pat + after;
    let k: int = if pat == "bit.ly/"@ {
        0
    } else if pat == "tinyurl.com/"@ {
        1
    } else if pat == "t.co/"@ {
        2
    } else if pat == "goo.gl/"@ {
        3
    } else {
        4
    };
    assert(suspicious_patterns()[k] == pat);
    lemma_contains_within(before, pat, after);
    lemma_pattern_reasons_found(l, "suspicious_url:"@, suspicious_patterns(), k);
    let p = pattern_reasons(l, "suspicious_url:"@, suspicious_patterns());
    let j = choose|j: int| 0 <= j < p.len() && p[j] == "suspicious_url:"@ + pat;
    assert(threat_reasons(l)[j] == p[j]);
}

} // verus!
