//! Content classifier: categorises messages as plain text, code, links,
//! media references, system messages or a mix of these, and guesses their
//! scripts.

use vstd::prelude::*;

use super::KnowledgeError;
use crate::text::{
    chars_of, contains_exec, contains_seq, lemma_contains_within, lemma_string_views_push, string_views, to_owned_string,
};

verus! {

/// Content category.
#[derive(Debug, Clone, Copy, PartialEq, Eq, Structural)]
pub enum ContentCategory {
    PlainText,
    Code,
    Link,
    MediaRef,
    SystemMessage,
    Mixed,
}

/// The category of a message with the signals it was drawn from and the
/// scripts found in it.
#[derive(Debug, Clone)]
pub struct ContentClassification {
    pub category: ContentCategory,
    pub signals: Vec<ContentCategory>,
    pub detected_languages: Vec<String>,
}

/// Fragments that suggest source code.
pub open spec fn code_indicators() -> Seq<Seq<char>> {
    seq![
        "fn "@, "func "@, "def "@, "class "@, "import "@, "package "@, "public "@, "private "@,
        "const "@, "let "@, "var "@, "```"@, "    "@, "\t"@,
    ]
}

/// Number of the first `n` code indicators that occur in `t`.
pub open spec fn code_hits(t: Seq<char>, n: int) -> nat
    decreases n,
{
    if n <= 0 {
        0
    } else {
        code_hits(t, n - 1) + (if contains_seq(t, code_indicators()[n - 1]) { 1nat } else { 0nat })
    }
}

/// Phrases of group system messages.
pub open spec fn system_indicators() -> Seq<Seq<char>> {
    seq![
        "joined the group"@,
        "left the group"@,
        "was added"@,
        "was removed"@,
        "changed the group name"@,
    ]
}

/// The signals found in `t`, in order: code (two or more indicators), link,
/// media reference, system message; plain text when there is none.
pub open spec fn content_signals(t: Seq<char>) -> Seq<ContentCategory> {
    let found = (if code_hits(t, 14) >= 2 { seq![ContentCategory::Code] } else { Seq::empty() })
        + (if contains_seq(t, "http://"@) || contains_seq(t, "https://"@) {
            seq![ContentCategory::Link]
        } else {
            Seq::empty()
        })
        + (if contains_seq(t, "[media]"@) || contains_seq(t, "[image]"@) || contains_seq(t, "[video]"@)
            || contains_seq(t, "[audio]"@) {
            seq![ContentCategory::MediaRef]
        } else {
            Seq::empty()
        })
        + (if exists|i: int| 0 <= i < 5 && contains_seq(t, #[trigger] system_indicators()[i]) {
            seq![ContentCategory::SystemMessage]
        } else {
            Seq::empty()
        });
    if found.len() == 0 {
        seq![ContentCategory::PlainText]
    } else {
        found
    }
}

/// The category: the single signal, or `Mixed` when there are several.
pub open spec fn content_category(t: Seq<char>) -> ContentCategory {
    if content_signals(t).len() == 1 {
        content_signals(t)[0]
    } else {
        ContentCategory::Mixed
    }
}

/// Some character of `t` lies in `lo..=hi`.
pub open spec fn has_char_in(t: Seq<char>, lo: char, hi: char) -> bool {
    exists|i: int| 0 <= i < t.len() && lo <= #[trigger] t[i] && t[i] <= hi
}

/// The languages guessed from the scripts in `t`, in the order en (ASCII
/// letters), zh (CJK ideographs), ja (kana), ko (Hangul), ru (Cyrillic);
/// `unknown` when none is found.
pub open spec fn detected_languages(t: Seq<char>) -> Seq<Seq<char>> {
    let found = (if has_char_in(t, 'a', 'z') || has_char_in(t, 'A', 'Z') { seq!["en"@] } else { Seq::empty() })
        + (if has_char_in(t, '\u{4E00}', '\u{9FFF}') { seq!["zh"@] } else { Seq::empty() })
        + (if has_char_in(t, '\u{3040}', '\u{309F}') || has_char_in(t, '\u{30A0}', '\u{30FF}') {
            seq!["ja"@]
        } else {
            Seq::empty()
        })
        + (if has_char_in(t, '\u{AC00}', '\u{D7AF}') { seq!["ko"@] } else { Seq::empty() })
        + (if has_char_in(t, '\u{0400}', '\u{04FF}') { seq!["ru"@] } else { Seq::empty() });
    if found.len() == 0 {
        seq!["unknown"@]
    } else {
        found
    }
}

fn contains_str(t: &Vec<char>, pat: &str) -> (r: bool)
    ensures
        r == contains_seq(t@, pat@),
{
    let p = chars_of(pat);
    contains_exec(t, &p)
}

fn any_char_in(t: &Vec<char>, lo: char, hi: char) -> (r: bool)
    ensures
        r == has_char_in(t@, lo, hi),
{
    let mut i: usize = 0;
    while i < t.len()
        invariant
            0 <= i <= t@.len(),
            forall|q: int| 0 <= q < i ==> !(lo <= #[trigger] t@[q] && t@[q] <= hi),
        decreases t@.len() - i,
    {
        if lo <= t[i] && t[i] <= hi {
            return true;
        }
        i = i + 1;
    }
    false
}

fn push_language(langs: &mut Vec<String>, code: &str)
    ensures
        string_views(final(langs)@) == string_views(old(langs)@).push(code@),
{
    let s = to_owned_string(code);
    proof {
        lemma_string_views_push(langs@, s);
    }
    langs.push(s);
}

/// Simple language detection based on script analysis.
pub fn detect_languages(text: &str) -> (langs: Vec<String>)
    ensures
        string_views(langs@) == detected_languages(text@),
{
    let t = chars_of(text);
    let mut langs: Vec<String> = Vec::new();
    if any_char_in(&t, 'a', 'z') || any_char_in(&t, 'A', 'Z') {
        push_language(&mut langs, "en");
    }
    if any_char_in(&t, '\u{4E00}', '\u{9FFF}') {
        push_language(&mut langs, "zh");
    }
    if any_char_in(&t, '\u{3040}', '\u{309F}') || any_char_in(&t, '\u{30A0}', '\u{30FF}') {
        push_language(&mut langs, "ja");
    }
    if any_char_in(&t, '\u{AC00}', '\u{D7AF}') {
        push_language(&mut langs, "ko");
    }
    if any_char_in(&t, '\u{0400}', '\u{04FF}') {
        push_language(&mut langs, "ru");
    }
    if langs.len() == 0 {
        push_language(&mut langs, "unknown");
    }
    assert(string_views(langs@) =~= detected_languages(t@));
    langs
}

/// Classify message content.
pub fn classify(text: &str) -> (r: Result<ContentClassification, KnowledgeError>)
    ensures
        r matches Ok(c) && c.signals@ == content_signals(text@) && c.category == content_category(text@)
            && string_views(c.detected_languages@) == detected_languages(text@),
{
    let t = chars_of(text);
    let mut signals: Vec<ContentCategory> = Vec::new();
    let indicators: [&str; 14] = [
        "fn ", "func ", "def ", "class ", "import ", "package ", "public ", "private ", "const ",
        "let ", "var ", "```", "    ", "\t",
    ];
    assert(indicators@.map_values(|p: &str| p@) =~= code_indicators());
    let mut hits: usize = 0;
    let mut i: usize = 0;
    while i < 14
        invariant
            0 <= i <= 14,
            t@ == text@,
            indicators@.map_values(|p: &str| p@) == code_indicators(),
            hits == code_hits(t@, i as int),
            hits <= i,
        decreases 14 - i,
    {
        assert(code_indicators()[i as int] == indicators@[i as int]@);
        if contains_str(&t, indicators[i]) {
            hits = hits + 1;
        }
        i = i + 1;
    }
    if hits >= 2 {
        signals.push(ContentCategory::Code);
    }
    if contains_str(&t, "http://") || contains_str(&t, "https://") {
        signals.push(ContentCategory::Link);
    }
    if contains_str(&t, "[media]") || contains_str(&t, "[image]") || contains_str(&t, "[video]")
        || contains_str(&t, "[audio]") {
        signals.push(ContentCategory::MediaRef);
    }
    let system: [&str; 5] = [
        "joined the group",
        "left the group",
        "was added",
        "was removed",
        "changed the group name",
    ];
    assert(system@.map_values(|p: &str| p@) =~= system_indicators());
    let mut any_system = false;
    let mut j: usize = 0;
    while j < 5
        invariant
            0 <= j <= 5,
            t@ == text@,
            system@.map_values(|p: &str| p@) == system_indicators(),
            any_system <==> exists|q: int| 0 <= q < j && contains_seq(t@, #[trigger] system_indicators()[q]),
        decreases 5 - j,
    {
        assert(system_indicators()[j as int] == system@[j as int]@);
        if contains_str(&t, system[j]) {
            any_system = true;
        }
        j = j + 1;
    }
    if any_system {
        signals.push(ContentCategory::SystemMessage);
    }
    if signals.len() == 0 {
        signals.push(ContentCategory::PlainText);
    }
    assert(signals@ =~= content_signals(t@));
    let category = if signals.len() == 1 {
        signals[0]
    } else {
        ContentCategory::Mixed
    };
    let detected_languages = detect_languages(text);
    Ok(ContentClassification { category, signals, detected_languages })
}

/// A message holding `http://` or `https://` carries a link: its signals
/// include `Link`, and its category is `Link`, or `Mixed` when there are
/// other signals, never plain text.
pub proof fn lemma_url_gives_link_signal(before: Seq<char>, scheme: Seq<char>, after: Seq<char>)
    requires
        scheme == "http://"@ || scheme == "https://"@,
    ensures
        content_signals(before + scheme + after).contains(ContentCategory::Link),
        content_category(before + scheme + after) == ContentCategory::Link || content_category(
            before + scheme + after,
        ) == ContentCategory::Mixed,
{
    let t = before + scheme + after;
    lemma_contains_within(before, scheme, after);
    let code: Seq<ContentCategory> = if code_hits(t, 14) >= 2 { seq![ContentCategory::Code] } else { Seq::empty() };
    let sig = content_signals(t);
    assert(sig[code.len() as int] == ContentCategory::Link);
    if sig.len() == 1 {
        assert(code.len() == 0);
    }
}

/// A media placeholder gives a media signal: a message holding `[media]`,
/// `[image]`, `[video]` or `[audio]` has `MediaRef` among its signals and is
/// not plain text.
pub proof fn lemma_media_marker_gives_signal(before: Seq<char>, marker: Seq<char>, after: Seq<char>)
    requires
        marker == "[media]"@ || marker == "[image]"@ || marker == "[video]"@ || marker == "[audio]"@,
    ensures
        content_signals(before + marker + after).contains(ContentCategory::MediaRef),
        content_category(before + marker + after) != ContentCategory::PlainText,
{
    let t = before + marker + after;
    lemma_contains_within(before, marker, after);
    let code: Seq<ContentCategory> = if code_hits(t, 14) >= 2 { seq![ContentCategory::Code] } else { Seq::empty() };
    let link: Seq<ContentCategory> = if contains_seq(t, "http://"@) || contains_seq(t, "https://"@) {
        seq![ContentCategory::Link]
    } else {
        Seq::empty()
    };
    let sig = content_signals(t);
    assert(sig[(code.len() + link.len()) as int] == ContentCategory::MediaRef);
    if sig.len() == 1 {
        assert(code.len() + link.len() == 0);
    }
}

/// A group-event phrase gives a system signal: a message holding "joined the
/// group", "left the group", "was added", "was removed" or "changed the
/// group name" has `SystemMessage` among its signals and is not plain text.
pub proof fn lemma_system_phrase_gives_signal(before: Seq<char>, phrase: Seq<char>, after: Seq<char>)
    requires
        phrase == "joined the group"@ || phrase == "left the group"@ || phrase == "was added"@ || phrase
            == "was removed"@ || phrase == "changed the group name"@,
    ensures
        content_signals(before + phrase + after).contains(ContentCategory::SystemMessage),
        content_category(before + phrase + after) != ContentCategory::PlainText,
{
    let t = before + phrase + after;
    lemma_contains_within(before, phrase, after);
    let k: int = if phrase == "joined the group"@ {
        0
    } else if phrase == "left the group"@ {
        1
    } else if phrase == "was added"@ {
        2
    } else if phrase == "was removed"@ {
        3
    } else {
        4
    };
    assert(system_indicators()[k] == phrase);
    assert(contains_seq(t, system_indicators()[k]));
    let sig = content_signals(t);
    assert(sig[sig.len() - 1] == ContentCategory::SystemMessage);
    if sig.len() == 1 {
        assert(sig[0] == ContentCategory::SystemMessage);
    }
}

} // verus!
