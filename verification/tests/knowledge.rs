use cs_core::knowledge::content_classifier::{classify, detect_languages, ContentCategory};
use cs_core::knowledge::link_safety::{check_lowercased_url, check_url, check_urls_in_text, extract_urls, LinkSafetyVerdict};
use cs_core::knowledge::pii_redaction::{
    detect_pii, detect_pii_checked, pii_scan_is_safe, redact_text, redact_text_checked, PiiType,
};
use cs_core::knowledge::threat_detection::{analyze_lowercased_text, analyze_text, is_suspicious_url, ThreatLevel};
use cs_core::knowledge::KnowledgeError;

#[test]
fn test_safe_url() {
    let result = check_url("https://example.com/page").unwrap();
    assert_eq!(result.verdict, LinkSafetyVerdict::Safe);
}

#[test]
fn test_malicious_domain() {
    let result = check_url("https://evil-phishing.example/login").unwrap();
    assert_eq!(result.verdict, LinkSafetyVerdict::Malicious);
}

#[test]
fn test_suspicious_tld() {
    let result = check_url("https://suspicious.tk/page").unwrap();
    assert_eq!(result.verdict, LinkSafetyVerdict::Suspicious);
}

#[test]
fn test_ip_only_url() {
    let result = check_url("http://192.168.1.1/admin").unwrap();
    assert_eq!(result.verdict, LinkSafetyVerdict::Suspicious);
}

#[test]
fn test_extract_urls() {
    let urls = extract_urls("Visit https://a.com and http://b.com/page");
    assert_eq!(urls.len(), 2);
    assert_eq!(urls[0], "https://a.com");
    assert_eq!(urls[1], "http://b.com/page");
}

#[test]
fn check_url_reports_every_reason_in_order() {
    let r = check_url("HTTP://1.2.3.4/Bit.ly/x.tk").unwrap();
    assert_eq!(r.url, "HTTP://1.2.3.4/Bit.ly/x.tk");
    assert_eq!(r.reasons, vec!["ip_only_url".to_string(), "url_shortener:bit.ly/".to_string()]);
    assert_eq!(r.verdict, LinkSafetyVerdict::Suspicious);
    let r = check_lowercased_url("X", "https://fake-login.scam.tk/t.co/");
    assert_eq!(
        r.reasons,
        vec![
            "known_malicious_domain:fake-login.scam".to_string(),
            "suspicious_tld".to_string(),
            "url_shortener:t.co/".to_string()
        ]
    );
    assert_eq!(r.verdict, LinkSafetyVerdict::Malicious);
    assert_eq!(r.url, "X");
}

#[test]
fn extract_urls_lists_https_first_and_skips_nested_matches() {
    let urls = extract_urls("see http://b.x then https://a.y?u=http://c.z <ok>");
    assert_eq!(urls, vec!["https://a.y?u=http://c.z".to_string(), "http://b.x".to_string()]);
    let urls = extract_urls("<a href=\"https://q.r/s\">");
    assert_eq!(urls, vec!["https://q.r/s".to_string()]);
    assert!(extract_urls("no links here").is_empty());
}

#[test]
fn check_urls_in_text_checks_each_extracted_url() {
    let results = check_urls_in_text("https://evil-phishing.example and http://ok.org").unwrap();
    assert_eq!(results.len(), 2);
    assert_eq!(results[0].verdict, LinkSafetyVerdict::Malicious);
    assert_eq!(results[1].url, "http://ok.org");
    assert_eq!(results[1].verdict, LinkSafetyVerdict::Safe);
}

#[test]
fn test_detect_email() {
    let matches = detect_pii("Contact me at alice@example.com please").unwrap();
    assert!(matches.iter().any(|m| m.pii_type == PiiType::Email));
}

#[test]
fn test_redact_email() {
    let redacted = redact_text("Email: bob@test.com").unwrap();
    assert!(!redacted.contains("bob@test.com"));
    assert!(redacted.contains("[REDACTED:EMAIL:"));
}

#[test]
fn test_detect_phone() {
    let matches = detect_pii("Call 555-123-4567 now").unwrap();
    assert!(matches.iter().any(|m| m.pii_type == PiiType::PhoneNumber));
}

#[test]
fn test_detect_credit_card() {
    let matches = detect_pii("Card: 4532015112830366").unwrap();
    assert!(matches.iter().any(|m| m.pii_type == PiiType::CreditCard));
}

#[test]
fn test_no_false_positives() {
    let matches = detect_pii("Hello world, how are you?").unwrap();
    assert!(matches.is_empty());
}

#[test]
fn detected_matches_carry_positions_and_markers() {
    let matches = detect_pii("Email: bob@test.com").unwrap();
    assert_eq!(matches.len(), 1);
    assert_eq!((matches[0].start, matches[0].end), (7, 19));
    assert_eq!(matches[0].redacted, "[REDACTED:EMAIL:12]");
    let matches = detect_pii("Card: 4532015112830366").unwrap();
    assert_eq!(matches.len(), 2);
    assert_eq!(matches[0].pii_type, PiiType::PhoneNumber);
    assert_eq!(matches[1].pii_type, PiiType::CreditCard);
    assert_eq!((matches[1].start, matches[1].end), (6, 22));
    assert_eq!(matches[1].redacted, "[REDACTED:CC:16]");
}

#[test]
fn redaction_replaces_each_match_in_place() {
    assert_eq!(redact_text("Email: bob@test.com").unwrap(), "Email: [REDACTED:EMAIL:12]");
    assert_eq!(redact_text("no pii").unwrap(), "no pii");
    assert_eq!(
        redact_text("a x@y.z b 555-123-4567").unwrap(),
        "a [REDACTED:EMAIL:5] b [REDACTED:PHONE:12]"
    );
}

#[test]
fn phone_matches_are_byte_offsets() {
    let text = "T\u{e9}l: 5551234567";
    let matches = detect_pii(text).unwrap();
    assert_eq!(matches.len(), 1);
    assert_eq!(matches[0].pii_type, PiiType::PhoneNumber);
    assert_eq!((matches[0].start, matches[0].end), (6, 16));
    assert_eq!(matches[0].redacted, "[REDACTED:PHONE:10]");
    assert_eq!(&text[matches[0].start..matches[0].end], "5551234567");
    assert_eq!(redact_text(text).unwrap(), "T\u{e9}l: [REDACTED:PHONE:10]");
}

#[test]
fn overlapping_matches_are_merged() {
    let s = redact_text("Card: 4532015112830366").unwrap();
    assert_eq!(s, "Card: [REDACTED:PHONE:16]");
    assert!(!s.contains("4532015112830366"));
    assert_eq!(redact_text("(555)1234567a@b.c").unwrap(), "([REDACTED:PHONE:11]");
    assert_eq!(redact_text("a5551234567@b.c x").unwrap(), "[REDACTED:EMAIL:15] x");
}

#[test]
fn checked_variants_refuse_unsafe_text() {
    assert_eq!(redact_text_checked("Card: 4532015112830366").unwrap(), "Card: [REDACTED:PHONE:16]");
    assert!(redact_text_checked("\u{2192}a@b.c").is_none());
    assert_eq!(redact_text_checked("x a@b.c").unwrap(), "x [REDACTED:EMAIL:5]");
    assert!(!pii_scan_is_safe("\u{2192}a@b.c"));
    assert!(detect_pii_checked("\u{2192}a@b.c").is_none());
    assert!(pii_scan_is_safe("\u{e9}a@b.c"));
    assert_eq!(detect_pii_checked("plain").unwrap().len(), 0);
}

#[test]
fn test_classify_plain_text() {
    let result = classify("Hello world, how are you?").unwrap();
    assert_eq!(result.category, ContentCategory::PlainText);
}

#[test]
fn test_classify_code() {
    let result = classify("fn main() {\n    println!(\"hello\");\n}").unwrap();
    assert_eq!(result.category, ContentCategory::Code);
}

#[test]
fn test_classify_link() {
    let result = classify("Check out https://example.com").unwrap();
    assert_eq!(result.category, ContentCategory::Link);
}

#[test]
fn test_classify_mixed() {
    let result = classify("Check https://example.com\n```python\ndef hello():\n    print('hi')\n```").unwrap();
    assert_eq!(result.category, ContentCategory::Mixed);
}

#[test]
fn test_classify_system_message() {
    let result = classify("Alice joined the group").unwrap();
    assert_eq!(result.category, ContentCategory::SystemMessage);
}

#[test]
fn test_detect_languages() {
    let result = classify("Hello 你好").unwrap();
    assert!(result.detected_languages.contains(&"en".to_string()));
    assert!(result.detected_languages.contains(&"zh".to_string()));
}

#[test]
fn languages_follow_script_order_and_default_to_unknown() {
    assert_eq!(detect_languages("Привет こんにちは 안녕 A"), vec!["en", "ja", "ko", "ru"]);
    assert_eq!(detect_languages("123 !?"), vec!["unknown"]);
    let r = classify("[image] was added").unwrap();
    assert_eq!(r.signals, vec![ContentCategory::MediaRef, ContentCategory::SystemMessage]);
    assert_eq!(r.category, ContentCategory::Mixed);
}

#[test]
fn test_safe_text() {
    let result = analyze_text("Hello, how are you doing today?").unwrap();
    assert_eq!(result.level, ThreatLevel::Safe);
    assert!(result.reasons.is_empty());
}

#[test]
fn test_phishing_detection() {
    let result = analyze_text("Please verify your account immediately").unwrap();
    assert_eq!(result.level, ThreatLevel::Malicious);
    assert!(!result.reasons.is_empty());
}

#[test]
fn test_suspicious_url() {
    let result = analyze_text("Check this out: https://bit.ly/suspicious").unwrap();
    assert_eq!(result.level, ThreatLevel::Suspicious);
}

#[test]
fn test_excessive_urls() {
    let result = analyze_text("Visit http://a.com and http://b.com and http://c.com").unwrap();
    assert_eq!(result.level, ThreatLevel::Suspicious);
    assert!(result.reasons.iter().any(|r| r == "excessive_urls"));
}

#[test]
fn threat_reasons_are_listed_in_order() {
    let a = analyze_lowercased_text("wire transfer via amzn.to/x https://a http://b https://c");
    assert_eq!(
        a.reasons,
        vec![
            "suspicious_url:amzn.to/".to_string(),
            "phishing_keyword:wire transfer".to_string(),
            "excessive_urls".to_string()
        ]
    );
    assert_eq!(a.level, ThreatLevel::Malicious);
    assert!(is_suspicious_url("HTTPS://GOO.GL/abc"));
    assert!(!is_suspicious_url("https://example.com"));
}

#[test]
fn knowledge_error_from_string_is_custom() {
    let e: KnowledgeError = String::from("boom").into();
    assert!(matches!(e, KnowledgeError::Custom(ref m) if m == "boom"));
}
