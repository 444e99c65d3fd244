use controlplane::history::ConversationHistory;
use controlplane::labels::{resolve_nli_indices, resolve_toxic_indices, to_ascii_lowercase};
use controlplane::text::{is_whitespace, join_strings, split_words, str_contains, word_count};

#[test]
fn words_are_runs_of_non_whitespace() {
    assert_eq!(split_words("  How do\tI\nimplement  it? "), vec!["How", "do", "I", "implement", "it?"]);
    assert_eq!(word_count(""), 0);
    assert_eq!(word_count("   \t\n"), 0);
    assert_eq!(word_count("one"), 1);
    assert_eq!(word_count("a\u{3000}b\u{2028}c"), 3);
}

#[test]
fn joining_strings() {
    let ws = vec!["a".to_string(), "b".to_string(), "c".to_string()];
    assert_eq!(join_strings(&ws, ", "), "a, b, c");
    assert_eq!(join_strings(&[], ", "), "");
    assert_eq!(join_strings(&ws[..1], ", "), "a");
}

#[test]
fn history_summary_lines() {
    let mut h = ConversationHistory::new();
    assert_eq!(h.format_summary(), "");
    h.push("user", "What is Rust?");
    h.push("assistant", "A systems language.");
    assert_eq!(h.format_summary(), "user: What is Rust?\nassistant: A systems language.\n");
    let copy = h.clone();
    assert_eq!(copy.format_summary(), h.format_summary());
}

#[test]
fn ascii_lowercase_leaves_other_characters() {
    assert_eq!(to_ascii_lowercase("Non-Toxic ÄB"), "non-toxic Äb");
}

#[test]
fn toxic_indices_from_labels() {
    let labels = |v: &[&str]| v.iter().map(|s| s.to_string()).collect::<Vec<String>>();
    assert_eq!(resolve_toxic_indices(&labels(&[])), vec![1]);
    assert_eq!(resolve_toxic_indices(&labels(&["LABEL_0", "LABEL_1"])), vec![1]);
    assert_eq!(resolve_toxic_indices(&labels(&["clean", "toxic"])), vec![1]);
    assert_eq!(
        resolve_toxic_indices(&labels(&["toxic", "severe_toxic", "Neutral", "insult"])),
        vec![0, 1, 3]
    );
    assert_eq!(resolve_toxic_indices(&labels(&["clean", "safe"])), vec![1]);
    assert_eq!(resolve_toxic_indices(&labels(&["NOTHATE", "hate"])), vec![1]);
}

#[test]
fn nli_indices_from_labels() {
    let labels = |v: &[&str]| v.iter().map(|s| s.to_string()).collect::<Vec<String>>();
    let idx = resolve_nli_indices(&labels(&[]), "cross_encoder").unwrap();
    assert_eq!((idx.contradiction, idx.entailment, idx.neutral), (0, 1, 2));
    let idx = resolve_nli_indices(&labels(&["entailment", "neutral", "contradiction"]), "m").unwrap();
    assert_eq!((idx.contradiction, idx.entailment, idx.neutral), (2, 0, 1));
    let err = resolve_nli_indices(&labels(&["contradiction", "entailment"]), "nli").unwrap_err();
    assert_eq!(err, "Model nli missing required class 'neutral'");
}

#[test]
fn whitespace_follows_the_unicode_property() {
    for c in [' ', '\t', '\n', '\r', '\u{0B}', '\u{0C}', '\u{85}', '\u{A0}', '\u{1680}', '\u{2000}', '\u{200A}', '\u{2028}', '\u{2029}', '\u{202F}', '\u{205F}', '\u{3000}'] {
        assert!(is_whitespace(c), "{:?}", c);
        assert_eq!(is_whitespace(c), c.is_whitespace());
    }
    for c in ['a', '0', '\u{200B}', '\u{180E}', '\u{FEFF}', '_', 'é'] {
        assert!(!is_whitespace(c), "{:?}", c);
        assert_eq!(is_whitespace(c), c.is_whitespace());
    }
}

#[test]
fn substring_search() {
    assert!(str_contains("say __STUB_BLOCK__ now", "__STUB_BLOCK__"));
    assert!(str_contains("abc", ""));
    assert!(str_contains("", ""));
    assert!(!str_contains("", "a"));
    assert!(!str_contains("ab", "abc"));
    assert!(str_contains("ééa", "éa"));
    assert!(!str_contains("aab", "abb"));
    assert!(str_contains("aab", "ab"));
}
