use controlplane::coherence::{estimate_token_count, screen_query, CoherenceScreen};
use controlplane::error::InferenceError;
use controlplane::model_config::{
    activation_for_problem_type, label_indices_fit, labels_by_index, logits_of, logits_shape_error, parse_index,
    usable_max_sequence_length, Activation,
};
use controlplane::prefilter::{check_length, entropy_applies, measure_query, trim_text, LengthCheck};

#[test]
fn activation_follows_problem_type() {
    assert_eq!(activation_for_problem_type(Some("multi_label_classification")), Activation::Sigmoid);
    assert_eq!(activation_for_problem_type(Some("single_label_classification")), Activation::Softmax);
    assert_eq!(activation_for_problem_type(Some("regression")), Activation::Softmax);
    assert_eq!(activation_for_problem_type(Some("other")), Activation::Softmax);
    assert_eq!(activation_for_problem_type(None), Activation::Softmax);
}

#[test]
fn max_sequence_length_from_config() {
    assert_eq!(usable_max_sequence_length(None, None), 512);
    assert_eq!(usable_max_sequence_length(Some(514), Some("roberta")), 512);
    assert_eq!(usable_max_sequence_length(Some(514), Some("xlm-roberta")), 512);
    assert_eq!(usable_max_sequence_length(Some(514), Some("camembert")), 512);
    assert_eq!(usable_max_sequence_length(Some(512), Some("bert")), 512);
    assert_eq!(usable_max_sequence_length(Some(256), None), 256);
    assert_eq!(usable_max_sequence_length(Some(2), Some("roberta")), 512);
    assert_eq!(usable_max_sequence_length(Some(1), Some("roberta")), 512);
    assert_eq!(usable_max_sequence_length(Some(0), Some("bert")), 512);
}

#[test]
fn label_indices_parse_like_usize() {
    assert_eq!(parse_index("0"), Some(0));
    assert_eq!(parse_index("17"), Some(17));
    assert_eq!(parse_index("+3"), Some(3));
    assert_eq!(parse_index("007"), Some(7));
    assert_eq!(parse_index(""), None);
    assert_eq!(parse_index("+"), None);
    assert_eq!(parse_index("-1"), None);
    assert_eq!(parse_index("1a"), None);
    assert_eq!(parse_index(" 1"), None);
    assert_eq!(parse_index("18446744073709551615"), Some(usize::MAX));
    assert_eq!(parse_index("18446744073709551616"), None);
    assert_eq!(parse_index("99999999999999999999999"), None);
}

#[test]
fn labels_ordered_by_index() {
    let e = |k: &str, v: Option<&str>| (k.to_string(), v.map(|s| s.to_string()));
    let entries = vec![
        e("2", Some("noise")),
        e("0", Some("clean")),
        e("x", Some("ignored")),
        e("3", None),
        e("1", Some("mild")),
        e("10", Some("tenth")),
    ];
    assert_eq!(
        labels_by_index(&entries),
        vec![
            "clean", "mild", "noise", "LABEL_3", "LABEL_4", "LABEL_5", "LABEL_6", "LABEL_7", "LABEL_8", "LABEL_9",
            "tenth",
        ]
    );
    let dup = vec![e("0", Some("first")), e("+0", Some("second")), e("1", Some("one"))];
    assert_eq!(labels_by_index(&dup), vec!["second", "one"]);
    assert!(labels_by_index(&vec![]).is_empty());
}

#[test]
fn logits_take_the_class_count() {
    let data = [0.1f32, 0.2, 0.7, 9.0];
    assert_eq!(logits_of(&data, Some(3)), Some(vec![0.1f32, 0.2, 0.7]));
    assert_eq!(logits_of(&data, Some(8)), Some(vec![0.1f32, 0.2, 0.7, 9.0]));
    assert_eq!(logits_of(&data, Some(0)), None);
    assert_eq!(logits_of(&data, None), None);
    assert_eq!(logits_of::<f32>(&[], Some(2)), None);
    match logits_shape_error("toxicity", "[1, 0]".to_string()) {
        InferenceError::ShapeMismatch { model, expected, actual } => {
            assert_eq!(model, "toxicity");
            assert_eq!(expected, "[1, num_classes]");
            assert_eq!(actual, "[1, 0]");
        }
        other => panic!("unexpected {other:?}"),
    }
}

#[test]
fn trimming_removes_unicode_whitespace() {
    assert_eq!(trim_text("  hello world \n"), "hello world");
    assert_eq!(trim_text("\u{3000}x\u{00a0}"), "x");
    assert_eq!(trim_text(" \t "), "");
    assert_eq!(trim_text("a"), "a");
}

#[test]
fn prefilter_length_screen() {
    assert_eq!(check_length("   a  ", 2, 8000), LengthCheck::TooShort { len: 1 });
    assert_eq!(check_length("", 2, 8000), LengthCheck::TooShort { len: 0 });
    assert_eq!(check_length("hello", 2, 4), LengthCheck::TooLong { len: 5 });
    assert_eq!(check_length("hello", 2, 8000), LengthCheck::WithinLimits);
    assert_eq!(check_length("é", 2, 8000), LengthCheck::TooShort { len: 1 });
    assert_eq!(check_length("éé", 2, 8000), LengthCheck::WithinLimits);
    assert_eq!(check_length("ééééé", 2, 4), LengthCheck::TooLong { len: 5 });
    assert_eq!(
        LengthCheck::TooShort { len: 1 }.message(2, 8000).unwrap(),
        "query too short (length=1, min_chars=2)"
    );
    assert_eq!(
        LengthCheck::TooLong { len: 9001 }.message(2, 8000).unwrap(),
        "query exceeds maximum size (length=9001, max_chars=8000)"
    );
    assert!(LengthCheck::WithinLimits.message(2, 8000).is_none());
}

#[test]
fn prefilter_measures() {
    let m = measure_query(" héllo wörld ✓ ");
    assert_eq!(m.len, " héllo wörld ✓ ".len());
    assert_eq!(m.trimmed_len, "héllo wörld ✓".len());
    assert_eq!(m.total_chars, 15);
    // '✓' is neither ASCII, alphanumeric nor whitespace.
    assert_eq!(m.expected_chars, 14);
    let l = m.frequencies.iter().find(|(c, _)| *c == 'l').unwrap();
    assert_eq!(l.1, 3);
    let space = m.frequencies.iter().find(|(c, _)| *c == ' ').unwrap();
    assert_eq!(space.1, 4);
    assert_eq!(m.frequencies[0].0, ' ');
    let total: usize = m.frequencies.iter().map(|(_, n)| n).sum();
    assert_eq!(total, 15);
    assert!(entropy_applies(16));
    assert!(!entropy_applies(15));
}

#[test]
fn coherence_screen_bypasses_out_of_range() {
    assert_eq!(estimate_token_count("one two three"), 3);
    let long = "w ".repeat(70);
    assert_eq!(screen_query(&long, 3, 64), CoherenceScreen::AboveMax { tokens: 70 });
    assert_eq!(screen_query("hi there", 3, 64), CoherenceScreen::BelowMin { tokens: 2 });
    assert_eq!(screen_query("a perfectly normal question", 3, 64), CoherenceScreen::Classify { tokens: 4 });
    assert_eq!(
        CoherenceScreen::AboveMax { tokens: 70 }.bypass_reason(),
        Some("query_exceeds_max_tokens_for_model")
    );
    assert_eq!(CoherenceScreen::BelowMin { tokens: 2 }.bypass_reason(), Some("query_below_min_tokens_for_model"));
    assert_eq!(CoherenceScreen::Classify { tokens: 4 }.bypass_reason(), None);
    assert_eq!(CoherenceScreen::BelowMin { tokens: 2 }.estimated_tokens(), 2);
}

#[test]
fn labels_keep_their_logit_index() {
    let e = |k: &str, v: &str| (k.to_string(), Some(v.to_string()));
    let gapped = vec![e("2", "toxic"), e("0", "clean")];
    assert_eq!(labels_by_index(&gapped), vec!["clean", "LABEL_1", "toxic"]);
    let only_last = vec![e("1", "b")];
    assert_eq!(labels_by_index(&only_last), vec!["LABEL_0", "b"]);
    assert!(label_indices_fit(&gapped));
    assert!(!label_indices_fit(&vec![e("18446744073709551615", "huge")]));
}
