use controlplane::tokenizer::{EncodedInput, SharedTokenizer};

fn word_tokenizer() -> tokenizers::Tokenizer {
    let json = r#"{
        "version": "1.0",
        "truncation": null,
        "padding": null,
        "added_tokens": [],
        "normalizer": null,
        "pre_tokenizer": {"type": "WhitespaceSplit"},
        "post_processor": null,
        "decoder": null,
        "model": {
            "type": "WordLevel",
            "vocab": {"[UNK]": 0, "hello": 1, "world": 2, "how": 3, "are": 4, "you": 5},
            "unk_token": "[UNK]"
        }
    }"#;
    tokenizers::Tokenizer::from_bytes(json.as_bytes()).unwrap()
}

#[test]
fn encoding_widens_ids_and_masks() {
    let e = EncodedInput::from_encoding(&[7, 8, 9], &[1, 1, 0], &[0, 0, 1]);
    assert_eq!(e.input_ids, vec![7i64, 8, 9]);
    assert_eq!(e.attention_mask, vec![1i64, 1, 0]);
    assert_eq!(e.token_type_ids, vec![0i64, 0, 1]);
    assert_eq!(e.length, 3);
    let big = EncodedInput::from_encoding(&[u32::MAX], &[1], &[0]);
    assert_eq!(big.input_ids, vec![u32::MAX as i64]);
}

#[test]
fn shared_tokenizer_encodes_texts_and_pairs() {
    let t = SharedTokenizer::new("toy", word_tokenizer());
    assert_eq!(t.model_id(), "toy");
    let e = t.encode("hello world").unwrap();
    assert_eq!(e.input_ids, vec![1, 2]);
    assert_eq!(e.attention_mask, vec![1, 1]);
    assert_eq!(e.length, 2);
    let unknown = t.encode("hello stranger").unwrap();
    assert_eq!(unknown.input_ids, vec![1, 0]);
    let p = t.encode_pair("how are", "you").unwrap();
    assert_eq!(p.input_ids, vec![3, 4, 5]);
    assert_eq!(p.token_type_ids, vec![0, 0, 1]);
    assert_eq!(p.length, 3);
}

#[test]
fn sliding_window_keeps_last_tokens() {
    let t = SharedTokenizer::new("toy", word_tokenizer());
    assert_eq!(t.sliding_window_truncate("hello world how are you", 2).unwrap(), "are you");
    assert_eq!(t.sliding_window_truncate("hello world", 5).unwrap(), "hello world");
    assert_eq!(t.sliding_window_truncate("  hello   world ", 2).unwrap(), "  hello   world ");
    assert_eq!(t.truncate_ids("whatever", &[3, 4, 5], 3).unwrap(), "whatever");
    assert_eq!(t.truncate_ids("whatever", &[3, 4, 5], 1).unwrap(), "you");
}

#[test]
fn word_level_tokenizer_encodes_deterministically() {
    let t = SharedTokenizer::new("toy", word_tokenizer());
    assert!(t.encodes_deterministically());
    assert_eq!(t.encode("how are you").unwrap().input_ids, t.encode("how are you").unwrap().input_ids);
}

#[test]
fn truncation_decodes_the_last_ids() {
    let t = SharedTokenizer::new("toy", word_tokenizer());
    assert_eq!(t.truncate_ids("ignored", &[1, 2, 3, 4, 5], 2).unwrap(), "are you");
    assert_eq!(t.truncate_ids("ignored", &[1, 2, 3, 4, 5], 0).unwrap(), "");
    assert_eq!(t.truncate_ids("ignored", &[], 0).unwrap(), "ignored");
}
