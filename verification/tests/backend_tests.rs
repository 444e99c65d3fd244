use controlplane::config::{InferenceConfig, ModelOverrideConfig};
use controlplane::pool::{effective_pool_size, graph_level, GraphLevel, IdleSessions};
use controlplane::registry::{
    attempt_live_backend, missing_files, model_registry_table, plan_model, reported_live, unregistered_overrides,
    Discovery, ModelInfo, ModelRegistry,
};
use controlplane::error::InferenceError;
use controlplane::stub::{hashed_logits, StubBackend, StubScores};

#[test]
fn test_model_override_resolution() {
    let model_id = "toxicity";
    let custom_weights = "my_custom_weights.onnx";
    let config = InferenceConfig { model_dir: "cp_test_overrides".to_string(), ..Default::default() };
    let over = ModelOverrideConfig { pool_size: Some(42), weights_file: Some(custom_weights.to_string()) };
    let plan = plan_model(&config, Some(&over));
    assert_eq!(plan.pool_size, 42);
    assert_eq!(plan.weights_file, custom_weights);
    // Weights, tokenizer.json and config.json are all present, so loading is attempted;
    // the fake weights do not load, and the model falls back to the stub.
    let missing = missing_files(true, true, true);
    assert!(missing.is_empty());
    let attempted = attempt_live_backend(&missing, config.force_stub);
    assert!(attempted);
    let live = reported_live(attempted, false);
    let table = model_registry_table();
    let registered = table.iter().find(|r| r.model_id == model_id).unwrap();
    let info = ModelInfo::for_model(registered, live);
    assert_eq!(info.backend, "stub");
    assert_eq!(info.model_id, model_id);
}

#[test]
fn plan_defaults_without_override() {
    let config = InferenceConfig::default();
    let plan = plan_model(&config, None);
    assert_eq!(plan.pool_size, 4);
    assert_eq!(plan.weights_file, "model.onnx");
    let partial = ModelOverrideConfig { pool_size: None, weights_file: Some("w.onnx".to_string()) };
    let plan = plan_model(&config, Some(&partial));
    assert_eq!(plan.pool_size, 4);
    assert_eq!(plan.weights_file, "w.onnx");
}

#[test]
fn missing_files_and_stub_fallback() {
    assert_eq!(missing_files(false, true, false), vec!["weights", "config.json"]);
    assert_eq!(missing_files(false, false, false), vec!["weights", "tokenizer.json", "config.json"]);
    assert!(!attempt_live_backend(&vec!["tokenizer.json"], false));
    assert!(!attempt_live_backend(&vec![], true));
    assert!(reported_live(true, true));
    assert!(!reported_live(false, true));
}

#[test]
fn registry_table_lists_known_models() {
    let table = model_registry_table();
    let ids: Vec<&str> = table.iter().map(|r| r.model_id).collect();
    assert_eq!(ids, vec!["coherence", "toxicity", "intent", "cross_encoder"]);
    let classes: Vec<usize> = table.iter().map(|r| r.num_classes).collect();
    assert_eq!(classes, vec![4, 2, 2, 3]);
    assert_eq!(table[3].hf_repo, "cross-encoder/nli-distilroberta-base");
    let overrides = vec!["toxicity".to_string(), "sentiment".to_string()];
    assert_eq!(unregistered_overrides(&overrides), vec!["sentiment"]);
}

#[test]
fn registry_get_returns_latest_registration() {
    let table = model_registry_table();
    let mut reg: ModelRegistry<u32> = ModelRegistry::new();
    assert!(reg.get("toxicity").is_none());
    reg.register("toxicity", 1, ModelInfo::for_model(&table[1], false));
    reg.register("intent", 2, ModelInfo::for_model(&table[2], true));
    assert_eq!(reg.get("toxicity"), Some(&1));
    assert_eq!(reg.get("intent"), Some(&2));
    assert!(reg.get("coherence").is_none());
    reg.register("toxicity", 7, ModelInfo::for_model(&table[1], true));
    assert_eq!(reg.get("toxicity"), Some(&7));
    let inventory = reg.inventory();
    assert_eq!(inventory.len(), 3);
    assert_eq!(inventory[1].backend, "onnx");
    assert!(inventory[1].is_live);
}

#[test]
fn stub_metadata() {
    let ce = StubBackend::new("cross_encoder", 3);
    assert_eq!(ce.id(), "cross_encoder");
    assert!(!ce.is_live());
    assert_eq!(ce.class_names(), vec!["contradiction", "entailment", "neutral"]);
    assert!(StubBackend::new("toxicity", 2).class_names().is_empty());
}

#[test]
fn stub_truncation_keeps_last_words() {
    let s = StubBackend::new("cross_encoder", 3);
    assert_eq!(s.sliding_window_truncate("one two  three\tfour", 2).unwrap(), "three four");
    assert_eq!(s.sliding_window_truncate("one two", 5).unwrap(), "one two");
}

#[test]
fn stub_block_triggers() {
    assert!(matches!(StubBackend::new("coherence", 4).classify_scores("x __STUB_BLOCK__ y"), StubScores::CoherenceBlock));
    assert!(matches!(StubBackend::new("toxicity", 2).classify_scores("__STUB_BLOCK_TOXICITY__"), StubScores::ToxicityBlock));
    assert!(matches!(StubBackend::new("intent", 2).classify_scores("__STUB_BLOCK__"), StubScores::IntentBlock));
    assert!(matches!(
        StubBackend::new("other", 5).classify_scores("__STUB_BLOCK__"),
        StubScores::GenericBlock { classes: 5 }
    ));
    // A model-specific trigger only blocks its own model.
    assert!(matches!(
        StubBackend::new("intent", 2).classify_scores("__STUB_BLOCK_TOXICITY__"),
        StubScores::Hashed { .. }
    ));
    assert!(StubBackend::new("intent", 2).is_slow_trigger("wait __STUB_SLOW__"));
    assert!(!StubBackend::new("intent", 2).is_slow_trigger("wait"));
}

#[test]
fn stub_hashed_scores_are_deterministic() {
    let s = StubBackend::new("toxicity", 2);
    let a = s.classify_scores("hello world");
    let b = s.classify_scores("hello world");
    match (a, b) {
        (StubScores::Hashed { hundredths: x }, StubScores::Hashed { hundredths: y }) => {
            assert_eq!(x, y);
            assert_eq!(x.len(), 2);
            assert!(x.iter().all(|v| *v < 100));
            assert_eq!((x[0] + 31) % 100, x[1]);
        }
        _ => panic!("expected hashed scores"),
    }
    assert_eq!(hashed_logits(5, 3), vec![5, 36, 67]);
    assert_eq!(hashed_logits(u64::MAX, 2), vec![15, 30]);
}

#[test]
fn stub_pair_scores() {
    assert_eq!(StubBackend::pair_text("a", "b"), "a [SEP] b");
    let ce = StubBackend::new("cross_encoder", 3);
    assert!(matches!(ce.classify_pair_scores("premise", "__STUB_BLOCK_GROUNDING__"), StubScores::CrossEncoderBlock));
    assert!(matches!(ce.classify_pair_scores("premise", "answer"), StubScores::CrossEncoderGrounded));
    let other = StubBackend::new("intent", 2);
    assert!(matches!(other.classify_pair_scores("__STUB_BLOCK__", "x"), StubScores::PairBlock));
    match other.classify_pair_scores("p", "h") {
        StubScores::PairHashed { classes, bonus } => {
            assert_eq!(classes, 2);
            assert!(bonus < 10);
        }
        _ => panic!("expected hashed pair scores"),
    }
}

#[test]
fn pool_settings() {
    assert_eq!(graph_level("disable"), GraphLevel::Disable);
    assert_eq!(graph_level("basic"), GraphLevel::Basic);
    assert_eq!(graph_level("extended"), GraphLevel::Extended);
    assert_eq!(graph_level("all"), GraphLevel::All);
    assert_eq!(graph_level("fastest"), GraphLevel::All);
    assert_eq!(effective_pool_size(0), 1);
    assert_eq!(effective_pool_size(4), 4);
}

#[test]
fn idle_sessions_checkout_and_return() {
    let mut idle = IdleSessions::new(vec![10, 20]);
    assert_eq!(idle.idle_count(), 2);
    assert_eq!(idle.acquire("m").unwrap(), 20);
    assert_eq!(idle.acquire("m").unwrap(), 10);
    match idle.acquire("m") {
        Err(InferenceError::PoolExhausted { model, message }) => {
            assert_eq!(model, "m");
            assert_eq!(message, "session pool was empty despite semaphore permit");
        }
        other => panic!("unexpected {other:?}"),
    }
    idle.release(10);
    assert_eq!(idle.idle_count(), 1);
    assert_eq!(idle.acquire("m").unwrap(), 10);
}

#[test]
fn discovery_registers_every_model_in_table_order() {
    let mut d: Discovery<&'static str> = Discovery::new(model_registry_table());
    let mut k = 0;
    while let Some(m) = d.next_model() {
        // The second model loads live; the first is attempted and fails; the rest are not attempted.
        match k {
            0 => d.register_next(true, None, "stub"),
            1 => d.register_next(true, Some("onnx"), "stub"),
            _ => d.register_next(false, None, "stub"),
        }
        assert!(!m.model_id.is_empty());
        k += 1;
    }
    let reg = d.finish();
    let table = model_registry_table();
    assert_eq!(reg.inventory().len(), table.len());
    for (i, m) in table.iter().enumerate() {
        let info = &reg.inventory()[i];
        assert_eq!(info.model_id, m.model_id);
        assert_eq!(info.hf_repo, m.hf_repo);
        assert_eq!(info.task, m.task);
        assert_eq!(info.is_live, i == 1);
        assert_eq!(info.backend, if i == 1 { "onnx" } else { "stub" });
        assert!(reg.get(m.model_id).is_some());
    }
    assert_eq!(reg.get("toxicity"), Some(&"onnx"));
    assert_eq!(reg.get("coherence"), Some(&"stub"));
    assert!(reg.get("unknown_model").is_none());
}
