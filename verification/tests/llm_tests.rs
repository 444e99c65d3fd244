use controlplane::error::LlmError;
use controlplane::llm::{
    gemini_endpoint, gemini_prompt_turns, interpret_gemini_reply, mock_response, mock_response_text,
    resolve_api_key, transport_error, GeminiReply,
};
use std::time::Duration;

#[test]
fn mock_texts() {
    assert_eq!(
        mock_response_text("What is Rust?", None, false),
        "Here is the synthesized response to your request 'What is Rust?': All input guardrails have cleared successfully."
    );
    assert_eq!(
        mock_response_text("And then?", Some("we talked"), false),
        "Based on our earlier discussion ('we talked'), here is the answer to 'And then?': ControlPlane Checker enforces high-performance guardrails across all stages."
    );
    assert_eq!(
        mock_response_text("Moon?", Some("we talked"), true),
        "Regarding your inquiry 'Moon?', I can definitively confirm that the lunar surface is composed of solid titanium carbide crystal formations."
    );
}

#[test]
fn mock_token_counts() {
    let r = mock_response("What is Rust?", None, false, Duration::from_millis(3));
    assert_eq!(r.prompt_tokens, 13);
    assert_eq!(r.completion_tokens, r.text.split_whitespace().count());
    assert_eq!(r.completion_tokens, 17);
    assert_eq!(r.latency, Duration::from_millis(3));
    let copy = r.clone();
    assert_eq!(copy.text, r.text);
}

#[test]
fn api_key_resolution_order() {
    let s = |x: &str| Some(x.to_string());
    assert_eq!(resolve_api_key(s("cfg"), s("env1"), s("env2")).unwrap(), "cfg");
    assert_eq!(resolve_api_key(None, s("env1"), s("env2")).unwrap(), "env1");
    assert_eq!(resolve_api_key(None, None, s("env2")).unwrap(), "env2");
    match resolve_api_key(None, None, None) {
        Err(LlmError::MissingApiKey(p)) => assert_eq!(p, "gemini"),
        other => panic!("unexpected {other:?}"),
    }
}

#[test]
fn gemini_request_parts() {
    assert_eq!(
        gemini_endpoint("gemini-2.0-flash", "KEY"),
        "https://generativelanguage.googleapis.com/v1beta/models/gemini-2.0-flash:generateContent?key=KEY"
    );
    let turns = gemini_prompt_turns("q?", None);
    assert_eq!(turns.len(), 1);
    assert_eq!((turns[0].role, turns[0].text.as_str()), ("user", "q?"));
    let turns = gemini_prompt_turns("q?", Some("h"));
    let view: Vec<(&str, &str)> = turns.iter().map(|t| (t.role, t.text.as_str())).collect();
    assert_eq!(
        view,
        vec![
            ("user", "Prior conversation context:\nh"),
            ("model", "Acknowledged. I will consider the prior context in my response."),
            ("user", "q?"),
        ]
    );
}

#[test]
fn gemini_reply_interpretation() {
    let ok = GeminiReply {
        status: 200,
        success: true,
        error_body: None,
        candidate_text: Some("hi".to_string()),
        prompt_token_count: Some(12),
        candidates_token_count: None,
    };
    let r = interpret_gemini_reply(ok, Duration::from_millis(5)).unwrap();
    assert_eq!((r.text.as_str(), r.prompt_tokens, r.completion_tokens), ("hi", 12, 0));
    let failed = GeminiReply {
        status: 429,
        success: false,
        error_body: None,
        candidate_text: None,
        prompt_token_count: None,
        candidates_token_count: None,
    };
    match interpret_gemini_reply(failed, Duration::from_millis(5)) {
        Err(LlmError::ProviderError { status, message }) => {
            assert_eq!(status, 429);
            assert_eq!(message, "unknown error");
        }
        other => panic!("unexpected {other:?}"),
    }
    let empty = GeminiReply {
        status: 200,
        success: true,
        error_body: None,
        candidate_text: None,
        prompt_token_count: Some(1),
        candidates_token_count: Some(1),
    };
    match interpret_gemini_reply(empty, Duration::from_millis(5)) {
        Err(LlmError::InvalidResponse(m)) => assert_eq!(m, "missing candidate text in Gemini response"),
        other => panic!("unexpected {other:?}"),
    }
}

#[test]
fn transport_errors() {
    assert!(matches!(transport_error(true, 15000, "x".to_string()), LlmError::Timeout(15000)));
    match transport_error(false, 15000, "connection reset".to_string()) {
        LlmError::Http(m) => assert_eq!(m, "connection reset"),
        other => panic!("unexpected {other:?}"),
    }
}
