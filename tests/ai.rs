use corelab::ai::{AIError, AIProvider, AIRequest, MockProvider, OllamaProvider, OpenAIProvider};

fn request(prompt: &str) -> AIRequest {
    AIRequest {
        prompt: prompt.to_string(),
        system_prompt: None,
        max_tokens: None,
        temperature_hundredths: None,
    }
}

#[test]
fn mock_complete_echoes_prompt() {
    let r = MockProvider.complete(request("hello")).expect("mock always answers");
    assert_eq!(r.content, "Mock response for: hello");
    assert_eq!(r.tokens_used, Some(10));
    assert!(r.structured.is_none());
}

#[test]
fn mock_extract_memories_returns_one_canned_fact() {
    for text in ["", "We talked about hiking", "anything at all"] {
        let facts = MockProvider.extract_memories(text).expect("mock always answers");
        assert_eq!(facts.len(), 1);
        assert_eq!(facts[0].key, "topic");
        assert_eq!(facts[0].value, "Discussed in conversation");
        assert_eq!(facts[0].importance, 3);
        assert_eq!(facts[0].confidence_percent, 80);
        assert!((facts[0].confidence_percent as f32 / 100.0 - 0.8).abs() < 1e-6);
    }
}

#[test]
fn mock_is_always_available() {
    assert!(MockProvider.is_available(false));
    assert!(MockProvider.probe_address().is_none());
    assert_eq!(MockProvider.name(), "Mock");
}

#[test]
fn cloud_without_credential_is_unavailable_and_not_configured() {
    let p = OpenAIProvider::new(None);
    assert!(!p.is_available(true));
    assert!(matches!(p.complete(request("hi")), Err(AIError::NotConfigured)));
    assert!(matches!(p.extract_memories("text"), Err(AIError::NotConfigured)));
    assert_eq!(p.name(), "OpenAI");
}

#[test]
fn cloud_with_credential_is_available() {
    let p = OpenAIProvider::new(Some("SECRET-REDACTED".to_string()));
    assert!(p.is_available(false));
    assert!(p.probe_address().is_none());
}

#[test]
fn local_defaults_probe_localhost() {
    let p = OllamaProvider::new(None, None);
    assert_eq!(p.probe_address().as_deref(), Some("localhost:11434"));
    assert!(p.is_available(true));
    assert!(!p.is_available(false));
    assert!(matches!(p.complete(request("hi")), Err(AIError::NotConfigured)));
    assert!(matches!(p.extract_memories("text"), Err(AIError::NotConfigured)));
    assert_eq!(p.name(), "Ollama");
}

#[test]
fn local_endpoint_without_port_gets_scheme_default() {
    let p = OllamaProvider::new(Some("http://models.lan/api".to_string()), Some("mistral".to_string()));
    assert_eq!(p.probe_address().as_deref(), Some("models.lan:80"));
    let s = OllamaProvider::new(Some("https://models.lan".to_string()), None);
    assert_eq!(s.probe_address().as_deref(), Some("models.lan:443"));
    let q = OllamaProvider::new(Some("http://10.0.0.2:8080/".to_string()), None);
    assert_eq!(q.probe_address().as_deref(), Some("10.0.0.2:8080"));
}

#[test]
fn local_endpoint_that_cannot_be_probed_is_unavailable() {
    for e in ["localhost:11434", "ftp://host", "http://", "http:///path"] {
        let p = OllamaProvider::new(Some(e.to_string()), None);
        assert!(p.probe_address().is_none(), "{}", e);
        assert!(!p.is_available(true), "{}", e);
    }
}

#[test]
fn error_messages_are_stable() {
    assert_eq!(AIError::NotConfigured.message(), "Provider not configured");
    assert_eq!(AIError::RequestFailed("timeout".to_string()).message(), "Request failed: timeout");
    assert_eq!(AIError::InvalidResponse("bad json".to_string()).message(), "Invalid response: bad json");
}
