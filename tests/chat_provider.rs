use llennart::error::ProviderError;
use llennart::openai::{ChatChoice, ChatReply, OpenAiLlm};
use llennart::record::Question;

fn llm() -> OpenAiLlm {
    OpenAiLlm::new("gpt-4o-mini", "secret", "http://localhost:1").unwrap()
}

/// Decodes a reply body the way the service's schema reads it.
fn decode(body: &str) -> Result<Vec<ChatChoice>, String> {
    let v: serde_json::Value = serde_json::from_str(body).map_err(|e| e.to_string())?;
    let choices = v.get("choices").and_then(|c| c.as_array()).ok_or("no choices".to_string())?;
    let mut out = Vec::new();
    for c in choices {
        let content = c
            .get("message")
            .and_then(|m| m.get("content"))
            .and_then(|t| t.as_str())
            .ok_or("no content".to_string())?;
        out.push(ChatChoice { content: content.to_string() });
    }
    Ok(out)
}

fn reply(status: u16, body: &str) -> Result<ChatReply, String> {
    Ok(ChatReply { status, body: body.to_string(), decoded: decode(body) })
}

#[test]
fn success_reply_gives_first_choice() {
    let a = OpenAiLlm::finish(reply(200, "{\"choices\":[{\"message\":{\"content\":\"42\"}}]}")).unwrap();
    assert_eq!(a.content, "42");
    let t = OpenAiLlm::answer_text(reply(200, "{\"choices\":[{\"message\":{\"content\":\"a\"}},{\"message\":{\"content\":\"b\"}}]}"));
    assert_eq!(t, Ok("a".to_string()));
}

#[test]
fn empty_choices_is_empty_response() {
    let r = OpenAiLlm::finish(reply(200, "{\"choices\":[]}"));
    assert!(matches!(r, Err(ProviderError::EmptyResponse)));
}

#[test]
fn server_error_is_remote_failure() {
    let r = OpenAiLlm::answer_text(reply(500, "server error"));
    assert_eq!(r, Err(ProviderError::RemoteFailure { status: 500, body: "server error".to_string() }));
    let r = OpenAiLlm::answer_text(reply(199, "early"));
    assert_eq!(r, Err(ProviderError::RemoteFailure { status: 199, body: "early".to_string() }));
    let r = OpenAiLlm::answer_text(reply(300, "moved"));
    assert_eq!(r, Err(ProviderError::RemoteFailure { status: 300, body: "moved".to_string() }));
}

#[test]
fn connection_refused_is_transport_error() {
    let r = OpenAiLlm::finish(Err("connection refused".to_string()));
    assert!(matches!(r, Err(ProviderError::TransportError(ref m)) if m == "connection refused"));
}

#[test]
fn malformed_success_body_is_decode_error() {
    let r = OpenAiLlm::answer_text(reply(200, "not json"));
    assert!(matches!(r, Err(ProviderError::DecodeError(_))));
    let r = OpenAiLlm::answer_text(reply(299, "{\"choices\":[{\"message\":{}}]}"));
    assert!(matches!(r, Err(ProviderError::DecodeError(_))));
}

#[test]
fn unsupported_model_fails_at_construction() {
    match OpenAiLlm::new("not-a-real-model", "k", "u") {
        Err(ProviderError::UnsupportedModel(m)) => assert_eq!(m, "not-a-real-model"),
        _ => panic!("expected UnsupportedModel"),
    }
}

#[test]
fn request_body_escapes_text() {
    let body = llm().request_body("say \"hi\"\nnow");
    assert_eq!(
        body,
        "{\"model\":\"gpt-4o-mini\",\"messages\":[{\"role\":\"system\",\"content\":\"say \\\"hi\\\"\\nnow\"}]}"
    );
}

#[test]
fn text_survives_request_and_reply() {
    for text in ["plain", "quote \" and \\ backslash", "line\nbreak\ttab", "unicode ✓ ünï 日本 🚀", ""] {
        let req = llm().prepare(&Question::new(text));
        let sent: serde_json::Value = serde_json::from_str(&req.body).unwrap();
        assert_eq!(sent["model"], "gpt-4o-mini");
        assert_eq!(sent["messages"].as_array().unwrap().len(), 1);
        assert_eq!(sent["messages"][0]["role"], "system");
        let received = sent["messages"][0]["content"].as_str().unwrap();
        assert_eq!(received, text);

        let mut message = serde_json::Map::new();
        message.insert("content".to_string(), serde_json::Value::String(received.to_string()));
        let mut choice = serde_json::Map::new();
        choice.insert("message".to_string(), serde_json::Value::Object(message));
        let mut root = serde_json::Map::new();
        root.insert("choices".to_string(), serde_json::Value::Array(vec![serde_json::Value::Object(choice)]));
        let body = serde_json::Value::Object(root).to_string();

        let answer = OpenAiLlm::finish(reply(200, &body)).unwrap();
        assert_eq!(answer.content, text);
    }
}

#[test]
fn request_body_escapes_control_characters() {
    let body = llm().request_body("a\tb\u{1}c\\d/é\r\u{8}\u{c}");
    assert_eq!(
        body,
        "{\"model\":\"gpt-4o-mini\",\"messages\":[{\"role\":\"system\",\"content\":\"a\\tb\\u0001c\\\\d/é\\r\\b\\f\"}]}"
    );
}
