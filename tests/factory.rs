use llennart::config::{Config, ModelConfigEntry};
use llennart::error::ProviderError;
use llennart::openai::OpenAiModel;
use llennart::provider::{build_provider, Provider, Step};
use llennart::record::Question;

fn chat_entry(model: &str) -> ModelConfigEntry {
    ModelConfigEntry::OpenAi {
        name: "remote".to_string(),
        url: "https://api.example.com/v1".to_string(),
        api_key: "key-1".to_string(),
        model: model.to_string(),
    }
}

#[test]
fn factory_with_no_entries_fails() {
    let r = build_provider(&vec![]);
    assert!(matches!(r, Err(ProviderError::NoProviderConfigured)));
}

#[test]
fn factory_rejects_unknown_model() {
    let r = build_provider(&vec![chat_entry("not-a-real-model")]);
    match r {
        Err(ProviderError::UnsupportedModel(m)) => assert_eq!(m, "not-a-real-model"),
        _ => panic!("expected UnsupportedModel"),
    }
}

#[test]
fn factory_builds_working_stub() {
    let r = build_provider(&vec![ModelConfigEntry::Stub { name: "x".to_string() }]).unwrap();
    assert!(matches!(r, Provider::Stub(_)));
    match r.begin(&Question::new("q")) {
        Step::Answered(a) => assert!(a.content.starts_with("answer \n\n")),
        Step::Send(_) => panic!("the stub sends nothing"),
    }
}

#[test]
fn factory_uses_first_entry_only() {
    let entries = vec![chat_entry("gpt-4o-mini"), ModelConfigEntry::Stub { name: "x".to_string() }];
    match build_provider(&entries).unwrap() {
        Provider::OpenAi(p) => {
            assert_eq!(p.model, OpenAiModel::Gpt4oMini);
            assert_eq!(p.api_key, "key-1");
            assert_eq!(p.base_url, "https://api.example.com/v1");
        },
        Provider::Stub(_) => panic!("expected the chat provider"),
    }
    let entries = vec![ModelConfigEntry::Stub { name: "x".to_string() }, chat_entry("bad")];
    assert!(matches!(build_provider(&entries), Ok(Provider::Stub(_))));
}

#[test]
fn chat_provider_begins_with_request() {
    let p = build_provider(&vec![chat_entry("gpt-4o-mini")]).unwrap();
    match p.begin(&Question::new("hi")) {
        Step::Send(req) => {
            assert_eq!(req.url, "https://api.example.com/v1/chat/completions");
            assert_eq!(req.authorization, "Bearer key-1");
            assert_eq!(req.content_type, "application/json");
            assert_eq!(
                req.body,
                "{\"model\":\"gpt-4o-mini\",\"messages\":[{\"role\":\"system\",\"content\":\"hi\"}]}"
            );
        },
        Step::Answered(_) => panic!("the chat provider answers only after the request"),
    }
}

#[test]
fn model_names() {
    assert_eq!(OpenAiModel::Gpt4oMini.model_string(), "gpt-4o-mini");
    assert_eq!(OpenAiModel::try_from("gpt-4o-mini"), Ok(OpenAiModel::Gpt4oMini));
    assert!(OpenAiModel::try_from("gpt-4o").is_err());
    assert!(OpenAiModel::try_from("").is_err());
    assert!(OpenAiModel::try_from("GPT-4O-MINI").is_err());
}

#[test]
fn config_default_agent_name() {
    let c = Config::new(None, vec![]);
    assert_eq!(c.agent_name, "Llennart");
    assert!(c.models.is_empty());
    let c = Config::new(Some("agent-name".to_string()), vec![ModelConfigEntry::Stub { name: "Stub llm".to_string() }]);
    assert_eq!(c.agent_name, "agent-name");
    assert_eq!(c.models.len(), 1);
}
