use crate::error::ProviderError;
use crate::json::{json_escape_round_trip, json_escaped, json_text_of, json_unescaped};
use crate::record::{is_identifier, Answer, Question};
use vstd::prelude::*;

verus! {

/// The canonical name of the one supported model.
pub open spec fn gpt4o_mini_name() -> Seq<char> {
    "gpt-4o-mini"@
}

/// The models that the chat provider can ask.
#[derive(Debug, Clone, Copy, PartialEq, Eq, Structural)]
pub enum OpenAiModel {
    Gpt4oMini,
}

/// The model whose canonical name is `s`, if any.
pub open spec fn model_named(s: Seq<char>) -> Option<OpenAiModel> {
    if s == gpt4o_mini_name() {
        Some(OpenAiModel::Gpt4oMini)
    } else {
        None
    }
}

/// The canonical name of a model.
pub open spec fn model_name(m: OpenAiModel) -> Seq<char> {
    match m {
        OpenAiModel::Gpt4oMini => gpt4o_mini_name(),
    }
}

/// A model name that is not in the supported set.
#[derive(Debug, Clone, Copy, PartialEq, Eq, Structural)]
pub struct InvalidModelNameError;

impl OpenAiModel {
    /// The canonical name of this model, as the service expects it.
    pub fn model_string(&self) -> (r: &'static str)
        ensures
            r@ == model_name(*self),
    {
        match self {
            OpenAiModel::Gpt4oMini => "gpt-4o-mini",
        }
    }

    /// The model with the given canonical name.
    pub fn try_from(value: &str) -> (r: Result<OpenAiModel, InvalidModelNameError>)
        ensures
            r matches Ok(m) ==> model_named(value@) == Some(m),
            r is Err <==> model_named(value@) is None,
    {
        let given = value.to_string();
        let known = "gpt-4o-mini".to_string();
        if given == known {
            Ok(OpenAiModel::Gpt4oMini)
        } else {
            Err(InvalidModelNameError)
        }
    }
}

/// The error that `serde_json` reports.
#[verifier::external_type_specification]
#[verifier::external_body]
pub struct ExJsonError(serde_json::Error);

/// Relies on serde_json::to_string applied to a `str`: the JSON string
/// literal of the text. Serializing a `str` only writes into a `Vec`, which
/// cannot fail, so the result is always `Ok`.
#[verifier::external_body]
fn json_string_literal(s: &str) -> (r: Result<String, serde_json::Error>)
    ensures
        r is Ok,
        r matches Ok(t) ==> t@ == json_text_of(s@),
{
    serde_json::to_string(s)
}

/// The path that is appended to the configured base endpoint.
pub open spec fn completions_path() -> Seq<char> {
    "/chat/completions"@
}

/// The JSON body of a chat-completion request: the model's name and one
/// system message holding the question's text.
pub open spec fn chat_request_json(model: Seq<char>, text: Seq<char>) -> Seq<char> {
    "{\"model\":"@ + json_text_of(model) + ",\"messages\":[{\"role\":\"system\",\"content\":"@
        + json_text_of(text) + "}]}"@
}

/// An HTTP POST to be sent to the chat-completion service.
pub struct ChatHttpRequest {
    pub url: String,
    pub content_type: String,
    pub authorization: String,
    pub body: String,
}

/// One choice of a decoded chat-completion reply: its message content.
pub struct ChatChoice {
    pub content: String,
}

/// What came back for a request that reached the service.
pub struct ChatReply {
    /// The HTTP status code.
    pub status: u16,
    /// The body as text.
    pub body: String,
    /// The body decoded as `{"choices":[{"message":{"content":...}}]}`: the
    /// content of each choice in order, or why decoding failed.
    pub decoded: Result<Vec<ChatChoice>, String>,
}

/// The status codes that HTTP counts as success.
pub open spec fn is_success_status(status: u16) -> bool {
    200 <= status <= 299
}

/// What a request's outcome means: the answer text, or the error it signals.
/// `Err(reason)` is a request that never reached the service.
pub open spec fn reply_meaning(outcome: Result<ChatReply, String>) -> Result<Seq<char>, ProviderError> {
    match outcome {
        Err(reason) => Err(ProviderError::TransportError(reason)),
        Ok(reply) => if !is_success_status(reply.status) {
            Err(ProviderError::RemoteFailure { status: reply.status, body: reply.body })
        } else {
            match reply.decoded {
                Err(why) => Err(ProviderError::DecodeError(why)),
                Ok(choices) => if choices@.len() == 0 {
                    Err(ProviderError::EmptyResponse)
                } else {
                    Ok(choices@[0].content@)
                },
            }
        },
    }
}

/// A question's text survives the exchange: the content field of the
/// request (`json_text_of(text)`, see `chat_request_json`) reads back as the
/// text, and a success reply whose first choice carries what was read yields
/// exactly that text, with nothing cut or escaped.
pub proof fn question_text_round_trip(text: Seq<char>, reply: ChatReply)
    requires
        is_success_status(reply.status),
        reply.decoded matches Ok(choices) && choices@.len() > 0
            && choices@[0].content@ == json_unescaped(json_escaped(text)),
    ensures
        reply_meaning(Ok(reply)) == Ok::<Seq<char>, ProviderError>(text),
{
    json_escape_round_trip(text);
}

/// A provider backed by a remote chat-completion service.
pub struct OpenAiLlm {
    pub model: OpenAiModel,
    pub api_key: String,
    pub base_url: String,
}

impl OpenAiLlm {
    /// A provider for the model with the given name; fails before any network
    /// activity when the name is not a supported model.
    pub fn new(model: &str, api_key: &str, base_url: &str) -> (r: Result<OpenAiLlm, ProviderError>)
        ensures
            model_named(model@) is None ==> (r matches Err(ProviderError::UnsupportedModel(s))
                && s@ == model@),
            model_named(model@) matches Some(m) ==> (r matches Ok(p) && p.model == m
                && p.api_key@ == api_key@ && p.base_url@ == base_url@),
    {
        match OpenAiModel::try_from(model) {
            Ok(m) => Ok(OpenAiLlm { model: m, api_key: api_key.to_string(), base_url: base_url.to_string() }),
            Err(_) => Err(ProviderError::UnsupportedModel(model.to_string())),
        }
    }

    /// The JSON body that asks the service about `text`.
    pub fn request_body(&self, text: &str) -> (r: String)
        ensures
            r@ == chat_request_json(model_name(self.model), text@),
    {
        let model = match json_string_literal(self.model.model_string()) {
            Ok(t) => t,
            Err(_) => {
                proof {
                    assert(false);
                }
                String::new()
            },
        };
        let content = match json_string_literal(text) {
            Ok(t) => t,
            Err(_) => {
                proof {
                    assert(false);
                }
                String::new()
            },
        };
        let mut body = "{\"model\":".to_string();
        body.append(model.as_str());
        body.append(",\"messages\":[{\"role\":\"system\",\"content\":");
        body.append(content.as_str());
        body.append("}]}");
        body
    }

    /// The HTTP request that asks the service the given question.
    pub fn prepare(&self, question: &Question) -> (r: ChatHttpRequest)
        ensures
            r.url@ == self.base_url@ + completions_path(),
            r.content_type@ == "application/json"@,
            r.authorization@ == "Bearer "@ + self.api_key@,
            r.body@ == chat_request_json(model_name(self.model), question.question@),
    {
        let body = self.request_body(question.question.as_str());
        let mut url = self.base_url.clone();
        url.append("/chat/completions");
        let mut authorization = "Bearer ".to_string();
        authorization.append(self.api_key.as_str());
        ChatHttpRequest { url, content_type: "application/json".to_string(), authorization, body }
    }

    /// The answer text that a request's outcome carries, or the error it
    /// signals. `Err(reason)` is a request that never reached the service.
    pub fn answer_text(outcome: Result<ChatReply, String>) -> (r: Result<String, ProviderError>)
        ensures
            r matches Ok(t) ==> reply_meaning(outcome) == Ok::<Seq<char>, ProviderError>(t@),
            r matches Err(e) ==> reply_meaning(outcome) == Err::<Seq<char>, ProviderError>(e),
    {
        match outcome {
            Err(reason) => Err(ProviderError::TransportError(reason)),
            Ok(reply) => {
                if reply.status < 200 || reply.status > 299 {
                    Err(ProviderError::RemoteFailure { status: reply.status, body: reply.body })
                } else {
                    match reply.decoded {
                        Err(why) => Err(ProviderError::DecodeError(why)),
                        Ok(choices) => {
                            if choices.len() == 0 {
                                Err(ProviderError::EmptyResponse)
                            } else {
                                Ok(choices[0].content.clone())
                            }
                        },
                    }
                }
            },
        }
    }

    /// The answer for a request's outcome, with a fresh identifier.
    pub fn finish(outcome: Result<ChatReply, String>) -> (r: Result<Answer, ProviderError>)
        ensures
            r matches Ok(a) ==> reply_meaning(outcome) == Ok::<Seq<char>, ProviderError>(a.content@)
                && is_identifier(a.id@),
            r matches Err(e) ==> reply_meaning(outcome) == Err::<Seq<char>, ProviderError>(e),
            outcome matches Err(reason) ==> r == Err::<Answer, ProviderError>(
                ProviderError::TransportError(reason),
            ),
    {
        let text = OpenAiLlm::answer_text(outcome)?;
        Ok(Answer::new(text.as_str()))
    }
}

} // verus!
