use crate::config::ModelConfigEntry;
use crate::error::ProviderError;
use crate::openai::{chat_request_json, completions_path, model_name, model_named, ChatHttpRequest, OpenAiLlm};
use crate::record::{is_identifier, Answer, Question};
use crate::stub::{is_stub_answer, StubLlm};
use vstd::prelude::*;

verus! {

/// The provider that answers this run's questions.
pub enum Provider {
    Stub(StubLlm),
    OpenAi(OpenAiLlm),
}

/// What the factory makes of a list of entries: the first entry decides.
pub open spec fn provider_for(models: Seq<ModelConfigEntry>, r: Result<Provider, ProviderError>) -> bool {
    if models.len() == 0 {
        r == Err::<Provider, ProviderError>(ProviderError::NoProviderConfigured)
    } else {
        match models[0] {
            ModelConfigEntry::Stub { .. } => r == Ok::<Provider, ProviderError>(Provider::Stub(StubLlm)),
            ModelConfigEntry::OpenAi { url, api_key, model, .. } => match model_named(model@) {
                None => r matches Err(ProviderError::UnsupportedModel(s)) && s@ == model@,
                Some(m) => r matches Ok(Provider::OpenAi(p)) && p.model == m && p.api_key@ == api_key@
                    && p.base_url@ == url@,
            },
        }
    }
}

/// The provider for the first configured entry.
pub fn build_provider(models: &Vec<ModelConfigEntry>) -> (r: Result<Provider, ProviderError>)
    ensures
        provider_for(models@, r),
{
    if models.len() == 0 {
        return Err(ProviderError::NoProviderConfigured);
    }
    match &models[0] {
        ModelConfigEntry::Stub { .. } => Ok(Provider::Stub(StubLlm)),
        ModelConfigEntry::OpenAi { url, api_key, model, .. } => {
            let p = OpenAiLlm::new(model.as_str(), api_key.as_str(), url.as_str())?;
            Ok(Provider::OpenAi(p))
        },
    }
}

/// The next step of a question-and-answer exchange.
pub enum Step {
    /// The provider answered.
    Answered(Answer),
    /// The request is to be sent; its outcome goes to `OpenAiLlm::finish`.
    Send(ChatHttpRequest),
}

impl Provider {
    /// The first step of asking this provider a question: the stub answers at
    /// once, the chat provider hands out the request to send.
    pub fn begin(&self, question: &Question) -> (r: Step)
        ensures
            self matches Provider::Stub(_) ==> (r matches Step::Answered(a)
                && is_stub_answer(a.content@) && is_identifier(a.id@)),
            self matches Provider::OpenAi(p) ==> (r matches Step::Send(req)
                && req.url@ == p.base_url@ + completions_path()
                && req.content_type@ == "application/json"@
                && req.authorization@ == "Bearer "@ + p.api_key@
                && req.body@ == chat_request_json(model_name(p.model), question.question@)),
    {
        match self {
            Provider::Stub(s) => match s.ask_question(question) {
                Ok(a) => Step::Answered(a),
                Err(_) => {
                    proof {
                        assert(false);
                    }
                    Step::Send(ChatHttpRequest {
                        url: String::new(),
                        content_type: String::new(),
                        authorization: String::new(),
                        body: String::new(),
                    })
                },
            },
            Provider::OpenAi(p) => Step::Send(p.prepare(question)),
        }
    }
}

} // verus!
