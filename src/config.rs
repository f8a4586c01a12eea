use vstd::prelude::*;

verus! {

/// The agent's display name when the configuration gives none.
pub open spec fn default_agent_name() -> Seq<char> {
    "Llennart"@
}

/// One provider entry of the configuration.
#[derive(Debug, PartialEq, Eq)]
pub enum ModelConfigEntry {
    /// The local stub provider.
    Stub { name: String },
    /// A remote chat-completion service at `url`, asked for `model`.
    OpenAi { name: String, url: String, api_key: String, model: String },
}

/// The agent's configuration: its display name and the providers in order of
/// preference.
#[derive(Debug, PartialEq, Eq)]
pub struct Config {
    pub agent_name: String,
    pub models: Vec<ModelConfigEntry>,
}

impl Config {
    /// A configuration from the values that the configuration file holds; an
    /// absent agent name becomes the default one.
    pub fn new(agent_name: Option<String>, models: Vec<ModelConfigEntry>) -> (r: Config)
        ensures
            agent_name matches Some(a) ==> r.agent_name@ == a@,
            agent_name is None ==> r.agent_name@ == default_agent_name(),
            r.models@ == models@,
    {
        let agent_name = match agent_name {
            Some(a) => a,
            None => "Llennart".to_string(),
        };
        Config { agent_name, models }
    }
}

} // verus!
