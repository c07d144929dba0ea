use vstd::prelude::*;
use vstd::string::*;
use crate::model::ModelInfo;

verus! {

/// A model that a backend offers, as configured.
#[derive(Debug, Clone)]
pub struct ModelEntry {
    pub name: String,
    pub max_tokens: usize,
}

/// Connection parameters of an OpenAI-compatible backend.
#[derive(Debug, Clone)]
pub struct OpenAIConfig {
    pub api_key: Option<String>,
    pub organization_id: Option<String>,
    pub proxy: Option<String>,
    pub connect_timeout: Option<u64>,
    pub models: Vec<ModelEntry>,
}

/// Connection parameters of a LocalAI-compatible backend.
#[derive(Debug, Clone)]
pub struct LocalAIConfig {
    pub url: String,
    pub api_key: Option<String>,
    pub proxy: Option<String>,
    pub connect_timeout: Option<u64>,
    pub models: Vec<ModelEntry>,
}

/// One configured backend: the variant selects the backend kind.
#[derive(Debug, Clone)]
pub enum ClientConfig {
    OpenAI(OpenAIConfig),
    LocalAI(LocalAIConfig),
}

/// The configuration that the dispatch core reads: the configured backends
/// in order, the model currently selected and the dry-run flag.
#[derive(Debug, Clone)]
pub struct Config {
    pub clients: Vec<ClientConfig>,
    pub model_info: ModelInfo,
    pub dry_run: bool,
}

impl ClientConfig {
    /// The models that this backend offers, in configured order.
    pub open spec fn spec_models(self) -> Seq<ModelEntry> {
        match self {
            ClientConfig::OpenAI(c) => c.models@,
            ClientConfig::LocalAI(c) => c.models@,
        }
    }

    pub fn models(&self) -> (r: &Vec<ModelEntry>)
        ensures
            r@ == self.spec_models(),
    {
        match self {
            ClientConfig::OpenAI(c) => &c.models,
            ClientConfig::LocalAI(c) => &c.models,
        }
    }
}

/// The model that an OpenAI-compatible backend offers first by default.
pub const DEFAULT_MODEL_NAME: &'static str = "gpt-3.5-turbo";

/// The context size of the default model.
pub const DEFAULT_MODEL_MAX_TOKENS: usize = 4096;

impl ModelEntry {
    pub fn new(name: &str, max_tokens: usize) -> (r: Self)
        ensures
            r.name@ == name@,
            r.max_tokens == max_tokens,
    {
        ModelEntry { name: String::from_str(name), max_tokens }
    }
}

impl Default for OpenAIConfig {
    /// No credentials, no proxy setting, and the standard model catalog,
    /// the default model first.
    fn default() -> (r: Self)
        ensures
            r.api_key is None,
            r.organization_id is None,
            r.proxy is None,
            r.connect_timeout is None,
            r.models@.len() == 4,
            r.models@[0].name@ == DEFAULT_MODEL_NAME@,
            r.models@[0].max_tokens == DEFAULT_MODEL_MAX_TOKENS,
            r.models@[1].name@ == "gpt-3.5-turbo-16k"@,
            r.models@[1].max_tokens == 16384,
            r.models@[2].name@ == "gpt-4"@,
            r.models@[2].max_tokens == 8192,
            r.models@[3].name@ == "gpt-4-32k"@,
            r.models@[3].max_tokens == 32768,
    {
        OpenAIConfig {
            api_key: None,
            organization_id: None,
            proxy: None,
            connect_timeout: None,
            models: vec![
                ModelEntry::new(DEFAULT_MODEL_NAME, DEFAULT_MODEL_MAX_TOKENS),
                ModelEntry::new("gpt-3.5-turbo-16k", 16384),
                ModelEntry::new("gpt-4", 8192),
                ModelEntry::new("gpt-4-32k", 32768),
            ],
        }
    }
}

} // verus!
