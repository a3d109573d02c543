use vstd::prelude::*;
use vstd::string::StringExecFns;

verus! {

/// The kinds of language-model server the tool can talk to.
#[derive(Clone, Copy, Debug, PartialEq, Eq, Structural)]
pub enum ProviderType {
    /// The hosted OpenAI API, reached with an API key.
    OpenAI,
    /// An LM Studio server on this machine.
    LMStudio,
    /// An Ollama server on this machine.
    Ollama,
}

/// Where a local LM Studio server listens.
pub const LMSTUDIO_URL: &'static str = "http://localhost:1234/v1/";

/// Where a local Ollama server listens.
pub const OLLAMA_URL: &'static str = "http://localhost:11434";

/// Chat-completion endpoint of the hosted OpenAI API.
pub const OPENAI_CHAT_URL: &'static str = "https://api.openai.com/v1/chat/completions";

/// Model-listing endpoint of the hosted OpenAI API.
pub const OPENAI_MODELS_URL: &'static str = "https://api.openai.com/v1/models";

/// The provider a caller means by `name`: "LMStudio" and "Ollama" name the
/// local servers, anything else (or nothing) the hosted API.
pub open spec fn provider_named(name: Option<String>) -> ProviderType {
    match name {
        Some(n) => if n@ == "LMStudio"@ {
            ProviderType::LMStudio
        } else if n@ == "Ollama"@ {
            ProviderType::Ollama
        } else {
            ProviderType::OpenAI
        },
        None => ProviderType::OpenAI,
    }
}

/// Picks the provider a caller asked for by name.
pub fn provider_type_from_name(name: &Option<String>) -> (r: ProviderType)
    ensures
        r == provider_named(*name),
{
    match name {
        Some(n) => {
            if *n == String::from_str("LMStudio") {
                ProviderType::LMStudio
            } else if *n == String::from_str("Ollama") {
                ProviderType::Ollama
            } else {
                ProviderType::OpenAI
            }
        },
        None => ProviderType::OpenAI,
    }
}

/// The fixed address of a local server; the hosted API has none, since it is
/// configured by its API key instead.
pub open spec fn local_url_spec(kind: ProviderType) -> Option<Seq<char>> {
    match kind {
        ProviderType::OpenAI => None,
        ProviderType::LMStudio => Some(LMSTUDIO_URL@),
        ProviderType::Ollama => Some(OLLAMA_URL@),
    }
}

/// The address a local server is configured with, or `None` for the hosted API.
pub fn local_server_url(kind: ProviderType) -> (r: Option<String>)
    ensures
        r is Some <==> local_url_spec(kind) is Some,
        r matches Some(u) ==> Some(u@) == local_url_spec(kind),
{
    match kind {
        ProviderType::OpenAI => None,
        ProviderType::LMStudio => Some(String::from_str(LMSTUDIO_URL)),
        ProviderType::Ollama => Some(String::from_str(OLLAMA_URL)),
    }
}

/// The value of an `Authorization` header that presents `api_key`.
pub open spec fn bearer_spec(api_key: Seq<char>) -> Seq<char> {
    "Bearer "@ + api_key
}

/// Builds the `Authorization` header value for `api_key`.
pub fn bearer_header(api_key: &str) -> (r: String)
    ensures
        r@ == bearer_spec(api_key@),
{
    let mut r = String::from_str("Bearer ");
    r.append(api_key);
    r
}

/// A configured provider. For the hosted API `config` is the API key, for a
/// local server its address.
#[derive(Clone, Debug)]
pub struct Provider {
    pub kind: ProviderType,
    pub config: String,
    pub preferred_model: Option<String>,
}

/// Sets up a provider of the given kind with its key or address.
pub fn create_provider(kind: ProviderType, config: &str) -> (r: Provider)
    ensures
        r.kind == kind,
        r.config@ == config@,
        r.preferred_model is None,
{
    Provider { kind, config: String::from_str(config), preferred_model: None }
}

/// Where a provider answers chat completions: the hosted API's fixed
/// endpoint, or the OpenAI-compatible path under a local server's address.
pub open spec fn chat_url_spec(kind: ProviderType, config: Seq<char>) -> Seq<char> {
    match kind {
        ProviderType::OpenAI => OPENAI_CHAT_URL@,
        ProviderType::LMStudio => config + "chat/completions"@,
        ProviderType::Ollama => config + "/v1/chat/completions"@,
    }
}

impl Provider {
    /// Makes `model` the model this provider asks for.
    pub fn set_preferred_inference_model(&mut self, model: String)
        ensures
            final(self).kind == old(self).kind,
            final(self).config == old(self).config,
            final(self).preferred_model == Some(model),
    {
        self.preferred_model = Some(model);
    }

    /// The URL to which chat-completion requests for this provider go.
    pub fn chat_completions_url(&self) -> (r: String)
        ensures
            r@ == chat_url_spec(self.kind, self.config@),
    {
        match self.kind {
            ProviderType::OpenAI => String::from_str(OPENAI_CHAT_URL),
            ProviderType::LMStudio => {
                let mut r = String::from_str(self.config.as_str());
                r.append("chat/completions");
                r
            },
            ProviderType::Ollama => {
                let mut r = String::from_str(self.config.as_str());
                r.append("/v1/chat/completions");
                r
            },
        }
    }

    /// The `Authorization` header this provider sends: a bearer token for
    /// the hosted API, none for a local server.
    pub fn authorization(&self) -> (r: Option<String>)
        ensures
            self.kind == ProviderType::OpenAI ==> r is Some && r->0@ == bearer_spec(
                self.config@,
            ),
            self.kind != ProviderType::OpenAI ==> r is None,
    {
        match self.kind {
            ProviderType::OpenAI => Some(bearer_header(self.config.as_str())),
            _ => None,
        }
    }
}

} // verus!
