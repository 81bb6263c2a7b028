//! The providers the tool knows, and how each one is reached.

use vstd::prelude::*;
use crate::text::text_eq;

verus! {

/// A hosted language-model service.
///
/// The provider decides which wire format a request takes and which endpoint
/// a default configuration points to.
#[derive(Clone, Copy, Debug, PartialEq, Eq, Structural)]
pub enum Api {
    Openai,
    Mistral,
    Groq,
    Anthropic,
    Ollama,
}

impl Api {
    /// The name under which the provider appears in configuration files.
    pub open spec fn spec_name(self) -> Seq<char> {
        match self {
            Api::Openai => "openai"@,
            Api::Mistral => "mistral"@,
            Api::Groq => "groq"@,
            Api::Anthropic => "anthropic"@,
            Api::Ollama => "ollama"@,
        }
    }

    /// The provider that a configuration name stands for.
    pub open spec fn spec_from_name(name: Seq<char>) -> Option<Api> {
        if name == "openai"@ {
            Some(Api::Openai)
        } else if name == "mistral"@ {
            Some(Api::Mistral)
        } else if name == "groq"@ {
            Some(Api::Groq)
        } else if name == "anthropic"@ {
            Some(Api::Anthropic)
        } else if name == "ollama"@ {
            Some(Api::Ollama)
        } else {
            None
        }
    }

    /// Whether requests to the provider use the OpenAI chat-completion format.
    pub open spec fn spec_is_openai_compatible(self) -> bool {
        self == Api::Openai || self == Api::Mistral
    }

    /// The providers that a request can be sent to, in the order in which
    /// they are reported.
    pub open spec fn spec_supported() -> Seq<Api> {
        seq![Api::Openai, Api::Mistral]
    }

    /// The provider used where a prompt names none.
    pub fn default() -> (api: Api)
        ensures
            api == Api::Openai,
    {
        Api::Openai
    }

    /// The name under which the provider appears in configuration files.
    pub fn name(&self) -> (name: &'static str)
        ensures
            name@ == self.spec_name(),
    {
        match self {
            Api::Openai => "openai",
            Api::Mistral => "mistral",
            Api::Groq => "groq",
            Api::Anthropic => "anthropic",
            Api::Ollama => "ollama",
        }
    }

    /// The name as an owned string.
    pub fn to_string(&self) -> (name: String)
        ensures
            name@ == self.spec_name(),
    {
        String::from_str(self.name())
    }

    /// Reads a provider's name; `None` where no provider has that name.
    pub fn from_name(name: &str) -> (api: Option<Api>)
        ensures
            api == Api::spec_from_name(name@),
    {
        if text_eq(name, "openai") {
            Some(Api::Openai)
        } else if text_eq(name, "mistral") {
            Some(Api::Mistral)
        } else if text_eq(name, "groq") {
            Some(Api::Groq)
        } else if text_eq(name, "anthropic") {
            Some(Api::Anthropic)
        } else if text_eq(name, "ollama") {
            Some(Api::Ollama)
        } else {
            None
        }
    }

    /// Whether requests to the provider use the OpenAI chat-completion format.
    pub fn is_openai_compatible(&self) -> (compatible: bool)
        ensures
            compatible == self.spec_is_openai_compatible(),
    {
        match self {
            Api::Openai => true,
            Api::Mistral => true,
            _ => false,
        }
    }

    /// Whether a request to the provider must name a model. The OpenAI
    /// chat-completion format has no request without one.
    pub fn requires_model(&self) -> (required: bool)
        ensures
            required == self.spec_is_openai_compatible(),
    {
        self.is_openai_compatible()
    }

    /// The providers that a request can be sent to.
    pub fn supported() -> (apis: Vec<Api>)
        ensures
            apis@ == Api::spec_supported(),
            forall|api: Api| apis@.contains(api) <==> api.spec_is_openai_compatible(),
    {
        let mut apis: Vec<Api> = Vec::new();
        apis.push(Api::Openai);
        apis.push(Api::Mistral);
        proof {
            assert(apis@[0] == Api::Openai);
        }
        apis
    }
}

/// Every provider is found again under its own name, and only under it.
pub proof fn lemma_name_round_trip(api: Api)
    ensures
        Api::spec_from_name(api.spec_name()) == Some(api),
{
    reveal_strlit("openai");
    reveal_strlit("mistral");
    reveal_strlit("groq");
    reveal_strlit("anthropic");
    reveal_strlit("ollama");
    assert("openai"@.len() == 6);
    assert("mistral"@.len() == 7);
    assert("groq"@.len() == 4);
    assert("anthropic"@.len() == 9);
    assert("ollama"@.len() == 6);
    assert("openai"@[1] != "ollama"@[1]);
}

/// A name that stands for a provider is that provider's name.
pub proof fn lemma_from_name_is_name(name: Seq<char>)
    ensures
        Api::spec_from_name(name) matches Some(api) ==> api.spec_name() == name,
{
}

/// How one provider is reached: its endpoint, where its key comes from and
/// the model used when a prompt names none.
#[derive(Clone, Debug, PartialEq, Eq)]
pub struct ApiConfig {
    pub url: String,
    pub api_key: Option<String>,
    pub api_key_command: Option<String>,
    pub default_model: Option<String>,
}

/// What an `ApiConfig` holds, as mathematical values.
pub ghost struct ApiConfigView {
    pub url: Seq<char>,
    pub api_key: Option<Seq<char>>,
    pub api_key_command: Option<Seq<char>>,
    pub default_model: Option<Seq<char>>,
}

impl View for ApiConfig {
    type V = ApiConfigView;

    open spec fn view(&self) -> ApiConfigView {
        ApiConfigView {
            url: self.url@,
            api_key: self.api_key.deep_view(),
            api_key_command: self.api_key_command.deep_view(),
            default_model: self.default_model.deep_view(),
        }
    }
}

impl DeepView for ApiConfig {
    type V = ApiConfigView;

    open spec fn deep_view(&self) -> ApiConfigView {
        self@
    }
}

impl ApiConfig {
    /// The endpoint that a default configuration gives a provider.
    pub open spec fn spec_default_url(api: Api) -> Seq<char> {
        match api {
            Api::Openai => "https://api.openai.com/v1/chat/completions"@,
            Api::Mistral => "https://api.mistral.ai/v1/chat/completions"@,
            Api::Groq => "https://api.groq.com/openai/v1/chat/completions"@,
            Api::Anthropic => "https://api.anthropic.com/v1/messages"@,
            Api::Ollama => "http://localhost:11434/api/chat"@,
        }
    }

    /// The model that a default configuration gives a provider; none where
    /// the choice is left to the user.
    pub open spec fn spec_default_model(api: Api) -> Option<Seq<char>> {
        match api {
            Api::Openai => Some("gpt-4"@),
            Api::Mistral => Some("mistral-medium"@),
            Api::Groq => Some("llama3-70b-8192"@),
            Api::Anthropic => None,
            Api::Ollama => Some("phi3"@),
        }
    }

    /// The default configuration of a provider: its public endpoint, a
    /// model where one is a sensible choice, and no key.
    pub open spec fn spec_for_api(api: Api) -> ApiConfigView {
        ApiConfigView {
            url: Self::spec_default_url(api),
            api_key: None,
            api_key_command: None,
            default_model: Self::spec_default_model(api),
        }
    }

    /// The default configuration of `api`.
    pub fn for_api(api: Api) -> (config: ApiConfig)
        ensures
            config@ == Self::spec_for_api(api),
    {
        let (url, model) = match api {
            Api::Openai => ("https://api.openai.com/v1/chat/completions", Some("gpt-4")),
            Api::Mistral => ("https://api.mistral.ai/v1/chat/completions", Some("mistral-medium")),
            Api::Groq => (
                "https://api.groq.com/openai/v1/chat/completions",
                Some("llama3-70b-8192"),
            ),
            Api::Anthropic => ("https://api.anthropic.com/v1/messages", None),
            Api::Ollama => ("http://localhost:11434/api/chat", Some("phi3")),
        };
        let default_model = match model {
            Some(name) => Some(String::from_str(name)),
            None => None,
        };
        ApiConfig { url: String::from_str(url), api_key: None, api_key_command: None, default_model }
    }

    /// The configuration of the default provider.
    pub fn default() -> (config: ApiConfig)
        ensures
            config@ == Self::spec_for_api(Api::Openai),
    {
        Self::for_api(Api::Openai)
    }

    pub fn openai() -> (config: ApiConfig)
        ensures
            config@ == Self::spec_for_api(Api::Openai),
    {
        Self::for_api(Api::Openai)
    }

    pub fn mistral() -> (config: ApiConfig)
        ensures
            config@ == Self::spec_for_api(Api::Mistral),
    {
        Self::for_api(Api::Mistral)
    }

    pub fn groq() -> (config: ApiConfig)
        ensures
            config@ == Self::spec_for_api(Api::Groq),
    {
        Self::for_api(Api::Groq)
    }

    pub fn anthropic() -> (config: ApiConfig)
        ensures
            config@ == Self::spec_for_api(Api::Anthropic),
    {
        Self::for_api(Api::Anthropic)
    }

    pub fn ollama() -> (config: ApiConfig)
        ensures
            config@ == Self::spec_for_api(Api::Ollama),
    {
        Self::for_api(Api::Ollama)
    }

    /// Whether the configuration names a source for its key.
    pub open spec fn spec_has_credential(config: ApiConfigView) -> bool {
        config.api_key is Some || config.api_key_command is Some
    }

    /// Whether the configuration names a source for its key.
    pub fn has_credential(&self) -> (has: bool)
        ensures
            has == Self::spec_has_credential(self@),
    {
        self.api_key.is_some() || self.api_key_command.is_some()
    }

    /// A copy of the configuration.
    pub fn duplicate(&self) -> (copy: ApiConfig)
        ensures
            copy@ == self@,
    {
        ApiConfig {
            url: self.url.clone(),
            api_key: self.api_key.clone(),
            api_key_command: self.api_key_command.clone(),
            default_model: self.default_model.clone(),
        }
    }
}

} // verus!
