//! The decisions of the Anthropic model provider: its capabilities, its
//! account state, and how a request is authenticated.

use vstd::prelude::*;

use crate::auth::AnthropicAuthProvider;
use vstd::string::StringExecFns;

verus! {

/// How a model provider is configured.
#[derive(Clone, Debug)]
pub struct ModelProviderInfo {
    /// The provider's name, as users see it.
    pub name: String,
    /// The base URL of the provider's API.
    pub base_url: Option<String>,
    /// The environment variable that holds the API key.
    pub env_key: Option<String>,
    /// A bearer token given in the configuration itself.
    pub experimental_bearer_token: Option<String>,
}

impl ModelProviderInfo {
    /// The built-in configuration of the Anthropic provider: the name users
    /// see, its API's base URL, and the key read from `ANTHROPIC_API_KEY`,
    /// with no bearer token. The name and base URL are configuration.
    pub fn create_anthropic_provider() -> (r: Self)
        ensures
            r.name@ == "Anthropic"@,
            r.base_url.deep_view() == Some("https://api.anthropic.com/v1"@),
            r.env_key.deep_view() == Some("ANTHROPIC_API_KEY"@),
            r.experimental_bearer_token is None,
    {
        ModelProviderInfo {
            name: String::from_str("Anthropic"),
            base_url: Some(String::from_str("https://api.anthropic.com/v1")),
            env_key: Some(String::from_str("ANTHROPIC_API_KEY")),
            experimental_bearer_token: None,
        }
    }
}

/// Features that a provider supports beyond plain model calls.
#[derive(Clone, Copy, Debug, PartialEq, Eq)]
pub struct ProviderCapabilities {
    pub namespace_tools: bool,
    pub image_generation: bool,
    pub web_search: bool,
}

/// How a provider's account is held.
#[derive(Clone, Copy, Debug, PartialEq, Eq)]
pub enum ProviderAccount {
    /// An API key.
    ApiKey,
}

/// The state of a provider's account.
#[derive(Clone, Copy, Debug, PartialEq, Eq)]
pub struct ProviderAccountState {
    pub account: Option<ProviderAccount>,
    pub requires_openai_auth: bool,
}

/// An error of the provider.
#[derive(Clone, Debug)]
pub enum CodexErr {
    /// A failure that ends the session; the text says why.
    Fatal(String),
    /// An environment variable could not be read.
    EnvVar { var: String, instructions: Option<String> },
}

/// The message of the error when neither an API key nor a bearer token is
/// configured.
pub open spec fn missing_key_message() -> Seq<char> {
    "ANTHROPIC_API_KEY environment variable is required for the Anthropic provider"@
}

/// The runtime provider for Anthropic's Messages API.
#[derive(Clone, Debug)]
pub struct AnthropicModelProvider {
    info: ModelProviderInfo,
}

impl AnthropicModelProvider {
    /// A provider with the given configuration.
    pub fn new(provider_info: ModelProviderInfo) -> (r: Self)
        ensures
            *r.info() == provider_info,
    {
        Self { info: provider_info }
    }

    /// The configuration of this provider.
    pub closed spec fn info_spec(&self) -> &ModelProviderInfo {
        &self.info
    }

    /// The configuration of this provider.
    #[verifier::when_used_as_spec(info_spec)]
    pub fn info(&self) -> (r: &ModelProviderInfo)
        ensures
            r == self.info_spec(),
    {
        &self.info
    }

    /// Anthropic offers no namespaced tools, no image generation and no web
    /// search.
    pub fn capabilities(&self) -> (r: ProviderCapabilities)
        ensures
            r == (ProviderCapabilities {
                namespace_tools: false,
                image_generation: false,
                web_search: false,
            }),
    {
        ProviderCapabilities { namespace_tools: false, image_generation: false, web_search: false }
    }

    /// The account is an API key, and no OpenAI sign-in is required.
    pub fn account_state(&self) -> (r: Result<ProviderAccountState, CodexErr>)
        ensures
            r matches Ok(s) && s == (ProviderAccountState {
                account: Some(ProviderAccount::ApiKey),
                requires_openai_auth: false,
            }),
    {
        Ok(ProviderAccountState { account: Some(ProviderAccount::ApiKey), requires_openai_auth: false })
    }
}

/// Chooses how requests are authenticated, given the outcome of reading the
/// provider's API key: the key when there is one, else the configured bearer
/// token, else a fatal error; an error in reading the key is passed on.
pub fn resolve_anthropic_auth(
    provider: &ModelProviderInfo,
    api_key: Result<Option<String>, CodexErr>,
) -> (r: Result<AnthropicAuthProvider, CodexErr>)
    ensures
        api_key matches Err(e) ==> r matches Err(f) && f == e,
        api_key matches Ok(Some(k)) ==> r matches Ok(a) && a.api_key@ == k@,
        api_key matches Ok(None) ==> match provider.experimental_bearer_token {
            Some(t) => r matches Ok(a) && a.api_key@ == t@,
            None => r matches Err(CodexErr::Fatal(m)) && m@ == missing_key_message(),
        },
{
    match api_key {
        Err(e) => Err(e),
        Ok(Some(key)) => Ok(AnthropicAuthProvider::new(key)),
        Ok(None) => match &provider.experimental_bearer_token {
            Some(token) => Ok(AnthropicAuthProvider::new(token.clone())),
            None => Err(
                CodexErr::Fatal(
                    String::from_str(
                        "ANTHROPIC_API_KEY environment variable is required for the Anthropic provider",
                    ),
                ),
            ),
        },
    }
}

} // verus!
