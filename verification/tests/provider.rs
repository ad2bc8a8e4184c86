use codex_anthropic::provider::{
    resolve_anthropic_auth, AnthropicModelProvider, CodexErr, ModelProviderInfo,
    ProviderAccount, ProviderAccountState, ProviderCapabilities,
};

#[test]
fn capabilities_disable_unsupported_launch_features() {
    let provider = AnthropicModelProvider::new(ModelProviderInfo::create_anthropic_provider());

    assert_eq!(
        provider.capabilities(),
        ProviderCapabilities {
            namespace_tools: false,
            image_generation: false,
            web_search: false,
        }
    );
}

#[test]
fn account_is_an_api_key_without_openai_auth() {
    let provider = AnthropicModelProvider::new(ModelProviderInfo::create_anthropic_provider());
    let state = provider.account_state().expect("account state");
    assert_eq!(
        state,
        ProviderAccountState {
            account: Some(ProviderAccount::ApiKey),
            requires_openai_auth: false,
        }
    );
}

#[test]
fn provider_keeps_its_configuration() {
    let info = ModelProviderInfo::create_anthropic_provider();
    let provider = AnthropicModelProvider::new(info);
    assert_eq!(provider.info().name, "Anthropic");
    assert_eq!(provider.info().env_key.as_deref(), Some("ANTHROPIC_API_KEY"));
    assert_eq!(
        provider.info().base_url.as_deref(),
        Some("https://api.anthropic.com/v1")
    );
    assert!(provider.info().experimental_bearer_token.is_none());
}

fn info_with_token(token: Option<&str>) -> ModelProviderInfo {
    let mut info = ModelProviderInfo::create_anthropic_provider();
    info.experimental_bearer_token = token.map(str::to_string);
    info
}

#[test]
fn api_key_wins_over_bearer_token() {
    let info = info_with_token(Some("token"));
    let auth = resolve_anthropic_auth(&info, Ok(Some("key".to_string()))).expect("auth");
    assert_eq!(auth.api_key, "key");
}

#[test]
fn bearer_token_used_without_api_key() {
    let info = info_with_token(Some("token"));
    let auth = resolve_anthropic_auth(&info, Ok(None)).expect("auth");
    assert_eq!(auth.api_key, "token");
}

#[test]
fn missing_credentials_are_fatal() {
    let info = info_with_token(None);
    match resolve_anthropic_auth(&info, Ok(None)) {
        Err(CodexErr::Fatal(message)) => assert_eq!(
            message,
            "ANTHROPIC_API_KEY environment variable is required for the Anthropic provider"
        ),
        other => panic!("unexpected outcome: {other:?}"),
    }
}

#[test]
fn key_lookup_error_is_passed_on() {
    let info = info_with_token(Some("token"));
    let err = CodexErr::EnvVar {
        var: "ANTHROPIC_API_KEY".to_string(),
        instructions: None,
    };
    match resolve_anthropic_auth(&info, Err(err)) {
        Err(CodexErr::EnvVar { var, instructions }) => {
            assert_eq!(var, "ANTHROPIC_API_KEY");
            assert!(instructions.is_none());
        }
        other => panic!("unexpected outcome: {other:?}"),
    }
}
