use codex_anthropic::catalog::{
    catalog_model, reasoning_effort_preset, ApplyPatchToolType, ConfigShellToolType,
    InputModality, ModelVisibility, ReasoningEffort, ReasoningSummary, TruncationMode,
    WebSearchToolType, CATALOG_CONTEXT_WINDOW, DEFAULT_APPROVAL_REVIEW_PREFERRED_MODEL,
};

#[test]
fn catalog_model_fills_every_field() {
    let m = catalog_model("model-x", "Model X", 7);
    assert_eq!(m.slug, "model-x");
    assert_eq!(m.display_name, "Model X");
    assert_eq!(m.description.as_deref(), Some("Model X"));
    assert_eq!(m.default_reasoning_level, None);
    assert_eq!(m.supported_reasoning_levels.len(), 1);
    assert_eq!(m.supported_reasoning_levels[0].effort, ReasoningEffort::Off);
    assert_eq!(m.supported_reasoning_levels[0].description, "No reasoning");
    assert_eq!(m.shell_type, ConfigShellToolType::ShellCommand);
    assert_eq!(m.visibility, ModelVisibility::List);
    assert!(m.supported_in_api);
    assert_eq!(m.priority, 7);
    assert_eq!(m.base_instructions, DEFAULT_APPROVAL_REVIEW_PREFERRED_MODEL);
    assert!(!m.supports_reasoning_summaries);
    assert_eq!(m.default_reasoning_summary, ReasoningSummary::Off);
    assert!(!m.support_verbosity);
    assert_eq!(m.apply_patch_tool_type, Some(ApplyPatchToolType::Freeform));
    assert_eq!(m.web_search_tool_type, WebSearchToolType::Text);
    assert_eq!(m.truncation_policy.mode, TruncationMode::Tokens);
    assert_eq!(m.truncation_policy.limit, 10_000);
    assert!(m.supports_parallel_tool_calls);
    assert!(m.supports_image_detail_original);
    assert_eq!(m.context_window, Some(200_000));
    assert_eq!(m.max_context_window, Some(CATALOG_CONTEXT_WINDOW));
    assert_eq!(m.auto_compact_token_limit, None);
    assert_eq!(m.effective_context_window_percent, 95);
    assert!(m.experimental_supported_tools.is_empty());
    assert_eq!(m.input_modalities, vec![InputModality::Text, InputModality::Image]);
    assert!(!m.used_fallback_model_metadata);
    assert!(!m.supports_search_tool);
}

#[test]
fn reasoning_presets_describe_each_level() {
    let cases = [
        (ReasoningEffort::Off, "No reasoning"),
        (ReasoningEffort::Minimal, "Minimal reasoning"),
        (ReasoningEffort::Low, "Fast responses with lighter reasoning"),
        (
            ReasoningEffort::Medium,
            "Balances speed and reasoning depth for everyday tasks",
        ),
        (ReasoningEffort::High, "Greater reasoning depth for complex problems"),
        (ReasoningEffort::XHigh, "Extra high reasoning depth for complex problems"),
    ];
    for (effort, description) in cases {
        let preset = reasoning_effort_preset(effort);
        assert_eq!(preset.effort, effort);
        assert_eq!(preset.description, description);
    }
}
