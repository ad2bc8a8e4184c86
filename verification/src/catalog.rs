//! The entries of the Anthropic provider's static model catalog: what Codex
//! is told of each model that the provider offers.

use vstd::prelude::*;

use vstd::string::StringExecFns;

verus! {

/// The model that providers prefer for reviewing approvals, unless they name
/// their own; the catalog's models carry it as their base instructions. This
/// is configuration: change it to the deployment's preferred model.
pub const DEFAULT_APPROVAL_REVIEW_PREFERRED_MODEL: &'static str = "gpt-5.1-codex-mini";

/// The context window of every model in the catalog, in tokens.
pub const CATALOG_CONTEXT_WINDOW: i64 = 200_000;

/// How much a model reasons before it answers.
#[derive(Clone, Copy, Debug, PartialEq, Eq)]
pub enum ReasoningEffort {
    /// No reasoning at all.
    Off,
    Minimal,
    Low,
    Medium,
    High,
    XHigh,
}

/// A reasoning level that a model supports, with its description.
#[derive(Clone, Debug)]
pub struct ReasoningEffortPreset {
    pub effort: ReasoningEffort,
    pub description: String,
}

/// How the shell tool is offered to a model.
#[derive(Clone, Copy, Debug, PartialEq, Eq)]
pub enum ConfigShellToolType {
    Default,
    Local,
    UnifiedExec,
    Disabled,
    ShellCommand,
}

/// Whether a model is listed to users.
#[derive(Clone, Copy, Debug, PartialEq, Eq)]
pub enum ModelVisibility {
    List,
    Hide,
}

/// How reasoning is summarised.
#[derive(Clone, Copy, Debug, PartialEq, Eq)]
pub enum ReasoningSummary {
    Auto,
    Concise,
    Detailed,
    /// No summary.
    Off,
}

/// How the patch tool is offered to a model.
#[derive(Clone, Copy, Debug, PartialEq, Eq)]
pub enum ApplyPatchToolType {
    Freeform,
    Function,
}

/// What web search returns to a model.
#[derive(Clone, Copy, Debug, PartialEq, Eq)]
pub enum WebSearchToolType {
    Text,
    TextAndImage,
}

/// The kinds of input a model accepts.
#[derive(Clone, Copy, Debug, PartialEq, Eq)]
pub enum InputModality {
    Text,
    Image,
}

/// The unit in which tool output is truncated.
#[derive(Clone, Copy, Debug, PartialEq, Eq)]
pub enum TruncationMode {
    Bytes,
    Tokens,
}

/// Where tool output is truncated.
#[derive(Clone, Copy, Debug, PartialEq, Eq)]
pub struct TruncationPolicyConfig {
    pub mode: TruncationMode,
    pub limit: i64,
}

impl TruncationPolicyConfig {
    /// Truncation after `limit` tokens.
    pub fn tokens(limit: i64) -> (r: Self)
        ensures
            r == (TruncationPolicyConfig { mode: TruncationMode::Tokens, limit }),
    {
        TruncationPolicyConfig { mode: TruncationMode::Tokens, limit }
    }
}

/// What Codex knows of a model.
#[derive(Clone, Debug)]
pub struct ModelInfo {
    pub slug: String,
    pub display_name: String,
    pub description: Option<String>,
    pub default_reasoning_level: Option<ReasoningEffort>,
    pub supported_reasoning_levels: Vec<ReasoningEffortPreset>,
    pub shell_type: ConfigShellToolType,
    pub visibility: ModelVisibility,
    pub supported_in_api: bool,
    pub priority: i32,
    pub base_instructions: String,
    pub supports_reasoning_summaries: bool,
    pub default_reasoning_summary: ReasoningSummary,
    pub support_verbosity: bool,
    pub apply_patch_tool_type: Option<ApplyPatchToolType>,
    pub web_search_tool_type: WebSearchToolType,
    pub truncation_policy: TruncationPolicyConfig,
    pub supports_parallel_tool_calls: bool,
    pub supports_image_detail_original: bool,
    pub context_window: Option<i64>,
    pub max_context_window: Option<i64>,
    pub auto_compact_token_limit: Option<i64>,
    pub effective_context_window_percent: i64,
    pub experimental_supported_tools: Vec<String>,
    pub input_modalities: Vec<InputModality>,
    pub used_fallback_model_metadata: bool,
    pub supports_search_tool: bool,
}

/// A catalog of models.
#[derive(Clone, Debug)]
pub struct ModelsResponse {
    pub models: Vec<ModelInfo>,
}

/// The view of a [`ReasoningEffortPreset`].
pub struct ReasoningEffortPresetView {
    pub effort: ReasoningEffort,
    pub description: Seq<char>,
}

impl DeepView for ReasoningEffortPreset {
    type V = ReasoningEffortPresetView;

    open spec fn deep_view(&self) -> ReasoningEffortPresetView {
        ReasoningEffortPresetView { effort: self.effort, description: self.description@ }
    }
}

/// The view of a [`ModelInfo`].
pub struct ModelInfoView {
    pub slug: Seq<char>,
    pub display_name: Seq<char>,
    pub description: Option<Seq<char>>,
    pub default_reasoning_level: Option<ReasoningEffort>,
    pub supported_reasoning_levels: Seq<ReasoningEffortPresetView>,
    pub shell_type: ConfigShellToolType,
    pub visibility: ModelVisibility,
    pub supported_in_api: bool,
    pub priority: i32,
    pub base_instructions: Seq<char>,
    pub supports_reasoning_summaries: bool,
    pub default_reasoning_summary: ReasoningSummary,
    pub support_verbosity: bool,
    pub apply_patch_tool_type: Option<ApplyPatchToolType>,
    pub web_search_tool_type: WebSearchToolType,
    pub truncation_policy: TruncationPolicyConfig,
    pub supports_parallel_tool_calls: bool,
    pub supports_image_detail_original: bool,
    pub context_window: Option<i64>,
    pub max_context_window: Option<i64>,
    pub auto_compact_token_limit: Option<i64>,
    pub effective_context_window_percent: i64,
    pub experimental_supported_tools: Seq<Seq<char>>,
    pub input_modalities: Seq<InputModality>,
    pub used_fallback_model_metadata: bool,
    pub supports_search_tool: bool,
}

impl DeepView for ModelInfo {
    type V = ModelInfoView;

    open spec fn deep_view(&self) -> ModelInfoView {
        ModelInfoView {
            slug: self.slug@,
            display_name: self.display_name@,
            description: self.description.deep_view(),
            default_reasoning_level: self.default_reasoning_level,
            supported_reasoning_levels: self.supported_reasoning_levels.deep_view(),
            shell_type: self.shell_type,
            visibility: self.visibility,
            supported_in_api: self.supported_in_api,
            priority: self.priority,
            base_instructions: self.base_instructions@,
            supports_reasoning_summaries: self.supports_reasoning_summaries,
            default_reasoning_summary: self.default_reasoning_summary,
            support_verbosity: self.support_verbosity,
            apply_patch_tool_type: self.apply_patch_tool_type,
            web_search_tool_type: self.web_search_tool_type,
            truncation_policy: self.truncation_policy,
            supports_parallel_tool_calls: self.supports_parallel_tool_calls,
            supports_image_detail_original: self.supports_image_detail_original,
            context_window: self.context_window,
            max_context_window: self.max_context_window,
            auto_compact_token_limit: self.auto_compact_token_limit,
            effective_context_window_percent: self.effective_context_window_percent,
            experimental_supported_tools: self.experimental_supported_tools.deep_view(),
            input_modalities: self.input_modalities@,
            used_fallback_model_metadata: self.used_fallback_model_metadata,
            supports_search_tool: self.supports_search_tool,
        }
    }
}

/// The description of a reasoning level.
pub open spec fn effort_description(effort: ReasoningEffort) -> Seq<char> {
    match effort {
        ReasoningEffort::Off => "No reasoning"@,
        ReasoningEffort::Minimal => "Minimal reasoning"@,
        ReasoningEffort::Low => "Fast responses with lighter reasoning"@,
        ReasoningEffort::Medium => "Balances speed and reasoning depth for everyday tasks"@,
        ReasoningEffort::High => "Greater reasoning depth for complex problems"@,
        ReasoningEffort::XHigh => "Extra high reasoning depth for complex problems"@,
    }
}

/// The preset of a reasoning level, with its description.
pub fn reasoning_effort_preset(effort: ReasoningEffort) -> (r: ReasoningEffortPreset)
    ensures
        r.deep_view() == (ReasoningEffortPresetView {
            effort,
            description: effort_description(effort),
        }),
{
    let description = match effort {
        ReasoningEffort::Off => "No reasoning",
        ReasoningEffort::Minimal => "Minimal reasoning",
        ReasoningEffort::Low => "Fast responses with lighter reasoning",
        ReasoningEffort::Medium => "Balances speed and reasoning depth for everyday tasks",
        ReasoningEffort::High => "Greater reasoning depth for complex problems",
        ReasoningEffort::XHigh => "Extra high reasoning depth for complex problems",
    };
    ReasoningEffortPreset { effort, description: String::from_str(description) }
}

/// What the catalog says of a model with the given slug, display name and
/// priority.
pub open spec fn catalog_model_view(
    slug: Seq<char>,
    display_name: Seq<char>,
    priority: i32,
) -> ModelInfoView {
    ModelInfoView {
        slug,
        display_name,
        description: Some(display_name),
        default_reasoning_level: None,
        supported_reasoning_levels: seq![
            ReasoningEffortPresetView {
                effort: ReasoningEffort::Off,
                description: effort_description(ReasoningEffort::Off),
            },
        ],
        shell_type: ConfigShellToolType::ShellCommand,
        visibility: ModelVisibility::List,
        supported_in_api: true,
        priority,
        base_instructions: DEFAULT_APPROVAL_REVIEW_PREFERRED_MODEL@,
        supports_reasoning_summaries: false,
        default_reasoning_summary: ReasoningSummary::Off,
        support_verbosity: false,
        apply_patch_tool_type: Some(ApplyPatchToolType::Freeform),
        web_search_tool_type: WebSearchToolType::Text,
        truncation_policy: TruncationPolicyConfig { mode: TruncationMode::Tokens, limit: 10_000 },
        supports_parallel_tool_calls: true,
        supports_image_detail_original: true,
        context_window: Some(CATALOG_CONTEXT_WINDOW),
        max_context_window: Some(CATALOG_CONTEXT_WINDOW),
        auto_compact_token_limit: None,
        effective_context_window_percent: 95,
        experimental_supported_tools: Seq::empty(),
        input_modalities: seq![InputModality::Text, InputModality::Image],
        used_fallback_model_metadata: false,
        supports_search_tool: false,
    }
}

/// Every catalog entry, whatever its priority, is listed to users, offered
/// through the API, and carries the slug, display name and priority it was
/// made with.
pub proof fn law_every_catalog_entry_is_listed(slug: Seq<char>, display_name: Seq<char>, priority: i32)
    ensures
        catalog_model_view(slug, display_name, priority).visibility == ModelVisibility::List,
        catalog_model_view(slug, display_name, priority).supported_in_api,
        catalog_model_view(slug, display_name, priority).slug == slug,
        catalog_model_view(slug, display_name, priority).display_name == display_name,
        catalog_model_view(slug, display_name, priority).priority == priority,
{
}

/// The catalog entry of a model.
pub fn catalog_model(slug: &str, display_name: &str, priority: i32) -> (r: ModelInfo)
    ensures
        r.deep_view() == catalog_model_view(slug@, display_name@, priority),
        r.slug@ == slug@,
        r.display_name@ == display_name@,
        r.priority == priority,
        r.visibility == ModelVisibility::List,
        r.supported_in_api,
{
    let mut levels: Vec<ReasoningEffortPreset> = Vec::new();
    levels.push(reasoning_effort_preset(ReasoningEffort::Off));
    let mut modalities: Vec<InputModality> = Vec::new();
    modalities.push(InputModality::Text);
    modalities.push(InputModality::Image);
    let tools: Vec<String> = Vec::new();
    let r = ModelInfo {
        slug: String::from_str(slug),
        display_name: String::from_str(display_name),
        description: Some(String::from_str(display_name)),
        default_reasoning_level: None,
        supported_reasoning_levels: levels,
        shell_type: ConfigShellToolType::ShellCommand,
        visibility: ModelVisibility::List,
        supported_in_api: true,
        priority,
        base_instructions: String::from_str(DEFAULT_APPROVAL_REVIEW_PREFERRED_MODEL),
        supports_reasoning_summaries: false,
        default_reasoning_summary: ReasoningSummary::Off,
        support_verbosity: false,
        apply_patch_tool_type: Some(ApplyPatchToolType::Freeform),
        web_search_tool_type: WebSearchToolType::Text,
        truncation_policy: TruncationPolicyConfig::tokens(10_000),
        supports_parallel_tool_calls: true,
        supports_image_detail_original: true,
        context_window: Some(CATALOG_CONTEXT_WINDOW),
        max_context_window: Some(CATALOG_CONTEXT_WINDOW),
        auto_compact_token_limit: None,
        effective_context_window_percent: 95,
        experimental_supported_tools: tools,
        input_modalities: modalities,
        used_fallback_model_metadata: false,
        supports_search_tool: false,
    };
    proof {
        let ghost expected = catalog_model_view(slug@, display_name@, priority);
        assert(r.supported_reasoning_levels.deep_view() =~= expected.supported_reasoning_levels);
        assert(r.experimental_supported_tools.deep_view() =~= Seq::<Seq<char>>::empty());
        assert(r.input_modalities@ =~= seq![InputModality::Text, InputModality::Image]);
    }
    r
}

} // verus!
