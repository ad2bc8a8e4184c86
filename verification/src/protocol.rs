//! The parts of Codex's conversation protocol that the Anthropic support reads
//! and writes: history items, the events of a response stream, token usage
//! and stream errors, each with a mathematical view.

use vstd::prelude::*;

verus! {

/// One piece of message content in the conversation history.
#[derive(Clone, Debug)]
pub enum ContentItem {
    InputText { text: String },
    InputImage { image_url: String },
    OutputText { text: String },
}

/// The view of a [`ContentItem`].
pub enum ContentItemView {
    InputText { text: Seq<char> },
    InputImage { image_url: Seq<char> },
    OutputText { text: Seq<char> },
}

impl DeepView for ContentItem {
    type V = ContentItemView;

    open spec fn deep_view(&self) -> ContentItemView {
        match self {
            ContentItem::InputText { text } => ContentItemView::InputText { text: text@ },
            ContentItem::InputImage { image_url } => ContentItemView::InputImage {
                image_url: image_url@,
            },
            ContentItem::OutputText { text } => ContentItemView::OutputText { text: text@ },
        }
    }
}

/// One item of the conversation history.
#[derive(Clone, Debug)]
pub enum ResponseItem {
    /// A message from the system, the user or the assistant.
    Message { id: Option<String>, role: String, content: Vec<ContentItem> },
    /// A call of a tool that the model asked for.
    FunctionCall {
        id: Option<String>,
        name: String,
        namespace: Option<String>,
        arguments: String,
        call_id: String,
    },
    /// What a tool call returned, as its displayed text.
    FunctionCallOutput { call_id: String, output: String },
    /// Any other kind of item (reasoning, shell calls, searches).
    Other,
}

/// The view of a [`ResponseItem`].
pub enum ResponseItemView {
    Message { id: Option<Seq<char>>, role: Seq<char>, content: Seq<ContentItemView> },
    FunctionCall {
        id: Option<Seq<char>>,
        name: Seq<char>,
        namespace: Option<Seq<char>>,
        arguments: Seq<char>,
        call_id: Seq<char>,
    },
    FunctionCallOutput { call_id: Seq<char>, output: Seq<char> },
    Other,
}

impl DeepView for ResponseItem {
    type V = ResponseItemView;

    open spec fn deep_view(&self) -> ResponseItemView {
        match self {
            ResponseItem::Message { id, role, content } => ResponseItemView::Message {
                id: id.deep_view(),
                role: role@,
                content: content.deep_view(),
            },
            ResponseItem::FunctionCall { id, name, namespace, arguments, call_id } =>
                ResponseItemView::FunctionCall {
                id: id.deep_view(),
                name: name@,
                namespace: namespace.deep_view(),
                arguments: arguments@,
                call_id: call_id@,
            },
            ResponseItem::FunctionCallOutput { call_id, output } =>
                ResponseItemView::FunctionCallOutput { call_id: call_id@, output: output@ },
            ResponseItem::Other => ResponseItemView::Other,
        }
    }
}

/// The views of a sequence of history items.
pub open spec fn history_view(items: Seq<ResponseItem>) -> Seq<ResponseItemView> {
    items.map_values(|i: ResponseItem| i.deep_view())
}

/// A copy of an optional text.
pub fn copy_text_option(t: &Option<String>) -> (r: Option<String>)
    ensures
        r.deep_view() == t.deep_view(),
{
    match t {
        Some(s) => Some(s.clone()),
        None => None,
    }
}

impl ContentItem {
    /// A copy of this content item.
    pub fn duplicate(&self) -> (r: ContentItem)
        ensures
            r.deep_view() == self.deep_view(),
    {
        match self {
            ContentItem::InputText { text } => ContentItem::InputText { text: text.clone() },
            ContentItem::InputImage { image_url } => ContentItem::InputImage {
                image_url: image_url.clone(),
            },
            ContentItem::OutputText { text } => ContentItem::OutputText { text: text.clone() },
        }
    }
}

impl ResponseItem {
    /// A copy of this history item.
    pub fn duplicate(&self) -> (r: ResponseItem)
        ensures
            r.deep_view() == self.deep_view(),
    {
        match self {
            ResponseItem::Message { id, role, content } => {
                let mut copy: Vec<ContentItem> = Vec::new();
                let mut i: usize = 0;
                while i < content.len()
                    invariant
                        i <= content.len(),
                        copy.deep_view() == content.deep_view().take(i as int),
                    decreases content.len() - i,
                {
                    copy.push(content[i].duplicate());
                    proof {
                        assert(content.deep_view().take(i + 1) =~= content.deep_view().take(
                            i as int,
                        ).push(content[i as int].deep_view()));
                    }
                    i = i + 1;
                }
                assert(content.deep_view().take(content.len() as int) =~= content.deep_view());
                ResponseItem::Message { id: copy_text_option(id), role: role.clone(), content: copy }
            },
            ResponseItem::FunctionCall { id, name, namespace, arguments, call_id } =>
                ResponseItem::FunctionCall {
                id: copy_text_option(id),
                name: name.clone(),
                namespace: copy_text_option(namespace),
                arguments: arguments.clone(),
                call_id: call_id.clone(),
            },
            ResponseItem::FunctionCallOutput { call_id, output } =>
                ResponseItem::FunctionCallOutput { call_id: call_id.clone(), output: output.clone() },
            ResponseItem::Other => ResponseItem::Other,
        }
    }
}

/// Token counts of one response.
#[derive(Clone, Copy, Debug, PartialEq, Eq)]
pub struct TokenUsage {
    pub input_tokens: i64,
    pub cached_input_tokens: i64,
    pub output_tokens: i64,
    pub reasoning_output_tokens: i64,
    pub total_tokens: i64,
}

/// One event of a model's response stream.
#[derive(Clone, Debug)]
pub enum ResponseEvent {
    Created,
    OutputItemAdded(ResponseItem),
    OutputTextDelta(String),
    ReasoningContentDelta { delta: String, content_index: i64 },
    ToolCallInputDelta { item_id: String, call_id: Option<String>, delta: String },
    OutputItemDone(ResponseItem),
    Completed { response_id: String, token_usage: Option<TokenUsage>, end_turn: Option<bool> },
}

/// The view of a [`ResponseEvent`].
pub enum ResponseEventView {
    Created,
    OutputItemAdded(ResponseItemView),
    OutputTextDelta(Seq<char>),
    ReasoningContentDelta { delta: Seq<char>, content_index: i64 },
    ToolCallInputDelta { item_id: Seq<char>, call_id: Option<Seq<char>>, delta: Seq<char> },
    OutputItemDone(ResponseItemView),
    Completed { response_id: Seq<char>, token_usage: Option<TokenUsage>, end_turn: Option<bool> },
}

impl DeepView for ResponseEvent {
    type V = ResponseEventView;

    open spec fn deep_view(&self) -> ResponseEventView {
        match self {
            ResponseEvent::Created => ResponseEventView::Created,
            ResponseEvent::OutputItemAdded(i) => ResponseEventView::OutputItemAdded(i.deep_view()),
            ResponseEvent::OutputTextDelta(t) => ResponseEventView::OutputTextDelta(t@),
            ResponseEvent::ReasoningContentDelta { delta, content_index } =>
                ResponseEventView::ReasoningContentDelta {
                delta: delta@,
                content_index: *content_index,
            },
            ResponseEvent::ToolCallInputDelta { item_id, call_id, delta } =>
                ResponseEventView::ToolCallInputDelta {
                item_id: item_id@,
                call_id: call_id.deep_view(),
                delta: delta@,
            },
            ResponseEvent::OutputItemDone(i) => ResponseEventView::OutputItemDone(i.deep_view()),
            ResponseEvent::Completed { response_id, token_usage, end_turn } =>
                ResponseEventView::Completed {
                response_id: response_id@,
                token_usage: *token_usage,
                end_turn: *end_turn,
            },
        }
    }
}

/// An error of a response stream.
#[derive(Clone, Debug)]
pub enum ApiError {
    /// The stream failed; the text says why.
    Stream(String),
}

impl DeepView for ApiError {
    type V = Seq<char>;

    open spec fn deep_view(&self) -> Seq<char> {
        match self {
            ApiError::Stream(m) => m@,
        }
    }
}

} // verus!
