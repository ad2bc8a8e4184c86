//! The Anthropic Messages API request format, and the conversion of Codex's
//! conversation history into it.

use vstd::prelude::*;

use crate::json::{json_from_str, json_parses, json_value};
use crate::protocol::{
    history_view, ContentItem, ContentItemView, ResponseItem, ResponseItemView,
};
use crate::text::{split_once, split_once_spec, strip_prefix, strip_prefix_spec, text_eq};
use vstd::string::StringExecFns;

verus! {

/// The input of a tool call, as the Messages API receives it.
#[derive(Debug)]
pub enum ToolInput {
    /// The call's arguments, read as a JSON value.
    Json(serde_json::Value),
    /// The arguments were not JSON; the API receives `null`.
    Null,
}

/// The view of a [`ToolInput`]: the JSON value read from the arguments, or
/// `Null` when they were not JSON.
pub enum ToolInputView {
    Json(serde_json::Value),
    Null,
}

impl DeepView for ToolInput {
    type V = ToolInputView;

    open spec fn deep_view(&self) -> ToolInputView {
        match self {
            ToolInput::Json(v) => ToolInputView::Json(*v),
            ToolInput::Null => ToolInputView::Null,
        }
    }
}

/// The image data of an image block.
#[derive(Clone, Debug)]
pub struct AnthropicImageSource {
    pub source_type: String,
    pub media_type: String,
    pub data: String,
}

/// One content block of a Messages API message.
#[derive(Debug)]
pub enum AnthropicContent {
    Text { text: String },
    ToolUse { id: String, name: String, input: ToolInput },
    ToolResult { tool_use_id: String, content: String },
    Image { source: AnthropicImageSource },
}

/// The view of an [`AnthropicContent`].
pub enum ContentView {
    Text { text: Seq<char> },
    ToolUse { id: Seq<char>, name: Seq<char>, input: ToolInputView },
    ToolResult { tool_use_id: Seq<char>, content: Seq<char> },
    Image { source_type: Seq<char>, media_type: Seq<char>, data: Seq<char> },
}

impl DeepView for AnthropicContent {
    type V = ContentView;

    open spec fn deep_view(&self) -> ContentView {
        match self {
            AnthropicContent::Text { text } => ContentView::Text { text: text@ },
            AnthropicContent::ToolUse { id, name, input } => ContentView::ToolUse {
                id: id@,
                name: name@,
                input: input.deep_view(),
            },
            AnthropicContent::ToolResult { tool_use_id, content } => ContentView::ToolResult {
                tool_use_id: tool_use_id@,
                content: content@,
            },
            AnthropicContent::Image { source } => ContentView::Image {
                source_type: source.source_type@,
                media_type: source.media_type@,
                data: source.data@,
            },
        }
    }
}

/// One message of a Messages API request.
#[derive(Debug)]
pub struct AnthropicMessage {
    pub role: String,
    pub content: Vec<AnthropicContent>,
}

/// The view of an [`AnthropicMessage`].
#[verifier::ext_equal]
pub struct MessageView {
    pub role: Seq<char>,
    pub content: Seq<ContentView>,
}

impl DeepView for AnthropicMessage {
    type V = MessageView;

    open spec fn deep_view(&self) -> MessageView {
        MessageView { role: self.role@, content: self.content.deep_view() }
    }
}

/// A tool that a Messages API request offers to the model.
#[derive(Debug)]
pub struct AnthropicToolDef {
    pub name: String,
    pub description: String,
    pub input_schema: Option<serde_json::Value>,
}

/// The body of a streaming Messages API request.
#[derive(Debug)]
pub struct MessagesRequest {
    pub model: String,
    pub max_tokens: i64,
    pub stream: bool,
    pub messages: Vec<AnthropicMessage>,
    /// Present only when there is a system prompt.
    pub system: Option<String>,
    /// Present only when some tool is offered.
    pub tools: Option<Vec<AnthropicToolDef>>,
}

/// The body of a streaming request: the model, the token limit and the
/// messages, with the system prompt when there is one and the tools when
/// any are offered.
pub fn messages_request(
    model: String,
    system: Option<String>,
    messages: Vec<AnthropicMessage>,
    tools: Vec<AnthropicToolDef>,
    max_tokens: i64,
) -> (r: MessagesRequest)
    ensures
        r.model == model,
        r.max_tokens == max_tokens,
        r.stream,
        r.messages == messages,
        r.system == system,
        tools@.len() == 0 ==> r.tools is None,
        tools@.len() > 0 ==> r.tools == Some(tools),
{
    let tools = if tools.len() == 0 {
        None
    } else {
        Some(tools)
    };
    MessagesRequest { model, max_tokens, stream: true, messages, system, tools }
}

/// What a tool call's arguments become: the JSON value read from them when
/// they parse, else `null`.
pub open spec fn tool_input_of(arguments: Seq<char>) -> ToolInputView {
    if json_parses(arguments) {
        ToolInputView::Json(json_value(arguments))
    } else {
        ToolInputView::Null
    }
}

/// Reads a tool call's arguments as the input of a tool use block.
pub fn tool_input(arguments: &str) -> (r: ToolInput)
    ensures
        r.deep_view() == tool_input_of(arguments@),
{
    match json_from_str(arguments) {
        Ok(v) => ToolInput::Json(v),
        Err(_) => ToolInput::Null,
    }
}

/// The image block that an image URL becomes: only `data:image/` URLs are
/// sent; their media type and base64 data are split at `;base64,`, and a URL
/// without that separator is sent whole as PNG data.
pub open spec fn image_block(url: Seq<char>) -> Option<ContentView> {
    match strip_prefix_spec(url, "data:image/"@) {
        Some(data) => match split_once_spec(data, ";base64,"@) {
            Some((media, b64)) => Some(
                ContentView::Image {
                    source_type: "base64"@,
                    media_type: "image/"@ + media,
                    data: b64,
                },
            ),
            None => Some(
                ContentView::Image {
                    source_type: "base64"@,
                    media_type: "image/"@ + "png"@,
                    data: url,
                },
            ),
        },
        None => None,
    }
}

/// The block that one content item of a non-system message becomes.
pub open spec fn content_block(c: ContentItemView) -> Option<ContentView> {
    match c {
        ContentItemView::InputText { text } => Some(ContentView::Text { text }),
        ContentItemView::InputImage { image_url } => image_block(image_url),
        ContentItemView::OutputText { text } => Some(ContentView::Text { text }),
    }
}

/// The sequence holding the value of `o`, if any.
pub open spec fn option_seq<A>(o: Option<A>) -> Seq<A> {
    match o {
        Some(a) => seq![a],
        None => Seq::empty(),
    }
}

/// The blocks that the content of a non-system message becomes, in order.
pub open spec fn content_blocks(cs: Seq<ContentItemView>) -> Seq<ContentView>
    decreases cs.len(),
{
    if cs.len() == 0 {
        Seq::empty()
    } else {
        content_blocks(cs.drop_last()) + option_seq(content_block(cs.last()))
    }
}

/// The system prompt after the text inputs of a system message are appended
/// to it.
pub open spec fn add_system_text(sys: Option<Seq<char>>, cs: Seq<ContentItemView>) -> Option<
    Seq<char>,
>
    decreases cs.len(),
{
    if cs.len() == 0 {
        sys
    } else {
        let before = add_system_text(sys, cs.drop_last());
        match cs.last() {
            ContentItemView::InputText { text } => Some(
                match before {
                    Some(s) => s,
                    None => Seq::empty(),
                } + text,
            ),
            _ => before,
        }
    }
}

/// The state of the conversion after a prefix of the history: the system
/// prompt, the finished messages, and the message being gathered.
#[verifier::ext_equal]
pub struct ConvState {
    pub system: Option<Seq<char>>,
    pub messages: Seq<MessageView>,
    pub role: Option<Seq<char>>,
    pub content: Seq<ContentView>,
}

/// The state before any item.
pub open spec fn conv_init() -> ConvState {
    ConvState { system: None, messages: Seq::empty(), role: None, content: Seq::empty() }
}

/// Closes the message being gathered: it joins the finished messages when it
/// has a role and some content, and is dropped otherwise.
pub open spec fn conv_flush(st: ConvState) -> ConvState {
    ConvState {
        system: st.system,
        messages: if st.role is Some && st.content.len() > 0 {
            st.messages.push(MessageView { role: st.role->0, content: st.content })
        } else {
            st.messages
        },
        role: None,
        content: Seq::empty(),
    }
}

/// A message of its own with one block, between closed messages.
pub open spec fn conv_single(st: ConvState, role: Seq<char>, block: ContentView) -> ConvState {
    let f = conv_flush(st);
    conv_flush(ConvState { system: f.system, messages: f.messages, role: Some(role), content: seq![block] })
}

/// What one history item does to the conversion state.
pub open spec fn conv_step(st: ConvState, item: ResponseItemView) -> ConvState {
    match item {
        ResponseItemView::Message { role, content, .. } => {
            if role == "system"@ {
                ConvState { system: add_system_text(st.system, content), ..st }
            } else {
                let st1 = if st.role != Some(role) {
                    let f = conv_flush(st);
                    ConvState { role: Some(role), ..f }
                } else {
                    st
                };
                ConvState { content: st1.content + content_blocks(content), ..st1 }
            }
        },
        ResponseItemView::FunctionCall { name, arguments, call_id, .. } => conv_single(
            st,
            "assistant"@,
            ContentView::ToolUse { id: call_id, name, input: tool_input_of(arguments) },
        ),
        ResponseItemView::FunctionCallOutput { call_id, output } => conv_single(
            st,
            "user"@,
            ContentView::ToolResult { tool_use_id: call_id, content: output },
        ),
        ResponseItemView::Other => st,
    }
}

/// The conversion state after the items, in order.
pub open spec fn conv_fold(items: Seq<ResponseItemView>) -> ConvState
    decreases items.len(),
{
    if items.len() == 0 {
        conv_init()
    } else {
        conv_step(conv_fold(items.drop_last()), items.last())
    }
}

/// The system prompt and the messages that a history converts to.
pub open spec fn convert_history(items: Seq<ResponseItemView>) -> (Option<Seq<char>>, Seq<MessageView>) {
    let st = conv_flush(conv_fold(items));
    (st.system, st.messages)
}

/// Closes the message being gathered, as `conv_flush` says.
fn flush(
    messages: &mut Vec<AnthropicMessage>,
    role: &mut Option<String>,
    content: &mut Vec<AnthropicContent>,
)
    ensures
        ({
            let f = conv_flush(
                ConvState {
                    system: None,
                    messages: old(messages).deep_view(),
                    role: old(role).deep_view(),
                    content: old(content).deep_view(),
                },
            );
            &&& final(messages).deep_view() == f.messages
            &&& final(role).deep_view() == f.role
            &&& final(content).deep_view() == f.content
        }),
{
    if let Some(r) = role.take() {
        if content.len() > 0 {
            let mut gathered: Vec<AnthropicContent> = Vec::new();
            std::mem::swap(&mut gathered, content);
            messages.push(AnthropicMessage { role: r, content: gathered });
        }
    }
    content.clear();
    assert(content.deep_view() =~= Seq::<ContentView>::empty());
}

/// The image block for an image URL, as `image_block` says.
fn image_content(image_url: &str) -> (r: Option<AnthropicContent>)
    ensures
        r.deep_view() == image_block(image_url@),
{
    match strip_prefix(image_url, "data:image/") {
        Some(data) => {
            let (media, b64) = match split_once(data, ";base64,") {
                Some((m, b)) => (m, b),
                None => ("png", image_url),
            };
            let source = AnthropicImageSource {
                source_type: String::from_str("base64"),
                media_type: String::from_str("image/").concat(media),
                data: String::from_str(b64),
            };
            Some(AnthropicContent::Image { source })
        },
        None => None,
    }
}

/// Appends to `content` the blocks of a non-system message's content.
fn push_content_blocks(content: &mut Vec<AnthropicContent>, items: &Vec<ContentItem>)
    ensures
        final(content).deep_view() == old(content).deep_view() + content_blocks(items.deep_view()),
{
    let ghost start = content.deep_view();
    let mut j: usize = 0;
    while j < items.len()
        invariant
            j <= items.len(),
            content.deep_view() == start + content_blocks(items.deep_view().take(j as int)),
        decreases items.len() - j,
    {
        proof {
            assert(items.deep_view().take(j + 1).drop_last() =~= items.deep_view().take(j as int));
            assert(items.deep_view().take(j + 1).last() == items@[j as int].deep_view());
        }
        let ghost before = content.deep_view();
        match &items[j] {
            ContentItem::InputText { text } => {
                content.push(AnthropicContent::Text { text: text.clone() });
            },
            ContentItem::InputImage { image_url } => {
                if let Some(block) = image_content(image_url.as_str()) {
                    content.push(block);
                }
            },
            ContentItem::OutputText { text } => {
                content.push(AnthropicContent::Text { text: text.clone() });
            },
        }
        assert(content.deep_view() =~= before + option_seq(content_block(items@[j as int].deep_view())));
        proof {
            assert(content.deep_view() =~= start + content_blocks(items.deep_view().take(j + 1)));
        }
        j = j + 1;
    }
    assert(items.deep_view().take(items.len() as int) =~= items.deep_view());
}

/// Appends the text inputs of a system message to the system prompt.
fn add_system(system: &mut Option<String>, items: &Vec<ContentItem>)
    ensures
        final(system).deep_view() == add_system_text(old(system).deep_view(), items.deep_view()),
{
    let ghost start = system.deep_view();
    let mut j: usize = 0;
    while j < items.len()
        invariant
            j <= items.len(),
            system.deep_view() == add_system_text(start, items.deep_view().take(j as int)),
        decreases items.len() - j,
    {
        proof {
            assert(items.deep_view().take(j + 1).drop_last() =~= items.deep_view().take(j as int));
        }
        if let ContentItem::InputText { text } = &items[j] {
            let before = match system.take() {
                Some(s) => s,
                None => String::new(),
            };
            *system = Some(before.concat(text.as_str()));
        }
        j = j + 1;
    }
    assert(items.deep_view().take(items.len() as int) =~= items.deep_view());
}

/// Converts Codex's conversation history to the Messages API format: the
/// system prompt gathered from system messages, and the messages, in which
/// consecutive content of one role is merged, each tool call and tool result
/// stands in a message of its own, and empty messages are left out.
pub fn response_items_to_anthropic_messages(items: &[ResponseItem]) -> (r: (
    Option<String>,
    Vec<AnthropicMessage>,
))
    ensures
        (r.0.deep_view(), r.1.deep_view()) == convert_history(history_view(items@)),
{
    let ghost hist = history_view(items@);
    let mut system: Option<String> = None;
    let mut messages: Vec<AnthropicMessage> = Vec::new();
    let mut current_role: Option<String> = None;
    let mut current_content: Vec<AnthropicContent> = Vec::new();
    let mut i: usize = 0;
    proof {
        assert(hist.take(0) =~= Seq::<ResponseItemView>::empty());
        assert(messages.deep_view() =~= Seq::<MessageView>::empty());
        assert(current_content.deep_view() =~= Seq::<ContentView>::empty());
    }
    while i < items.len()
        invariant
            i <= items.len(),
            hist == history_view(items@),
            conv_fold(hist.take(i as int)) == (ConvState {
                system: system.deep_view(),
                messages: messages.deep_view(),
                role: current_role.deep_view(),
                content: current_content.deep_view(),
            }),
        decreases items.len() - i,
    {
        proof {
            assert(hist.take(i + 1).drop_last() =~= hist.take(i as int));
            assert(hist.take(i + 1).last() == items@[i as int].deep_view());
            assert(conv_fold(hist.take(i + 1)) == conv_step(
                conv_fold(hist.take(i as int)),
                items@[i as int].deep_view(),
            ));
        }
        match &items[i] {
            ResponseItem::Message { role, content, .. } => {
                assert(items@[i as int].deep_view() matches ResponseItemView::Message {
                    role: r,
                    content: c,
                    ..
                } && r == role@ && c == content.deep_view());
                if text_eq(role.as_str(), "system") {
                    add_system(&mut system, content);
                } else {
                    let same_role = match &current_role {
                        Some(r) => text_eq(r.as_str(), role.as_str()),
                        None => false,
                    };
                    if !same_role {
                        flush(&mut messages, &mut current_role, &mut current_content);
                        current_role = Some(role.clone());
                    }
                    push_content_blocks(&mut current_content, content);
                }
            },
            ResponseItem::FunctionCall { name, arguments, call_id, .. } => {
                flush(&mut messages, &mut current_role, &mut current_content);
                current_role = Some(String::from_str("assistant"));
                current_content.push(
                    AnthropicContent::ToolUse {
                        id: call_id.clone(),
                        name: name.clone(),
                        input: tool_input(arguments.as_str()),
                    },
                );
                assert(current_content.deep_view() =~= seq![
                    ContentView::ToolUse {
                        id: call_id@,
                        name: name@,
                        input: tool_input_of(arguments@),
                    },
                ]);
                flush(&mut messages, &mut current_role, &mut current_content);
            },
            ResponseItem::FunctionCallOutput { call_id, output } => {
                flush(&mut messages, &mut current_role, &mut current_content);
                current_role = Some(String::from_str("user"));
                current_content.push(
                    AnthropicContent::ToolResult { tool_use_id: call_id.clone(), content: output.clone() },
                );
                assert(current_content.deep_view() =~= seq![
                    ContentView::ToolResult { tool_use_id: call_id@, content: output@ },
                ]);
                flush(&mut messages, &mut current_role, &mut current_content);
            },
            ResponseItem::Other => {},
        }
        proof {
            assert(conv_fold(hist.take(i + 1)) =~= (ConvState {
                system: system.deep_view(),
                messages: messages.deep_view(),
                role: current_role.deep_view(),
                content: current_content.deep_view(),
            }));
        }
        i = i + 1;
    }
    flush(&mut messages, &mut current_role, &mut current_content);
    assert(hist.take(items.len() as int) =~= hist);
    (system, messages)
}

} // verus!
