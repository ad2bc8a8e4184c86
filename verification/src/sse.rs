//! Decoding of the Anthropic Messages API event stream: the decisions that
//! turn each server-sent event into Codex response events. The caller reads
//! the stream, parses each event's JSON, and sends what a step emits.

use vstd::prelude::*;

use crate::protocol::{
    ApiError, ContentItem, ContentItemView, ResponseEvent, ResponseEventView, ResponseItem,
    ResponseItemView, TokenUsage,
};
use crate::text::{text_eq, trim, trim_text};
use vstd::string::StringExecFns;

verus! {

/// The `message` of a `message_start` event: the response's identifier.
#[derive(Clone, Debug)]
pub struct AnthropicMessageInfo {
    pub id: String,
}

/// The `content_block` of a `content_block_start` event.
#[derive(Clone, Debug)]
pub struct AnthropicContentBlock {
    pub kind: String,
    pub text: Option<String>,
    pub name: Option<String>,
    pub id: Option<String>,
    pub thinking: Option<String>,
}

/// The `delta` of a `content_block_delta` event.
#[derive(Clone, Debug)]
pub struct AnthropicContentBlockDelta {
    pub kind: String,
    pub text: Option<String>,
    pub partial_json: Option<String>,
    pub thinking: Option<String>,
    pub signature: Option<String>,
}

/// The token counts of a `message_delta` event.
#[derive(Clone, Copy, Debug)]
pub struct AnthropicUsage {
    pub input_tokens: i64,
    pub output_tokens: i64,
    pub cache_creation_input_tokens: Option<i64>,
    pub cache_read_input_tokens: Option<i64>,
}

/// One parsed event of the stream.
#[derive(Clone, Debug)]
pub struct AnthropicDeltaEvent {
    pub kind: String,
    pub index: Option<i64>,
    pub delta: Option<AnthropicContentBlockDelta>,
    pub content_block: Option<AnthropicContentBlock>,
    pub message: Option<AnthropicMessageInfo>,
    pub usage: Option<AnthropicUsage>,
}

/// The view of an [`AnthropicContentBlock`].
pub struct BlockView {
    pub kind: Seq<char>,
    pub text: Option<Seq<char>>,
    pub name: Option<Seq<char>>,
    pub id: Option<Seq<char>>,
    pub thinking: Option<Seq<char>>,
}

/// The view of an [`AnthropicContentBlockDelta`].
pub struct DeltaView {
    pub kind: Seq<char>,
    pub text: Option<Seq<char>>,
    pub partial_json: Option<Seq<char>>,
    pub thinking: Option<Seq<char>>,
    pub signature: Option<Seq<char>>,
}

/// The view of an [`AnthropicDeltaEvent`].
pub struct EventView {
    pub kind: Seq<char>,
    pub delta: Option<DeltaView>,
    pub content_block: Option<BlockView>,
    pub message_id: Option<Seq<char>>,
    pub usage: Option<AnthropicUsage>,
}

impl DeepView for AnthropicContentBlock {
    type V = BlockView;

    open spec fn deep_view(&self) -> BlockView {
        BlockView {
            kind: self.kind@,
            text: self.text.deep_view(),
            name: self.name.deep_view(),
            id: self.id.deep_view(),
            thinking: self.thinking.deep_view(),
        }
    }
}

impl DeepView for AnthropicContentBlockDelta {
    type V = DeltaView;

    open spec fn deep_view(&self) -> DeltaView {
        DeltaView {
            kind: self.kind@,
            text: self.text.deep_view(),
            partial_json: self.partial_json.deep_view(),
            thinking: self.thinking.deep_view(),
            signature: self.signature.deep_view(),
        }
    }
}

impl DeepView for AnthropicDeltaEvent {
    type V = EventView;

    open spec fn deep_view(&self) -> EventView {
        EventView {
            kind: self.kind@,
            delta: self.delta.deep_view(),
            content_block: self.content_block.deep_view(),
            message_id: match self.message {
                Some(m) => Some(m.id@),
                None => None,
            },
            usage: self.usage,
        }
    }
}

/// What the decoder remembers between events.
pub struct AnthropicStreamState {
    current_item_id: i64,
    response_id: Option<String>,
    output_items: Vec<ResponseItem>,
    token_usage: Option<TokenUsage>,
    assistant_message_index: Option<i64>,
}

/// The view of an [`AnthropicStreamState`].
#[verifier::ext_equal]
pub struct StreamStateView {
    /// The number of content blocks started so far.
    pub current_item_id: int,
    /// The identifier of the latest message that started.
    pub response_id: Option<Seq<char>>,
    /// One item for each text block started so far.
    pub output_items: Seq<ResponseItemView>,
    /// The token counts of the latest `message_delta` event.
    pub token_usage: Option<TokenUsage>,
    /// Which of `output_items` a `content_block_stop` event closes.
    pub assistant_message_index: Option<int>,
}

impl DeepView for AnthropicStreamState {
    type V = StreamStateView;

    closed spec fn deep_view(&self) -> StreamStateView {
        StreamStateView {
            current_item_id: self.current_item_id as int,
            response_id: self.response_id.deep_view(),
            output_items: self.output_items.deep_view(),
            token_usage: self.token_usage,
            assistant_message_index: match self.assistant_message_index {
                Some(i) => Some(i as int),
                None => None,
            },
        }
    }
}

/// One emitted outcome: a response event or a stream error.
pub type Emitted = Result<ResponseEventView, Seq<char>>;

/// The view of an emitted outcome.
pub open spec fn emitted_view(r: Result<ResponseEvent, ApiError>) -> Emitted {
    match r {
        Ok(e) => Ok(e.deep_view()),
        Err(e) => Err(e.deep_view()),
    }
}

/// What one step of the decoder hands to the caller: the outcomes to send,
/// in order, and whether the stream is finished.
pub struct StreamStep {
    pub events: Vec<Result<ResponseEvent, ApiError>>,
    pub finished: bool,
}

/// The outcomes of a step, as views.
pub open spec fn step_events(s: StreamStep) -> Seq<Emitted> {
    s.events@.map_values(|r: Result<ResponseEvent, ApiError>| emitted_view(r))
}

/// The item that each text block adds to the output: an empty assistant
/// message.
pub open spec fn empty_assistant_message() -> ResponseItemView {
    ResponseItemView::Message { id: None, role: "assistant"@, content: Seq::empty() }
}

/// The text of an optional field, empty when it is absent.
pub open spec fn text_or_empty(o: Option<Seq<char>>) -> Seq<char> {
    match o {
        Some(t) => t,
        None => Seq::empty(),
    }
}

/// The token usage that a `message_delta` event reports.
pub open spec fn usage_of(u: AnthropicUsage) -> TokenUsage {
    TokenUsage {
        input_tokens: u.input_tokens,
        cached_input_tokens: match u.cache_read_input_tokens {
            Some(c) => c,
            None => 0,
        },
        output_tokens: u.output_tokens,
        reasoning_output_tokens: 0,
        total_tokens: (u.input_tokens + u.output_tokens) as i64,
    }
}

/// The total of the usage's input and output tokens fits in an `i64`.
pub open spec fn usage_fits(u: AnthropicUsage) -> bool {
    i64::MIN <= u.input_tokens + u.output_tokens <= i64::MAX
}

/// What a `content_block_start` event's block does.
pub open spec fn block_start(s: StreamStateView, b: BlockView) -> (StreamStateView, Seq<Emitted>) {
    let s1 = StreamStateView { current_item_id: s.current_item_id + 1, ..s };
    if b.kind == "text"@ {
        match b.text {
            Some(t) => (
                StreamStateView {
                    output_items: s1.output_items.push(empty_assistant_message()),
                    assistant_message_index: Some(s1.output_items.len() as int),
                    ..s1
                },
                seq![
                    Ok(ResponseEventView::OutputItemAdded(ResponseItemView::Message {
                        id: None,
                        role: "assistant"@,
                        content: seq![ContentItemView::OutputText { text: t }],
                    })),
                    Ok(ResponseEventView::OutputTextDelta(t)),
                ],
            ),
            None => (s1, Seq::empty()),
        }
    } else if b.kind == "tool_use"@ {
        (
            StreamStateView { assistant_message_index: Some(s1.output_items.len() as int), ..s1 },
            seq![
                Ok(ResponseEventView::OutputItemAdded(ResponseItemView::FunctionCall {
                    id: None,
                    name: text_or_empty(b.name),
                    namespace: None,
                    arguments: Seq::empty(),
                    call_id: text_or_empty(b.id),
                })),
            ],
        )
    } else if b.kind == "thinking"@ {
        (
            s1,
            match b.thinking {
                Some(t) => seq![
                    Ok(ResponseEventView::ReasoningContentDelta { delta: t, content_index: 0 }),
                ],
                None => Seq::empty(),
            },
        )
    } else {
        (s1, Seq::empty())
    }
}

/// What a `content_block_delta` event's delta emits.
pub open spec fn block_delta(d: DeltaView) -> Seq<Emitted> {
    let one = |o: Option<Seq<char>>, e: spec_fn(Seq<char>) -> ResponseEventView|
        match o {
            Some(t) => seq![Ok(e(t))],
            None => Seq::<Emitted>::empty(),
        };
    if d.kind == "text_delta"@ {
        one(d.text, |t: Seq<char>| ResponseEventView::OutputTextDelta(t))
    } else if d.kind == "input_json_delta"@ {
        one(
            d.partial_json,
            |t: Seq<char>|
                ResponseEventView::ToolCallInputDelta {
                    item_id: Seq::empty(),
                    call_id: None,
                    delta: t,
                },
        )
    } else if d.kind == "thinking_delta"@ {
        one(
            d.thinking,
            |t: Seq<char>| ResponseEventView::ReasoningContentDelta { delta: t, content_index: 0 },
        )
    } else if d.kind == "signature_delta"@ {
        one(
            d.signature,
            |t: Seq<char>| ResponseEventView::ReasoningContentDelta { delta: t, content_index: 1 },
        )
    } else {
        Seq::empty()
    }
}

/// What one parsed event does to the decoder: the next state, the outcomes
/// it emits, and whether the stream is finished. `data` is the event's text.
pub open spec fn stream_step(s: StreamStateView, ev: EventView, data: Seq<char>) -> (
    StreamStateView,
    Seq<Emitted>,
    bool,
) {
    if ev.kind == "message_start"@ {
        match ev.message_id {
            Some(id) => (
                StreamStateView { response_id: Some(id), ..s },
                seq![Ok(ResponseEventView::Created)],
                false,
            ),
            None => (s, Seq::empty(), false),
        }
    } else if ev.kind == "content_block_start"@ {
        match ev.content_block {
            Some(b) => {
                let (s2, out) = block_start(s, b);
                (s2, out, false)
            },
            None => (s, Seq::empty(), false),
        }
    } else if ev.kind == "content_block_delta"@ {
        match ev.delta {
            Some(d) => (s, block_delta(d), false),
            None => (s, Seq::empty(), false),
        }
    } else if ev.kind == "content_block_stop"@ {
        match s.assistant_message_index {
            Some(i) => if 0 <= i < s.output_items.len() {
                (s, seq![Ok(ResponseEventView::OutputItemDone(s.output_items[i]))], false)
            } else {
                (s, Seq::empty(), false)
            },
            None => (s, Seq::empty(), false),
        }
    } else if ev.kind == "message_delta"@ {
        (
            StreamStateView {
                token_usage: match ev.usage {
                    Some(u) => Some(usage_of(u)),
                    None => None,
                },
                ..s
            },
            Seq::empty(),
            false,
        )
    } else if ev.kind == "message_stop"@ {
        (
            s,
            seq![
                Ok(ResponseEventView::Completed {
                    response_id: text_or_empty(s.response_id),
                    token_usage: s.token_usage,
                    end_turn: Some(true),
                }),
            ],
            true,
        )
    } else if ev.kind == "error"@ {
        (s, seq![Err("Anthropic API error: "@ + data)], true)
    } else {
        (s, Seq::empty(), false)
    }
}

/// The event's arithmetic stays within `i64`: a block start does not
/// overflow the block count, and a usage report's total fits.
pub open spec fn step_in_range(s: StreamStateView, ev: EventView) -> bool {
    &&& (ev.kind == "content_block_start"@ && ev.content_block is Some) ==> s.current_item_id
        < i64::MAX
    &&& (ev.kind == "message_delta"@ && ev.usage is Some) ==> usage_fits(ev.usage->0)
}

/// The decoder's invariant: every output item is an empty assistant message,
/// and the index that a block stop reads is at most the number of items.
pub open spec fn stream_wf(s: StreamStateView) -> bool {
    &&& forall|k: int| 0 <= k < s.output_items.len() ==> #[trigger] s.output_items[k]
        == empty_assistant_message()
    &&& s.assistant_message_index matches Some(i) ==> 0 <= i <= s.output_items.len()
    &&& 0 <= s.current_item_id
}

/// The text of a server-sent event that is worth parsing: the trimmed data,
/// unless it is empty or the `data: [DONE]` marker.
pub open spec fn event_payload(data: Seq<char>) -> Option<Seq<char>> {
    let t = trim(data);
    if t.len() == 0 || t == "data: [DONE]"@ {
        None
    } else {
        Some(t)
    }
}

/// The trimmed text of a server-sent event's data, or `None` when the event
/// carries nothing to parse (empty data or the `data: [DONE]` marker).
pub fn sse_event_payload(data: &str) -> (r: Option<String>)
    ensures
        r.deep_view() == event_payload(data@),
{
    let t = trim_text(data);
    if t.unicode_len() == 0 || text_eq(t, "data: [DONE]") {
        None
    } else {
        Some(String::from_str(t))
    }
}

/// What the decoder emits when no event arrived within the idle timeout: a
/// stream error, after which the stream is finished.
pub open spec fn idle_timeout_message() -> Seq<char> {
    "Anthropic SSE idle timeout"@
}

/// The step taken when the byte stream ends or fails: nothing more is
/// emitted, and the stream is finished.
pub fn stream_closed_step() -> (r: StreamStep)
    ensures
        step_events(r) == Seq::<Emitted>::empty(),
        r.finished,
{
    let events: Vec<Result<ResponseEvent, ApiError>> = Vec::new();
    let r = StreamStep { events, finished: true };
    assert(step_events(r) =~= Seq::<Emitted>::empty());
    r
}

/// One server-sent event as the decoder meets it: the event parsed from its
/// text (`None` when the text did not parse), and the text.
pub struct SseInput {
    pub event: Option<EventView>,
    pub data: Seq<char>,
}

/// What one server-sent event does: an event whose text did not parse is
/// skipped; a parsed one is handled as `stream_step` says.
pub open spec fn input_step(s: StreamStateView, input: SseInput) -> (
    StreamStateView,
    Seq<Emitted>,
    bool,
) {
    match input.event {
        Some(ev) => stream_step(s, ev, input.data),
        None => (s, Seq::empty(), false),
    }
}

/// The step taken when the stream stayed idle too long.
pub fn idle_timeout_step() -> (r: StreamStep)
    ensures
        step_events(r) == seq![Err::<ResponseEventView, Seq<char>>(idle_timeout_message())],
        r.finished,
{
    let mut events: Vec<Result<ResponseEvent, ApiError>> = Vec::new();
    events.push(Err(ApiError::Stream(String::from_str("Anthropic SSE idle timeout"))));
    let r = StreamStep { events, finished: true };
    assert(step_events(r) =~= seq![Err::<ResponseEventView, Seq<char>>(idle_timeout_message())]);
    r
}

fn copy_text_or_empty(o: &Option<String>) -> (r: String)
    ensures
        r@ == text_or_empty(o.deep_view()),
{
    match o {
        Some(t) => t.clone(),
        None => String::new(),
    }
}

fn empty_assistant() -> (r: ResponseItem)
    ensures
        r.deep_view() == empty_assistant_message(),
{
    let content: Vec<ContentItem> = Vec::new();
    assert(content.deep_view() =~= Seq::<ContentItemView>::empty());
    let r = ResponseItem::Message { id: None, role: String::from_str("assistant"), content };
    r
}

impl AnthropicStreamState {
    /// The state before the first event.
    pub fn new() -> (r: Self)
        ensures
            r.deep_view() == (StreamStateView {
                current_item_id: 0,
                response_id: None,
                output_items: Seq::empty(),
                token_usage: None,
                assistant_message_index: None,
            }),
            stream_wf(r.deep_view()),
    {
        let r = AnthropicStreamState {
            current_item_id: 0,
            response_id: None,
            output_items: Vec::new(),
            token_usage: None,
            assistant_message_index: None,
        };
        assert(r.output_items.deep_view() =~= Seq::<ResponseItemView>::empty());
        r
    }

    /// The decoder's invariant holds of this state.
    pub open spec fn wf(&self) -> bool {
        stream_wf(self.deep_view())
    }

    /// Whether the event can be handled within `i64` arithmetic: the block
    /// count and the usage total do not overflow, and the output has room
    /// for one more item.
    pub fn event_in_range(&self, event: &AnthropicDeltaEvent) -> (r: bool)
        ensures
            r == (step_in_range(self.deep_view(), event.deep_view())
                && self.deep_view().output_items.len() < i64::MAX),
    {
        let kind = event.kind.as_str();
        let block_ok = !(text_eq(kind, "content_block_start") && event.content_block.is_some())
            || self.current_item_id < i64::MAX;
        let usage_ok = match &event.usage {
            Some(u) => !text_eq(kind, "message_delta") || u.input_tokens.checked_add(
                u.output_tokens,
            ).is_some(),
            None => true,
        };
        let room = (self.output_items.len() as u64) < (i64::MAX as u64);
        block_ok && usage_ok && room
    }

    /// Handles one server-sent event whose text is `event_data`, given the
    /// event parsed from it (`None` when it did not parse), as `input_step`
    /// says.
    pub fn handle_parsed(
        &mut self,
        parsed: Option<&AnthropicDeltaEvent>,
        event_data: &str,
    ) -> (r: StreamStep)
        requires
            old(self).wf(),
            parsed matches Some(e) ==> step_in_range(old(self).deep_view(), e.deep_view())
                && old(self).deep_view().output_items.len() < i64::MAX,
        ensures
            final(self).wf(),
            (final(self).deep_view(), step_events(r), r.finished) == input_step(
                old(self).deep_view(),
                SseInput { event: parsed.deep_view(), data: event_data@ },
            ),
    {
        match parsed {
            Some(e) => self.handle_event(e, event_data),
            None => {
                let events: Vec<Result<ResponseEvent, ApiError>> = Vec::new();
                let r = StreamStep { events, finished: false };
                assert(step_events(r) =~= Seq::<Emitted>::empty());
                r
            },
        }
    }

    /// Handles one parsed event whose text is `event_data`, as `stream_step`
    /// says.
    pub fn handle_event(&mut self, event: &AnthropicDeltaEvent, event_data: &str) -> (r:
        StreamStep)
        requires
            old(self).wf(),
            step_in_range(old(self).deep_view(), event.deep_view()),
            old(self).deep_view().output_items.len() < i64::MAX,
        ensures
            final(self).wf(),
            (final(self).deep_view(), step_events(r), r.finished) == stream_step(
                old(self).deep_view(),
                event.deep_view(),
                event_data@,
            ),
    {
        let ghost s0 = self.deep_view();
        let ghost ev = event.deep_view();
        let mut events: Vec<Result<ResponseEvent, ApiError>> = Vec::new();
        let mut finished = false;
        let kind = event.kind.as_str();
        if text_eq(kind, "message_start") {
            if let Some(msg) = &event.message {
                self.response_id = Some(msg.id.clone());
                events.push(Ok(ResponseEvent::Created));
            }
        } else if text_eq(kind, "content_block_start") {
            if let Some(block) = &event.content_block {
                self.current_item_id = self.current_item_id + 1;
                let bkind = block.kind.as_str();
                if text_eq(bkind, "text") {
                    if let Some(text) = &block.text {
                        let mut content: Vec<ContentItem> = Vec::new();
                        content.push(ContentItem::OutputText { text: text.clone() });
                        assert(content.deep_view() =~= seq![ContentItemView::OutputText { text: text@ }]);
                        let item = ResponseItem::Message {
                            id: None,
                            role: String::from_str("assistant"),
                            content,
                        };
                        events.push(Ok(ResponseEvent::OutputItemAdded(item)));
                        let idx = self.output_items.len();
                        self.output_items.push(empty_assistant());
                        self.assistant_message_index = Some(idx as i64);
                        events.push(Ok(ResponseEvent::OutputTextDelta(text.clone())));
                    }
                } else if text_eq(bkind, "tool_use") {
                    let item = ResponseItem::FunctionCall {
                        id: None,
                        name: copy_text_or_empty(&block.name),
                        namespace: None,
                        arguments: String::new(),
                        call_id: copy_text_or_empty(&block.id),
                    };
                    events.push(Ok(ResponseEvent::OutputItemAdded(item)));
                    self.assistant_message_index = Some(self.output_items.len() as i64);
                } else if text_eq(bkind, "thinking") {
                    if let Some(thinking) = &block.thinking {
                        events.push(
                            Ok(
                                ResponseEvent::ReasoningContentDelta {
                                    delta: thinking.clone(),
                                    content_index: 0,
                                },
                            ),
                        );
                    }
                }
            }
        } else if text_eq(kind, "content_block_delta") {
            if let Some(delta) = &event.delta {
                let dkind = delta.kind.as_str();
                if text_eq(dkind, "text_delta") {
                    if let Some(text) = &delta.text {
                        events.push(Ok(ResponseEvent::OutputTextDelta(text.clone())));
                    }
                } else if text_eq(dkind, "input_json_delta") {
                    if let Some(partial) = &delta.partial_json {
                        events.push(
                            Ok(
                                ResponseEvent::ToolCallInputDelta {
                                    item_id: String::new(),
                                    call_id: None,
                                    delta: partial.clone(),
                                },
                            ),
                        );
                    }
                } else if text_eq(dkind, "thinking_delta") {
                    if let Some(thinking) = &delta.thinking {
                        events.push(
                            Ok(
                                ResponseEvent::ReasoningContentDelta {
                                    delta: thinking.clone(),
                                    content_index: 0,
                                },
                            ),
                        );
                    }
                } else if text_eq(dkind, "signature_delta") {
                    if let Some(sig) = &delta.signature {
                        events.push(
                            Ok(
                                ResponseEvent::ReasoningContentDelta {
                                    delta: sig.clone(),
                                    content_index: 1,
                                },
                            ),
                        );
                    }
                }
            }
        } else if text_eq(kind, "content_block_stop") {
            if let Some(idx) = self.assistant_message_index {
                if idx < self.output_items.len() as i64 {
                    let item = self.output_items[idx as usize].duplicate();
                    events.push(Ok(ResponseEvent::OutputItemDone(item)));
                }
            }
        } else if text_eq(kind, "message_delta") {
            self.token_usage = match &event.usage {
                Some(u) => Some(
                    TokenUsage {
                        input_tokens: u.input_tokens,
                        cached_input_tokens: match u.cache_read_input_tokens {
                            Some(c) => c,
                            None => 0,
                        },
                        output_tokens: u.output_tokens,
                        reasoning_output_tokens: 0,
                        total_tokens: u.input_tokens + u.output_tokens,
                    },
                ),
                None => None,
            };
        } else if text_eq(kind, "message_stop") {
            events.push(
                Ok(
                    ResponseEvent::Completed {
                        response_id: copy_text_or_empty(&self.response_id),
                        token_usage: self.token_usage,
                        end_turn: Some(true),
                    },
                ),
            );
            finished = true;
        } else if text_eq(kind, "error") {
            let message = String::from_str("Anthropic API error: ").concat(event_data);
            events.push(Err(ApiError::Stream(message)));
            finished = true;
        }
        let r = StreamStep { events, finished };
        assert(step_events(r) =~~= stream_step(s0, ev, event_data@).1);
        assert(self.deep_view() =~= stream_step(s0, ev, event_data@).0);
        r
    }
}

} // verus!
