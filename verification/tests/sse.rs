use codex_anthropic::headers::upstream_request_id;
use codex_anthropic::protocol::{ApiError, ContentItem, ResponseEvent, ResponseItem, TokenUsage};
use codex_anthropic::sse::{
    idle_timeout_step, sse_event_payload, stream_closed_step, AnthropicContentBlock, AnthropicContentBlockDelta,
    AnthropicDeltaEvent, AnthropicMessageInfo, AnthropicStreamState, AnthropicUsage, StreamStep,
};
use http::HeaderMap;

fn event(kind: &str) -> AnthropicDeltaEvent {
    AnthropicDeltaEvent {
        kind: kind.to_string(),
        index: None,
        delta: None,
        content_block: None,
        message: None,
        usage: None,
    }
}

fn block(kind: &str) -> AnthropicContentBlock {
    AnthropicContentBlock {
        kind: kind.to_string(),
        text: None,
        name: None,
        id: None,
        thinking: None,
    }
}

fn delta(kind: &str) -> AnthropicContentBlockDelta {
    AnthropicContentBlockDelta {
        kind: kind.to_string(),
        text: None,
        partial_json: None,
        thinking: None,
        signature: None,
    }
}

fn ok_events(step: StreamStep) -> Vec<ResponseEvent> {
    step.events
        .into_iter()
        .map(|r| r.expect("no stream error"))
        .collect()
}

fn message_start(id: &str) -> AnthropicDeltaEvent {
    let mut e = event("message_start");
    e.message = Some(AnthropicMessageInfo { id: id.to_string() });
    e
}

fn text_block_start(text: &str) -> AnthropicDeltaEvent {
    let mut e = event("content_block_start");
    let mut b = block("text");
    b.text = Some(text.to_string());
    e.content_block = Some(b);
    e
}

fn assert_empty_assistant(item: &ResponseItem) {
    match item {
        ResponseItem::Message { id, role, content } => {
            assert!(id.is_none());
            assert_eq!(role, "assistant");
            assert!(content.is_empty());
        }
        other => panic!("not a message: {other:?}"),
    }
}

#[test]
fn full_text_response_is_decoded() {
    let mut state = AnthropicStreamState::new();

    let step = state.handle_event(&message_start("msg_1"), "");
    assert!(!step.finished);
    let evs = ok_events(step);
    assert_eq!(evs.len(), 1);
    assert!(matches!(evs[0], ResponseEvent::Created));

    let evs = ok_events(state.handle_event(&text_block_start("Hel"), ""));
    assert_eq!(evs.len(), 2);
    match &evs[0] {
        ResponseEvent::OutputItemAdded(ResponseItem::Message { role, content, id }) => {
            assert!(id.is_none());
            assert_eq!(role, "assistant");
            assert_eq!(content.len(), 1);
            match &content[0] {
                ContentItem::OutputText { text } => assert_eq!(text, "Hel"),
                other => panic!("unexpected content {other:?}"),
            }
        }
        other => panic!("unexpected event {other:?}"),
    }
    match &evs[1] {
        ResponseEvent::OutputTextDelta(t) => assert_eq!(t, "Hel"),
        other => panic!("unexpected event {other:?}"),
    }

    let mut d = event("content_block_delta");
    let mut td = delta("text_delta");
    td.text = Some("lo".to_string());
    d.delta = Some(td);
    let evs = ok_events(state.handle_event(&d, ""));
    assert_eq!(evs.len(), 1);
    assert!(matches!(&evs[0], ResponseEvent::OutputTextDelta(t) if t == "lo"));

    let evs = ok_events(state.handle_event(&event("content_block_stop"), ""));
    assert_eq!(evs.len(), 1);
    match &evs[0] {
        ResponseEvent::OutputItemDone(item) => assert_empty_assistant(item),
        other => panic!("unexpected event {other:?}"),
    }

    let mut md = event("message_delta");
    md.usage = Some(AnthropicUsage {
        input_tokens: 10,
        output_tokens: 5,
        cache_creation_input_tokens: Some(3),
        cache_read_input_tokens: Some(2),
    });
    let step = state.handle_event(&md, "");
    assert!(!step.finished);
    assert!(step.events.is_empty());

    let step = state.handle_event(&event("message_stop"), "");
    assert!(step.finished);
    let evs = ok_events(step);
    assert_eq!(evs.len(), 1);
    match &evs[0] {
        ResponseEvent::Completed {
            response_id,
            token_usage,
            end_turn,
        } => {
            assert_eq!(response_id, "msg_1");
            assert_eq!(
                *token_usage,
                Some(TokenUsage {
                    input_tokens: 10,
                    cached_input_tokens: 2,
                    output_tokens: 5,
                    reasoning_output_tokens: 0,
                    total_tokens: 15,
                })
            );
            assert_eq!(*end_turn, Some(true));
        }
        other => panic!("unexpected event {other:?}"),
    }
}

#[test]
fn completion_without_start_has_empty_id_and_no_usage() {
    let mut state = AnthropicStreamState::new();
    let step = state.handle_event(&event("message_stop"), "");
    assert!(step.finished);
    match &ok_events(step)[0] {
        ResponseEvent::Completed {
            response_id,
            token_usage,
            end_turn,
        } => {
            assert_eq!(response_id, "");
            assert!(token_usage.is_none());
            assert_eq!(*end_turn, Some(true));
        }
        other => panic!("unexpected event {other:?}"),
    }
}

#[test]
fn missing_cache_read_counts_as_zero() {
    let mut state = AnthropicStreamState::new();
    let mut md = event("message_delta");
    md.usage = Some(AnthropicUsage {
        input_tokens: 7,
        output_tokens: 1,
        cache_creation_input_tokens: None,
        cache_read_input_tokens: None,
    });
    state.handle_event(&md, "");
    match &ok_events(state.handle_event(&event("message_stop"), ""))[0] {
        ResponseEvent::Completed { token_usage, .. } => {
            let u = token_usage.expect("usage");
            assert_eq!(u.cached_input_tokens, 0);
            assert_eq!(u.total_tokens, 8);
        }
        other => panic!("unexpected event {other:?}"),
    }
}

#[test]
fn later_message_delta_without_usage_clears_it() {
    let mut state = AnthropicStreamState::new();
    let mut md = event("message_delta");
    md.usage = Some(AnthropicUsage {
        input_tokens: 1,
        output_tokens: 1,
        cache_creation_input_tokens: None,
        cache_read_input_tokens: None,
    });
    state.handle_event(&md, "");
    state.handle_event(&event("message_delta"), "");
    match &ok_events(state.handle_event(&event("message_stop"), ""))[0] {
        ResponseEvent::Completed { token_usage, .. } => assert!(token_usage.is_none()),
        other => panic!("unexpected event {other:?}"),
    }
}

#[test]
fn tool_use_block_announces_a_function_call() {
    let mut state = AnthropicStreamState::new();
    let mut e = event("content_block_start");
    let mut b = block("tool_use");
    b.name = Some("shell".to_string());
    b.id = Some("toolu_1".to_string());
    e.content_block = Some(b);
    let evs = ok_events(state.handle_event(&e, ""));
    assert_eq!(evs.len(), 1);
    match &evs[0] {
        ResponseEvent::OutputItemAdded(ResponseItem::FunctionCall {
            id,
            name,
            namespace,
            arguments,
            call_id,
        }) => {
            assert!(id.is_none());
            assert_eq!(name, "shell");
            assert!(namespace.is_none());
            assert_eq!(arguments, "");
            assert_eq!(call_id, "toolu_1");
        }
        other => panic!("unexpected event {other:?}"),
    }

    let mut d = event("content_block_delta");
    let mut jd = delta("input_json_delta");
    jd.partial_json = Some("{\"cmd\":".to_string());
    d.delta = Some(jd);
    let evs = ok_events(state.handle_event(&d, ""));
    match &evs[0] {
        ResponseEvent::ToolCallInputDelta {
            item_id,
            call_id,
            delta,
        } => {
            assert_eq!(item_id, "");
            assert!(call_id.is_none());
            assert_eq!(delta, "{\"cmd\":");
        }
        other => panic!("unexpected event {other:?}"),
    }

    // A tool block points past the output items, so its stop emits nothing.
    let step = state.handle_event(&event("content_block_stop"), "");
    assert!(step.events.is_empty());
}

#[test]
fn tool_use_without_name_or_id_uses_empty_texts() {
    let mut state = AnthropicStreamState::new();
    let mut e = event("content_block_start");
    e.content_block = Some(block("tool_use"));
    match &ok_events(state.handle_event(&e, ""))[0] {
        ResponseEvent::OutputItemAdded(ResponseItem::FunctionCall { name, call_id, .. }) => {
            assert_eq!(name, "");
            assert_eq!(call_id, "");
        }
        other => panic!("unexpected event {other:?}"),
    }
}

#[test]
fn thinking_and_signatures_are_reasoning_deltas() {
    let mut state = AnthropicStreamState::new();
    let mut e = event("content_block_start");
    let mut b = block("thinking");
    b.thinking = Some("hmm".to_string());
    e.content_block = Some(b);
    match &ok_events(state.handle_event(&e, ""))[0] {
        ResponseEvent::ReasoningContentDelta {
            delta,
            content_index,
        } => {
            assert_eq!(delta, "hmm");
            assert_eq!(*content_index, 0);
        }
        other => panic!("unexpected event {other:?}"),
    }

    let mut d = event("content_block_delta");
    let mut td = delta("thinking_delta");
    td.thinking = Some("more".to_string());
    d.delta = Some(td);
    match &ok_events(state.handle_event(&d, ""))[0] {
        ResponseEvent::ReasoningContentDelta {
            delta,
            content_index,
        } => {
            assert_eq!(delta, "more");
            assert_eq!(*content_index, 0);
        }
        other => panic!("unexpected event {other:?}"),
    }

    let mut s = event("content_block_delta");
    let mut sd = delta("signature_delta");
    sd.signature = Some("sig".to_string());
    s.delta = Some(sd);
    match &ok_events(state.handle_event(&s, ""))[0] {
        ResponseEvent::ReasoningContentDelta {
            delta,
            content_index,
        } => {
            assert_eq!(delta, "sig");
            assert_eq!(*content_index, 1);
        }
        other => panic!("unexpected event {other:?}"),
    }
}

#[test]
fn events_without_their_payload_emit_nothing() {
    let mut state = AnthropicStreamState::new();
    for kind in [
        "message_start",
        "content_block_start",
        "content_block_delta",
        "content_block_stop",
        "ping",
        "something_new",
    ] {
        let step = state.handle_event(&event(kind), "");
        assert!(!step.finished, "{kind}");
        assert!(step.events.is_empty(), "{kind}");
    }
    let mut e = event("content_block_start");
    e.content_block = Some(block("text"));
    assert!(state.handle_event(&e, "").events.is_empty());
    let mut d = event("content_block_delta");
    d.delta = Some(delta("text_delta"));
    assert!(state.handle_event(&d, "").events.is_empty());
    let mut u = event("content_block_delta");
    u.delta = Some(delta("unknown_delta"));
    assert!(state.handle_event(&u, "").events.is_empty());
}

#[test]
fn error_event_ends_the_stream_with_its_text() {
    let mut state = AnthropicStreamState::new();
    let data = "{\"type\":\"error\",\"error\":{\"type\":\"overloaded_error\"}}";
    let step = state.handle_event(&event("error"), data);
    assert!(step.finished);
    assert_eq!(step.events.len(), 1);
    match &step.events[0] {
        Err(ApiError::Stream(message)) => {
            assert_eq!(message, &format!("Anthropic API error: {data}"))
        }
        other => panic!("unexpected outcome {other:?}"),
    }
}

#[test]
fn second_text_block_is_the_one_closed() {
    let mut state = AnthropicStreamState::new();
    state.handle_event(&text_block_start("a"), "");
    state.handle_event(&event("content_block_stop"), "");
    state.handle_event(&text_block_start("b"), "");
    let evs = ok_events(state.handle_event(&event("content_block_stop"), ""));
    assert_eq!(evs.len(), 1);
    match &evs[0] {
        ResponseEvent::OutputItemDone(item) => assert_empty_assistant(item),
        other => panic!("unexpected event {other:?}"),
    }
}

#[test]
fn latest_message_start_names_the_completion() {
    let mut state = AnthropicStreamState::new();
    state.handle_event(&message_start("first"), "");
    state.handle_event(&message_start("second"), "");
    state.handle_event(&event("message_start"), "");
    match &ok_events(state.handle_event(&event("message_stop"), ""))[0] {
        ResponseEvent::Completed { response_id, .. } => assert_eq!(response_id, "second"),
        other => panic!("unexpected event {other:?}"),
    }
}

#[test]
fn payload_is_trimmed_and_done_marker_skipped() {
    assert_eq!(sse_event_payload("  {\"type\":\"ping\"}\n").as_deref(), Some("{\"type\":\"ping\"}"));
    assert_eq!(sse_event_payload(" \n\t "), None);
    assert_eq!(sse_event_payload(""), None);
    assert_eq!(sse_event_payload(" data: [DONE] "), None);
    assert_eq!(sse_event_payload("[DONE]").as_deref(), Some("[DONE]"));
}

#[test]
fn idle_timeout_ends_with_an_error() {
    let step = idle_timeout_step();
    assert!(step.finished);
    assert_eq!(step.events.len(), 1);
    match &step.events[0] {
        Err(ApiError::Stream(message)) => assert_eq!(message, "Anthropic SSE idle timeout"),
        other => panic!("unexpected outcome {other:?}"),
    }
}

#[test]
fn request_id_is_read_from_headers() {
    let mut headers = HeaderMap::new();
    assert_eq!(upstream_request_id(&headers), None);
    headers.insert("x-request-id", "req_123".parse().unwrap());
    assert_eq!(upstream_request_id(&headers).as_deref(), Some("req_123"));
    headers.append("x-request-id", "req_456".parse().unwrap());
    assert_eq!(upstream_request_id(&headers).as_deref(), Some("req_123"));
    let mut opaque = HeaderMap::new();
    opaque.insert("x-request-id", http::HeaderValue::from_bytes(b"r\xffq").unwrap());
    assert_eq!(upstream_request_id(&opaque), None);
}

#[test]
fn event_stream_requests_accept_only_event_streams() {
    let mut headers = HeaderMap::new();
    headers.append("accept", "application/json".parse().unwrap());
    headers.append("accept", "text/plain".parse().unwrap());
    headers.insert("x-extra", "1".parse().unwrap());
    codex_anthropic::headers::accept_event_stream(&mut headers);
    let accepts: Vec<&str> = headers
        .get_all("accept")
        .iter()
        .map(|v| v.to_str().unwrap())
        .collect();
    assert_eq!(accepts, vec!["text/event-stream"]);
    assert_eq!(headers.get("x-extra").and_then(|v| v.to_str().ok()), Some("1"));
}

#[test]
fn closed_stream_finishes_without_events() {
    let step = stream_closed_step();
    assert!(step.finished);
    assert!(step.events.is_empty());
}

#[test]
fn unparsed_events_are_skipped() {
    let mut state = AnthropicStreamState::new();
    state.handle_parsed(Some(&message_start("msg_9")), "");
    let step = state.handle_parsed(None, "{not json");
    assert!(!step.finished);
    assert!(step.events.is_empty());
    let step = state.handle_parsed(Some(&event("ping")), "{\"type\":\"ping\"}");
    assert!(step.events.is_empty());
    match &ok_events(state.handle_parsed(Some(&event("message_stop")), ""))[0] {
        ResponseEvent::Completed { response_id, .. } => assert_eq!(response_id, "msg_9"),
        other => panic!("unexpected event {other:?}"),
    }
}

#[test]
fn header_room_counts_names() {
    let mut headers = HeaderMap::new();
    assert!(codex_anthropic::headers::can_add_headers(&headers, 2));
    assert!(!codex_anthropic::headers::can_add_headers(&headers, 6554));
    headers.insert("a", "1".parse().unwrap());
    headers.append("a", "2".parse().unwrap());
    assert!(codex_anthropic::headers::can_add_headers(&headers, 6552));
    assert!(!codex_anthropic::headers::can_add_headers(&headers, 6553));
}
