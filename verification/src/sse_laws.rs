//! Laws of the event-stream decoder, over runs of several events.

use vstd::prelude::*;

use crate::protocol::ResponseEventView;
use crate::text::{is_white_space, law_trim_removes_exactly_outer_white_space, trim};
use crate::sse::{
    event_payload,
    block_start, empty_assistant_message, input_step, stream_step, stream_wf, step_in_range,
    text_or_empty, usage_of, AnthropicUsage, Emitted, EventView, SseInput, StreamStateView,
};

verus! {

/// The event kinds that the decoder tells apart are distinct texts.
proof fn lemma_event_kinds_distinct()
    ensures
        "message_start"@ != "message_delta"@,
        "content_block_start"@ != "content_block_delta"@,
        "message_start"@.len() == 13,
        "content_block_start"@.len() == 19,
        "content_block_delta"@.len() == 19,
        "content_block_stop"@.len() == 18,
        "message_delta"@.len() == 13,
        "message_stop"@.len() == 12,
        "error"@.len() == 5,
{
    reveal_strlit("message_start");
    reveal_strlit("content_block_start");
    reveal_strlit("content_block_delta");
    reveal_strlit("content_block_stop");
    reveal_strlit("message_delta");
    reveal_strlit("message_stop");
    reveal_strlit("error");
    assert("message_start"@.len() == 13);
    assert("content_block_start"@.len() == 19);
    assert("content_block_delta"@.len() == 19);
    assert("content_block_stop"@.len() == 18);
    assert("message_delta"@.len() == 13);
    assert("message_stop"@.len() == 12);
    assert("error"@.len() == 5);
    assert("message_start"@[8] != "message_delta"@[8]);
    assert("content_block_start"@[14] != "content_block_delta"@[14]);
}

/// The state after a run of events, each with its text.
pub open spec fn run(s: StreamStateView, events: Seq<(EventView, Seq<char>)>) -> StreamStateView
    decreases events.len(),
{
    if events.len() == 0 {
        s
    } else {
        stream_step(run(s, events.drop_last()), events.last().0, events.last().1).0
    }
}

/// Every event of the run stays within `i64` arithmetic from the state it
/// meets, and the output never reaches `i64::MAX` items.
pub open spec fn run_in_range(s: StreamStateView, events: Seq<(EventView, Seq<char>)>) -> bool
    decreases events.len(),
{
    if events.len() == 0 {
        true
    } else {
        let before = run(s, events.drop_last());
        &&& run_in_range(s, events.drop_last())
        &&& step_in_range(before, events.last().0)
        &&& before.output_items.len() < i64::MAX
    }
}

/// The decoder's invariant holds after every event.
pub proof fn law_step_keeps_invariant(s: StreamStateView, ev: EventView, data: Seq<char>)
    requires
        stream_wf(s),
        step_in_range(s, ev),
        s.output_items.len() < i64::MAX,
    ensures
        stream_wf(stream_step(s, ev, data).0),
{
    lemma_event_kinds_distinct();
    let r = stream_step(s, ev, data).0;
    if ev.kind == "content_block_start"@ && ev.content_block is Some {
        let b = ev.content_block->0;
        assert(r == block_start(s, b).0);
        assert forall|k: int| 0 <= k < r.output_items.len() implies #[trigger] r.output_items[k]
            == empty_assistant_message() by {
            if k < s.output_items.len() {
                assert(r.output_items[k] == s.output_items[k]);
            }
        }
    }
}

/// The decoder's invariant holds after every run that stays in range.
pub proof fn law_run_keeps_invariant(s: StreamStateView, events: Seq<(EventView, Seq<char>)>)
    requires
        stream_wf(s),
        run_in_range(s, events),
    ensures
        stream_wf(run(s, events)),
    decreases events.len(),
{
    if events.len() > 0 {
        law_run_keeps_invariant(s, events.drop_last());
        law_step_keeps_invariant(run(s, events.drop_last()), events.last().0, events.last().1);
    }
}

/// A run leaves the response identifier alone when none of its events is a
/// `message_start` that carries a message.
pub open spec fn starts_no_message(events: Seq<(EventView, Seq<char>)>) -> bool {
    forall|k: int|
        0 <= k < events.len() ==> !(#[trigger] events[k].0.kind == "message_start"@
            && events[k].0.message_id is Some)
}

/// A run leaves the token usage alone when none of its events is a
/// `message_delta`.
pub open spec fn reports_no_usage(events: Seq<(EventView, Seq<char>)>) -> bool {
    forall|k: int| 0 <= k < events.len() ==> #[trigger] events[k].0.kind != "message_delta"@
}

proof fn lemma_run_keeps_response_id(s: StreamStateView, events: Seq<(EventView, Seq<char>)>)
    requires
        starts_no_message(events),
    ensures
        run(s, events).response_id == s.response_id,
    decreases events.len(),
{
    if events.len() > 0 {
        let init = events.drop_last();
        assert(starts_no_message(init)) by {
            assert forall|k: int| 0 <= k < init.len() implies !(#[trigger] init[k].0.kind
                == "message_start"@ && init[k].0.message_id is Some) by {
                assert(init[k] == events[k]);
            }
        }
        lemma_run_keeps_response_id(s, init);
        assert(events[events.len() - 1] == events.last());
    }
}

proof fn lemma_run_keeps_usage(s: StreamStateView, events: Seq<(EventView, Seq<char>)>)
    requires
        reports_no_usage(events),
    ensures
        run(s, events).token_usage == s.token_usage,
    decreases events.len(),
{
    if events.len() > 0 {
        let init = events.drop_last();
        assert(reports_no_usage(init)) by {
            assert forall|k: int| 0 <= k < init.len() implies #[trigger] init[k].0.kind
                != "message_delta"@ by {
                assert(init[k] == events[k]);
            }
        }
        lemma_run_keeps_usage(s, init);
        assert(events[events.len() - 1] == events.last());
    }
}

/// A `message_stop` completes the response under the identifier of the
/// latest `message_start`, whatever other events came between.
pub proof fn law_completion_names_latest_message(
    s: StreamStateView,
    start: EventView,
    start_data: Seq<char>,
    between: Seq<(EventView, Seq<char>)>,
    stop: EventView,
    stop_data: Seq<char>,
)
    requires
        start.kind == "message_start"@,
        start.message_id is Some,
        starts_no_message(between),
        stop.kind == "message_stop"@,
    ensures
        ({
            let before = run(stream_step(s, start, start_data).0, between);
            stream_step(before, stop, stop_data) == (
                before,
                seq![
                    Ok::<ResponseEventView, Seq<char>>(ResponseEventView::Completed {
                        response_id: start.message_id->0,
                        token_usage: before.token_usage,
                        end_turn: Some(true),
                    }),
                ],
                true,
            )
        }),
{
    lemma_event_kinds_distinct();
    lemma_run_keeps_response_id(stream_step(s, start, start_data).0, between);
}

/// A `message_stop` reports the token usage of the latest `message_delta`:
/// its input and output counts, the cached-read count (zero when absent),
/// and their input-plus-output total.
pub proof fn law_completion_reports_latest_usage(
    s: StreamStateView,
    delta: EventView,
    delta_data: Seq<char>,
    between: Seq<(EventView, Seq<char>)>,
    stop: EventView,
    stop_data: Seq<char>,
    usage: AnthropicUsage,
)
    requires
        delta.kind == "message_delta"@,
        delta.usage == Some(usage),
        reports_no_usage(between),
        stop.kind == "message_stop"@,
    ensures
        ({
            let before = run(stream_step(s, delta, delta_data).0, between);
            stream_step(before, stop, stop_data).1 == seq![
                Ok::<ResponseEventView, Seq<char>>(ResponseEventView::Completed {
                    response_id: text_or_empty(before.response_id),
                    token_usage: Some(usage_of(usage)),
                    end_turn: Some(true),
                }),
            ]
        }),
{
    lemma_event_kinds_distinct();
    lemma_run_keeps_usage(stream_step(s, delta, delta_data).0, between);
}

/// The stream finishes exactly on a `message_stop` or an `error` event.
pub proof fn law_finishes_on_stop_or_error(s: StreamStateView, ev: EventView, data: Seq<char>)
    ensures
        stream_step(s, ev, data).2 <==> (ev.kind == "message_stop"@ || ev.kind == "error"@),
{
    lemma_event_kinds_distinct();
}

/// Every item that a `content_block_stop` closes is an empty assistant
/// message.
pub proof fn law_closed_items_are_empty_assistant_messages(
    s: StreamStateView,
    ev: EventView,
    data: Seq<char>,
)
    requires
        stream_wf(s),
    ensures
        forall|k: int|
            0 <= k < stream_step(s, ev, data).1.len() ==> (#[trigger] stream_step(s, ev, data).1[k]
                matches Ok(ResponseEventView::OutputItemDone(item)) ==> item
                == empty_assistant_message()),
{
}

/// `t` is a contiguous part of `data` from `lo` to `hi`, and everything
/// around it is white space.
pub open spec fn is_core_of(data: Seq<char>, t: Seq<char>, lo: int, hi: int) -> bool {
    &&& 0 <= lo <= hi <= data.len()
    &&& data.subrange(lo, hi) == t
    &&& forall|i: int| 0 <= i < lo ==> is_white_space(#[trigger] data[i])
    &&& forall|i: int| hi <= i < data.len() ==> is_white_space(#[trigger] data[i])
}

/// The payload of an event is its data with the white space at both ends
/// removed and nothing else changed: a contiguous, non-empty part of the
/// data that neither starts nor ends with white space, around which there
/// is only white space, and that is not the `data: [DONE]` marker. There is
/// no payload exactly when the data is all white space or, trimmed, the
/// marker.
pub proof fn law_payload_is_the_trimmed_data(data: Seq<char>)
    ensures
        event_payload(data) matches Some(p) ==> {
            &&& p.len() > 0
            &&& !is_white_space(p[0])
            &&& !is_white_space(p.last())
            &&& p != "data: [DONE]"@
            &&& exists|lo: int, hi: int| is_core_of(data, p, lo, hi)
        },
        event_payload(data) is None ==> {
            ||| forall|i: int| 0 <= i < data.len() ==> is_white_space(#[trigger] data[i])
            ||| exists|lo: int, hi: int| is_core_of(data, "data: [DONE]"@, lo, hi)
        },
{
    law_trim_removes_exactly_outer_white_space(data);
    let t = trim(data);
    let (lo, hi) = choose|lo: int, hi: int|
        {
            &&& 0 <= lo <= hi <= data.len()
            &&& t == data.subrange(lo, hi)
            &&& forall|i: int| 0 <= i < lo ==> is_white_space(#[trigger] data[i])
            &&& forall|i: int| hi <= i < data.len() ==> is_white_space(#[trigger] data[i])
            &&& lo < hi ==> !is_white_space(data[lo]) && !is_white_space(data[hi - 1])
        };
    assert(is_core_of(data, t, lo, hi));
    if t.len() > 0 {
        assert(t[0] == data[lo]);
        assert(t.last() == data[hi - 1]);
    } else {
        assert forall|i: int| 0 <= i < data.len() implies is_white_space(#[trigger] data[i]) by {
            if i >= lo {
                assert(i >= hi);
            }
        }
    }
}

/// A `content_block_start` event that starts a tool-use block.
pub open spec fn is_tool_use_start(ev: EventView) -> bool {
    &&& ev.kind == "content_block_start"@
    &&& ev.content_block matches Some(b) && b.kind == "tool_use"@
}

/// None of the run's events starts a content block.
pub open spec fn starts_no_block(events: Seq<(EventView, Seq<char>)>) -> bool {
    forall|k: int| 0 <= k < events.len() ==> #[trigger] events[k].0.kind != "content_block_start"@
}

proof fn lemma_run_keeps_blocks(s: StreamStateView, events: Seq<(EventView, Seq<char>)>)
    requires
        starts_no_block(events),
    ensures
        run(s, events).output_items == s.output_items,
        run(s, events).assistant_message_index == s.assistant_message_index,
    decreases events.len(),
{
    if events.len() > 0 {
        let init = events.drop_last();
        assert(starts_no_block(init)) by {
            assert forall|k: int| 0 <= k < init.len() implies #[trigger] init[k].0.kind
                != "content_block_start"@ by {
                assert(init[k] == events[k]);
            }
        }
        lemma_run_keeps_blocks(s, init);
        assert(events[events.len() - 1] == events.last());
    }
}

/// A tool-use block is never reported done: the `content_block_stop` that
/// follows its start, after any events that start no other block, emits
/// nothing. Only text blocks are closed with an item.
pub proof fn law_tool_use_block_stop_emits_nothing(
    s: StreamStateView,
    start: EventView,
    start_data: Seq<char>,
    between: Seq<(EventView, Seq<char>)>,
    stop: EventView,
    stop_data: Seq<char>,
)
    requires
        is_tool_use_start(start),
        starts_no_block(between),
        stop.kind == "content_block_stop"@,
    ensures
        ({
            let before = run(stream_step(s, start, start_data).0, between);
            stream_step(before, stop, stop_data) == (before, Seq::<Emitted>::empty(), false)
        }),
{
    lemma_event_kinds_distinct();
    reveal_strlit("text");
    reveal_strlit("tool_use");
    assert("text"@.len() == 4);
    assert("tool_use"@.len() == 8);
    let after = stream_step(s, start, start_data).0;
    assert(after.assistant_message_index == Some(after.output_items.len() as int));
    lemma_run_keeps_blocks(after, between);
}

/// The event kinds that the decoder acts on; any other kind (`ping`, or one
/// it does not know) is ignored.
pub open spec fn is_handled_kind(kind: Seq<char>) -> bool {
    ||| kind == "message_start"@
    ||| kind == "content_block_start"@
    ||| kind == "content_block_delta"@
    ||| kind == "content_block_stop"@
    ||| kind == "message_delta"@
    ||| kind == "message_stop"@
    ||| kind == "error"@
}

/// A server-sent event that the decoder ignores: its text did not parse, or
/// its kind is not one the decoder acts on.
pub open spec fn is_ignored_input(input: SseInput) -> bool {
    match input.event {
        Some(ev) => !is_handled_kind(ev.kind),
        None => true,
    }
}

/// The events that the decoder does not ignore.
pub open spec fn not_ignored() -> spec_fn(SseInput) -> bool {
    |input: SseInput| !is_ignored_input(input)
}

/// What the decoder emits over a run of server-sent events, up to and
/// including the event that finishes the stream.
pub open spec fn emitted_by(s: StreamStateView, inputs: Seq<SseInput>) -> Seq<Emitted>
    decreases inputs.len(),
{
    if inputs.len() == 0 {
        Seq::empty()
    } else {
        let (next, out, finished) = input_step(s, inputs[0]);
        if finished {
            out
        } else {
            out + emitted_by(next, inputs.drop_first())
        }
    }
}

/// An ignored event leaves the state alone, emits nothing and does not
/// finish the stream.
pub proof fn law_ignored_input_does_nothing(s: StreamStateView, input: SseInput)
    requires
        is_ignored_input(input),
    ensures
        input_step(s, input) == (s, Seq::<Emitted>::empty(), false),
{
}

/// Ignored events change nothing of what a stream emits: the run emits what
/// the run without them emits.
pub proof fn law_ignored_inputs_change_nothing(s: StreamStateView, inputs: Seq<SseInput>)
    ensures
        emitted_by(s, inputs) == emitted_by(s, inputs.filter(not_ignored())),
    decreases inputs.len(),
{
    if inputs.len() > 0 {
        let first = inputs[0];
        let rest = inputs.drop_first();
        assert(inputs =~= seq![first] + rest);
        Seq::filter_distributes_over_add(seq![first], rest, not_ignored());
        Seq::<SseInput>::empty().lemma_filter_push(first, not_ignored());
        assert(Seq::<SseInput>::empty().push(first) =~= seq![first]);
        assert(Seq::<SseInput>::empty().filter(not_ignored()) =~= Seq::<SseInput>::empty()) by {
            reveal(Seq::filter);
        }
        let kept = inputs.filter(not_ignored());
        let (next, out, finished) = input_step(s, first);
        if is_ignored_input(first) {
            assert(kept =~= rest.filter(not_ignored()));
            law_ignored_inputs_change_nothing(s, rest);
            assert(out =~= Seq::<Emitted>::empty());
        } else {
            assert(kept =~= seq![first] + rest.filter(not_ignored()));
            assert(kept[0] == first);
            assert(kept.drop_first() =~= rest.filter(not_ignored()));
            if !finished {
                law_ignored_inputs_change_nothing(next, rest);
            }
        }
    }
}

} // verus!
