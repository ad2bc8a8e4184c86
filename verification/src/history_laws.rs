//! Laws of the conversion of conversation history to Messages API requests.

use vstd::prelude::*;

use crate::messages::{
    content_blocks, conv_flush, conv_fold, conv_step, convert_history, add_system_text,
    image_block, tool_input_of, ConvState, ContentView, MessageView,
};
use crate::text::{law_split_once_reassembles, law_strip_prefix_reassembles, occurs_at};
use crate::protocol::{ContentItemView, ResponseItemView};

verus! {

/// An image URL becomes a block exactly when it is a `data:image/` URL. The
/// block is base64 data. When the URL holds `;base64,`, the media type is
/// what stands between `data:image/` and its first `;base64,`, and the data
/// is the whole rest of the URL after it, however long: the URL is exactly
/// `data:image/` + media + `;base64,` + data. Otherwise the media type is
/// PNG and the data is the whole URL.
pub proof fn law_image_block_sends_the_whole_data(url: Seq<char>)
    ensures
        image_block(url) is Some <==> ("data:image/"@.len() <= url.len() && url.subrange(
            0,
            "data:image/"@.len() as int,
        ) == "data:image/"@),
        image_block(url) matches Some(b) ==> b is Image,
        image_block(url) matches Some(ContentView::Image { source_type, media_type, data }) ==> {
            &&& source_type == "base64"@
            &&& {
                ||| exists|media: Seq<char>|
                    {
                        &&& url == "data:image/"@ + media + ";base64,"@ + data
                        &&& #[trigger] ("image/"@ + media) == media_type
                        &&& forall|j: int|
                            0 <= j < media.len() ==> !occurs_at(
                                media + ";base64,"@ + data,
                                ";base64,"@,
                                j,
                            )
                    }
                ||| {
                    &&& media_type == "image/"@ + "png"@
                    &&& data == url
                    &&& forall|j: int|
                        0 <= j ==> !occurs_at(
                            url.skip("data:image/"@.len() as int),
                            ";base64,"@,
                            j,
                        )
                }
            }
        },
{
    let p = "data:image/"@;
    let sep = ";base64,"@;
    law_strip_prefix_reassembles(url, p);
    if let Some(rest) = crate::text::strip_prefix_spec(url, p) {
        assert(rest == url.skip(p.len() as int));
        law_split_once_reassembles(rest, sep);
        if let Some((media, b64)) = crate::text::split_once_spec(rest, sep) {
            assert(url =~= p + media + sep + b64);
            assert(rest =~= media + sep + b64);
            assert(("image/"@ + media) == ("image/"@ + media));
        }
    }
}

/// The blocks of the messages, in order.
pub open spec fn flat_content(ms: Seq<MessageView>) -> Seq<ContentView>
    decreases ms.len(),
{
    if ms.len() == 0 {
        Seq::empty()
    } else {
        flat_content(ms.drop_last()) + ms.last().content
    }
}

/// The blocks that one history item contributes to a request.
pub open spec fn item_blocks(item: ResponseItemView) -> Seq<ContentView> {
    match item {
        ResponseItemView::Message { role, content, .. } => {
            if role == "system"@ {
                Seq::empty()
            } else {
                content_blocks(content)
            }
        },
        ResponseItemView::FunctionCall { name, arguments, call_id, .. } => seq![
            ContentView::ToolUse { id: call_id, name, input: tool_input_of(arguments) },
        ],
        ResponseItemView::FunctionCallOutput { call_id, output } => seq![
            ContentView::ToolResult { tool_use_id: call_id, content: output },
        ],
        ResponseItemView::Other => Seq::empty(),
    }
}

/// The blocks that a history contributes, item after item.
pub open spec fn history_blocks(items: Seq<ResponseItemView>) -> Seq<ContentView>
    decreases items.len(),
{
    if items.len() == 0 {
        Seq::empty()
    } else {
        history_blocks(items.drop_last()) + item_blocks(items.last())
    }
}

/// The system prompt gathered from the system messages alone.
pub open spec fn system_prompt(items: Seq<ResponseItemView>) -> Option<Seq<char>>
    decreases items.len(),
{
    if items.len() == 0 {
        None
    } else {
        let before = system_prompt(items.drop_last());
        match items.last() {
            ResponseItemView::Message { role, content, .. } => {
                if role == "system"@ {
                    add_system_text(before, content)
                } else {
                    before
                }
            },
            _ => before,
        }
    }
}

/// A block that carries a tool call or a tool result.
pub open spec fn is_tool_block(c: ContentView) -> bool {
    c is ToolUse || c is ToolResult
}

/// A message in which tool blocks stand alone: a tool use alone in an
/// assistant message, a tool result alone in a user message.
pub open spec fn tools_stand_alone(m: MessageView) -> bool {
    forall|j: int|
        0 <= j < m.content.len() && #[trigger] is_tool_block(m.content[j]) ==> {
            &&& m.content.len() == 1
            &&& m.content[j] is ToolUse ==> m.role == "assistant"@
            &&& m.content[j] is ToolResult ==> m.role == "user"@
        }
}

spec fn conv_inv(st: ConvState, items: Seq<ResponseItemView>) -> bool {
    &&& forall|k: int| 0 <= k < st.messages.len() ==> #[trigger] st.messages[k].content.len() > 0
    &&& forall|k: int| 0 <= k < st.messages.len() ==> tools_stand_alone(#[trigger] st.messages[k])
    &&& flat_content(st.messages) + st.content == history_blocks(items)
    &&& st.content.len() > 0 ==> st.role is Some
    &&& forall|j: int| 0 <= j < st.content.len() ==> !is_tool_block(#[trigger] st.content[j])
    &&& st.system == system_prompt(items)
}

proof fn lemma_content_blocks_no_tools(cs: Seq<ContentItemView>)
    ensures
        forall|j: int|
            0 <= j < content_blocks(cs).len() ==> !is_tool_block(#[trigger] content_blocks(cs)[j]),
    decreases cs.len(),
{
    if cs.len() > 0 {
        lemma_content_blocks_no_tools(cs.drop_last());
        let a = content_blocks(cs.drop_last());
        let b = crate::messages::option_seq(crate::messages::content_block(cs.last()));
        assert forall|j: int| 0 <= j < content_blocks(cs).len() implies !is_tool_block(
            #[trigger] content_blocks(cs)[j],
        ) by {
            if j >= a.len() {
                assert(content_blocks(cs)[j] == b[j - a.len()]);
            } else {
                assert(content_blocks(cs)[j] == a[j]);
            }
        }
    }
}

proof fn lemma_flush_inv(st: ConvState, items: Seq<ResponseItemView>)
    requires
        conv_inv(st, items),
    ensures
        conv_inv(conv_flush(st), items),
{
    let f = conv_flush(st);
    if st.role is Some && st.content.len() > 0 {
        let m = MessageView { role: st.role->0, content: st.content };
        assert(f.messages.drop_last() =~= st.messages);
        assert(flat_content(f.messages) + f.content =~= flat_content(st.messages) + st.content);
        assert forall|k: int| 0 <= k < f.messages.len() implies tools_stand_alone(
            #[trigger] f.messages[k],
        ) by {
            if k == st.messages.len() {
                assert(f.messages[k] == m);
                assert forall|j: int|
                    0 <= j < m.content.len() && #[trigger] is_tool_block(m.content[j]) implies false by {
                    assert(!is_tool_block(st.content[j]));
                }
            }
        }
    } else {
        assert(flat_content(f.messages) + f.content =~= flat_content(st.messages) + st.content);
    }
}

proof fn lemma_single_inv(
    st: ConvState,
    items: Seq<ResponseItemView>,
    role: Seq<char>,
    block: ContentView,
)
    requires
        conv_inv(st, items),
        block is ToolUse ==> role == "assistant"@,
        block is ToolResult ==> role == "user"@,
    ensures
        ({
            let r = crate::messages::conv_single(st, role, block);
            &&& forall|k: int| 0 <= k < r.messages.len() ==> #[trigger] r.messages[k].content.len() > 0
            &&& forall|k: int| 0 <= k < r.messages.len() ==> tools_stand_alone(#[trigger] r.messages[k])
            &&& flat_content(r.messages) + r.content == history_blocks(items) + seq![block]
            &&& r.content.len() == 0
            &&& r.role is None
            &&& r.system == st.system
        }),
{
    lemma_flush_inv(st, items);
    let f = conv_flush(st);
    let g = ConvState { system: f.system, messages: f.messages, role: Some(role), content: seq![block] };
    let r = conv_flush(g);
    let m = MessageView { role, content: seq![block] };
    assert(r.messages == f.messages.push(m));
    assert(r.messages.drop_last() =~= f.messages);
    assert(flat_content(r.messages) + r.content =~= flat_content(f.messages) + seq![block]);
    assert(f.content =~= Seq::<ContentView>::empty());
    assert(flat_content(f.messages) =~= history_blocks(items)) by {
        assert(flat_content(f.messages) + f.content =~= flat_content(f.messages));
    }
    assert forall|k: int| 0 <= k < r.messages.len() implies tools_stand_alone(
        #[trigger] r.messages[k],
    ) by {
        if k == f.messages.len() {
            assert(r.messages[k] == m);
        }
    }
    assert forall|k: int| 0 <= k < r.messages.len() implies #[trigger] r.messages[k].content.len()
        > 0 by {
        if k == f.messages.len() {
            assert(r.messages[k] == m);
        }
    }
}

proof fn lemma_step_inv(st: ConvState, items: Seq<ResponseItemView>, item: ResponseItemView)
    requires
        conv_inv(st, items),
    ensures
        conv_inv(conv_step(st, item), items.push(item)),
{
    let next = items.push(item);
    assert(next.drop_last() =~= items);
    assert(history_blocks(next) == history_blocks(items) + item_blocks(item));
    match item {
        ResponseItemView::Message { role, content, .. } => {
            if role == "system"@ {
                assert(history_blocks(items) + item_blocks(item) =~= history_blocks(items));
            } else {
                lemma_content_blocks_no_tools(content);
                let st1 = if st.role != Some(role) {
                    lemma_flush_inv(st, items);
                    let f = conv_flush(st);
                    ConvState { role: Some(role), ..f }
                } else {
                    st
                };
                assert(conv_inv(st1, items));
                let r = conv_step(st, item);
                assert(r == ConvState { content: st1.content + content_blocks(content), ..st1 });
                assert(flat_content(r.messages) + r.content =~= (flat_content(st1.messages)
                    + st1.content) + content_blocks(content));
                assert forall|j: int| 0 <= j < r.content.len() implies !is_tool_block(
                    #[trigger] r.content[j],
                ) by {
                    if j < st1.content.len() {
                        assert(r.content[j] == st1.content[j]);
                    } else {
                        assert(r.content[j] == content_blocks(content)[j - st1.content.len()]);
                    }
                }
            }
        },
        ResponseItemView::FunctionCall { name, arguments, call_id, .. } => {
            lemma_single_inv(
                st,
                items,
                "assistant"@,
                ContentView::ToolUse { id: call_id, name, input: tool_input_of(arguments) },
            );
            let r = conv_step(st, item);
            assert(r.content =~= Seq::<ContentView>::empty());
        },
        ResponseItemView::FunctionCallOutput { call_id, output } => {
            lemma_single_inv(
                st,
                items,
                "user"@,
                ContentView::ToolResult { tool_use_id: call_id, content: output },
            );
            let r = conv_step(st, item);
            assert(r.content =~= Seq::<ContentView>::empty());
        },
        ResponseItemView::Other => {
            assert(history_blocks(items) + item_blocks(item) =~= history_blocks(items));
        },
    }
}

proof fn lemma_fold_inv(items: Seq<ResponseItemView>)
    ensures
        conv_inv(conv_fold(items), items),
    decreases items.len(),
{
    if items.len() == 0 {
        assert(flat_content(Seq::<MessageView>::empty()) + Seq::<ContentView>::empty()
            =~= history_blocks(items));
    } else {
        lemma_fold_inv(items.drop_last());
        lemma_step_inv(conv_fold(items.drop_last()), items.drop_last(), items.last());
        assert(items.drop_last().push(items.last()) =~= items);
    }
}

/// Converting a history loses no content and adds none: the blocks of the
/// messages, read in order, are the blocks of the history's items, read in
/// order. System messages and items of other kinds contribute none.
pub proof fn law_conversion_keeps_content_in_order(items: Seq<ResponseItemView>)
    ensures
        flat_content(convert_history(items).1) == history_blocks(items),
{
    lemma_fold_inv(items);
    lemma_flush_inv(conv_fold(items), items);
    let f = conv_flush(conv_fold(items));
    assert(flat_content(f.messages) + f.content =~= flat_content(f.messages));
}

/// No converted message is empty.
pub proof fn law_no_empty_messages(items: Seq<ResponseItemView>)
    ensures
        forall|k: int|
            0 <= k < convert_history(items).1.len() ==> #[trigger] convert_history(
                items,
            ).1[k].content.len() > 0,
{
    lemma_fold_inv(items);
    lemma_flush_inv(conv_fold(items), items);
}

/// Each tool call becomes a message of its own from the assistant, and each
/// tool result a message of its own from the user.
pub proof fn law_tool_blocks_stand_alone(items: Seq<ResponseItemView>)
    ensures
        forall|k: int|
            0 <= k < convert_history(items).1.len() ==> tools_stand_alone(
                #[trigger] convert_history(items).1[k],
            ),
{
    lemma_fold_inv(items);
    lemma_flush_inv(conv_fold(items), items);
}

/// The system prompt is gathered from the text inputs of the system messages
/// alone, in order; it is absent when they hold no text input.
pub proof fn law_system_prompt_from_system_messages(items: Seq<ResponseItemView>)
    ensures
        convert_history(items).0 == system_prompt(items),
{
    lemma_fold_inv(items);
}

/// Every item is a message of the role `r`.
pub open spec fn all_messages_of_role(items: Seq<ResponseItemView>, r: Seq<char>) -> bool {
    forall|k: int|
        0 <= k < items.len() ==> (#[trigger] items[k] matches ResponseItemView::Message {
            role,
            ..
        } && role == r)
}

proof fn lemma_one_role_fold(items: Seq<ResponseItemView>, r: Seq<char>)
    requires
        r != "system"@,
        all_messages_of_role(items, r),
    ensures
        conv_fold(items).messages.len() == 0,
        items.len() > 0 ==> conv_fold(items).role == Some(r),
        items.len() == 0 ==> conv_fold(items).role is None && conv_fold(items).content.len() == 0,
    decreases items.len(),
{
    if items.len() > 0 {
        let init = items.drop_last();
        assert(all_messages_of_role(init, r)) by {
            assert forall|k: int| 0 <= k < init.len() implies (#[trigger] init[k]
                matches ResponseItemView::Message { role, .. } && role == r) by {
                assert(init[k] == items[k]);
            }
        }
        lemma_one_role_fold(init, r);
        assert(items[items.len() - 1] == items.last());
    }
}

/// Messages of one role, one after another, merge into a single message of
/// that role (or none, when they hold no content).
pub proof fn law_messages_of_one_role_merge(items: Seq<ResponseItemView>, r: Seq<char>)
    requires
        r != "system"@,
        all_messages_of_role(items, r),
    ensures
        convert_history(items).1.len() <= 1,
        convert_history(items).1.len() == 1 ==> convert_history(items).1[0].role == r,
{
    lemma_one_role_fold(items, r);
}

/// The items that the conversion reads: messages, tool calls and tool
/// results.
pub open spec fn is_conversation_item() -> spec_fn(ResponseItemView) -> bool {
    |item: ResponseItemView| !(item is Other)
}

proof fn lemma_fold_skips_other_items(items: Seq<ResponseItemView>)
    ensures
        conv_fold(items) == conv_fold(items.filter(is_conversation_item())),
    decreases items.len(),
{
    if items.len() > 0 {
        let init = items.drop_last();
        lemma_fold_skips_other_items(init);
        init.lemma_filter_push(items.last(), is_conversation_item());
        assert(init.push(items.last()) =~= items);
        let kept = init.filter(is_conversation_item());
        if !(items.last() is Other) {
            assert(kept.push(items.last()).drop_last() =~= kept);
        }
    }
}

/// Items of other kinds (reasoning, shell calls, searches) change nothing:
/// the history converts as it would without them.
pub proof fn law_other_items_are_ignored(items: Seq<ResponseItemView>)
    ensures
        convert_history(items) == convert_history(items.filter(is_conversation_item())),
{
    lemma_fold_skips_other_items(items);
}

} // verus!
