//! Operations on a conversation history that keep it acceptable to a model:
//! the non-failing trim, the repair of a dangling assistant turn, and the
//! outbound message list of a step.

use crate::message::{
    lemma_tool_use_ids_of_uses, lemma_tool_uses_are_blocks, messages_view, BlockView, ContentView,
    LlmMessage, MessageRole, MessageView,
};
use vstd::prelude::*;

verus! {

/// The text of a tool result synthesized for a tool use that never got one.
pub open spec fn interrupted_result_text() -> Seq<char> {
    "Previous task interrupted or incomplete"@
}

/// How many messages the trim keeps when compression fails.
pub const FALLBACK_MAX_MESSAGES: usize = 50;

/// Whether the history begins with a system message.
pub open spec fn starts_with_system(h: Seq<MessageView>) -> bool {
    h.len() > 0 && h[0].role == MessageRole::System
}

/// Where the kept tail begins when `h` is trimmed to `max` messages: the
/// tail holds `max - 1` messages, and never the leading system message a
/// second time.
pub open spec fn trim_start(h: Seq<MessageView>, max: nat) -> int {
    let keep = if max >= 1 { max - 1 } else { 0 };
    let start = if h.len() >= keep { h.len() - keep } else { 0 };
    if starts_with_system(h) && start < 1 {
        1
    } else {
        start
    }
}

/// The simple trim: a history of at most `max` messages is kept whole;
/// otherwise the leading system message, if there is one, is followed by
/// the most recent `max - 1` messages.
pub open spec fn trimmed(h: Seq<MessageView>, max: nat) -> Seq<MessageView> {
    if h.len() <= max {
        h
    } else if starts_with_system(h) {
        seq![h[0]] + h.subrange(trim_start(h, max), h.len() as int)
    } else {
        h.subrange(trim_start(h, max), h.len() as int)
    }
}

/// Trims the history in place to the leading system message and the most
/// recent messages. Never fails.
pub fn fallback_trim(history: &mut Vec<LlmMessage>, max_messages: usize)
    ensures
        messages_view(final(history)@) == trimmed(
            messages_view(old(history)@),
            max_messages as nat,
        ),
{
    let ghost before = messages_view(history@);
    let len = history.len();
    if len <= max_messages {
        return ;
    }
    let mut kept: Vec<LlmMessage> = Vec::new();
    let system_first = match history[0].role {
        MessageRole::System => true,
        _ => false,
    };
    if system_first {
        kept.push(history[0].clone());
    }
    let keep_count: usize = if max_messages >= 1 {
        max_messages - 1
    } else {
        0
    };
    let start_index: usize = len - keep_count;
    let iter_start: usize = if system_first && start_index < 1 {
        1
    } else {
        start_index
    };
    assert(iter_start == trim_start(before, max_messages as nat));
    let ghost head = messages_view(kept@);
    assert(head =~= if system_first {
        seq![before[0]]
    } else {
        Seq::empty()
    });
    let mut i: usize = iter_start;
    while i < len
        invariant
            iter_start <= i <= len,
            len == history.len(),
            before == messages_view(history@),
            messages_view(kept@) == head + before.subrange(iter_start as int, i as int),
        decreases len - i,
    {
        let ghost prev = kept@;
        kept.push(history[i].clone());
        assert(messages_view(kept@) =~= messages_view(prev).push(before[i as int]));
        assert(messages_view(kept@) =~= head + before.subrange(iter_start as int, i + 1));
        i += 1;
    }
    *history = kept;
    assert(messages_view(history@) =~= trimmed(before, max_messages as nat));
}

/// The message that stands in for the missing result of the tool use `id`.
pub open spec fn synthetic_result(id: Seq<char>) -> MessageView {
    MessageView {
        role: MessageRole::Tool,
        content: ContentView::MultiModal(
            seq![
                BlockView::ToolResult {
                    tool_use_id: id,
                    is_error: Some(true),
                    content: interrupted_result_text(),
                },
            ],
        ),
        metadata: None,
    }
}

/// Whether the history ends in an assistant message that asks for tools.
pub open spec fn dangling(h: Seq<MessageView>) -> bool {
    h.len() > 0 && h.last().role == MessageRole::Assistant && h.last().has_tool_use()
}

/// The repaired history: where it ends in an assistant message that asks
/// for tools, one error result per tool-use id follows it, in the order of
/// the requests; any other history is unchanged.
pub open spec fn repaired(h: Seq<MessageView>) -> Seq<MessageView> {
    if dangling(h) {
        h + h.last().tool_use_ids().map_values(|id: Seq<char>| synthetic_result(id))
    } else {
        h
    }
}

/// Repairs a history left dangling by an earlier task. Returns how many
/// results were synthesized.
pub fn repair_trailing_tool_uses(history: &mut Vec<LlmMessage>) -> (added: usize)
    ensures
        messages_view(final(history)@) == repaired(messages_view(old(history)@)),
        added == final(history)@.len() - old(history)@.len(),
{
    let ghost before = messages_view(history@);
    let len = history.len();
    if len == 0 {
        return 0;
    }
    let is_assistant = match history[len - 1].role {
        MessageRole::Assistant => true,
        _ => false,
    };
    if !is_assistant || !history[len - 1].has_tool_use() {
        return 0;
    }
    let ids = history[len - 1].tool_use_ids();
    let ghost id_views = before.last().tool_use_ids();
    assert(ids@.map_values(|s: String| s@) == id_views);
    proof {
        lemma_tool_use_ids_of_uses(before.last().blocks());
        lemma_tool_uses_are_blocks(before.last().blocks());
    }
    let mut i: usize = 0;
    assert(id_views.subrange(0, 0).map_values(|id: Seq<char>| synthetic_result(id)) =~= Seq::empty());
    assert(before + Seq::<MessageView>::empty() =~= before);
    while i < ids.len()
        invariant
            i <= ids.len(),
            ids@.map_values(|s: String| s@) == id_views,
            history@.len() == len + i,
            messages_view(history@) == before + id_views.subrange(0, i as int).map_values(
                |id: Seq<char>| synthetic_result(id),
            ),
        decreases ids.len() - i,
    {
        assert(ids@[i as int]@ == id_views[i as int]);
        let message = LlmMessage::tool_result(
            ids[i].as_str(),
            true,
            "Previous task interrupted or incomplete",
        );
        let ghost prev = history@;
        history.push(message);
        assert(messages_view(history@) =~= messages_view(prev).push(
            synthetic_result(id_views[i as int]),
        ));
        assert(messages_view(history@) =~= before + id_views.subrange(0, i + 1).map_values(
            |id: Seq<char>| synthetic_result(id),
        ));
        i += 1;
    }
    assert(id_views.subrange(0, i as int) =~= id_views);
    i
}

/// The messages sent to the model for one step: the history, preceded by a
/// system message with `system_prompt` unless the history begins with one.
pub open spec fn outbound(h: Seq<MessageView>, system_prompt: Seq<char>) -> Seq<MessageView> {
    if starts_with_system(h) {
        h
    } else {
        seq![
            MessageView {
                role: MessageRole::System,
                content: ContentView::Text(system_prompt),
                metadata: None,
            },
        ] + h
    }
}

/// Builds the outbound message list of a step.
pub fn outbound_messages(history: &Vec<LlmMessage>, system_prompt: &str) -> (r: Vec<LlmMessage>)
    ensures
        messages_view(r@) == outbound(messages_view(history@), system_prompt@),
{
    let ghost h = messages_view(history@);
    let needs_prompt = if history.len() == 0 {
        true
    } else {
        match history[0].role {
            MessageRole::System => false,
            _ => true,
        }
    };
    let mut out: Vec<LlmMessage> = Vec::new();
    if needs_prompt {
        out.push(LlmMessage::system(system_prompt));
    }
    let ghost head = messages_view(out@);
    assert(head =~= if needs_prompt {
        seq![
            MessageView {
                role: MessageRole::System,
                content: ContentView::Text(system_prompt@),
                metadata: None,
            },
        ]
    } else {
        Seq::empty()
    });
    let mut i: usize = 0;
    while i < history.len()
        invariant
            i <= history.len(),
            h == messages_view(history@),
            messages_view(out@) == head + h.subrange(0, i as int),
        decreases history.len() - i,
    {
        let ghost prev = out@;
        out.push(history[i].clone());
        assert(messages_view(out@) =~= messages_view(prev).push(h[i as int]));
        assert(messages_view(out@) =~= head + h.subrange(0, i + 1));
        i += 1;
    }
    assert(h.subrange(0, i as int) =~= h);
    assert(Seq::<MessageView>::empty() + h =~= h);
    out
}

/// A copy of a history.
pub fn clone_messages(history: &Vec<LlmMessage>) -> (r: Vec<LlmMessage>)
    ensures
        messages_view(r@) == messages_view(history@),
{
    let copy = history.clone();
    assert(messages_view(copy@) =~= messages_view(history@));
    copy
}

/// The trim keeps at most `max` messages, and a leading system message
/// stays where it was.
pub proof fn law_trim_bounded(h: Seq<MessageView>, max: nat)
    requires
        max >= 1,
    ensures
        trimmed(h, max).len() <= max,
        starts_with_system(h) ==> starts_with_system(trimmed(h, max)) && trimmed(h, max)[0]
            == h[0],
{
}

/// What the trim keeps after the head is the most recent part of the
/// history, unchanged and in order.
pub proof fn law_trim_keeps_recent(h: Seq<MessageView>, max: nat)
    ensures
        trimmed(h, max).len() <= h.len(),
        forall|k: int|
            0 <= k < trimmed(h, max).len() && !(k == 0 && starts_with_system(h)) ==> #[trigger] trimmed(
                h,
                max,
            )[k] == h[h.len() - trimmed(h, max).len() + k],
{
}

/// Whether a block is the result of the tool use `id`.
pub open spec fn is_result_for(b: BlockView, id: Seq<char>) -> bool {
    b is ToolResult && b->tool_use_id == id
}

/// Whether message `k` of `h` is a tool message that carries a result for
/// the tool use `id`.
pub open spec fn resolves_at(h: Seq<MessageView>, k: int, id: Seq<char>) -> bool {
    &&& 0 <= k < h.len()
    &&& h[k].role == MessageRole::Tool
    &&& exists|b: int| 0 <= b < h[k].blocks().len() && is_result_for(#[trigger] h[k].blocks()[b], id)
}

/// Whether a result for `id` stands strictly between positions `lo` and `hi`.
pub open spec fn resolved_between(h: Seq<MessageView>, id: Seq<char>, lo: int, hi: int) -> bool {
    exists|k: int| lo < k < hi && #[trigger] resolves_at(h, k, id)
}

/// Whether message `i` of `h` is an assistant message that asks for the
/// tool use `id`.
pub open spec fn asks_at(h: Seq<MessageView>, i: int, id: Seq<char>) -> bool {
    &&& 0 <= i < h.len()
    &&& h[i].role == MessageRole::Assistant
    &&& h[i].tool_use_ids().contains(id)
}

/// Whether message `j` of `h` is an assistant message.
pub open spec fn assistant_at(h: Seq<MessageView>, j: int) -> bool {
    0 <= j < h.len() && h[j].role == MessageRole::Assistant
}

/// The validity of a stored history: no assistant message is followed by a
/// further assistant message before each of its tool uses has a result.
pub open spec fn valid_history(h: Seq<MessageView>) -> bool {
    forall|i: int, j: int, id: Seq<char>|
        #![trigger asks_at(h, i, id), assistant_at(h, j)]
        asks_at(h, i, id) && assistant_at(h, j) && i < j ==> resolved_between(h, id, i, j)
}

/// Whether every tool use asked for before position `n` has its result
/// somewhere after the request.
pub open spec fn resolved_up_to(h: Seq<MessageView>, n: int) -> bool {
    forall|i: int, id: Seq<char>|
        #![trigger asks_at(h, i, id)]
        asks_at(h, i, id) && i < n ==> resolved_between(h, id, i, h.len() as int)
}

/// A valid history that a further assistant message may follow.
pub open spec fn settled(h: Seq<MessageView>) -> bool {
    valid_history(h) && resolved_up_to(h, h.len() as int)
}

/// A valid history in which at most the last message still waits for
/// results.
pub open spec fn settled_but_last(h: Seq<MessageView>) -> bool {
    valid_history(h) && resolved_up_to(h, h.len() - 1)
}

/// Appending a message changes nothing about the messages before it.
proof fn lemma_push_preserves(h: Seq<MessageView>, m: MessageView)
    ensures
        forall|i: int, id: Seq<char>|
            #![trigger asks_at(h.push(m), i, id)]
            i < h.len() ==> asks_at(h.push(m), i, id) == asks_at(h, i, id),
        forall|k: int, id: Seq<char>|
            #![trigger resolves_at(h.push(m), k, id)]
            k < h.len() ==> resolves_at(h.push(m), k, id) == resolves_at(h, k, id),
        forall|j: int|
            #![trigger assistant_at(h.push(m), j)]
            j < h.len() ==> assistant_at(h.push(m), j) == assistant_at(h, j),
{
    let g = h.push(m);
    assert forall|k: int, id: Seq<char>| #![trigger resolves_at(g, k, id)] k < h.len() implies resolves_at(
        g,
        k,
        id,
    ) == resolves_at(h, k, id) by {
        if 0 <= k {
            assert(g[k] == h[k]);
        }
    }
}

/// A message that is not from the assistant may follow any valid history.
pub proof fn law_push_other_keeps_valid(h: Seq<MessageView>, m: MessageView)
    requires
        valid_history(h),
        m.role != MessageRole::Assistant,
    ensures
        valid_history(h.push(m)),
        settled(h) ==> settled(h.push(m)),
{
    let g = h.push(m);
    lemma_push_preserves(h, m);
    assert forall|i: int, j: int, id: Seq<char>|
        #![trigger asks_at(g, i, id), assistant_at(g, j)]
        asks_at(g, i, id) && assistant_at(g, j) && i < j implies resolved_between(g, id, i, j) by {
        assert(j < h.len());
        assert(asks_at(h, i, id) && assistant_at(h, j));
        let k = choose|k: int| i < k < j && #[trigger] resolves_at(h, k, id);
        assert(resolves_at(g, k, id));
    }
    if settled(h) {
        assert forall|i: int, id: Seq<char>| #![trigger asks_at(g, i, id)] asks_at(g, i, id) && i
            < g.len() implies resolved_between(g, id, i, g.len() as int) by {
            assert(i < h.len());
            assert(asks_at(h, i, id));
            let k = choose|k: int| i < k < h.len() && #[trigger] resolves_at(h, k, id);
            assert(resolves_at(g, k, id));
        }
    }
}

/// An assistant message may follow a settled history: the history stays
/// valid, and only the new message waits for results.
pub proof fn law_push_assistant_after_settled(h: Seq<MessageView>, m: MessageView)
    requires
        settled(h),
        m.role == MessageRole::Assistant,
    ensures
        valid_history(h.push(m)),
        settled_but_last(h.push(m)),
{
    let g = h.push(m);
    lemma_push_preserves(h, m);
    assert forall|i: int, j: int, id: Seq<char>|
        #![trigger asks_at(g, i, id), assistant_at(g, j)]
        asks_at(g, i, id) && assistant_at(g, j) && i < j implies resolved_between(g, id, i, j) by {
        assert(asks_at(h, i, id));
        if j < h.len() {
            assert(assistant_at(h, j));
            let k = choose|k: int| i < k < j && #[trigger] resolves_at(h, k, id);
            assert(resolves_at(g, k, id));
        } else {
            let k = choose|k: int| i < k < h.len() && #[trigger] resolves_at(h, k, id);
            assert(resolves_at(g, k, id));
        }
    }
    assert forall|i: int, id: Seq<char>| #![trigger asks_at(g, i, id)] asks_at(g, i, id) && i
        < g.len() - 1 implies resolved_between(g, id, i, g.len() as int) by {
        assert(asks_at(h, i, id));
        let k = choose|k: int| i < k < h.len() && #[trigger] resolves_at(h, k, id);
        assert(resolves_at(g, k, id));
    }
}

/// Tool messages that between them answer every tool use of the last
/// message settle a history in which only that message was waiting.
pub proof fn law_results_settle(h: Seq<MessageView>, results: Seq<MessageView>)
    requires
        settled_but_last(h),
        forall|r: int| 0 <= r < results.len() ==> (#[trigger] results[r]).role == MessageRole::Tool,
        forall|id: Seq<char>|
            #![trigger asks_at(h, h.len() - 1, id)]
            asks_at(h, h.len() - 1, id) ==> exists|r: int| #[trigger]
                resolves_at(results, r, id),
    ensures
        settled(h + results),
{
    let g = h + results;
    assert forall|k: int, id: Seq<char>| #![trigger resolves_at(h, k, id)] resolves_at(
        h,
        k,
        id,
    ) implies resolves_at(g, k, id) by {
        assert(g[k] == h[k]);
    }
    assert forall|i: int, j: int, id: Seq<char>|
        #![trigger asks_at(g, i, id), assistant_at(g, j)]
        asks_at(g, i, id) && assistant_at(g, j) && i < j implies resolved_between(g, id, i, j) by {
        if j >= h.len() {
            assert(g[j] == results[j - h.len()]);
        }
        assert(g[i] == h[i] && g[j] == h[j]);
        assert(asks_at(h, i, id) && assistant_at(h, j));
        let k = choose|k: int| i < k < j && #[trigger] resolves_at(h, k, id);
        assert(resolves_at(g, k, id));
    }
    assert forall|i: int, id: Seq<char>| #![trigger asks_at(g, i, id)] asks_at(g, i, id) && i
        < g.len() implies resolved_between(g, id, i, g.len() as int) by {
        if i >= h.len() {
            assert(g[i] == results[i - h.len()]);
        }
        assert(g[i] == h[i]);
        assert(asks_at(h, i, id));
        if i < h.len() - 1 {
            let k = choose|k: int| i < k < h.len() && #[trigger] resolves_at(h, k, id);
            assert(resolves_at(g, k, id));
        } else {
            let r = choose|r: int| #[trigger] resolves_at(results, r, id);
            let k = h.len() + r;
            assert(g[k] == results[r]);
            assert(resolves_at(g, k, id));
        }
    }
}

/// The repair settles a history in which at most the last message was
/// waiting for results.
pub proof fn law_repair_settles(h: Seq<MessageView>)
    requires
        settled_but_last(h),
    ensures
        settled(repaired(h)),
{
    if dangling(h) {
        let ids = h.last().tool_use_ids();
        let results = ids.map_values(|id: Seq<char>| synthetic_result(id));
        assert forall|id: Seq<char>| #![trigger asks_at(h, h.len() - 1, id)] asks_at(
            h,
            h.len() - 1,
            id,
        ) implies exists|r: int| #[trigger] resolves_at(results, r, id) by {
            let r = choose|r: int| 0 <= r < ids.len() && ids[r] == id;
            assert(results[r] == synthetic_result(id));
            assert(is_result_for(results[r].blocks()[0], id));
            assert(resolves_at(results, r, id));
        }
        law_results_settle(h, results);
    } else {
        assert forall|i: int, id: Seq<char>| #![trigger asks_at(h, i, id)] asks_at(h, i, id) && i
            < h.len() implies resolved_between(h, id, i, h.len() as int) by {
            if i == h.len() - 1 {
                let u = choose|u: int| 0 <= u < h[i].tool_use_ids().len() && h[i].tool_use_ids()[u]
                    == id;
                assert(h[i].has_tool_use()) by {
                    lemma_tool_use_ids_of_uses(h[i].blocks());
                }
            }
        }
    }
}

/// The trim keeps a valid history valid and a settled history settled.
pub proof fn law_trim_keeps_valid(h: Seq<MessageView>, max: nat)
    requires
        valid_history(h),
    ensures
        valid_history(trimmed(h, max)),
        settled(h) ==> settled(trimmed(h, max)),
{
    let t = trimmed(h, max);
    if h.len() > max {
        let start = trim_start(h, max);
        let head: int = if starts_with_system(h) {
            1
        } else {
            0
        };
        let shift = start - head;
        assert forall|k: int| head <= k < t.len() implies #[trigger] t[k] == h[k + shift] by {}
        assert forall|k: int, id: Seq<char>|
            #![trigger resolves_at(h, k, id)]
            resolves_at(h, k, id) && k >= start implies resolves_at(t, k - shift, id) by {
            assert(t[k - shift] == h[k]);
        }
        assert forall|i: int, id: Seq<char>| #![trigger asks_at(t, i, id)] asks_at(
            t,
            i,
            id,
        ) implies i >= head && asks_at(h, i + shift, id) by {
            if i >= head {
                assert(t[i] == h[i + shift]);
            }
        }
        assert forall|i: int, j: int, id: Seq<char>|
            #![trigger asks_at(t, i, id), assistant_at(t, j)]
            asks_at(t, i, id) && assistant_at(t, j) && i < j implies resolved_between(
            t,
            id,
            i,
            j,
        ) by {
            assert(t[j] == h[j + shift]);
            assert(asks_at(h, i + shift, id) && assistant_at(h, j + shift));
            let k = choose|k: int| i + shift < k < j + shift && #[trigger] resolves_at(h, k, id);
            assert(resolves_at(t, k - shift, id));
        }
        if settled(h) {
            assert forall|i: int, id: Seq<char>| #![trigger asks_at(t, i, id)] asks_at(t, i, id)
                && i < t.len() implies resolved_between(t, id, i, t.len() as int) by {
                assert(asks_at(h, i + shift, id));
                let k = choose|k: int| i + shift < k < h.len() && #[trigger] resolves_at(h, k, id);
                assert(resolves_at(t, k - shift, id));
            }
        }
    }
}

} // verus!
