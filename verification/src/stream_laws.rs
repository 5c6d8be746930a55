//! What streamed text promises, said of the rows before and after and of what is
//! reported.

use vstd::prelude::*;

use crate::delivery::tagged_delivery;
use crate::engine::EngineInner;
use crate::json::{json_text, JsonView};
use crate::proto::{cmds_view, servers_view, McpServer, SlashCmd, SlashCmdView};
use crate::rows::text_row_tree;
use crate::streaming::{
    advance_dequeued_turn, append_item_delta, append_slot_delta, dequeue_target, last_named,
    learn_native, merge_init_slash_commands, note_appserver_usage, note_assistant_uuid,
    note_commands, note_init, note_usage, tail, text_done, DeltaStep, TextLanding, ThoughtTail,
};
use crate::text::{opt_view, texts_view, trimmed, trimmed_end, white};
use crate::text_laws::{
    blank, lemma_stripped_is_trimmed, lemma_trimmed, lemma_trimmed_end, lemma_trimmed_end_is_unique,
    stripped,
};
use crate::turn::Outgoing;

verus! {

/// Whenever appending a piece to the open row yields a snapshot, the snapshot's text is
/// the row's whole buffer after the append, and its content is the row document of that
/// same text. The row keeps its id, and nothing else of the engine changes.
pub proof fn law_slot_snapshot_is_the_whole_row(
    before: EngineInner,
    text: &str,
    dedupe: bool,
    now: u64,
    r: Option<DeltaStep>,
    after: EngineInner,
)
    requires
        exists|m: &mut EngineInner|
            *m == before && *final(m) == after && #[trigger] call_ensures(
                append_slot_delta,
                (m, text, dedupe, now),
                r,
            ),
    ensures
        r is Some ==> {
            &&& before.current is Some && after.current is Some
            &&& after.current->0.buf@ == before.current->0.buf@ + text@
            &&& after.current->0.row == before.current->0.row
            &&& r->0.row == after.current->0.row
            &&& r->0.snapshot is Some ==> r->0.snapshot->0.text@ == after.current->0.buf@
            &&& r->0.snapshot is Some ==> r->0.snapshot->0.content@ == json_text(
                text_row_tree(after.current->0.buf@, None),
            )
        },
        r is None ==> after == before,
        after == (EngineInner { current: after.current, ..before }),
{
}

/// All pieces that arrive for the open row stand in it in order: after two of them a
/// snapshot shows what stood there, the first piece and the second.
pub proof fn law_slot_pieces_are_concatenated(
    before: EngineInner,
    first: &str,
    between: EngineInner,
    second: &str,
    after: EngineInner,
    now: u64,
    later: u64,
    r1: Option<DeltaStep>,
    r2: Option<DeltaStep>,
)
    requires
        before.current is Some,
        exists|m: &mut EngineInner|
            *m == before && *final(m) == between && #[trigger] call_ensures(
                append_slot_delta,
                (m, first, false, now),
                r1,
            ),
        exists|m: &mut EngineInner|
            *m == between && *final(m) == after && #[trigger] call_ensures(
                append_slot_delta,
                (m, second, false, later),
                r2,
            ),
    ensures
        r1 is Some && r2 is Some,
        after.current is Some,
        after.current->0.buf@ == before.current->0.buf@ + first@ + second@,
        r2->0.snapshot is Some ==> r2->0.snapshot->0.text@ == before.current->0.buf@ + first@
            + second@,
{
}

/// The row document of a text holds that text, the tag of a sub-agent's row if it has
/// one, and nothing else.
pub proof fn law_row_document_holds_the_text(text: Seq<char>, tag: Option<Seq<char>>)
    ensures
        text_row_tree(text, tag) is Obj,
        text_row_tree(text, tag).get("text"@) == Some(JsonView::Str(text)),
        tag is Some ==> text_row_tree(text, tag).get("agentThread"@) == Some(
            JsonView::Str(tag->0),
        ),
        tag is None ==> text_row_tree(text, tag).get("agentThread"@) is None,
        forall|k: Seq<char>|
            k != "text"@ && k != "agentThread"@ ==> (#[trigger] text_row_tree(text, tag).get(
                k,
            )) is None,
{
    reveal_strlit("text");
    reveal_strlit("agentThread");
    assert("text"@.len() == 4 && "agentThread"@.len() == 11);
}

/// Two snapshots of a row are never closer than the throttle allows, and one that is due
/// is given.
pub proof fn law_snapshots_are_throttled(
    before: EngineInner,
    first: &str,
    between: EngineInner,
    second: &str,
    after: EngineInner,
    now: u64,
    later: u64,
    r1: Option<DeltaStep>,
    r2: Option<DeltaStep>,
)
    requires
        before.current is Some,
        exists|m: &mut EngineInner|
            *m == before && *final(m) == between && #[trigger] call_ensures(
                append_slot_delta,
                (m, first, false, now),
                r1,
            ),
        exists|m: &mut EngineInner|
            *m == between && *final(m) == after && #[trigger] call_ensures(
                append_slot_delta,
                (m, second, false, later),
                r2,
            ),
        r1->0.snapshot is Some,
    ensures
        r2->0.snapshot is Some == (later >= now + 150),
        r1->0.snapshot is Some == (now >= before.current->0.last_flush + 150),
{
}

/// Without the request to look for repeats every piece is appended where there is a row.
/// With it, a piece is left out exactly when the row ends with it already, the white
/// space around both aside.
pub proof fn law_only_repeats_are_left_out(
    before: EngineInner,
    text: &str,
    dedupe: bool,
    now: u64,
    r: Option<DeltaStep>,
    after: EngineInner,
)
    requires
        before.current is Some,
        exists|m: &mut EngineInner|
            *m == before && *final(m) == after && #[trigger] call_ensures(
                append_slot_delta,
                (m, text, dedupe, now),
                r,
            ),
    ensures
        !dedupe ==> r is Some,
        blank(text@) ==> r is Some,
        r is None ==> exists|front: Seq<char>, said: Seq<char>, back: Seq<char>|
            before.current->0.buf@ == #[trigger] (front + said + back) && blank(back)
                && said.len() > 0 && stripped(text@, said),
        forall|front: Seq<char>, said: Seq<char>, back: Seq<char>|
            dedupe && before.current->0.buf@ == #[trigger] (front + said + back) && blank(back)
                && said.len() > 0 && stripped(text@, said) ==> r is None,
{
    let buf = before.current->0.buf@;
    let t = trimmed(text@);
    lemma_trimmed(text@);
    lemma_trimmed_end(buf);
    if blank(text@) && t.len() > 0 {
        let (a, b) = choose|a: Seq<char>, b: Seq<char>|
            text@ == #[trigger] (a + t + b) && blank(a) && blank(b);
        assert(text@[a.len() as int] == t[0]);
        assert(white(text@[a.len() as int]));
    }
    if r is None {
        let e = trimmed_end(buf);
        let back = choose|b: Seq<char>| buf == #[trigger] (e + b) && blank(b);
        let front = e.take(e.len() - t.len());
        assert(e =~= front + t);
        assert(buf =~= front + t + back);
    }
    assert forall|front: Seq<char>, said: Seq<char>, back: Seq<char>|
        dedupe && buf == #[trigger] (front + said + back) && blank(back) && said.len() > 0
            && stripped(text@, said) implies r is None by {
        lemma_stripped_is_trimmed(text@, said);
        let x = front + said;
        assert(x.last() == said.last());
        lemma_trimmed_end_is_unique(buf, x, back);
        assert(x.skip(x.len() - said.len()) =~= said);
        assert(said.is_suffix_of(x));
    }
}

/// Whenever appending a piece to the row of an item yields a snapshot, its text is that
/// row's whole buffer, under the row's own tag. The rows of all other items stay.
pub proof fn law_item_snapshot_is_the_whole_row(
    before: EngineInner,
    item: &str,
    text: &str,
    now: u64,
    r: Option<DeltaStep>,
    after: EngineInner,
)
    requires
        before.wf(),
        exists|m: &mut EngineInner|
            *m == before && *final(m) == after && #[trigger] call_ensures(
                append_item_delta,
                (m, item, text, now),
                r,
            ),
    ensures
        after.wf(),
        r is Some == before.open_texts@.dom().contains(item@),
        r is Some ==> {
            let (old_row, row) = (before.open_texts@[item@], after.open_texts@[item@]);
            &&& after.open_texts@.dom().contains(item@)
            &&& row.buf@ == old_row.buf@ + text@
            &&& row.row == old_row.row && r->0.row == row.row
            &&& opt_view(row.agent_thread) == opt_view(old_row.agent_thread)
            &&& r->0.snapshot is Some == (now >= old_row.last_flush + 150)
            &&& r->0.snapshot is Some ==> r->0.snapshot->0.text@ == row.buf@
            &&& r->0.snapshot is Some ==> r->0.snapshot->0.content@ == json_text(
                text_row_tree(row.buf@, opt_view(row.agent_thread)),
            )
            &&& r->0.snapshot is Some ==> row.last_flush == now
            &&& r->0.snapshot is None ==> row.last_flush == old_row.last_flush
        },
        forall|k: Seq<char>| #[trigger]
            after.open_texts@.dom().contains(k) == before.open_texts@.dom().contains(k),
        forall|k: Seq<char>|
            k != item@ && before.open_texts@.dom().contains(k)
                ==> #[trigger] after.open_texts@[k] == before.open_texts@[k],
{
    if r is Some {
        let (a, b) = (after.open_texts@, before.open_texts@);
        assert forall|k: Seq<char>| k != item@ && b.dom().contains(k) implies #[trigger] a[k]
            == b[k] by {
            assert(a.remove(item@)[k] == a[k]);
            assert(b.remove(item@)[k] == b[k]);
        }
    }
}

/// The pieces of an item stand in its row in order, whatever came for other items in
/// between.
pub proof fn law_item_pieces_are_concatenated(
    before: EngineInner,
    item: &str,
    first: &str,
    between: EngineInner,
    other: &str,
    middle: &str,
    then: EngineInner,
    second: &str,
    after: EngineInner,
    now: u64,
    r1: Option<DeltaStep>,
    r2: Option<DeltaStep>,
    r3: Option<DeltaStep>,
)
    requires
        before.wf() && between.wf() && then.wf(),
        before.open_texts@.dom().contains(item@),
        other@ != item@,
        exists|m: &mut EngineInner|
            *m == before && *final(m) == between && #[trigger] call_ensures(
                append_item_delta,
                (m, item, first, now),
                r1,
            ),
        exists|m: &mut EngineInner|
            *m == between && *final(m) == then && #[trigger] call_ensures(
                append_item_delta,
                (m, other, middle, now),
                r2,
            ),
        exists|m: &mut EngineInner|
            *m == then && *final(m) == after && #[trigger] call_ensures(
                append_item_delta,
                (m, item, second, now),
                r3,
            ),
    ensures
        r3 is Some,
        after.open_texts@[item@].buf@ == before.open_texts@[item@].buf@ + first@ + second@,
        r3->0.snapshot is Some ==> r3->0.snapshot->0.text@ == before.open_texts@[item@].buf@
            + first@ + second@,
{
    law_item_snapshot_is_the_whole_row(before, item, first, now, r1, between);
    law_item_snapshot_is_the_whole_row(between, other, middle, now, r2, then);
    law_item_snapshot_is_the_whole_row(then, item, second, now, r3, after);
    assert(then.open_texts@[item@] == between.open_texts@[item@]);
}

/// A finished text closes the row that it streamed into, with its authoritative body
/// where it has one and with what streamed otherwise; that row is open no more, and all
/// others are. A text that never streamed gets a row of its own, unless it is blank.
pub proof fn law_finished_text_lands_once(
    before: EngineInner,
    item: Option<&str>,
    text: Option<String>,
    branch: Option<String>,
    r: TextLanding,
    after: EngineInner,
)
    requires
        before.wf(),
        exists|m: &mut EngineInner|
            *m == before && *final(m) == after && #[trigger] call_ensures(
                text_done,
                (m, item, text, branch),
                r,
            ),
    ensures
        after.wf(),
        ({
            let streamed = item is Some && before.open_texts@.dom().contains(item->0@);
            &&& r is Close == streamed
            &&& streamed ==> {
                let row = before.open_texts@[item->0@];
                &&& r->row == row.row
                &&& opt_view(r->Close_agent_thread) == opt_view(row.agent_thread)
                &&& text is Some && text->0@.len() > 0 ==> r->Close_body@ == text->0@
                &&& text is None || text->0@.len() == 0 ==> r->Close_body@ == row.buf@
                &&& r->replaced == (r->Close_body@ != row.buf@)
                &&& !after.open_texts@.dom().contains(item->0@)
            }
            &&& !streamed ==> r is Standalone == (text is Some && !blank(text->0@))
            &&& r is Standalone ==> r->Standalone_body@ == text->0@ && opt_view(
                r->Standalone_agent_thread,
            ) == opt_view(branch)
            &&& forall|k: Seq<char>|
                before.open_texts@.dom().contains(k) && !(item is Some && item->0@ == k)
                    ==> #[trigger] after.open_texts@.dom().contains(k) && after.open_texts@[k]
                    == before.open_texts@[k]
            &&& after == (EngineInner { open_texts: after.open_texts, ..before })
        }),
{
    if text is Some {
        let t = text->0@;
        lemma_trimmed(t);
        let inner = trimmed(t);
        let (a, b) = choose|a: Seq<char>, b: Seq<char>|
            t == #[trigger] (a + inner + b) && blank(a) && blank(b);
        if inner.len() == 0 {
            assert forall|i: int| 0 <= i < t.len() implies white(#[trigger] t[i]) by {
                if i < a.len() {
                    assert(t[i] == a[i]);
                } else {
                    assert(t[i] == b[i - a.len()]);
                }
            }
        } else {
            assert(t[a.len() as int] == inner[0]);
        }
    }
}

/// A reading of the context is kept until the next one; its window only where it has
/// one.
pub proof fn law_usage_keeps_the_window(
    before: EngineInner,
    tokens: u64,
    window: Option<u64>,
    after: EngineInner,
)
    requires
        exists|m: &mut EngineInner|
            *m == before && *final(m) == after && #[trigger] call_ensures(
                note_usage,
                (m, tokens, window),
                (),
            ),
    ensures
        after.last_context_tokens == Some(tokens),
        window is Some ==> after.last_window == window,
        window is None ==> after.last_window == before.last_window,
        after == (EngineInner {
            last_context_tokens: after.last_context_tokens,
            last_window: after.last_window,
            ..before
        }),
{
}

/// A reading of the app-server counts exactly while no collaboration call runs; then it
/// counts as any other, and otherwise it changes nothing.
pub proof fn law_gauge_is_frozen_while_sub_agents_run(
    before: EngineInner,
    tokens: u64,
    window: Option<u64>,
    r: bool,
    after: EngineInner,
    i: int,
)
    requires
        exists|m: &mut EngineInner|
            *m == before && *final(m) == after && #[trigger] call_ensures(
                note_appserver_usage,
                (m, tokens, window),
                r,
            ),
    ensures
        after == (EngineInner {
            last_context_tokens: after.last_context_tokens,
            last_window: after.last_window,
            ..before
        }),
        0 <= i < before.tool_rows.entries@.len()
            && before.tool_rows.entries@[i].1.content@.str_at("name"@) == Some(
            "collabAgentToolCall"@,
        ) ==> !r,
        !r ==> after == before,
        !r ==> exists|j: int|
            0 <= j < before.tool_rows.entries@.len() && (
            #[trigger] before.tool_rows.entries@[j]).1.content@.str_at("name"@) == Some(
                "collabAgentToolCall"@,
            ),
        r ==> after.last_context_tokens == Some(tokens),
        r && window is Some ==> after.last_window == window,
        r && window is None ==> after.last_window == before.last_window,
{
}

/// The last entry of that name.
pub open spec fn last_with_name(cmds: Seq<SlashCmdView>, name: Seq<char>, at: int) -> bool {
    &&& 0 <= at < cmds.len()
    &&& cmds[at].name == name
    &&& forall|j: int| at < j < cmds.len() ==> (#[trigger] cmds[j]).name != name
}

proof fn lemma_last_named(cmds: Seq<SlashCmdView>, name: Seq<char>)
    ensures
        last_named(cmds, name) is Some ==> exists|at: int| #[trigger]
            last_with_name(cmds, name, at) && cmds[at] == last_named(cmds, name)->0,
        last_named(cmds, name) is None ==> forall|j: int|
            0 <= j < cmds.len() ==> (#[trigger] cmds[j]).name != name,
    decreases cmds.len(),
{
    if cmds.len() > 0 {
        let rest = cmds.drop_last();
        if cmds.last().name == name {
            assert(last_with_name(cmds, name, cmds.len() - 1));
        } else {
            lemma_last_named(rest, name);
            if last_named(rest, name) is Some {
                let at = choose|at: int| #[trigger]
                    last_with_name(rest, name, at) && rest[at] == last_named(rest, name)->0;
                assert forall|j: int| at < j < cmds.len() implies (#[trigger] cmds[j]).name
                    != name by {
                    if j < rest.len() {
                        assert(rest[j] == cmds[j]);
                    }
                }
                assert(last_with_name(cmds, name, at));
            } else {
                assert forall|j: int| 0 <= j < cmds.len() implies (#[trigger] cmds[j]).name
                    != name by {
                    if j < rest.len() {
                        assert(rest[j] == cmds[j]);
                    }
                }
            }
        }
    }
}

/// A new list of commands decides which there are and in which order; what it says of a
/// command counts, and where it says nothing of one that was known, what was known of it
/// last counts. An empty list changes nothing.
pub proof fn law_new_commands_are_enriched(
    existing: Vec<SlashCmd>,
    init: Vec<SlashCmd>,
    r: Vec<SlashCmd>,
    i: int,
    at: int,
)
    requires
        call_ensures(merge_init_slash_commands, (&existing, init), r),
    ensures
        init@.len() == 0 ==> cmds_view(r@) == cmds_view(existing@),
        init@.len() > 0 ==> r@.len() == init@.len(),
        0 <= i < init@.len() ==> {
            let (new, out) = (init@[i], r@[i]);
            let known = cmds_view(existing@);
            &&& out.name@ == new.name@
            &&& new.description is Some && new.description->0@.len() > 0 ==> opt_view(
                out.description,
            ) == opt_view(new.description)
            &&& new.arg_hint is Some && new.arg_hint->0@.len() > 0 ==> opt_view(out.arg_hint)
                == opt_view(new.arg_hint)
            &&& last_with_name(known, new.name@, at) && (new.description is None
                || new.description->0@.len() == 0) ==> opt_view(out.description)
                == known[at].description
            &&& last_with_name(known, new.name@, at) && (new.arg_hint is None
                || new.arg_hint->0@.len() == 0) ==> opt_view(out.arg_hint) == known[at].arg_hint
            &&& (forall|j: int| 0 <= j < known.len() ==> (#[trigger] known[j]).name != new.name@)
                ==> out@ == new@
        },
{
    assert(cmds_view(r@).len() == r@.len());
    assert(cmds_view(init@).len() == init@.len());
    if 0 <= i < init@.len() {
        let known = cmds_view(existing@);
        let name = init@[i].name@;
        assert(cmds_view(r@)[i] == r@[i]@);
        assert(cmds_view(init@)[i] == init@[i]@);
        lemma_last_named(known, name);
        if last_named(known, name) is Some {
            let a = choose|a: int| #[trigger]
                last_with_name(known, name, a) && known[a] == last_named(known, name)->0;
            assert(known[a].name == name);
            if last_with_name(known, name, at) {
                if a < at {
                    assert(known[at].name != name);
                } else if at < a {
                    assert(known[a].name != name);
                }
            }
        } else if last_with_name(known, name, at) {
            assert(known[at].name == name);
        }
    }
}

/// An init that names its model replaces what is known of the session; one that does not
/// only fills what is missing. Either way it names the session.
pub proof fn law_partial_init_only_fills(
    before: EngineInner,
    session_id: &str,
    cmds: Vec<SlashCmd>,
    servers: Vec<McpServer>,
    tools: Vec<String>,
    model: Option<String>,
    window: Option<u64>,
    after: EngineInner,
)
    requires
        exists|m: &mut EngineInner|
            *m == before && *final(m) == after && #[trigger] call_ensures(
                note_init,
                (m, session_id, cmds, &servers, &tools, &model, window),
                (),
            ),
    ensures
        after == (EngineInner {
            native_id: after.native_id,
            slash_commands: after.slash_commands,
            last_mcp_servers: after.last_mcp_servers,
            last_tools: after.last_tools,
            last_model: after.last_model,
            last_window: after.last_window,
            ..before
        }),
        after.native_id is Some && after.native_id->0@ == session_id@,
        model is Some ==> {
            &&& opt_view(after.last_model) == opt_view(model)
            &&& after.last_window == window
            &&& servers_view(after.last_mcp_servers@) == servers_view(servers@)
            &&& texts_view(after.last_tools@) == texts_view(tools@)
        },
        model is None ==> {
            &&& opt_view(after.last_model) == opt_view(before.last_model)
            &&& after.last_window == before.last_window
            &&& before.last_mcp_servers@.len() > 0 ==> servers_view(after.last_mcp_servers@)
                == servers_view(before.last_mcp_servers@)
            &&& before.last_mcp_servers@.len() == 0 ==> servers_view(after.last_mcp_servers@)
                == servers_view(servers@)
            &&& before.last_tools@.len() > 0 ==> texts_view(after.last_tools@) == texts_view(
                before.last_tools@,
            )
            &&& before.last_tools@.len() == 0 ==> texts_view(after.last_tools@) == texts_view(
                tools@,
            )
        },
        cmds@.len() == 0 ==> cmds_view(after.slash_commands@) == cmds_view(before.slash_commands@),
        cmds@.len() > 0 ==> after.slash_commands@.len() == cmds@.len(),
        after.turn == before.turn && after.tool == before.tool && after.current == before.current,
{
    assert(cmds_view(cmds@).len() == cmds@.len());
    assert(cmds_view(after.slash_commands@).len() == after.slash_commands@.len());
}

/// The next turn is opened by the queued row of a visible message, by the negated id of a
/// hidden delivery, or by nothing; its replies go where its message came from, and those
/// to a hidden delivery go nowhere.
pub proof fn law_next_turn_follows_its_message(
    next: Option<Outgoing>,
    r: (Option<i32>, Option<String>),
)
    requires
        call_ensures(dequeue_target, (&next,), r),
    ensures
        next is None ==> r.0 is None && r.1 is None,
        next is Some ==> {
            let hidden = tagged_delivery(opt_view(next->0.origin_tag));
            &&& next->0.queue_id is Some ==> r.0 == next->0.queue_id
            &&& next->0.queue_id is None && hidden is Some ==> r.0 is Some && r.0->0 as int
                == -(hidden->0 as int)
            &&& next->0.queue_id is None && hidden is None ==> r.0 is None
            &&& hidden is Some ==> r.1 is None
            &&& hidden is None ==> opt_view(r.1) == opt_view(next->0.origin_tag)
        },
{
}

/// Retargeting the bookkeeping moves the opening row and the reply target, as the message
/// says, and nothing else.
pub proof fn law_retargeting_moves_two_fields(
    before: EngineInner,
    next: Option<Outgoing>,
    target: (Option<i32>, Option<String>),
    after: EngineInner,
)
    requires
        call_ensures(dequeue_target, (&next,), target),
        exists|m: &mut EngineInner|
            *m == before && *final(m) == after && #[trigger] call_ensures(
                advance_dequeued_turn,
                (m, &next),
                (),
            ),
    ensures
        after.turn_user_row == target.0,
        opt_view(after.current_origin_tag) == opt_view(target.1),
        after == (EngineInner {
            turn_user_row: after.turn_user_row,
            current_origin_tag: after.current_origin_tag,
            ..before
        }),
{
}

/// A native id that is known stays known: no line changes it, and what one line taught
/// the next does not teach again.
pub proof fn law_native_id_is_learned_once(
    before: EngineInner,
    line: &str,
    r1: Option<String>,
    between: EngineInner,
    next: &str,
    r2: Option<String>,
    after: EngineInner,
)
    requires
        exists|m: &mut EngineInner|
            *m == before && *final(m) == between && #[trigger] call_ensures(
                learn_native,
                (m, line),
                r1,
            ),
        exists|m: &mut EngineInner|
            *m == between && *final(m) == after && #[trigger] call_ensures(
                learn_native,
                (m, next),
                r2,
            ),
    ensures
        after == (EngineInner { native_id: after.native_id, ..before }),
        before.native_id is Some ==> r1 is None && opt_view(between.native_id) == opt_view(
            before.native_id,
        ),
        r1 is Some ==> opt_view(between.native_id) == opt_view(r1),
        r1 is Some ==> r2 is None && opt_view(after.native_id) == opt_view(r1),
        r1 is None ==> opt_view(between.native_id) == opt_view(before.native_id),
{
}

/// The anchor of a turn is the last one that an event named.
pub proof fn law_last_anchor_counts(
    before: EngineInner,
    first: String,
    between: EngineInner,
    second: Option<String>,
    after: EngineInner,
)
    requires
        exists|m: &mut EngineInner|
            *m == before && *final(m) == between && #[trigger] call_ensures(
                note_assistant_uuid,
                (m, Some(first)),
                (),
            ),
        exists|m: &mut EngineInner|
            *m == between && *final(m) == after && #[trigger] call_ensures(
                note_assistant_uuid,
                (m, second),
                (),
            ),
    ensures
        second is Some ==> after.last_assistant_uuid == second,
        second is None ==> after.last_assistant_uuid == Some(first),
        after == (EngineInner { last_assistant_uuid: after.last_assistant_uuid, ..before }),
{
}

/// The tail of a stream is its end, as much of it as the window holds.
pub proof fn law_tail_is_the_end(s: Seq<char>, n: nat)
    ensures
        tail(s, n).len() == (if s.len() < n {
            s.len()
        } else {
            n
        }),
        forall|i: int|
            0 <= i < tail(s, n).len() ==> #[trigger] tail(s, n)[tail(s, n).len() - 1 - i]
                == s[s.len() - 1 - i],
{
}

/// However a stream is cut into pieces, the chip shows its end, with a sign when that is
/// not all of it.
pub proof fn law_chip_shows_the_end_of_the_stream(
    before: ThoughtTail,
    first: &str,
    between: ThoughtTail,
    second: &str,
    after: ThoughtTail,
    r: String,
    s: Seq<char>,
)
    requires
        before.follows(s),
        exists|m: &mut ThoughtTail|
            *m == before && *final(m) == between && #[trigger] call_ensures(
                ThoughtTail::push,
                (m, first),
                (),
            ),
        exists|m: &mut ThoughtTail|
            *m == between && *final(m) == after && #[trigger] call_ensures(
                ThoughtTail::push,
                (m, second),
                (),
            ),
        call_ensures(ThoughtTail::summary, (&after,), r),
    ensures
        ({
            let all = s + first@ + second@;
            &&& all.len() <= 160 ==> r@ == all
            &&& all.len() > 160 ==> r@ == "…"@ + all.subrange(all.len() - 160, all.len() as int)
        }),
{
    let all = s + first@ + second@;
    assert(between.follows(s + first@));
    assert(after.follows(all));
    if all.len() > 160 {
        assert(all.skip(all.len() - 160) =~= all.subrange(all.len() - 160, all.len() as int));
    }
}

/// A palette that arrives on its own is merged as that of an init is.
pub proof fn law_palette_is_merged(
    before: EngineInner,
    commands: Vec<SlashCmd>,
    merged: Vec<SlashCmd>,
    after: EngineInner,
)
    requires
        call_ensures(merge_init_slash_commands, (&before.slash_commands, commands), merged),
        exists|m: &mut EngineInner|
            *m == before && *final(m) == after && #[trigger] call_ensures(
                note_commands,
                (m, commands),
                (),
            ),
    ensures
        cmds_view(after.slash_commands@) == cmds_view(merged@),
        after == (EngineInner { slash_commands: after.slash_commands, ..before }),
{
}

/// A chip that is cleared shows nothing, however long the stream was.
pub proof fn law_cleared_chip_shows_nothing(before: ThoughtTail, after: ThoughtTail, r: String)
    requires
        exists|m: &mut ThoughtTail|
            *m == before && *final(m) == after && #[trigger] call_ensures(
                ThoughtTail::clear,
                (m,),
                (),
            ),
        call_ensures(ThoughtTail::summary, (&after,), r),
    ensures
        r@.len() == 0,
{
}

} // verus!
