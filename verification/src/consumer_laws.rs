//! What the consumers of the wires promise, said of each event and of what it leaves.

use vstd::prelude::*;

use crate::consumers::{
    appserver_event, body_landed, chip_is_activity, connection_event, connection_meta,
    connection_usage, ends_thinking, may_be_activity, read_line, reader_event, text_delta,
    text_row_inserted, BodyLanding, ChatStep, LineStep,
};
use crate::engine::EngineInner;
use crate::json::{json_text, parsed};
use crate::proto::{
    cmds_view, line_event, line_parses, servers_view, ChatEvent, McpServer, SlashCmd, ToolCall,
    ToolResultItem,
};
use crate::rows::{merge_tool_results, text_row_tree, updates_view, ToolRowUpdate};
use crate::streaming::{note_appserver_usage, text_done, TextLanding};
use crate::text::{joined, opt_view, texts_view};
use crate::text_laws::{blank, stripped};
use crate::turn_end::{begin_turn_end, TurnEnding, Wire};

verus! {

/// A text for which no row is open first asks for one, empty and under the tag of its
/// sub-agent if it is an item's; nothing else happens until the row is there.
pub proof fn law_first_piece_asks_for_a_row(
    before: EngineInner,
    item: Option<String>,
    text: String,
    branch: Option<String>,
    dedupe: bool,
    now: u64,
    r: ChatStep,
    after: EngineInner,
)
    requires
        before.wf(),
        exists|m: &mut EngineInner|
            *m == before && *final(m) == after && #[trigger] call_ensures(
                text_delta,
                (m, item, text, branch, dedupe, now),
                r,
            ),
    ensures
        after.wf(),
        r is OpenRow == (match item {
            Some(k) => !before.open_texts@.dom().contains(k@),
            None => before.current is None,
        }),
        r is OpenRow ==> after == before && r->OpenRow_text@ == text@ && opt_view(r->OpenRow_item)
            == opt_view(item) && opt_view(r->OpenRow_branch) == opt_view(branch),
        r is OpenRow && item is Some ==> r->OpenRow_content@ == json_text(
            text_row_tree(seq![], opt_view(branch)),
        ),
        r is OpenRow && item is None ==> r->OpenRow_content@ == json_text(
            text_row_tree(seq![], None),
        ),
        r is OpenRow || r is Delta || r is Nothing,
        r is Nothing ==> item is None && dedupe && after == before,
{
}

/// A piece for a row that is open goes to the end of that row, and a snapshot shows the
/// whole row.
pub proof fn law_next_piece_goes_to_its_row(
    before: EngineInner,
    item: Option<String>,
    text: String,
    branch: Option<String>,
    dedupe: bool,
    now: u64,
    r: ChatStep,
    after: EngineInner,
)
    requires
        before.wf(),
        exists|m: &mut EngineInner|
            *m == before && *final(m) == after && #[trigger] call_ensures(
                text_delta,
                (m, item, text, branch, dedupe, now),
                r,
            ),
        r is Delta,
    ensures
        after == (EngineInner { current: after.current, open_texts: after.open_texts, ..before }),
        r->Delta_text@ == text@,
        item is Some ==> {
            let k = item->0@;
            &&& after.open_texts@[k].buf@ == before.open_texts@[k].buf@ + text@
            &&& r->step.row == before.open_texts@[k].row
            &&& r->step.snapshot is Some ==> r->step.snapshot->0.text@ == after.open_texts@[k].buf@
            &&& after.current == before.current
        },
        item is None ==> {
            &&& after.current is Some
            &&& after.current->0.buf@ == before.current->0.buf@ + text@
            &&& r->step.row == before.current->0.row
            &&& r->step.snapshot is Some ==> r->step.snapshot->0.text@ == after.current->0.buf@
            &&& after.open_texts == before.open_texts
        },
{
}

/// The piece that asked for a row is the first to stand in it, so that asking loses
/// nothing: afterwards a row is open for it.
pub proof fn law_inserted_row_holds_the_first_piece(
    before: EngineInner,
    item: Option<String>,
    row: i32,
    branch: Option<String>,
    text: String,
    now: u64,
    r: ChatStep,
    after: EngineInner,
)
    requires
        before.wf(),
        match item {
            Some(k) => !before.open_texts@.dom().contains(k@),
            None => before.current is None,
        },
        exists|m: &mut EngineInner|
            *m == before && *final(m) == after && #[trigger] call_ensures(
                text_row_inserted,
                (m, item, row, branch, text, now),
                r,
            ),
    ensures
        after.wf(),
        after == (EngineInner { current: after.current, open_texts: after.open_texts, ..before }),
        r->step.snapshot is None,
        item is Some ==> after.current == before.current && after.open_texts@[item->0@].last_flush
            == now,
        item is None ==> after.open_texts == before.open_texts && after.current->0.last_flush
            == now,
        r is Delta && r->Delta_text@ == text@ && r->step.row == row,
        item is Some ==> after.open_texts@.dom().contains(item->0@)
            && after.open_texts@[item->0@].buf@ == text@ && after.open_texts@[item->0@].row == row
            && opt_view(after.open_texts@[item->0@].agent_thread) == opt_view(branch),
        item is None ==> after.current is Some && after.current->0.buf@ == text@
            && after.current->0.row == row,
        forall|k: Seq<char>|
            before.open_texts@.dom().contains(k) ==> #[trigger] after.open_texts@.dom().contains(k)
                && after.open_texts@[k] == before.open_texts@[k],
{
    if item is Some {
        let i = item->0@;
        assert forall|k: Seq<char>| before.open_texts@.dom().contains(k) implies
            #[trigger] after.open_texts@.dom().contains(k) && after.open_texts@[k]
            == before.open_texts@[k] by {
            assert(after.open_texts@.remove(i)[k] == after.open_texts@[k]);
            assert(before.open_texts@.remove(i)[k] == before.open_texts@[k]);
        }
    }
}

/// A line of a process that another has followed is not read. Any other is the event of
/// its tool's dialect, and teaches the native id while none is known.
pub proof fn law_lines_of_the_current_process_are_read(
    before: EngineInner,
    generation: u64,
    line: &str,
    r: LineStep,
    after: EngineInner,
)
    requires
        exists|m: &mut EngineInner|
            *m == before && *final(m) == after && #[trigger] call_ensures(
                read_line,
                (m, generation, line),
                r,
            ),
    ensures
        r is Stale == (before.generation != generation),
        r is Stale ==> after == before,
        before.generation == generation && line_parses(before.tool@, line@) ==> r is Event
            && r->event@ == line_event(before.tool@, line@),
        before.generation == generation && !line_parses(before.tool@, line@) ==> r is Overflow,
        before.generation == generation && before.native_id is None && before.tool@ == "opencode"@
            && parsed(line@) is Some && parsed(line@)->0.str_at("sessionID"@) is Some
            ==> opt_view(after.native_id) == parsed(line@)->0.str_at("sessionID"@) && r is Event
            && opt_view(r->Event_native) == parsed(line@)->0.str_at("sessionID"@),
        before.generation == generation && before.native_id is None && before.tool@ != "codex"@
            && before.tool@ != "opencode"@ ==> after == before,
        before.generation == generation && before.native_id is Some ==> opt_view(after.native_id)
            == opt_view(before.native_id),
        before.generation == generation && before.native_id is None && before.tool@ == "codex"@
            && parsed(line@) is Some && parsed(line@)->0.str_at("thread_id"@) is Some ==> opt_view(
            after.native_id,
        ) == parsed(line@)->0.str_at("thread_id"@) && r is Event && opt_view(r->Event_native)
            == parsed(line@)->0.str_at("thread_id"@),
        after == (EngineInner { native_id: after.native_id, ..before }),
{
    reveal_strlit("codex");
    reveal_strlit("opencode");
    assert("codex"@.len() == 5 && "opencode"@.len() == 8);
}

/// Results that come over any of the wires are merged in the same way.
pub proof fn law_results_are_merged_on_every_wire(
    before: EngineInner,
    items: Vec<ToolResultItem>,
    own_thread: &str,
    finished: Option<String>,
    window: Option<u64>,
    now: u64,
    updates: Vec<ToolRowUpdate>,
    merged: EngineInner,
    r: ChatStep,
    after: EngineInner,
)
    requires
        before.wf(),
        exists|m: &mut EngineInner|
            *m == before && *final(m) == merged && #[trigger] call_ensures(
                merge_tool_results,
                (m, &items),
                updates,
            ),
        (exists|m: &mut EngineInner|
            *m == before && *final(m) == after && #[trigger] call_ensures(
                reader_event,
                (m, (ChatEvent::ToolResults { items }), window, now),
                r,
            )) || (exists|m: &mut EngineInner|
            *m == before && *final(m) == after && #[trigger] call_ensures(
                appserver_event,
                (m, (ChatEvent::ToolResults { items }), own_thread, finished, now),
                r,
            )) || (exists|m: &mut EngineInner|
            *m == before && *final(m) == after && #[trigger] call_ensures(
                connection_event,
                (m, (ChatEvent::ToolResults { items }), now),
                r,
            )),
    ensures
        after.wf(),
        r is Results,
        updates_view(r->Results_0@) == updates_view(updates@),
        after.tool_rows@ == merged.tool_rows@,
        after == (EngineInner { tool_rows: after.tool_rows, ..before }),
{
}

/// An assistant message of the reader is its texts, a blank line between them, and its
/// calls; without a text it has no body. Its uuid is the new anchor, if it has one.
pub proof fn law_reader_message_has_its_whole_body(
    before: EngineInner,
    texts: Vec<String>,
    tools: Vec<ToolCall>,
    uuid: Option<String>,
    agent_thread: Option<String>,
    window: Option<u64>,
    now: u64,
    r: ChatStep,
    after: EngineInner,
)
    requires
        before.wf(),
        exists|m: &mut EngineInner|
            *m == before && *final(m) == after && #[trigger] call_ensures(
                reader_event,
                (m, (ChatEvent::Assistant { texts, tools, uuid, agent_thread }), window, now),
                r,
            ),
    ensures
        after.wf(),
        r is Body,
        r->full is Some == (texts@.len() > 0),
        texts@.len() == 1 ==> r->full->0@ == texts@[0]@,
        texts@.len() > 0 ==> r->full->0@ == joined(texts_view(texts@), "\n\n"@),
        r->Body_tools == tools,
        uuid is Some ==> after.last_assistant_uuid == uuid,
        uuid is None ==> after.last_assistant_uuid == before.last_assistant_uuid,
        after == (EngineInner { last_assistant_uuid: after.last_assistant_uuid, ..before }),
{
    assert(texts_view(texts@).len() == texts@.len());
    if texts@.len() == 1 {
        assert(texts_view(texts@)[0] == texts@[0]@);
    }
}

/// The end of a turn on the reader and on the app-server is the end of a turn as such:
/// with the event's verdict, and with what the wire says of the turn.
pub proof fn law_turn_ends_alike_on_every_wire(
    before: EngineInner,
    wire: Wire,
    is_error: bool,
    context_tokens: Option<u64>,
    own_thread: &str,
    finished: Option<String>,
    window: Option<u64>,
    now: u64,
    ending: TurnEnding,
    ended: EngineInner,
    r: ChatStep,
    after: EngineInner,
)
    requires
        before.wf(),
        exists|m: &mut EngineInner|
            *m == before && *final(m) == ended && #[trigger] call_ensures(
                begin_turn_end,
                (m, wire, is_error, false, context_tokens, finished),
                ending,
            ),
        (wire == Wire::Reader && exists|m: &mut EngineInner|
            *m == before && *final(m) == after && #[trigger] call_ensures(
                reader_event,
                (m, (ChatEvent::TurnEnd { is_error, context_tokens }), window, now),
                r,
            )) || (wire == Wire::AppServer && exists|m: &mut EngineInner|
            *m == before && *final(m) == after && #[trigger] call_ensures(
                appserver_event,
                (m, (ChatEvent::TurnEnd { is_error, context_tokens }), own_thread, finished, now),
                r,
            )),
    ensures
        after.wf(),
        after == (EngineInner {
            last_context_tokens: after.last_context_tokens,
            interrupting: after.interrupting,
            current: after.current,
            tool_rows: after.tool_rows,
            open_texts: after.open_texts,
            ..before
        }),
        after.last_context_tokens == ended.last_context_tokens,
        after.tool_rows.entries@.len() == 0,
        r is End,
        r->End_0.status@ == ending.status@,
        r->End_0.usage == ending.usage,
        r->End_0.anchor is Some == ending.anchor is Some,
        ending.anchor is Some ==> r->End_0.anchor->0.row == ending.anchor->0.row
            && r->End_0.anchor->0.anchor@ == ending.anchor->0.anchor@,
        updates_view(r->End_0.tools@) == updates_view(ending.tools@),
        r->End_0.texts@ == ending.texts@,
        r->End_0.current == ending.current,
        opt_view(r->End_0.terminal) == opt_view(ending.terminal),
        r->End_0.quota_exceeded == ending.quota_exceeded,
        after.turn == before.turn && !after.interrupting && after.current is None,
{
}

/// A text of the reader and of the connection backend goes to the anonymous row, whatever
/// item it names, and repeats are kept.
pub proof fn law_plain_text_goes_to_the_anonymous_row(
    before: EngineInner,
    text: String,
    item: Option<String>,
    agent_thread: Option<String>,
    window: Option<u64>,
    now: u64,
    r: ChatStep,
    after: EngineInner,
)
    requires
        before.wf(),
        (exists|m: &mut EngineInner|
            *m == before && *final(m) == after && #[trigger] call_ensures(
                reader_event,
                (m, (ChatEvent::TextDelta { text, item, agent_thread }), window, now),
                r,
            )) || (exists|m: &mut EngineInner|
            *m == before && *final(m) == after && #[trigger] call_ensures(
                connection_event,
                (m, (ChatEvent::TextDelta { text, item, agent_thread }), now),
                r,
            )),
    ensures
        after == (EngineInner { current: after.current, ..before }),
        before.current is None ==> r is OpenRow && r->OpenRow_item is None && r->OpenRow_text@
            == text@ && after == before,
        before.current is Some ==> r is Delta && r->Delta_text@ == text@ && after.current is Some
            && after.current->0.buf@ == before.current->0.buf@ + text@,
        before.current is Some && r->step.snapshot is Some ==> r->step.snapshot->0.text@
            == after.current->0.buf@,
        after.open_texts == before.open_texts,
{
}

/// A text of the app-server goes to the row of its item, under the tag of the thread that
/// it came from unless that is the session's own.
pub proof fn law_item_text_goes_to_its_own_row(
    before: EngineInner,
    text: String,
    item: String,
    agent_thread: Option<String>,
    own_thread: &str,
    finished: Option<String>,
    now: u64,
    r: ChatStep,
    after: EngineInner,
)
    requires
        before.wf(),
        exists|m: &mut EngineInner|
            *m == before && *final(m) == after && #[trigger] call_ensures(
                appserver_event,
                (
                    m,
                    (ChatEvent::TextDelta { text, item: Some(item), agent_thread }),
                    own_thread,
                    finished,
                    now,
                ),
                r,
            ),
    ensures
        after == (EngineInner { open_texts: after.open_texts, ..before }),
        !before.open_texts@.dom().contains(item@) ==> {
            &&& r is OpenRow && after == before && r->OpenRow_text@ == text@
            &&& opt_view(r->OpenRow_item) == Some(item@)
            &&& agent_thread is Some && agent_thread->0@ != own_thread@ ==> opt_view(
                r->OpenRow_branch,
            ) == Some(agent_thread->0@)
            &&& agent_thread is None || agent_thread->0@ == own_thread@ ==> r->OpenRow_branch
                is None
        },
        before.open_texts@.dom().contains(item@) ==> r is Delta && after.open_texts@[item@].buf@
            == before.open_texts@[item@].buf@ + text@ && after.current == before.current,
{
}

/// A message of the app-server closes the anonymous row if it says something itself, and
/// leaves it open if it only calls tools; one of the connection backend always closes it.
pub proof fn law_messages_close_the_anonymous_row(
    before: EngineInner,
    texts: Vec<String>,
    tools: Vec<ToolCall>,
    uuid: Option<String>,
    agent_thread: Option<String>,
    own_thread: &str,
    finished: Option<String>,
    now: u64,
    r: ChatStep,
    after: EngineInner,
    shared: bool,
)
    requires
        before.wf(),
        (shared && exists|m: &mut EngineInner|
            *m == before && *final(m) == after && #[trigger] call_ensures(
                appserver_event,
                (
                    m,
                    (ChatEvent::Assistant { texts, tools, uuid, agent_thread }),
                    own_thread,
                    finished,
                    now,
                ),
                r,
            )) || (!shared && exists|m: &mut EngineInner|
            *m == before && *final(m) == after && #[trigger] call_ensures(
                connection_event,
                (m, (ChatEvent::Assistant { texts, tools, uuid, agent_thread }), now),
                r,
            )),
    ensures
        after.wf(),
        r is Tools && r->Tools_tools == tools,
        !shared || texts@.len() > 0 ==> r->close == before.current && after.current is None,
        shared && texts@.len() == 0 ==> r->close is None && after.current == before.current,
        shared && agent_thread is Some && agent_thread->0@ != own_thread@ ==> opt_view(
            r->Tools_branch,
        ) == Some(agent_thread->0@),
        !shared || agent_thread is None || agent_thread->0@ == own_thread@ ==> r->Tools_branch
            is None,
        after == (EngineInner { current: after.current, ..before }),
{
}

/// What an event that a wire does not speak of does there: nothing.
pub proof fn law_foreign_events_change_nothing(
    before: EngineInner,
    event: ChatEvent,
    own_thread: &str,
    finished: Option<String>,
    window: Option<u64>,
    now: u64,
    r: ChatStep,
    after: EngineInner,
)
    requires
        before.wf(),
        ((event is Other || event is Usage || event is TextDone) && exists|m: &mut EngineInner|
            *m == before && *final(m) == after && #[trigger] call_ensures(
                reader_event,
                (m, event, window, now),
                r,
            )) || ((event is Other || event is Init || event is Commands) && exists|
            m: &mut EngineInner|
            *m == before && *final(m) == after && #[trigger] call_ensures(
                appserver_event,
                (m, event, own_thread, finished, now),
                r,
            )) || ((event is Other || event is Init || event is Usage || event is TextDone
            || event is TurnEnd) && exists|m: &mut EngineInner|
            *m == before && *final(m) == after && #[trigger] call_ensures(
                connection_event,
                (m, event, now),
                r,
            )),
    ensures
        after == before,
        r is Nothing,
{
}

/// An init of the reader is kept, names the session and is shown as it came, with the
/// window of its model.
pub proof fn law_reader_init(
    before: EngineInner,
    session_id: String,
    slash_commands: Vec<SlashCmd>,
    mcp_servers: Vec<McpServer>,
    tools: Vec<String>,
    model: Option<String>,
    window: Option<u64>,
    now: u64,
    r: ChatStep,
    after: EngineInner,
)
    requires
        before.wf(),
        exists|m: &mut EngineInner|
            *m == before && *final(m) == after && #[trigger] call_ensures(
                reader_event,
                (
                    m,
                    (ChatEvent::Init { session_id, slash_commands, mcp_servers, tools, model }),
                    window,
                    now,
                ),
                r,
            ),
    ensures
        after == (EngineInner {
            native_id: after.native_id,
            slash_commands: after.slash_commands,
            last_mcp_servers: after.last_mcp_servers,
            last_tools: after.last_tools,
            last_model: after.last_model,
            last_window: after.last_window,
            ..before
        }),
        r is Init && r->session_id == session_id && r->mcp_servers == mcp_servers
            && r->Init_tools == tools && r->model == model && r->window == window,
        after.native_id is Some && after.native_id->0@ == session_id@,
        model is Some ==> opt_view(after.last_model) == opt_view(model) && after.last_window
            == window && servers_view(after.last_mcp_servers@) == servers_view(mcp_servers@)
            && texts_view(after.last_tools@) == texts_view(tools@),
        model is None ==> opt_view(after.last_model) == opt_view(before.last_model)
            && after.last_window == before.last_window,
        after.turn == before.turn && after.current == before.current,
{
}

/// A palette of the connection backend replaces the one that was known; one of the reader
/// is merged into it.
pub proof fn law_palettes(
    before: EngineInner,
    commands: Vec<SlashCmd>,
    window: Option<u64>,
    now: u64,
    r1: ChatStep,
    replaced: EngineInner,
    r2: ChatStep,
    merged: EngineInner,
)
    requires
        before.wf(),
        exists|m: &mut EngineInner|
            *m == before && *final(m) == replaced && #[trigger] call_ensures(
                connection_event,
                (m, (ChatEvent::Commands { commands }), now),
                r1,
            ),
        exists|m: &mut EngineInner|
            *m == before && *final(m) == merged && #[trigger] call_ensures(
                reader_event,
                (m, (ChatEvent::Commands { commands }), window, now),
                r2,
            ),
    ensures
        replaced == (EngineInner { slash_commands: replaced.slash_commands, ..before }),
        merged == (EngineInner { slash_commands: merged.slash_commands, ..before }),
        r1 is Commands && r2 is Commands,
        replaced.slash_commands == commands,
        commands@.len() == 0 ==> cmds_view(merged.slash_commands@) == cmds_view(
            before.slash_commands@,
        ),
        commands@.len() > 0 ==> merged.slash_commands@.len() == commands@.len(),
{
    assert(cmds_view(commands@).len() == commands@.len());
    assert(cmds_view(merged.slash_commands@).len() == merged.slash_commands@.len());
}

/// The body of a message lands in the row that streamed it, or in a new one; the row holds
/// the clean body, which goes out, without the white space around it, if there is any.
pub proof fn law_body_lands_in_its_row(
    before: EngineInner,
    full: &str,
    clean: &str,
    r: BodyLanding,
    after: EngineInner,
)
    requires
        exists|m: &mut EngineInner|
            *m == before && *final(m) == after && #[trigger] call_ensures(
                body_landed,
                (m, full, clean),
                r,
            ),
    ensures
        r.row is Some == before.current is Some,
        r.row is Some ==> r.row->0 == before.current->0.row,
        r.content@ == json_text(text_row_tree(clean@, None)),
        r.shown is Some == (before.current is Some && clean@ != full@),
        r.shown is Some ==> r.shown->0@ == clean@,
        r.out is Some == !blank(clean@),
        r.out is Some ==> stripped(clean@, r.out->0@),
        after == (EngineInner { current: None, ..before }),
{
    crate::row_laws::lemma_blank(clean@);
}

/// A reading of the connection backend counts; its model and its effort are kept until it
/// names others.
pub proof fn law_connection_readings(
    before: EngineInner,
    tokens: u64,
    window: Option<u64>,
    read: EngineInner,
    model: Option<String>,
    thinking: Option<String>,
    after: EngineInner,
)
    requires
        exists|m: &mut EngineInner|
            *m == before && *final(m) == read && #[trigger] call_ensures(
                connection_usage,
                (m, tokens, window),
                (),
            ),
        exists|m: &mut EngineInner|
            *m == read && *final(m) == after && #[trigger] call_ensures(
                connection_meta,
                (m, model, thinking),
                (),
            ),
    ensures
        after == (EngineInner {
            last_context_tokens: after.last_context_tokens,
            last_window: after.last_window,
            last_model: after.last_model,
            last_reasoning: after.last_reasoning,
            ..before
        }),
        after.last_context_tokens == Some(tokens),
        window is Some ==> after.last_window == window,
        window is None ==> after.last_window == before.last_window,
        model is Some ==> after.last_model == model,
        model is None ==> after.last_model == before.last_model,
        thinking is Some ==> after.last_reasoning == thinking,
        thinking is None ==> after.last_reasoning == before.last_reasoning,
{
}

/// On the shared wires only text, messages and results can be activity; an end of a turn,
/// a reading or garbage never is.
pub proof fn law_what_can_be_activity(event: &ChatEvent, shared: bool, backend: bool)
    requires
        call_ensures(may_be_activity, (Wire::AppServer, event), shared),
        call_ensures(may_be_activity, (Wire::Connection, event), backend),
    ensures
        event is TurnEnd || event is Usage || event is Other || event is Init || event is Commands
            ==> !shared && !backend,
        event is TextDelta || event is Assistant || event is ToolResults ==> shared && backend,
        event is TextDone ==> shared && !backend,
{
}

/// Thinking is over when text or a message comes.
pub proof fn law_what_ends_thinking(event: &ChatEvent, r: bool)
    requires
        call_ensures(ends_thinking, (event,), r),
    ensures
        event is TextDelta || event is Assistant ==> r,
        event is ToolResults || event is TurnEnd || event is Usage || event is Other
            || event is Init || event is Commands || event is TextDone ==> !r,
{
}

/// A chip counts as activity exactly when it shows something.
pub proof fn law_blank_chip_is_no_activity(text: &str, r: bool)
    requires
        call_ensures(chip_is_activity, (text,), r),
    ensures
        r == !blank(text@),
{
    crate::row_laws::lemma_blank(text@);
}

/// A finished text of the app-server lands as such, in the branch that it came from.
pub proof fn law_finished_text_of_the_app_server(
    before: EngineInner,
    item: Option<String>,
    key: Option<&str>,
    text: Option<String>,
    agent_thread: Option<String>,
    own_thread: &str,
    finished: Option<String>,
    now: u64,
    branch: Option<String>,
    landing: TextLanding,
    landed: EngineInner,
    r: ChatStep,
    after: EngineInner,
)
    requires
        before.wf(),
        crate::text::opt_str_view(key) == opt_view(item),
        call_ensures(crate::rows::branch_of, (agent_thread, own_thread), branch),
        exists|m: &mut EngineInner|
            *m == before && *final(m) == landed && #[trigger] call_ensures(
                text_done,
                (m, key, text, branch),
                landing,
            ),
        exists|m: &mut EngineInner|
            *m == before && *final(m) == after && #[trigger] call_ensures(
                appserver_event,
                (m, (ChatEvent::TextDone { item, text, agent_thread }), own_thread, finished, now),
                r,
            ),
    ensures
        r is Landed,
        landing is Close == r->Landed_0 is Close,
        landing is Standalone == r->Landed_0 is Standalone,
        landing is Nothing == r->Landed_0 is Nothing,
        landing is Close ==> r->Landed_0->row == landing->row && r->Landed_0->Close_body@
            == landing->Close_body@ && r->Landed_0->replaced == landing->replaced && opt_view(
            r->Landed_0->Close_agent_thread,
        ) == opt_view(landing->Close_agent_thread),
        landing is Standalone ==> r->Landed_0->Standalone_body@ == landing->Standalone_body@
            && opt_view(r->Landed_0->Standalone_agent_thread) == opt_view(
            landing->Standalone_agent_thread,
        ),
        after.open_texts@ == landed.open_texts@,
        after == (EngineInner { open_texts: after.open_texts, ..before }),
{
}

/// A reading of the app-server is shown exactly when it counts.
pub proof fn law_reading_of_the_app_server(
    before: EngineInner,
    context_tokens: u64,
    window: Option<u64>,
    own_thread: &str,
    finished: Option<String>,
    now: u64,
    counts: bool,
    noted: EngineInner,
    r: ChatStep,
    after: EngineInner,
)
    requires
        before.wf(),
        exists|m: &mut EngineInner|
            *m == before && *final(m) == noted && #[trigger] call_ensures(
                note_appserver_usage,
                (m, context_tokens, window),
                counts,
            ),
        exists|m: &mut EngineInner|
            *m == before && *final(m) == after && #[trigger] call_ensures(
                appserver_event,
                (
                    m,
                    (ChatEvent::Usage { context_tokens, window }),
                    own_thread,
                    finished,
                    now,
                ),
                r,
            ),
    ensures
        counts ==> r == ChatStep::Usage(context_tokens),
        !counts ==> r is Nothing,
        after == noted,
{
}

} // verus!
