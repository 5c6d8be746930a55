//! What each event of an agent does to its engine, wire by wire, and what is left
//! for the caller to write, insert or show.

use vstd::prelude::*;

use crate::engine::{EngineInner, OpenTextRow, TextRow};
use crate::keyed::Keyed;
use crate::proto::{try_parse_line_for, ChatEvent, McpServer, SlashCmd, ToolCall, ToolResultItem};
use crate::rows::{branch_of, merge_tool_results, text_row_content, ToolRowUpdate};
use crate::streaming::{
    append_item_delta, append_slot_delta, delta_opens_row, learn_native, note_appserver_usage,
    note_assistant_uuid, note_commands, note_init, note_usage, opening_content, text_done,
    DeltaStep, TextLanding,
};
use crate::text::{join, opt_ref, same, trim};
use crate::turn_end::{begin_turn_end, TurnEnding, Wire};

verus! {

/// What is left for the caller after an event.
#[allow(inconsistent_fields)]
pub enum ChatStep {
    Nothing,
    /// The session told what it runs on: keep it, and show what the event says.
    Init {
        session_id: String,
        mcp_servers: Vec<McpServer>,
        tools: Vec<String>,
        model: Option<String>,
        window: Option<u64>,
    },
    /// The palette changed: show it.
    Commands,
    /// Insert a row with this content, then go on with `text_row_inserted`.
    OpenRow { item: Option<String>, content: String, branch: Option<String>, text: String },
    /// Text was appended.
    Delta { step: DeltaStep, text: String },
    /// A text is complete.
    Landed(TextLanding),
    /// An assistant message: split the directives off its body, where it has one, and
    /// go on with `body_landed`; then the tool calls get their rows.
    Body { full: Option<String>, tools: Vec<ToolCall> },
    /// Close the row that was open, then the tool calls get their rows.
    Tools { close: Option<TextRow>, tools: Vec<ToolCall>, branch: Option<String> },
    /// Tool rows received their results.
    Results(Vec<ToolRowUpdate>),
    /// A new reading of the context: show it.
    Usage(u64),
    /// The turn is over.
    End(TurnEnding),
}

/// What a piece of text does. Only the app-server keys its texts by item, and only
/// it repeats itself.
pub open spec fn delta_handled(
    before: EngineInner,
    after: EngineInner,
    item: Option<Seq<char>>,
    text: Seq<char>,
    branch: Option<Seq<char>>,
    dedupe: bool,
    now: u64,
    r: ChatStep,
) -> bool {
    if crate::streaming::opens_row(before, item) {
        &&& after == before
        &&& r is OpenRow
        &&& crate::text::opt_view(r->OpenRow_item) == item
        &&& crate::text::opt_view(r->OpenRow_branch) == branch
        &&& r->OpenRow_text@ == text
        &&& r->OpenRow_content@ == crate::json::json_text(
            crate::rows::text_row_tree(
                seq![],
                if item is Some {
                    branch
                } else {
                    None
                },
            ),
        )
    } else {
        appended(before, after, item, text, dedupe, now, r)
    }
}

/// A piece of text went to its open row, or only repeated what stands there.
pub open spec fn appended(
    before: EngineInner,
    after: EngineInner,
    item: Option<Seq<char>>,
    text: Seq<char>,
    dedupe: bool,
    now: u64,
    r: ChatStep,
) -> bool {
    match item {
        Some(k) => {
            &&& after == (EngineInner { open_texts: after.open_texts, ..before })
            &&& r is Delta
            &&& r->Delta_text@ == text
            &&& crate::streaming::item_appended(
                before.open_texts@,
                after.open_texts@,
                k,
                text,
                now,
                r->step,
            )
        },
        None => if dedupe && crate::rows::slot_repeats(before.current->0.buf@, text) {
            after == before && r is Nothing
        } else {
            &&& after == (EngineInner { current: after.current, ..before })
            &&& r is Delta
            &&& r->Delta_text@ == text
            &&& crate::streaming::slot_appended(
                before.current->0,
                after.current,
                text,
                now,
                r->step,
            )
        },
    }
}

fn append_text(
    inner: &mut EngineInner,
    item: Option<String>,
    text: String,
    dedupe: bool,
    now: u64,
) -> (r: ChatStep)
    requires
        old(inner).wf(),
        !crate::streaming::opens_row(*old(inner), crate::text::opt_view(item)),
    ensures
        final(inner).wf(),
        appended(
            *old(inner),
            *final(inner),
            crate::text::opt_view(item),
            text@,
            dedupe,
            now,
            r,
        ),
{
    let step = match item {
        Some(k) => append_item_delta(inner, k.as_str(), text.as_str(), now),
        None => append_slot_delta(inner, text.as_str(), dedupe, now),
    };
    match step {
        Some(step) => ChatStep::Delta { step, text },
        None => ChatStep::Nothing,
    }
}

/// A piece of text arrived.
pub fn text_delta(
    inner: &mut EngineInner,
    item: Option<String>,
    text: String,
    branch: Option<String>,
    dedupe: bool,
    now: u64,
) -> (r: ChatStep)
    requires
        old(inner).wf(),
    ensures
        final(inner).wf(),
        delta_handled(
            *old(inner),
            *final(inner),
            crate::text::opt_view(item),
            text@,
            crate::text::opt_view(branch),
            dedupe,
            now,
            r,
        ),
{
    if delta_opens_row(inner, opt_ref(&item)) {
        let content = opening_content(opt_ref(&item), opt_ref(&branch));
        return ChatStep::OpenRow { item, content, branch, text };
    }
    append_text(inner, item, text, dedupe, now)
}

/// The row for a piece of text was inserted: the text goes there.
pub fn text_row_inserted(
    inner: &mut EngineInner,
    item: Option<String>,
    row: i32,
    branch: Option<String>,
    text: String,
    now: u64,
) -> (r: ChatStep)
    requires
        old(inner).wf(),
        crate::streaming::opens_row(*old(inner), crate::text::opt_view(item)),
    ensures
        final(inner).wf(),
        r is Delta,
        r->Delta_text@ == text@,
        r->step.row == row,
        r->step.snapshot is None,
        match crate::text::opt_view(item) {
            Some(k) => {
                &&& *final(inner) == (EngineInner {
                    open_texts: final(inner).open_texts,
                    ..*old(inner)
                })
                &&& final(inner).open_texts@.dom() == old(inner).open_texts@.dom().insert(k)
                &&& final(inner).open_texts@.remove(k) == old(inner).open_texts@.remove(k)
                &&& final(inner).open_texts@[k].row == row
                &&& final(inner).open_texts@[k].buf@ == text@
                &&& final(inner).open_texts@[k].last_flush == now
                &&& crate::text::opt_view(final(inner).open_texts@[k].agent_thread)
                    == crate::text::opt_view(branch)
            },
            None => {
                &&& *final(inner) == (EngineInner { current: final(inner).current, ..*old(inner) })
                &&& final(inner).current is Some
                &&& final(inner).current->0.row == row
                &&& final(inner).current->0.buf@ == text@
                &&& final(inner).current->0.last_flush == now
            },
        },
{
    let shown = text.clone();
    match item {
        Some(k) => {
            open_item(&mut inner.open_texts, k, row, branch, text, now);
        },
        None => {
            inner.current = Some(TextRow { row, buf: text, last_flush: now });
        },
    }
    ChatStep::Delta { step: DeltaStep { row, snapshot: None }, text: shown }
}

fn open_item(
    rows: &mut Keyed<OpenTextRow>,
    item: String,
    row: i32,
    branch: Option<String>,
    text: String,
    now: u64,
)
    requires
        old(rows).wf(),
    ensures
        final(rows).wf(),
        final(rows)@.dom() == old(rows)@.dom().insert(item@),
        final(rows)@.remove(item@) == old(rows)@.remove(item@),
        final(rows)@[item@].row == row,
        final(rows)@[item@].buf@ == text@,
        final(rows)@[item@].last_flush == now,
        final(rows)@[item@].agent_thread == branch,
{
    let ghost k = item@;
    rows.insert(item, OpenTextRow { row, buf: text, last_flush: now, agent_thread: branch });
    assert(rows@.remove(k) =~= old(rows)@.remove(k));
}

/// What a line of a child's output turned out to be.
pub enum LineStep {
    /// A newer process has taken over: stop reading.
    Stale,
    /// Its token counts do not add up to a 64-bit number.
    Overflow { native: Option<String> },
    /// An event; and the native id, if the line revealed one.
    Event { native: Option<String>, event: ChatEvent },
}

/// What a line of a child's output does.
pub open spec fn line_read(
    before: EngineInner,
    after: EngineInner,
    generation: u64,
    line: Seq<char>,
    r: LineStep,
) -> bool {
    if before.generation != generation {
        after == before && r is Stale
    } else {
        let native = crate::streaming::native_learned(before, line);
        &&& crate::text::opt_view(after.native_id) == (if native is Some {
            native
        } else {
            crate::text::opt_view(before.native_id)
        })
        &&& after == (EngineInner { native_id: after.native_id, ..before })
        &&& if crate::proto::line_parses(before.tool@, line) {
            &&& r is Event
            &&& crate::text::opt_view(r->Event_native) == native
            &&& r->event@ == crate::proto::line_event(before.tool@, line)
        } else {
            r is Overflow && crate::text::opt_view(r->Overflow_native) == native
        }
    }
}

/// Read a line of a child's output. A line from a process that was replaced counts
/// for nothing; the first line that names the native session settles its id.
pub fn read_line(inner: &mut EngineInner, generation: u64, line: &str) -> (r: LineStep)
    ensures
        line_read(*old(inner), *final(inner), generation, line@, r),
{
    if inner.generation != generation {
        return LineStep::Stale;
    }
    let parsed = try_parse_line_for(inner.tool.as_str(), line);
    let native = learn_native(inner, line);
    match parsed {
        Some(event) => LineStep::Event { native, event },
        None => LineStep::Overflow { native },
    }
}

/// What an event read from a child does.
pub open spec fn reader_step(
    before: EngineInner,
    after: EngineInner,
    event: ChatEvent,
    window: Option<u64>,
    now: u64,
    r: ChatStep,
) -> bool {
    match event {
        ChatEvent::Init { session_id, slash_commands, mcp_servers, tools, model } => {
            &&& crate::streaming::init_noted(
                before,
                after,
                session_id@,
                crate::proto::cmds_view(slash_commands@),
                crate::proto::servers_view(mcp_servers@),
                crate::text::texts_view(tools@),
                crate::text::opt_view(model),
                window,
            )
            &&& r == (ChatStep::Init { session_id, mcp_servers, tools, model, window })
        },
        ChatEvent::Commands { commands } => {
            &&& palette_merged(before, after, commands@)
            &&& r is Commands
        },
        ChatEvent::TextDelta { text, item, agent_thread } => delta_handled(
            before,
            after,
            None,
            text@,
            None,
            false,
            now,
            r,
        ),
        ChatEvent::Assistant { texts, tools, uuid, agent_thread } => {
            &&& after == (EngineInner {
                last_assistant_uuid: if uuid is Some {
                    uuid
                } else {
                    before.last_assistant_uuid
                },
                ..before
            })
            &&& r is Body
            &&& r->Body_tools == tools
            &&& crate::text::opt_view(r->full) == (if texts@.len() == 0 {
                None
            } else {
                Some(crate::text::joined(crate::text::texts_view(texts@), "\n\n"@))
            })
        },
        ChatEvent::ToolResults { items } => results_merged(before, after, items@, r),
        ChatEvent::TurnEnd { is_error, context_tokens } => {
            &&& crate::turn_end::rows_released(before, after, Wire::Reader, context_tokens)
            &&& r is End
            &&& crate::turn_end::ending_of(
                before,
                Wire::Reader,
                is_error,
                false,
                context_tokens,
                None,
                r->End_0,
            )
        },
        _ => after == before && r is Nothing,
    }
}

/// The palette took up a new list.
pub open spec fn palette_merged(
    before: EngineInner,
    after: EngineInner,
    commands: Seq<SlashCmd>,
) -> bool {
    &&& after == (EngineInner { slash_commands: after.slash_commands, ..before })
    &&& crate::proto::cmds_view(after.slash_commands@) == crate::streaming::merged_commands(
        crate::proto::cmds_view(before.slash_commands@),
        crate::proto::cmds_view(commands),
    )
}

/// Tool rows took up their results.
pub open spec fn results_merged(
    before: EngineInner,
    after: EngineInner,
    items: Seq<ToolResultItem>,
    r: ChatStep,
) -> bool {
    let seen = crate::proto::results_view(items);
    &&& after == (EngineInner { tool_rows: after.tool_rows, ..before })
    &&& after.tool_rows@ == crate::rows::rows_left(before.tool_rows@, seen)
    &&& r is Results
    &&& crate::rows::updates_view(r->Results_0@) == crate::rows::result_updates(
        before.tool_rows@,
        seen,
    )
}

fn merge_results(inner: &mut EngineInner, items: &Vec<ToolResultItem>) -> (r: ChatStep)
    requires
        old(inner).wf(),
    ensures
        final(inner).wf(),
        results_merged(*old(inner), *final(inner), items@, r),
{
    let updates = merge_tool_results(inner, items);
    ChatStep::Results(updates)
}

fn end_turn(
    inner: &mut EngineInner,
    wire: Wire,
    is_error: bool,
    context_tokens: Option<u64>,
    finished_turn: Option<String>,
) -> (r: ChatStep)
    requires
        old(inner).wf(),
    ensures
        final(inner).wf(),
        crate::turn_end::rows_released(*old(inner), *final(inner), wire, context_tokens),
        r is End,
        crate::turn_end::ending_of(
            *old(inner),
            wire,
            is_error,
            false,
            context_tokens,
            crate::text::opt_view(finished_turn),
            r->End_0,
        ),
{
    let ending = begin_turn_end(inner, wire, is_error, false, context_tokens, finished_turn);
    ChatStep::End(ending)
}

fn body_of(texts: &Vec<String>) -> (r: Option<String>)
    ensures
        crate::text::opt_view(r) == (if texts@.len() == 0 {
            None
        } else {
            Some(crate::text::joined(crate::text::texts_view(texts@), "\n\n"@))
        }),
{
    if texts.len() == 0 {
        None
    } else {
        Some(join(texts, "\n\n"))
    }
}

/// An event was read from a child. `window` is the context window of the model that
/// an init names.
pub fn reader_event(inner: &mut EngineInner, event: ChatEvent, window: Option<u64>, now: u64) -> (r:
    ChatStep)
    requires
        old(inner).wf(),
    ensures
        final(inner).wf(),
        reader_step(*old(inner), *final(inner), event, window, now, r),
{
    match event {
        ChatEvent::Init { session_id, slash_commands, mcp_servers, tools, model } => {
            note_init(
                inner,
                session_id.as_str(),
                slash_commands,
                &mcp_servers,
                &tools,
                &model,
                window,
            );
            ChatStep::Init { session_id, mcp_servers, tools, model, window }
        },
        ChatEvent::Commands { commands } => {
            note_commands(inner, commands);
            ChatStep::Commands
        },
        ChatEvent::TextDelta { text, item: _, agent_thread: _ } => text_delta(
            inner,
            None,
            text,
            None,
            false,
            now,
        ),
        ChatEvent::Assistant { texts, tools, uuid, agent_thread: _ } => {
            note_assistant_uuid(inner, uuid);
            ChatStep::Body { full: body_of(&texts), tools }
        },
        ChatEvent::ToolResults { items } => merge_results(inner, &items),
        ChatEvent::TurnEnd { is_error, context_tokens } => end_turn(
            inner,
            Wire::Reader,
            is_error,
            context_tokens,
            None,
        ),
        _ => ChatStep::Nothing,
    }
}

/// Where the body of an assistant message goes.
pub struct BodyLanding {
    /// The row that streamed it; `None` = insert one.
    pub row: Option<i32>,
    pub content: String,
    /// The body that the live view must show instead of what streamed.
    pub shown: Option<String>,
    /// What goes out to subscribers, if anything.
    pub out: Option<String>,
}

/// The body of an assistant message is `full`, and `clean` without its directives:
/// the row that streamed closes with it. Built-in commands answer without having
/// streamed at all; then it gets a row of its own.
pub fn body_landed(inner: &mut EngineInner, full: &str, clean: &str) -> (r: BodyLanding)
    ensures
        *final(inner) == (EngineInner { current: None, ..*old(inner) }),
        r.row == (match old(inner).current {
            Some(c) => Some(c.row),
            None => None,
        }),
        r.content@ == crate::json::json_text(crate::rows::text_row_tree(clean@, None)),
        crate::text::opt_view(r.shown) == (if old(inner).current is Some && clean@ != full@ {
            Some(clean@)
        } else {
            None
        }),
        crate::text::opt_view(r.out) == crate::rows::out_text("complete"@, clean@),
{
    let content = text_row_content(clean, None);
    let body = trim(clean);
    let out = if body.is_empty() {
        None
    } else {
        Some(body.to_owned())
    };
    match inner.current.take() {
        Some(c) => {
            let shown = if same(clean, full) {
                None
            } else {
                Some(clean.to_owned())
            };
            BodyLanding { row: Some(c.row), content, shown, out }
        },
        None => BodyLanding { row: None, content, shown: None, out },
    }
}

/// What an event of the app-server does. `own_thread` is the session's own thread
/// there: what comes from another one is a branch.
pub open spec fn appserver_step(
    before: EngineInner,
    after: EngineInner,
    event: ChatEvent,
    own_thread: Seq<char>,
    finished_turn: Option<Seq<char>>,
    now: u64,
    r: ChatStep,
) -> bool {
    match event {
        ChatEvent::TextDelta { text, item, agent_thread } => delta_handled(
            before,
            after,
            crate::text::opt_view(item),
            text@,
            crate::rows::branch(crate::text::opt_view(agent_thread), own_thread),
            true,
            now,
            r,
        ),
        ChatEvent::TextDone { item, text, agent_thread } => {
            &&& after == (EngineInner { open_texts: after.open_texts, ..before })
            &&& r is Landed
            &&& crate::streaming::text_landed(
                before.open_texts@,
                after.open_texts@,
                crate::text::opt_view(item),
                crate::text::opt_view(text),
                crate::rows::branch(crate::text::opt_view(agent_thread), own_thread),
                r->Landed_0,
            )
        },
        ChatEvent::Assistant { texts, tools, uuid, agent_thread } => {
            &&& r is Tools
            &&& r->Tools_tools == tools
            &&& crate::text::opt_view(r->Tools_branch) == crate::rows::branch(
                crate::text::opt_view(agent_thread),
                own_thread,
            )
            &&& r->close == (if texts@.len() > 0 {
                before.current
            } else {
                None
            })
            &&& after == (EngineInner {
                current: if texts@.len() > 0 {
                    None
                } else {
                    before.current
                },
                ..before
            })
        },
        ChatEvent::ToolResults { items } => results_merged(before, after, items@, r),
        ChatEvent::Usage { context_tokens, window } => if crate::streaming::collab_running(
            before,
        ) {
            after == before && r is Nothing
        } else {
            &&& after == crate::streaming::usage_noted(before, context_tokens, window)
            &&& r == ChatStep::Usage(context_tokens)
        },
        ChatEvent::TurnEnd { is_error, context_tokens } => {
            &&& crate::turn_end::rows_released(before, after, Wire::AppServer, context_tokens)
            &&& r is End
            &&& crate::turn_end::ending_of(
                before,
                Wire::AppServer,
                is_error,
                false,
                context_tokens,
                finished_turn,
                r->End_0,
            )
        },
        _ => after == before && r is Nothing,
    }
}

fn take_current(inner: &mut EngineInner, close: bool) -> (r: Option<TextRow>)
    ensures
        r == (if close {
            old(inner).current
        } else {
            None
        }),
        *final(inner) == (EngineInner {
            current: if close {
                None
            } else {
                old(inner).current
            },
            ..*old(inner)
        }),
{
    if close {
        inner.current.take()
    } else {
        None
    }
}

/// An event came over the app-server. `finished_turn` is the id of the turn that an
/// end closes. Texts close by their own completion here: a tool call that starts in
/// the middle is often another agent's.
pub fn appserver_event(
    inner: &mut EngineInner,
    event: ChatEvent,
    own_thread: &str,
    finished_turn: Option<String>,
    now: u64,
) -> (r: ChatStep)
    requires
        old(inner).wf(),
    ensures
        final(inner).wf(),
        appserver_step(
            *old(inner),
            *final(inner),
            event,
            own_thread@,
            crate::text::opt_view(finished_turn),
            now,
            r,
        ),
{
    match event {
        ChatEvent::TextDelta { text, item, agent_thread } => {
            let branch = branch_of(agent_thread, own_thread);
            text_delta(inner, item, text, branch, true, now)
        },
        ChatEvent::TextDone { item, text, agent_thread } => {
            let branch = branch_of(agent_thread, own_thread);
            let landing = text_done(inner, opt_ref(&item), text, branch);
            ChatStep::Landed(landing)
        },
        ChatEvent::Assistant { texts, tools, uuid: _, agent_thread } => {
            let branch = branch_of(agent_thread, own_thread);
            let close = take_current(inner, texts.len() > 0);
            ChatStep::Tools { close, tools, branch }
        },
        ChatEvent::ToolResults { items } => merge_results(inner, &items),
        ChatEvent::Usage { context_tokens, window } => if note_appserver_usage(
            inner,
            context_tokens,
            window,
        ) {
            ChatStep::Usage(context_tokens)
        } else {
            ChatStep::Nothing
        },
        ChatEvent::TurnEnd { is_error, context_tokens } => end_turn(
            inner,
            Wire::AppServer,
            is_error,
            context_tokens,
            finished_turn,
        ),
        _ => ChatStep::Nothing,
    }
}

/// What a chat event of the connection backend does.
pub open spec fn connection_step(
    before: EngineInner,
    after: EngineInner,
    event: ChatEvent,
    now: u64,
    r: ChatStep,
) -> bool {
    match event {
        ChatEvent::TextDelta { text, item, agent_thread } => delta_handled(
            before,
            after,
            None,
            text@,
            None,
            false,
            now,
            r,
        ),
        ChatEvent::Assistant { texts, tools, uuid, agent_thread } => {
            &&& r is Tools
            &&& r->Tools_tools == tools
            &&& r->Tools_branch is None
            &&& r->close == before.current
            &&& after == (EngineInner { current: None, ..before })
        },
        ChatEvent::ToolResults { items } => results_merged(before, after, items@, r),
        ChatEvent::Commands { commands } => {
            &&& after == (EngineInner { slash_commands: commands, ..before })
            &&& r is Commands
        },
        _ => after == before && r is Nothing,
    }
}

/// A chat event came over the connection backend, and in time. A tool call closes
/// the text before it; its palette is authoritative even when it is empty.
pub fn connection_event(inner: &mut EngineInner, event: ChatEvent, now: u64) -> (r: ChatStep)
    requires
        old(inner).wf(),
    ensures
        final(inner).wf(),
        connection_step(*old(inner), *final(inner), event, now, r),
{
    match event {
        ChatEvent::TextDelta { text, item: _, agent_thread: _ } => text_delta(
            inner,
            None,
            text,
            None,
            false,
            now,
        ),
        ChatEvent::Assistant { texts: _, tools, uuid: _, agent_thread: _ } => {
            let close = take_current(inner, true);
            ChatStep::Tools { close, tools, branch: None }
        },
        ChatEvent::ToolResults { items } => merge_results(inner, &items),
        ChatEvent::Commands { commands } => {
            inner.slash_commands = commands;
            ChatStep::Commands
        },
        _ => ChatStep::Nothing,
    }
}

/// The connection backend reported the context in use.
pub fn connection_usage(inner: &mut EngineInner, context_tokens: u64, window: Option<u64>)
    ensures
        *final(inner) == crate::streaming::usage_noted(*old(inner), context_tokens, window),
{
    note_usage(inner, context_tokens, window);
}

/// The connection backend named the model or its thinking level. What it leaves out
/// stays.
pub fn connection_meta(inner: &mut EngineInner, model: Option<String>, thinking: Option<String>)
    ensures
        *final(inner) == (EngineInner {
            last_model: if model is Some {
                model
            } else {
                old(inner).last_model
            },
            last_reasoning: if thinking is Some {
                thinking
            } else {
                old(inner).last_reasoning
            },
            ..*old(inner)
        }),
{
    if model.is_some() {
        inner.last_model = model;
    }
    if thinking.is_some() {
        inner.last_reasoning = thinking;
    }
}

/// Whether an event of this wire may be the first sign of the agent at work on its
/// turn. A child's lines all may; on the other wires it takes text, a tool call or a
/// tool's result, and only the app-server completes texts one by one.
pub fn may_be_activity(wire: Wire, event: &ChatEvent) -> (r: bool)
    ensures
        r == (match wire {
            Wire::Reader => true,
            Wire::AppServer => event is TextDelta || event is TextDone || event is Assistant
                || event is ToolResults,
            Wire::Connection => event is TextDelta || event is Assistant || event is ToolResults,
        }),
{
    match wire {
        Wire::Reader => true,
        Wire::AppServer => match event {
            ChatEvent::TextDelta { .. } => true,
            ChatEvent::TextDone { .. } => true,
            ChatEvent::Assistant { .. } => true,
            ChatEvent::ToolResults { .. } => true,
            _ => false,
        },
        Wire::Connection => match event {
            ChatEvent::TextDelta { .. } => true,
            ChatEvent::Assistant { .. } => true,
            ChatEvent::ToolResults { .. } => true,
            _ => false,
        },
    }
}

/// Whether an event of the connection backend ends the agent's thinking: the answer
/// begins, or a tool is called.
pub fn ends_thinking(event: &ChatEvent) -> (r: bool)
    ensures
        r == (event is TextDelta || event is Assistant),
{
    match event {
        ChatEvent::TextDelta { .. } => true,
        ChatEvent::Assistant { .. } => true,
        _ => false,
    }
}

/// A chip for the busy line shows agent activity: reasoning or tool progress that
/// says something.
pub fn chip_is_activity(text: &str) -> (r: bool)
    ensures
        r == (crate::text::trimmed(text@).len() > 0),
{
    !trim(text).is_empty()
}

/// Lines that are no event of their dialect change nothing.
pub proof fn law_garbage_changes_nothing(
    before: EngineInner,
    after: EngineInner,
    window: Option<u64>,
    now: u64,
    r: ChatStep,
)
    requires
        reader_step(before, after, ChatEvent::Other, window, now, r),
    ensures
        after == before,
        r is Nothing,
{
}

/// Text of one item never reaches the row of another, nor the anonymous one.
pub proof fn law_streams_do_not_mix(
    before: EngineInner,
    after: EngineInner,
    item: Seq<char>,
    other: Seq<char>,
    text: Seq<char>,
    branch: Option<Seq<char>>,
    now: u64,
    r: ChatStep,
)
    requires
        delta_handled(before, after, Some(item), text, branch, true, now, r),
        other != item,
        before.open_texts@.dom().contains(other),
    ensures
        after.open_texts@.dom().contains(other),
        after.open_texts@[other] == before.open_texts@[other],
        after.current == before.current,
{
    if !crate::streaming::opens_row(before, Some(item)) {
        assert(after.open_texts@.remove(item)[other] == before.open_texts@.remove(item)[other]);
    }
}

} // verus!
