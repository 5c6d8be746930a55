//! The end of a turn: how it closes, what it leaves behind and what runs next.

use vstd::prelude::*;

use crate::engine::{per_turn, EngineInner, OpenTextRow, TextRow, TurnClock};
use crate::json::{put, Json, JsonEntry};
use crate::keyed::Keyed;
use crate::rows::{orphan_updates, text_row_content, ToolRowUpdate};
use crate::streaming::dequeue_target;
use crate::text::{opt_clone, same};
use crate::turn::{collect_ids, Outgoing, TurnState};

verus! {

/// Over what the engine heard that the turn is over.
#[derive(Debug, PartialEq, Eq, Structural, Clone, Copy)]
pub enum Wire {
    /// The stdout of a child process.
    Reader,
    /// The shared app-server connection.
    AppServer,
    /// A prompt on the connection backend.
    Connection,
}

/// How a turn closes.
pub open spec fn end_status(interrupting: bool, is_error: bool) -> Seq<char> {
    if interrupting {
        "interrupted"@
    } else if is_error {
        "error"@
    } else {
        "complete"@
    }
}

/// How a turn closes: an interrupt wins over an error.
pub fn turn_end_status(interrupting: bool, is_error: bool) -> (r: &'static str)
    ensures
        r@ == end_status(interrupting, is_error),
{
    if interrupting {
        "interrupted"
    } else if is_error {
        "error"
    } else {
        "complete"
    }
}

/// The mark left where a turn closed before it said anything.
pub open spec fn terminal_kind(status: Seq<char>) -> Option<Seq<char>> {
    if status == "error"@ {
        Some("error_before_output"@)
    } else if status == "interrupted"@ {
        Some("interrupted_before_output"@)
    } else {
        None
    }
}

/// The content of such a mark.
pub open spec fn terminal_content_spec(status: Seq<char>) -> Option<Seq<char>> {
    match terminal_kind(status) {
        Some(k) => Some(
            crate::json::json_text(
                crate::json::JsonView::Obj(
                    map!["terminal"@ => crate::json::JsonView::Str(k)],
                ),
            ),
        ),
        None => None,
    }
}

/// The content of the row for a turn that closed with no output at all. A turn
/// that completed needs none.
pub fn terminal_content(status: &str) -> (r: Option<String>)
    ensures
        crate::text::opt_view(r) == terminal_content_spec(status@),
{
    let kind = if same(status, "error") {
        "error_before_output"
    } else if same(status, "interrupted") {
        "interrupted_before_output"
    } else {
        return None;
    };
    let mut entries: Vec<JsonEntry> = Vec::new();
    put(&mut entries, "terminal", Json::Str(kind.to_owned()));
    let doc = Json::Obj(entries);
    assert(doc@ == crate::json::JsonView::Obj(
        map!["terminal"@ => crate::json::JsonView::Str(kind@)],
    )) by {
        assert(crate::json::entries_view(entries@) =~= map![
            "terminal"@ => crate::json::JsonView::Str(kind@)
        ]);
    }
    Some(doc.print())
}

/// The rewind anchor of a finished turn and the user row it belongs to.
pub struct Anchor {
    pub row: i32,
    pub anchor: String,
}

/// The anchor that a turn leaves: only one that completed, and only on the user
/// row that opened it.
pub open spec fn anchor_left(
    status: Seq<char>,
    row: Option<i32>,
    anchor: Option<Seq<char>>,
) -> Option<(i32, Seq<char>)> {
    if status == "complete"@ && row is Some && row->0 > 0 && anchor is Some {
        Some((row->0, anchor->0))
    } else {
        None
    }
}

pub open spec fn anchor_view(a: Option<Anchor>) -> Option<(i32, Seq<char>)> {
    match a {
        Some(a) => Some((a.row, a.anchor@)),
        None => None,
    }
}

fn turn_anchor(status: &str, row: Option<i32>, anchor: Option<String>) -> (r: Option<Anchor>)
    ensures
        anchor_view(r) == anchor_left(status@, row, crate::text::opt_view(anchor)),
{
    if !same(status, "complete") {
        return None;
    }
    match (row, anchor) {
        (Some(row), Some(anchor)) => if row > 0 {
            Some(Anchor { row, anchor })
        } else {
            None
        },
        _ => None,
    }
}

/// What the end of a turn leaves to be written down.
pub struct TurnEnding {
    pub status: &'static str,
    /// A new reading of the context, to be shown.
    pub usage: Option<u64>,
    pub anchor: Option<Anchor>,
    /// Tool rows whose result never came.
    pub tools: Vec<ToolRowUpdate>,
    /// Item rows still open.
    pub texts: Vec<(String, OpenTextRow)>,
    /// The anonymous row, if it is still open.
    pub current: Option<TextRow>,
    /// The row to insert because the turn never said anything.
    pub terminal: Option<String>,
    /// A structured signal said that the quota is gone.
    pub quota_exceeded: bool,
}

/// What rewinding can go back to: the uuid that the reader collected, or the turn
/// id that the app-server reports. The connection backend has neither.
pub open spec fn anchor_source(
    inner: EngineInner,
    wire: Wire,
    finished_turn: Option<Seq<char>>,
) -> Option<Seq<char>> {
    match wire {
        Wire::Reader => crate::text::opt_view(inner.last_assistant_uuid),
        Wire::AppServer => finished_turn,
        Wire::Connection => None,
    }
}

/// The turn said nothing that stands in a row. The reader looks at the open row
/// alone; the other wires also know of rows already closed.
pub open spec fn silent(inner: EngineInner, wire: Wire) -> bool {
    inner.current is None && (wire == Wire::Reader || (inner.open_texts.entries@.len() == 0
        && !inner.turn_saw_text))
}

/// The engine after it let go of what the turn left open.
pub open spec fn rows_released(
    before: EngineInner,
    after: EngineInner,
    wire: Wire,
    context_tokens: Option<u64>,
) -> bool {
    &&& after.tool_rows.entries@.len() == 0
    &&& wire == Wire::Reader ==> after.open_texts == before.open_texts
    &&& wire != Wire::Reader ==> after.open_texts.entries@.len() == 0
    &&& after == (EngineInner {
        last_context_tokens: if wire != Wire::Connection && context_tokens is Some {
            context_tokens
        } else {
            before.last_context_tokens
        },
        interrupting: false,
        current: None,
        tool_rows: after.tool_rows,
        open_texts: after.open_texts,
        ..before
    })
}

/// What the end of a turn leaves, in full.
pub open spec fn ending_of(
    before: EngineInner,
    wire: Wire,
    is_error: bool,
    cancelled: bool,
    context_tokens: Option<u64>,
    finished_turn: Option<Seq<char>>,
    r: TurnEnding,
) -> bool {
    let status = end_status(before.interrupting || cancelled, is_error);
    &&& r.status@ == status
    &&& r.usage == (if wire == Wire::Connection {
        None
    } else {
        context_tokens
    })
    &&& anchor_view(r.anchor) == anchor_left(
        status,
        before.turn_user_row,
        anchor_source(before, wire, finished_turn),
    )
    &&& crate::rows::updates_view(r.tools@) == crate::rows::orphan_updates_spec(
        before.tool_rows.entries@,
        status,
    )
    &&& r.texts@ == (if wire == Wire::Reader {
        seq![]
    } else {
        before.open_texts.entries@
    })
    &&& r.current == before.current
    &&& crate::text::opt_view(r.terminal) == (if silent(before, wire) {
        terminal_content_spec(status)
    } else {
        None
    })
    &&& r.quota_exceeded == before.turn.quota_exceeded
}

/// The turn is over: settle how it closes and hand out everything it left open.
/// The caller writes that down, and then calls `finish_turn_end`.
pub fn begin_turn_end(
    inner: &mut EngineInner,
    wire: Wire,
    is_error: bool,
    cancelled: bool,
    context_tokens: Option<u64>,
    finished_turn: Option<String>,
) -> (r: TurnEnding)
    requires
        old(inner).wf(),
    ensures
        final(inner).wf(),
        rows_released(*old(inner), *final(inner), wire, context_tokens),
        ending_of(
            *old(inner),
            wire,
            is_error,
            cancelled,
            context_tokens,
            crate::text::opt_view(finished_turn),
            r,
        ),
{
    let status = turn_end_status(inner.interrupting || cancelled, is_error);
    let usage: Option<u64> = match wire {
        Wire::Connection => None,
        _ => context_tokens,
    };
    let source = match wire {
        Wire::Reader => opt_clone(&inner.last_assistant_uuid),
        Wire::AppServer => finished_turn,
        Wire::Connection => None,
    };
    let anchor = turn_anchor(status, inner.turn_user_row, source);
    let silent = inner.current.is_none() && (match wire {
        Wire::Reader => true,
        _ => inner.open_texts.entries.len() == 0 && !inner.turn_saw_text,
    });
    let terminal = if silent {
        terminal_content(status)
    } else {
        None
    };
    let quota_exceeded = inner.turn.quota_exceeded;
    let (tools, texts, current) = release_rows(inner, status, wire, usage);
    TurnEnding { status, usage, anchor, tools, texts, current, terminal, quota_exceeded }
}

fn take_texts(rows: &mut Keyed<OpenTextRow>, wire: Wire) -> (r: Vec<(String, OpenTextRow)>)
    requires
        old(rows).wf(),
    ensures
        final(rows).wf(),
        wire == Wire::Reader ==> *final(rows) == *old(rows) && r@.len() == 0,
        wire != Wire::Reader ==> final(rows).entries@.len() == 0 && r@ == old(rows).entries@,
{
    match wire {
        Wire::Reader => Vec::new(),
        _ => rows.drain(),
    }
}

fn newer(a: Option<u64>, b: Option<u64>) -> (r: Option<u64>)
    ensures
        r == (if a is Some {
            a
        } else {
            b
        }),
{
    if a.is_some() {
        a
    } else {
        b
    }
}

fn release_rows(inner: &mut EngineInner, status: &str, wire: Wire, usage: Option<u64>) -> (r: (
    Vec<ToolRowUpdate>,
    Vec<(String, OpenTextRow)>,
    Option<TextRow>,
))
    requires
        old(inner).wf(),
        wire == Wire::Connection ==> usage is None,
    ensures
        final(inner).wf(),
        rows_released(*old(inner), *final(inner), wire, usage),
        crate::rows::updates_view(r.0@) == crate::rows::orphan_updates_spec(
            old(inner).tool_rows.entries@,
            status@,
        ),
        r.1@ == (if wire == Wire::Reader {
            seq![]
        } else {
            old(inner).open_texts.entries@
        }),
        r.2 == old(inner).current,
{
    let orphans = inner.tool_rows.drain();
    let tools = orphan_updates(&orphans, status);
    let texts = take_texts(&mut inner.open_texts, wire);
    let current = inner.current.take();
    inner.interrupting = false;
    let tokens: Option<u64> = newer(usage, inner.last_context_tokens);
    inner.last_context_tokens = tokens;
    (tools, texts, current)
}

/// The rows that are still open.
pub struct OpenRows {
    pub tools: Vec<ToolRowUpdate>,
    pub texts: Vec<(String, OpenTextRow)>,
    pub current: Option<TextRow>,
}

/// Take every row that is still open, to close it with a status: a prompt failed,
/// and the reset that follows would drop them.
pub fn take_open_rows(inner: &mut EngineInner, status: &str) -> (r: OpenRows)
    requires
        old(inner).wf(),
    ensures
        final(inner).wf(),
        final(inner).tool_rows.entries@.len() == 0,
        final(inner).open_texts.entries@.len() == 0,
        *final(inner) == (EngineInner {
            tool_rows: final(inner).tool_rows,
            open_texts: final(inner).open_texts,
            current: None,
            ..*old(inner)
        }),
        crate::rows::updates_view(r.tools@) == crate::rows::orphan_updates_spec(
            old(inner).tool_rows.entries@,
            status@,
        ),
        r.texts@ == old(inner).open_texts.entries@,
        r.current == old(inner).current,
{
    let orphans = inner.tool_rows.drain();
    let tools = orphan_updates(&orphans, status);
    let texts = inner.open_texts.drain();
    let current = inner.current.take();
    OpenRows { tools, texts, current }
}

/// The prompt whose end is reported still owns the engine. A stop or a takeover
/// since then has closed its turn already.
pub fn prompt_end_stands(inner: &EngineInner, prompt_epoch: u64) -> (r: bool)
    ensures
        r == (!inner.stopped && inner.reset_epoch == prompt_epoch),
{
    !inner.stopped && inner.reset_epoch == prompt_epoch
}

/// What runs after a turn.
pub struct Advance {
    /// The message that was dequeued.
    pub next: Option<Outgoing>,
    /// The turn it runs as.
    pub turn_id: i32,
    /// Where the engine's resets stood when it was dequeued.
    pub dequeue_epoch: u64,
    pub still_busy: bool,
}

/// The engine goes on to the next message, if there is one.
pub open spec fn advanced(before: EngineInner, after: EngineInner, now: u64, r: Advance) -> bool {
    &&& crate::turn::turn_ended(before.turn, after.turn, r.next)
    &&& after.turn_user_row == crate::streaming::opening_row(r.next)
    &&& crate::text::opt_view(after.current_origin_tag) == crate::streaming::reply_target(r.next)
    &&& after == (EngineInner {
        turn: after.turn,
        turn_user_row: after.turn_user_row,
        current_origin_tag: after.current_origin_tag,
        turn_id: after.turn_id,
        clock: after.clock,
        ..before
    })
    &&& after.turn_id == before.turn_id + (if r.next is Some {
        1int
    } else {
        0
    })
    &&& after.clock == (if after.turn.busy {
        TurnClock { started_millis: now, consumed_marked: false }
    } else {
        before.clock
    })
    &&& r.turn_id == after.turn_id
    &&& r.dequeue_epoch == before.reset_epoch
    &&& r.still_busy == after.turn.busy
}

/// Dequeue what runs next and retarget the bookkeeping to it.
pub fn advance_turn(inner: &mut EngineInner, now: u64) -> (r: Advance)
    requires
        old(inner).turn_id < i32::MAX,
    ensures
        advanced(*old(inner), *final(inner), now, r),
        old(inner).wf() ==> final(inner).wf(),
{
    let next = inner.turn.on_turn_end();
    let ghost ended = inner.turn;
    assert(crate::turn::turn_ended(old(inner).turn, ended, next));
    let (row, tag) = dequeue_target(&next);
    inner.turn_user_row = row;
    inner.current_origin_tag = tag;
    inner.turn_id = following(inner.turn_id, next.is_some());
    let still_busy = inner.turn.busy;
    inner.clock.on_turn_end(still_busy, now);
    assert(inner.turn == ended);
    Advance { next, turn_id: inner.turn_id, dequeue_epoch: inner.reset_epoch, still_busy }
}

fn following(turn_id: i32, goes_on: bool) -> (r: i32)
    requires
        turn_id < i32::MAX,
    ensures
        r == turn_id + (if goes_on {
            1int
        } else {
            0
        }),
{
    if goes_on {
        turn_id + 1
    } else {
        turn_id
    }
}

/// Everything the turn left is written down: go on. The collected uuid belonged to
/// the turn that ended; so did the note that it said something, which only the
/// wires with item rows keep.
pub fn finish_turn_end(inner: &mut EngineInner, wire: Wire, now: u64) -> (r: Advance)
    requires
        old(inner).turn_id < i32::MAX,
    ensures
        advanced(
            (EngineInner {
                last_assistant_uuid: None,
                turn_saw_text: old(inner).turn_saw_text && wire == Wire::Reader,
                ..*old(inner)
            }),
            *final(inner),
            now,
            r,
        ),
        old(inner).wf() ==> final(inner).wf(),
{
    inner.last_assistant_uuid = None;
    inner.turn_saw_text = match wire {
        Wire::Reader => inner.turn_saw_text,
        _ => false,
    };
    advance_turn(inner, now)
}

/// How a surface is shown and persisted after a turn.
pub fn activity_after(still_busy: bool) -> (r: (&'static str, &'static str))
    ensures
        r.0@ == (if still_busy {
            "running"@
        } else {
            "idle"@
        }),
        r.1@ == (if still_busy {
            "busy"@
        } else {
            "idle"@
        }),
{
    if still_busy {
        ("running", "busy")
    } else {
        ("idle", "idle")
    }
}

/// A message that was dequeued may still go out.
pub open spec fn dispatchable(inner: EngineInner, dequeue_epoch: u64) -> bool {
    !inner.stopped && !inner.interrupting && !inner.tearing_down && inner.reset_epoch
        == dequeue_epoch
}

/// Whether a message that was dequeued may still go out: nothing stopped,
/// interrupted, tore down or reset the engine since.
pub fn queued_dispatch_admissible(inner: &EngineInner, dequeue_epoch: u64) -> (r: bool)
    ensures
        r == dispatchable(*inner, dequeue_epoch),
{
    !inner.stopped && !inner.interrupting && !inner.tearing_down && inner.reset_epoch
        == dequeue_epoch
}

/// Whether the dispatch of a dequeued message was overtaken by a stop: the turn is
/// then rolled back and its row closes as interrupted.
pub fn dispatch_overtaken(inner: &EngineInner, dequeue_epoch: u64) -> (r: bool)
    ensures
        r == (inner.stopped || inner.reset_epoch != dequeue_epoch),
{
    inner.stopped || inner.reset_epoch != dequeue_epoch
}

/// The text shown for a process that ended without a single event.
pub const SILENT_EXIT: &'static str =
    "(the agent process exited without producing any output — check the app log)";

/// What the end of a child's output means.
pub enum EofPlan {
    /// A newer process has taken over.
    Stale,
    /// The process of one turn is done. The caller goes on with `advance_turn`.
    TurnOver {
        status: &'static str,
        tools: Vec<ToolRowUpdate>,
        /// The content of an error row, for a turn that died on startup.
        notice: Option<String>,
        current: Option<TextRow>,
    },
    /// The resident process is gone, and the turn with it.
    ResidentGone { status: &'static str, tools: Vec<ToolRowUpdate>, current: Option<TextRow> },
}

/// The child is gone, and with it the rows that waited for it.
pub open spec fn child_gone(before: EngineInner, after: EngineInner) -> bool {
    &&& after.tool_rows.entries@.len() == 0
    &&& after == (EngineInner {
        interrupting: false,
        current: None,
        tool_rows: after.tool_rows,
        child: false,
        child_permit: false,
        ..before
    })
}

/// The turn is forgotten: nothing runs and nothing waits.
pub open spec fn turn_forgotten(before: EngineInner, after: EngineInner) -> bool {
    &&& crate::turn::turn_idle(after.turn)
    &&& !after.turn.quota_exceeded
    &&& after.turn.bus_read_pos is None
    &&& after == (EngineInner {
        turn: after.turn,
        stdin: false,
        clock: TurnClock { started_millis: 0, consumed_marked: false },
        turn_user_row: None,
        ..before
    })
}

/// What the end of a child's output does.
pub open spec fn eof_handled(
    before: EngineInner,
    after: EngineInner,
    generation: u64,
    saw_event: bool,
    r: EofPlan,
) -> bool {
    if before.generation != generation {
        r is Stale && after == before
    } else if crate::engine::spawns_per_turn(before.tool@) {
        let status = end_status(before.interrupting, false);
        &&& child_gone(before, after)
        &&& r is TurnOver
        &&& r->TurnOver_status@ == status
        &&& crate::rows::updates_view(r->TurnOver_tools@) == crate::rows::orphan_updates_spec(
            before.tool_rows.entries@,
            status,
        )
        &&& crate::text::opt_view(r->notice) == (if !saw_event && status == "complete"@ {
            Some(crate::json::json_text(crate::rows::text_row_tree(SILENT_EXIT@, None)))
        } else {
            None
        })
        &&& r->TurnOver_current == before.current
    } else {
        let status = end_status(before.interrupting, true);
        &&& exists|mid: EngineInner|
            child_gone(before, mid) && #[trigger] turn_forgotten(mid, after)
        &&& r is ResidentGone
        &&& r->ResidentGone_status@ == status
        &&& crate::rows::updates_view(r->ResidentGone_tools@) == crate::rows::orphan_updates_spec(
            before.tool_rows.entries@,
            status,
        )
        &&& r->ResidentGone_current == before.current
    }
}

fn lose_child(inner: &mut EngineInner, status: &str) -> (r: (Vec<ToolRowUpdate>, Option<TextRow>))
    requires
        old(inner).wf(),
    ensures
        final(inner).wf(),
        child_gone(*old(inner), *final(inner)),
        crate::rows::updates_view(r.0@) == crate::rows::orphan_updates_spec(
            old(inner).tool_rows.entries@,
            status@,
        ),
        r.1 == old(inner).current,
{
    let orphans = inner.tool_rows.drain();
    let current = inner.current.take();
    inner.interrupting = false;
    inner.child = false;
    inner.child_permit = false;
    (orphan_updates(&orphans, status), current)
}

fn forget_turn(inner: &mut EngineInner)
    ensures
        turn_forgotten(*old(inner), *final(inner)),
        old(inner).wf() ==> final(inner).wf(),
{
    inner.stdin = false;
    inner.turn = TurnState::default();
    inner.clock = TurnClock::default();
    inner.turn_user_row = None;
}

/// The child's output ended. A per-turn process ends every turn this way; for the
/// resident process it means a crash or a kill: history stays, the next message
/// resumes. Its slot goes back here, not at the next spawn, which may never come.
pub fn reader_eof(inner: &mut EngineInner, generation: u64, saw_event: bool) -> (r: EofPlan)
    requires
        old(inner).wf(),
    ensures
        final(inner).wf(),
        eof_handled(*old(inner), *final(inner), generation, saw_event, r),
{
    if inner.generation != generation {
        return EofPlan::Stale;
    }
    if per_turn(inner.tool.as_str()) {
        let status = turn_end_status(inner.interrupting, false);
        let notice = if !saw_event && same(status, "complete") {
            Some(text_row_content(SILENT_EXIT, None))
        } else {
            None
        };
        let (tools, current) = lose_child(inner, status);
        return EofPlan::TurnOver { status, tools, notice, current };
    }
    let status = turn_end_status(inner.interrupting, true);
    let (tools, current) = lose_child(inner, status);
    let ghost mid = *inner;
    forget_turn(inner);
    assert(turn_forgotten(mid, *inner));
    EofPlan::ResidentGone { status, tools, current }
}

/// The row that a lost connection leaves for its turn.
pub enum DisconnectedTurnRow {
    /// The open row closes with what had streamed.
    Finalized { message_id: i32, content: String },
    /// Nothing had streamed: this row says so.
    Inserted { content: String },
}

/// What row a lost connection leaves.
pub open spec fn disconnected_row(
    status: Seq<char>,
    had_busy_turn: bool,
    current: Option<TextRow>,
    r: Option<DisconnectedTurnRow>,
) -> bool {
    match current {
        Some(c) => {
            &&& r is Some
            &&& r->0 is Finalized
            &&& r->0->message_id == c.row
            &&& r->0->Finalized_content@ == crate::json::json_text(
                crate::rows::text_row_tree(c.buf@, None),
            )
        },
        None => if had_busy_turn && terminal_kind(status) is Some {
            &&& r is Some
            &&& r->0 is Inserted
            &&& Some(r->0->Inserted_content@) == terminal_content_spec(status)
        } else {
            r is None
        },
    }
}

/// The row that a lost connection leaves: the open one is frozen as it stands; a
/// running turn with nothing open gets a mark.
pub fn persist_disconnected_turn_row(
    status: &str,
    had_busy_turn: bool,
    current: Option<TextRow>,
) -> (r: Option<DisconnectedTurnRow>)
    ensures
        disconnected_row(status@, had_busy_turn, current, r),
{
    match current {
        Some(c) => Some(
            DisconnectedTurnRow::Finalized {
                message_id: c.row,
                content: text_row_content(c.buf.as_str(), None),
            },
        ),
        None => if had_busy_turn {
            match terminal_content(status) {
                Some(content) => Some(DisconnectedTurnRow::Inserted { content }),
                None => None,
            }
        } else {
            None
        },
    }
}

/// What a lost connection leaves to be written down.
pub struct Disconnect {
    pub status: String,
    pub turn_id: i32,
    /// Item rows to freeze as they stand.
    pub texts: Vec<(String, OpenTextRow)>,
    pub row: Option<DisconnectedTurnRow>,
    pub tools: Vec<ToolRowUpdate>,
    /// The rows that waited in the queue.
    pub drained: Vec<i32>,
}

/// Nothing runs, waits or streams.
pub open spec fn at_rest(inner: EngineInner) -> bool {
    !inner.turn.busy && inner.current is None && inner.open_texts.entries@.len() == 0
        && inner.turn.queue@.len() == 0 && inner.tool_rows.entries@.len() == 0
}

/// A lost connection stops the engine for good: only the human starts it again,
/// and whatever was on its way dies with it.
pub open spec fn disconnected(before: EngineInner, after: EngineInner) -> bool {
    &&& crate::turn::turn_idle(after.turn)
    &&& !after.turn.quota_exceeded
    &&& after.turn.bus_read_pos is None
    &&& after.open_texts.entries@.len() == 0
    &&& after.tool_rows.entries@.len() == 0
    &&& after == (EngineInner {
        turn: after.turn,
        open_texts: after.open_texts,
        tool_rows: after.tool_rows,
        current: None,
        turn_saw_text: false,
        interrupting: false,
        child: false,
        child_permit: false,
        stdin: false,
        clock: TurnClock { started_millis: 0, consumed_marked: false },
        current_origin_tag: None,
        turn_user_row: None,
        stopped: true,
        reset_epoch: (before.reset_epoch + 1) as u64,
        ..before
    })
}

/// What a lost connection leaves, in full.
pub open spec fn disconnect_of(before: EngineInner, fallback: Seq<char>, r: Disconnect) -> bool {
    let status = if before.interrupting {
        "interrupted"@
    } else {
        fallback
    };
    &&& r.status@ == status
    &&& r.turn_id == before.turn_id
    &&& r.texts@ == before.open_texts.entries@
    &&& disconnected_row(
        status,
        before.turn.busy && before.open_texts.entries@.len() == 0 && !before.turn_saw_text,
        before.current,
        r.row,
    )
    &&& crate::rows::updates_view(r.tools@) == crate::rows::orphan_updates_spec(
        before.tool_rows.entries@,
        status,
    )
    &&& r.drained@ == crate::turn::tracked_ids(before.turn.queue@)
}

/// What the engine held when the connection was lost.
struct Held {
    current: Option<TextRow>,
    texts: Vec<(String, OpenTextRow)>,
    tools: Vec<(String, crate::engine::ToolRow)>,
    drained: Vec<i32>,
}

fn stop_disconnected(inner: &mut EngineInner) -> (r: Held)
    requires
        old(inner).wf(),
        old(inner).reset_epoch < u64::MAX,
    ensures
        final(inner).wf(),
        disconnected(*old(inner), *final(inner)),
        r.current == old(inner).current,
        r.texts@ == old(inner).open_texts.entries@,
        r.tools@ == old(inner).tool_rows.entries@,
        r.drained@ == crate::turn::tracked_ids(old(inner).turn.queue@),
{
    let drained = collect_ids(&inner.turn.queue);
    let current = inner.current.take();
    let texts = inner.open_texts.drain();
    let tools = inner.tool_rows.drain();
    inner.turn_saw_text = false;
    inner.interrupting = false;
    inner.child = false;
    inner.child_permit = false;
    inner.stdin = false;
    inner.turn = TurnState::default();
    inner.clock = TurnClock::default();
    inner.current_origin_tag = None;
    inner.turn_user_row = None;
    inner.stopped = true;
    inner.reset_epoch = inner.reset_epoch + 1;
    Held { current, texts, tools, drained }
}

/// The connection is lost. An engine at rest does not notice; any other one is
/// stopped, and exactly the rows it held are handed out.
pub fn cleanup_disconnected_turn(inner: &mut EngineInner, fallback_status: &str) -> (r: Option<
    Disconnect,
>)
    requires
        old(inner).wf(),
        old(inner).reset_epoch < u64::MAX,
    ensures
        final(inner).wf(),
        r is None == at_rest(*old(inner)),
        r is None ==> *final(inner) == *old(inner),
        r is Some ==> disconnected(*old(inner), *final(inner)) && disconnect_of(
            *old(inner),
            fallback_status@,
            r->0,
        ),
{
    if !inner.turn.busy && inner.current.is_none() && inner.open_texts.entries.len() == 0
        && inner.turn.queue.len() == 0 && inner.tool_rows.entries.len() == 0 {
        return None;
    }
    let status = if inner.interrupting {
        "interrupted"
    } else {
        fallback_status
    };
    let mute = inner.turn.busy && inner.open_texts.entries.len() == 0 && !inner.turn_saw_text;
    let turn_id: i32 = inner.turn_id;
    let held = stop_disconnected(inner);
    let row = persist_disconnected_turn_row(status, mute, held.current);
    let tools = orphan_updates(&held.tools, status);
    Some(
        Disconnect {
            status: status.to_owned(),
            turn_id,
            texts: held.texts,
            row,
            tools,
            drained: held.drained,
        },
    )
}

/// An engine with nothing left to do points at no row and at no reply target: what
/// it does later is not put down to a turn that is over.
pub proof fn law_idle_engine_points_nowhere(
    before: EngineInner,
    after: EngineInner,
    now: u64,
    r: Advance,
)
    requires
        advanced(before, after, now, r),
        before.turn.queue@.len() == 0,
        before.turn.bus_read_pos is None,
    ensures
        r.next is None,
        !after.turn.busy,
        after.turn_user_row is None,
        after.current_origin_tag is None,
        after.turn_id == before.turn_id,
{
}

/// A hidden turn leaves no anchor: its marker is no user row.
pub proof fn law_hidden_turn_leaves_no_anchor(
    status: Seq<char>,
    delivery: i32,
    anchor: Option<Seq<char>>,
)
    requires
        delivery > 0,
    ensures
        anchor_left(status, crate::engine::hidden_marker(Some(delivery)), anchor) is None,
{
}

/// A turn that was cut off or failed leaves no anchor: the last completed turn's
/// stands.
pub proof fn law_only_complete_turns_leave_anchors(
    interrupting: bool,
    is_error: bool,
    row: Option<i32>,
    anchor: Option<Seq<char>>,
)
    requires
        interrupting || is_error,
    ensures
        anchor_left(end_status(interrupting, is_error), row, anchor) is None,
{
    reveal_strlit("interrupted");
    reveal_strlit("error");
    reveal_strlit("complete");
    assert("interrupted"@.len() == 11);
    assert("error"@.len() == 5);
    assert("complete"@.len() == 8);
}

} // verus!
