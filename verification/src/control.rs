//! What the human does to a running engine: edit its queue, interrupt it, stop it.

use vstd::prelude::*;

use crate::engine::{is_acp_tool, EngineInner, OpenTextRow, TextRow, ToolRow, TurnClock};
use crate::json::{put, Json, JsonEntry, JsonView};
use crate::keyed::Keyed;
use crate::text::{opt_clone, same, trim};
use crate::turn::{collect_ids, Outgoing, TurnState};
use crate::turn_end::{persist_disconnected_turn_row, DisconnectedTurnRow};

verus! {

/// Take a message out of the queue. One that was delivered already is none of the
/// queue's business.
pub fn queue_remove(inner: &mut EngineInner, message_id: i32) -> (r: bool)
    ensures
        crate::turn::removed(old(inner).turn, final(inner).turn, message_id, r),
        *final(inner) == (EngineInner { turn: final(inner).turn, ..*old(inner) }),
{
    inner.turn.remove(message_id)
}

/// Why a change of the queue was refused.
#[derive(Debug, PartialEq, Eq, Structural, Clone, Copy)]
pub enum QueueError {
    /// The new text is blank.
    Empty,
    /// The message carries attachments.
    NotEditable,
    /// The order is no rearrangement of the queue, or a wake waits in it.
    BadOrder,
}

impl QueueError {
    /// The wire name of the error.
    pub fn code(&self) -> (r: &'static str)
        ensures
            r@ == (match *self {
                QueueError::Empty => "empty"@,
                QueueError::NotEditable => "not_editable"@,
                QueueError::BadOrder => "bad_order"@,
            }),
    {
        match self {
            QueueError::Empty => "empty",
            QueueError::NotEditable => "not_editable",
            QueueError::BadOrder => "bad_order",
        }
    }
}

/// A queued message of that id carries attachments.
pub open spec fn carries_attachments(q: Seq<Outgoing>, id: i32) -> bool {
    exists|i: int|
        0 <= i < q.len() && (#[trigger] q[i]).queue_id == Some(id) && q[i].has_attachments
}

fn has_attached(turn: &TurnState, id: i32) -> (r: bool)
    ensures
        r == carries_attachments(turn.queue@, id),
{
    let mut i: usize = 0;
    while i < turn.queue.len()
        invariant
            i <= turn.queue@.len(),
            forall|j: int|
                0 <= j < i ==> !((#[trigger] turn.queue@[j]).queue_id == Some(id)
                    && turn.queue@[j].has_attachments),
        decreases turn.queue@.len() - i,
    {
        match turn.queue[i].queue_id {
            Some(q) => {
                if q == id && turn.queue[i].has_attachments {
                    assert(turn.queue@[i as int].queue_id == Some(id));
                    return true;
                }
            },
            None => {},
        }
        i = i + 1;
    }
    false
}

/// Change the text of a queued message. `Ok(false)` = it is not in the queue any
/// more. Rows with attachments are refused: their chips live in the same content.
pub fn queue_edit(inner: &mut EngineInner, message_id: i32, text: &str) -> (r: Result<
    bool,
    QueueError,
>)
    ensures
        *final(inner) == (EngineInner { turn: final(inner).turn, ..*old(inner) }),
        if crate::text::trimmed(text@).len() == 0 {
            r == Err::<bool, QueueError>(QueueError::Empty) && final(inner).turn == old(inner).turn
        } else if carries_attachments(old(inner).turn.queue@, message_id) {
            r == Err::<bool, QueueError>(QueueError::NotEditable) && final(inner).turn == old(
                inner,
            ).turn
        } else {
            r is Ok && crate::turn::text_changed(
                old(inner).turn,
                final(inner).turn,
                message_id,
                text@,
                r->Ok_0,
            )
        },
{
    if trim(text).is_empty() {
        return Err(QueueError::Empty);
    }
    if has_attached(&inner.turn, message_id) {
        return Err(QueueError::NotEditable);
    }
    Ok(inner.turn.edit(message_id, text))
}

/// The row of an edited message: the new text, beside whatever else stood there.
pub open spec fn edited_tree(doc: JsonView, text: Seq<char>) -> JsonView {
    match doc {
        JsonView::Obj(m) => JsonView::Obj(m.insert("text"@, JsonView::Str(text))),
        _ => JsonView::Obj(map!["text"@ => JsonView::Str(text)]),
    }
}

/// The row of a message that has none to be edited.
pub open spec fn plain_tree(text: Seq<char>) -> JsonView {
    JsonView::Obj(
        map![
            "text"@ => JsonView::Str(text),
            "images"@ => JsonView::Arr(seq![]),
            "files"@ => JsonView::Arr(seq![]),
        ],
    )
}

/// Replace the text in a row's document, keeping images and files.
pub fn edited_document(doc: &Json, text: &str) -> (r: Json)
    requires
        doc@ is Obj || doc@ is Null,
    ensures
        r@ == edited_tree(doc@, text@),
{
    match doc {
        Json::Obj(entries) => {
            let copy = doc.copy();
            match copy {
                Json::Obj(members) => {
                    let mut m = members;
                    put(&mut m, "text", Json::Str(text.to_owned()));
                    Json::Obj(m)
                },
                _ => Json::Null,
            }
        },
        _ => {
            let mut m: Vec<JsonEntry> = Vec::new();
            put(&mut m, "text", Json::Str(text.to_owned()));
            let r = Json::Obj(m);
            assert(r@->Obj_0 =~= map!["text"@ => JsonView::Str(text@)]);
            r
        },
    }
}

/// What the content of an edited row is made from: the document that stands in it,
/// or an empty one where that cannot be read.
pub open spec fn stored_document(content: Seq<char>) -> JsonView {
    match crate::json::parsed(content) {
        Some(v) => v,
        None => JsonView::Obj(map![]),
    }
}

/// The content of an edited row. `content` is what stands in the row, if there is
/// one. `None` = the row holds a document that has no room for a text.
pub fn edited_content(content: Option<&str>, text: &str) -> (r: Option<String>)
    ensures
        match content {
            None => crate::text::opt_view(r) == Some(crate::json::json_text(plain_tree(text@))),
            Some(c) => {
                let doc = stored_document(c@);
                crate::text::opt_view(r) == (if doc is Obj || doc is Null {
                    Some(crate::json::json_text(edited_tree(doc, text@)))
                } else {
                    None
                })
            },
        },
{
    match content {
        None => {
            let mut m: Vec<JsonEntry> = Vec::new();
            put(&mut m, "text", Json::Str(text.to_owned()));
            put(&mut m, "images", Json::Arr(Vec::new()));
            put(&mut m, "files", Json::Arr(Vec::new()));
            let doc = Json::Obj(m);
            assert(doc@->Obj_0 =~= plain_tree(text@)->Obj_0);
            Some(doc.print())
        },
        Some(c) => {
            let doc = match Json::parse(c) {
                Some(v) => v,
                None => Json::Obj(Vec::new()),
            };
            assert(doc@ == stored_document(c@)) by {
                if crate::json::parsed(c@) is None {
                    assert(doc@->Obj_0 =~= map![]);
                }
            }
            let fits = match &doc {
                Json::Obj(_) => true,
                Json::Null => true,
                _ => false,
            };
            if fits {
                Some(edited_document(&doc, text).print())
            } else {
                None
            }
        },
    }
}

/// Rearrange the queue. The caller shows the queue again even when this is refused,
/// so that a drag which was not accepted snaps back.
pub fn queue_reorder(inner: &mut EngineInner, order: &[i32]) -> (r: Result<(), QueueError>)
    ensures
        *final(inner) == (EngineInner { turn: final(inner).turn, ..*old(inner) }),
        crate::turn::reordered(old(inner).turn, final(inner).turn, order@, r is Ok),
        r is Err ==> r->Err_0 == QueueError::BadOrder,
{
    if inner.turn.reorder(order) {
        Ok(())
    } else {
        Err(QueueError::BadOrder)
    }
}

/// How a turn is to be interrupted.
pub enum InterruptPlan {
    /// No turn runs.
    Idle,
    /// Over the app-server; where no turn is live there, the child is killed.
    AppServer { thread: Option<String>, connected: bool },
    /// Cancel the session's prompt and withdraw these cards; if the same turn still
    /// runs after a grace period, it is reset by force.
    Connection {
        session: Option<String>,
        connected: bool,
        asks: Vec<u64>,
        turn_id: i32,
        epoch: u64,
    },
    /// Kill the process of this turn.
    KillChild,
    /// Ask the resident process, and kill it if that does not help in time.
    Ask { generation: u64 },
}

/// What an interrupt does.
pub open spec fn interrupt_planned(
    before: EngineInner,
    after: EngineInner,
    appserver: bool,
    by_protocol: bool,
    r: InterruptPlan,
) -> bool {
    if !before.turn.busy {
        after == before && r is Idle
    } else if before.tool@ == "codex"@ && appserver {
        &&& after == (EngineInner { interrupting: true, ..before })
        &&& r is AppServer
        &&& crate::text::opt_view(r->thread) == crate::text::opt_view(before.native_id)
        &&& r->AppServer_connected == before.codex_client
    } else if crate::engine::connection_tool(before.tool@) {
        &&& after.acp_pending_asks@.len() == 0
        &&& after == (EngineInner {
            interrupting: true,
            acp_pending_asks: after.acp_pending_asks,
            ..before
        })
        &&& r is Connection
        &&& crate::text::opt_view(r->session) == crate::text::opt_view(before.native_id)
        &&& r->Connection_connected == before.acp_client
        &&& r->asks@ == before.acp_pending_asks@
        &&& r->turn_id == before.turn_id
        &&& r->epoch == before.reset_epoch
    } else {
        &&& after == (EngineInner { interrupting: true, ..before })
        &&& if by_protocol {
            r is Ask && r->generation == before.generation
        } else {
            r is KillChild
        }
    }
}

/// Interrupt the running turn. The flag alone already keeps a turn from being
/// launched that has nothing to interrupt yet. `by_protocol` is whether the tool's
/// process can be asked to stop.
pub fn interrupt(inner: &mut EngineInner, appserver: bool, by_protocol: bool) -> (r: InterruptPlan)
    ensures
        interrupt_planned(*old(inner), *final(inner), appserver, by_protocol, r),
{
    if !inner.turn.busy {
        return InterruptPlan::Idle;
    }
    let over_server = same(inner.tool.as_str(), "codex") && appserver;
    if !over_server && is_acp_tool(inner.tool.as_str()) {
        return interrupt_prompt(inner);
    }
    let plan = if over_server {
        InterruptPlan::AppServer {
            thread: opt_clone(&inner.native_id),
            connected: inner.codex_client,
        }
    } else if by_protocol {
        InterruptPlan::Ask { generation: inner.generation }
    } else {
        InterruptPlan::KillChild
    };
    inner.interrupting = true;
    plan
}

fn interrupt_prompt(inner: &mut EngineInner) -> (r: InterruptPlan)
    ensures
        final(inner).acp_pending_asks@.len() == 0,
        *final(inner) == (EngineInner {
            interrupting: true,
            acp_pending_asks: final(inner).acp_pending_asks,
            ..*old(inner)
        }),
        r is Connection,
        crate::text::opt_view(r->session) == crate::text::opt_view(old(inner).native_id),
        r->Connection_connected == old(inner).acp_client,
        r->asks@ == old(inner).acp_pending_asks@,
        r->turn_id == old(inner).turn_id,
        r->epoch == old(inner).reset_epoch,
{
    let mut asks: Vec<u64> = Vec::new();
    std::mem::swap(&mut asks, &mut inner.acp_pending_asks);
    inner.interrupting = true;
    InterruptPlan::Connection {
        session: opt_clone(&inner.native_id),
        connected: inner.acp_client,
        asks,
        turn_id: inner.turn_id,
        epoch: inner.reset_epoch,
    }
}

/// Whether a resident process that was asked to stop is killed now: only while the
/// same process still runs a turn.
pub fn kill_is_due(inner: &EngineInner, generation: u64) -> (r: bool)
    ensures
        r == (inner.generation == generation && inner.turn.busy),
{
    inner.generation == generation && inner.turn.busy
}

/// What a turn that ignored its cancellation left behind.
pub struct CancelledTurnDrain {
    pub current: Option<TextRow>,
    pub orphan_texts: Vec<(String, OpenTextRow)>,
    pub orphan_tools: Vec<(String, ToolRow)>,
    pub drained_queue: Vec<i32>,
    pub turn_saw_text: bool,
}

/// What such a turn leaves, in full.
pub open spec fn drain_of(before: EngineInner, r: CancelledTurnDrain) -> bool {
    &&& r.current == before.current
    &&& r.orphan_texts@ == before.open_texts.entries@
    &&& r.orphan_tools@ == before.tool_rows.entries@
    &&& r.drained_queue@ == crate::turn::tracked_ids(before.turn.queue@)
    &&& r.turn_saw_text == before.turn_saw_text
}

/// The turn is gone, and so is the process it ran on.
pub open spec fn turn_abandoned(before: EngineInner, after: EngineInner) -> bool {
    &&& crate::turn::turn_idle(after.turn)
    &&& !after.turn.quota_exceeded
    &&& after.turn.bus_read_pos is None
    &&& after.open_texts.entries@.len() == 0
    &&& after.tool_rows.entries@.len() == 0
    &&& after == (EngineInner {
        turn: after.turn,
        open_texts: after.open_texts,
        tool_rows: after.tool_rows,
        current: None,
        clock: TurnClock { started_millis: 0, consumed_marked: false },
        turn_user_row: None,
        turn_saw_text: false,
        interrupting: false,
        current_origin_tag: None,
        child: false,
        child_permit: false,
        stdin: false,
        ..before
    })
}

/// Abandon a turn that ignored its cancellation. A newer turn, or one that ended
/// after all, is left alone: only the owner of the turn may give its slot back.
pub fn reset_ignored_cancel_turn(inner: &mut EngineInner, turn_id: i32) -> (r: Option<
    CancelledTurnDrain,
>)
    requires
        old(inner).wf(),
    ensures
        final(inner).wf(),
        r is Some == (old(inner).turn_id == turn_id && old(inner).turn.busy),
        r is None ==> *final(inner) == *old(inner),
        r is Some ==> turn_abandoned(*old(inner), *final(inner)) && drain_of(*old(inner), r->0),
{
    if inner.turn_id != turn_id || !inner.turn.busy {
        return None;
    }
    Some(abandon_turn(inner))
}

fn abandon_turn(inner: &mut EngineInner) -> (r: CancelledTurnDrain)
    requires
        old(inner).wf(),
    ensures
        final(inner).wf(),
        turn_abandoned(*old(inner), *final(inner)),
        drain_of(*old(inner), r),
{
    let drained_queue = collect_ids(&inner.turn.queue);
    let current = inner.current.take();
    let orphan_texts = inner.open_texts.drain();
    let orphan_tools = inner.tool_rows.drain();
    let turn_saw_text = inner.turn_saw_text;
    inner.turn = TurnState::default();
    inner.clock = TurnClock::default();
    inner.turn_user_row = None;
    inner.turn_saw_text = false;
    inner.interrupting = false;
    inner.current_origin_tag = None;
    inner.child = false;
    inner.child_permit = false;
    inner.stdin = false;
    CancelledTurnDrain { current, orphan_texts, orphan_tools, drained_queue, turn_saw_text }
}

/// A turn that was reset by force.
pub struct ForcedReset {
    /// The session to cancel and to leave, where one was connected.
    pub session: Option<String>,
    pub connected: bool,
    pub drain: CancelledTurnDrain,
}

/// The resets after one more; there is no more than the largest number.
pub open spec fn bumped(epoch: u64) -> u64 {
    if epoch < u64::MAX {
        (epoch + 1) as u64
    } else {
        epoch
    }
}

/// The turn is the one whose cancellation was ignored.
pub open spec fn still_wedged(inner: EngineInner, turn_id: i32, epoch: u64) -> bool {
    inner.turn.busy && inner.turn_id == turn_id && inner.reset_epoch == epoch
        && crate::engine::connection_tool(inner.tool@)
}

/// Reset a turn on the connection backend whose cancellation was ignored. The
/// session id goes too: resuming it would meet the prompt that still runs there.
/// Until `reset_done`, the engine admits nothing.
pub fn force_acp_turn_reset(inner: &mut EngineInner, turn_id: i32, epoch_at_arm: u64) -> (r:
    Option<ForcedReset>)
    requires
        old(inner).wf(),
    ensures
        final(inner).wf(),
        r is Some == still_wedged(*old(inner), turn_id, epoch_at_arm),
        r is None ==> *final(inner) == *old(inner),
        r is Some ==> {
            &&& turn_abandoned(
                (EngineInner {
                    native_id: None,
                    acp_client: false,
                    reset_epoch: bumped(old(inner).reset_epoch),
                    tearing_down: true,
                    ..*old(inner)
                }),
                *final(inner),
            )
            &&& drain_of(*old(inner), r->0.drain)
            &&& r->0.session == old(inner).native_id
            &&& r->0.connected == old(inner).acp_client
        },
{
    if !inner.turn.busy || inner.turn_id != turn_id || inner.reset_epoch != epoch_at_arm
        || !is_acp_tool(inner.tool.as_str()) {
        return None;
    }
    let connected = inner.acp_client;
    let session = inner.native_id.take();
    inner.acp_client = false;
    inner.reset_epoch = bump(inner.reset_epoch);
    inner.tearing_down = true;
    let drain = abandon_turn(inner);
    Some(ForcedReset { session, connected, drain })
}

fn bump(epoch: u64) -> (r: u64)
    ensures
        r == bumped(epoch),
{
    if epoch < u64::MAX {
        epoch + 1
    } else {
        epoch
    }
}

/// The row that a turn reset by force leaves: it counts as one that was running.
pub fn forced_reset_row(
    current: Option<TextRow>,
    open_texts: usize,
    turn_saw_text: bool,
) -> (r: Option<DisconnectedTurnRow>)
    ensures
        crate::turn_end::disconnected_row(
            "interrupted"@,
            open_texts == 0 && !turn_saw_text,
            current,
            r,
        ),
{
    persist_disconnected_turn_row("interrupted", open_texts == 0 && !turn_saw_text, current)
}

/// The teardown is complete: the engine may take work again.
pub fn reset_done(inner: &mut EngineInner)
    ensures
        *final(inner) == (EngineInner { tearing_down: false, ..*old(inner) }),
{
    inner.tearing_down = false;
}

/// What of the connection backend a teardown must release.
pub struct AcpTeardown {
    pub connected: bool,
    pub session_id: Option<String>,
    pub asks: Vec<u64>,
}

/// What of the connection backend the engine lets go.
pub open spec fn connection_released(
    before: EngineInner,
    after: EngineInner,
    r: AcpTeardown,
) -> bool {
    &&& r.connected == before.acp_client
    &&& crate::text::opt_view(r.session_id) == crate::text::opt_view(before.native_id)
    &&& r.asks@ == before.acp_pending_asks@
    &&& after.acp_pending_asks@.len() == 0
    &&& after == (EngineInner {
        acp_client: false,
        acp_pending_asks: after.acp_pending_asks,
        reset_epoch: (before.reset_epoch + 1) as u64,
        ..before
    })
}

/// Take what a teardown must release, and invalidate everything that was reserved
/// before it, in one step: a prompt that returns in between no longer owns the
/// engine.
pub fn take_acp_teardown_and_invalidate(inner: &mut EngineInner) -> (r: AcpTeardown)
    requires
        old(inner).reset_epoch < u64::MAX,
    ensures
        connection_released(*old(inner), *final(inner), r),
        old(inner).wf() ==> final(inner).wf(),
{
    let connected = inner.acp_client;
    let session_id = opt_clone(&inner.native_id);
    let mut asks: Vec<u64> = Vec::new();
    std::mem::swap(&mut asks, &mut inner.acp_pending_asks);
    inner.acp_client = false;
    inner.reset_epoch = inner.reset_epoch + 1;
    AcpTeardown { connected, session_id, asks }
}

/// A text row that was still open, with what had streamed into it.
pub struct OpenText {
    pub row: i32,
    pub text: String,
    pub agent_thread: Option<String>,
}

/// An open text row, as plain values.
pub struct OpenTextView {
    pub row: i32,
    pub text: Seq<char>,
    pub agent_thread: Option<Seq<char>>,
}

impl View for OpenText {
    type V = OpenTextView;

    open spec fn view(&self) -> OpenTextView {
        OpenTextView {
            row: self.row,
            text: self.text@,
            agent_thread: crate::text::opt_view(self.agent_thread),
        }
    }
}

pub open spec fn open_texts_view(v: Seq<OpenText>) -> Seq<OpenTextView> {
    v.map_values(|t: OpenText| t@)
}

/// The texts still open: the anonymous one first, then those of the items.
pub open spec fn texts_left(
    current: Option<TextRow>,
    items: Seq<(String, OpenTextRow)>,
) -> Seq<OpenTextView> {
    let first = match current {
        Some(c) => seq![OpenTextView { row: c.row, text: c.buf@, agent_thread: None }],
        None => seq![],
    };
    first + items.map_values(
        |e: (String, OpenTextRow)|
            OpenTextView {
                row: e.1.row,
                text: e.1.buf@,
                agent_thread: crate::text::opt_view(e.1.agent_thread),
            },
    )
}

fn gather_texts(current: Option<TextRow>, items: &Vec<(String, OpenTextRow)>) -> (r: Vec<OpenText>)
    ensures
        open_texts_view(r@) == texts_left(current, items@),
{
    let mut out: Vec<OpenText> = Vec::new();
    match current {
        Some(c) => {
            out.push(OpenText { row: c.row, text: c.buf, agent_thread: None });
        },
        None => {},
    }
    assert(open_texts_view(out@) =~= texts_left(current, items@.take(0)));
    let mut i: usize = 0;
    while i < items.len()
        invariant
            i <= items@.len(),
            open_texts_view(out@) == texts_left(current, items@.take(i as int)),
        decreases items@.len() - i,
    {
        let t = OpenText {
            row: items[i].1.row,
            text: items[i].1.buf.clone(),
            agent_thread: opt_clone(&items[i].1.agent_thread),
        };
        proof {
            assert(open_texts_view(out@.push(t)) =~= open_texts_view(out@).push(t@));
            assert(texts_left(current, items@.take(i + 1)) =~= texts_left(
                current,
                items@.take(i as int),
            ).push(t@));
        }
        out.push(t);
        i = i + 1;
    }
    assert(items@.take(items@.len() as int) =~= items@);
    out
}

/// What a stop tore down and leaves to its caller.
pub struct StopQuietOutcome {
    pub thread_id: i32,
    pub session_id: Option<i32>,
    /// Text rows to close.
    pub texts: Vec<OpenText>,
    /// Tool rows to close.
    pub orphans: Vec<(String, ToolRow)>,
    /// Permission cards to withdraw.
    pub acp_asks: Vec<u64>,
    /// Whether a turn was cut short.
    pub was_busy: bool,
}

/// A stop in progress: what it leaves, and what it must release outside.
pub struct StopStart {
    pub outcome: StopQuietOutcome,
    /// The session on the connection backend to cancel and to leave.
    pub session: Option<String>,
    pub connected: bool,
    /// An app-server connection to shut down.
    pub app_server: bool,
    /// A child to kill.
    pub child: bool,
}

/// The engine while a stop is in progress: nothing reserved before it counts any
/// more, and nothing new is admitted.
pub open spec fn stop_begun(before: EngineInner, after: EngineInner) -> bool {
    &&& after.open_texts.entries@.len() == 0
    &&& after.tool_rows.entries@.len() == 0
    &&& after.acp_pending_asks@.len() == 0
    &&& after == (EngineInner {
        open_texts: after.open_texts,
        tool_rows: after.tool_rows,
        acp_pending_asks: after.acp_pending_asks,
        current: None,
        generation: (before.generation + 1) as u64,
        codex_client: false,
        acp_client: false,
        reset_epoch: (before.reset_epoch + 1) as u64,
        tearing_down: true,
        ..before
    })
}

/// What a stop leaves, in full.
pub open spec fn stop_outcome(before: EngineInner, r: StopStart) -> bool {
    &&& r.outcome.thread_id == before.thread_id
    &&& r.outcome.session_id == before.session_id
    &&& open_texts_view(r.outcome.texts@) == texts_left(before.current, before.open_texts.entries@)
    &&& r.outcome.orphans@ == before.tool_rows.entries@
    &&& r.outcome.acp_asks@ == before.acp_pending_asks@
    &&& r.outcome.was_busy == before.turn.busy
    &&& crate::text::opt_view(r.session) == crate::text::opt_view(before.native_id)
    &&& r.connected == before.acp_client
    &&& r.app_server == before.codex_client
    &&& r.child == before.child
}

fn take_rows(
    current: &mut Option<TextRow>,
    texts: &mut Keyed<OpenTextRow>,
    tools: &mut Keyed<ToolRow>,
) -> (r: (Vec<OpenText>, Vec<(String, ToolRow)>))
    ensures
        *final(current) is None,
        final(texts).entries@.len() == 0,
        final(tools).entries@.len() == 0,
        final(texts).wf(),
        final(tools).wf(),
        open_texts_view(r.0@) == texts_left(*old(current), old(texts).entries@),
        r.1@ == old(tools).entries@,
{
    let slot = current.take();
    let items = texts.drain();
    let orphans = tools.drain();
    (gather_texts(slot, &items), orphans)
}

/// Begin a stop: take everything the turn left open, orphan the reader, and let
/// nothing in until `finish_stop`. What is taken is released by the caller, and
/// nothing of the rows is written before the stop is visible.
pub fn begin_stop(inner: &mut EngineInner) -> (r: StopStart)
    requires
        old(inner).wf(),
        old(inner).generation < u64::MAX,
        old(inner).reset_epoch < u64::MAX,
    ensures
        final(inner).wf(),
        stop_begun(*old(inner), *final(inner)),
        stop_outcome(*old(inner), r),
{
    let (texts, orphans) = take_rows(
        &mut inner.current,
        &mut inner.open_texts,
        &mut inner.tool_rows,
    );
    let mut asks: Vec<u64> = Vec::new();
    std::mem::swap(&mut asks, &mut inner.acp_pending_asks);
    let connected = inner.acp_client;
    let app_server = inner.codex_client;
    inner.generation = inner.generation + 1;
    inner.codex_client = false;
    inner.acp_client = false;
    inner.reset_epoch = inner.reset_epoch + 1;
    inner.tearing_down = true;
    StopStart {
        outcome: StopQuietOutcome {
            thread_id: inner.thread_id,
            session_id: inner.session_id,
            texts,
            orphans,
            acp_asks: asks,
            was_busy: inner.turn.busy,
        },
        session: opt_clone(&inner.native_id),
        connected,
        app_server,
        child: inner.child,
    }
}

/// The engine after a stop: idle, with no process and no slot.
pub open spec fn stop_finished(before: EngineInner, after: EngineInner) -> bool {
    &&& crate::turn::turn_idle(after.turn)
    &&& !after.turn.quota_exceeded
    &&& after.turn.bus_read_pos is None
    &&& after == (EngineInner {
        turn: after.turn,
        child: false,
        child_permit: false,
        stdin: false,
        clock: TurnClock { started_millis: 0, consumed_marked: false },
        turn_user_row: None,
        turn_saw_text: false,
        tearing_down: false,
        ..before
    })
}

/// Finish a stop. The slot goes back here, not at the next spawn.
pub fn finish_stop(inner: &mut EngineInner)
    ensures
        stop_finished(*old(inner), *final(inner)),
        old(inner).wf() ==> final(inner).wf(),
{
    inner.child = false;
    inner.child_permit = false;
    inner.stdin = false;
    inner.turn = TurnState::default();
    inner.clock = TurnClock::default();
    inner.turn_user_row = None;
    inner.turn_saw_text = false;
    inner.tearing_down = false;
}

/// The stop was meant: hidden plumbing must not bring the engine back.
pub fn mark_stopped(inner: &mut EngineInner)
    ensures
        *final(inner) == (EngineInner { stopped: true, ..*old(inner) }),
{
    inner.stopped = true;
}

/// Whether a teardown for a switch cut anything short: a turn, an open row or a
/// queued message.
pub fn switch_interrupted(outcome: &StopQuietOutcome, drained_queue: usize) -> (r: bool)
    ensures
        r == (outcome.was_busy || outcome.texts@.len() > 0 || outcome.orphans@.len() > 0
            || drained_queue > 0),
{
    outcome.was_busy || outcome.texts.len() > 0 || outcome.orphans.len() > 0 || drained_queue > 0
}

/// A stop, from beginning to end.
pub open spec fn stopped_engine(before: EngineInner, after: EngineInner) -> bool {
    exists|mid: EngineInner| stop_begun(before, mid) && #[trigger] stop_finished(mid, after)
}

/// No message that was reserved before a stop is committed after it, not even when
/// the engine was started again in between.
pub proof fn law_stop_outdates_reservations(
    before: EngineInner,
    after: EngineInner,
    ctx: crate::sending::SendContext,
)
    requires
        before.reset_epoch < u64::MAX,
        ctx.reset_epoch == before.reset_epoch,
        stopped_engine(before, after),
    ensures
        !crate::sending::reservation_stands(after, ctx),
        !crate::sending::reservation_stands((EngineInner { stopped: false, ..after }), ctx),
{
}

/// While a stop is in progress no message is committed, whenever it was reserved.
pub proof fn law_nothing_enters_during_a_stop(
    before: EngineInner,
    mid: EngineInner,
    ctx: crate::sending::SendContext,
)
    requires
        stop_begun(before, mid),
    ensures
        !crate::sending::reservation_stands(mid, ctx),
{
}

/// A stop gives back the process slot and leaves no turn, no open row and no wake
/// behind, whatever the engine was doing.
pub proof fn law_stop_leaves_nothing(before: EngineInner, after: EngineInner)
    requires
        stopped_engine(before, after),
    ensures
        crate::turn_end::at_rest(after),
        after.turn.bus_read_pos is None,
        !after.child && !after.child_permit && !after.stdin,
        !after.codex_client && !after.acp_client,
        after.acp_pending_asks@.len() == 0,
        !after.tearing_down,
{
}

/// A slot is held only for a process that is held.
pub open spec fn slot_follows_child(inner: EngineInner) -> bool {
    inner.child_permit ==> inner.child
}

/// Something happened to the engine's process: it was spawned, it ended or was
/// dropped, its slot went back, or its turn was rolled back, reset, cut off or stopped.
pub open spec fn process_step(before: EngineInner, after: EngineInner) -> bool {
    ||| exists|permit: bool| #[trigger] crate::spawning::resident_started(before, after, permit)
    ||| exists|permit: bool| #[trigger] crate::spawning::turn_started(before, after, permit)
    ||| crate::spawning::slot_released(before, after)
    ||| crate::sending::resident_dropped(before, after)
    ||| crate::delivery::failed_turn_reset(before, after)
    ||| crate::turn_end::child_gone(before, after)
    ||| crate::turn_end::disconnected(before, after)
    ||| turn_abandoned(before, after)
    ||| stop_begun(before, after)
    ||| stop_finished(before, after)
}

/// No session counts against the limit without a process: whatever becomes of the
/// process, its slot goes with it.
pub proof fn law_slot_goes_with_the_child(before: EngineInner, after: EngineInner)
    requires
        slot_follows_child(before),
        process_step(before, after),
    ensures
        slot_follows_child(after),
{
}

} // verus!
