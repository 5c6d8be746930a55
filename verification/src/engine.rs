//! One chat engine's state and the steps that take it from one state to the next.
//! Processes, connections and the database belong to the caller; the engine knows
//! of them whether it holds one.

use vstd::prelude::*;

use crate::json::Json;
use crate::keyed::Keyed;
use crate::proto::{McpServer, SlashCmd};
use crate::text::same;
use crate::turn::{send_begun, turn_idle, TurnState};

verus! {

/// The name under which pushes go to the frontend.
pub const EVENT: &'static str = "lead-chat";

/// Persisted activity status of a session deliberately stopped by the human.
/// Distinct from "idle", so that nothing spawns a competing headless process for
/// a session the human may be driving in a terminal.
pub const STATUS_STOPPED: &'static str = "stopped";

/// How long a streamed text may go without a snapshot, in milliseconds.
pub const STREAM_THROTTLE_MS: u64 = 150;

/// Per-turn receipt metadata. Time is recorded for the test-plan comparison only
/// and never drives a decision here.
pub struct TurnClock {
    /// Unix milliseconds of the in-flight turn's start (0 = never begun).
    pub started_millis: u64,
    /// Some activity has been observed for the in-flight turn.
    pub consumed_marked: bool,
}

impl Default for TurnClock {
    fn default() -> (r: Self)
        ensures
            r == (TurnClock { started_millis: 0, consumed_marked: false }),
    {
        TurnClock { started_millis: 0, consumed_marked: false }
    }
}

impl TurnClock {
    /// A turn begins at `now`.
    pub fn begin_turn(&mut self, now: u64)
        ensures
            *final(self) == (TurnClock { started_millis: now, consumed_marked: false }),
    {
        self.started_millis = now;
        self.consumed_marked = false;
    }

    /// Re-sync with the queue after a turn ended: a message that was dequeued
    /// begins a new turn.
    pub fn on_turn_end(&mut self, still_busy: bool, now: u64)
        ensures
            *final(self) == (if still_busy {
                TurnClock { started_millis: now, consumed_marked: false }
            } else {
                *old(self)
            }),
    {
        if still_busy {
            self.begin_turn(now);
        }
    }

    /// True only on the first call since the turn began.
    pub fn mark_consumed_once(&mut self) -> (r: bool)
        ensures
            r == !old(self).consumed_marked,
            *final(self) == (TurnClock {
                started_millis: old(self).started_millis,
                consumed_marked: true,
            }),
    {
        if self.consumed_marked {
            false
        } else {
            self.consumed_marked = true;
            true
        }
    }

    /// The attempted mark was not settled: the next activity tries again.
    pub fn rearm_consumed_gate(&mut self)
        ensures
            *final(self) == (TurnClock {
                started_millis: old(self).started_millis,
                consumed_marked: false,
            }),
    {
        self.consumed_marked = false;
    }
}

/// One item-keyed streaming text row.
pub struct OpenTextRow {
    pub row: i32,
    pub buf: String,
    /// Milliseconds of the last snapshot.
    pub last_flush: u64,
    /// The sub-agent thread this row belongs to; `None` = mainline. Part of every
    /// rewrite of the row's content.
    pub agent_thread: Option<String>,
}

/// The anonymous streaming text row.
pub struct TextRow {
    pub row: i32,
    pub buf: String,
    /// Milliseconds of the last snapshot.
    pub last_flush: u64,
}

/// A running tool's row: its id and its content so far.
pub struct ToolRow {
    pub row: i32,
    pub content: Json,
}

/// The state of one chat engine.
pub struct EngineInner {
    pub thread_id: i32,
    /// Selects the wire dialect and the process model.
    pub tool: String,
    /// Per-session command pin; `None` = the global override decides.
    pub command: Option<String>,
    /// Chat-mode worker session; `None` for the lead.
    pub session_id: Option<i32>,
    pub cwd: String,
    /// Appended to every spawn.
    pub extra_args: Vec<String>,
    pub extra_env: Vec<(String, String)>,
    pub system_prompt: String,
    pub native_id: Option<String>,
    /// A digest of the history, staged by an engine switch to ride the next
    /// outgoing turn. Cleared only once that turn is delivered; never persisted.
    pub pending_context_digest: Option<String>,
    pub slash_commands: Vec<SlashCmd>,
    pub turn: TurnState,
    pub turn_id: i32,
    /// Ask-bridge identity: a direction id for workers, "lead" for the lead.
    pub ask_dir: String,
    pub clock: TurnClock,
    /// A child process is held.
    pub child: bool,
    /// An active-session slot is held; it goes back wherever the child goes.
    pub child_permit: bool,
    /// The child's stdin is held.
    pub stdin: bool,
    pub current: Option<TextRow>,
    pub open_texts: Keyed<OpenTextRow>,
    /// A text row was completed in this turn.
    pub turn_saw_text: bool,
    /// A protocol interrupt is in flight: the turn closes as interrupted.
    pub interrupting: bool,
    /// Bumped per spawn; stale readers compare and exit.
    pub generation: u64,
    /// Bumped whenever a stop or reset clears the turn.
    pub reset_epoch: u64,
    pub pending_skill_refresh: bool,
    pub pending_command_refresh: bool,
    pub last_context_tokens: Option<u64>,
    pub last_model: Option<String>,
    pub last_reasoning: Option<String>,
    pub last_window: Option<u64>,
    pub last_mcp_servers: Vec<McpServer>,
    pub last_tools: Vec<String>,
    /// Tickets handed to probes as they start, and the newest one absorbed.
    pub probe_seq: u64,
    pub probe_committed: u64,
    /// The reply target of the turn whose output is being emitted.
    pub current_origin_tag: Option<String>,
    /// Running tool calls by call id.
    pub tool_rows: Keyed<ToolRow>,
    /// Explicitly stopped: hidden plumbing must not resurrect the engine.
    pub stopped: bool,
    /// An app-server connection is held.
    pub codex_client: bool,
    /// A session on the connection backend is held.
    pub acp_client: bool,
    /// In-flight permission cards of the connection backend.
    pub acp_pending_asks: Vec<u64>,
    /// The user row that opened the in-flight turn; the negated id of a hidden
    /// delivery for a hidden turn.
    pub turn_user_row: Option<i32>,
    /// Transcript uuid of the last assistant event of the in-flight turn.
    pub last_assistant_uuid: Option<String>,
    pub rewinding: bool,
    pub quota_failover_committing: bool,
    /// A teardown has released the engine to do its I/O.
    pub tearing_down: bool,
    pub worktree_id: Option<i32>,
}

impl EngineInner {
    /// The tables hold each key once.
    pub open spec fn wf(self) -> bool {
        self.open_texts.wf() && self.tool_rows.wf()
    }

    /// A fresh, idle engine for a timeline.
    pub fn fresh(thread_id: i32, session_id: Option<i32>, tool: &str) -> (r: Self)
        ensures
            r.wf(),
            r.thread_id == thread_id,
            r.session_id == session_id,
            r.tool@ == tool@,
            turn_idle(r.turn),
            r.turn_id == 0,
            r.native_id is None,
            r.system_prompt@.len() == 0,
            r.extra_args@.len() == 0,
            r.current is None,
            r.open_texts.entries@.len() == 0,
            r.tool_rows.entries@.len() == 0,
            r.reset_epoch == 0,
            r.turn_user_row is None,
            !r.stopped && !r.interrupting && !r.tearing_down && !r.rewinding
                && !r.quota_failover_committing && !r.child && !r.child_permit && !r.stdin
                && !r.codex_client && !r.acp_client,
            r.command is None && r.cwd@.len() == 0 && r.ask_dir@.len() == 0,
            r.extra_env@.len() == 0 && r.slash_commands@.len() == 0,
            !r.turn.quota_exceeded && r.turn.bus_read_pos is None,
            r.clock == (TurnClock { started_millis: 0, consumed_marked: false }),
            r.generation == 0 && r.probe_seq == 0 && r.probe_committed == 0,
            r.pending_context_digest is None && !r.pending_skill_refresh
                && !r.pending_command_refresh && !r.turn_saw_text,
            r.last_context_tokens is None && r.last_model is None && r.last_reasoning is None
                && r.last_window is None && r.last_mcp_servers@.len() == 0
                && r.last_tools@.len() == 0,
            r.current_origin_tag is None && r.last_assistant_uuid is None,
            r.acp_pending_asks@.len() == 0 && r.worktree_id is None,
    {
        EngineInner {
            thread_id,
            tool: tool.to_owned(),
            command: None,
            session_id,
            cwd: String::new(),
            extra_args: Vec::new(),
            extra_env: Vec::new(),
            system_prompt: String::new(),
            native_id: None,
            pending_context_digest: None,
            slash_commands: Vec::new(),
            turn: TurnState::default(),
            turn_id: 0,
            ask_dir: String::new(),
            clock: TurnClock::default(),
            child: false,
            child_permit: false,
            stdin: false,
            current: None,
            open_texts: Keyed::new(),
            turn_saw_text: false,
            interrupting: false,
            generation: 0,
            reset_epoch: 0,
            pending_skill_refresh: false,
            pending_command_refresh: false,
            last_context_tokens: None,
            last_model: None,
            last_reasoning: None,
            last_window: None,
            last_mcp_servers: Vec::new(),
            last_tools: Vec::new(),
            probe_seq: 0,
            probe_committed: 0,
            current_origin_tag: None,
            tool_rows: Keyed::new(),
            stopped: false,
            codex_client: false,
            acp_client: false,
            acp_pending_asks: Vec::new(),
            turn_user_row: None,
            last_assistant_uuid: None,
            rewinding: false,
            quota_failover_committing: false,
            tearing_down: false,
            worktree_id: None,
        }
    }
}

/// The tools that spawn one process per human turn.
pub open spec fn spawns_per_turn(tool: Seq<char>) -> bool {
    tool == "codex"@ || tool == "opencode"@
}

/// Per-turn dialects spawn one process per human turn; the resident dialect keeps
/// a long-lived stream process.
pub fn per_turn(tool: &str) -> (r: bool)
    ensures
        r == spawns_per_turn(tool@),
{
    same(tool, "codex") || same(tool, "opencode")
}

/// The tools that run over a connection backend.
pub open spec fn connection_tool(tool: Seq<char>) -> bool {
    tool == "omp"@
}

/// Whether the tool runs over a connection backend.
pub fn is_acp_tool(tool: &str) -> (r: bool)
    ensures
        r == connection_tool(tool@),
{
    same(tool, "omp")
}

/// What becomes of a hidden delivery.
#[derive(Debug, PartialEq, Eq, Structural, Clone, Copy)]
pub enum HiddenDelivery {
    Noop,
    Queue,
    SpawnTurn,
    WriteResident,
}

pub open spec fn hidden_delivery_spec(
    tool: Seq<char>,
    busy: bool,
    has_stdin: bool,
    stopped: bool,
) -> HiddenDelivery {
    if stopped {
        HiddenDelivery::Noop
    } else if busy {
        HiddenDelivery::Queue
    } else if spawns_per_turn(tool) || connection_tool(tool) {
        HiddenDelivery::SpawnTurn
    } else if has_stdin {
        HiddenDelivery::WriteResident
    } else {
        HiddenDelivery::Noop
    }
}

/// Route a hidden delivery. Per-turn and connection tools have no resident stdin
/// when idle: both need a turn spawn.
pub fn hidden_delivery(tool: &str, busy: bool, has_stdin: bool, stopped: bool) -> (r:
    HiddenDelivery)
    ensures
        r == hidden_delivery_spec(tool@, busy, has_stdin, stopped),
{
    if stopped {
        HiddenDelivery::Noop
    } else if busy {
        HiddenDelivery::Queue
    } else if per_turn(tool) || is_acp_tool(tool) {
        HiddenDelivery::SpawnTurn
    } else if has_stdin {
        HiddenDelivery::WriteResident
    } else {
        HiddenDelivery::Noop
    }
}

/// The marker of a hidden delivery in `turn_user_row`.
pub open spec fn hidden_marker(delivery: Option<i32>) -> Option<i32> {
    match delivery {
        Some(id) => Some((-id) as i32),
        None => None,
    }
}

/// A hidden turn starts.
pub fn mark_hidden_turn_started(inner: &mut EngineInner, now: u64) -> (r: i32)
    requires
        old(inner).turn_id < i32::MAX,
    ensures
        hidden_turn_started(*old(inner), *final(inner), None, now),
        r == final(inner).turn_id,
{
    mark_hidden_turn_started_with_delivery(inner, None, now)
}

/// What the start of a hidden turn does: a new turn, with no user row behind it
/// and no reply target.
pub open spec fn hidden_turn_started(
    before: EngineInner,
    after: EngineInner,
    delivery: Option<i32>,
    now: u64,
) -> bool {
    &&& send_begun(before.turn, after.turn, !before.turn.busy)
    &&& after == (EngineInner {
        turn: after.turn,
        turn_id: (before.turn_id + 1) as i32,
        clock: TurnClock { started_millis: now, consumed_marked: false },
        current_origin_tag: None,
        turn_user_row: hidden_marker(delivery),
        ..before
    })
}

/// A hidden turn starts for a durable delivery. Its negated id takes the place of
/// the user row: it is never mistaken for a message, and the activity receipt
/// follows it through the queue like that of a visible turn.
pub fn mark_hidden_turn_started_with_delivery(
    inner: &mut EngineInner,
    hidden_delivery_id: Option<i32>,
    now: u64,
) -> (r: i32)
    requires
        old(inner).turn_id < i32::MAX,
        hidden_delivery_id != Some(i32::MIN),
    ensures
        hidden_turn_started(*old(inner), *final(inner), hidden_delivery_id, now),
        r == final(inner).turn_id,
        old(inner).wf() ==> final(inner).wf(),
{
    let _ = inner.turn.try_begin_send();
    inner.turn_id = inner.turn_id + 1;
    inner.clock.begin_turn(now);
    inner.current_origin_tag = None;
    inner.turn_user_row = match hidden_delivery_id {
        Some(id) => Some(-id),
        None => None,
    };
    inner.turn_id
}

} // verus!
