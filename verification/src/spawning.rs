//! Launching a turn on each of the transports: who may launch, what a launch that
//! was overtaken must undo, and what it leaves in the engine.

use vstd::prelude::*;

use crate::decimal::{parse_i32, signed_text};
use crate::engine::{is_acp_tool, per_turn, EngineInner, TurnClock};
use crate::json::{put, Json, JsonEntry, JsonView};
use crate::proto::{McpServer, McpServerView};
use crate::streaming::copy_servers;
use crate::text::{cat, opt_is, same};
use crate::turn::TurnState;

verus! {

/// A turn may be launched on the engine as it stands. `expected` is where its
/// resets stood when the turn was reserved, if it was.
pub open spec fn launchable(inner: EngineInner, expected: Option<u64>) -> bool {
    !inner.stopped && !inner.interrupting && (expected is Some ==> expected->0
        == inner.reset_epoch)
}

fn epoch_stands(inner: &EngineInner, expected: Option<u64>) -> (r: bool)
    ensures
        r == (expected is Some ==> expected->0 == inner.reset_epoch),
{
    match expected {
        Some(e) => e == inner.reset_epoch,
        None => true,
    }
}

/// Whether a process or an app-server turn may be launched. An interrupt that lands
/// before there is anything to interrupt only leaves its flag.
pub fn spawn_admissible(inner: &EngineInner, expected_epoch: Option<u64>) -> (r: bool)
    ensures
        r == launchable(*inner, expected_epoch),
{
    !inner.stopped && !inner.interrupting && epoch_stands(inner, expected_epoch)
}

/// Whether a turn may be launched on the connection backend: nor while a teardown
/// is under way.
pub fn acp_spawn_admissible(inner: &EngineInner, expected_epoch: Option<u64>) -> (r: bool)
    ensures
        r == (launchable(*inner, expected_epoch) && !inner.tearing_down),
{
    spawn_admissible(inner, expected_epoch) && !inner.tearing_down
}

/// To whom a process belongs.
pub enum ProcessOwner {
    Session(String),
    LeadThread(String),
}

/// To whom the engine's processes belong.
pub fn process_owner(inner: &EngineInner) -> (r: ProcessOwner)
    ensures
        match inner.session_id {
            Some(s) => r is Session && r->Session_0@ == crate::decimal::int_text(s as int),
            None => r is LeadThread && r->LeadThread_0@ == crate::decimal::int_text(
                inner.thread_id as int,
            ),
        },
{
    match inner.session_id {
        Some(s) => ProcessOwner::Session(signed_text(s as i64)),
        None => ProcessOwner::LeadThread(signed_text(inner.thread_id as i64)),
    }
}

/// The process of one turn runs, and no text row is open.
pub open spec fn turn_started(before: EngineInner, after: EngineInner, permit: bool) -> bool {
    after == (EngineInner {
        stdin: false,
        child: true,
        child_permit: permit,
        generation: (before.generation + 1) as u64,
        current: None,
        ..before
    })
}

/// The process of one turn was spawned: earlier readers are stale from here on.
pub fn turn_process_spawned(inner: &mut EngineInner, permit: bool) -> (r: u64)
    requires
        old(inner).generation < u64::MAX,
    ensures
        r == old(inner).generation + 1,
        turn_started(*old(inner), *final(inner), permit),
{
    inner.stdin = false;
    inner.child = true;
    inner.child_permit = permit;
    inner.generation = inner.generation + 1;
    inner.current = None;
    inner.generation
}

/// What the resident process needs.
#[derive(Debug, PartialEq, Eq, Structural, Clone, Copy)]
pub enum ResidentNeed {
    /// Nothing: it runs, or this engine has none, or it is stopped.
    Nothing,
    /// The tool is none that a lead can run.
    UnknownTool,
    /// It must be spawned. Its old slot goes back before a new one is waited for.
    Spawn,
}

/// What the resident process needs. `child_alive` is what the held child reports.
pub open spec fn resident_need_spec(
    inner: EngineInner,
    resident_tool: Seq<char>,
    child_alive: bool,
) -> ResidentNeed {
    if inner.stopped || crate::engine::spawns_per_turn(inner.tool@)
        || crate::engine::connection_tool(inner.tool@) {
        ResidentNeed::Nothing
    } else if inner.tool@ != resident_tool {
        ResidentNeed::UnknownTool
    } else if inner.child && child_alive {
        ResidentNeed::Nothing
    } else {
        ResidentNeed::Spawn
    }
}

/// What the resident process needs. A stopped engine is left alone; the tools that
/// launch a process or a prompt for each turn have no resident one. `resident_tool`
/// is the name of the one tool that has.
pub fn resident_need(inner: &EngineInner, resident_tool: &str, child_alive: bool) -> (r:
    ResidentNeed)
    ensures
        r == resident_need_spec(*inner, resident_tool@, child_alive),
{
    if inner.stopped || per_turn(inner.tool.as_str()) || is_acp_tool(inner.tool.as_str()) {
        ResidentNeed::Nothing
    } else if !same(inner.tool.as_str(), resident_tool) {
        ResidentNeed::UnknownTool
    } else if inner.child && child_alive {
        ResidentNeed::Nothing
    } else {
        ResidentNeed::Spawn
    }
}

/// The slot went back, and nothing else changed.
pub open spec fn slot_released(before: EngineInner, after: EngineInner) -> bool {
    after == (EngineInner { child_permit: false, ..before })
}

/// The dead process's slot goes back first: an engine that waits for a slot it
/// holds itself would wait forever.
pub fn release_stale_slot(inner: &mut EngineInner)
    ensures
        slot_released(*old(inner), *final(inner)),
{
    inner.child_permit = false;
}

/// A fresh resident process: no turn runs on it yet.
pub open spec fn resident_started(
    before: EngineInner,
    after: EngineInner,
    permit: bool,
) -> bool {
    &&& crate::turn::turn_idle(after.turn)
    &&& !after.turn.quota_exceeded
    &&& after.turn.bus_read_pos is None
    &&& after == (EngineInner {
        turn: after.turn,
        stdin: true,
        child: true,
        child_permit: permit,
        generation: (before.generation + 1) as u64,
        clock: TurnClock { started_millis: 0, consumed_marked: false },
        turn_user_row: None,
        current: None,
        interrupting: false,
        ..before
    })
}

/// The resident process was spawned.
pub fn resident_spawned(inner: &mut EngineInner, permit: bool) -> (r: u64)
    requires
        old(inner).generation < u64::MAX,
    ensures
        r == final(inner).generation,
        resident_started(*old(inner), *final(inner), permit),
        old(inner).wf() ==> final(inner).wf(),
{
    inner.stdin = true;
    inner.child = true;
    inner.child_permit = permit;
    inner.generation = inner.generation + 1;
    inner.turn = TurnState::default();
    inner.clock = TurnClock::default();
    inner.turn_user_row = None;
    inner.current = None;
    inner.interrupting = false;
    inner.generation
}

/// The request for the command list.
pub open spec fn initialize_tree() -> JsonView {
    JsonView::Obj(
        map![
            "type"@ => JsonView::Str("control_request"@),
            "request_id"@ => JsonView::Str("weft-initialize"@),
            "request"@ => JsonView::Obj(map!["subtype"@ => JsonView::Str("initialize"@)]),
        ],
    )
}

/// The first line to a resident process. It asks for the command list, which would
/// otherwise come only with the first turn.
pub fn initialize_line() -> (r: String)
    ensures
        r@ == crate::json::json_text(initialize_tree()) + "\n"@,
{
    let mut req: Vec<JsonEntry> = Vec::new();
    put(&mut req, "subtype", Json::Str("initialize".to_owned()));
    let req = Json::Obj(req);
    let mut m: Vec<JsonEntry> = Vec::new();
    put(&mut m, "type", Json::Str("control_request".to_owned()));
    put(&mut m, "request_id", Json::Str("weft-initialize".to_owned()));
    assert(req@ == JsonView::Obj(map!["subtype"@ => JsonView::Str("initialize"@)])) by {
        assert(req@->Obj_0 =~= map!["subtype"@ => JsonView::Str("initialize"@)]);
    }
    put(&mut m, "request", req);
    let doc = Json::Obj(m);
    assert(doc@->Obj_0 =~= initialize_tree()->Obj_0);
    let line = doc.print();
    cat(line.as_str(), "\n")
}

/// Publish the app-server connection that this launch opened, unless a stop won
/// while it was being opened. Looking and publishing are one step: a stop in
/// between would leave a connection for a turn that was just cancelled. true =
/// the stop won; the launch then shuts down only the connection it opened itself.
pub fn publish_app_server(
    inner: &mut EngineInner,
    expected_epoch: Option<u64>,
    freshly_connected: bool,
) -> (r: bool)
    ensures
        r == (old(inner).stopped || (expected_epoch is Some && expected_epoch->0
            != old(inner).reset_epoch)),
        *final(inner) == (EngineInner {
            codex_client: old(inner).codex_client || (!r && freshly_connected),
            ..*old(inner)
        }),
{
    let won = inner.stopped || !epoch_stands(inner, expected_epoch);
    inner.codex_client = inner.codex_client || (!won && freshly_connected);
    won
}

/// The first turn of a thread is in flight: its id is worth keeping from now on.
/// Before that, falling back to a process must start afresh, with the prompt.
pub fn thread_started(inner: &mut EngineInner, thread: &str, freshly_started: bool) -> (r: bool)
    ensures
        r == freshly_started,
        crate::text::opt_view(final(inner).native_id) == (if freshly_started {
            Some(thread@)
        } else {
            crate::text::opt_view(old(inner).native_id)
        }),
        *final(inner) == (EngineInner { native_id: final(inner).native_id, ..*old(inner) }),
{
    if freshly_started {
        inner.native_id = Some(thread.to_owned());
    }
    freshly_started
}

/// Whether a launch that failed on the app-server is tried again as a process. An
/// interrupted one is not brought back. The half-open connection goes first.
pub fn fall_back_to_process(inner: &mut EngineInner) -> (r: bool)
    ensures
        r == !old(inner).interrupting,
        *final(inner) == (EngineInner {
            codex_client: old(inner).codex_client && !r,
            ..*old(inner)
        }),
{
    if inner.interrupting {
        return false;
    }
    inner.codex_client = false;
    true
}

/// Which of the app's servers a session on the connection backend gets.
#[derive(Debug, PartialEq, Eq, Structural, Clone, Copy)]
pub struct ServerChoice {
    pub bus: bool,
    pub planner: bool,
    pub global: bool,
    pub curator: bool,
}

/// Which servers a session gets: a worker only the bus, a lead by its thread's kind.
pub open spec fn server_choice_spec(worker: bool, kind: Seq<char>) -> ServerChoice {
    if worker {
        ServerChoice { bus: true, planner: false, global: false, curator: false }
    } else if kind == "concierge"@ {
        ServerChoice { bus: false, planner: false, global: true, curator: false }
    } else if kind == "curator"@ {
        ServerChoice { bus: true, planner: false, global: false, curator: true }
    } else {
        ServerChoice { bus: true, planner: true, global: false, curator: false }
    }
}

/// Which servers a session gets. The concierge never gets the bus.
pub fn server_choice(worker: bool, kind: &str) -> (r: ServerChoice)
    ensures
        r == server_choice_spec(worker, kind@),
{
    if worker {
        ServerChoice { bus: true, planner: false, global: false, curator: false }
    } else if same(kind, "concierge") {
        ServerChoice { bus: false, planner: false, global: true, curator: false }
    } else if same(kind, "curator") {
        ServerChoice { bus: true, planner: false, global: false, curator: true }
    } else {
        ServerChoice { bus: true, planner: true, global: false, curator: false }
    }
}

/// The servers that a session was opened with, all connected.
pub open spec fn connected(names: Seq<Seq<char>>) -> Seq<McpServerView> {
    names.map_values(|n: Seq<char>| McpServerView { name: n, status: "connected"@ })
}

fn connected_servers(names: &Vec<String>) -> (r: Vec<McpServer>)
    ensures
        crate::proto::servers_view(r@) == connected(crate::text::texts_view(names@)),
{
    let mut out: Vec<McpServer> = Vec::new();
    let mut i: usize = 0;
    while i < names.len()
        invariant
            i <= names@.len(),
            crate::proto::servers_view(out@) == connected(
                crate::text::texts_view(names@.take(i as int)),
            ),
        decreases names@.len() - i,
    {
        let s = McpServer { name: names[i].clone(), status: "connected".to_owned() };
        proof {
            assert(crate::proto::servers_view(out@.push(s)) =~= crate::proto::servers_view(
                out@,
            ).push(s@));
            assert(connected(crate::text::texts_view(names@.take(i + 1))) =~= connected(
                crate::text::texts_view(names@.take(i as int)),
            ).push(s@));
        }
        out.push(s);
        i = i + 1;
    }
    assert(names@.take(names@.len() as int) =~= names@);
    out
}

/// What opening a session tells of it.
pub open spec fn session_opened(
    before: EngineInner,
    after: EngineInner,
    model: Option<Seq<char>>,
    thinking: Option<Seq<char>>,
    injected: Seq<Seq<char>>,
) -> bool {
    &&& crate::text::opt_view(after.last_model) == (if model is Some {
        model
    } else {
        crate::text::opt_view(before.last_model)
    })
    &&& crate::text::opt_view(after.last_reasoning) == (if thinking is Some {
        thinking
    } else {
        crate::text::opt_view(before.last_reasoning)
    })
    &&& crate::proto::servers_view(after.last_mcp_servers@) == (if injected.len() > 0 {
        connected(injected)
    } else {
        crate::proto::servers_view(before.last_mcp_servers@)
    })
    &&& after == (EngineInner {
        last_model: after.last_model,
        last_reasoning: after.last_reasoning,
        last_mcp_servers: after.last_mcp_servers,
        ..before
    })
}

fn newer_text(new: Option<String>, known: &Option<String>) -> (r: Option<String>)
    ensures
        crate::text::opt_view(r) == (if new is Some {
            crate::text::opt_view(new)
        } else {
            crate::text::opt_view(*known)
        }),
{
    match new {
        Some(s) => Some(s),
        None => crate::text::opt_clone(known),
    }
}

/// A session was opened on the connection backend. The servers it was given are
/// what there is to show of them: the backend reports none.
pub fn acp_session_opened(
    inner: &mut EngineInner,
    model: Option<String>,
    thinking: Option<String>,
    injected: &Vec<String>,
)
    ensures
        session_opened(
            *old(inner),
            *final(inner),
            crate::text::opt_view(model),
            crate::text::opt_view(thinking),
            crate::text::texts_view(injected@),
        ),
{
    let last_model = newer_text(model, &inner.last_model);
    let last_reasoning = newer_text(thinking, &inner.last_reasoning);
    let servers = if injected.len() > 0 {
        connected_servers(injected)
    } else {
        copy_servers(&inner.last_mcp_servers)
    };
    inner.last_model = last_model;
    inner.last_reasoning = last_reasoning;
    inner.last_mcp_servers = servers;
}

/// Whether opening gave the session another id than the one it was asked for. The
/// old route is then dropped, and the new id is the one to keep.
pub fn session_replaced(prior: Option<&str>, opened: &str) -> (r: bool)
    ensures
        r == (crate::text::opt_str_view(prior) != Some(opened@)),
{
    !opt_is(prior, opened)
}

/// Publish the session that this launch opened, unless a stop or an interrupt won.
/// true = it won; the route is then torn down again.
pub fn publish_acp_session(
    inner: &mut EngineInner,
    session: &str,
    expected_epoch: Option<u64>,
) -> (r: bool)
    ensures
        r == !launchable(*old(inner), expected_epoch),
        r ==> *final(inner) == *old(inner),
        !r ==> {
            &&& crate::text::opt_view(final(inner).native_id) == Some(session@)
            &&& *final(inner) == (EngineInner {
                acp_client: true,
                native_id: final(inner).native_id,
                ..*old(inner)
            })
        },
{
    if !spawn_admissible(inner, expected_epoch) {
        return true;
    }
    inner.acp_client = true;
    inner.native_id = Some(session.to_owned());
    false
}

/// Forget a session that was opened and never prompted: the next turn opens one
/// afresh, and still says the system prompt.
pub fn forget_unprompted_session(inner: &mut EngineInner)
    ensures
        *final(inner) == (EngineInner { native_id: None, acp_client: false, ..*old(inner) }),
{
    inner.native_id = None;
    inner.acp_client = false;
}

/// The prompt may go out: the resets at that moment are what its end must match.
pub fn arm_prompt(inner: &EngineInner, expected_epoch: Option<u64>) -> (r: Option<u64>)
    ensures
        r == (if launchable(*inner, expected_epoch) {
            Some(inner.reset_epoch)
        } else {
            None
        }),
{
    if spawn_admissible(inner, expected_epoch) {
        Some(inner.reset_epoch)
    } else {
        None
    }
}

/// How a prompt came back.
pub enum PromptReturn {
    /// A stop owns the end of this turn: say nothing.
    Owned,
    /// The turn ends here.
    Ends { is_error: bool, cancelled: bool },
}

/// How a prompt came back. `outcome` is its error and cancellation flag, or `None`
/// where it failed altogether.
pub fn prompt_returned(
    inner: &EngineInner,
    prompt_epoch: u64,
    outcome: Option<(bool, bool)>,
) -> (r: PromptReturn)
    ensures
        r is Owned == (inner.stopped || inner.reset_epoch != prompt_epoch),
        r is Ends ==> {
            &&& r->is_error == (match outcome {
                Some(o) => o.0,
                None => true,
            })
            &&& r->cancelled == (inner.interrupting || match outcome {
                Some(o) => o.1,
                None => false,
            })
        },
{
    if inner.stopped || inner.reset_epoch != prompt_epoch {
        return PromptReturn::Owned;
    }
    match outcome {
        Some(o) => PromptReturn::Ends { is_error: o.0, cancelled: o.1 || inner.interrupting },
        None => PromptReturn::Ends { is_error: true, cancelled: inner.interrupting },
    }
}

/// How the prompt of a message that was dequeued came back: whether it failed, and
/// whether it was cancelled. An interrupt counts as a cancellation. Whether the end
/// still stands is asked when the turn is closed.
pub fn follow_up_returned(inner: &EngineInner, is_error: bool, cancelled: bool) -> (r: (bool, bool))
    ensures
        r == (is_error, cancelled || inner.interrupting),
{
    (is_error, cancelled || inner.interrupting)
}

/// The scope under which a lead acts.
pub const LEAD: &'static str = "lead";

/// Why an engine is not what it claims to be.
#[derive(Debug, PartialEq, Eq, Structural, Clone, Copy)]
pub enum IdentityError {
    NotRegistered,
    InvalidLead,
    InvalidDirection,
    SessionGone,
    /// The session belongs to another direction.
    SessionMoved,
    /// The direction's repository is of another workspace.
    DirectionRepoForeign,
    /// The session's repository is of another workspace.
    SessionRepoForeign,
    /// The direction belongs to another thread.
    DirectionMoved,
}

/// The direction that a worker claims to act for; a lead acts for none.
pub open spec fn claimed_direction(session_id: Option<i32>, scope: Seq<char>) -> Result<
    Option<i32>,
    IdentityError,
> {
    if session_id is None {
        if scope == LEAD@ {
            Ok(None)
        } else {
            Err(IdentityError::InvalidLead)
        }
    } else {
        match crate::decimal::read_i32(scope) {
            Some(d) => Ok(Some(d)),
            None => Err(IdentityError::InvalidDirection),
        }
    }
}

/// Read an engine's claim. `registered` is whether the registry holds this very
/// engine, where there is a registry to ask.
pub fn read_identity(registered: Option<bool>, session_id: Option<i32>, scope: &str) -> (r: Result<
    Option<i32>,
    IdentityError,
>)
    ensures
        r == (if registered == Some(false) {
            Err(IdentityError::NotRegistered)
        } else {
            claimed_direction(session_id, scope@)
        }),
{
    match registered {
        Some(held) => if !held {
            return Err(IdentityError::NotRegistered);
        },
        None => {},
    }
    if session_id.is_none() {
        if same(scope, LEAD) {
            Ok(None)
        } else {
            Err(IdentityError::InvalidLead)
        }
    } else {
        match parse_i32(scope) {
            Some(d) => Ok(Some(d)),
            None => Err(IdentityError::InvalidDirection),
        }
    }
}

/// Whether the session that a worker drives still belongs to its direction.
/// `session_direction` is the direction in its row, if there is a row.
pub fn validate_session(session_direction: Option<i32>, direction_id: i32) -> (r: Result<
    (),
    IdentityError,
>)
    ensures
        r == (match session_direction {
            None => Err(IdentityError::SessionGone),
            Some(d) => if d == direction_id {
                Ok(())
            } else {
                Err(IdentityError::SessionMoved)
            },
        }),
{
    match session_direction {
        None => Err(IdentityError::SessionGone),
        Some(d) => if d == direction_id {
            Ok(())
        } else {
            Err(IdentityError::SessionMoved)
        },
    }
}

/// Whether a worker's whole chain of parents lies in one workspace: that of the
/// thread its direction belongs to.
pub fn ensure_worker_parent_chain(
    thread_workspace: i32,
    primary_repo_workspace: i32,
    session_repo_workspace: i32,
) -> (r: Result<(), IdentityError>)
    ensures
        r == (if primary_repo_workspace != thread_workspace {
            Err(IdentityError::DirectionRepoForeign)
        } else if session_repo_workspace != thread_workspace {
            Err(IdentityError::SessionRepoForeign)
        } else {
            Ok(())
        }),
{
    if primary_repo_workspace != thread_workspace {
        Err(IdentityError::DirectionRepoForeign)
    } else if session_repo_workspace != thread_workspace {
        Err(IdentityError::SessionRepoForeign)
    } else {
        Ok(())
    }
}

/// Whether a worker's direction still belongs to the thread it was built for.
pub fn validate_direction(direction_thread: i32, thread_id: i32) -> (r: Result<(), IdentityError>)
    ensures
        r == (if direction_thread == thread_id {
            Ok(())
        } else {
            Err(IdentityError::DirectionMoved)
        }),
{
    if direction_thread == thread_id {
        Ok(())
    } else {
        Err(IdentityError::DirectionMoved)
    }
}

/// No turn is launched for a message that a reset has overtaken.
pub proof fn law_reset_cancels_launches(inner: EngineInner, expected: u64)
    requires
        expected != inner.reset_epoch,
    ensures
        !launchable(inner, Some(expected)),
        !crate::turn_end::dispatchable(inner, expected),
{
}

/// While an interrupt is in flight nothing is launched and nothing that was dequeued
/// goes out, though the resets stand where they stood.
pub proof fn law_interrupt_holds_launches(
    inner: EngineInner,
    expected: Option<u64>,
    dequeue_epoch: u64,
    ctx: crate::sending::SendContext,
)
    requires
        inner.interrupting,
        ctx.direct,
    ensures
        !launchable(inner, expected),
        !crate::turn_end::dispatchable(inner, dequeue_epoch),
        !crate::sending::reservation_stands(inner, ctx),
{
}

} // verus!
