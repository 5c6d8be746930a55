//! A human message on its way: reserved, persisted, committed against the state
//! the engine is in by then, and rolled back where it cannot be delivered.

use vstd::prelude::*;

use crate::decimal::{digits, int_text, signed_text, unsigned_text};
use crate::engine::{
    connection_tool, is_acp_tool, per_turn, spawns_per_turn, EngineInner, TurnClock,
};
use crate::json::{json_text, put, str_items, string_array, Json, JsonEntry, JsonView};
use crate::text::{
    after_char, after_last, before_char, cat, cat3, has_prefix, last_part, opt_clone, opt_ref,
    opt_str_view, opt_view, same, same_opt, split_first, texts_view, trim_start, trimmed_start,
};
use crate::turn::{given_up, send_begun, tracked_ids, visible_queued, Outgoing, MAX_QUEUED};

verus! {

/// How a turn reaches its agent.
#[derive(Debug, Clone, Copy, PartialEq, Eq, Structural)]
pub enum Transport {
    /// Through the stdin of the resident process.
    Resident,
    /// One process per turn.
    PerTurn,
    /// Over the app-server connection.
    AppServer,
    /// Over the connection backend.
    Connection,
}

pub open spec fn transport_spec(tool: Seq<char>, appserver: bool) -> Transport {
    if tool == "codex"@ && appserver {
        Transport::AppServer
    } else if connection_tool(tool) {
        Transport::Connection
    } else if spawns_per_turn(tool) {
        Transport::PerTurn
    } else {
        Transport::Resident
    }
}

/// How a turn of this tool is dispatched.
pub fn transport(tool: &str, appserver: bool) -> (r: Transport)
    ensures
        r == transport_spec(tool@, appserver),
{
    if same(tool, "codex") && appserver {
        Transport::AppServer
    } else if is_acp_tool(tool) {
        Transport::Connection
    } else if per_turn(tool) {
        Transport::PerTurn
    } else {
        Transport::Resident
    }
}

/// The app-server transport is on unless its setting is `0`.
pub fn codex_appserver_enabled(setting: Option<&str>) -> (r: bool)
    ensures
        r == (opt_str_view(setting) != Some("0"@)),
{
    match setting {
        Some(s) => !same(s, "0"),
        None => true,
    }
}

/// The first message of a new codex thread carries the system prompt.
pub fn codex_first_turn_text(system_prompt: &str, text: &str, resumed: bool) -> (r: String)
    ensures
        r@ == first_turn_text(system_prompt@, text@, resumed),
{
    if resumed || system_prompt.is_empty() {
        text.to_owned()
    } else {
        cat3(system_prompt, "\n\n", text)
    }
}

pub open spec fn first_turn_text(system_prompt: Seq<char>, text: Seq<char>, resumed: bool) -> Seq<
    char,
> {
    if resumed || system_prompt.len() == 0 {
        text
    } else {
        system_prompt + "\n\n"@ + text
    }
}

/// Why a send is refused.
#[derive(Debug, Clone, Copy, PartialEq, Eq, Structural)]
pub enum SendError {
    /// A rewind holds the session.
    Rewinding,
    /// An engine switch is being committed.
    SwitchInProgress,
    /// A code restore holds the worktree.
    WorktreeReserved,
    QueueFull,
}

/// What refuses a send before anything else is looked at.
pub open spec fn send_block(inner: EngineInner) -> Option<SendError> {
    if inner.rewinding {
        Some(SendError::Rewinding)
    } else if inner.quota_failover_committing {
        Some(SendError::SwitchInProgress)
    } else {
        None
    }
}

/// Whether a send is refused outright.
pub fn send_blocked(inner: &EngineInner) -> (r: Option<SendError>)
    ensures
        r == send_block(*inner),
{
    if inner.rewinding {
        Some(SendError::Rewinding)
    } else if inner.quota_failover_committing {
        Some(SendError::SwitchInProgress)
    } else {
        None
    }
}

/// Whether the process must be bounced before this send, and whether the bounce
/// also takes a changed command. A command change waits until the engine is idle:
/// a message sent during a turn just queues.
pub fn refresh_due(inner: &EngineInner) -> (r: (bool, bool))
    ensures
        r.1 == (inner.pending_command_refresh && !inner.turn.busy),
        r.0 == (inner.pending_skill_refresh || r.1),
{
    let command = inner.pending_command_refresh && !inner.turn.busy;
    (inner.pending_skill_refresh || command, command)
}

/// The process was bounced.
pub fn refreshed(inner: &mut EngineInner, command: bool)
    ensures
        *final(inner) == (EngineInner {
            pending_skill_refresh: false,
            pending_command_refresh: old(inner).pending_command_refresh && !command,
            ..*old(inner)
        }),
{
    inner.pending_skill_refresh = false;
    if command {
        inner.pending_command_refresh = false;
    }
}

/// A human message brings a stopped engine back.
pub fn resume_for_send(inner: &mut EngineInner)
    ensures
        *final(inner) == (EngineInner { stopped: false, ..*old(inner) }),
{
    inner.stopped = false;
}

/// A message to an idle engine whose program cannot be found is answered with a
/// notice, under a turn of its own. While a turn runs, the program was found
/// already, and the message queues.
pub fn refuse_without_program(inner: &mut EngineInner, program_found: bool) -> (r: Option<i32>)
    requires
        old(inner).turn_id < i32::MAX,
    ensures
        r == (if !old(inner).turn.busy && !program_found {
            Some((old(inner).turn_id + 1) as i32)
        } else {
            None
        }),
        *final(inner) == (EngineInner {
            turn_id: match r {
                Some(turn) => turn,
                None => old(inner).turn_id,
            },
            ..*old(inner)
        }),
{
    if inner.turn.busy || program_found {
        return None;
    }
    inner.turn_id = inner.turn_id + 1;
    Some(inner.turn_id)
}

/// What a send carries from its reservation to its commit.
#[derive(Clone)]
pub struct SendContext {
    pub thread_id: i32,
    pub session_id: Option<i32>,
    pub turn: i32,
    pub direct: bool,
    pub is_command: bool,
    pub tool: String,
    pub origin_tag: Option<String>,
    /// The engine's epoch at the reservation: a stop or reset since then
    /// invalidates the send.
    pub reset_epoch: u64,
}

/// The text is a slash command.
pub open spec fn is_slash(text: Seq<char>) -> bool {
    "/"@.is_prefix_of(trimmed_start(text))
}

/// The outcome of a reservation.
pub open spec fn reservation(inner: EngineInner, worktree_reserved: bool) -> Result<
    bool,
    SendError,
> {
    if send_block(inner) is Some {
        Err(send_block(inner)->0)
    } else if inner.worktree_id is Some && worktree_reserved {
        Err(SendError::WorktreeReserved)
    } else if inner.turn.busy && tracked_ids(inner.turn.queue@).len() >= MAX_QUEUED {
        Err(SendError::QueueFull)
    } else {
        Ok(!inner.turn.busy)
    }
}

/// A turn was claimed for a message that goes out now.
pub open spec fn turn_claimed(
    before: EngineInner,
    after: EngineInner,
    origin_tag: Option<Seq<char>>,
    now: u64,
) -> bool {
    &&& send_begun(before.turn, after.turn, !before.turn.busy)
    &&& opt_view(after.current_origin_tag) == origin_tag
    &&& after == (EngineInner {
        turn: after.turn,
        turn_id: (before.turn_id + 1) as i32,
        clock: TurnClock { started_millis: now, consumed_marked: false },
        current_origin_tag: after.current_origin_tag,
        ..before
    })
}

/// Reserve a send: a turn of its own when the engine is idle, a place in the
/// queue otherwise. Only visible messages count against the cap.
pub fn reserve_send(
    inner: &mut EngineInner,
    text: &str,
    origin_tag: Option<String>,
    worktree_reserved: bool,
    now: u64,
) -> (r: Result<SendContext, SendError>)
    requires
        old(inner).turn_id < i32::MAX,
    ensures
        match reservation(*old(inner), worktree_reserved) {
            Err(e) => r == Err::<SendContext, SendError>(e) && *final(inner) == *old(inner),
            Ok(direct) => {
                &&& r is Ok
                &&& r->Ok_0.direct == direct
                &&& r->Ok_0.thread_id == old(inner).thread_id
                &&& r->Ok_0.session_id == old(inner).session_id
                &&& r->Ok_0.turn == final(inner).turn_id
                &&& r->Ok_0.is_command == is_slash(text@)
                &&& r->Ok_0.tool@ == old(inner).tool@
                &&& opt_view(r->Ok_0.origin_tag) == opt_view(origin_tag)
                &&& r->Ok_0.reset_epoch == old(inner).reset_epoch
                &&& direct ==> turn_claimed(
                    *old(inner),
                    *final(inner),
                    opt_view(origin_tag),
                    now,
                )
                &&& !direct ==> *final(inner) == *old(inner)
            },
        },
{
    match send_blocked(inner) {
        Some(e) => {
            return Err(e);
        },
        None => {},
    }
    if inner.worktree_id.is_some() && worktree_reserved {
        return Err(SendError::WorktreeReserved);
    }
    let direct = !inner.turn.busy;
    if !direct && visible_queued(&inner.turn) >= MAX_QUEUED {
        return Err(SendError::QueueFull);
    }
    if direct {
        let _ = claim_turn(inner, opt_clone(&origin_tag), now);
    }
    let t = trim_start(text);
    Ok(
        SendContext {
            thread_id: inner.thread_id,
            session_id: inner.session_id,
            turn: inner.turn_id,
            direct,
            is_command: has_prefix(t, "/"),
            tool: inner.tool.clone(),
            origin_tag,
            reset_epoch: inner.reset_epoch,
        },
    )
}

fn claim_turn(inner: &mut EngineInner, origin_tag: Option<String>, now: u64) -> (r: i32)
    requires
        old(inner).turn_id < i32::MAX,
    ensures
        turn_claimed(*old(inner), *final(inner), opt_view(origin_tag), now),
        r == final(inner).turn_id,
{
    let _ = inner.turn.try_begin_send();
    inner.turn_id = inner.turn_id + 1;
    inner.clock.begin_turn(now);
    inner.current_origin_tag = origin_tag;
    inner.turn_id
}

/// A queued send found the engine idle at commit time: it claims a fresh turn
/// instead of joining a queue that nothing would drain.
pub fn promote_queued_reservation(
    inner: &mut EngineInner,
    origin_tag: Option<String>,
    now: u64,
) -> (r: i32)
    requires
        old(inner).turn_id < i32::MAX,
    ensures
        turn_claimed(*old(inner), *final(inner), opt_view(origin_tag), now),
        r == final(inner).turn_id,
{
    claim_turn(inner, origin_tag, now)
}

/// The reservation still stands.
pub open spec fn reservation_stands(inner: EngineInner, ctx: SendContext) -> bool {
    &&& !inner.stopped
    &&& !inner.tearing_down
    &&& inner.reset_epoch == ctx.reset_epoch
    &&& ctx.direct ==> !inner.interrupting && inner.turn_id == ctx.turn && inner.turn.busy
}

/// Whether the reservation still stands. A direct send is the current turn, so an
/// interrupt cancels it; a queued one targets a later turn, and what becomes of it
/// is decided at commit time.
pub fn send_reservation_valid(inner: &EngineInner, ctx: &SendContext) -> (r: bool)
    ensures
        r == reservation_stands(*inner, *ctx),
{
    if inner.stopped || inner.tearing_down || inner.reset_epoch != ctx.reset_epoch {
        return false;
    }
    if ctx.direct {
        !inner.interrupting && inner.turn_id == ctx.turn && inner.turn.busy
    } else {
        true
    }
}

/// What a commit comes to.
pub enum Commit {
    /// The reservation no longer stands.
    Invalid,
    /// Too many messages queued up in the meantime.
    QueueFull,
    /// The turn it queued behind is being interrupted.
    Interrupted,
    /// It waits behind the running turn.
    Queued,
    /// Dispatch the message as this turn; `promoted` = it was to be queued.
    Dispatch { turn: i32, promoted: bool, out: Outgoing },
}

/// What a commit does, decided from the engine's current state.
pub open spec fn committed(
    before: EngineInner,
    after: EngineInner,
    ctx: SendContext,
    out: Outgoing,
    now: u64,
    r: Commit,
) -> bool {
    if !reservation_stands(before, ctx) {
        r == Commit::Invalid && after == before
    } else if ctx.direct {
        r == (Commit::Dispatch { turn: ctx.turn, promoted: false, out }) && after == before
    } else if before.turn.busy {
        if tracked_ids(before.turn.queue@).len() >= MAX_QUEUED {
            r == Commit::QueueFull && after == before
        } else {
            &&& r == Commit::Queued
            &&& after == (EngineInner { turn: after.turn, ..before })
            &&& after.turn.queue@ == before.turn.queue@.push(out)
            &&& after.turn.busy == before.turn.busy
            &&& after.turn.quota_exceeded == before.turn.quota_exceeded
            &&& after.turn.bus_read_pos == before.turn.bus_read_pos
        }
    } else if before.interrupting {
        r == Commit::Interrupted && after == before
    } else {
        &&& r == (Commit::Dispatch { turn: after.turn_id, promoted: true, out })
        &&& turn_claimed(before, after, opt_view(ctx.origin_tag), now)
    }
}

/// Commit a send against the current state: dispatch, enqueue, promote or abort.
/// The cap is checked again, since several queued sends can race through their
/// persistence.
pub fn commit_send(inner: &mut EngineInner, ctx: &SendContext, out: Outgoing, now: u64) -> (r:
    Commit)
    requires
        old(inner).turn_id < i32::MAX,
    ensures
        committed(*old(inner), *final(inner), *ctx, out, now, r),
{
    if !send_reservation_valid(inner, ctx) {
        return Commit::Invalid;
    }
    if ctx.direct {
        return Commit::Dispatch { turn: ctx.turn, promoted: false, out };
    }
    if inner.turn.busy {
        if visible_queued(&inner.turn) >= MAX_QUEUED {
            return Commit::QueueFull;
        }
        inner.turn.queue.push_back(out);
        return Commit::Queued;
    }
    if inner.interrupting {
        return Commit::Interrupted;
    }
    let turn = promote_queued_reservation(inner, opt_clone(&ctx.origin_tag), now);
    Commit::Dispatch { turn, promoted: true, out }
}

/// The message was handed over: its row is the one that opened the turn.
pub fn turn_opened(inner: &mut EngineInner, row_id: i32)
    ensures
        *final(inner) == (EngineInner {
            turn_user_row: Some(row_id),
            last_assistant_uuid: None,
            ..*old(inner)
        }),
{
    inner.turn_user_row = Some(row_id);
    inner.last_assistant_uuid = None;
}

/// The resident could not be written to for a promoted send: its turn is given
/// back. No row carries the claimed id, so the counter goes back too.
pub fn undo_promotion(inner: &mut EngineInner)
    requires
        old(inner).turn_id > i32::MIN,
    ensures
        *final(inner) == (EngineInner {
            turn: final(inner).turn,
            turn_id: (old(inner).turn_id - 1) as i32,
            current_origin_tag: None,
            ..*old(inner)
        }),
        !final(inner).turn.busy,
        final(inner).turn.queue == old(inner).turn.queue,
        final(inner).turn.bus_read_pos == old(inner).turn.bus_read_pos,
        final(inner).turn.quota_exceeded == old(inner).turn.quota_exceeded,
{
    inner.turn.busy = false;
    inner.turn_id = inner.turn_id - 1;
    inner.current_origin_tag = None;
}

/// What a rollback leaves to do.
pub struct Rollback {
    /// The activity status to persist.
    pub activity: &'static str,
    /// The rows that were queued behind the canceled turn.
    pub drained: Vec<i32>,
}

/// The canceled send still owns the turn.
pub open spec fn owns_turn(inner: EngineInner, ctx: SendContext) -> bool {
    ctx.direct && inner.reset_epoch == ctx.reset_epoch && inner.turn_id == ctx.turn
        && inner.turn.busy
}

/// What the rollback of a canceled send does: the engine goes idle under the given
/// turn id, nothing stays queued, and the interrupt that canceled it is over.
pub open spec fn send_undone(before: EngineInner, after: EngineInner, turn_id: i32) -> bool {
    &&& given_up(before.turn, after.turn)
    &&& after == (EngineInner {
        turn: after.turn,
        turn_id,
        current_origin_tag: None,
        interrupting: false,
        ..before
    })
}

fn undo_send(inner: &mut EngineInner, turn_id: i32) -> (r: Vec<i32>)
    ensures
        send_undone(*old(inner), *final(inner), turn_id),
        r@ == tracked_ids(old(inner).turn.queue@),
{
    let drained = inner.turn.give_up();
    inner.turn_id = turn_id;
    inner.current_origin_tag = None;
    inner.interrupting = false;
    drained
}

/// Undo the reservation of a canceled direct send, if it still owns the turn. The
/// turn id stays consumed where the send's row was persisted under it.
pub fn rollback_canceled_send(
    inner: &mut EngineInner,
    ctx: &SendContext,
    row_persisted: bool,
) -> (r: Option<Rollback>)
    requires
        ctx.turn > i32::MIN,
    ensures
        r is Some == owns_turn(*old(inner), *ctx),
        r is None ==> *final(inner) == *old(inner),
        r is Some ==> r->0.drained@ == tracked_ids(old(inner).turn.queue@),
        r is Some ==> r->0.activity@ == (if old(inner).stopped {
            "stopped"@
        } else {
            "idle"@
        }),
        r is Some ==> send_undone(
            *old(inner),
            *final(inner),
            (if row_persisted {
                ctx.turn as int
            } else {
                ctx.turn - 1
            }) as i32,
        ),
{
    if !ctx.direct || inner.reset_epoch != ctx.reset_epoch || inner.turn_id != ctx.turn
        || !inner.turn.busy {
        return None;
    }
    let turn_id: i32 = if row_persisted {
        ctx.turn
    } else {
        ctx.turn - 1
    };
    let activity = if inner.stopped {
        "stopped"
    } else {
        "idle"
    };
    let drained = undo_send(inner, turn_id);
    Some(Rollback { activity, drained })
}

/// The status of a send whose spawn failed: a reservation that no longer stands
/// was canceled by the user, anything else is an error.
pub fn spawn_failure_status(inner: &EngineInner, ctx: &SendContext) -> (r: &'static str)
    ensures
        r@ == (if reservation_stands(*inner, *ctx) {
            "error"@
        } else {
            "interrupted"@
        }),
{
    if send_reservation_valid(inner, ctx) {
        "error"
    } else {
        "interrupted"
    }
}

/// A dequeued delivery was canceled, not failed.
pub open spec fn dequeue_canceled(inner: EngineInner, dequeue_epoch: u64) -> bool {
    inner.stopped || inner.interrupting || inner.reset_epoch != dequeue_epoch
}

/// The status of a dequeued delivery that failed.
pub fn drain_failure_status(inner: &EngineInner, dequeue_epoch: u64) -> (r: &'static str)
    ensures
        r@ == (if dequeue_canceled(*inner, dequeue_epoch) {
            "interrupted"@
        } else {
            "error"@
        }),
{
    if inner.stopped || inner.interrupting || inner.reset_epoch != dequeue_epoch {
        "interrupted"
    } else {
        "error"
    }
}

/// The digest that a delivered send carried is done with. A newer one, staged in
/// the meantime, belongs to a later turn.
pub fn clear_delivered_digest(inner: &mut EngineInner, digest: Option<&str>)
    ensures
        opt_view(final(inner).pending_context_digest) == (if digest is Some && opt_view(
            old(inner).pending_context_digest,
        ) == opt_str_view(digest) {
            None
        } else {
            opt_view(old(inner).pending_context_digest)
        }),
        *final(inner) == (EngineInner {
            pending_context_digest: final(inner).pending_context_digest,
            ..*old(inner)
        }),
{
    if digest.is_some() && same_opt(opt_ref(&inner.pending_context_digest), digest) {
        inner.pending_context_digest = None;
    }
}

/// A pasted image as a data URI.
pub open spec fn data_uri(image: (String, String)) -> Seq<char> {
    "data:"@ + image.0@ + ";base64,"@ + image.1@
}

pub open spec fn data_uris(images: Seq<(String, String)>) -> Seq<Seq<char>> {
    images.map_values(|p: (String, String)| data_uri(p))
}

/// The pasted images as data URIs.
pub fn image_uris(images: &Vec<(String, String)>) -> (r: Vec<String>)
    ensures
        texts_view(r@) == data_uris(images@),
{
    let mut out: Vec<String> = Vec::new();
    let mut i: usize = 0;
    while i < images.len()
        invariant
            i <= images@.len(),
            texts_view(out@) == data_uris(images@.take(i as int)),
        decreases images@.len() - i,
    {
        let mut u = cat3("data:", images[i].0.as_str(), ";base64,");
        u.append(images[i].1.as_str());
        proof {
            assert(texts_view(out@.push(u)) =~= texts_view(out@).push(u@));
            assert(data_uris(images@.take(i + 1)) =~= data_uris(images@.take(i as int)).push(u@));
        }
        out.push(u);
        i = i + 1;
    }
    assert(images@.take(images@.len() as int) =~= images@);
    out
}

/// The content of a plain user row.
pub open spec fn user_tree(
    text: Seq<char>,
    images: Seq<(String, String)>,
    files: Seq<Seq<char>>,
) -> Map<Seq<char>, JsonView> {
    map![].insert("text"@, JsonView::Str(text)).insert(
        "images"@,
        JsonView::Arr(str_items(data_uris(images))),
    ).insert("files"@, JsonView::Arr(str_items(files)))
}

/// The content of a command row: the command and what follows the first space.
pub open spec fn command_tree(text: Seq<char>) -> JsonView {
    let t = trimmed_start(text);
    JsonView::Obj(
        map![].insert("command"@, JsonView::Str(before_char(t, ' '))).insert(
            "args"@,
            JsonView::Str(after_char(t, ' ')),
        ),
    )
}

pub open spec fn user_row_tree(
    is_command: bool,
    text: Seq<char>,
    images: Seq<(String, String)>,
    files: Seq<Seq<char>>,
) -> JsonView {
    if is_command {
        command_tree(text)
    } else {
        JsonView::Obj(user_tree(text, images, files))
    }
}

fn user_members(text: &str, images: &Vec<(String, String)>, files: &Vec<String>) -> (r: Vec<
    JsonEntry,
>)
    ensures
        crate::json::entries_view(r@) == user_tree(text@, images@, texts_view(files@)),
{
    let mut m: Vec<JsonEntry> = Vec::new();
    put(&mut m, "text", Json::Str(text.to_owned()));
    let uris = image_uris(images);
    put(&mut m, "images", string_array(&uris));
    put(&mut m, "files", string_array(files));
    m
}

/// The content of the row of a message: what the human typed, nothing that is
/// added for the agent.
pub fn user_row_content(
    is_command: bool,
    text: &str,
    images: &Vec<(String, String)>,
    files: &Vec<String>,
) -> (r: String)
    ensures
        r@ == json_text(user_row_tree(is_command, text@, images@, texts_view(files@))),
{
    if is_command {
        let (command, args) = split_first(trim_start(text), ' ');
        let mut m: Vec<JsonEntry> = Vec::new();
        put(&mut m, "command", Json::Str(command.to_owned()));
        put(&mut m, "args", Json::Str(args.to_owned()));
        Json::Obj(m).print()
    } else {
        Json::Obj(user_members(text, images, files)).print()
    }
}

/// The kind and the first status of the row of a message.
pub fn user_row_kind(ctx: &SendContext) -> (r: (&'static str, &'static str))
    ensures
        r.0@ == (if ctx.is_command {
            "command"@
        } else {
            "text"@
        }),
        r.1@ == (if ctx.direct {
            "complete"@
        } else {
            "queued"@
        }),
{
    let kind = if ctx.is_command {
        "command"
    } else {
        "text"
    };
    let status = if ctx.direct {
        "complete"
    } else {
        "queued"
    };
    (kind, status)
}

/// The content of a row whose dispatched text cannot be derived from it.
pub open spec fn dispatched_tree(
    text: Seq<char>,
    images: Seq<(String, String)>,
    files: Seq<Seq<char>>,
    dispatched: Seq<char>,
) -> JsonView {
    JsonView::Obj(
        user_tree(text, images, files).insert("dispatched"@, JsonView::Str(dispatched)),
    )
}

/// The content of a row whose dispatched text cannot be derived from it.
pub fn dispatched_content(
    text: &str,
    images: &Vec<(String, String)>,
    files: &Vec<String>,
    dispatched: &str,
) -> (r: String)
    ensures
        r@ == json_text(dispatched_tree(text@, images@, texts_view(files@), dispatched@)),
{
    let mut m = user_members(text, images, files);
    put(&mut m, "dispatched", Json::Str(dispatched.to_owned()));
    Json::Obj(m).print()
}

/// The content of the notice that the agent's program is missing.
pub fn agent_not_found_content(tool: &str) -> (r: String)
    ensures
        r@ == json_text(
            JsonView::Obj(
                map![].insert("terminal"@, JsonView::Str("agent_not_found"@)).insert(
                    "tool"@,
                    JsonView::Str(tool@),
                ),
            ),
        ),
{
    let mut m: Vec<JsonEntry> = Vec::new();
    put(&mut m, "terminal", Json::Str("agent_not_found".to_owned()));
    put(&mut m, "tool", Json::Str(tool.to_owned()));
    Json::Obj(m).print()
}

/// One line per entry, with a dash before it.
pub open spec fn dash_lines(entries: Seq<Seq<char>>) -> Seq<char>
    decreases entries.len(),
{
    if entries.len() == 0 {
        seq![]
    } else {
        dash_lines(entries.drop_last()) + "- "@ + entries.last() + "\n"@
    }
}

fn append_dash_lines(out: &mut String, entries: &Vec<String>)
    ensures
        final(out)@ == old(out)@ + dash_lines(texts_view(entries@)),
{
    let mut i: usize = 0;
    let ghost before = out@;
    assert(before + dash_lines(texts_view(entries@.take(0))) =~= before);
    while i < entries.len()
        invariant
            i <= entries@.len(),
            before == old(out)@,
            out@ == before + dash_lines(texts_view(entries@.take(i as int))),
        decreases entries@.len() - i,
    {
        proof {
            let t = texts_view(entries@.take(i + 1));
            assert(t.drop_last() =~= texts_view(entries@.take(i as int)));
            assert(t.last() == entries@[i as int]@);
        }
        let ghost sofar = out@;
        out.append("- ");
        out.append(entries[i].as_str());
        out.append("\n");
        assert(out@ =~= before + dash_lines(texts_view(entries@.take(i + 1))));
        i = i + 1;
    }
    assert(entries@.take(entries@.len() as int) =~= entries@);
}

/// The outbound text, with the attached files listed behind it.
pub open spec fn with_files_spec(text: Seq<char>, files: Seq<Seq<char>>) -> Seq<char> {
    if files.len() == 0 {
        text
    } else {
        text + "\n\nAttached files (read them as needed):\n"@ + dash_lines(files)
    }
}

/// List the attached files behind the text: the agent reads them with its own
/// tools.
pub fn with_files(text: &str, files: &Vec<String>) -> (r: String)
    ensures
        r@ == with_files_spec(text@, texts_view(files@)),
{
    let mut out = text.to_owned();
    if files.len() > 0 {
        out.append("\n\nAttached files (read them as needed):\n");
        append_dash_lines(&mut out, files);
    }
    out
}

/// The outbound text, with the spilled images listed behind it.
pub open spec fn with_images_spec(text: Seq<char>, paths: Seq<Seq<char>>) -> Seq<char> {
    text + "\n\nAttached images (read them as needed):\n"@ + dash_lines(paths)
}

/// List the spilled images behind the text.
pub fn with_images(text: &str, paths: &Vec<String>) -> (r: String)
    ensures
        r@ == with_images_spec(text@, texts_view(paths@)),
{
    let mut out = cat(text, "\n\nAttached images (read them as needed):\n");
    append_dash_lines(&mut out, paths);
    out
}

/// The outbound text with the digest before it, where there is one.
pub open spec fn with_digest_spec(digest: Option<Seq<char>>, text: Seq<char>) -> Seq<char> {
    match digest {
        Some(d) => if d.len() > 0 {
            d + "\n\n"@ + text
        } else {
            text
        },
        None => text,
    }
}

/// The history digest goes before everything else.
pub fn with_digest(digest: Option<&str>, text: &str) -> (r: String)
    ensures
        r@ == with_digest_spec(opt_str_view(digest), text@),
{
    match digest {
        Some(d) => if d.is_empty() {
            text.to_owned()
        } else {
            cat3(d, "\n\n", text)
        },
        None => text.to_owned(),
    }
}

/// The pasted images go to files: a tool with a process for each turn takes none
/// inline.
pub open spec fn spills(tool: Seq<char>, images: Seq<(String, String)>) -> bool {
    spawns_per_turn(tool) && images.len() > 0
}

/// Whether the pasted images of a message are to be written to files.
pub fn images_spill(tool: &str, images: &Vec<(String, String)>) -> (r: bool)
    ensures
        r == spills(tool@, images@),
{
    per_turn(tool) && images.len() > 0
}

/// What goes out of a message: its text, the attached files, and the images that
/// were written to files.
pub open spec fn outbound_body(
    tool: Seq<char>,
    text: Seq<char>,
    images: Seq<(String, String)>,
    files: Seq<Seq<char>>,
    written: Seq<Seq<char>>,
) -> Seq<char> {
    if spills(tool, images) {
        with_images_spec(with_files_spec(text, files), written)
    } else {
        with_files_spec(text, files)
    }
}

/// A message is put together: `r.0` goes to the agent, and `r.1` is the new content
/// of its row, where what went out cannot be derived from the old one.
pub open spec fn composed(
    ctx: SendContext,
    row: i32,
    text: Seq<char>,
    images: Vec<(String, String)>,
    files: Seq<Seq<char>>,
    written: Seq<Seq<char>>,
    digest: Option<Seq<char>>,
    r: (Outgoing, Option<String>),
) -> bool {
    let body = outbound_body(ctx.tool@, text, images@, files, written);
    &&& r.0.text@ == with_digest_spec(digest, body)
    &&& if spills(ctx.tool@, images@) {
        r.0.images@.len() == 0
    } else {
        r.0.images == images
    }
    &&& r.0.is_tracked
    &&& opt_view(r.0.origin_tag) == opt_view(ctx.origin_tag)
    &&& r.0.queue_id == (if ctx.direct {
        None
    } else {
        Some(row)
    })
    &&& r.0.has_attachments == (files.len() > 0 || images@.len() > 0)
    &&& opt_view(r.1) == (if spills(ctx.tool@, images@) {
        Some(json_text(dispatched_tree(text, images@, files, body)))
    } else {
        None
    })
}

/// Put a message together. `written` are the paths of the images that were written
/// to files. The digest comes in last: what is stored of the message never holds it.
pub fn compose_outgoing(
    ctx: &SendContext,
    row: i32,
    text: &str,
    images: Vec<(String, String)>,
    files: &Vec<String>,
    written: &Vec<String>,
    digest: Option<&str>,
) -> (r: (Outgoing, Option<String>))
    ensures
        composed(
            *ctx,
            row,
            text@,
            images,
            texts_view(files@),
            texts_view(written@),
            opt_str_view(digest),
            r,
        ),
{
    let has_attachments = files.len() > 0 || images.len() > 0;
    let listed = with_files(text, files);
    let (body, stored, inline) = if images_spill(ctx.tool.as_str(), &images) {
        let body = with_images(listed.as_str(), written);
        let stored = dispatched_content(text, &images, files, body.as_str());
        (body, Some(stored), Vec::new())
    } else {
        (listed, None, images)
    };
    let queue_id: Option<i32> = if ctx.direct {
        None
    } else {
        Some(row)
    };
    let out = Outgoing {
        text: with_digest(digest, body.as_str()),
        images: inline,
        is_tracked: true,
        origin_tag: opt_clone(&ctx.origin_tag),
        queue_id,
        has_attachments,
    };
    (out, stored)
}

/// The history digest is never persisted: whatever digest a message goes out with,
/// its row is the same, and the agent gets the digest before what it would have got
/// without one.
pub proof fn law_digest_is_never_stored(
    ctx: SendContext,
    row: i32,
    text: Seq<char>,
    images: Vec<(String, String)>,
    files: Seq<Seq<char>>,
    written: Seq<Seq<char>>,
    digest: Option<Seq<char>>,
    with: (Outgoing, Option<String>),
    without: (Outgoing, Option<String>),
)
    requires
        composed(ctx, row, text, images, files, written, digest, with),
        composed(ctx, row, text, images, files, written, None, without),
    ensures
        opt_view(with.1) == opt_view(without.1),
        with.0.text@ == with_digest_spec(digest, without.0.text@),
{
}

/// A pasted image to be written to a file.
pub struct Spill {
    pub name: String,
    pub bytes: Vec<u8>,
}

pub struct SpillView {
    pub name: Seq<char>,
    pub bytes: Seq<u8>,
}

impl View for Spill {
    type V = SpillView;

    open spec fn view(&self) -> SpillView {
        SpillView { name: self.name@, bytes: self.bytes@ }
    }
}

pub open spec fn spills_view(v: Seq<Spill>) -> Seq<SpillView> {
    v.map_values(|s: Spill| s@)
}

/// The file name of image number `i` of a row; its media type gives the ending.
pub open spec fn spill_name(row_id: int, i: nat, media_type: Seq<char>) -> Seq<char> {
    "msg"@ + int_text(row_id) + "-"@ + digits(i) + "."@ + after_last(media_type, '/')
}

/// The images that decode, each under its own name.
pub open spec fn spill_plan_spec(row_id: int, images: Seq<(String, String)>) -> Seq<SpillView>
    decreases images.len(),
{
    if images.len() == 0 {
        seq![]
    } else {
        let before = spill_plan_spec(row_id, images.drop_last());
        match base64_decoded(images.last().1@) {
            Some(bytes) => before.push(
                SpillView {
                    name: spill_name(row_id, (images.len() - 1) as nat, images.last().0@),
                    bytes,
                },
            ),
            None => before,
        }
    }
}

/// Per-turn dialects take no inline images: pasted ones are written to files. An
/// image whose data does not decode is left out.
pub fn spill_plan(row_id: i32, images: &Vec<(String, String)>) -> (r: Vec<Spill>)
    ensures
        spills_view(r@) == spill_plan_spec(row_id as int, images@),
{
    let mut out: Vec<Spill> = Vec::new();
    let mut i: usize = 0;
    assert(spills_view(out@) =~= spill_plan_spec(row_id as int, images@.take(0)));
    while i < images.len()
        invariant
            i <= images@.len(),
            spills_view(out@) == spill_plan_spec(row_id as int, images@.take(i as int)),
        decreases images@.len() - i,
    {
        proof {
            assert(images@.take(i + 1).drop_last() =~= images@.take(i as int));
            assert(images@.take(i + 1).last() == images@[i as int]);
        }
        match base64_decode(images[i].1.as_str()) {
            Some(bytes) => {
                let mut name = cat3("msg", signed_text(row_id as i64).as_str(), "-");
                name.append(unsigned_text(i as u64).as_str());
                name.append(".");
                name.append(last_part(images[i].0.as_str(), '/'));
                let s = Spill { name, bytes };
                assert(s@.name =~= spill_name(row_id as int, i as nat, images@[i as int].0@));
                assert(spills_view(out@.push(s)) =~= spills_view(out@).push(s@));
                out.push(s);
            },
            None => {},
        }
        i = i + 1;
    }
    assert(images@.take(images@.len() as int) =~= images@);
    out
}

/// The bytes that `base64`'s standard engine decodes from a text; none where it
/// reports an error.
pub uninterp spec fn base64_decoded(text: Seq<char>) -> Option<Seq<u8>>;

/// `base64::engine::general_purpose::STANDARD.decode`: its result, the error
/// dropped, is the named one and depends on the text alone.
#[verifier::external_body]
fn base64_decode(text: &str) -> (r: Option<Vec<u8>>)
    ensures
        match r {
            Some(bytes) => base64_decoded(text@) == Some(bytes@),
            None => base64_decoded(text@) is None,
        },
{
    base64::Engine::decode(&base64::engine::general_purpose::STANDARD, text).ok()
}

/// One content block of a message on the resident's stdin.
pub open spec fn image_block(image: (String, String)) -> JsonView {
    JsonView::Obj(
        map![].insert("type"@, JsonView::Str("image"@)).insert(
            "source"@,
            JsonView::Obj(
                map![].insert("type"@, JsonView::Str("base64"@)).insert(
                    "media_type"@,
                    JsonView::Str(image.0@),
                ).insert("data"@, JsonView::Str(image.1@)),
            ),
        ),
    )
}

pub open spec fn text_block(text: Seq<char>) -> JsonView {
    JsonView::Obj(
        map![].insert("type"@, JsonView::Str("text"@)).insert("text"@, JsonView::Str(text)),
    )
}

/// The message on the resident's stdin: the text block, then the images.
pub open spec fn stdin_tree(out: Outgoing) -> JsonView {
    JsonView::Obj(
        map![].insert("type"@, JsonView::Str("user"@)).insert(
            "message"@,
            JsonView::Obj(
                map![].insert("role"@, JsonView::Str("user"@)).insert(
                    "content"@,
                    JsonView::Arr(
                        seq![text_block(out.text@)] + out.images@.map_values(
                            |p: (String, String)| image_block(p),
                        ),
                    ),
                ),
            ),
        ),
    )
}

fn image_json(image: &(String, String)) -> (r: Json)
    ensures
        r@ == image_block(*image),
{
    let mut source: Vec<JsonEntry> = Vec::new();
    put(&mut source, "type", Json::Str("base64".to_owned()));
    put(&mut source, "media_type", Json::Str(image.0.clone()));
    put(&mut source, "data", Json::Str(image.1.clone()));
    let mut m: Vec<JsonEntry> = Vec::new();
    put(&mut m, "type", Json::Str("image".to_owned()));
    put(&mut m, "source", Json::Obj(source));
    Json::Obj(m)
}

/// The line that delivers a message to the resident process.
pub fn user_line(out: &Outgoing) -> (r: String)
    ensures
        r@ == json_text(stdin_tree(*out)) + "\n"@,
{
    let mut block: Vec<JsonEntry> = Vec::new();
    put(&mut block, "type", Json::Str("text".to_owned()));
    put(&mut block, "text", Json::Str(out.text.clone()));
    let first = Json::Obj(block);
    assert(first@ == text_block(out.text@));
    let mut content: Vec<Json> = Vec::new();
    let ghost none = content@;
    let ghost f = |p: (String, String)| image_block(p);
    content.push(first);
    proof {
        assert(content@.drop_last() =~= none);
        assert(crate::json::items_view(none) =~= seq![]);
        assert(content@.last() == first);
        assert(out.images@.take(0).map_values(f) =~= seq![]);
        assert(crate::json::items_view(content@) =~= seq![text_block(out.text@)]
            + out.images@.take(0).map_values(f));
    }
    let mut i: usize = 0;
    while i < out.images.len()
        invariant
            i <= out.images@.len(),
            f == (|p: (String, String)| image_block(p)),
            crate::json::items_view(content@) == seq![text_block(out.text@)] + out.images@.take(
                i as int,
            ).map_values(f),
        decreases out.images@.len() - i,
    {
        let j = image_json(&out.images[i]);
        proof {
            assert(content@.push(j).drop_last() =~= content@);
            assert(seq![text_block(out.text@)] + out.images@.take(i + 1).map_values(f) =~= (
            seq![text_block(out.text@)] + out.images@.take(i as int).map_values(f)).push(j@));
        }
        content.push(j);
        i = i + 1;
    }
    assert(out.images@.take(out.images@.len() as int) =~= out.images@);
    let mut message: Vec<JsonEntry> = Vec::new();
    put(&mut message, "role", Json::Str("user".to_owned()));
    put(&mut message, "content", Json::Arr(content));
    let mut m: Vec<JsonEntry> = Vec::new();
    put(&mut m, "type", Json::Str("user".to_owned()));
    put(&mut m, "message", Json::Obj(message));
    let line = Json::Obj(m).print();
    cat(line.as_str(), "\n")
}

/// The resident process is gone, with its stdin and its slot, and its reader is stale.
pub open spec fn resident_dropped(before: EngineInner, after: EngineInner) -> bool {
    after == (EngineInner {
        generation: (before.generation + 1) as u64,
        stdin: false,
        child: false,
        child_permit: false,
        ..before
    })
}

/// Drop the resident process and its stdin: a failed write may have left half a
/// line in the pipe. The reader of the old process sees a newer generation and
/// exits; the slot goes back.
pub fn invalidate_resident(inner: &mut EngineInner)
    requires
        old(inner).generation < u64::MAX,
    ensures
        resident_dropped(*old(inner), *final(inner)),
{
    inner.generation = inner.generation + 1;
    inner.stdin = false;
    inner.child = false;
    inner.child_permit = false;
}

/// A stop or reset since the reservation, even one followed by a restart, kills
/// the send: no state with another epoch lets it through.
pub proof fn law_reset_kills_reservations(inner: EngineInner, ctx: SendContext)
    requires
        inner.reset_epoch != ctx.reset_epoch,
    ensures
        !reservation_stands(inner, ctx),
        !owns_turn(inner, ctx),
{
}

/// A reservation stands when it is made.
pub proof fn law_fresh_reservation_stands(
    before: EngineInner,
    after: EngineInner,
    ctx: SendContext,
    now: u64,
)
    requires
        !before.turn.busy,
        !before.stopped,
        !before.tearing_down,
        !before.interrupting,
        turn_claimed(before, after, opt_view(ctx.origin_tag), now),
        ctx.turn == after.turn_id,
        ctx.reset_epoch == after.reset_epoch,
    ensures
        reservation_stands(after, ctx),
{
}

/// No commit lets more messages wait than the cap allows.
pub proof fn law_commit_keeps_the_cap(
    before: EngineInner,
    after: EngineInner,
    ctx: SendContext,
    out: Outgoing,
    now: u64,
    r: Commit,
)
    requires
        committed(before, after, ctx, out, now, r),
        tracked_ids(before.turn.queue@).len() <= MAX_QUEUED,
    ensures
        tracked_ids(after.turn.queue@).len() <= MAX_QUEUED,
{
    if r == Commit::Queued {
        assert(after.turn.queue@.drop_last() =~= before.turn.queue@);
    }
}

/// A message that was let through is never lost: the commit dispatches it now or
/// puts it behind everything that already waits, and no earlier message moves.
pub proof fn law_commit_loses_nothing(
    before: EngineInner,
    after: EngineInner,
    ctx: SendContext,
    out: Outgoing,
    now: u64,
    r: Commit,
)
    requires
        committed(before, after, ctx, out, now, r),
    ensures
        before.turn.queue@.is_prefix_of(after.turn.queue@),
        r is Queued ==> after.turn.queue@ == before.turn.queue@.push(out),
        r matches Commit::Dispatch { out: o, .. } ==> o == out && after.turn.queue@
            == before.turn.queue@ && after.turn.busy,
{
    if r == Commit::Queued {
        assert(before.turn.queue@.is_prefix_of(before.turn.queue@.push(out)));
    }
}

} // verus!
