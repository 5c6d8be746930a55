//! What sending a message promises, said of the engine before and after and of what goes
//! out.

use vstd::prelude::*;

use crate::decimal::{digits, int_text};
use crate::engine::{EngineInner, TurnClock};
use crate::json::{json_text, str_items, JsonView};
use crate::sending::{
    agent_not_found_content, base64_decoded, clear_delivered_digest, codex_appserver_enabled,
    codex_first_turn_text, command_tree, commit_send, compose_outgoing, dash_lines,
    dispatched_content, dispatched_tree, drain_failure_status, image_uris, images_spill,
    invalidate_resident, promote_queued_reservation, refresh_due, refreshed, refuse_without_program,
    reserve_send, resume_for_send, rollback_canceled_send, send_blocked, send_reservation_valid,
    spawn_failure_status, spill_plan, spill_plan_spec, spills_view, stdin_tree, transport,
    turn_opened, undo_promotion, user_line, user_row_content, user_row_kind, user_row_tree,
    with_digest, with_files, with_images, Commit, Rollback, SendContext, SendError, Spill,
    SpillView, Transport,
};
use crate::text::{after_last, opt_view, texts_view, trimmed_start};
use crate::turn::Outgoing;

verus! {

/// The app-server carries codex where it is enabled, and nothing else; the connection
/// backend carries its own tool; the other tools without a resident process get one for
/// each turn; all the rest goes to the resident process.
pub proof fn law_transport_of_a_tool(tool: &str, appserver: bool, r: Transport)
    requires
        call_ensures(transport, (tool, appserver), r),
    ensures
        (r == Transport::AppServer) == (tool@ == "codex"@ && appserver),
        (r == Transport::Connection) == (tool@ == "omp"@),
        (r == Transport::PerTurn) == (tool@ == "opencode"@ || (tool@ == "codex"@ && !appserver)),
        (r == Transport::Resident) == (tool@ != "codex"@ && tool@ != "opencode"@ && tool@
            != "omp"@),
{
    reveal_strlit("codex");
    reveal_strlit("opencode");
    reveal_strlit("omp");
    assert("codex"@.len() == 5 && "opencode"@.len() == 8 && "omp"@.len() == 3);
}

/// The app-server is enabled unless it is switched off.
pub proof fn law_appserver_is_the_default(setting: Option<&str>, r: bool)
    requires
        call_ensures(codex_appserver_enabled, (setting,), r),
    ensures
        setting is None ==> r,
        setting is Some ==> r == (setting->0@ != "0"@),
{
}

/// The system prompt goes before the text of a session's first turn, and before no other.
pub proof fn law_system_prompt_goes_first_once(
    prompt: &str,
    text: &str,
    first: String,
    later: String,
)
    requires
        call_ensures(codex_first_turn_text, (prompt, text, false), first),
        call_ensures(codex_first_turn_text, (prompt, text, true), later),
    ensures
        later@ == text@,
        prompt@.len() == 0 ==> first@ == text@,
        prompt@.len() > 0 ==> first@ == prompt@ + "\n\n"@ + text@,
{
}

/// A message is refused exactly while a rewind holds the session, an engine switch is
/// being committed, a restore holds its worktree, or too many wait; in that order the
/// reason is given. A refused message changes nothing.
pub proof fn law_when_a_message_is_refused(
    before: EngineInner,
    text: &str,
    origin_tag: Option<String>,
    worktree_reserved: bool,
    now: u64,
    r: Result<SendContext, SendError>,
    after: EngineInner,
)
    requires
        before.turn_id < i32::MAX,
        exists|m: &mut EngineInner|
            *m == before && *final(m) == after && #[trigger] call_ensures(
                reserve_send,
                (m, text, origin_tag, worktree_reserved, now),
                r,
            ),
    ensures
        ({
            let held = before.worktree_id is Some && worktree_reserved;
            let full = before.turn.busy && before.turn.queue@.filter(
                |o: Outgoing| o.queue_id is Some,
            ).len() >= 5;
            &&& r is Err == (before.rewinding || before.quota_failover_committing || held || full)
            &&& before.rewinding ==> r->Err_0 == SendError::Rewinding
            &&& !before.rewinding && before.quota_failover_committing ==> r->Err_0
                == SendError::SwitchInProgress
            &&& !before.rewinding && !before.quota_failover_committing && held ==> r->Err_0
                == SendError::WorktreeReserved
            &&& !before.rewinding && !before.quota_failover_committing && !held && full
                ==> r->Err_0 == SendError::QueueFull
            &&& r is Err ==> after == before
        }),
{
    crate::queue_laws::lemma_ids(before.turn.queue@);
}

/// A message that finds the engine idle takes the turn at once: the next number, a fresh
/// clock and its own reply target. One that finds it busy takes nothing yet. Either way
/// the reservation says where the engine stood.
pub proof fn law_idle_engine_is_taken_at_once(
    before: EngineInner,
    text: &str,
    origin_tag: Option<String>,
    worktree_reserved: bool,
    now: u64,
    r: Result<SendContext, SendError>,
    after: EngineInner,
)
    requires
        before.turn_id < i32::MAX,
        exists|m: &mut EngineInner|
            *m == before && *final(m) == after && #[trigger] call_ensures(
                reserve_send,
                (m, text, origin_tag, worktree_reserved, now),
                r,
            ),
        r is Ok,
    ensures
        after == (EngineInner {
            turn: after.turn,
            turn_id: after.turn_id,
            clock: after.clock,
            current_origin_tag: after.current_origin_tag,
            ..before
        }),
        after.turn.bus_read_pos == before.turn.bus_read_pos,
        r->Ok_0.direct == !before.turn.busy,
        r->Ok_0.direct ==> {
            &&& after.turn.busy && after.turn_id == before.turn_id + 1
            &&& after.clock == (TurnClock { started_millis: now, consumed_marked: false })
            &&& opt_view(after.current_origin_tag) == opt_view(origin_tag)
            &&& after.turn.queue == before.turn.queue && !after.turn.quota_exceeded
        },
        !r->Ok_0.direct ==> after == before,
        r->Ok_0.turn == after.turn_id && r->Ok_0.reset_epoch == before.reset_epoch,
        r->Ok_0.thread_id == before.thread_id && r->Ok_0.session_id == before.session_id,
        r->Ok_0.tool@ == before.tool@ && opt_view(r->Ok_0.origin_tag) == opt_view(origin_tag),
        r->Ok_0.is_command == (trimmed_start(text@).len() > 0 && trimmed_start(text@)[0] == '/'),
{
    reveal_strlit("/");
    let t = trimmed_start(text@);
    assert("/"@.len() == 1 && "/"@[0] == '/');
    if t.len() > 0 {
        if t[0] == '/' {
            assert(t.subrange(0, 1) =~= "/"@);
        } else {
            assert(t.subrange(0, 1)[0] == t[0]);
        }
    }
}

/// A reservation of the running turn stands until the engine is stopped, torn down, reset,
/// interrupted, or goes on to another turn; one that waits is untouched by an interrupt or
/// another turn.
pub proof fn law_what_a_reservation_survives(inner: &EngineInner, ctx: &SendContext, r: bool)
    requires
        call_ensures(send_reservation_valid, (inner, ctx), r),
    ensures
        inner.stopped || inner.tearing_down || inner.reset_epoch != ctx.reset_epoch ==> !r,
        !inner.stopped && !inner.tearing_down && inner.reset_epoch == ctx.reset_epoch
            && !ctx.direct ==> r,
        !inner.stopped && !inner.tearing_down && inner.reset_epoch == ctx.reset_epoch && ctx.direct
            ==> r == (!inner.interrupting && inner.turn_id == ctx.turn && inner.turn.busy),
{
}

/// What becomes of a message: it is dispatched as the turn that was taken for it; or it
/// waits behind the running turn, last of all; or, when that turn is over by now, it is
/// dispatched as a turn of its own. It is never both, and what waits stays.
pub proof fn law_message_is_dispatched_or_waits(
    before: EngineInner,
    ctx: &SendContext,
    out: Outgoing,
    now: u64,
    valid: bool,
    r: Commit,
    after: EngineInner,
)
    requires
        before.turn_id < i32::MAX,
        call_ensures(send_reservation_valid, (&before, ctx), valid),
        exists|m: &mut EngineInner|
            *m == before && *final(m) == after && #[trigger] call_ensures(
                commit_send,
                (m, ctx, out, now),
                r,
            ),
    ensures
        after == (EngineInner {
            turn: after.turn,
            turn_id: after.turn_id,
            clock: after.clock,
            current_origin_tag: after.current_origin_tag,
            ..before
        }),
        after.turn.bus_read_pos == before.turn.bus_read_pos,
        r is Queued ==> after == (EngineInner { turn: after.turn, ..before })
            && after.turn.quota_exceeded == before.turn.quota_exceeded,
        ({
            let full = before.turn.queue@.filter(|o: Outgoing| o.queue_id is Some).len() >= 5;
            &&& r is Invalid == !valid
            &&& valid && ctx.direct ==> r == (Commit::Dispatch {
                turn: ctx.turn,
                promoted: false,
                out,
            }) && after == before
            &&& valid && !ctx.direct && before.turn.busy && !full ==> r is Queued
                && after.turn.queue@ == before.turn.queue@.push(out) && after.turn_id
                == before.turn_id && after.turn.busy
            &&& valid && !ctx.direct && before.turn.busy && full ==> r is QueueFull && after
                == before
            &&& valid && !ctx.direct && !before.turn.busy && before.interrupting
                ==> r is Interrupted && after == before
            &&& valid && !ctx.direct && !before.turn.busy && !before.interrupting ==> r == (
            Commit::Dispatch { turn: after.turn_id, promoted: true, out }) && after.turn_id
                == before.turn_id + 1 && after.turn.busy && after.turn.queue == before.turn.queue
                && opt_view(after.current_origin_tag) == opt_view(ctx.origin_tag)
            &&& r is Invalid ==> after == before
        }),
{
    crate::queue_laws::lemma_ids(before.turn.queue@);
}

/// A turn that is opened by a row points at it, and has no anchor yet.
pub proof fn law_opened_turn_points_at_its_row(before: EngineInner, row: i32, after: EngineInner)
    requires
        exists|m: &mut EngineInner|
            *m == before && *final(m) == after && #[trigger] call_ensures(
                turn_opened,
                (m, row),
                (),
            ),
    ensures
        after == (EngineInner {
            turn_user_row: Some(row),
            last_assistant_uuid: None,
            ..before
        }),
{
}

/// A promotion that is undone gives the turn back: the engine is idle, under the number it
/// had, and what waited waits.
pub proof fn law_promotion_can_be_undone(
    before: EngineInner,
    tag: Option<String>,
    now: u64,
    turn: i32,
    taken: EngineInner,
    after: EngineInner,
)
    requires
        before.turn_id < i32::MAX,
        !before.turn.busy,
        exists|m: &mut EngineInner|
            *m == before && *final(m) == taken && #[trigger] call_ensures(
                promote_queued_reservation,
                (m, tag, now),
                turn,
            ),
        exists|m: &mut EngineInner|
            *m == taken && *final(m) == after && #[trigger] call_ensures(undo_promotion, (m,), ()),
    ensures
        !after.turn.quota_exceeded && !taken.turn.quota_exceeded,
        taken == (EngineInner {
            turn: taken.turn,
            turn_id: taken.turn_id,
            clock: taken.clock,
            current_origin_tag: taken.current_origin_tag,
            ..before
        }),
        taken.clock == (TurnClock { started_millis: now, consumed_marked: false }),
        after == (EngineInner {
            turn: after.turn,
            turn_id: after.turn_id,
            clock: after.clock,
            current_origin_tag: after.current_origin_tag,
            ..before
        }),
        taken.turn.busy && taken.turn_id == before.turn_id + 1 && turn == taken.turn_id,
        opt_view(taken.current_origin_tag) == opt_view(tag),
        !after.turn.busy && after.turn_id == before.turn_id,
        after.turn.queue == before.turn.queue && after.turn.bus_read_pos
            == before.turn.bus_read_pos,
        after.current_origin_tag is None,
{
}

/// A canceled send gives back the turn that it holds, and only that: the engine is idle
/// again, the rows that waited behind it are named, and its number is given back unless
/// its row is stored.
pub proof fn law_canceled_send_gives_its_turn_back(
    before: EngineInner,
    ctx: &SendContext,
    row_persisted: bool,
    r: Option<Rollback>,
    after: EngineInner,
)
    requires
        ctx.turn > i32::MIN,
        exists|m: &mut EngineInner|
            *m == before && *final(m) == after && #[trigger] call_ensures(
                rollback_canceled_send,
                (m, ctx, row_persisted),
                r,
            ),
    ensures
        after == (EngineInner {
            turn: after.turn,
            turn_id: after.turn_id,
            current_origin_tag: after.current_origin_tag,
            interrupting: after.interrupting,
            ..before
        }),
        after.turn.bus_read_pos == before.turn.bus_read_pos && after.turn.quota_exceeded
            == before.turn.quota_exceeded,
        r is Some == (ctx.direct && before.reset_epoch == ctx.reset_epoch && before.turn_id
            == ctx.turn && before.turn.busy),
        r is None ==> after == before,
        r is Some ==> {
            &&& !after.turn.busy && after.turn.queue@.len() == 0 && !after.interrupting
            &&& after.current_origin_tag is None
            &&& row_persisted ==> after.turn_id == ctx.turn
            &&& !row_persisted ==> after.turn_id == ctx.turn - 1
            &&& r->0.drained@ == before.turn.queue@.filter(
                |o: Outgoing| o.queue_id is Some,
            ).map_values(|o: Outgoing| o.queue_id->0)
            &&& before.stopped ==> r->0.activity@ == "stopped"@
            &&& !before.stopped ==> r->0.activity@ == "idle"@
            &&& after.stopped == before.stopped && after.native_id == before.native_id
        },
{
    crate::queue_laws::lemma_ids(before.turn.queue@);
}

/// A failure to start is an error while the send still stands, and an interrupt once it
/// was overtaken; likewise for a message from the queue.
pub proof fn law_failures_of_overtaken_sends_are_interrupts(
    inner: &EngineInner,
    ctx: &SendContext,
    valid: bool,
    spawn: &'static str,
    epoch: u64,
    drain: &'static str,
)
    requires
        call_ensures(send_reservation_valid, (inner, ctx), valid),
        call_ensures(spawn_failure_status, (inner, ctx), spawn),
        call_ensures(drain_failure_status, (inner, epoch), drain),
    ensures
        valid ==> spawn@ == "error"@,
        !valid ==> spawn@ == "interrupted"@,
        inner.stopped || inner.interrupting || inner.reset_epoch != epoch ==> drain@
            == "interrupted"@,
        !inner.stopped && !inner.interrupting && inner.reset_epoch == epoch ==> drain@ == "error"@,
{
}

/// A digest is forgotten when that very digest was delivered, and kept otherwise.
pub proof fn law_only_the_delivered_digest_is_forgotten(
    before: EngineInner,
    digest: Option<&str>,
    after: EngineInner,
)
    requires
        exists|m: &mut EngineInner|
            *m == before && *final(m) == after && #[trigger] call_ensures(
                clear_delivered_digest,
                (m, digest),
                (),
            ),
    ensures
        digest is Some && before.pending_context_digest is Some
            && before.pending_context_digest->0@ == digest->0@
            ==> after.pending_context_digest is None,
        digest is None || before.pending_context_digest is None
            || before.pending_context_digest->0@ != digest->0@ ==> opt_view(
            after.pending_context_digest,
        ) == opt_view(before.pending_context_digest),
        after == (EngineInner {
            pending_context_digest: after.pending_context_digest,
            ..before
        }),
{
}

/// What is due before a send, and what is left due after it: a refresh of the command
/// waits for an idle engine, one of the skills does not.
pub proof fn law_refreshes(
    before: EngineInner,
    due: (bool, bool),
    after: EngineInner,
)
    requires
        call_ensures(refresh_due, (&before,), due),
        exists|m: &mut EngineInner|
            *m == before && *final(m) == after && #[trigger] call_ensures(
                refreshed,
                (m, due.1),
                (),
            ),
    ensures
        after == (EngineInner {
            pending_skill_refresh: after.pending_skill_refresh,
            pending_command_refresh: after.pending_command_refresh,
            ..before
        }),
        due.1 == (before.pending_command_refresh && !before.turn.busy),
        due.0 == (before.pending_skill_refresh || due.1),
        !after.pending_skill_refresh,
        before.turn.busy ==> after.pending_command_refresh == before.pending_command_refresh,
        !before.turn.busy ==> !after.pending_command_refresh,
{
}

/// A visible message lifts the stop, and nothing else.
pub proof fn law_visible_message_lifts_the_stop(before: EngineInner, after: EngineInner)
    requires
        exists|m: &mut EngineInner|
            *m == before && *final(m) == after && #[trigger] call_ensures(
                resume_for_send,
                (m,),
                (),
            ),
    ensures
        !after.stopped,
        after == (EngineInner { stopped: after.stopped, ..before }),
{
}

/// Without its program an idle engine refuses the message, under a number of its own; a
/// busy one has its program.
pub proof fn law_missing_program_is_refused_at_rest(
    before: EngineInner,
    found: bool,
    r: Option<i32>,
    after: EngineInner,
)
    requires
        before.turn_id < i32::MAX,
        exists|m: &mut EngineInner|
            *m == before && *final(m) == after && #[trigger] call_ensures(
                refuse_without_program,
                (m, found),
                r,
            ),
    ensures
        after == (EngineInner { turn_id: after.turn_id, ..before }),
        r is Some == (!before.turn.busy && !found),
        r is Some ==> r->0 == before.turn_id + 1 && after.turn_id == r->0,
        r is None ==> after == before,
{
}

/// The lines of a list are those of its first part and then those of the rest; one entry
/// is a line with a dash.
pub proof fn law_attachments_are_listed_line_by_line(a: Seq<Seq<char>>, b: Seq<Seq<char>>)
    ensures
        dash_lines(a + b) == dash_lines(a) + dash_lines(b),
        a.len() == 0 ==> dash_lines(a).len() == 0,
        a.len() == 1 ==> dash_lines(a) == "- "@ + a[0] + "\n"@,
    decreases b.len(),
{
    if b.len() == 0 {
        assert(a + b =~= a);
        assert(dash_lines(a) + dash_lines(b) =~= dash_lines(a));
    } else {
        law_attachments_are_listed_line_by_line(a, b.drop_last());
        assert((a + b).drop_last() =~= a + b.drop_last());
        assert((a + b).last() == b.last());
        assert(dash_lines(a + b) =~= dash_lines(a) + dash_lines(b));
    }
    if a.len() == 1 {
        assert(a.drop_last() =~= seq![]);
        reveal_with_fuel(dash_lines, 2);
        assert(dash_lines(a) =~= "- "@ + a[0] + "\n"@);
    }
}

/// Files are named below the text; without any the text goes as it is.
pub proof fn law_files_are_named_below_the_text(text: &str, files: Vec<String>, r: String)
    requires
        call_ensures(with_files, (text, &files), r),
    ensures
        files@.len() == 0 ==> r@ == text@,
        files@.len() > 0 ==> r@ == text@ + "\n\nAttached files (read them as needed):\n"@
            + dash_lines(texts_view(files@)),
{
    assert(texts_view(files@).len() == files@.len());
}

/// A digest goes before the text it rides on; without one the text goes as it is.
pub proof fn law_digest_goes_before_the_text(digest: Option<&str>, text: &str, r: String)
    requires
        call_ensures(with_digest, (digest, text), r),
    ensures
        digest is Some && digest->0@.len() > 0 ==> r@ == digest->0@ + "\n\n"@ + text@,
        digest is None || digest->0@.len() == 0 ==> r@ == text@,
{
}

/// Images go as files exactly to the tools that take no image: those with a process for
/// each turn.
pub proof fn law_when_images_go_as_files(tool: &str, images: Vec<(String, String)>, r: bool)
    requires
        call_ensures(images_spill, (tool, &images), r),
    ensures
        r == ((tool@ == "codex"@ || tool@ == "opencode"@) && images@.len() > 0),
{
}

/// What goes out of a message: its text with its files named, behind the digest if there
/// is one. Images go along, or, to a tool that takes none, as files named below; then the
/// row remembers the text as it went out, without the digest. A direct message has no
/// place in the queue; any other has its row's.
pub proof fn law_what_goes_out(
    ctx: &SendContext,
    row: i32,
    text: &str,
    images: Vec<(String, String)>,
    files: Vec<String>,
    written: Vec<String>,
    digest: Option<&str>,
    r: (Outgoing, Option<String>),
)
    requires
        call_ensures(
            compose_outgoing,
            (ctx, row, text, images, &files, &written, digest),
            r,
        ),
    ensures
        ({
            let named = if files@.len() == 0 {
                text@
            } else {
                text@ + "\n\nAttached files (read them as needed):\n"@ + dash_lines(
                    texts_view(files@),
                )
            };
            let as_files = (ctx.tool@ == "codex"@ || ctx.tool@ == "opencode"@) && images@.len() > 0;
            let body = if as_files {
                named + "\n\nAttached images (read them as needed):\n"@ + dash_lines(
                    texts_view(written@),
                )
            } else {
                named
            };
            &&& digest is None ==> r.0.text@ == body
            &&& digest is Some && digest->0@.len() > 0 ==> r.0.text@ == digest->0@ + "\n\n"@ + body
            &&& as_files ==> r.0.images@.len() == 0 && r.1 is Some && r.1->0@ == json_text(
                dispatched_tree(text@, images@, texts_view(files@), body),
            )
            &&& !as_files ==> r.0.images == images && r.1 is None
            &&& ctx.direct ==> r.0.queue_id is None
            &&& !ctx.direct ==> r.0.queue_id == Some(row)
            &&& r.0.is_tracked && opt_view(r.0.origin_tag) == opt_view(ctx.origin_tag)
            &&& r.0.has_attachments == (files@.len() > 0 || images@.len() > 0)
        }),
{
    assert(texts_view(files@).len() == files@.len());
}

/// The row of a message holds its text, its images and its files; that of a command the
/// command and what follows it.
pub proof fn law_row_of_a_message(
    text: Seq<char>,
    images: Seq<(String, String)>,
    files: Seq<Seq<char>>,
    dispatched: Seq<char>,
    i: int,
)
    ensures
        user_row_tree(false, text, images, files).str_at("text"@) == Some(text),
        user_row_tree(false, text, images, files).get("files"@) == Some(
            JsonView::Arr(str_items(files)),
        ),
        user_row_tree(false, text, images, files).at("images"@) is Arr,
        user_row_tree(false, text, images, files).at("images"@)->Arr_0.len() == images.len(),
        0 <= i < images.len() ==> user_row_tree(false, text, images, files).at(
            "images"@,
        )->Arr_0[i] == JsonView::Str(
            "data:"@ + images[i].0@ + ";base64,"@ + images[i].1@,
        ),
        dispatched_tree(text, images, files, dispatched).str_at("dispatched"@) == Some(dispatched),
        dispatched_tree(text, images, files, dispatched).str_at("text"@) == Some(text),
        dispatched_tree(text, images, files, dispatched).get("files"@) == Some(
            JsonView::Arr(str_items(files)),
        ),
        user_row_tree(true, text, images, files) == command_tree(text),
{
    reveal_strlit("text");
    reveal_strlit("images");
    reveal_strlit("files");
    reveal_strlit("dispatched");
    assert("text"@.len() == 4 && "images"@.len() == 6 && "files"@.len() == 5);
    assert("dispatched"@.len() == 10);
}

/// A command is what stands before its first blank, and its arguments what stands behind
/// it: the two make up the text again.
pub proof fn law_command_is_split_at_its_first_blank(text: Seq<char>)
    ensures
        ({
            let t = trimmed_start(text);
            let command = command_tree(text).str_at("command"@);
            let args = command_tree(text).str_at("args"@);
            &&& command is Some && args is Some
            &&& !command->0.contains(' ')
            &&& t.contains(' ') ==> t == command->0 + seq![' '] + args->0
            &&& !t.contains(' ') ==> t == command->0 && args->0.len() == 0
        }),
{
    reveal_strlit("command");
    reveal_strlit("args");
    assert("command"@.len() == 7 && "args"@.len() == 4);
    crate::text_laws::lemma_split(trimmed_start(text), ' ');
}

/// A command's row is of its own kind; a message that waits is stored as queued, and one
/// that goes at once as complete.
pub proof fn law_kind_of_a_row(ctx: &SendContext, r: (&'static str, &'static str))
    requires
        call_ensures(user_row_kind, (ctx,), r),
    ensures
        ctx.is_command ==> r.0@ == "command"@,
        !ctx.is_command ==> r.0@ == "text"@,
        ctx.direct ==> r.1@ == "complete"@,
        !ctx.direct ==> r.1@ == "queued"@,
{
}

proof fn lemma_spills(row: int, images: Seq<(String, String)>, i: int)
    requires
        0 <= i < images.len(),
        base64_decoded(images[i].1@) is Some,
    ensures
        spill_plan_spec(row, images).contains(
            SpillView {
                name: "msg"@ + int_text(row) + "-"@ + digits(i as nat) + "."@ + after_last(
                    images[i].0@,
                    '/',
                ),
                bytes: base64_decoded(images[i].1@)->0,
            },
        ),
    decreases images.len(),
{
    let rest = images.drop_last();
    let one = SpillView {
        name: "msg"@ + int_text(row) + "-"@ + digits(i as nat) + "."@ + after_last(
            images[i].0@,
            '/',
        ),
        bytes: base64_decoded(images[i].1@)->0,
    };
    let all = spill_plan_spec(row, images);
    if i < rest.len() {
        assert(rest[i] == images[i]);
        lemma_spills(row, rest, i);
        let before = spill_plan_spec(row, rest);
        let k = before.index_of(one);
        assert(all[k] == one);
    } else {
        assert(all.last() == one);
    }
}

proof fn lemma_spill_count(row: int, images: Seq<(String, String)>)
    ensures
        spill_plan_spec(row, images).len() == images.filter(
            |p: (String, String)| base64_decoded(p.1@) is Some,
        ).len(),
    decreases images.len(),
{
    reveal(Seq::filter);
    if images.len() > 0 {
        lemma_spill_count(row, images.drop_last());
    }
}

/// Every image that can be decoded is written, with its own bytes, under a name made of
/// the message's row, its place among the images and its type; and nothing else is.
pub proof fn law_every_image_is_written(
    row: i32,
    images: Vec<(String, String)>,
    r: Vec<Spill>,
    i: int,
)
    requires
        call_ensures(spill_plan, (row, &images), r),
    ensures
        r@.len() == images@.filter(|p: (String, String)| base64_decoded(p.1@) is Some).len(),
        0 <= i < images@.len() && base64_decoded(images@[i].1@) is Some ==> spills_view(
            r@,
        ).contains(
            SpillView {
                name: "msg"@ + int_text(row as int) + "-"@ + digits(i as nat) + "."@ + after_last(
                    images@[i].0@,
                    '/',
                ),
                bytes: base64_decoded(images@[i].1@)->0,
            },
        ),
{
    lemma_spill_count(row as int, images@);
    assert(spills_view(r@).len() == r@.len());
    if 0 <= i < images@.len() && base64_decoded(images@[i].1@) is Some {
        lemma_spills(row as int, images@, i);
    }
}

/// The line for the resident process is one user message: its text first, then its images
/// in order.
pub proof fn law_line_for_the_resident(out: Outgoing, i: int)
    ensures
        ({
            let doc = stdin_tree(out);
            let content = doc.at("message"@).at("content"@);
            &&& doc.str_at("type"@) == Some("user"@)
            &&& doc.at("message"@).str_at("role"@) == Some("user"@)
            &&& content is Arr && content->Arr_0.len() == 1 + out.images@.len()
            &&& content->Arr_0[0].str_at("type"@) == Some("text"@)
            &&& content->Arr_0[0].str_at("text"@) == Some(out.text@)
            &&& 0 <= i < out.images@.len() ==> {
                let block = content->Arr_0[1 + i];
                &&& block.str_at("type"@) == Some("image"@)
                &&& block.at("source"@).str_at("type"@) == Some("base64"@)
                &&& block.at("source"@).str_at("media_type"@) == Some(out.images@[i].0@)
                &&& block.at("source"@).str_at("data"@) == Some(out.images@[i].1@)
            }
        }),
{
    reveal_strlit("type");
    reveal_strlit("message");
    reveal_strlit("role");
    reveal_strlit("content");
    reveal_strlit("text");
    reveal_strlit("source");
    reveal_strlit("media_type");
    reveal_strlit("data");
    assert("type"@.len() == 4 && "message"@.len() == 7 && "role"@.len() == 4);
    assert("content"@.len() == 7 && "text"@.len() == 4 && "source"@.len() == 6);
    assert("media_type"@.len() == 10 && "data"@.len() == 4);
    assert("type"@[1] == 'y' && "text"@[1] == 'e' && "data"@[0] == 'd' && "role"@[0] == 'r');
    assert("type"@[0] == 't' && "message"@[0] == 'm' && "content"@[0] == 'c');
}

/// The line ends where it should, and holds that document.
pub proof fn law_line_is_one_line(out: Outgoing, r: String)
    requires
        call_ensures(user_line, (&out,), r),
    ensures
        r@.len() > 0 && r@.last() == '\n',
        r@.drop_last() == json_text(stdin_tree(out)),
{
    reveal_strlit("\n");
    assert("\n"@.len() == 1 && "\n"@[0] == '\n');
    assert(r@.drop_last() =~= json_text(stdin_tree(out)));
}

/// A resident process that is let go is gone, and its output with it: whatever it still
/// says is out of date.
pub proof fn law_dropped_resident_is_out_of_date(before: EngineInner, after: EngineInner)
    requires
        before.generation < u64::MAX,
        exists|m: &mut EngineInner|
            *m == before && *final(m) == after && #[trigger] call_ensures(
                invalidate_resident,
                (m,),
                (),
            ),
    ensures
        after == (EngineInner {
            generation: after.generation,
            child: after.child,
            stdin: after.stdin,
            child_permit: after.child_permit,
            ..before
        }),
        after.generation == before.generation + 1,
        !after.child && !after.stdin && !after.child_permit,
        after.turn == before.turn && after.native_id == before.native_id && after.stopped
            == before.stopped,
{
}

/// A send is blocked exactly by a rewind or by an engine switch.
pub proof fn law_what_blocks_a_send(inner: &EngineInner, r: Option<SendError>)
    requires
        call_ensures(send_blocked, (inner,), r),
    ensures
        inner.rewinding ==> r == Some(SendError::Rewinding),
        !inner.rewinding && inner.quota_failover_committing ==> r == Some(
            SendError::SwitchInProgress,
        ),
        !inner.rewinding && !inner.quota_failover_committing ==> r is None,
{
}

/// What is stored of a message is its row document; of one that went out as something
/// else, also that; of one that no program could take, that it was not found.
pub proof fn law_stored_messages(
    is_command: bool,
    text: &str,
    images: Vec<(String, String)>,
    files: Vec<String>,
    stored: String,
    dispatched: &str,
    sent: String,
    tool: &str,
    missing: String,
)
    requires
        call_ensures(user_row_content, (is_command, text, &images, &files), stored),
        call_ensures(dispatched_content, (text, &images, &files, dispatched), sent),
        call_ensures(agent_not_found_content, (tool,), missing),
    ensures
        is_command ==> stored@ == json_text(command_tree(text@)),
        !is_command ==> stored@ == json_text(
            user_row_tree(false, text@, images@, texts_view(files@)),
        ),
        sent@ == json_text(dispatched_tree(text@, images@, texts_view(files@), dispatched@)),
        exists|doc: JsonView|
            missing@ == #[trigger] json_text(doc) && doc.str_at("terminal"@) == Some(
                "agent_not_found"@,
            ) && doc.str_at("tool"@) == Some(tool@),
{
    reveal_strlit("terminal");
    reveal_strlit("tool");
    assert("terminal"@.len() == 8 && "tool"@.len() == 4);
    let doc = JsonView::Obj(
        map![].insert("terminal"@, JsonView::Str("agent_not_found"@)).insert(
            "tool"@,
            JsonView::Str(tool@),
        ),
    );
    assert(missing@ == json_text(doc));
}

/// Images are named below the text, one on a line; as data they carry their type and
/// their bytes.
pub proof fn law_images_are_named_or_carried(
    text: &str,
    paths: Vec<String>,
    named: String,
    images: Vec<(String, String)>,
    uris: Vec<String>,
    i: int,
)
    requires
        call_ensures(with_images, (text, &paths), named),
        call_ensures(image_uris, (&images,), uris),
    ensures
        named@ == text@ + "\n\nAttached images (read them as needed):\n"@ + dash_lines(
            texts_view(paths@),
        ),
        uris@.len() == images@.len(),
        0 <= i < images@.len() ==> uris@[i]@ == "data:"@ + images@[i].0@ + ";base64,"@
            + images@[i].1@,
{
    assert(texts_view(uris@).len() == uris@.len());
    if 0 <= i < images@.len() {
        assert(texts_view(uris@)[i] == uris@[i]@);
    }
}

/// One more image adds its file behind those of the others, if it can be decoded, and
/// changes nothing of theirs.
pub proof fn law_files_come_in_the_order_of_the_images(
    row: i32,
    images: Vec<(String, String)>,
    r: Vec<Spill>,
    more: Vec<(String, String)>,
    one: (String, String),
    s: Vec<Spill>,
)
    requires
        more@ == images@.push(one),
        call_ensures(spill_plan, (row, &images), r),
        call_ensures(spill_plan, (row, &more), s),
    ensures
        base64_decoded(one.1@) is None ==> spills_view(s@) == spills_view(r@),
        base64_decoded(one.1@) is Some ==> spills_view(s@) == spills_view(r@).push(
            SpillView {
                name: "msg"@ + int_text(row as int) + "-"@ + digits(images@.len()) + "."@
                    + after_last(one.0@, '/'),
                bytes: base64_decoded(one.1@)->0,
            },
        ),
{
    assert(more@.drop_last() =~= images@);
}

} // verus!
