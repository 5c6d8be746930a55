//! What a rewind promises, said of the timeline and of what the calls return.

use vstd::prelude::*;

use crate::engine::EngineInner;
use crate::json::{json_text, JsonView};
use crate::rewind::{
    begin_rewind, checkpoint_due, checkpoint_source_stands, code_target, content_text, end_rewind,
    occurrences, place_of_message, plan_fork, plan_rewind, resolve_code_target, rewind_marker,
    rewind_ordinal, rewind_outcome, session_rewound, sibling_turn_busy, squeezed, ForkPlan,
    ForkView, Peer, RewindError, RewindMode, RewindOutcome, RewindPlan, Sibling, TimelineRow,
};
use crate::rows::LeadMessage;
use crate::text::{opt_view, texts_view, white};

verus! {

/// A rewind of both halves forks the native history exactly as a rewind of the
/// conversation does: the same fork, or the same refusal.
pub proof fn law_both_forks_as_the_conversation_does(
    tool: &str,
    transcript_tool: &str,
    native: Option<&str>,
    plan: &RewindPlan,
    ordinal: usize,
    appserver: bool,
    both: Result<ForkPlan, RewindError>,
    conversation: Result<ForkPlan, RewindError>,
)
    requires
        call_ensures(
            plan_fork,
            (tool, transcript_tool, RewindMode::Both, native, plan, ordinal, appserver),
            both,
        ),
        call_ensures(
            plan_fork,
            (tool, transcript_tool, RewindMode::Conversation, native, plan, ordinal, appserver),
            conversation,
        ),
    ensures
        both is Ok == conversation is Ok,
        both is Ok ==> both->Ok_0@ == conversation->Ok_0@,
        both is Err ==> both->Err_0 == conversation->Err_0,
{
}

/// With a native session and an anchor, every rewind but one of the code alone cuts
/// the transcript behind that anchor, in a fork of that session.
pub proof fn law_transcript_is_cut_behind_the_anchor(
    tool: &str,
    transcript_tool: &str,
    mode: RewindMode,
    native: Option<&str>,
    plan: &RewindPlan,
    ordinal: usize,
    appserver: bool,
    r: Result<ForkPlan, RewindError>,
)
    requires
        call_ensures(
            plan_fork,
            (tool, transcript_tool, mode, native, plan, ordinal, appserver),
            r,
        ),
        tool@ == transcript_tool@,
        mode != RewindMode::Code,
        native is Some,
    ensures
        plan.anchor is Some ==> r is Ok && r->Ok_0@ == (ForkView::TranscriptAfter {
            native: native->0@,
            uuid: plan.anchor->0@,
        }),
        plan.anchor is None && ordinal > 0 ==> r is Ok && r->Ok_0@ == (
        ForkView::TranscriptBefore { native: native->0@, ordinal: ordinal as nat }),
        plan.anchor is None && ordinal == 0 ==> r is Err && r->Err_0 == RewindError::NoAnchor,
{
}

/// A rewind of the code alone leaves the native history as it is, whatever the tool.
pub proof fn law_code_alone_forks_nothing(
    tool: &str,
    transcript_tool: &str,
    native: Option<&str>,
    plan: &RewindPlan,
    ordinal: usize,
    appserver: bool,
    r: Result<ForkPlan, RewindError>,
)
    requires
        call_ensures(
            plan_fork,
            (tool, transcript_tool, RewindMode::Code, native, plan, ordinal, appserver),
            r,
        ),
    ensures
        r is Ok,
        r->Ok_0@ == ForkView::Nothing,
{
}

/// Of the tools without a transcript: the app-server forks behind the turn that the
/// anchor names, the served session and the connection backend before the message with
/// that number; what cannot be found is refused; and without a native session, or
/// before the first message, nothing is forked.
pub proof fn law_other_tools_fork_their_own_way(
    tool: &str,
    transcript_tool: &str,
    mode: RewindMode,
    native: Option<&str>,
    plan: &RewindPlan,
    ordinal: usize,
    appserver: bool,
    r: Result<ForkPlan, RewindError>,
)
    requires
        call_ensures(
            plan_fork,
            (tool, transcript_tool, mode, native, plan, ordinal, appserver),
            r,
        ),
        tool@ != transcript_tool@,
        mode != RewindMode::Code,
    ensures
        ({
            let codex = tool@ == "codex"@;
            let served = tool@ == "opencode"@;
            let connected = tool@ == "omp"@;
            let past = native is Some && plan.has_previous;
            &&& codex && !appserver ==> r is Err && r->Err_0 == RewindError::ExecUnsupported
            &&& codex && appserver && past && plan.anchor is Some ==> r is Ok && r->Ok_0@ == (
            ForkView::Thread { native: native->0@, turn: plan.anchor->0@ })
            &&& codex && appserver && past && plan.anchor is None ==> r is Err && r->Err_0
                == RewindError::NoAnchor
            &&& served && past && ordinal > 0 ==> r is Ok && r->Ok_0@ == (ForkView::Served {
                native: native->0@,
                ordinal: ordinal as nat,
            })
            &&& connected && past && ordinal > 0 ==> r is Ok && r->Ok_0@ == (
            ForkView::SessionFile { native: native->0@, ordinal: ordinal as nat })
            &&& (served || connected) && past && ordinal == 0 ==> r is Err && r->Err_0
                == RewindError::NoAnchor
            &&& ((codex && appserver) || served || connected) && !past ==> r is Ok && r->Ok_0@
                == ForkView::Nothing
            &&& !codex && !served && !connected ==> r is Err && r->Err_0
                == RewindError::ToolUnsupported
        }),
{
    reveal_strlit("codex");
    reveal_strlit("opencode");
    reveal_strlit("omp");
    assert("codex"@.len() == 5 && "opencode"@.len() == 8 && "omp"@.len() == 3);
}

/// The rows of one session, in order.
pub open spec fn session_rows(rows: Seq<TimelineRow>, session_id: Option<i32>) -> Seq<TimelineRow> {
    rows.filter(|r: TimelineRow| r.message.session_id == session_id)
}

/// `pos` is the first row with this id.
pub open spec fn first_with_id(own: Seq<TimelineRow>, id: i32, pos: int) -> bool {
    &&& 0 <= pos < own.len()
    &&& own[pos].message.id == id
    &&& forall|j: int| 0 <= j < pos ==> (#[trigger] own[j]).message.id != id
}

proof fn lemma_first(own: Seq<TimelineRow>, id: i32)
    ensures
        place_of_message(own, id) <= own.len(),
        place_of_message(own, id) < own.len() ==> first_with_id(
            own,
            id,
            place_of_message(own, id) as int,
        ),
        place_of_message(own, id) == own.len() ==> forall|j: int|
            0 <= j < own.len() ==> (#[trigger] own[j]).message.id != id,
    decreases own.len(),
{
    if own.len() > 0 && own[0].message.id != id {
        let rest = own.drop_first();
        lemma_first(rest, id);
        let p = place_of_message(own, id) as int;
        assert forall|j: int| 0 <= j < p && j < own.len() implies (#[trigger] own[j]).message.id
            != id by {
            if j > 0 {
                assert(rest[j - 1] == own[j]);
            }
        }
    }
}

proof fn lemma_first_is_unique(own: Seq<TimelineRow>, id: i32, p: int, q: int)
    requires
        first_with_id(own, id, p),
        first_with_id(own, id, q),
    ensures
        p == q,
{
    if p < q {
        assert(own[p].message.id != id);
    } else if q < p {
        assert(own[q].message.id != id);
    }
}

/// What is refused: code of a lead, which has no worktree; a message that the session
/// does not have; one that is not the user's; and one that did not go out. Everything
/// else is planned.
pub proof fn law_only_sent_user_messages_are_rewound(
    rows: Vec<TimelineRow>,
    session_id: Option<i32>,
    message_id: i32,
    mode: RewindMode,
    r: Result<RewindPlan, RewindError>,
    pos: int,
)
    requires
        call_ensures(plan_rewind, (&rows, session_id, message_id, mode), r),
    ensures
        session_id is None && mode != RewindMode::Conversation ==> r is Err && r->Err_0
            == RewindError::LeadHasNoWorktree,
        session_id is Some || mode == RewindMode::Conversation ==> {
            let own = session_rows(rows@, session_id);
            &&& (forall|j: int| 0 <= j < own.len() ==> (#[trigger] own[j]).message.id != message_id)
                ==> r is Err && r->Err_0 == RewindError::NoSuchMessage
            &&& first_with_id(own, message_id, pos) && own[pos].message.role@ != "user"@
                ==> r is Err && r->Err_0 == RewindError::NotUserMessage
            &&& first_with_id(own, message_id, pos) && own[pos].message.role@ == "user"@
                && own[pos].message.status@ != "complete"@ ==> r is Err && r->Err_0
                == RewindError::NotComplete
            &&& first_with_id(own, message_id, pos) && own[pos].message.role@ == "user"@
                && own[pos].message.status@ == "complete"@ ==> r is Ok
        },
{
    let own = session_rows(rows@, session_id);
    lemma_first(own, message_id);
    let p = place_of_message(own, message_id) as int;
    if first_with_id(own, message_id, pos) {
        assert(own[pos].message.id == message_id);
        lemma_first_is_unique(own, message_id, p, pos);
    } else if p < own.len() {
        assert(own[p].message.id == message_id);
    }
}

/// The last row before `pos` that reached the native history.
pub open spec fn last_delivered(own: Seq<TimelineRow>, pos: int, at: int) -> bool {
    &&& 0 <= at < pos
    &&& own[at].delivered
    &&& forall|j: int| at < j < pos ==> !(#[trigger] own[j]).delivered
}

proof fn lemma_last_delivered(own: Seq<TimelineRow>, pos: int)
    requires
        0 <= pos <= own.len(),
    ensures
        ({
            let earlier = own.take(pos).filter(|r: TimelineRow| r.delivered);
            &&& earlier.len() == 0 ==> forall|j: int|
                0 <= j < pos ==> !(#[trigger] own[j]).delivered
            &&& earlier.len() > 0 ==> exists|at: int| #[trigger]
                last_delivered(own, pos, at) && own[at] == earlier.last()
        }),
    decreases pos,
{
    reveal(Seq::filter);
    let keep = |r: TimelineRow| r.delivered;
    if pos > 0 {
        lemma_last_delivered(own, pos - 1);
        assert(own.take(pos).drop_last() =~= own.take(pos - 1));
        assert(own.take(pos).last() == own[pos - 1]);
        let before = own.take(pos - 1).filter(keep);
        if own[pos - 1].delivered {
            assert(last_delivered(own, pos, pos - 1));
        } else if before.len() > 0 {
            let at = choose|at: int| #[trigger]
                last_delivered(own, pos - 1, at) && own[at] == before.last();
            assert(last_delivered(own, pos, at));
        }
    }
}

/// A planned rewind takes its turn and its texts from the message itself; it deletes
/// the message and everything of its session behind it, unless it is of the code
/// alone, which deletes nothing; and it cuts at the last earlier message that reached
/// the native history.
pub proof fn law_plan_is_made_from_the_message(
    rows: Vec<TimelineRow>,
    session_id: Option<i32>,
    message_id: i32,
    mode: RewindMode,
    r: Result<RewindPlan, RewindError>,
    pos: int,
    at: int,
)
    requires
        call_ensures(plan_rewind, (&rows, session_id, message_id, mode), r),
        r is Ok,
        first_with_id(session_rows(rows@, session_id), message_id, pos),
    ensures
        ({
            let own = session_rows(rows@, session_id);
            let plan = r->Ok_0;
            &&& plan.target_turn == own[pos].message.turn_id
            &&& plan.match_text@ == own[pos].dispatched@
            &&& plan.rewound_text@ == content_text(own[pos].message.content@)
            &&& mode == RewindMode::Code ==> plan.deleted_ids@.len() == 0
            &&& mode != RewindMode::Code ==> plan.deleted_ids@.len() == own.len() - pos
                && forall|k: int|
                0 <= k < plan.deleted_ids@.len() ==> (#[trigger] plan.deleted_ids@[k]) == own[pos
                    + k].message.id
            &&& plan.has_previous == exists|j: int| 0 <= j < pos && (#[trigger] own[j]).delivered
            &&& !plan.has_previous ==> plan.anchor is None
            &&& last_delivered(own, pos, at) ==> opt_view(plan.anchor) == opt_view(
                own[at].message.native_anchor,
            )
            &&& texts_view(plan.user_texts@) == own.subrange(0, pos + 1).filter(
                |m: TimelineRow| m.delivered,
            ).map_values(|m: TimelineRow| m.dispatched@)
        }),
{
    let own = session_rows(rows@, session_id);
    lemma_first(own, message_id);
    let p = place_of_message(own, message_id) as int;
    assert(own[pos].message.id == message_id);
    if p < own.len() {
        lemma_first_is_unique(own, message_id, p, pos);
    }
    lemma_last_delivered(own, pos);
    let plan = r->Ok_0;
    let earlier = own.take(pos).filter(|m: TimelineRow| m.delivered);
    if earlier.len() > 0 {
        let a = choose|a: int| #[trigger]
            last_delivered(own, pos, a) && own[a] == earlier.last();
        assert(own[a].delivered);
        if last_delivered(own, pos, at) {
            if at < a {
                assert(!own[a].delivered);
            } else if a < at {
                assert(!own[at].delivered);
            }
        }
    } else if last_delivered(own, pos, at) {
        assert(own[at].delivered);
    }
    assert(own.subrange(0, pos + 1) =~= own.take(pos + 1));
    assert(plan.user_texts@.len() == texts_view(plan.user_texts@).len());
}

/// The text of a row's content is what its document holds under "text"; content that
/// cannot be read, or holds none, has none.
pub proof fn law_text_of_a_row(content: Seq<char>)
    ensures
        match crate::json::parsed(content) {
            Some(doc) => match doc.str_at("text"@) {
                Some(t) => content_text(content) == t,
                None => content_text(content).len() == 0,
            },
            None => content_text(content).len() == 0,
        },
{
}

/// Which halves are rewound does not change what the plan says of the message: the
/// plans of all modes agree but for the rows that go, and those of the conversation
/// and of both agree in these too.
pub proof fn law_plans_of_all_modes_agree(
    rows: Vec<TimelineRow>,
    session_id: Option<i32>,
    message_id: i32,
    conversation: Result<RewindPlan, RewindError>,
    code: Result<RewindPlan, RewindError>,
    both: Result<RewindPlan, RewindError>,
)
    requires
        session_id is Some,
        call_ensures(
            plan_rewind,
            (&rows, session_id, message_id, RewindMode::Conversation),
            conversation,
        ),
        call_ensures(plan_rewind, (&rows, session_id, message_id, RewindMode::Code), code),
        call_ensures(plan_rewind, (&rows, session_id, message_id, RewindMode::Both), both),
    ensures
        conversation is Ok == both is Ok && conversation is Ok == code is Ok,
        conversation is Ok ==> {
            let (a, b, c) = (conversation->Ok_0, both->Ok_0, code->Ok_0);
            &&& a.deleted_ids@ == b.deleted_ids@
            &&& a.target_turn == b.target_turn && a.target_turn == c.target_turn
            &&& a.rewound_text@ == b.rewound_text@ && a.rewound_text@ == c.rewound_text@
            &&& a.match_text@ == b.match_text@ && a.match_text@ == c.match_text@
            &&& opt_view(a.anchor) == opt_view(b.anchor)
            &&& texts_view(a.user_texts@) == texts_view(b.user_texts@)
        },
        conversation is Err ==> conversation->Err_0 == both->Err_0 && conversation->Err_0
            == code->Err_0,
{
}

/// What a rewind of both hands back is what one of the conversation does; one of the
/// code alone hands back nothing but whether the code was restored.
pub proof fn law_outcome_of_both(
    plan: RewindPlan,
    deleted: u64,
    forked: Option<String>,
    restored: bool,
    conversation: RewindOutcome,
    both: RewindOutcome,
    code: RewindOutcome,
)
    requires
        call_ensures(
            rewind_outcome,
            (RewindMode::Conversation, plan, deleted, forked, restored),
            conversation,
        ),
        call_ensures(rewind_outcome, (RewindMode::Both, plan, deleted, forked, restored), both),
        call_ensures(rewind_outcome, (RewindMode::Code, plan, deleted, forked, restored), code),
    ensures
        both.rewound_text@ == plan.rewound_text@,
        both.rewound_text@ == conversation.rewound_text@,
        both.deleted == deleted && conversation.deleted == deleted,
        opt_view(both.native_id) == opt_view(forked),
        opt_view(both.native_id) == opt_view(conversation.native_id),
        both.code_restored == restored && conversation.code_restored == restored,
        code.rewound_text@.len() == 0 && code.deleted == 0 && code.native_id is None,
        code.code_restored == restored,
{
}

/// A gap is due before the next word.
spec fn gap_due(s: Seq<char>) -> bool {
    s.len() > 0 && white(s.last()) && squeezed(s).len() > 0
}

proof fn lemma_squeezed_goes_on(p: Seq<char>, q: Seq<char>, y: Seq<char>)
    requires
        squeezed(p) == squeezed(q),
        gap_due(p) == gap_due(q),
    ensures
        squeezed(p + y) == squeezed(q + y),
        gap_due(p + y) == gap_due(q + y),
    decreases y.len(),
{
    if y.len() == 0 {
        assert(p + y =~= p);
        assert(q + y =~= q);
    } else {
        lemma_squeezed_goes_on(p, q, y.drop_last());
        assert((p + y).drop_last() =~= p + y.drop_last());
        assert((q + y).drop_last() =~= q + y.drop_last());
        assert((p + y).last() == y.last());
        assert((q + y).last() == y.last());
    }
}

/// White space is evened out: in a run of it only the first character counts, which
/// one it is does not, and at either end none counts.
pub proof fn law_white_space_is_evened_out(x: Seq<char>, y: Seq<char>, w: char, v: char)
    requires
        white(w),
        white(v),
    ensures
        squeezed(x + seq![w, v] + y) == squeezed(x + seq![w] + y),
        squeezed(x + seq![w] + y) == squeezed(x + seq![' '] + y),
        squeezed(seq![w] + y) == squeezed(y),
        squeezed(x + seq![w]) == squeezed(x),
{
    let (a, b, c) = (x + seq![w, v], x + seq![w], x + seq![' ']);
    assert(a.drop_last() =~= b);
    assert(b.drop_last() =~= x);
    assert(c.drop_last() =~= x);
    assert(white(' '));
    lemma_squeezed_goes_on(a, b, y);
    lemma_squeezed_goes_on(b, c, y);
    let one = seq![w];
    assert(one.drop_last() =~= Seq::<char>::empty());
    assert(squeezed(one) =~= squeezed(Seq::<char>::empty()));
    lemma_squeezed_goes_on(one, seq![], y);
    assert(Seq::<char>::empty() + y =~= y);
}

/// What is even already stays as it is: words, one blank apart.
pub proof fn law_even_text_stays(s: Seq<char>)
    requires
        s.len() > 0 ==> !white(s[0]) && !white(s.last()),
        forall|i: int|
            0 <= i < s.len() - 1 && white(#[trigger] s[i]) ==> s[i] == ' ' && !white(s[i + 1]),
    ensures
        squeezed(s) == s,
    decreases s.len(),
{
    if s.len() > 0 {
        let p = s.drop_last();
        if p.len() > 0 && white(p.last()) {
            let q = p.drop_last();
            assert(s[s.len() - 2] == p.last());
            assert(q.len() > 0);
            if white(q.last()) {
                assert(s[s.len() - 3] == q.last());
                assert(false);
            }
            assert(q[0] == s[0]);
            assert forall|i: int| 0 <= i < q.len() - 1 && white(#[trigger] q[i]) implies q[i] == ' '
                && !white(q[i + 1]) by {
                assert(s[i] == q[i] && s[i + 1] == q[i + 1]);
            }
            law_even_text_stays(q);
            assert(squeezed(p) == q);
            assert(s =~= q.push(' ').push(s.last()));
        } else {
            if p.len() > 0 {
                assert(p[0] == s[0]);
            }
            assert forall|i: int| 0 <= i < p.len() - 1 && white(#[trigger] p[i]) implies p[i] == ' '
                && !white(p[i + 1]) by {
                assert(s[i] == p[i] && s[i + 1] == p[i + 1]);
            }
            law_even_text_stays(p);
            assert(s =~= p.push(s.last()));
        }
    }
}

proof fn lemma_occurrences(texts: Seq<Seq<char>>, target: Seq<char>)
    ensures
        occurrences(texts, target) == texts.filter(
            |t: Seq<char>| squeezed(t) == squeezed(target),
        ).len(),
    decreases texts.len(),
{
    reveal(Seq::filter);
    if texts.len() > 0 {
        lemma_occurrences(texts.drop_last(), target);
    }
}

/// The number of a message among the equal ones is how many of the texts are equal to
/// it, white space evened out. A message without a text has a number on the connection
/// backend alone; elsewhere zero says that it cannot be addressed.
pub proof fn law_ordinal_counts_the_equal_messages(
    tool: &str,
    texts: Vec<String>,
    target: &str,
    r: usize,
)
    requires
        call_ensures(rewind_ordinal, (tool, &texts, target), r),
    ensures
        tool@ == "omp"@ || squeezed(target@).len() > 0 ==> r == texts_view(texts@).filter(
            |t: Seq<char>| squeezed(t) == squeezed(target@),
        ).len(),
        tool@ != "omp"@ && squeezed(target@).len() == 0 ==> r == 0,
{
    lemma_occurrences(texts_view(texts@), target@);
}

/// The code is restored exactly of a checkout of the session's own, without submodules,
/// whose checkpoint is there and holds no nested repository; otherwise the first of
/// these that fails is the reason that is given.
pub proof fn law_code_is_restored_whole_or_not_at_all(
    created_checkout: bool,
    has_submodules: bool,
    nested_repos: Option<&Vec<String>>,
    session_id: Option<i32>,
    r: Result<i32, RewindError>,
)
    requires
        call_ensures(code_target, (created_checkout, has_submodules, nested_repos, session_id), r),
    ensures
        r is Ok == (created_checkout && !has_submodules && nested_repos is Some
            && nested_repos->0@.len() == 0 && session_id is Some),
        r is Ok ==> session_id == Some(r->Ok_0),
        !created_checkout ==> r->Err_0 == RewindError::ReusedCheckout,
        created_checkout && has_submodules ==> r->Err_0 == RewindError::HasSubmodules,
        created_checkout && !has_submodules && nested_repos is None ==> r->Err_0
            == RewindError::NoCheckpoint,
        created_checkout && !has_submodules && nested_repos is Some && nested_repos->0@.len() > 0
            ==> r->Err_0 == RewindError::NestedRepos,
        created_checkout && !has_submodules && nested_repos is Some && nested_repos->0@.len() == 0
            && session_id is None ==> r->Err_0 == RewindError::LeadHasNoWorktree,
{
    if nested_repos is Some {
        assert(texts_view(nested_repos->0@).len() == nested_repos->0@.len());
    }
}

/// Only another session can be in the way, and one that is absent or idle is not.
pub proof fn law_only_others_at_work_are_in_the_way(siblings: Vec<Sibling>, ours: i32, r: bool)
    requires
        call_ensures(sibling_turn_busy, (&siblings, ours), r),
    ensures
        (forall|i: int|
            0 <= i < siblings@.len() ==> (#[trigger] siblings@[i]).session_id == ours
                || siblings@[i].peer == Peer::Absent || siblings@[i].peer == Peer::Idle) ==> !r,
        !r ==> forall|i: int|
            0 <= i < siblings@.len() ==> (#[trigger] siblings@[i]).session_id == ours
                || siblings@[i].peer == Peer::Absent || siblings@[i].peer == Peer::Idle,
{
}

/// A rewind takes an engine exactly when it is idle and no other rewind holds it, and
/// nothing else of the engine changes; while it is held, a second one is refused.
pub proof fn law_one_rewind_at_a_time(
    before: EngineInner,
    held: EngineInner,
    after: EngineInner,
    first: Result<(), RewindError>,
    second: Result<(), RewindError>,
)
    requires
        exists|m: &mut EngineInner|
            *m == before && *final(m) == held && #[trigger] call_ensures(begin_rewind, (m,), first),
        exists|m: &mut EngineInner|
            *m == held && *final(m) == after && #[trigger] call_ensures(begin_rewind, (m,), second),
    ensures
        first is Ok == (!before.turn.busy && !before.rewinding),
        before.turn.busy ==> first->Err_0 == RewindError::Busy,
        first is Ok ==> held == (EngineInner { rewinding: true, ..before }),
        first is Err ==> held == before,
        second is Err && after == held,
        first is Ok ==> second->Err_0 == RewindError::Rewinding,
{
}

/// A rewind that is over gives the engine back as it took it.
pub proof fn law_rewind_gives_the_engine_back(
    before: EngineInner,
    held: EngineInner,
    after: EngineInner,
)
    requires
        exists|m: &mut EngineInner|
            *m == before && *final(m) == held && #[trigger] call_ensures(
                begin_rewind,
                (m,),
                Ok(()),
            ),
        exists|m: &mut EngineInner|
            *m == held && *final(m) == after && #[trigger] call_ensures(end_rewind, (m,), ()),
    ensures
        after == before,
{
}

/// A mode is read from its own name and from no other text.
pub proof fn law_modes_have_names(s: &str, r: Result<RewindMode, String>)
    requires
        call_ensures(RewindMode::parse, (s,), r),
    ensures
        (r is Ok && r->Ok_0 == RewindMode::Conversation) == (s@ == "conversation"@),
        (r is Ok && r->Ok_0 == RewindMode::Code) == (s@ == "code"@),
        (r is Ok && r->Ok_0 == RewindMode::Both) == (s@ == "both"@),
{
    reveal_strlit("conversation");
    reveal_strlit("code");
    reveal_strlit("both");
    assert("code"@[0] == 'c' && "both"@[0] == 'b');
    assert("conversation"@.len() == 12 && "code"@.len() == 4);
}

/// The session goes on from the fork, and nothing else of the engine changes.
pub proof fn law_session_goes_on_from_its_fork(
    before: EngineInner,
    native_id: Option<String>,
    after: EngineInner,
)
    requires
        exists|m: &mut EngineInner|
            *m == before && *final(m) == after && #[trigger] call_ensures(
                session_rewound,
                (m, native_id),
                (),
            ),
    ensures
        after == (EngineInner { native_id, ..before }),
{
}

/// What a checkpoint records of nested repositories decides as the repositories
/// themselves do; a record that cannot be read names none.
pub proof fn law_record_decides_as_the_repositories_do(
    created: bool,
    submodules: bool,
    record: &str,
    names: Vec<String>,
    session_id: Option<i32>,
    r: Result<i32, RewindError>,
    direct: Result<i32, RewindError>,
    missing: Result<i32, RewindError>,
)
    requires
        crate::json::names_parsed(record@) is Some ==> texts_view(names@)
            == crate::json::names_parsed(record@)->0,
        crate::json::names_parsed(record@) is None ==> names@.len() == 0,
        call_ensures(resolve_code_target, (created, submodules, Some(record), session_id), r),
        call_ensures(code_target, (created, submodules, Some(&names), session_id), direct),
        call_ensures(resolve_code_target, (created, submodules, None, session_id), missing),
    ensures
        r == direct,
        created && !submodules ==> missing is Err && missing->Err_0 == RewindError::NoCheckpoint,
        missing is Err,
{
    if crate::json::names_parsed(record@) is None {
        assert(texts_view(names@) =~= seq![]);
    }
}

/// A checkpoint is taken exactly of a checkout of the session's own that is there, that
/// nobody else works in and that can be restored whole; it stays that of its message while
/// that message opens that turn of that session.
pub proof fn law_checkpoints(
    created: bool,
    busy: bool,
    is_dir: bool,
    submodules: bool,
    due: bool,
    m: &LeadMessage,
    thread_id: i32,
    session_id: i32,
    turn_id: i32,
    stands: bool,
)
    requires
        call_ensures(checkpoint_due, (created, busy, is_dir, submodules), due),
        call_ensures(checkpoint_source_stands, (m, thread_id, session_id, turn_id), stands),
    ensures
        due == (created && is_dir && !busy && !submodules),
        stands == (m.thread_id == thread_id && m.session_id == Some(session_id) && m.turn_id
            == turn_id),
{
}

/// The divider says which message was rewound to and how many rows went.
pub proof fn law_divider_tells_the_rewind(id: i32, deleted: u64, r: String)
    requires
        call_ensures(rewind_marker, (id, deleted), r),
    ensures
        exists|doc: JsonView|
            r@ == #[trigger] json_text(doc) && doc.get("from_message_id"@) == Some(
                JsonView::Int(id as int),
            ) && doc.get("deleted"@) == Some(JsonView::Int(deleted as int)),
{
    reveal_strlit("from_message_id");
    reveal_strlit("deleted");
    assert("from_message_id"@.len() == 15 && "deleted"@.len() == 7);
    let doc = crate::rewind::marker_tree(id as int, deleted as int);
    assert(r@ == json_text(doc));
}

/// Each refusal is told in words of its own.
pub proof fn law_refusals_differ(e: RewindError, f: RewindError, r: &'static str, s: &'static str)
    requires
        call_ensures(RewindError::message, (&e,), r),
        call_ensures(RewindError::message, (&f,), s),
    ensures
        (r@ == s@) == (e == f),
{
    reveal_strlit("先中断当前 turn");
    reveal_strlit("会话正在回退，请稍后重试");
    reveal_strlit("lead 会话没有 worktree，不支持代码回退");
    reveal_strlit("消息不存在");
    reveal_strlit("只能回退用户消息");
    reveal_strlit("只能回退已发送完成的消息");
    reveal_strlit("该会话历史缺少回退锚点（旧会话）");
    reveal_strlit("codex exec 模式暂不支持回退");
    reveal_strlit("该工具暂不支持回退");
    reveal_strlit("该消息没有代码检查点（旧会话或快照失败）");
    reveal_strlit("该 worktree 是复用的检出，不支持代码回退");
    reveal_strlit("该 worktree 含 submodule，暂不支持代码回退");
    reveal_strlit("该检查点包含嵌套 git 仓库，暂不支持代码回退");
    reveal_strlit("另一个会话正在使用该 worktree，请先中断它");
    assert("codex exec 模式暂不支持回退"@.len() == 19);
    assert("lead 会话没有 worktree，不支持代码回退"@.len() == 26);
    assert("会话正在回退，请稍后重试"@.len() == 12);
    assert("会话正在回退，请稍后重试"@[0] == '会');
    assert("先中断当前 turn"@.len() == 10);
    assert("另一个会话正在使用该 worktree，请先中断它"@.len() == 25);
    assert("另一个会话正在使用该 worktree，请先中断它"@[0] == '另');
    assert("只能回退已发送完成的消息"@.len() == 12);
    assert("只能回退已发送完成的消息"@[0] == '只');
    assert("只能回退用户消息"@.len() == 8);
    assert("消息不存在"@.len() == 5);
    assert("该 worktree 含 submodule，暂不支持代码回退"@.len() == 31);
    assert("该 worktree 是复用的检出，不支持代码回退"@.len() == 25);
    assert("该 worktree 是复用的检出，不支持代码回退"@[0] == '该');
    assert("该会话历史缺少回退锚点（旧会话）"@.len() == 16);
    assert("该工具暂不支持回退"@.len() == 9);
    assert("该检查点包含嵌套 git 仓库，暂不支持代码回退"@.len() == 24);
    assert("该消息没有代码检查点（旧会话或快照失败）"@.len() == 20);
}

} // verus!
