//! Rewinding a session to just before one of its messages: what may be rewound,
//! where the native history is cut, and what a restore of the code needs.

use vstd::prelude::*;

use crate::engine::{is_acp_tool, EngineInner};
use crate::json::{parse_names, put, Json, JsonEntry, JsonView};
use crate::rows::LeadMessage;
use crate::text::{cat, is_white, opt_clone, same};

verus! {

/// Which halves of a rewind to perform: the conversation, the code, or both.
#[derive(Clone, Copy, PartialEq, Eq, Structural, Debug)]
pub enum RewindMode {
    Conversation,
    Code,
    Both,
}

/// The mode that a wire value names.
pub open spec fn mode_named(s: Seq<char>) -> Option<RewindMode> {
    if s == "conversation"@ {
        Some(RewindMode::Conversation)
    } else if s == "code"@ {
        Some(RewindMode::Code)
    } else if s == "both"@ {
        Some(RewindMode::Both)
    } else {
        None
    }
}

impl RewindMode {
    /// Read the wire value of a mode.
    pub fn parse(s: &str) -> (r: Result<Self, String>)
        ensures
            match mode_named(s@) {
                Some(m) => r == Ok::<RewindMode, String>(m),
                None => r is Err && r->Err_0@ == "invalid rewind mode: "@ + s@,
            },
    {
        if same(s, "conversation") {
            Ok(RewindMode::Conversation)
        } else if same(s, "code") {
            Ok(RewindMode::Code)
        } else if same(s, "both") {
            Ok(RewindMode::Both)
        } else {
            Err(cat("invalid rewind mode: ", s))
        }
    }
}

/// What a rewind hands back to the composer.
#[derive(Clone, Debug)]
pub struct RewindOutcome {
    /// The text of the message, for editing and sending again.
    pub rewound_text: String,
    /// How many timeline rows went: the message and everything after it.
    pub deleted: u64,
    /// The native session that was forked off; `None` = the next turn starts one.
    pub native_id: Option<String>,
    /// Whether the worktree was restored.
    pub code_restored: bool,
}

/// What a rewind hands back: one of the code alone leaves the conversation, and the
/// composer with it, as it was. `deleted` rows went, `forked` is the native session
/// that was cut off, and `restored` says whether the worktree was put back.
pub fn rewind_outcome(
    mode: RewindMode,
    plan: RewindPlan,
    deleted: u64,
    forked: Option<String>,
    restored: bool,
) -> (r: RewindOutcome)
    ensures
        mode == RewindMode::Code ==> r.rewound_text@.len() == 0 && r.deleted == 0
            && r.native_id is None,
        mode != RewindMode::Code ==> r.rewound_text@ == plan.rewound_text@ && r.deleted == deleted
            && crate::text::opt_view(r.native_id) == crate::text::opt_view(forked),
        r.code_restored == restored,
{
    match mode {
        RewindMode::Code => RewindOutcome {
            rewound_text: String::new(),
            deleted: 0,
            native_id: None,
            code_restored: restored,
        },
        _ => RewindOutcome {
            rewound_text: plan.rewound_text,
            deleted,
            native_id: forked,
            code_restored: restored,
        },
    }
}

/// Why a rewind is refused.
#[derive(Debug, PartialEq, Eq, Structural, Clone, Copy)]
pub enum RewindError {
    Busy,
    Rewinding,
    LeadHasNoWorktree,
    NoSuchMessage,
    NotUserMessage,
    NotComplete,
    /// The history lacks what the cut could be found by.
    NoAnchor,
    /// Turns that run as processes cannot be forked.
    ExecUnsupported,
    ToolUnsupported,
    /// The message has no code checkpoint.
    NoCheckpoint,
    /// The checkout belongs to somebody else.
    ReusedCheckout,
    HasSubmodules,
    /// The checkpoint holds nested repositories, whose content it never had.
    NestedRepos,
    /// Another session works in the same worktree.
    SiblingBusy,
}

/// What the human is told.
pub open spec fn refusal(e: RewindError) -> Seq<char> {
    match e {
        RewindError::Busy => "先中断当前 turn"@,
        RewindError::Rewinding => "会话正在回退，请稍后重试"@,
        RewindError::LeadHasNoWorktree => "lead 会话没有 worktree，不支持代码回退"@,
        RewindError::NoSuchMessage => "消息不存在"@,
        RewindError::NotUserMessage => "只能回退用户消息"@,
        RewindError::NotComplete => "只能回退已发送完成的消息"@,
        RewindError::NoAnchor => "该会话历史缺少回退锚点（旧会话）"@,
        RewindError::ExecUnsupported => "codex exec 模式暂不支持回退"@,
        RewindError::ToolUnsupported => "该工具暂不支持回退"@,
        RewindError::NoCheckpoint => "该消息没有代码检查点（旧会话或快照失败）"@,
        RewindError::ReusedCheckout => "该 worktree 是复用的检出，不支持代码回退"@,
        RewindError::HasSubmodules => "该 worktree 含 submodule，暂不支持代码回退"@,
        RewindError::NestedRepos => "该检查点包含嵌套 git 仓库，暂不支持代码回退"@,
        RewindError::SiblingBusy => "另一个会话正在使用该 worktree，请先中断它"@,
    }
}

impl RewindError {
    /// What the human is told.
    pub fn message(&self) -> (r: &'static str)
        ensures
            r@ == refusal(*self),
    {
        match self {
            RewindError::Busy => "先中断当前 turn",
            RewindError::Rewinding => "会话正在回退，请稍后重试",
            RewindError::LeadHasNoWorktree => "lead 会话没有 worktree，不支持代码回退",
            RewindError::NoSuchMessage => "消息不存在",
            RewindError::NotUserMessage => "只能回退用户消息",
            RewindError::NotComplete => "只能回退已发送完成的消息",
            RewindError::NoAnchor => "该会话历史缺少回退锚点（旧会话）",
            RewindError::ExecUnsupported => "codex exec 模式暂不支持回退",
            RewindError::ToolUnsupported => "该工具暂不支持回退",
            RewindError::NoCheckpoint => "该消息没有代码检查点（旧会话或快照失败）",
            RewindError::ReusedCheckout => "该 worktree 是复用的检出，不支持代码回退",
            RewindError::HasSubmodules => "该 worktree 含 submodule，暂不支持代码回退",
            RewindError::NestedRepos => "该检查点包含嵌套 git 仓库，暂不支持代码回退",
            RewindError::SiblingBusy => "另一个会话正在使用该 worktree，请先中断它",
        }
    }
}

/// Reserve an idle engine for a rewind: from here on no message is admitted, so no
/// turn can start that the rewind would swallow.
pub fn begin_rewind(inner: &mut EngineInner) -> (r: Result<(), RewindError>)
    ensures
        r == (if old(inner).turn.busy {
            Err(RewindError::Busy)
        } else if old(inner).rewinding {
            Err(RewindError::Rewinding)
        } else {
            Ok(())
        }),
        *final(inner) == (EngineInner {
            rewinding: old(inner).rewinding || r is Ok,
            ..*old(inner)
        }),
{
    if inner.turn.busy {
        return Err(RewindError::Busy);
    }
    if inner.rewinding {
        return Err(RewindError::Rewinding);
    }
    inner.rewinding = true;
    Ok(())
}

/// The rewind is over, whichever way it went.
pub fn end_rewind(inner: &mut EngineInner)
    ensures
        *final(inner) == (EngineInner { rewinding: false, ..*old(inner) }),
{
    inner.rewinding = false;
}

/// The session goes on from its fork.
pub fn session_rewound(inner: &mut EngineInner, native_id: Option<String>)
    ensures
        *final(inner) == (EngineInner { native_id, ..*old(inner) }),
{
    inner.native_id = native_id;
}

/// A timeline row, with what the native side knows of it.
pub struct TimelineRow {
    pub message: LeadMessage,
    /// The message reached the native history.
    pub delivered: bool,
    /// The text it went out with, attachments spelled out.
    pub dispatched: String,
}

/// The rows of one session, in order.
pub open spec fn rows_of(rows: Seq<TimelineRow>, session_id: Option<i32>) -> Seq<TimelineRow> {
    rows.filter(|r: TimelineRow| r.message.session_id == session_id)
}

/// The place of a message among the rows (their number when it is not there).
pub open spec fn place_of_message(rows: Seq<TimelineRow>, id: i32) -> nat
    decreases rows.len(),
{
    if rows.len() == 0 || rows[0].message.id == id {
        0
    } else {
        1 + place_of_message(rows.drop_first(), id)
    }
}

/// The rows that reached the native history.
pub open spec fn delivered_rows(rows: Seq<TimelineRow>) -> Seq<TimelineRow> {
    rows.filter(|r: TimelineRow| r.delivered)
}

/// The texts they went out with.
pub open spec fn dispatched_texts(rows: Seq<TimelineRow>) -> Seq<Seq<char>> {
    rows.map_values(|r: TimelineRow| r.dispatched@)
}

/// The text in a row's content.
pub open spec fn content_text(content: Seq<char>) -> Seq<char> {
    match crate::json::parsed(content) {
        Some(v) => match v.str_at("text"@) {
            Some(t) => t,
            None => seq![],
        },
        None => seq![],
    }
}

/// What a rewind is about to do to the timeline.
pub struct RewindPlan {
    /// The turn that the message opened.
    pub target_turn: i32,
    /// The message's text, for the composer.
    pub rewound_text: String,
    /// The rows that go.
    pub deleted_ids: Vec<i32>,
    /// An earlier message reached the native history.
    pub has_previous: bool,
    /// Where the turn of that earlier message ended.
    pub anchor: Option<String>,
    /// The text that the message went out with.
    pub match_text: String,
    /// The texts that went out up to and with it.
    pub user_texts: Vec<String>,
}

/// Why a rewind to this message is refused.
pub open spec fn target_refused(
    rows: Seq<TimelineRow>,
    session_id: Option<i32>,
    message_id: i32,
    mode: RewindMode,
) -> Option<RewindError> {
    let own = rows_of(rows, session_id);
    let pos = place_of_message(own, message_id);
    if session_id is None && mode != RewindMode::Conversation {
        Some(RewindError::LeadHasNoWorktree)
    } else if pos >= own.len() {
        Some(RewindError::NoSuchMessage)
    } else if own[pos as int].message.role@ != "user"@ {
        Some(RewindError::NotUserMessage)
    } else if own[pos as int].message.status@ != "complete"@ {
        Some(RewindError::NotComplete)
    } else {
        None
    }
}

/// What a rewind to this message does.
pub open spec fn plan_of(
    rows: Seq<TimelineRow>,
    session_id: Option<i32>,
    message_id: i32,
    mode: RewindMode,
    r: RewindPlan,
) -> bool {
    let own = rows_of(rows, session_id);
    let pos = place_of_message(own, message_id) as int;
    let earlier = delivered_rows(own.take(pos));
    &&& r.target_turn == own[pos].message.turn_id
    &&& r.rewound_text@ == content_text(own[pos].message.content@)
    &&& r.deleted_ids@ == (if mode == RewindMode::Code {
        seq![]
    } else {
        own.skip(pos).map_values(|m: TimelineRow| m.message.id)
    })
    &&& r.has_previous == (earlier.len() > 0)
    &&& crate::text::opt_view(r.anchor) == (if earlier.len() > 0 {
        crate::text::opt_view(earlier.last().message.native_anchor)
    } else {
        None
    })
    &&& r.match_text@ == own[pos].dispatched@
    &&& crate::text::texts_view(r.user_texts@) == dispatched_texts(
        delivered_rows(own.take(pos + 1)),
    )
}

fn same_session(a: Option<i32>, b: Option<i32>) -> (r: bool)
    ensures
        r == (a == b),
{
    match (a, b) {
        (Some(x), Some(y)) => x == y,
        (None, None) => true,
        _ => false,
    }
}

fn own_rows<'a>(rows: &'a Vec<TimelineRow>, session_id: Option<i32>) -> (r: Vec<&'a TimelineRow>)
    ensures
        r@.len() == rows_of(rows@, session_id).len(),
        forall|i: int| 0 <= i < r@.len() ==> *(#[trigger] r@[i]) == rows_of(rows@, session_id)[i],
{
    let ghost keep = |x: TimelineRow| x.message.session_id == session_id;
    let mut out: Vec<&'a TimelineRow> = Vec::new();
    let mut i: usize = 0;
    proof {
        reveal(Seq::filter);
        assert(rows@.take(0).filter(keep) =~= seq![]);
    }
    while i < rows.len()
        invariant
            i <= rows@.len(),
            keep == (|x: TimelineRow| x.message.session_id == session_id),
            out@.len() == rows@.take(i as int).filter(keep).len(),
            forall|j: int|
                0 <= j < out@.len() ==> *(#[trigger] out@[j]) == rows@.take(i as int).filter(
                    keep,
                )[j],
        decreases rows@.len() - i,
    {
        proof {
            reveal(Seq::filter);
            assert(rows@.take(i + 1).drop_last() =~= rows@.take(i as int));
            assert(rows@.take(i + 1).last() == rows@[i as int]);
        }
        if same_session(rows[i].message.session_id, session_id) {
            out.push(&rows[i]);
        }
        i = i + 1;
    }
    assert(rows@.take(rows@.len() as int) =~= rows@);
    out
}

fn find_message(own: &Vec<&TimelineRow>, Ghost(spec): Ghost<Seq<TimelineRow>>, id: i32) -> (r: usize)
    requires
        own@.len() == spec.len(),
        forall|i: int| 0 <= i < own@.len() ==> *(#[trigger] own@[i]) == spec[i],
    ensures
        r == place_of_message(spec, id),
        r <= own@.len(),
{
    let mut i: usize = 0;
    assert(spec.skip(0) =~= spec);
    while i < own.len() && own[i].message.id != id
        invariant
            i <= own@.len(),
            own@.len() == spec.len(),
            forall|j: int| 0 <= j < own@.len() ==> *(#[trigger] own@[j]) == spec[j],
            place_of_message(spec, id) == i + place_of_message(spec.skip(i as int), id),
        decreases own@.len() - i,
    {
        proof {
            assert(spec.skip(i as int)[0] == spec[i as int]);
            assert(spec.skip(i as int).drop_first() =~= spec.skip(i + 1));
        }
        i = i + 1;
    }
    proof {
        if i < own@.len() {
            assert(spec.skip(i as int)[0] == spec[i as int]);
        }
    }
    i
}

fn text_in(content: &str) -> (r: String)
    ensures
        r@ == content_text(content@),
{
    match Json::parse(content) {
        Some(v) => match v.str_at("text") {
            Some(t) => t.to_owned(),
            None => {
                let e = String::new();
                assert(e@ =~= seq![]);
                e
            },
        },
        None => {
            let e = String::new();
            assert(e@ =~= seq![]);
            e
        },
    }
}

fn ids_from(own: &Vec<&TimelineRow>, Ghost(spec): Ghost<Seq<TimelineRow>>, pos: usize) -> (r: Vec<
    i32,
>)
    requires
        own@.len() == spec.len(),
        forall|i: int| 0 <= i < own@.len() ==> *(#[trigger] own@[i]) == spec[i],
        pos <= own@.len(),
    ensures
        r@ == spec.skip(pos as int).map_values(|m: TimelineRow| m.message.id),
{
    let mut out: Vec<i32> = Vec::new();
    let mut i: usize = pos;
    while i < own.len()
        invariant
            pos <= i <= own@.len(),
            own@.len() == spec.len(),
            forall|j: int| 0 <= j < own@.len() ==> *(#[trigger] own@[j]) == spec[j],
            out@ == spec.subrange(pos as int, i as int).map_values(
                |m: TimelineRow| m.message.id,
            ),
        decreases own@.len() - i,
    {
        let id: i32 = own[i].message.id;
        assert(spec.subrange(pos as int, i + 1).map_values(|m: TimelineRow| m.message.id)
            =~= spec.subrange(pos as int, i as int).map_values(
            |m: TimelineRow| m.message.id,
        ).push(id));
        out.push(id);
        i = i + 1;
    }
    assert(spec.subrange(pos as int, own@.len() as int) =~= spec.skip(pos as int));
    out
}

/// What went out before a place: the texts, and the last row that did.
fn gone_out<'a>(
    own: &Vec<&'a TimelineRow>,
    Ghost(spec): Ghost<Seq<TimelineRow>>,
    upto: usize,
) -> (r: (Vec<String>, Option<&'a TimelineRow>))
    requires
        own@.len() == spec.len(),
        forall|i: int| 0 <= i < own@.len() ==> *(#[trigger] own@[i]) == spec[i],
        upto <= own@.len(),
    ensures
        crate::text::texts_view(r.0@) == dispatched_texts(delivered_rows(spec.take(upto as int))),
        r.1 is Some == (delivered_rows(spec.take(upto as int)).len() > 0),
        r.1 is Some ==> *(r.1->0) == delivered_rows(spec.take(upto as int)).last(),
{
    let ghost keep = |x: TimelineRow| x.delivered;
    let mut out: Vec<String> = Vec::new();
    let mut last: Option<&'a TimelineRow> = None;
    let mut i: usize = 0;
    proof {
        reveal(Seq::filter);
        assert(spec.take(0).filter(keep) =~= seq![]);
        assert(crate::text::texts_view(out@) =~= dispatched_texts(delivered_rows(spec.take(0))));
    }
    while i < upto
        invariant
            i <= upto <= own@.len(),
            own@.len() == spec.len(),
            forall|j: int| 0 <= j < own@.len() ==> *(#[trigger] own@[j]) == spec[j],
            keep == (|x: TimelineRow| x.delivered),
            crate::text::texts_view(out@) == dispatched_texts(
                delivered_rows(spec.take(i as int)),
            ),
            last is Some == (delivered_rows(spec.take(i as int)).len() > 0),
            last is Some ==> *(last->0) == delivered_rows(spec.take(i as int)).last(),
        decreases upto - i,
    {
        let ghost before = delivered_rows(spec.take(i as int));
        proof {
            reveal(Seq::filter);
            assert(spec.take(i + 1).drop_last() =~= spec.take(i as int));
            assert(spec.take(i + 1).last() == spec[i as int]);
            assert(*own@[i as int] == spec[i as int]);
        }
        if own[i].delivered {
            let t = own[i].dispatched.clone();
            proof {
                assert(delivered_rows(spec.take(i + 1)) == before.push(spec[i as int]));
                assert(crate::text::texts_view(out@.push(t)) =~= crate::text::texts_view(
                    out@,
                ).push(t@));
                assert(dispatched_texts(before.push(spec[i as int])) =~= dispatched_texts(
                    before,
                ).push(t@));
            }
            out.push(t);
            last = Some(own[i]);
        }
        i = i + 1;
    }
    (out, last)
}

/// Plan a rewind to just before a message: it must be a user message of this very
/// timeline that went out. The cut is found by the last earlier message that
/// reached the native history; what was never delivered does not count.
pub fn plan_rewind(
    rows: &Vec<TimelineRow>,
    session_id: Option<i32>,
    message_id: i32,
    mode: RewindMode,
) -> (r: Result<RewindPlan, RewindError>)
    ensures
        match target_refused(rows@, session_id, message_id, mode) {
            Some(e) => r is Err && r->Err_0 == e,
            None => r is Ok && plan_of(rows@, session_id, message_id, mode, r->Ok_0),
        },
{
    let conversation_only = match mode {
        RewindMode::Conversation => true,
        _ => false,
    };
    if session_id.is_none() && !conversation_only {
        return Err(RewindError::LeadHasNoWorktree);
    }
    let own = own_rows(rows, session_id);
    let ghost spec = rows_of(rows@, session_id);
    let pos: usize = find_message(&own, Ghost(spec), message_id);
    if pos >= own.len() {
        return Err(RewindError::NoSuchMessage);
    }
    let target = own[pos];
    assert(*target == spec[pos as int]);
    if !same(target.message.role.as_str(), "user") {
        return Err(RewindError::NotUserMessage);
    }
    if !same(target.message.status.as_str(), "complete") {
        return Err(RewindError::NotComplete);
    }
    let deleted_ids: Vec<i32> = match mode {
        RewindMode::Code => Vec::new(),
        _ => ids_from(&own, Ghost(spec), pos),
    };
    let (_, previous) = gone_out(&own, Ghost(spec), pos);
    let (user_texts, _) = gone_out(&own, Ghost(spec), pos + 1);
    let anchor = match previous {
        Some(p) => opt_clone(&p.message.native_anchor),
        None => None,
    };
    Ok(
        RewindPlan {
            target_turn: target.message.turn_id,
            rewound_text: text_in(target.message.content.as_str()),
            deleted_ids,
            has_previous: previous.is_some(),
            anchor,
            match_text: target.dispatched.clone(),
            user_texts,
        },
    )
}

/// A text with its white space evened out: its words, one blank apart.
pub open spec fn squeezed(s: Seq<char>) -> Seq<char>
    decreases s.len(),
{
    if s.len() == 0 {
        seq![]
    } else {
        let before = s.drop_last();
        if crate::text::white(s.last()) {
            squeezed(before)
        } else if before.len() > 0 && crate::text::white(before.last()) && squeezed(before).len()
            > 0 {
            squeezed(before).push(' ').push(s.last())
        } else {
            squeezed(before).push(s.last())
        }
    }
}

fn squeeze(s: &str) -> (r: Vec<char>)
    ensures
        r@ == squeezed(s@),
{
    let n: usize = s.unicode_len();
    let mut out: Vec<char> = Vec::new();
    let mut i: usize = 0;
    assert(out@ =~= squeezed(s@.take(0)));
    while i < n
        invariant
            i <= n,
            n == s@.len(),
            out@ == squeezed(s@.take(i as int)),
        decreases n - i,
    {
        let c = s.get_char(i);
        let gap = i > 0 && is_white(s.get_char(i - 1));
        proof {
            assert(s@.take(i + 1).drop_last() =~= s@.take(i as int));
            assert(s@.take(i + 1).last() == c);
            if i > 0 {
                assert(s@.take(i as int).last() == s@[i - 1]);
            }
        }
        if !is_white(c) {
            if gap && out.len() > 0 {
                out.push(' ');
            }
            out.push(c);
        }
        i = i + 1;
    }
    assert(s@.take(n as int) =~= s@);
    out
}

fn same_chars(a: &Vec<char>, b: &Vec<char>) -> (r: bool)
    ensures
        r == (a@ == b@),
{
    if a.len() != b.len() {
        return false;
    }
    let mut i: usize = 0;
    while i < a.len()
        invariant
            i <= a@.len(),
            a@.len() == b@.len(),
            forall|j: int| 0 <= j < i ==> a@[j] == b@[j],
        decreases a@.len() - i,
    {
        if a[i] != b[i] {
            return false;
        }
        i = i + 1;
    }
    assert(a@ =~= b@);
    true
}

/// How often a text occurs, white space evened out.
pub open spec fn occurrences(texts: Seq<Seq<char>>, target: Seq<char>) -> nat
    decreases texts.len(),
{
    if texts.len() == 0 {
        0
    } else {
        occurrences(texts.drop_last(), target) + if squeezed(texts.last()) == squeezed(target) {
            1nat
        } else {
            0
        }
    }
}

/// Which of the equal messages the last one is, counted from one. A message with no
/// text is a message on the connection backend; elsewhere it leaves no line that
/// could be found, and zero says so.
pub open spec fn ordinal_spec(tool: Seq<char>, texts: Seq<Seq<char>>, target: Seq<char>) -> nat {
    if !crate::engine::connection_tool(tool) && squeezed(target).len() == 0 {
        0
    } else {
        occurrences(texts, target)
    }
}

/// Which of the equal messages the last of `texts` is, counted from one; zero where
/// it cannot be addressed.
pub fn rewind_ordinal(tool: &str, texts: &Vec<String>, target: &str) -> (r: usize)
    ensures
        r == ordinal_spec(tool@, crate::text::texts_view(texts@), target@),
{
    let key = squeeze(target);
    if !is_acp_tool(tool) && key.len() == 0 {
        return 0;
    }
    let ghost all = crate::text::texts_view(texts@);
    let mut n: usize = 0;
    let mut i: usize = 0;
    assert(all.take(0) =~= seq![]);
    while i < texts.len()
        invariant
            i <= texts@.len(),
            n <= i,
            all == crate::text::texts_view(texts@),
            all.len() == texts@.len(),
            key@ == squeezed(target@),
            n == occurrences(all.take(i as int), target@),
        decreases texts@.len() - i,
    {
        proof {
            assert(all.take(i + 1).drop_last() =~= all.take(i as int));
            assert(all.take(i + 1).last() == texts@[i as int]@);
        }
        if same_chars(&squeeze(texts[i].as_str()), &key) {
            n = n + 1;
        }
        i = i + 1;
    }
    assert(all.take(all.len() as int) =~= all);
    n
}

/// How the native history is forked.
#[derive(Debug)]
pub enum ForkPlan {
    /// It is not: the next turn starts a session of its own, or nothing changes.
    Nothing,
    /// Cut the transcript behind this line.
    TranscriptAfter { native: String, uuid: String },
    /// Cut the transcript before the message found by its text.
    TranscriptBefore { native: String, ordinal: usize },
    /// Fork the app-server thread behind this turn.
    Thread { native: String, turn: String },
    /// Fork the served session before the message found by its text.
    Served { native: String, ordinal: usize },
    /// Cut the connection backend's session file likewise.
    SessionFile { native: String, ordinal: usize },
}

/// A fork, as plain values.
pub enum ForkView {
    Nothing,
    TranscriptAfter { native: Seq<char>, uuid: Seq<char> },
    TranscriptBefore { native: Seq<char>, ordinal: nat },
    Thread { native: Seq<char>, turn: Seq<char> },
    Served { native: Seq<char>, ordinal: nat },
    SessionFile { native: Seq<char>, ordinal: nat },
}

impl View for ForkPlan {
    type V = ForkView;

    open spec fn view(&self) -> ForkView {
        match self {
            ForkPlan::Nothing => ForkView::Nothing,
            ForkPlan::TranscriptAfter { native, uuid } => ForkView::TranscriptAfter {
                native: native@,
                uuid: uuid@,
            },
            ForkPlan::TranscriptBefore { native, ordinal } => ForkView::TranscriptBefore {
                native: native@,
                ordinal: *ordinal as nat,
            },
            ForkPlan::Thread { native, turn } => ForkView::Thread {
                native: native@,
                turn: turn@,
            },
            ForkPlan::Served { native, ordinal } => ForkView::Served {
                native: native@,
                ordinal: *ordinal as nat,
            },
            ForkPlan::SessionFile { native, ordinal } => ForkView::SessionFile {
                native: native@,
                ordinal: *ordinal as nat,
            },
        }
    }
}

/// How the native history of this tool is forked.
pub open spec fn fork_spec(
    tool: Seq<char>,
    transcript_tool: Seq<char>,
    mode: RewindMode,
    native: Option<Seq<char>>,
    has_previous: bool,
    anchor: Option<Seq<char>>,
    ordinal: nat,
    appserver: bool,
) -> Result<ForkView, RewindError> {
    if mode == RewindMode::Code {
        Ok(ForkView::Nothing)
    } else if tool == transcript_tool {
        if native is None {
            Ok(ForkView::Nothing)
        } else if anchor is Some {
            Ok(ForkView::TranscriptAfter { native: native->0, uuid: anchor->0 })
        } else if ordinal == 0 {
            Err(RewindError::NoAnchor)
        } else {
            Ok(ForkView::TranscriptBefore { native: native->0, ordinal })
        }
    } else if tool == "codex"@ {
        if !appserver {
            Err(RewindError::ExecUnsupported)
        } else if native is None || !has_previous {
            Ok(ForkView::Nothing)
        } else if anchor is None {
            Err(RewindError::NoAnchor)
        } else {
            Ok(ForkView::Thread { native: native->0, turn: anchor->0 })
        }
    } else if tool == "opencode"@ || crate::engine::connection_tool(tool) {
        if native is None || !has_previous {
            Ok(ForkView::Nothing)
        } else if ordinal == 0 {
            Err(RewindError::NoAnchor)
        } else if tool == "opencode"@ {
            Ok(ForkView::Served { native: native->0, ordinal })
        } else {
            Ok(ForkView::SessionFile { native: native->0, ordinal })
        }
    } else {
        Err(RewindError::ToolUnsupported)
    }
}

pub open spec fn fork_result(r: Result<ForkPlan, RewindError>) -> Result<ForkView, RewindError> {
    match r {
        Ok(p) => Ok(p@),
        Err(e) => Err(e),
    }
}

/// Settle how the native history is forked, before anything is changed. Rewinding
/// to before the first message forks nothing: the next turn starts afresh.
/// `transcript_tool` is the name of the tool that keeps its history in a transcript.
pub fn plan_fork(
    tool: &str,
    transcript_tool: &str,
    mode: RewindMode,
    native: Option<&str>,
    plan: &RewindPlan,
    ordinal: usize,
    appserver: bool,
) -> (r: Result<ForkPlan, RewindError>)
    ensures
        fork_result(r) == fork_spec(
            tool@,
            transcript_tool@,
            mode,
            crate::text::opt_str_view(native),
            plan.has_previous,
            crate::text::opt_view(plan.anchor),
            ordinal as nat,
            appserver,
        ),
{
    match mode {
        RewindMode::Code => {
            return Ok(ForkPlan::Nothing);
        },
        _ => {},
    }
    if same(tool, transcript_tool) {
        return match native {
            None => Ok(ForkPlan::Nothing),
            Some(n) => match &plan.anchor {
                Some(a) => Ok(
                    ForkPlan::TranscriptAfter { native: n.to_owned(), uuid: a.clone() },
                ),
                None => if ordinal == 0 {
                    Err(RewindError::NoAnchor)
                } else {
                    Ok(ForkPlan::TranscriptBefore { native: n.to_owned(), ordinal })
                },
            },
        };
    }
    if same(tool, "codex") {
        if !appserver {
            return Err(RewindError::ExecUnsupported);
        }
        return match native {
            None => Ok(ForkPlan::Nothing),
            Some(n) => if !plan.has_previous {
                Ok(ForkPlan::Nothing)
            } else {
                match &plan.anchor {
                    None => Err(RewindError::NoAnchor),
                    Some(t) => Ok(ForkPlan::Thread { native: n.to_owned(), turn: t.clone() }),
                }
            },
        };
    }
    let served = same(tool, "opencode");
    if served || is_acp_tool(tool) {
        return match native {
            None => Ok(ForkPlan::Nothing),
            Some(n) => if !plan.has_previous {
                Ok(ForkPlan::Nothing)
            } else if ordinal == 0 {
                Err(RewindError::NoAnchor)
            } else if served {
                Ok(ForkPlan::Served { native: n.to_owned(), ordinal })
            } else {
                Ok(ForkPlan::SessionFile { native: n.to_owned(), ordinal })
            },
        };
    }
    Err(RewindError::ToolUnsupported)
}

/// The nested repositories that a checkpoint recorded; none where the record
/// cannot be read.
pub open spec fn nested_recorded(text: Seq<char>) -> Seq<Seq<char>> {
    match crate::json::names_parsed(text) {
        Some(names) => names,
        None => seq![],
    }
}

/// Why the code cannot be restored.
pub open spec fn restore_refused(
    created_checkout: bool,
    has_submodules: bool,
    nested_repos: Option<Seq<Seq<char>>>,
    session_id: Option<i32>,
) -> Option<RewindError> {
    if !created_checkout {
        Some(RewindError::ReusedCheckout)
    } else if has_submodules {
        Some(RewindError::HasSubmodules)
    } else if nested_repos is None {
        Some(RewindError::NoCheckpoint)
    } else if nested_repos->0.len() > 0 {
        Some(RewindError::NestedRepos)
    } else if session_id is None {
        Some(RewindError::LeadHasNoWorktree)
    } else {
        None
    }
}

/// The session whose code is restored, or why it is not.
pub open spec fn restore_target(refused: Option<RewindError>, session_id: Option<i32>) -> Result<
    i32,
    RewindError,
> {
    match refused {
        Some(e) => Err(e),
        None => Ok(session_id->0),
    }
}

/// Whether the code can be restored to a checkpoint, and for which session.
/// `nested_repos` are the nested repositories that stood in the checkout then, if
/// there is a checkpoint. Refused rather than restored in part.
pub fn code_target(
    created_checkout: bool,
    has_submodules: bool,
    nested_repos: Option<&Vec<String>>,
    session_id: Option<i32>,
) -> (r: Result<i32, RewindError>)
    ensures
        r == restore_target(
            restore_refused(
                created_checkout,
                has_submodules,
                match nested_repos {
                    Some(names) => Some(crate::text::texts_view(names@)),
                    None => None,
                },
                session_id,
            ),
            session_id,
        ),
{
    if !created_checkout {
        return Err(RewindError::ReusedCheckout);
    }
    if has_submodules {
        return Err(RewindError::HasSubmodules);
    }
    match nested_repos {
        None => {
            return Err(RewindError::NoCheckpoint);
        },
        Some(names) => if names.len() > 0 {
            return Err(RewindError::NestedRepos);
        },
    }
    match session_id {
        Some(s) => Ok(s),
        None => Err(RewindError::LeadHasNoWorktree),
    }
}

/// Whether the code can be restored to a message's checkpoint, and for which
/// session. `nested_repos` is what the checkpoint records of nested repositories,
/// if there is a checkpoint.
pub fn resolve_code_target(
    created_checkout: bool,
    has_submodules: bool,
    nested_repos: Option<&str>,
    session_id: Option<i32>,
) -> (r: Result<i32, RewindError>)
    ensures
        r == restore_target(
            restore_refused(
                created_checkout,
                has_submodules,
                match nested_repos {
                    Some(text) => Some(nested_recorded(text@)),
                    None => None,
                },
                session_id,
            ),
            session_id,
        ),
{
    match nested_repos {
        Some(text) => {
            let names = match parse_names(text) {
                Some(names) => names,
                None => Vec::new(),
            };
            assert(crate::text::texts_view(names@) =~= nested_recorded(text@));
            code_target(created_checkout, has_submodules, Some(&names), session_id)
        },
        None => code_target(created_checkout, has_submodules, None, session_id),
    }
}

/// What is seen of another session's engine without waiting for it.
#[derive(Debug, PartialEq, Eq, Structural, Clone, Copy)]
pub enum Peer {
    /// No engine runs for it.
    Absent,
    Idle,
    Busy,
    /// Somebody is at work on it right now.
    Locked,
}

/// A session that shares the worktree.
pub struct Sibling {
    pub session_id: i32,
    pub peer: Peer,
}

/// Another session is, or may be, at work in the worktree.
pub open spec fn sibling_busy(siblings: Seq<Sibling>, ours: i32) -> bool {
    exists|i: int|
        0 <= i < siblings.len() && (#[trigger] siblings[i]).session_id != ours && (siblings[i].peer
            == Peer::Busy || siblings[i].peer == Peer::Locked)
}

/// Whether another session is at work in the shared worktree. One whose state cannot
/// be seen counts as busy: waiting for it could deadlock.
pub fn sibling_turn_busy(siblings: &Vec<Sibling>, ours: i32) -> (r: bool)
    ensures
        r == sibling_busy(siblings@, ours),
{
    let mut i: usize = 0;
    while i < siblings.len()
        invariant
            i <= siblings@.len(),
            forall|j: int|
                0 <= j < i ==> !((#[trigger] siblings@[j]).session_id != ours && (
                siblings@[j].peer == Peer::Busy || siblings@[j].peer == Peer::Locked)),
        decreases siblings@.len() - i,
    {
        if siblings[i].session_id != ours {
            match siblings[i].peer {
                Peer::Busy => {
                    assert(siblings@[i as int].peer == Peer::Busy);
                    return true;
                },
                Peer::Locked => {
                    assert(siblings@[i as int].peer == Peer::Locked);
                    return true;
                },
                _ => {},
            }
        }
        i = i + 1;
    }
    false
}

/// Whether a turn's checkpoint is taken: only of a checkout of our own that nobody
/// else writes to, that is there, and that can be restored whole.
pub fn checkpoint_due(
    created_checkout: bool,
    sibling_busy: bool,
    is_dir: bool,
    has_submodules: bool,
) -> (r: bool)
    ensures
        r == (created_checkout && !sibling_busy && is_dir && !has_submodules),
{
    created_checkout && !sibling_busy && is_dir && !has_submodules
}

/// Whether the message behind a checkpoint is still the one that opens its turn.
pub fn checkpoint_source_stands(
    message: &LeadMessage,
    thread_id: i32,
    session_id: i32,
    turn_id: i32,
) -> (r: bool)
    ensures
        r == (message.thread_id == thread_id && message.session_id == Some(session_id)
            && message.turn_id == turn_id),
{
    message.thread_id == thread_id && same_session(message.session_id, Some(session_id))
        && message.turn_id == turn_id
}

/// The divider between the past that was kept and what comes now.
pub open spec fn marker_tree(from_message_id: int, deleted: int) -> JsonView {
    JsonView::Obj(
        map![
            "from_message_id"@ => JsonView::Int(from_message_id),
            "deleted"@ => JsonView::Int(deleted),
        ],
    )
}

/// The content of the divider row.
pub fn rewind_marker(from_message_id: i32, deleted: u64) -> (r: String)
    ensures
        r@ == crate::json::json_text(marker_tree(from_message_id as int, deleted as int)),
{
    let mut m: Vec<JsonEntry> = Vec::new();
    put(&mut m, "from_message_id", Json::Int(from_message_id as i64));
    put(&mut m, "deleted", Json::Uint(deleted));
    let doc = Json::Obj(m);
    assert(doc@->Obj_0 =~= marker_tree(from_message_id as int, deleted as int)->Obj_0);
    doc.print()
}

/// A rewind that is planned deletes the message and everything of its session
/// behind it, and nothing before it or of another session.
pub proof fn law_rewind_keeps_the_past(
    rows: Seq<TimelineRow>,
    session_id: Option<i32>,
    message_id: i32,
    plan: RewindPlan,
)
    requires
        target_refused(rows, session_id, message_id, RewindMode::Conversation) is None,
        plan_of(rows, session_id, message_id, RewindMode::Conversation, plan),
    ensures
        ({
            let own = rows_of(rows, session_id);
            let kept = own.len() - plan.deleted_ids@.len();
            &&& plan.deleted_ids@.len() > 0
            &&& plan.deleted_ids@[0] == message_id
            &&& forall|i: int|
                0 <= i < plan.deleted_ids@.len() ==> (#[trigger] plan.deleted_ids@[i]) == own[kept
                    + i].message.id
        }),
{
    let own = rows_of(rows, session_id);
    lemma_place(own, message_id);
}

proof fn lemma_place(rows: Seq<TimelineRow>, id: i32)
    ensures
        place_of_message(rows, id) <= rows.len(),
        place_of_message(rows, id) < rows.len() ==> rows[place_of_message(
            rows,
            id,
        ) as int].message.id == id,
    decreases rows.len(),
{
    if rows.len() > 0 && rows[0].message.id != id {
        lemma_place(rows.drop_first(), id);
    }
}

/// The message that a rewind cuts at is always found: where it went out with a text
/// that can be addressed, its number among the equal ones is not zero.
pub proof fn law_ordinal_finds_the_message(
    tool: Seq<char>,
    texts: Seq<Seq<char>>,
    target: Seq<char>,
)
    requires
        texts.len() > 0,
        texts.last() == target,
        crate::engine::connection_tool(tool) || squeezed(target).len() > 0,
    ensures
        ordinal_spec(tool, texts, target) >= 1,
{
}

/// While a rewind holds the engine, no message is admitted.
pub proof fn law_rewind_holds_the_engine(inner: EngineInner)
    ensures
        crate::sending::send_block((EngineInner { rewinding: true, ..inner })) is Some,
{
}

} // verus!
