//! What the timeline rows promise, said of calls, results and what is written.

use vstd::prelude::*;

use crate::engine::{EngineInner, ToolRow};
use crate::json::{json_text, parsed, str_items, Json, JsonView};
use crate::proto::{results_view, ToolCall, ToolResultItem, ToolResultView};
use crate::rows::{
    branch_of, card_row, close_streamed_row, close_text_row, finalize_text, finalize_text_parsed,
    is_anonymous_slot_duplicate, list_repos_reply, merge_tool_results, orphan_updates,
    plan_tool_row, plumbing, queue_hidden_delivery, remember_tool_row, repos_tree, result_updates,
    rows_left, sentinel_action, text_row_content, text_row_tree, tool_row_content, tool_row_status,
    updates_view, with_result, LeadMessage, RepoRef, Sentinel, SentinelAction, SentinelActionView,
    TextClose, ToolRowPlan, ToolRowUpdate,
};
use crate::text::{opt_view, texts_view, trimmed};
use crate::text_laws::{blank, lemma_trimmed, stripped};
use crate::turn::Outgoing;

verus! {

/// A text is blank exactly when nothing of it is left after trimming.
pub proof fn lemma_blank(t: Seq<char>)
    ensures
        blank(t) == (trimmed(t).len() == 0),
        stripped(t, trimmed(t)),
{
    lemma_trimmed(t);
    let inner = trimmed(t);
    let (a, b) = choose|a: Seq<char>, b: Seq<char>|
        t == #[trigger] (a + inner + b) && blank(a) && blank(b);
    if inner.len() == 0 {
        assert forall|i: int| 0 <= i < t.len() implies crate::text::white(#[trigger] t[i]) by {
            if i < a.len() {
                assert(t[i] == a[i]);
            } else {
                assert(t[i] == b[i - a.len()]);
            }
        }
    } else {
        assert(t[a.len() as int] == inner[0]);
    }
}

/// The document names something under this key.
pub open spec fn names_some(doc: Option<JsonView>, key: Seq<char>) -> bool {
    doc is Some && doc->0.at(key) is Arr && doc->0.at(key)->Arr_0.len() > 0
}

/// A delivered row is finalized with the text that went out exactly when it is a plain
/// text row, and neither it nor the message has an attachment.
pub proof fn law_only_plain_rows_are_finalized(m: &LeadMessage, out: &Outgoing, r: Option<String>)
    requires
        call_ensures(finalize_text, (m, out), r),
    ensures
        r is Some == (m.kind@ == "text"@ && out.images@.len() == 0 && !names_some(
            parsed(m.content@),
            "images"@,
        ) && !names_some(parsed(m.content@), "files"@)),
        r is Some ==> r->0@ == out.text@,
{
}

/// A call that has its output is over: in error or complete. One without streams while
/// its result can find it, by its id, and only then.
pub proof fn law_row_of_a_call(call: &ToolCall, tag: Option<&str>, r: ToolRowPlan)
    requires
        call_ensures(plan_tool_row, (call, tag), r),
    ensures
        call.output is Some && call.is_error ==> r.status@ == "error"@,
        call.output is Some && !call.is_error ==> r.status@ == "complete"@,
        call.output is None && call.id@.len() > 0 ==> r.status@ == "streaming"@,
        call.output is None && call.id@.len() == 0 ==> r.status@ == "complete"@,
        r.trackable == (call.output is None && call.id@.len() > 0),
        r.text@ == json_text(r.content@),
        r.content@.get("name"@) == Some(JsonView::Str(call.name@)),
        r.content@.get("summary"@) == Some(JsonView::Str(call.summary@)),
        r.content@.get("input"@) == Some(call.input@),
        call.output is Some ==> r.content@.get("output"@) == Some(
            JsonView::Str(call.output->0@),
        ),
        r.content@.get("is_error"@) == Some(JsonView::Bool(call.is_error)),
        tag is Some ==> r.content@.get("agentThread"@) == Some(JsonView::Str(tag->0@)),
        tag is None ==> r.content@.get("agentThread"@) is None,
        call.collab_threads@.len() > 0 ==> r.content@.get("collabThreads"@) == Some(
            JsonView::Arr(str_items(texts_view(call.collab_threads@))),
        ),
        call.collab_threads@.len() == 0 ==> r.content@.get("collabThreads"@) is None,
{
    lemma_row_keys();
    assert(texts_view(call.collab_threads@).len() == call.collab_threads@.len());
}

/// The keys of a tool row differ.
proof fn lemma_row_keys()
    ensures
        "name"@.len() == 4 && "summary"@.len() == 7 && "input"@.len() == 5,
        "output"@.len() == 6 && "is_error"@.len() == 8 && "agentThread"@.len() == 11,
        "collabThreads"@.len() == 13,
{
    reveal_strlit("name");
    reveal_strlit("summary");
    reveal_strlit("input");
    reveal_strlit("output");
    reveal_strlit("is_error");
    reveal_strlit("agentThread");
    reveal_strlit("collabThreads");
}

/// A row whose result is to come is remembered under the id of its call, as it was
/// written; every other row that waits is kept.
pub proof fn law_waiting_row_is_remembered(
    before: EngineInner,
    call: &ToolCall,
    row: i32,
    plan: ToolRowPlan,
    after: EngineInner,
)
    requires
        before.wf(),
        exists|m: &mut EngineInner|
            *m == before && *final(m) == after && #[trigger] call_ensures(
                remember_tool_row,
                (m, call, row, plan),
                (),
            ),
    ensures
        after.wf(),
        after == (EngineInner { tool_rows: after.tool_rows, ..before }),
        plan.trackable ==> after.tool_rows@.dom().contains(call.id@)
            && after.tool_rows@[call.id@].row == row && after.tool_rows@[call.id@].content@
            == plan.content@,
        !plan.trackable ==> after.tool_rows@ == before.tool_rows@,
        forall|k: Seq<char>|
            k != call.id@ && #[trigger] before.tool_rows@.dom().contains(k)
                ==> after.tool_rows@.dom().contains(k) && after.tool_rows@[k]
                == before.tool_rows@[k],
{
}

/// A result fills in the output and says whether it is an error; the sub-agents that it
/// opened it names, if any. All other members of the row's content stay.
pub proof fn law_result_is_filled_in(content: JsonView, item: ToolResultView, key: Seq<char>)
    requires
        content is Obj,
    ensures
        with_result(content, item) is Obj,
        with_result(content, item).get("output"@) == Some(JsonView::Str(item.output)),
        with_result(content, item).get("is_error"@) == Some(JsonView::Bool(item.is_error)),
        item.collab_threads.len() > 0 ==> with_result(content, item).get("collabThreads"@) == Some(
            JsonView::Arr(str_items(item.collab_threads)),
        ),
        item.collab_threads.len() == 0 ==> with_result(content, item).get("collabThreads"@)
            == content.get("collabThreads"@),
        key != "output"@ && key != "is_error"@ && key != "collabThreads"@ ==> with_result(
            content,
            item,
        ).get(key) == content.get(key),
{
    lemma_row_keys();
}

proof fn lemma_left(rows: Map<Seq<char>, ToolRow>, items: Seq<ToolResultView>, k: Seq<char>)
    ensures
        rows_left(rows, items).dom().contains(k) == (rows.dom().contains(k) && forall|i: int|
            0 <= i < items.len() ==> (#[trigger] items[i]).id != k),
        rows_left(rows, items).dom().contains(k) ==> rows_left(rows, items)[k] == rows[k],
    decreases items.len(),
{
    if items.len() > 0 {
        let rest = items.drop_last();
        lemma_left(rows, rest, k);
        if forall|i: int| 0 <= i < items.len() ==> (#[trigger] items[i]).id != k {
            assert forall|i: int| 0 <= i < rest.len() implies (#[trigger] rest[i]).id != k by {
                assert(rest[i] == items[i]);
            }
            assert(items[items.len() - 1].id != k);
        } else {
            let i = choose|i: int| 0 <= i < items.len() && (#[trigger] items[i]).id == k;
            if i < rest.len() {
                assert(rest[i].id == k);
            }
        }
    }
}

/// A row waits no longer exactly when a result for it came; the others wait on, as they
/// were.
pub proof fn law_rows_wait_for_their_results(
    before: EngineInner,
    items: Vec<ToolResultItem>,
    r: Vec<ToolRowUpdate>,
    after: EngineInner,
    k: Seq<char>,
)
    requires
        before.wf(),
        exists|m: &mut EngineInner|
            *m == before && *final(m) == after && #[trigger] call_ensures(
                merge_tool_results,
                (m, &items),
                r,
            ),
    ensures
        after.wf(),
        after.tool_rows@.dom().contains(k) == (before.tool_rows@.dom().contains(k)
            && forall|i: int| 0 <= i < items@.len() ==> (#[trigger] items@[i]).id@ != k),
        after.tool_rows@.dom().contains(k) ==> after.tool_rows@[k] == before.tool_rows@[k],
        after == (EngineInner { tool_rows: after.tool_rows, ..before }),
{
    let all = results_view(items@);
    lemma_left(before.tool_rows@, all, k);
    if forall|i: int| 0 <= i < items@.len() ==> (#[trigger] items@[i]).id@ != k {
        assert forall|i: int| 0 <= i < all.len() implies (#[trigger] all[i]).id != k by {
            assert(items@[i].id@ != k);
        }
    } else {
        let i = choose|i: int| 0 <= i < items@.len() && (#[trigger] items@[i]).id@ == k;
        assert(all[i].id == k);
    }
}

/// One result rewrites the row that waits for it: under the row's id, with the result
/// filled in, and closed as complete or in error. One that no row waits for rewrites
/// none.
pub proof fn law_one_result_closes_its_row(
    before: EngineInner,
    items: Vec<ToolResultItem>,
    r: Vec<ToolRowUpdate>,
    after: EngineInner,
)
    requires
        before.wf(),
        items@.len() == 1,
        exists|m: &mut EngineInner|
            *m == before && *final(m) == after && #[trigger] call_ensures(
                merge_tool_results,
                (m, &items),
                r,
            ),
    ensures
        ({
            let item = items@[0];
            let waits = before.tool_rows@.dom().contains(item.id@);
            &&& r@.len() == if waits {
                1nat
            } else {
                0
            }
            &&& waits ==> {
                let row = before.tool_rows@[item.id@];
                &&& r@[0].row == row.row
                &&& r@[0].content@ == json_text(with_result(row.content@, item@))
                &&& item.is_error ==> r@[0].status@ == "error"@
                &&& !item.is_error ==> r@[0].status@ == "complete"@
            }
        }),
{
    let all = results_view(items@);
    assert(all =~= seq![items@[0]@]);
    assert(all.drop_last() =~= seq![]);
    reveal_with_fuel(result_updates, 2);
    assert(updates_view(r@).len() == r@.len());
    if before.tool_rows@.dom().contains(items@[0].id@) {
        assert(updates_view(r@)[0] == r@[0]@);
    }
}

proof fn lemma_updates_split(
    rows: Map<Seq<char>, ToolRow>,
    a: Seq<ToolResultView>,
    b: Seq<ToolResultView>,
)
    ensures
        result_updates(rows, a + b) == result_updates(rows, a) + result_updates(
            rows_left(rows, a),
            b,
        ),
        rows_left(rows, a + b) == rows_left(rows_left(rows, a), b),
    decreases b.len(),
{
    if b.len() == 0 {
        assert(a + b =~= a);
        assert(result_updates(rows, a) + result_updates(rows_left(rows, a), b) =~= result_updates(
            rows,
            a,
        ));
    } else {
        lemma_updates_split(rows, a, b.drop_last());
        assert((a + b).drop_last() =~= a + b.drop_last());
        assert((a + b).last() == b.last());
        assert(result_updates(rows, a + b) =~= result_updates(rows, a) + result_updates(
            rows_left(rows, a),
            b,
        ));
    }
}

/// Results that come together do what they do one after the other.
pub proof fn law_results_come_one_by_one(
    before: EngineInner,
    first: Vec<ToolResultItem>,
    r1: Vec<ToolRowUpdate>,
    between: EngineInner,
    second: Vec<ToolResultItem>,
    r2: Vec<ToolRowUpdate>,
    after: EngineInner,
    all: Vec<ToolResultItem>,
    r: Vec<ToolRowUpdate>,
    at_once: EngineInner,
)
    requires
        before.wf() && between.wf(),
        results_view(all@) == results_view(first@) + results_view(second@),
        exists|m: &mut EngineInner|
            *m == before && *final(m) == between && #[trigger] call_ensures(
                merge_tool_results,
                (m, &first),
                r1,
            ),
        exists|m: &mut EngineInner|
            *m == between && *final(m) == after && #[trigger] call_ensures(
                merge_tool_results,
                (m, &second),
                r2,
            ),
        exists|m: &mut EngineInner|
            *m == before && *final(m) == at_once && #[trigger] call_ensures(
                merge_tool_results,
                (m, &all),
                r,
            ),
    ensures
        updates_view(r@) == updates_view(r1@) + updates_view(r2@),
        at_once.tool_rows@ == after.tool_rows@,
{
    lemma_updates_split(before.tool_rows@, results_view(first@), results_view(second@));
}

/// Every row whose result never came is closed, in order, with its content as it stands
/// and with that status.
pub proof fn law_orphans_are_closed_as_they_stand(
    rows: Vec<(String, ToolRow)>,
    status: &str,
    r: Vec<ToolRowUpdate>,
)
    requires
        call_ensures(orphan_updates, (&rows, status), r),
    ensures
        r@.len() == rows@.len(),
        forall|i: int|
            0 <= i < r@.len() ==> (#[trigger] r@[i]).row == rows@[i].1.row && r@[i].content@
                == json_text(rows@[i].1.content@) && r@[i].status@ == status@,
{
    assert(updates_view(r@).len() == r@.len());
    assert forall|i: int| 0 <= i < r@.len() implies (#[trigger] r@[i]).row == rows@[i].1.row
        && r@[i].content@ == json_text(rows@[i].1.content@) && r@[i].status@ == status@ by {
        assert(updates_view(r@)[i] == r@[i]@);
    }
}

/// An event is of a branch exactly when it comes from a thread other than the session's
/// own, and then it is of that one.
pub proof fn law_branch_is_another_thread(raw: Option<String>, own: &str, r: Option<String>)
    requires
        call_ensures(branch_of, (raw, own), r),
    ensures
        r is Some == (raw is Some && raw->0@ != own@),
        r is Some ==> r->0@ == raw->0@,
{
}

/// A row that completes shows its clean body, and that, without the white space around
/// it, goes out if there is any; a row that does not complete keeps its text, and nothing
/// goes out. The live view is told of a body that differs from what streamed.
pub proof fn law_text_row_closes(
    before: EngineInner,
    text: &str,
    clean: &str,
    status: &str,
    replaced: bool,
    tag: Option<&str>,
    r: TextClose,
    after: EngineInner,
)
    requires
        exists|m: &mut EngineInner|
            *m == before && *final(m) == after && #[trigger] call_ensures(
                close_text_row,
                (m, text, clean, status, replaced, tag),
                r,
            ),
    ensures
        status@ == "complete"@ ==> r.content@ == json_text(
            text_row_tree(clean@, crate::text::opt_str_view(tag)),
        ),
        status@ != "complete"@ ==> r.content@ == json_text(
            text_row_tree(text@, crate::text::opt_str_view(tag)),
        ) && r.out is None,
        status@ == "complete"@ ==> r.out is Some == !blank(clean@),
        r.out is Some ==> stripped(clean@, r.out->0@),
        status@ == "complete"@ ==> r.shown is Some == (replaced || clean@ != text@),
        status@ != "complete"@ ==> r.shown is Some == replaced,
        r.shown is Some && status@ == "complete"@ ==> r.shown->0@ == clean@,
        r.shown is Some && status@ != "complete"@ ==> r.shown->0@ == text@,
        after == (EngineInner { turn_saw_text: after.turn_saw_text, ..before }),
        after.turn_saw_text == (before.turn_saw_text || status@ == "complete"@),
{
    lemma_blank(clean@);
}

/// The row that a child streamed into closes as it stands.
pub proof fn law_streamed_row_closes_as_it_stands(text: &str, status: &str, r: TextClose)
    requires
        call_ensures(close_streamed_row, (text, status), r),
    ensures
        r.content@ == json_text(text_row_tree(text@, None)),
        r.shown is None,
        r.out is Some == (status@ == "complete"@ && !blank(text@)),
        r.out is Some ==> stripped(text@, r.out->0@),
{
    lemma_blank(text@);
}

/// A card is inserted, as it was written, exactly when its payload is a JSON object. The
/// test cases are stored exactly for a lead without a waiting edit of its user, and then
/// without the white space around them.
pub proof fn law_directives(inner: &EngineInner, s: Sentinel, r: SentinelAction)
    requires
        call_ensures(sentinel_action, (inner, &s), r),
    ensures
        match s {
            Sentinel::ActionCard(p) => {
                let object = parsed(p@) is Some && parsed(p@)->0 is Obj;
                &&& object ==> r@ == (SentinelActionView::InsertCard {
                    kind: "action_card"@,
                    payload: p@,
                })
                &&& !object ==> r@ is Drop
            },
            Sentinel::PlanCard(p) => {
                let object = parsed(p@) is Some && parsed(p@)->0 is Obj;
                &&& object ==> r@ == (SentinelActionView::InsertCard {
                    kind: "plan_card"@,
                    payload: p@,
                })
                &&& !object ==> r@ is Drop
            },
            Sentinel::TestCases(md) => {
                let kept = inner.session_id is None && !crate::turn::holds_test_update(
                    inner.turn.queue@,
                ) && !blank(md@);
                &&& r@ is UpsertTestCases == kept
                &&& r@ is Drop == !kept
                &&& kept ==> stripped(md@, r@->body) && r@->since == inner.clock.started_millis
            },
            Sentinel::ListRepos => r@ is AnswerRepos,
        },
{
    if let Sentinel::TestCases(md) = s {
        lemma_blank(md@);
    }
}

/// The answer to a request for the repositories lists all of them, in order, each with
/// its id, name, slug, path and base.
pub proof fn law_repositories_are_listed(repos: Seq<RepoRef>, i: int)
    requires
        0 <= i < repos.len(),
    ensures
        repos_tree(repos).at("repos"@) is Arr,
        repos_tree(repos).at("repos"@)->Arr_0.len() == repos.len(),
        ({
            let one = repos_tree(repos).at("repos"@)->Arr_0[i];
            &&& one.get("id"@) == Some(JsonView::Int(repos[i].id as int))
            &&& one.str_at("name"@) == Some(repos[i].name@)
            &&& one.str_at("slug"@) == Some(repos[i].slug@)
            &&& one.str_at("local_git_path"@) == Some(repos[i].local_git_path@)
            &&& one.str_at("base_ref"@) == Some(repos[i].base_ref@)
        }),
{
    reveal_strlit("id");
    reveal_strlit("name");
    reveal_strlit("slug");
    reveal_strlit("local_git_path");
    reveal_strlit("base_ref");
    assert("id"@.len() == 2 && "name"@.len() == 4 && "slug"@.len() == 4);
    assert("local_git_path"@.len() == 14 && "base_ref"@.len() == 8);
    assert("name"@[0] == 'n' && "slug"@[0] == 's');
}

/// The answer is that list between its marks.
pub proof fn law_repositories_are_answered_between_marks(repos: Vec<RepoRef>, r: String)
    requires
        call_ensures(list_repos_reply, (&repos,), r),
    ensures
        "<weft:list_repos_result>"@.is_prefix_of(r@),
        "</weft:list_repos_result>"@.is_suffix_of(r@),
        r@ == "<weft:list_repos_result>"@ + json_text(repos_tree(repos@))
            + "</weft:list_repos_result>"@,
{
    let (a, b) = ("<weft:list_repos_result>"@, "</weft:list_repos_result>"@);
    assert(r@.subrange(0, a.len() as int) =~= a);
    assert(r@.subrange(r@.len() - b.len(), r@.len() as int) =~= b);
}

/// A row whose content is read already is finalized in the same way.
pub proof fn law_read_row_is_finalized_alike(
    m: &LeadMessage,
    out: &Outgoing,
    r: Option<String>,
    kind: &str,
    doc: Option<&Json>,
    p: Option<String>,
)
    requires
        kind@ == m.kind@,
        parsed(m.content@) == (match doc {
            Some(v) => Some(v@),
            None => None,
        }),
        call_ensures(finalize_text, (m, out), r),
        call_ensures(finalize_text_parsed, (kind, doc, out), p),
    ensures
        opt_view(r) == opt_view(p),
{
}

/// A tool row streams exactly while its output is to come by its id; it is in error
/// exactly when its output is one.
pub proof fn law_status_of_a_tool_row(output: bool, trackable: bool, error: bool, r: &'static str)
    requires
        call_ensures(tool_row_status, (output, trackable, error), r),
    ensures
        (r@ == "streaming"@) == (!output && trackable),
        (r@ == "error"@) == (output && error),
        (r@ == "complete"@) == (output != (output && error) || (!output && !trackable)),
{
    reveal_strlit("streaming");
    reveal_strlit("error");
    reveal_strlit("complete");
    assert("streaming"@.len() == 9 && "error"@.len() == 5 && "complete"@.len() == 8);
}

/// The content of a text row reads back as the row document of its text; a tool row's
/// content is that of its planned row.
pub proof fn law_written_rows(
    text: &str,
    tag: Option<&str>,
    written: String,
    call: &ToolCall,
    content: Json,
    plan: ToolRowPlan,
)
    requires
        call_ensures(text_row_content, (text, tag), written),
        call_ensures(tool_row_content, (call, tag), content),
        call_ensures(plan_tool_row, (call, tag), plan),
    ensures
        parsed(written@) is Some && parsed(written@)->0.str_at("text"@) == Some(text@),
        tag is Some ==> parsed(written@)->0.str_at("agentThread"@) == Some(tag->0@),
        tag is None ==> parsed(written@)->0.get("agentThread"@) is None,
        content@ == plan.content@,
{
    reveal_strlit("text");
    reveal_strlit("agentThread");
    assert("text"@.len() == 4 && "agentThread"@.len() == 11);
}

/// A card is kept exactly when its payload is an object.
pub proof fn law_cards_hold_objects(kind: &'static str, payload: &str, r: SentinelAction)
    requires
        call_ensures(card_row, (kind, payload), r),
    ensures
        r@ is InsertCard == (parsed(payload@) is Some && parsed(payload@)->0 is Obj),
        r@ is InsertCard ==> r@->kind == kind@ && r@->payload == payload@,
        r@ is InsertCard || r@ is Drop,
{
}

/// Plumbing carries its text and its tag, and shows nowhere; a hidden delivery that waits
/// goes behind everything else.
pub proof fn law_plumbing_goes_last(
    text: String,
    tag: Option<String>,
    out: Outgoing,
    before: EngineInner,
    after: EngineInner,
)
    requires
        call_ensures(plumbing, (text, tag), out),
        exists|m: &mut EngineInner|
            *m == before && *final(m) == after && #[trigger] call_ensures(
                queue_hidden_delivery,
                (m, out),
                (),
            ),
    ensures
        out.text@ == text@ && opt_view(out.origin_tag) == opt_view(tag),
        out.images@.len() == 0 && !out.is_tracked && out.queue_id is None && !out.has_attachments,
        after.turn.queue@ == before.turn.queue@.push(out),
        after.turn.busy == before.turn.busy && after.turn.bus_read_pos
            == before.turn.bus_read_pos,
        after == (EngineInner { turn: after.turn, ..before }),
{
}

/// A text repeats the end of a row exactly when, the white space around both aside, the
/// row ends with it; a blank text repeats nothing.
pub proof fn law_repeats(
    buf: &str,
    text: &str,
    r: bool,
    front: Seq<char>,
    said: Seq<char>,
    back: Seq<char>,
)
    requires
        call_ensures(is_anonymous_slot_duplicate, (buf, text), r),
    ensures
        blank(text@) ==> !r,
        buf@ == front + said + back && blank(back) && said.len() > 0 && stripped(text@, said)
            ==> r,
        r ==> exists|f: Seq<char>, b: Seq<char>|
            buf@ == #[trigger] (f + trimmed(text@) + b) && blank(b),
{
    lemma_blank(text@);
    crate::text_laws::lemma_trimmed_end(buf@);
    let e = crate::text::trimmed_end(buf@);
    if r {
        let t = trimmed(text@);
        let b = choose|b: Seq<char>| buf@ == #[trigger] (e + b) && blank(b);
        let f = e.take(e.len() - t.len());
        assert(e =~= f + t);
        assert(buf@ =~= f + t + b);
    }
    if buf@ == front + said + back && blank(back) && said.len() > 0 && stripped(text@, said) {
        crate::text_laws::lemma_stripped_is_trimmed(text@, said);
        let x = front + said;
        assert(x.last() == said.last());
        crate::text_laws::lemma_trimmed_end_is_unique(buf@, x, back);
        assert(x.skip(x.len() - said.len()) =~= said);
        assert(said.is_suffix_of(x));
    }
}

} // verus!
