//! The timeline rows: what is written into them and when they close.

use vstd::prelude::*;

use crate::engine::{EngineInner, ToolRow};
use crate::json::{
    entries_view, json_text, parsed, put, str_items, string_array, survives_print, Json, JsonEntry,
    JsonView,
};
use crate::proto::{or_empty, ToolCall, ToolCallView, ToolResultItem, ToolResultView};
use crate::text::{
    cat3, has_suffix, opt_str_view, opt_view, same, texts_view, trim, trim_end, trimmed,
    trimmed_end,
};
use crate::turn::{has_pending_user_test_update, holds_test_update, Outgoing};

verus! {

/// One persisted row of a timeline.
#[derive(Clone, Debug)]
pub struct LeadMessage {
    pub id: i32,
    pub thread_id: i32,
    pub session_id: Option<i32>,
    pub turn_id: i32,
    pub role: String,
    pub kind: String,
    pub content: String,
    pub status: String,
    pub created_at: String,
    pub seq: Option<i64>,
    pub native_anchor: Option<String>,
    pub consumed_at: Option<i64>,
}

/// The row's array member is missing, not an array, or empty.
pub open spec fn no_items(v: JsonView, key: Seq<char>) -> bool {
    match v.at(key).as_arr() {
        Some(a) => a.len() == 0,
        None => true,
    }
}

fn no_items_at(v: &Json, key: &str) -> (r: bool)
    ensures
        r == no_items(v@, key@),
{
    match v.arr_at(key) {
        Some(a) => a.len() == 0,
        None => true,
    }
}

/// The persisted content names no attachment.
pub open spec fn attachment_free(doc: Option<JsonView>) -> bool {
    match doc {
        Some(v) => no_items(v, "images"@) && no_items(v, "files"@),
        None => true,
    }
}

/// The text with which a delivered row is finalized, `doc` being its content.
pub open spec fn finalized_text(kind: Seq<char>, doc: Option<JsonView>, out: Outgoing) -> Option<
    Seq<char>,
> {
    if kind == "text"@ && out.images@.len() == 0 && attachment_free(doc) {
        Some(out.text@)
    } else {
        None
    }
}

/// `finalize_text` on a row whose content is already parsed.
pub fn finalize_text_parsed(kind: &str, doc: Option<&Json>, out: &Outgoing) -> (r: Option<String>)
    ensures
        opt_view(r) == finalized_text(
            kind@,
            match doc {
                Some(v) => Some(v@),
                None => None,
            },
            *out,
        ),
{
    if !same(kind, "text") || out.images.len() != 0 {
        return None;
    }
    let free = match doc {
        Some(v) => no_items_at(v, "images") && no_items_at(v, "files"),
        None => true,
    };
    if free {
        Some(out.text.clone())
    } else {
        None
    }
}

/// A delivered row's text, but only for a plain text row without attachments:
/// the finalize push wraps it as `{text}`, which would mangle a command row or
/// drop image and file chips. The text comes from the message itself, which
/// already reflects any edit.
pub fn finalize_text(m: &LeadMessage, out: &Outgoing) -> (r: Option<String>)
    ensures
        opt_view(r) == finalized_text(m.kind@, parsed(m.content@), *out),
{
    match Json::parse(m.content.as_str()) {
        Some(v) => finalize_text_parsed(m.kind.as_str(), Some(&v), out),
        None => finalize_text_parsed(m.kind.as_str(), None, out),
    }
}

/// Persisted status of a tool row. A row with output is terminal. A running row
/// streams only if it has an id by which its result can find it: nothing could
/// ever fill an id-less one.
pub fn tool_row_status(has_output: bool, trackable: bool, is_error: bool) -> (r: &'static str)
    ensures
        r@ == tool_status(has_output, trackable, is_error),
{
    if has_output {
        if is_error {
            "error"
        } else {
            "complete"
        }
    } else if trackable {
        "streaming"
    } else {
        "complete"
    }
}

pub open spec fn tool_status(has_output: bool, trackable: bool, is_error: bool) -> Seq<char> {
    if has_output && is_error {
        "error"@
    } else if !has_output && trackable {
        "streaming"@
    } else {
        "complete"@
    }
}

/// The sub-agent branch of an event: the thread it came from, unless that is the
/// session's own. This is the one place where a row is found to be foreign.
pub fn branch_of(raw: Option<String>, own_thread: &str) -> (r: Option<String>)
    ensures
        opt_view(r) == branch(opt_view(raw), own_thread@),
{
    match raw {
        Some(t) => if same(t.as_str(), own_thread) {
            None
        } else {
            Some(t)
        },
        None => None,
    }
}

pub open spec fn branch(raw: Option<Seq<char>>, own_thread: Seq<char>) -> Option<Seq<char>> {
    if raw == Some(own_thread) {
        None
    } else {
        raw
    }
}

/// The content of a text row: the tag is there only for a sub-agent's row.
pub open spec fn text_row_tree(text: Seq<char>, agent_thread: Option<Seq<char>>) -> JsonView {
    let m = map![].insert("text"@, JsonView::Str(text));
    JsonView::Obj(
        match agent_thread {
            Some(t) => m.insert("agentThread"@, JsonView::Str(t)),
            None => m,
        },
    )
}

/// Build a text row's persisted content. Every rewrite of a row goes through
/// here, so its tag survives them all.
pub fn text_row_content(text: &str, agent_thread: Option<&str>) -> (r: String)
    ensures
        r@ == json_text(text_row_tree(text@, opt_str_view(agent_thread))),
        parsed(r@) == Some(text_row_tree(text@, opt_str_view(agent_thread))),
{
    let mut m: Vec<JsonEntry> = Vec::new();
    put(&mut m, "text", Json::Str(text.to_owned()));
    match agent_thread {
        Some(t) => {
            put(&mut m, "agentThread", Json::Str(t.to_owned()));
        },
        None => {},
    }
    proof {
        law_text_row_reads_back(text@, opt_str_view(agent_thread));
    }
    Json::Obj(m).print()
}

/// What a text row tells its readers, the digest and the rewind among them, is
/// the text that was written into it.
pub proof fn law_text_row_reads_back(text: Seq<char>, agent_thread: Option<Seq<char>>)
    ensures
        text_row_tree(text, agent_thread).str_at("text"@) == Some(text),
        text_row_tree(text, agent_thread).str_at("agentThread"@) == agent_thread,
        survives_print(text_row_tree(text, agent_thread), 127),
{
    reveal_strlit("text");
    reveal_strlit("agentThread");
    reveal_with_fuel(survives_print, 2);
    assert("text"@.len() == 4 && "agentThread"@.len() == 11);
    crate::json::lemma_short_key("text"@);
    crate::json::lemma_short_key("agentThread"@);
}

/// The content of a tool row.
pub open spec fn tool_row_tree(call: ToolCallView, agent_thread: Option<Seq<char>>) -> JsonView {
    let m = map![].insert("name"@, JsonView::Str(call.name)).insert(
        "summary"@,
        JsonView::Str(call.summary),
    ).insert("input"@, call.input).insert("output"@, JsonView::Str(or_empty(call.output))).insert(
        "is_error"@,
        JsonView::Bool(call.is_error),
    );
    let tagged = match agent_thread {
        Some(t) => m.insert("agentThread"@, JsonView::Str(t)),
        None => m,
    };
    JsonView::Obj(with_collab(tagged, call.collab_threads))
}

/// The members, with the sub-agent threads that the call opened, if any.
pub open spec fn with_collab(m: Map<Seq<char>, JsonView>, threads: Seq<Seq<char>>) -> Map<
    Seq<char>,
    JsonView,
> {
    if threads.len() == 0 {
        m
    } else {
        m.insert("collabThreads"@, JsonView::Arr(str_items(threads)))
    }
}

fn put_collab(m: &mut Vec<JsonEntry>, threads: &Vec<String>)
    ensures
        entries_view(final(m)@) == with_collab(entries_view(old(m)@), texts_view(threads@)),
{
    if threads.len() > 0 {
        put(m, "collabThreads", string_array(threads));
    }
}

/// Build a tool row's content: `agentThread` tags a sub-agent's own call,
/// `collabThreads` the row of a call that opened sub-agents. Neither key is
/// there at all when there is nothing to say.
pub fn tool_row_content(call: &ToolCall, agent_thread: Option<&str>) -> (r: Json)
    ensures
        r@ == tool_row_tree(call@, opt_str_view(agent_thread)),
{
    let mut m: Vec<JsonEntry> = Vec::new();
    put(&mut m, "name", Json::Str(call.name.clone()));
    put(&mut m, "summary", Json::Str(call.summary.clone()));
    put(&mut m, "input", call.input.copy());
    let output = match &call.output {
        Some(o) => o.clone(),
        None => String::new(),
    };
    assert(output@ =~= or_empty(call@.output));
    put(&mut m, "output", Json::Str(output));
    put(&mut m, "is_error", Json::Bool(call.is_error));
    match agent_thread {
        Some(t) => {
            put(&mut m, "agentThread", Json::Str(t.to_owned()));
        },
        None => {},
    }
    put_collab(&mut m, &call.collab_threads);
    Json::Obj(m)
}

/// The row with which a tool call enters the timeline.
pub struct ToolRowPlan {
    pub content: Json,
    pub text: String,
    pub status: &'static str,
    /// The result will come by id: remember the row.
    pub trackable: bool,
}

/// A result for the call can be told by its id.
pub open spec fn awaits_result(call: ToolCallView) -> bool {
    call.output is None && call.id.len() > 0
}

/// Plan the row of one tool call: running until its result arrives.
pub fn plan_tool_row(call: &ToolCall, agent_thread: Option<&str>) -> (r: ToolRowPlan)
    ensures
        r.content@ == tool_row_tree(call@, opt_str_view(agent_thread)),
        r.text@ == json_text(r.content@),
        r.trackable == awaits_result(call@),
        r.status@ == tool_status(call.output is Some, r.trackable, call.is_error),
{
    let running = call.output.is_none();
    let trackable = running && !call.id.as_str().is_empty();
    let status = tool_row_status(!running, trackable, call.is_error);
    let content = tool_row_content(call, agent_thread);
    let text = content.print();
    ToolRowPlan { content, text, status, trackable }
}

/// A tool row was inserted: remember it where a result is still to come.
pub fn remember_tool_row(inner: &mut EngineInner, call: &ToolCall, row: i32, plan: ToolRowPlan)
    requires
        old(inner).wf(),
    ensures
        final(inner).wf(),
        *final(inner) == (EngineInner { tool_rows: final(inner).tool_rows, ..*old(inner) }),
        final(inner).tool_rows@ == (if plan.trackable {
            old(inner).tool_rows@.insert(call.id@, ToolRow { row, content: plan.content })
        } else {
            old(inner).tool_rows@
        }),
{
    if plan.trackable {
        inner.tool_rows.insert(call.id.clone(), ToolRow { row, content: plan.content });
    }
}

/// A tool row to be rewritten.
pub struct ToolRowUpdate {
    pub row: i32,
    pub content: String,
    pub status: String,
}

pub struct ToolRowUpdateView {
    pub row: i32,
    pub content: Seq<char>,
    pub status: Seq<char>,
}

impl View for ToolRowUpdate {
    type V = ToolRowUpdateView;

    open spec fn view(&self) -> ToolRowUpdateView {
        ToolRowUpdateView { row: self.row, content: self.content@, status: self.status@ }
    }
}

pub open spec fn updates_view(v: Seq<ToolRowUpdate>) -> Seq<ToolRowUpdateView> {
    v.map_values(|u: ToolRowUpdate| u@)
}

/// The content of a row once its result is in.
pub open spec fn with_result(content: JsonView, item: ToolResultView) -> JsonView {
    match content {
        JsonView::Obj(m) => JsonView::Obj(
            with_collab(
                m.insert("output"@, JsonView::Str(item.output)).insert(
                    "is_error"@,
                    JsonView::Bool(item.is_error),
                ),
                item.collab_threads,
            ),
        ),
        other => other,
    }
}

fn merge_result(content: Json, item: &ToolResultItem) -> (r: Json)
    ensures
        r@ == with_result(content@, item@),
{
    match content {
        Json::Obj(entries) => {
            let mut m = entries;
            put(&mut m, "output", Json::Str(item.output.clone()));
            put(&mut m, "is_error", Json::Bool(item.is_error));
            put_collab(&mut m, &item.collab_threads);
            Json::Obj(m)
        },
        other => other,
    }
}

/// The rewrite of a running row that a result brings.
pub open spec fn result_update(row: ToolRow, item: ToolResultView) -> ToolRowUpdateView {
    ToolRowUpdateView {
        row: row.row,
        content: json_text(with_result(row.content@, item)),
        status: if item.is_error {
            "error"@
        } else {
            "complete"@
        },
    }
}

/// The rewrites that the results bring, in order. A result whose row is not known
/// is dropped, and each row takes one result.
pub open spec fn result_updates(
    rows: Map<Seq<char>, ToolRow>,
    items: Seq<ToolResultView>,
) -> Seq<ToolRowUpdateView>
    decreases items.len(),
{
    if items.len() == 0 {
        seq![]
    } else {
        let before = result_updates(rows, items.drop_last());
        let left = rows_left(rows, items.drop_last());
        let item = items.last();
        if left.dom().contains(item.id) {
            before.push(result_update(left[item.id], item))
        } else {
            before
        }
    }
}

/// The rows that still wait after the results are in.
pub open spec fn rows_left(rows: Map<Seq<char>, ToolRow>, items: Seq<ToolResultView>) -> Map<
    Seq<char>,
    ToolRow,
>
    decreases items.len(),
{
    if items.len() == 0 {
        rows
    } else {
        rows_left(rows, items.drop_last()).remove(items.last().id)
    }
}

/// Merge tool results into their running rows. What the row's content already
/// holds, its tags among it, stays.
pub fn merge_tool_results(inner: &mut EngineInner, items: &Vec<ToolResultItem>) -> (r: Vec<
    ToolRowUpdate,
>)
    requires
        old(inner).wf(),
    ensures
        final(inner).wf(),
        *final(inner) == (EngineInner { tool_rows: final(inner).tool_rows, ..*old(inner) }),
        final(inner).tool_rows@ == rows_left(
            old(inner).tool_rows@,
            crate::proto::results_view(items@),
        ),
        updates_view(r@) == result_updates(
            old(inner).tool_rows@,
            crate::proto::results_view(items@),
        ),
{
    let mut out: Vec<ToolRowUpdate> = Vec::new();
    let mut i: usize = 0;
    let ghost all = crate::proto::results_view(items@);
    let ghost rows = inner.tool_rows@;
    assert(updates_view(out@) =~= result_updates(rows, all.take(0)));
    while i < items.len()
        invariant
            i <= items.len(),
            all == crate::proto::results_view(items@),
            rows == old(inner).tool_rows@,
            inner.wf(),
            *inner == (EngineInner { tool_rows: inner.tool_rows, ..*old(inner) }),
            inner.tool_rows@ == rows_left(rows, all.take(i as int)),
            updates_view(out@) == result_updates(rows, all.take(i as int)),
        decreases items.len() - i,
    {
        proof {
            assert(all.take(i + 1).drop_last() =~= all.take(i as int));
            assert(all.take(i + 1).last() == items@[i as int]@);
        }
        let item = &items[i];
        match inner.tool_rows.remove(item.id.as_str()) {
            Some(row) => {
                let content = merge_result(row.content, item);
                let text = content.print();
                let status = if item.is_error {
                    "error"
                } else {
                    "complete"
                };
                let u = ToolRowUpdate { row: row.row, content: text, status: status.to_owned() };
                assert(updates_view(out@.push(u)) =~= updates_view(out@).push(u@));
                out.push(u);
            },
            None => {},
        }
        i = i + 1;
    }
    assert(all.take(all.len() as int) =~= all);
    out
}

/// The rewrites that close the tool rows whose result never came.
pub open spec fn orphan_updates_spec(rows: Seq<(String, ToolRow)>, status: Seq<char>) -> Seq<
    ToolRowUpdateView,
> {
    rows.map_values(
        |e: (String, ToolRow)|
            ToolRowUpdateView { row: e.1.row, content: json_text(e.1.content@), status },
    )
}

/// Close tool rows still awaiting a result, so that they stop spinning in the
/// timeline: each keeps its content and takes the status.
pub fn orphan_updates(rows: &Vec<(String, ToolRow)>, status: &str) -> (r: Vec<ToolRowUpdate>)
    ensures
        updates_view(r@) == orphan_updates_spec(rows@, status@),
{
    let mut out: Vec<ToolRowUpdate> = Vec::new();
    let mut i: usize = 0;
    while i < rows.len()
        invariant
            i <= rows.len(),
            updates_view(out@) == orphan_updates_spec(rows@.take(i as int), status@),
        decreases rows.len() - i,
    {
        let u = ToolRowUpdate {
            row: rows[i].1.row,
            content: rows[i].1.content.print(),
            status: status.to_owned(),
        };
        assert(updates_view(out@.push(u)) =~= updates_view(out@).push(u@));
        assert(orphan_updates_spec(rows@.take(i + 1), status@) =~= orphan_updates_spec(
            rows@.take(i as int),
            status@,
        ).push(u@));
        out.push(u);
        i = i + 1;
    }
    assert(rows@.take(rows@.len() as int) =~= rows@);
    out
}

/// A directive that the lead wrote into its text.
pub enum Sentinel {
    ActionCard(String),
    PlanCard(String),
    TestCases(String),
    ListRepos,
}

/// What is to be done about a directive.
pub enum SentinelAction {
    /// Insert a card row with this payload, verbatim.
    InsertCard { kind: &'static str, payload: String },
    /// Store the test-case document, unless the user saved one since `since`.
    UpsertTestCases { body: String, since: u64 },
    /// Look the repositories up and answer with `list_repos_reply`.
    AnswerRepos,
    Drop,
}

#[allow(inconsistent_fields)]
pub enum SentinelActionView {
    InsertCard { kind: Seq<char>, payload: Seq<char> },
    UpsertTestCases { body: Seq<char>, since: u64 },
    AnswerRepos,
    Drop,
}

impl View for SentinelAction {
    type V = SentinelActionView;

    open spec fn view(&self) -> SentinelActionView {
        match *self {
            SentinelAction::InsertCard { kind, payload } => SentinelActionView::InsertCard {
                kind: kind@,
                payload: payload@,
            },
            SentinelAction::UpsertTestCases { body, since } => SentinelActionView::UpsertTestCases {
                body: body@,
                since,
            },
            SentinelAction::AnswerRepos => SentinelActionView::AnswerRepos,
            SentinelAction::Drop => SentinelActionView::Drop,
        }
    }
}

/// A card is kept only if its payload is a JSON object.
pub open spec fn card_action(kind: Seq<char>, payload: Seq<char>) -> SentinelActionView {
    if parsed(payload) matches Some(v) && v is Obj {
        SentinelActionView::InsertCard { kind, payload }
    } else {
        SentinelActionView::Drop
    }
}

/// A card's payload must be a JSON object, so that the UI can rely on its fields.
pub fn card_row(kind: &'static str, payload: &str) -> (r: SentinelAction)
    ensures
        r@ == card_action(kind@, payload@),
{
    match Json::parse(payload) {
        Some(Json::Obj(_)) => SentinelAction::InsertCard { kind, payload: payload.to_owned() },
        _ => SentinelAction::Drop,
    }
}

pub open spec fn sentinel_action_spec(inner: EngineInner, s: Sentinel) -> SentinelActionView {
    match s {
        Sentinel::ActionCard(json) => card_action("action_card"@, json@),
        Sentinel::PlanCard(json) => card_action("plan_card"@, json@),
        Sentinel::TestCases(md) => if inner.session_id is Some || holds_test_update(
            inner.turn.queue@,
        ) || trimmed(md@).len() == 0 {
            SentinelActionView::Drop
        } else {
            SentinelActionView::UpsertTestCases {
                body: trimmed(md@),
                since: inner.clock.started_millis,
            }
        },
        Sentinel::ListRepos => SentinelActionView::AnswerRepos,
    }
}

/// Decide what becomes of a directive. The test-case document is the lead's alone
/// to write, and a user edit that still waits in the queue supersedes it.
pub fn sentinel_action(inner: &EngineInner, s: &Sentinel) -> (r: SentinelAction)
    ensures
        r@ == sentinel_action_spec(*inner, *s),
{
    match s {
        Sentinel::ActionCard(json) => card_row("action_card", json.as_str()),
        Sentinel::PlanCard(json) => card_row("plan_card", json.as_str()),
        Sentinel::TestCases(md) => {
            if inner.session_id.is_some() || has_pending_user_test_update(&inner.turn) {
                return SentinelAction::Drop;
            }
            let body = trim(md.as_str());
            if body.is_empty() {
                SentinelAction::Drop
            } else {
                SentinelAction::UpsertTestCases {
                    body: body.to_owned(),
                    since: inner.clock.started_millis,
                }
            }
        },
        Sentinel::ListRepos => SentinelAction::AnswerRepos,
    }
}

/// One repository of the workspace.
pub struct RepoRef {
    pub id: i32,
    pub name: String,
    pub slug: String,
    pub local_git_path: String,
    pub base_ref: String,
}

pub open spec fn repo_tree(r: RepoRef) -> JsonView {
    JsonView::Obj(
        map![].insert("id"@, JsonView::Int(r.id as int)).insert(
            "name"@,
            JsonView::Str(r.name@),
        ).insert("slug"@, JsonView::Str(r.slug@)).insert(
            "local_git_path"@,
            JsonView::Str(r.local_git_path@),
        ).insert("base_ref"@, JsonView::Str(r.base_ref@)),
    )
}

pub open spec fn repos_tree(repos: Seq<RepoRef>) -> JsonView {
    JsonView::Obj(
        map![].insert("repos"@, JsonView::Arr(repos.map_values(|r: RepoRef| repo_tree(r)))),
    )
}

fn repo_json(r: &RepoRef) -> (j: Json)
    ensures
        j@ == repo_tree(*r),
{
    let mut m: Vec<JsonEntry> = Vec::new();
    put(&mut m, "id", Json::Int(r.id as i64));
    put(&mut m, "name", Json::Str(r.name.clone()));
    put(&mut m, "slug", Json::Str(r.slug.clone()));
    put(&mut m, "local_git_path", Json::Str(r.local_git_path.clone()));
    put(&mut m, "base_ref", Json::Str(r.base_ref.clone()));
    Json::Obj(m)
}

/// The answer to a request for the workspace's repositories.
pub fn list_repos_reply(repos: &Vec<RepoRef>) -> (r: String)
    ensures
        r@ == "<weft:list_repos_result>"@ + json_text(repos_tree(repos@))
            + "</weft:list_repos_result>"@,
{
    let mut items: Vec<Json> = Vec::new();
    let mut i: usize = 0;
    while i < repos.len()
        invariant
            i <= repos.len(),
            crate::json::items_view(items@) == repos@.take(i as int).map_values(
                |r: RepoRef| repo_tree(r),
            ),
        decreases repos.len() - i,
    {
        let j = repo_json(&repos[i]);
        proof {
            assert(items@.push(j).drop_last() =~= items@);
            assert(repos@.take(i + 1).map_values(|r: RepoRef| repo_tree(r)) =~= repos@.take(
                i as int,
            ).map_values(|r: RepoRef| repo_tree(r)).push(j@));
        }
        items.push(j);
        i = i + 1;
    }
    assert(repos@.take(repos@.len() as int) =~= repos@);
    let mut m: Vec<JsonEntry> = Vec::new();
    put(&mut m, "repos", Json::Arr(items));
    let body = Json::Obj(m).print();
    cat3("<weft:list_repos_result>", body.as_str(), "</weft:list_repos_result>")
}

/// The message is invisible plumbing with this text.
pub open spec fn is_plumbing(o: Outgoing, text: Seq<char>, origin_tag: Option<Seq<char>>) -> bool {
    &&& o.text@ == text
    &&& o.images@.len() == 0
    &&& !o.is_tracked
    &&& opt_view(o.origin_tag) == origin_tag
    &&& o.queue_id is None
    &&& !o.has_attachments
}

/// An invisible message: no timeline row, no attachments.
pub fn plumbing(text: String, origin_tag: Option<String>) -> (r: Outgoing)
    ensures
        is_plumbing(r, text@, opt_view(origin_tag)),
{
    Outgoing {
        text,
        images: Vec::new(),
        is_tracked: false,
        origin_tag,
        queue_id: None,
        has_attachments: false,
    }
}

/// Put a hidden delivery behind the running turn.
pub fn queue_hidden_delivery(inner: &mut EngineInner, out: Outgoing)
    ensures
        *final(inner) == (EngineInner { turn: final(inner).turn, ..*old(inner) }),
        final(inner).turn.queue@ == old(inner).turn.queue@.push(out),
        final(inner).turn.busy == old(inner).turn.busy,
        final(inner).turn.quota_exceeded == old(inner).turn.quota_exceeded,
        final(inner).turn.bus_read_pos == old(inner).turn.bus_read_pos,
{
    inner.turn.queue.push_back(out);
}

/// How a text row closes.
pub struct TextClose {
    /// The row's final content.
    pub content: String,
    /// The body that the live view must show instead of what it has.
    pub shown: Option<String>,
    /// What goes out to subscribers, if anything.
    pub out: Option<String>,
}

/// What goes out to subscribers of a finished text.
pub open spec fn out_text(status: Seq<char>, clean: Seq<char>) -> Option<Seq<char>> {
    if status == "complete"@ && trimmed(clean).len() > 0 {
        Some(trimmed(clean))
    } else {
        None
    }
}

/// A text row closes with `status`. `clean` is its body with the directives taken
/// out (looked at only on a clean finish); `replaced` says that the body already
/// differs from what streamed. Any row that completes marks the turn as having
/// shown text.
pub fn close_text_row(
    inner: &mut EngineInner,
    text: &str,
    clean: &str,
    status: &str,
    replaced: bool,
    agent_thread: Option<&str>,
) -> (r: TextClose)
    ensures
        *final(inner) == (EngineInner {
            turn_saw_text: old(inner).turn_saw_text || status@ == "complete"@,
            ..*old(inner)
        }),
        ({
            let complete = status@ == "complete"@;
            let body = if complete {
                clean@
            } else {
                text@
            };
            &&& r.content@ == json_text(text_row_tree(body, opt_str_view(agent_thread)))
            &&& opt_view(r.shown) == (if replaced || body != text@ {
                Some(body)
            } else {
                None
            })
            &&& opt_view(r.out) == out_text(status@, body)
        }),
{
    let complete = same(status, "complete");
    if complete {
        inner.turn_saw_text = true;
    }
    let body = if complete {
        clean
    } else {
        text
    };
    let stripped = complete && !same(clean, text);
    let content = text_row_content(body, agent_thread);
    let shown = if stripped || replaced {
        Some(body.to_owned())
    } else {
        None
    };
    let t = trim(body);
    let out = if complete && !t.is_empty() {
        Some(t.to_owned())
    } else {
        None
    };
    TextClose { content, shown, out }
}

/// The row that a child was streaming into closes with its turn, exactly as it
/// stands: directives are looked for in finished messages only.
pub fn close_streamed_row(text: &str, status: &str) -> (r: TextClose)
    ensures
        r.content@ == json_text(text_row_tree(text@, None)),
        r.shown is None,
        opt_view(r.out) == out_text(status@, text@),
{
    let content = text_row_content(text, None);
    let t = trim(text);
    let out = if same(status, "complete") && !t.is_empty() {
        Some(t.to_owned())
    } else {
        None
    };
    TextClose { content, shown: None, out }
}

/// The slot's text already ends with the text that arrives, blanks at the edges
/// aside.
pub open spec fn slot_repeats(buf: Seq<char>, text: Seq<char>) -> bool {
    trimmed(text).len() > 0 && trimmed(text).is_suffix_of(trimmed_end(buf))
}

/// Whether a text that arrives in the anonymous slot repeats what stands at its
/// end: an error is often reported twice. Blank text repeats nothing.
pub fn is_anonymous_slot_duplicate(buf: &str, text: &str) -> (r: bool)
    ensures
        r == slot_repeats(buf@, text@),
{
    let t = trim(text);
    !t.is_empty() && has_suffix(trim_end(buf), t)
}

/// A result never takes the tag off its row, nor its name, nor its input.
pub proof fn law_result_keeps_the_row(content: JsonView, item: ToolResultView, key: Seq<char>)
    requires
        content is Obj,
        key == "agentThread"@ || key == "name"@ || key == "input"@ || key == "summary"@,
    ensures
        with_result(content, item).get(key) == content.get(key),
{
    reveal_strlit("agentThread");
    reveal_strlit("name");
    reveal_strlit("input");
    reveal_strlit("summary");
    reveal_strlit("output");
    reveal_strlit("is_error");
    reveal_strlit("collabThreads");
    assert("agentThread"@.len() == 11);
    assert("name"@.len() == 4);
    assert("input"@.len() == 5);
    assert("summary"@.len() == 7);
    assert("output"@.len() == 6);
    assert("is_error"@.len() == 8);
    assert("collabThreads"@.len() == 13);
}

} // verus!
