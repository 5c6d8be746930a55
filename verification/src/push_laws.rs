//! What is pushed to the viewers, said of the documents they get.

use vstd::prelude::*;

use crate::engine::EngineInner;
use crate::json::{parsed, str_items, Json, JsonView};
use crate::meta::{number_tree, servers_tree, text_tree};
use crate::proto::{cmds_view, servers_view, SlashCmd};
use crate::push::{
    commands_tree, delivered_push, delivered_row, message_tree, queue_tree, DeliveredRow, Push,
};
use crate::row_laws::names_some;
use crate::rows::LeadMessage;
use crate::text::{opt_view, texts_view};
use crate::turn::{Outgoing, QueuedItem};

verus! {

/// The members of the pushed documents have names that differ.
proof fn lemma_keys()
    ensures
        "type"@.len() == 4 && "type"@[0] == 't',
        "thread_id"@.len() == 9 && "thread_id"@[0] == 't',
        "session_id"@.len() == 10 && "session_id"@[0] == 's',
        "message_id"@.len() == 10 && "message_id"@[0] == 'm',
        "message"@.len() == 7 && "message"@[0] == 'm',
        "text"@.len() == 4 && "text"@[0] == 't',
        "status"@.len() == 6 && "status"@[0] == 's',
        "content"@.len() == 7 && "content"@[0] == 'c',
        "seq"@.len() == 3 && "seq"@[0] == 's',
        "state"@.len() == 5 && "state"@[0] == 's',
        "queue"@.len() == 5 && "queue"@[0] == 'q',
        "direction_id"@.len() == 12 && "direction_id"@[0] == 'd',
        "tool"@.len() == 4 && "tool"@[0] == 't',
        "model"@.len() == 5 && "model"@[0] == 'm',
        "command"@.len() == 7 && "command"@[0] == 'c',
        "native_id"@.len() == 9 && "native_id"@[0] == 'n',
        "slash_commands"@.len() == 14 && "slash_commands"@[0] == 's',
        "mcp_servers"@.len() == 11 && "mcp_servers"@[0] == 'm',
        "tools"@.len() == 5 && "tools"@[0] == 't',
        "window"@.len() == 6 && "window"@[0] == 'w',
        "mcp_known"@.len() == 9 && "mcp_known"@[0] == 'm',
        "name"@.len() == 4 && "name"@[0] == 'n',
        "summary"@.len() == 7 && "summary"@[0] == 's',
        "context_tokens"@.len() == 14 && "context_tokens"@[0] == 'c',
        "consumed_at"@.len() == 11 && "consumed_at"@[0] == 'c',
        "id"@.len() == 2 && "id"@[0] == 'i',
        "turn_id"@.len() == 7 && "turn_id"@[0] == 't',
        "role"@.len() == 4 && "role"@[0] == 'r',
        "kind"@.len() == 4 && "kind"@[0] == 'k',
        "created_at"@.len() == 10 && "created_at"@[0] == 'c',
        "native_anchor"@.len() == 13 && "native_anchor"@[0] == 'n',
        "images"@.len() == 6 && "images"@[0] == 'i',
        "files"@.len() == 5 && "files"@[0] == 'f',
        "has_attachments"@.len() == 15 && "has_attachments"@[0] == 'h',
        "description"@.len() == 11 && "description"@[0] == 'd',
        "arg_hint"@.len() == 8 && "arg_hint"@[0] == 'a',
        "type"@[1] == 'y' && "text"@[1] == 'e' && "tool"@[1] == 'o',
        "content"@[2] == 'n' && "command"@[2] == 'm',
{
    reveal_strlit("type");
    reveal_strlit("thread_id");
    reveal_strlit("session_id");
    reveal_strlit("message_id");
    reveal_strlit("message");
    reveal_strlit("text");
    reveal_strlit("status");
    reveal_strlit("content");
    reveal_strlit("seq");
    reveal_strlit("state");
    reveal_strlit("queue");
    reveal_strlit("direction_id");
    reveal_strlit("tool");
    reveal_strlit("model");
    reveal_strlit("command");
    reveal_strlit("native_id");
    reveal_strlit("slash_commands");
    reveal_strlit("mcp_servers");
    reveal_strlit("tools");
    reveal_strlit("window");
    reveal_strlit("mcp_known");
    reveal_strlit("name");
    reveal_strlit("summary");
    reveal_strlit("context_tokens");
    reveal_strlit("consumed_at");
    reveal_strlit("id");
    reveal_strlit("turn_id");
    reveal_strlit("role");
    reveal_strlit("kind");
    reveal_strlit("created_at");
    reveal_strlit("native_anchor");
    reveal_strlit("images");
    reveal_strlit("files");
    reveal_strlit("has_attachments");
    reveal_strlit("description");
    reveal_strlit("arg_hint");
}

/// A number that may be missing.
pub open spec fn maybe_int(n: Option<i32>) -> JsonView {
    match n {
        Some(n) => JsonView::Int(n as int),
        None => JsonView::Null,
    }
}

/// Every push says what it is and which thread it is of.
pub proof fn law_push_names_its_kind_and_thread(p: &Push, r: Json)
    requires
        call_ensures(Push::to_json, (p,), r),
    ensures
        match *p {
            Push::Message { thread_id, .. } => r@.str_at("type"@) == Some("message"@) && r@.get(
                "thread_id"@,
            ) == Some(JsonView::Int(thread_id as int)),
            Push::Delta { thread_id, .. } => r@.str_at("type"@) == Some("delta"@) && r@.get(
                "thread_id"@,
            ) == Some(JsonView::Int(thread_id as int)),
            Push::Finalize { thread_id, .. } => r@.str_at("type"@) == Some("finalize"@) && r@.get(
                "thread_id"@,
            ) == Some(JsonView::Int(thread_id as int)),
            Push::Turn { thread_id, .. } => r@.str_at("type"@) == Some("turn"@) && r@.get(
                "thread_id"@,
            ) == Some(JsonView::Int(thread_id as int)),
            Push::EngineSwitched { thread_id, .. } => r@.str_at("type"@) == Some(
                "engine_switched"@,
            ) && r@.get("thread_id"@) == Some(JsonView::Int(thread_id as int)),
            Push::Init { thread_id, .. } => r@.str_at("type"@) == Some("init"@) && r@.get(
                "thread_id"@,
            ) == Some(JsonView::Int(thread_id as int)),
            Push::Activity { thread_id, .. } => r@.str_at("type"@) == Some("activity"@) && r@.get(
                "thread_id"@,
            ) == Some(JsonView::Int(thread_id as int)),
            Push::Usage { thread_id, .. } => r@.str_at("type"@) == Some("usage"@) && r@.get(
                "thread_id"@,
            ) == Some(JsonView::Int(thread_id as int)),
            Push::ToolResult { thread_id, .. } => r@.str_at("type"@) == Some("tool_result"@)
                && r@.get("thread_id"@) == Some(JsonView::Int(thread_id as int)),
            Push::Rewound { thread_id, .. } => r@.str_at("type"@) == Some("rewound"@) && r@.get(
                "thread_id"@,
            ) == Some(JsonView::Int(thread_id as int)),
            Push::Consumed { thread_id, .. } => r@.str_at("type"@) == Some("consumed"@) && r@.get(
                "thread_id"@,
            ) == Some(JsonView::Int(thread_id as int)),
        },
{
    lemma_keys();
}

/// What a push says of a row: the whole row; the text that came; how it closed, with its
/// text and its place only where there are any; the result; and when it was consumed.
pub proof fn law_pushes_of_rows(p: &Push, r: Json)
    requires
        call_ensures(Push::to_json, (p,), r),
    ensures
        match *p {
            Push::Message { message, .. } => r@.get("message"@) == Some(message_tree(message)),
            Push::Delta { message_id, text, .. } => r@.get("message_id"@) == Some(
                JsonView::Int(message_id as int),
            ) && r@.str_at("text"@) == Some(text@),
            Push::Finalize { message_id, status, content, seq, .. } => {
                &&& r@.get("message_id"@) == Some(JsonView::Int(message_id as int))
                &&& r@.str_at("status"@) == Some(status@)
                &&& content is Some ==> r@.str_at("content"@) == Some(content->0@)
                &&& content is None ==> r@.get("content"@) is None
                &&& seq is Some ==> r@.get("seq"@) == Some(JsonView::Int(seq->0 as int))
                &&& seq is None ==> r@.get("seq"@) is None
            },
            Push::ToolResult { message_id, content, status, .. } => r@.get("message_id"@) == Some(
                JsonView::Int(message_id as int),
            ) && r@.str_at("content"@) == Some(content@) && r@.str_at("status"@) == Some(status@),
            Push::Consumed { message_id, consumed_at, .. } => r@.get("message_id"@) == Some(
                JsonView::Int(message_id as int),
            ) && r@.get("consumed_at"@) == Some(JsonView::Int(consumed_at as int)),
            _ => true,
        },
{
    lemma_keys();
}

/// What a push says of a session: its id if it is no lead, and then the queue, the
/// engine, what it runs on, its activity, its usage, or where it was rewound to.
pub proof fn law_pushes_of_sessions(p: &Push, r: Json)
    requires
        call_ensures(Push::to_json, (p,), r),
    ensures
        match *p {
            Push::Turn { session_id, state, queue, .. } => r@.get("session_id"@) == Some(
                maybe_int(session_id),
            ) && r@.str_at("state"@) == Some(state@) && r@.get("queue"@) == Some(
                queue_tree(queue@),
            ),
            Push::EngineSwitched { session_id, direction_id, tool, model, command, .. } => {
                &&& r@.get("session_id"@) == Some(maybe_int(session_id))
                &&& r@.get("direction_id"@) == Some(maybe_int(direction_id))
                &&& r@.str_at("tool"@) == Some(tool@)
                &&& model is Some ==> r@.str_at("model"@) == Some(model->0@)
                &&& command is Some ==> r@.str_at("command"@) == Some(command->0@)
            },
            Push::Init {
                session_id,
                native_id,
                slash_commands,
                mcp_servers,
                tools,
                model,
                window,
                mcp_known,
                ..
            } => {
                &&& r@.get("session_id"@) == Some(maybe_int(session_id))
                &&& r@.str_at("native_id"@) == Some(native_id@)
                &&& r@.get("slash_commands"@) == Some(commands_tree(slash_commands@))
                &&& r@.get("mcp_servers"@) == Some(servers_tree(servers_view(mcp_servers@)))
                &&& r@.get("tools"@) == Some(JsonView::Arr(str_items(texts_view(tools@))))
                &&& model is Some ==> r@.str_at("model"@) == Some(model->0@)
                &&& window is Some ==> r@.get("window"@) == Some(JsonView::Int(window->0 as int))
                &&& r@.get("mcp_known"@) == Some(JsonView::Bool(mcp_known))
            },
            Push::Activity { session_id, name, summary, .. } => r@.get("session_id"@) == Some(
                maybe_int(session_id),
            ) && r@.str_at("name"@) == Some(name@) && r@.str_at("summary"@) == Some(summary@),
            Push::Usage { session_id, context_tokens, window, model, .. } => {
                &&& r@.get("session_id"@) == Some(maybe_int(session_id))
                &&& r@.get("context_tokens"@) == Some(JsonView::Int(context_tokens as int))
                &&& window is Some ==> r@.get("window"@) == Some(JsonView::Int(window->0 as int))
                &&& window is None ==> r@.get("window"@) == Some(JsonView::Null)
                &&& model is Some ==> r@.str_at("model"@) == Some(model->0@)
            },
            Push::Rewound { session_id, native_id, .. } => {
                &&& r@.get("session_id"@) == Some(maybe_int(session_id))
                &&& native_id is Some ==> r@.str_at("native_id"@) == Some(native_id->0@)
                &&& native_id is None ==> r@.get("native_id"@) == Some(JsonView::Null)
            },
            _ => true,
        },
{
    lemma_keys();
}

/// A row is pushed with all that is stored of it.
pub proof fn law_pushed_row_is_whole(m: LeadMessage)
    ensures
        message_tree(m).get("id"@) == Some(JsonView::Int(m.id as int)),
        message_tree(m).get("thread_id"@) == Some(JsonView::Int(m.thread_id as int)),
        message_tree(m).get("session_id"@) == Some(maybe_int(m.session_id)),
        message_tree(m).get("turn_id"@) == Some(JsonView::Int(m.turn_id as int)),
        message_tree(m).str_at("role"@) == Some(m.role@),
        message_tree(m).str_at("kind"@) == Some(m.kind@),
        message_tree(m).str_at("content"@) == Some(m.content@),
        message_tree(m).str_at("status"@) == Some(m.status@),
        message_tree(m).str_at("created_at"@) == Some(m.created_at@),
        m.seq is Some ==> message_tree(m).get("seq"@) == Some(JsonView::Int(m.seq->0 as int)),
        m.native_anchor is Some ==> message_tree(m).str_at("native_anchor"@) == Some(
            m.native_anchor->0@,
        ),
        m.consumed_at is Some ==> message_tree(m).get("consumed_at"@) == Some(
            JsonView::Int(m.consumed_at->0 as int),
        ),
{
    lemma_keys();
}

/// The queue is pushed message by message, in order, each with its id and text; a palette
/// command by command, with what is known of each.
pub proof fn law_pushed_lists_are_whole(
    q: Seq<QueuedItem>,
    cmds: Seq<SlashCmd>,
    i: int,
    j: int,
)
    ensures
        queue_tree(q) is Arr && queue_tree(q)->Arr_0.len() == q.len(),
        0 <= i < q.len() ==> {
            let one = queue_tree(q)->Arr_0[i];
            &&& one.get("id"@) == Some(JsonView::Int(q[i].id as int))
            &&& one.str_at("text"@) == Some(q[i].text@)
            &&& one.get("images"@) == Some(JsonView::Int(q[i].images as int))
            &&& one.get("files"@) == Some(JsonView::Int(q[i].files as int))
            &&& one.get("has_attachments"@) == Some(JsonView::Bool(q[i].has_attachments))
        },
        commands_tree(cmds) is Arr && commands_tree(cmds)->Arr_0.len() == cmds.len(),
        0 <= j < cmds.len() ==> {
            let one = commands_tree(cmds)->Arr_0[j];
            &&& one.str_at("name"@) == Some(cmds[j].name@)
            &&& cmds[j].description is Some ==> one.str_at("description"@) == Some(
                cmds[j].description->0@,
            )
            &&& cmds[j].description is None ==> one.get("description"@) is None
            &&& cmds[j].arg_hint is Some ==> one.str_at("arg_hint"@) == Some(cmds[j].arg_hint->0@)
            &&& cmds[j].arg_hint is None ==> one.get("arg_hint"@) is None
        },
{
    lemma_keys();
}

/// The delivery of a message closes its row: none for plumbing, its own where it names
/// one, the oldest that waits otherwise. The row is complete, in its new place, with the
/// text that went out if it is a plain one.
pub proof fn law_delivered_row_is_closed(
    out: &Outgoing,
    which: DeliveredRow,
    thread_id: i32,
    row: &LeadMessage,
    seq: Option<i64>,
    p: Push,
)
    requires
        call_ensures(delivered_row, (out,), which),
        call_ensures(delivered_push, (thread_id, row, out, seq), p),
    ensures
        !out.is_tracked ==> which == DeliveredRow::Nothing,
        out.is_tracked && out.queue_id is Some ==> which == DeliveredRow::Row(out.queue_id->0),
        out.is_tracked && out.queue_id is None ==> which == DeliveredRow::Oldest,
        p is Finalize && p->Finalize_message_id == row.id && p->Finalize_thread_id == thread_id,
        p->Finalize_status@ == "complete"@ && p->seq == seq,
        p->Finalize_content is Some == (row.kind@ == "text"@ && out.images@.len() == 0
            && !names_some(parsed(row.content@), "images"@) && !names_some(
            parsed(row.content@),
            "files"@,
        )),
        p->Finalize_content is Some ==> p->Finalize_content->0@ == out.text@,
{
}

/// The state of a turn is pushed with the queue that is shown; the usage and the init with
/// what the engine knows.
pub proof fn law_pushes_of_an_engine(
    inner: &EngineInner,
    state: &str,
    turn: Push,
    tokens: u64,
    usage: Push,
    usage_doc: Json,
    native_id: String,
    known: bool,
    init: Push,
)
    requires
        call_ensures(Push::turn, (inner, state), turn),
        call_ensures(Push::usage, (inner, tokens), usage),
        call_ensures(Push::to_json, (&usage,), usage_doc),
        call_ensures(Push::init, (inner, native_id, known), init),
    ensures
        turn is Turn && turn->Turn_thread_id == inner.thread_id && turn->Turn_session_id
            == inner.session_id && turn->state@ == state@,
        turn->queue@.len() == inner.turn.queue@.filter(|o: Outgoing| o.queue_id is Some).len(),
        usage_doc@.get("context_tokens"@) == Some(JsonView::Int(tokens as int)),
        inner.last_window is Some ==> usage_doc@.get("window"@) == Some(
            JsonView::Int(inner.last_window->0 as int),
        ),
        usage_doc@.get("session_id"@) == Some(maybe_int(inner.session_id)),
        init is Init && init->Init_native_id == native_id && init->mcp_known == known,
        init->Init_thread_id == inner.thread_id && init->Init_session_id == inner.session_id,
        cmds_view(init->slash_commands@) == cmds_view(inner.slash_commands@),
        servers_view(init->mcp_servers@) == servers_view(inner.last_mcp_servers@),
        texts_view(init->tools@) == texts_view(inner.last_tools@),
        opt_view(init->Init_model) == opt_view(inner.last_model) && init->Init_window
            == inner.last_window,
{
    lemma_keys();
    crate::queue_laws::lemma_shown(inner.turn.queue@);
    assert(turn->queue@.map_values(|x: QueuedItem| x@).len() == turn->queue@.len());
}

/// A row that closes without anything more to say is pushed with its status alone.
pub proof fn law_plain_finalize(thread_id: i32, id: i32, status: &str, p: Push, r: Json)
    requires
        call_ensures(Push::finalize, (thread_id, id, status), p),
        call_ensures(Push::to_json, (&p,), r),
    ensures
        r@.str_at("type"@) == Some("finalize"@),
        r@.get("message_id"@) == Some(JsonView::Int(id as int)),
        r@.str_at("status"@) == Some(status@),
        r@.get("content"@) is None && r@.get("seq"@) is None,
{
    lemma_keys();
}

/// A list of servers is pushed server by server, with the name and the status of each.
pub proof fn law_pushed_servers_are_whole(v: Seq<crate::proto::McpServerView>, i: int)
    requires
        0 <= i < v.len(),
    ensures
        servers_tree(v) is Arr && servers_tree(v)->Arr_0.len() == v.len(),
        servers_tree(v)->Arr_0[i].str_at("name"@) == Some(v[i].name),
        servers_tree(v)->Arr_0[i].str_at("status"@) == Some(v[i].status),
{
    lemma_keys();
}

/// What may be missing is pushed as null where it is.
pub proof fn law_missing_values_are_null(n: Option<u64>, s: Option<Seq<char>>)
    ensures
        n is Some ==> number_tree(n) == JsonView::Int(n->0 as int),
        n is None ==> number_tree(n) == JsonView::Null,
        s is Some ==> text_tree(s) == JsonView::Str(s->0),
        s is None ==> text_tree(s) == JsonView::Null,
{
}

} // verus!
