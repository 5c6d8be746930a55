//! Incremental pushes to the frontend, and the documents they go out as.

use vstd::prelude::*;

use crate::engine::EngineInner;
use crate::json::{put, string_array, Json, JsonEntry, JsonView};
use crate::proto::{McpServer, SlashCmd};
use crate::rows::{finalize_text, LeadMessage};
use crate::streaming::{copy_commands, copy_names, copy_servers};
use crate::text::opt_clone;
use crate::turn::{queue_items, Outgoing, QueuedItem};

verus! {

/// One push. Its document carries the name of the variant under `type`.
#[allow(inconsistent_fields)]
pub enum Push {
    /// A row was inserted.
    Message { thread_id: i32, message: LeadMessage },
    /// Text streamed into a row.
    Delta { thread_id: i32, message_id: i32, text: String },
    /// A row closed.
    Finalize {
        thread_id: i32,
        message_id: i32,
        status: String,
        /// The final text, where it differs from what streamed.
        content: Option<String>,
        /// Where a queued row stands now that it was delivered.
        seq: Option<i64>,
    },
    /// The state of the turn and the queue.
    Turn { thread_id: i32, session_id: Option<i32>, state: String, queue: Vec<QueuedItem> },
    /// The engine was switched.
    EngineSwitched {
        thread_id: i32,
        session_id: Option<i32>,
        direction_id: Option<i32>,
        tool: String,
        model: Option<String>,
        command: Option<String>,
    },
    /// What the session runs on.
    Init {
        thread_id: i32,
        session_id: Option<i32>,
        native_id: String,
        slash_commands: Vec<SlashCmd>,
        mcp_servers: Vec<McpServer>,
        tools: Vec<String>,
        model: Option<String>,
        window: Option<u64>,
        mcp_known: bool,
    },
    /// What the agent is doing right now. Never persisted.
    Activity { thread_id: i32, session_id: Option<i32>, name: String, summary: String },
    /// How much context is in use.
    Usage {
        thread_id: i32,
        session_id: Option<i32>,
        context_tokens: u64,
        window: Option<u64>,
        model: Option<String>,
    },
    /// A tool row received its result.
    ToolResult { thread_id: i32, message_id: i32, content: String, status: String },
    /// The timeline was rewound.
    Rewound { thread_id: i32, session_id: Option<i32>, native_id: Option<String> },
    /// The agent was seen at work on a message.
    Consumed { thread_id: i32, message_id: i32, consumed_at: i64 },
}

pub open spec fn int_tree(n: int) -> JsonView {
    JsonView::Int(n)
}

pub open spec fn opt_int_tree(n: Option<int>) -> JsonView {
    match n {
        Some(n) => JsonView::Int(n),
        None => JsonView::Null,
    }
}

pub open spec fn widen32(n: Option<i32>) -> Option<int> {
    match n {
        Some(n) => Some(n as int),
        None => None,
    }
}

pub open spec fn widen64(n: Option<i64>) -> Option<int> {
    match n {
        Some(n) => Some(n as int),
        None => None,
    }
}

pub open spec fn str_tree(s: Seq<char>) -> JsonView {
    JsonView::Str(s)
}

/// Which row a delivered message closes.
#[derive(Debug, PartialEq, Eq, Structural, Clone, Copy)]
pub enum DeliveredRow {
    /// Plumbing has no row.
    Nothing,
    Row(i32),
    /// The oldest one that waits: the message does not name its own.
    Oldest,
}

/// Which row a delivered message closes.
pub fn delivered_row(out: &Outgoing) -> (r: DeliveredRow)
    ensures
        r == (if !out.is_tracked {
            DeliveredRow::Nothing
        } else {
            match out.queue_id {
                Some(id) => DeliveredRow::Row(id),
                None => DeliveredRow::Oldest,
            }
        }),
{
    if !out.is_tracked {
        return DeliveredRow::Nothing;
    }
    match out.queue_id {
        Some(id) => DeliveredRow::Row(id),
        None => DeliveredRow::Oldest,
    }
}

/// The push for a queued row that was delivered: it carries what was really sent,
/// and where the row stands now.
pub fn delivered_push(thread_id: i32, row: &LeadMessage, out: &Outgoing, seq: Option<i64>) -> (r:
    Push)
    ensures
        r is Finalize,
        r->Finalize_thread_id == thread_id,
        r->Finalize_message_id == row.id,
        r->Finalize_status@ == "complete"@,
        crate::text::opt_view(r->Finalize_content) == crate::rows::finalized_text(
            row.kind@,
            crate::json::parsed(row.content@),
            *out,
        ),
        r->seq == seq,
{
    Push::Finalize {
        thread_id,
        message_id: row.id,
        status: "complete".to_owned(),
        content: finalize_text(row, out),
        seq,
    }
}

/// The document of a timeline row.
pub open spec fn message_tree(m: LeadMessage) -> JsonView {
    JsonView::Obj(
        map![].insert("id"@, int_tree(m.id as int)).insert(
            "thread_id"@,
            int_tree(m.thread_id as int),
        ).insert("session_id"@, opt_int_tree(widen32(m.session_id))).insert(
            "turn_id"@,
            int_tree(m.turn_id as int),
        ).insert("role"@, str_tree(m.role@)).insert("kind"@, str_tree(m.kind@)).insert(
            "content"@,
            str_tree(m.content@),
        ).insert("status"@, str_tree(m.status@)).insert("created_at"@, str_tree(m.created_at@)).insert(
            "seq"@,
            opt_int_tree(widen64(m.seq)),
        ).insert(
            "native_anchor"@,
            crate::meta::text_tree(crate::text::opt_view(m.native_anchor)),
        ).insert("consumed_at"@, opt_int_tree(widen64(m.consumed_at))),
    )
}

/// The document of a queued message.
pub open spec fn queued_tree(q: QueuedItem) -> JsonView {
    JsonView::Obj(
        map![].insert("id"@, int_tree(q.id as int)).insert("text"@, str_tree(q.text@)).insert(
            "images"@,
            int_tree(q.images as int),
        ).insert("files"@, int_tree(q.files as int)).insert(
            "has_attachments"@,
            JsonView::Bool(q.has_attachments),
        ),
    )
}

pub open spec fn queue_tree(q: Seq<QueuedItem>) -> JsonView {
    JsonView::Arr(q.map_values(|i: QueuedItem| queued_tree(i)))
}

/// The document of a command: what is not known of it is left out.
pub open spec fn command_tree(c: SlashCmd) -> JsonView {
    let m = map![].insert("name"@, str_tree(c.name@));
    let d = match c.description {
        Some(s) => m.insert("description"@, str_tree(s@)),
        None => m,
    };
    JsonView::Obj(
        match c.arg_hint {
            Some(s) => d.insert("arg_hint"@, str_tree(s@)),
            None => d,
        },
    )
}

pub open spec fn commands_tree(c: Seq<SlashCmd>) -> JsonView {
    JsonView::Arr(c.map_values(|i: SlashCmd| command_tree(i)))
}

/// The members that name the variant and the thread.
pub open spec fn tagged(kind: Seq<char>, thread_id: i32) -> Map<Seq<char>, JsonView> {
    map![].insert("type"@, str_tree(kind)).insert("thread_id"@, int_tree(thread_id as int))
}

/// The members of a push that belongs to one session.
pub open spec fn session_tagged(
    kind: Seq<char>,
    thread_id: i32,
    session_id: Option<i32>,
) -> Map<Seq<char>, JsonView> {
    tagged(kind, thread_id).insert("session_id"@, opt_int_tree(widen32(session_id)))
}

/// The document of a push.
pub open spec fn push_tree(p: Push) -> JsonView {
    JsonView::Obj(
        match p {
            Push::Message { thread_id, message } => tagged("message"@, thread_id).insert(
                "message"@,
                message_tree(message),
            ),
            Push::Delta { thread_id, message_id, text } => tagged("delta"@, thread_id).insert(
                "message_id"@,
                int_tree(message_id as int),
            ).insert("text"@, str_tree(text@)),
            Push::Finalize { thread_id, message_id, status, content, seq } => {
                let m = tagged("finalize"@, thread_id).insert(
                    "message_id"@,
                    int_tree(message_id as int),
                ).insert("status"@, str_tree(status@));
                let c = match content {
                    Some(c) => m.insert("content"@, str_tree(c@)),
                    None => m,
                };
                match seq {
                    Some(s) => c.insert("seq"@, int_tree(s as int)),
                    None => c,
                }
            },
            Push::Turn { thread_id, session_id, state, queue } => session_tagged(
                "turn"@,
                thread_id,
                session_id,
            ).insert("state"@, str_tree(state@)).insert("queue"@, queue_tree(queue@)),
            Push::EngineSwitched { thread_id, session_id, direction_id, tool, model, command } =>
            session_tagged("engine_switched"@, thread_id, session_id).insert(
                "direction_id"@,
                opt_int_tree(widen32(direction_id)),
            ).insert("tool"@, str_tree(tool@)).insert(
                "model"@,
                crate::meta::text_tree(crate::text::opt_view(model)),
            ).insert("command"@, crate::meta::text_tree(crate::text::opt_view(command))),
            Push::Init {
                thread_id,
                session_id,
                native_id,
                slash_commands,
                mcp_servers,
                tools,
                model,
                window,
                mcp_known,
            } => session_tagged("init"@, thread_id, session_id).insert(
                "native_id"@,
                str_tree(native_id@),
            ).insert("slash_commands"@, commands_tree(slash_commands@)).insert(
                "mcp_servers"@,
                crate::meta::servers_tree(crate::proto::servers_view(mcp_servers@)),
            ).insert(
                "tools"@,
                JsonView::Arr(crate::json::str_items(crate::text::texts_view(tools@))),
            ).insert("model"@, crate::meta::text_tree(crate::text::opt_view(model))).insert(
                "window"@,
                crate::meta::number_tree(window),
            ).insert("mcp_known"@, JsonView::Bool(mcp_known)),
            Push::Activity { thread_id, session_id, name, summary } => session_tagged(
                "activity"@,
                thread_id,
                session_id,
            ).insert("name"@, str_tree(name@)).insert("summary"@, str_tree(summary@)),
            Push::Usage { thread_id, session_id, context_tokens, window, model } => session_tagged(
                "usage"@,
                thread_id,
                session_id,
            ).insert("context_tokens"@, int_tree(context_tokens as int)).insert(
                "window"@,
                crate::meta::number_tree(window),
            ).insert("model"@, crate::meta::text_tree(crate::text::opt_view(model))),
            Push::ToolResult { thread_id, message_id, content, status } => tagged(
                "tool_result"@,
                thread_id,
            ).insert("message_id"@, int_tree(message_id as int)).insert(
                "content"@,
                str_tree(content@),
            ).insert("status"@, str_tree(status@)),
            Push::Rewound { thread_id, session_id, native_id } => session_tagged(
                "rewound"@,
                thread_id,
                session_id,
            ).insert("native_id"@, crate::meta::text_tree(crate::text::opt_view(native_id))),
            Push::Consumed { thread_id, message_id, consumed_at } => tagged(
                "consumed"@,
                thread_id,
            ).insert("message_id"@, int_tree(message_id as int)).insert(
                "consumed_at"@,
                int_tree(consumed_at as int),
            ),
        },
    )
}

fn int_doc(n: i64) -> (r: Json)
    ensures
        r@ == int_tree(n as int),
{
    Json::Int(n)
}

fn opt32_doc(n: Option<i32>) -> (r: Json)
    ensures
        r@ == opt_int_tree(widen32(n)),
{
    match n {
        Some(n) => Json::Int(n as i64),
        None => Json::Null,
    }
}

fn opt64_doc(n: Option<i64>) -> (r: Json)
    ensures
        r@ == opt_int_tree(widen64(n)),
{
    match n {
        Some(n) => Json::Int(n),
        None => Json::Null,
    }
}

fn str_doc(s: &String) -> (r: Json)
    ensures
        r@ == str_tree(s@),
{
    Json::Str(s.clone())
}

fn message_doc(m: &LeadMessage) -> (r: Json)
    ensures
        r@ == message_tree(*m),
{
    let mut e: Vec<JsonEntry> = Vec::new();
    put(&mut e, "id", int_doc(m.id as i64));
    put(&mut e, "thread_id", int_doc(m.thread_id as i64));
    put(&mut e, "session_id", opt32_doc(m.session_id));
    put(&mut e, "turn_id", int_doc(m.turn_id as i64));
    put(&mut e, "role", str_doc(&m.role));
    put(&mut e, "kind", str_doc(&m.kind));
    put(&mut e, "content", str_doc(&m.content));
    put(&mut e, "status", str_doc(&m.status));
    put(&mut e, "created_at", str_doc(&m.created_at));
    put(&mut e, "seq", opt64_doc(m.seq));
    put(&mut e, "native_anchor", crate::meta::text_doc(&m.native_anchor));
    put(&mut e, "consumed_at", opt64_doc(m.consumed_at));
    Json::Obj(e)
}

fn queued_doc(q: &QueuedItem) -> (r: Json)
    ensures
        r@ == queued_tree(*q),
{
    let mut e: Vec<JsonEntry> = Vec::new();
    put(&mut e, "id", int_doc(q.id as i64));
    put(&mut e, "text", str_doc(&q.text));
    put(&mut e, "images", Json::Uint(q.images as u64));
    put(&mut e, "files", Json::Uint(q.files as u64));
    put(&mut e, "has_attachments", Json::Bool(q.has_attachments));
    Json::Obj(e)
}

fn queue_doc(q: &Vec<QueuedItem>) -> (r: Json)
    ensures
        r@ == queue_tree(q@),
{
    let ghost f = |i: QueuedItem| queued_tree(i);
    let mut out: Vec<Json> = Vec::new();
    let mut i: usize = 0;
    assert(crate::json::items_view(out@) =~= q@.take(0).map_values(f));
    while i < q.len()
        invariant
            i <= q@.len(),
            f == (|i: QueuedItem| queued_tree(i)),
            crate::json::items_view(out@) == q@.take(i as int).map_values(f),
        decreases q@.len() - i,
    {
        let d = queued_doc(&q[i]);
        proof {
            assert(out@.push(d).drop_last() =~= out@);
            assert(q@.take(i + 1).map_values(f) =~= q@.take(i as int).map_values(f).push(d@));
        }
        out.push(d);
        i = i + 1;
    }
    assert(q@.take(q@.len() as int) =~= q@);
    Json::Arr(out)
}

fn command_doc(c: &SlashCmd) -> (r: Json)
    ensures
        r@ == command_tree(*c),
{
    let mut e: Vec<JsonEntry> = Vec::new();
    put(&mut e, "name", str_doc(&c.name));
    match &c.description {
        Some(s) => {
            put(&mut e, "description", str_doc(s));
        },
        None => {},
    }
    match &c.arg_hint {
        Some(s) => {
            put(&mut e, "arg_hint", str_doc(s));
        },
        None => {},
    }
    Json::Obj(e)
}

fn commands_doc(c: &Vec<SlashCmd>) -> (r: Json)
    ensures
        r@ == commands_tree(c@),
{
    let ghost f = |i: SlashCmd| command_tree(i);
    let mut out: Vec<Json> = Vec::new();
    let mut i: usize = 0;
    assert(crate::json::items_view(out@) =~= c@.take(0).map_values(f));
    while i < c.len()
        invariant
            i <= c@.len(),
            f == (|i: SlashCmd| command_tree(i)),
            crate::json::items_view(out@) == c@.take(i as int).map_values(f),
        decreases c@.len() - i,
    {
        let d = command_doc(&c[i]);
        proof {
            assert(out@.push(d).drop_last() =~= out@);
            assert(c@.take(i + 1).map_values(f) =~= c@.take(i as int).map_values(f).push(d@));
        }
        out.push(d);
        i = i + 1;
    }
    assert(c@.take(c@.len() as int) =~= c@);
    Json::Arr(out)
}

fn tag(kind: &str, thread_id: i32) -> (r: Vec<JsonEntry>)
    ensures
        crate::json::entries_view(r@) == tagged(kind@, thread_id),
{
    let mut e: Vec<JsonEntry> = Vec::new();
    put(&mut e, "type", Json::Str(kind.to_owned()));
    put(&mut e, "thread_id", int_doc(thread_id as i64));
    e
}

fn tag_session(kind: &str, thread_id: i32, session_id: Option<i32>) -> (r: Vec<JsonEntry>)
    ensures
        crate::json::entries_view(r@) == session_tagged(kind@, thread_id, session_id),
{
    let mut e = tag(kind, thread_id);
    put(&mut e, "session_id", opt32_doc(session_id));
    e
}

impl Push {
    /// The document of the push.
    pub fn to_json(&self) -> (r: Json)
        ensures
            r@ == push_tree(*self),
    {
        match self {
            Push::Message { thread_id, message } => {
                let mut e = tag("message", *thread_id);
                put(&mut e, "message", message_doc(message));
                Json::Obj(e)
            },
            Push::Delta { thread_id, message_id, text } => {
                let mut e = tag("delta", *thread_id);
                put(&mut e, "message_id", int_doc(*message_id as i64));
                put(&mut e, "text", str_doc(text));
                Json::Obj(e)
            },
            Push::Finalize { thread_id, message_id, status, content, seq } => {
                let mut e = tag("finalize", *thread_id);
                put(&mut e, "message_id", int_doc(*message_id as i64));
                put(&mut e, "status", str_doc(status));
                match content {
                    Some(c) => {
                        put(&mut e, "content", str_doc(c));
                    },
                    None => {},
                }
                match seq {
                    Some(s) => {
                        put(&mut e, "seq", int_doc(*s));
                    },
                    None => {},
                }
                Json::Obj(e)
            },
            Push::Turn { thread_id, session_id, state, queue } => {
                let mut e = tag_session("turn", *thread_id, *session_id);
                put(&mut e, "state", str_doc(state));
                put(&mut e, "queue", queue_doc(queue));
                Json::Obj(e)
            },
            Push::EngineSwitched { thread_id, session_id, direction_id, tool, model, command } => {
                let mut e = tag_session("engine_switched", *thread_id, *session_id);
                put(&mut e, "direction_id", opt32_doc(*direction_id));
                put(&mut e, "tool", str_doc(tool));
                put(&mut e, "model", crate::meta::text_doc(model));
                put(&mut e, "command", crate::meta::text_doc(command));
                Json::Obj(e)
            },
            Push::Init {
                thread_id,
                session_id,
                native_id,
                slash_commands,
                mcp_servers,
                tools,
                model,
                window,
                mcp_known,
            } => {
                let mut e = tag_session("init", *thread_id, *session_id);
                put(&mut e, "native_id", str_doc(native_id));
                put(&mut e, "slash_commands", commands_doc(slash_commands));
                put(&mut e, "mcp_servers", crate::meta::servers_doc(mcp_servers));
                put(&mut e, "tools", string_array(tools));
                put(&mut e, "model", crate::meta::text_doc(model));
                put(&mut e, "window", crate::meta::number_doc(*window));
                put(&mut e, "mcp_known", Json::Bool(*mcp_known));
                Json::Obj(e)
            },
            Push::Activity { thread_id, session_id, name, summary } => {
                let mut e = tag_session("activity", *thread_id, *session_id);
                put(&mut e, "name", str_doc(name));
                put(&mut e, "summary", str_doc(summary));
                Json::Obj(e)
            },
            Push::Usage { thread_id, session_id, context_tokens, window, model } => {
                let mut e = tag_session("usage", *thread_id, *session_id);
                put(&mut e, "context_tokens", Json::Uint(*context_tokens));
                put(&mut e, "window", crate::meta::number_doc(*window));
                put(&mut e, "model", crate::meta::text_doc(model));
                Json::Obj(e)
            },
            Push::ToolResult { thread_id, message_id, content, status } => {
                let mut e = tag("tool_result", *thread_id);
                put(&mut e, "message_id", int_doc(*message_id as i64));
                put(&mut e, "content", str_doc(content));
                put(&mut e, "status", str_doc(status));
                Json::Obj(e)
            },
            Push::Rewound { thread_id, session_id, native_id } => {
                let mut e = tag_session("rewound", *thread_id, *session_id);
                put(&mut e, "native_id", crate::meta::text_doc(native_id));
                Json::Obj(e)
            },
            Push::Consumed { thread_id, message_id, consumed_at } => {
                let mut e = tag("consumed", *thread_id);
                put(&mut e, "message_id", int_doc(*message_id as i64));
                put(&mut e, "consumed_at", int_doc(*consumed_at));
                Json::Obj(e)
            },
        }
    }

    /// A row closed, with nothing to say but its status.
    pub fn finalize(thread_id: i32, message_id: i32, status: &str) -> (r: Push)
        ensures
            push_tree(r) == JsonView::Obj(
                tagged("finalize"@, thread_id).insert(
                    "message_id"@,
                    int_tree(message_id as int),
                ).insert("status"@, str_tree(status@)),
            ),
    {
        Push::Finalize {
            thread_id,
            message_id,
            status: status.to_owned(),
            content: None,
            seq: None,
        }
    }

    /// The state of an engine's turn, under a name, with its queue.
    pub fn turn(inner: &EngineInner, state: &str) -> (r: Push)
        ensures
            r is Turn,
            r->Turn_thread_id == inner.thread_id,
            r->Turn_session_id == inner.session_id,
            r->state@ == state@,
            r->queue@.map_values(|x: QueuedItem| x@) == crate::turn::shown_items(inner.turn.queue@),
    {
        Push::Turn {
            thread_id: inner.thread_id,
            session_id: inner.session_id,
            state: state.to_owned(),
            queue: queue_items(&inner.turn),
        }
    }

    /// How much context an engine has in use.
    pub fn usage(inner: &EngineInner, context_tokens: u64) -> (r: Push)
        ensures
            push_tree(r) == JsonView::Obj(
                session_tagged("usage"@, inner.thread_id, inner.session_id).insert(
                    "context_tokens"@,
                    int_tree(context_tokens as int),
                ).insert("window"@, crate::meta::number_tree(inner.last_window)).insert(
                    "model"@,
                    crate::meta::text_tree(crate::text::opt_view(inner.last_model)),
                ),
            ),
    {
        Push::Usage {
            thread_id: inner.thread_id,
            session_id: inner.session_id,
            context_tokens,
            window: inner.last_window,
            model: opt_clone(&inner.last_model),
        }
    }

    /// What an engine's session runs on, under the native id it is known by.
    pub fn init(inner: &EngineInner, native_id: String, mcp_known: bool) -> (r: Push)
        ensures
            r is Init,
            r->Init_thread_id == inner.thread_id,
            r->Init_session_id == inner.session_id,
            r->Init_native_id == native_id,
            r->mcp_known == mcp_known,
            crate::proto::cmds_view(r->slash_commands@) == crate::proto::cmds_view(
                inner.slash_commands@,
            ),
            crate::proto::servers_view(r->mcp_servers@) == crate::proto::servers_view(
                inner.last_mcp_servers@,
            ),
            crate::text::texts_view(r->tools@) == crate::text::texts_view(inner.last_tools@),
            crate::text::opt_view(r->Init_model) == crate::text::opt_view(inner.last_model),
            r->Init_window == inner.last_window,
    {
        Push::Init {
            thread_id: inner.thread_id,
            session_id: inner.session_id,
            native_id,
            slash_commands: copy_commands(&inner.slash_commands),
            mcp_servers: copy_servers(&inner.last_mcp_servers),
            tools: copy_names(&inner.last_tools),
            model: opt_clone(&inner.last_model),
            window: inner.last_window,
            mcp_known,
        }
    }
}

} // verus!
