//! One stdout line of a headless agent CLI, as the few shapes the chat engine
//! cares about. Three dialects:
//! - resident: a long-lived `stream-json` process (deltas + result)
//! - codex: `exec --json` (per-turn; thread.started / item.* / turn.completed)
//! - opencode: `run --format json` (per-turn; text / tool_use, EOF ends turn)
//! Unknown lines are `Other` and ignored.

use vstd::prelude::*;

use crate::json::{
    first_parsed, items_view, json_text, lemma_items_view, parsed, Json, JsonEntry, JsonView,
};
use crate::text::{
    cat, cat3, has_prefix, head, join, joined, opt_is, opt_str_view, opt_view, same, take_chars,
    texts_view, trim, trimmed,
};

verus! {

broadcast use lemma_items_view;

/// One slash command for the composer palette: the token plus whatever metadata
/// the CLI reported. `name` is the match and dispatch key.
#[derive(Clone, Debug, PartialEq)]
pub struct SlashCmd {
    pub name: String,
    pub description: Option<String>,
    pub arg_hint: Option<String>,
}

pub struct SlashCmdView {
    pub name: Seq<char>,
    pub description: Option<Seq<char>>,
    pub arg_hint: Option<Seq<char>>,
}

impl View for SlashCmd {
    type V = SlashCmdView;

    open spec fn view(&self) -> SlashCmdView {
        SlashCmdView {
            name: self.name@,
            description: opt_view(self.description),
            arg_hint: opt_view(self.arg_hint),
        }
    }
}

impl SlashCmdView {
    /// A command of which only the name is known.
    pub open spec fn bare(name: Seq<char>) -> SlashCmdView {
        SlashCmdView { name, description: None, arg_hint: None }
    }
}

impl SlashCmd {
    /// Name-only command (an init list, codex prompt stems): no metadata.
    pub fn bare(name: &str) -> (r: Self)
        ensures
            r@ == SlashCmdView::bare(name@),
    {
        SlashCmd { name: name.to_owned(), description: None, arg_hint: None }
    }

    /// A copy of the command.
    pub fn copy(&self) -> (r: Self)
        ensures
            r@ == self@,
    {
        SlashCmd {
            name: self.name.clone(),
            description: crate::text::opt_clone(&self.description),
            arg_hint: crate::text::opt_clone(&self.arg_hint),
        }
    }
}

/// The connection state of one MCP server, passed through as reported.
#[derive(Clone, Debug, PartialEq)]
pub struct McpServer {
    pub name: String,
    pub status: String,
}

pub struct McpServerView {
    pub name: Seq<char>,
    pub status: Seq<char>,
}

impl View for McpServer {
    type V = McpServerView;

    open spec fn view(&self) -> McpServerView {
        McpServerView { name: self.name@, status: self.status@ }
    }
}

impl McpServer {
    /// A copy of the entry.
    pub fn copy(&self) -> (r: Self)
        ensures
            r@ == self@,
    {
        McpServer { name: self.name.clone(), status: self.status.clone() }
    }
}

/// A tool invocation captured from the stream: the full `input` plus a compact
/// `summary` for the collapsed line. `output` is set only when the dialect
/// delivers the result inline. `collab_threads` are the sub-agent threads that
/// the call itself opened; none of the line dialects reports them.
#[derive(Debug, Clone)]
pub struct ToolCall {
    pub id: String,
    pub name: String,
    pub input: Json,
    pub summary: String,
    pub output: Option<String>,
    pub is_error: bool,
    pub collab_threads: Vec<String>,
}

pub struct ToolCallView {
    pub id: Seq<char>,
    pub name: Seq<char>,
    pub input: JsonView,
    pub summary: Seq<char>,
    pub output: Option<Seq<char>>,
    pub is_error: bool,
    pub collab_threads: Seq<Seq<char>>,
}

impl View for ToolCall {
    type V = ToolCallView;

    open spec fn view(&self) -> ToolCallView {
        ToolCallView {
            id: self.id@,
            name: self.name@,
            input: self.input@,
            summary: self.summary@,
            output: opt_view(self.output),
            is_error: self.is_error,
            collab_threads: texts_view(self.collab_threads@),
        }
    }
}

/// One tool result block, correlated to its call by `id`.
#[derive(Debug, Clone)]
pub struct ToolResultItem {
    pub id: String,
    pub output: String,
    pub is_error: bool,
    pub collab_threads: Vec<String>,
}

pub struct ToolResultView {
    pub id: Seq<char>,
    pub output: Seq<char>,
    pub is_error: bool,
    pub collab_threads: Seq<Seq<char>>,
}

impl View for ToolResultItem {
    type V = ToolResultView;

    open spec fn view(&self) -> ToolResultView {
        ToolResultView {
            id: self.id@,
            output: self.output@,
            is_error: self.is_error,
            collab_threads: texts_view(self.collab_threads@),
        }
    }
}

/// One event of an agent's stream. `item` keys a text that streams in parallel
/// with others, and `agent_thread` names the native thread it came from; the
/// line dialects set neither.
#[allow(inconsistent_fields)]
#[derive(Debug)]
pub enum ChatEvent {
    Init {
        session_id: String,
        slash_commands: Vec<SlashCmd>,
        /// Only the resident `system/init` reports servers, tools and model.
        mcp_servers: Vec<McpServer>,
        tools: Vec<String>,
        model: Option<String>,
    },
    TextDelta { text: String, item: Option<String>, agent_thread: Option<String> },
    /// A streamed text is complete; `text` is its authoritative body.
    TextDone { item: Option<String>, text: Option<String>, agent_thread: Option<String> },
    /// One complete assistant message: its text blocks plus any tool calls it
    /// started. `uuid` is the transcript uuid, the rewind anchor.
    Assistant {
        texts: Vec<String>,
        tools: Vec<ToolCall>,
        uuid: Option<String>,
        agent_thread: Option<String>,
    },
    /// Tool results delivered out of band.
    ToolResults { items: Vec<ToolResultItem> },
    TurnEnd {
        is_error: bool,
        /// Tokens of the current context: input + cache read + cache creation.
        context_tokens: Option<u64>,
    },
    /// Out-of-band usage: the current context and the model's window.
    Usage { context_tokens: u64, window: Option<u64> },
    /// The CLI's slash commands, in answer to `initialize`.
    Commands { commands: Vec<SlashCmd> },
    Other,
}

#[allow(inconsistent_fields)]
pub enum EventView {
    Init {
        session_id: Seq<char>,
        slash_commands: Seq<SlashCmdView>,
        mcp_servers: Seq<McpServerView>,
        tools: Seq<Seq<char>>,
        model: Option<Seq<char>>,
    },
    TextDelta { text: Seq<char>, item: Option<Seq<char>>, agent_thread: Option<Seq<char>> },
    TextDone {
        item: Option<Seq<char>>,
        text: Option<Seq<char>>,
        agent_thread: Option<Seq<char>>,
    },
    Assistant {
        texts: Seq<Seq<char>>,
        tools: Seq<ToolCallView>,
        uuid: Option<Seq<char>>,
        agent_thread: Option<Seq<char>>,
    },
    ToolResults { items: Seq<ToolResultView> },
    TurnEnd { is_error: bool, context_tokens: Option<u64> },
    Usage { context_tokens: u64, window: Option<u64> },
    Commands { commands: Seq<SlashCmdView> },
    Other,
}

pub open spec fn cmds_view(v: Seq<SlashCmd>) -> Seq<SlashCmdView> {
    v.map_values(|c: SlashCmd| c@)
}

pub open spec fn servers_view(v: Seq<McpServer>) -> Seq<McpServerView> {
    v.map_values(|c: McpServer| c@)
}

pub open spec fn calls_view(v: Seq<ToolCall>) -> Seq<ToolCallView> {
    v.map_values(|c: ToolCall| c@)
}

pub open spec fn results_view(v: Seq<ToolResultItem>) -> Seq<ToolResultView> {
    v.map_values(|c: ToolResultItem| c@)
}

impl View for ChatEvent {
    type V = EventView;

    open spec fn view(&self) -> EventView {
        match *self {
            ChatEvent::Init { session_id, slash_commands, mcp_servers, tools, model } =>
                EventView::Init {
                    session_id: session_id@,
                    slash_commands: cmds_view(slash_commands@),
                    mcp_servers: servers_view(mcp_servers@),
                    tools: texts_view(tools@),
                    model: opt_view(model),
                },
            ChatEvent::TextDelta { text, item, agent_thread } => EventView::TextDelta {
                text: text@,
                item: opt_view(item),
                agent_thread: opt_view(agent_thread),
            },
            ChatEvent::TextDone { item, text, agent_thread } => EventView::TextDone {
                item: opt_view(item),
                text: opt_view(text),
                agent_thread: opt_view(agent_thread),
            },
            ChatEvent::Assistant { texts, tools, uuid, agent_thread } => EventView::Assistant {
                texts: texts_view(texts@),
                tools: calls_view(tools@),
                uuid: opt_view(uuid),
                agent_thread: opt_view(agent_thread),
            },
            ChatEvent::ToolResults { items } => EventView::ToolResults {
                items: results_view(items@),
            },
            ChatEvent::TurnEnd { is_error, context_tokens } => EventView::TurnEnd {
                is_error,
                context_tokens,
            },
            ChatEvent::Usage { context_tokens, window } => EventView::Usage {
                context_tokens,
                window,
            },
            ChatEvent::Commands { commands } => EventView::Commands {
                commands: cmds_view(commands@),
            },
            ChatEvent::Other => EventView::Other,
        }
    }
}

/// The longest tool input or output that is kept whole.
pub const MAX_TOOL_CHARS: usize = 16_000;

/// The longest summary of a tool call.
pub const MAX_SUMMARY_CHARS: usize = 120;

/// The first value that `f` finds for an item, over the items in order.
pub open spec fn picked<T>(items: Seq<JsonView>, f: spec_fn(JsonView) -> Option<T>) -> Seq<T>
    decreases items.len(),
{
    if items.len() == 0 {
        seq![]
    } else {
        match f(items.last()) {
            Some(x) => picked(items.drop_last(), f).push(x),
            None => picked(items.drop_last(), f),
        }
    }
}

/// The first of the members `keys` that is a string.
pub open spec fn first_str(v: JsonView, keys: Seq<Seq<char>>) -> Option<Seq<char>>
    decreases keys.len(),
{
    if keys.len() == 0 {
        None
    } else {
        match v.str_at(keys[0]) {
            Some(s) => Some(s),
            None => first_str(v, keys.drop_first()),
        }
    }
}

pub open spec fn strs_view(v: Seq<&str>) -> Seq<Seq<char>> {
    v.map_values(|s: &str| s@)
}

fn find_str<'a, const N: usize>(v: &'a Json, keys: [&str; N]) -> (r: Option<&'a str>)
    ensures
        opt_str_view(r) == first_str(v@, strs_view(keys@)),
{
    let mut i: usize = 0;
    assert(strs_view(keys@).skip(0) =~= strs_view(keys@));
    while i < N
        invariant
            i <= N,
            keys@.len() == N,
            first_str(v@, strs_view(keys@)) == first_str(v@, strs_view(keys@).skip(i as int)),
        decreases N - i,
    {
        proof {
            let rest = strs_view(keys@).skip(i as int);
            assert(rest[0] == keys@[i as int]@);
            assert(rest.drop_first() =~= strs_view(keys@).skip(i + 1));
        }
        let k: &str = keys[i];
        match v.str_at(k) {
            Some(s) => {
                return Some(s);
            },
            None => {},
        }
        i = i + 1;
    }
    None
}

pub open spec fn or_empty(o: Option<Seq<char>>) -> Seq<char> {
    match o {
        Some(s) => s,
        None => seq![],
    }
}

pub open spec fn or_text(o: Option<Seq<char>>, other: Seq<char>) -> Seq<char> {
    match o {
        Some(s) => s,
        None => other,
    }
}

fn owned_or(o: Option<&str>, other: &str) -> (r: String)
    ensures
        r@ == or_text(opt_str_view(o), other@),
{
    match o {
        Some(s) => s.to_owned(),
        None => other.to_owned(),
    }
}

fn owned_or_empty(o: Option<&str>) -> (r: String)
    ensures
        r@ == or_empty(opt_str_view(o)),
{
    match o {
        Some(s) => s.to_owned(),
        None => String::new(),
    }
}

fn owned_opt(o: Option<&str>) -> (r: Option<String>)
    ensures
        opt_view(r) == opt_str_view(o),
{
    match o {
        Some(s) => Some(s.to_owned()),
        None => None,
    }
}


/// Unfolding of `picked` at the item with index `i`.
pub proof fn lemma_picked_step<T>(items: Seq<JsonView>, i: int, f: spec_fn(JsonView) -> Option<T>)
    requires
        0 <= i < items.len(),
    ensures
        picked(items.take(i + 1), f) == (match f(items[i]) {
            Some(x) => picked(items.take(i), f).push(x),
            None => picked(items.take(i), f),
        }),
{
    assert(items.take(i + 1).drop_last() =~= items.take(i));
    assert(items.take(i + 1).last() == items[i]);
}

/// A text cut to the limit, with the mark that something was cut off.
pub open spec fn capped(s: Seq<char>, mark: Seq<char>) -> Seq<char> {
    if s.len() <= MAX_TOOL_CHARS {
        s
    } else {
        s.take(MAX_TOOL_CHARS as int) + mark
    }
}

fn cap(s: &str, mark: &str) -> (r: String)
    ensures
        r@ == capped(s@, mark@),
{
    if s.unicode_len() <= MAX_TOOL_CHARS {
        s.to_owned()
    } else {
        let h = take_chars(s, MAX_TOOL_CHARS);
        cat(h.as_str(), mark)
    }
}

pub open spec fn output_mark() -> Seq<char> {
    "\n… (truncated)"@
}

pub open spec fn input_mark() -> Seq<char> {
    "… (truncated)"@
}

/// Cap tool output so a pathological stdout or large file read cannot bloat the
/// persisted row, its push payload, or the store behind the UI.
pub fn cap_output(s: String) -> (r: String)
    ensures
        r@ == capped(s@, output_mark()),
{
    cap(s.as_str(), "\n… (truncated)")
}

/// A tool input whose text is too long becomes its cut text.
pub open spec fn capped_input(v: JsonView) -> JsonView {
    if json_text(v).len() <= MAX_TOOL_CHARS {
        v
    } else {
        JsonView::Str(capped(json_text(v), input_mark()))
    }
}

/// Cap a tool input the same way: a huge payload is replaced by a truncated
/// string; small inputs pass through unchanged so the UI still renders the
/// structured object.
pub fn cap_input(input: Json) -> (r: Json)
    ensures
        r@ == capped_input(input@),
{
    let s = input.print();
    if s.as_str().unicode_len() <= MAX_TOOL_CHARS {
        input
    } else {
        Json::Str(cap(s.as_str(), "… (truncated)"))
    }
}

/// What `compact_input` shows when no field of the input is a known string.
pub open spec fn opaque_summary(v: JsonView) -> Seq<char> {
    match v {
        JsonView::Null => seq![],
        JsonView::Obj(m) => if m =~= map![] {
            seq![]
        } else {
            json_text(v)
        },
        _ => json_text(v),
    }
}

pub open spec fn summary_keys() -> Seq<Seq<char>> {
    seq![
        "file_path"@,
        "path"@,
        "command"@,
        "pattern"@,
        "query"@,
        "url"@,
        "description"@,
    ]
}

pub open spec fn compact_input_spec(v: JsonView) -> Seq<char> {
    head(or_text(first_str(v, summary_keys()), opaque_summary(v)), MAX_SUMMARY_CHARS as nat)
}

proof fn lemma_entries_empty(entries: Seq<JsonEntry>)
    ensures
        (entries.len() == 0) == (crate::json::entries_view(entries) =~= map![]),
{
    if entries.len() > 0 {
        assert(crate::json::entries_view(entries).dom().contains(entries.last().key@));
    }
}

/// First string-ish field of a tool input, truncated: just enough for a compact
/// activity pill. An empty or null input yields "", never "{}" noise.
pub fn compact_input(input: &Json) -> (r: String)
    ensures
        r@ == compact_input_spec(input@),
{
    let keys = ["file_path", "path", "command", "pattern", "query", "url", "description"];
    assert(strs_view(keys@) =~= summary_keys());
    match find_str(input, keys) {
        Some(s) => take_chars(s, MAX_SUMMARY_CHARS),
        None => {
            let s = match input {
                Json::Null => String::new(),
                Json::Obj(entries) => {
                    proof {
                        lemma_entries_empty(entries@);
                    }
                    if entries.len() == 0 {
                        String::new()
                    } else {
                        input.print()
                    }
                },
                _ => input.print(),
            };
            take_chars(s.as_str(), MAX_SUMMARY_CHARS)
        },
    }
}

/// The texts of the blocks that have one, a line each.
pub open spec fn block_texts(items: Seq<JsonView>) -> Seq<Seq<char>> {
    picked(items, |b: JsonView| b.str_at("text"@))
}

fn collect_block_texts(items: &Vec<Json>) -> (r: Vec<String>)
    ensures
        texts_view(r@) == block_texts(items_view(items@)),
{
    let mut out: Vec<String> = Vec::new();
    let mut i: usize = 0;
    let ghost all = items_view(items@);
    let ghost f = |b: JsonView| b.str_at("text"@);
    assert(texts_view(out@) =~= picked(all.take(0), f));
    while i < items.len()
        invariant
            i <= items.len(),
            all == items_view(items@),
            f == (|b: JsonView| b.str_at("text"@)),
            texts_view(out@) == picked(all.take(i as int), f),
        decreases items.len() - i,
    {
        proof {
            lemma_picked_step(all, i as int, f);
        }
        match items[i].str_at("text") {
            Some(t) => {
                let s = t.to_owned();
                assert(texts_view(out@.push(s)) =~= texts_view(out@).push(s@));
                out.push(s);
            },
            None => {},
        }
        i = i + 1;
    }
    assert(all.take(all.len() as int) =~= all);
    out
}

pub open spec fn tool_result_text_spec(content: JsonView) -> Seq<char> {
    capped(
        match content {
            JsonView::Str(s) => s,
            JsonView::Arr(items) => joined(block_texts(items), "\n"@),
            _ => seq![],
        },
        output_mark(),
    )
}

/// Flatten a `tool_result` block's `content` to text. It is either a plain string
/// or an array of content blocks, of which the text blocks are kept.
pub fn tool_result_text(content: Option<&Json>) -> (r: String)
    ensures
        r@ == tool_result_text_spec(
            match content {
                Some(c) => c@,
                None => JsonView::Null,
            },
        ),
{
    let text = match content {
        Some(Json::Str(s)) => s.clone(),
        Some(Json::Arr(items)) => {
            let parts = collect_block_texts(items);
            join(&parts, "\n")
        },
        _ => String::new(),
    };
    cap_output(text)
}

/// The number a usage object holds under `key`; 0 when there is none.
pub open spec fn usage_count(usage: JsonView, key: Seq<char>) -> int {
    match usage.at(key).as_u64() {
        Some(n) => n,
        None => 0,
    }
}

/// The size of the prompt that the turn sent.
pub open spec fn usage_sum(usage: JsonView) -> int {
    usage_count(usage, "input_tokens"@) + usage_count(usage, "cache_read_input_tokens"@)
        + usage_count(usage, "cache_creation_input_tokens"@)
}

pub open spec fn context_tokens_spec(usage: JsonView) -> Option<u64> {
    if usage is Obj {
        Some(usage_sum(usage) as u64)
    } else {
        None
    }
}

fn count_at(usage: &Json, key: &str) -> (r: u64)
    ensures
        r == usage_count(usage@, key@),
{
    match usage.get(key) {
        Some(v) => match v.as_u64() {
            Some(n) => n,
            None => 0,
        },
        None => 0,
    }
}

/// The usage of a result as the current context: input + cache read + cache
/// creation. Missing or not an object: unknown.
pub fn context_tokens(usage: Option<&Json>) -> (r: Option<u64>)
    requires
        usage matches Some(u) ==> usage_sum(u@) <= u64::MAX,
    ensures
        r == context_tokens_spec(
            match usage {
                Some(u) => u@,
                None => JsonView::Null,
            },
        ),
{
    match usage {
        Some(u) => match u {
            Json::Obj(_) => Some(
                count_at(u, "input_tokens") + count_at(u, "cache_read_input_tokens") + count_at(
                    u,
                    "cache_creation_input_tokens",
                ),
            ),
            _ => None,
        },
        None => None,
    }
}


/// A command of which the list gives the name only.
pub open spec fn listed_cmd(c: JsonView) -> Option<SlashCmdView> {
    match c.as_str() {
        Some(name) => Some(SlashCmdView::bare(name)),
        None => None,
    }
}

pub open spec fn listed_cmds(items: Seq<JsonView>) -> Seq<SlashCmdView> {
    picked(items, |c: JsonView| listed_cmd(c))
}

pub open spec fn listed_server(s: JsonView) -> Option<McpServerView> {
    match s.str_at("name"@) {
        Some(name) => Some(
            McpServerView { name, status: or_text(s.str_at("status"@), "unknown"@) },
        ),
        None => None,
    }
}

pub open spec fn listed_servers(items: Seq<JsonView>) -> Seq<McpServerView> {
    picked(items, |s: JsonView| listed_server(s))
}

pub open spec fn listed_names(items: Seq<JsonView>) -> Seq<Seq<char>> {
    picked(items, |t: JsonView| t.as_str())
}

/// A string member, unless it is empty.
pub open spec fn filled(c: JsonView, key: Seq<char>) -> Option<Seq<char>> {
    match c.str_at(key) {
        Some(s) => if s.len() == 0 {
            None
        } else {
            Some(s)
        },
        None => None,
    }
}

pub open spec fn described_cmd(c: JsonView) -> Option<SlashCmdView> {
    match c.str_at("name"@) {
        Some(name) => Some(
            SlashCmdView {
                name,
                description: filled(c, "description"@),
                arg_hint: filled(c, "argumentHint"@),
            },
        ),
        None => None,
    }
}

pub open spec fn described_cmds(items: Seq<JsonView>) -> Seq<SlashCmdView> {
    picked(items, |c: JsonView| described_cmd(c))
}

/// The items of an array; none for anything else.
pub open spec fn arr_or_empty(v: JsonView) -> Seq<JsonView> {
    match v.as_arr() {
        Some(a) => a,
        None => seq![],
    }
}

fn collect_listed_cmds(items: &Vec<Json>) -> (r: Vec<SlashCmd>)
    ensures
        cmds_view(r@) == listed_cmds(items_view(items@)),
{
    let mut out: Vec<SlashCmd> = Vec::new();
    let mut i: usize = 0;
    let ghost all = items_view(items@);
    let ghost f = |c: JsonView| listed_cmd(c);
    assert(cmds_view(out@) =~= picked(all.take(0), f));
    while i < items.len()
        invariant
            i <= items.len(),
            all == items_view(items@),
            f == (|c: JsonView| listed_cmd(c)),
            cmds_view(out@) == picked(all.take(i as int), f),
        decreases items.len() - i,
    {
        proof {
            lemma_picked_step(all, i as int, f);
        }
        match items[i].as_str() {
            Some(t) => {
                let c = SlashCmd::bare(t);
                assert(cmds_view(out@.push(c)) =~= cmds_view(out@).push(c@));
                out.push(c);
            },
            None => {},
        }
        i = i + 1;
    }
    assert(all.take(all.len() as int) =~= all);
    out
}

fn collect_servers(items: &Vec<Json>) -> (r: Vec<McpServer>)
    ensures
        servers_view(r@) == listed_servers(items_view(items@)),
{
    let mut out: Vec<McpServer> = Vec::new();
    let mut i: usize = 0;
    let ghost all = items_view(items@);
    let ghost f = |s: JsonView| listed_server(s);
    assert(servers_view(out@) =~= picked(all.take(0), f));
    while i < items.len()
        invariant
            i <= items.len(),
            all == items_view(items@),
            f == (|s: JsonView| listed_server(s)),
            servers_view(out@) == picked(all.take(i as int), f),
        decreases items.len() - i,
    {
        proof {
            lemma_picked_step(all, i as int, f);
        }
        match items[i].str_at("name") {
            Some(name) => {
                let c = McpServer {
                    name: name.to_owned(),
                    status: owned_or(items[i].str_at("status"), "unknown"),
                };
                assert(servers_view(out@.push(c)) =~= servers_view(out@).push(c@));
                out.push(c);
            },
            None => {},
        }
        i = i + 1;
    }
    assert(all.take(all.len() as int) =~= all);
    out
}

/// The strings of an array, in order; other items are passed over.
pub fn collect_names(items: &Vec<Json>) -> (r: Vec<String>)
    ensures
        texts_view(r@) == listed_names(items_view(items@)),
{
    let mut out: Vec<String> = Vec::new();
    let mut i: usize = 0;
    let ghost all = items_view(items@);
    let ghost f = |t: JsonView| t.as_str();
    assert(texts_view(out@) =~= picked(all.take(0), f));
    while i < items.len()
        invariant
            i <= items.len(),
            all == items_view(items@),
            f == (|t: JsonView| t.as_str()),
            texts_view(out@) == picked(all.take(i as int), f),
        decreases items.len() - i,
    {
        proof {
            lemma_picked_step(all, i as int, f);
        }
        match items[i].as_str() {
            Some(t) => {
                let c = t.to_owned();
                assert(texts_view(out@.push(c)) =~= texts_view(out@).push(c@));
                out.push(c);
            },
            None => {},
        }
        i = i + 1;
    }
    assert(all.take(all.len() as int) =~= all);
    out
}

fn filled_at(c: &Json, key: &str) -> (r: Option<String>)
    ensures
        opt_view(r) == filled(c@, key@),
{
    match c.str_at(key) {
        Some(s) => if s.is_empty() {
            None
        } else {
            Some(s.to_owned())
        },
        None => None,
    }
}

fn collect_described_cmds(items: &Vec<Json>) -> (r: Vec<SlashCmd>)
    ensures
        cmds_view(r@) == described_cmds(items_view(items@)),
{
    let mut out: Vec<SlashCmd> = Vec::new();
    let mut i: usize = 0;
    let ghost all = items_view(items@);
    let ghost f = |c: JsonView| described_cmd(c);
    assert(cmds_view(out@) =~= picked(all.take(0), f));
    while i < items.len()
        invariant
            i <= items.len(),
            all == items_view(items@),
            f == (|c: JsonView| described_cmd(c)),
            cmds_view(out@) == picked(all.take(i as int), f),
        decreases items.len() - i,
    {
        proof {
            lemma_picked_step(all, i as int, f);
        }
        match items[i].str_at("name") {
            Some(name) => {
                let c = SlashCmd {
                    name: name.to_owned(),
                    description: filled_at(&items[i], "description"),
                    arg_hint: filled_at(&items[i], "argumentHint"),
                };
                assert(cmds_view(out@.push(c)) =~= cmds_view(out@).push(c@));
                out.push(c);
            },
            None => {},
        }
        i = i + 1;
    }
    assert(all.take(all.len() as int) =~= all);
    out
}

/// The text of a `text` block, unless it is empty.
pub open spec fn block_text(b: JsonView) -> Option<Seq<char>> {
    if b.str_at("type"@) == Some("text"@) {
        filled(b, "text"@)
    } else {
        None
    }
}

/// The call that a `tool_use` block starts.
pub open spec fn block_call(b: JsonView) -> Option<ToolCallView> {
    if b.str_at("type"@) != Some("text"@) && b.str_at("type"@) == Some("tool_use"@) {
        Some(
            ToolCallView {
                id: or_empty(b.str_at("id"@)),
                name: or_text(b.str_at("name"@), "tool"@),
                input: capped_input(b.at("input"@)),
                summary: compact_input_spec(b.at("input"@)),
                output: None,
                is_error: false,
                collab_threads: seq![],
            },
        )
    } else {
        None
    }
}

/// The result that a `tool_result` block delivers.
pub open spec fn block_result(b: JsonView) -> Option<ToolResultView> {
    if b.str_at("type"@) == Some("tool_result"@) {
        Some(
            ToolResultView {
                id: or_empty(b.str_at("tool_use_id"@)),
                output: tool_result_text_spec(b.at("content"@)),
                is_error: b.at("is_error"@).as_bool() == Some(true),
                collab_threads: seq![],
            },
        )
    } else {
        None
    }
}

pub open spec fn message_texts(items: Seq<JsonView>) -> Seq<Seq<char>> {
    picked(items, |b: JsonView| block_text(b))
}

pub open spec fn message_calls(items: Seq<JsonView>) -> Seq<ToolCallView> {
    picked(items, |b: JsonView| block_call(b))
}

pub open spec fn message_results(items: Seq<JsonView>) -> Seq<ToolResultView> {
    picked(items, |b: JsonView| block_result(b))
}

fn copy_at(v: &Json, key: &str) -> (r: Json)
    ensures
        r@ == v@.at(key@),
{
    match v.get(key) {
        Some(x) => x.copy(),
        None => Json::Null,
    }
}

fn collect_message(items: &Vec<Json>) -> (r: (Vec<String>, Vec<ToolCall>))
    ensures
        texts_view(r.0@) == message_texts(items_view(items@)),
        calls_view(r.1@) == message_calls(items_view(items@)),
{
    let mut texts: Vec<String> = Vec::new();
    let mut tools: Vec<ToolCall> = Vec::new();
    let mut i: usize = 0;
    let ghost all = items_view(items@);
    let ghost f = |b: JsonView| block_text(b);
    let ghost g = |b: JsonView| block_call(b);
    assert(texts_view(texts@) =~= picked(all.take(0), f));
    assert(calls_view(tools@) =~= picked(all.take(0), g));
    while i < items.len()
        invariant
            i <= items.len(),
            all == items_view(items@),
            f == (|b: JsonView| block_text(b)),
            g == (|b: JsonView| block_call(b)),
            texts_view(texts@) == picked(all.take(i as int), f),
            calls_view(tools@) == picked(all.take(i as int), g),
        decreases items.len() - i,
    {
        proof {
            lemma_picked_step(all, i as int, f);
            lemma_picked_step(all, i as int, g);
        }
        let b = &items[i];
        let kind = b.str_at("type");
        if opt_is(kind, "text") {
            match filled_at(b, "text") {
                Some(t) => {
                    assert(texts_view(texts@.push(t)) =~= texts_view(texts@).push(t@));
                    texts.push(t);
                },
                None => {},
            }
        } else if opt_is(kind, "tool_use") {
            let input = copy_at(b, "input");
            let summary = compact_input(&input);
            let call = ToolCall {
                id: owned_or_empty(b.str_at("id")),
                name: owned_or(b.str_at("name"), "tool"),
                input: cap_input(input),
                summary,
                output: None,
                is_error: false,
                collab_threads: Vec::new(),
            };
            assert(call@.collab_threads =~= seq![]);
            assert(calls_view(tools@.push(call)) =~= calls_view(tools@).push(call@));
            tools.push(call);
        }
        i = i + 1;
    }
    assert(all.take(all.len() as int) =~= all);
    (texts, tools)
}

fn collect_results(items: &Vec<Json>) -> (r: Vec<ToolResultItem>)
    ensures
        results_view(r@) == message_results(items_view(items@)),
{
    let mut out: Vec<ToolResultItem> = Vec::new();
    let mut i: usize = 0;
    let ghost all = items_view(items@);
    let ghost f = |b: JsonView| block_result(b);
    assert(results_view(out@) =~= picked(all.take(0), f));
    while i < items.len()
        invariant
            i <= items.len(),
            all == items_view(items@),
            f == (|b: JsonView| block_result(b)),
            results_view(out@) == picked(all.take(i as int), f),
        decreases items.len() - i,
    {
        proof {
            lemma_picked_step(all, i as int, f);
        }
        let b = &items[i];
        if opt_is(b.str_at("type"), "tool_result") {
            let is_error = match b.get("is_error") {
                Some(v) => match v.as_bool() {
                    Some(e) => e,
                    None => false,
                },
                None => false,
            };
            let item = ToolResultItem {
                id: owned_or_empty(b.str_at("tool_use_id")),
                output: tool_result_text(b.get("content")),
                is_error,
                collab_threads: Vec::new(),
            };
            assert(item@.collab_threads =~= seq![]);
            assert(results_view(out@.push(item)) =~= results_view(out@).push(item@));
            out.push(item);
        }
        i = i + 1;
    }
    assert(all.take(all.len() as int) =~= all);
    out
}

/// The event that a document of the resident dialect stands for.
pub open spec fn resident_event(v: JsonView) -> EventView {
    let kind = v.str_at("type"@);
    if kind == Some("system"@) && v.str_at("subtype"@) == Some("init"@) {
        EventView::Init {
            session_id: or_empty(v.str_at("session_id"@)),
            slash_commands: listed_cmds(arr_or_empty(v.at("slash_commands"@))),
            mcp_servers: listed_servers(arr_or_empty(v.at("mcp_servers"@))),
            tools: listed_names(arr_or_empty(v.at("tools"@))),
            model: v.str_at("model"@),
        }
    } else if kind == Some("stream_event"@) {
        let event = v.at("event"@);
        let delta = event.at("delta"@);
        if event.str_at("type"@) == Some("content_block_delta"@) && delta.str_at("type"@) == Some(
            "text_delta"@,
        ) {
            EventView::TextDelta {
                text: or_empty(delta.str_at("text"@)),
                item: None,
                agent_thread: None,
            }
        } else {
            EventView::Other
        }
    } else if kind == Some("assistant"@) {
        let blocks = arr_or_empty(v.at("message"@).at("content"@));
        EventView::Assistant {
            texts: message_texts(blocks),
            tools: message_calls(blocks),
            uuid: v.str_at("uuid"@),
            agent_thread: None,
        }
    } else if kind == Some("user"@) {
        let items = message_results(arr_or_empty(v.at("message"@).at("content"@)));
        if items.len() == 0 {
            EventView::Other
        } else {
            EventView::ToolResults { items }
        }
    } else if kind == Some("result"@) {
        EventView::TurnEnd {
            is_error: v.str_at("subtype"@) != Some("success"@),
            context_tokens: context_tokens_spec(v.at("usage"@)),
        }
    } else if kind == Some("control_response"@) {
        let response = v.at("response"@);
        let commands = response.at("response"@).at("commands"@);
        if response.str_at("subtype"@) == Some("success"@) && commands is Arr {
            EventView::Commands { commands: described_cmds(arr_or_empty(commands)) }
        } else {
            EventView::Other
        }
    } else {
        EventView::Other
    }
}

/// The token counts of the document, if it is a result, add up to a `u64`.
pub open spec fn usage_fits(v: JsonView) -> bool {
    v.str_at("type"@) == Some("result"@) ==> usage_sum(v.at("usage"@)) <= u64::MAX
}

/// The resident dialect: one document to one event.
pub fn read_resident(v: &Json) -> (r: ChatEvent)
    requires
        usage_fits(v@),
    ensures
        r@ == resident_event(v@),
{
    let kind = v.str_at("type");
    if opt_is(kind, "system") && opt_is(v.str_at("subtype"), "init") {
        let slash_commands = match v.arr_at("slash_commands") {
            Some(a) => collect_listed_cmds(a),
            None => Vec::new(),
        };
        let mcp_servers = match v.arr_at("mcp_servers") {
            Some(a) => collect_servers(a),
            None => Vec::new(),
        };
        let tools = match v.arr_at("tools") {
            Some(a) => collect_names(a),
            None => Vec::new(),
        };
        let r = ChatEvent::Init {
            session_id: owned_or_empty(v.str_at("session_id")),
            slash_commands,
            mcp_servers,
            tools,
            model: owned_opt(v.str_at("model")),
        };
        assert(cmds_view(slash_commands@) =~= listed_cmds(arr_or_empty(v@.at("slash_commands"@))));
        assert(servers_view(mcp_servers@) =~= listed_servers(
            arr_or_empty(v@.at("mcp_servers"@)),
        ));
        assert(texts_view(tools@) =~= listed_names(arr_or_empty(v@.at("tools"@))));
        r
    } else if opt_is(kind, "stream_event") {
        let event = v.get("event");
        match event {
            Some(e) => if opt_is(e.str_at("type"), "content_block_delta") && opt_is(
                e.str_at2("delta", "type"),
                "text_delta",
            ) {
                ChatEvent::TextDelta {
                    text: owned_or_empty(e.str_at2("delta", "text")),
                    item: None,
                    agent_thread: None,
                }
            } else {
                ChatEvent::Other
            },
            None => ChatEvent::Other,
        }
    } else if opt_is(kind, "assistant") {
        let blocks = match v.get("message") {
            Some(m) => m.arr_at("content"),
            None => None,
        };
        let (texts, tools) = match blocks {
            Some(a) => collect_message(a),
            None => (Vec::new(), Vec::new()),
        };
        assert(texts_view(texts@) =~= message_texts(
            arr_or_empty(v@.at("message"@).at("content"@)),
        ));
        assert(calls_view(tools@) =~= message_calls(
            arr_or_empty(v@.at("message"@).at("content"@)),
        ));
        ChatEvent::Assistant { texts, tools, uuid: owned_opt(v.str_at("uuid")), agent_thread: None }
    } else if opt_is(kind, "user") {
        let blocks = match v.get("message") {
            Some(m) => m.arr_at("content"),
            None => None,
        };
        let items = match blocks {
            Some(a) => collect_results(a),
            None => Vec::new(),
        };
        assert(results_view(items@) =~= message_results(
            arr_or_empty(v@.at("message"@).at("content"@)),
        ));
        if items.is_empty() {
            ChatEvent::Other
        } else {
            ChatEvent::ToolResults { items }
        }
    } else if opt_is(kind, "result") {
        ChatEvent::TurnEnd {
            is_error: !opt_is(v.str_at("subtype"), "success"),
            context_tokens: context_tokens(v.get("usage")),
        }
    } else if opt_is(kind, "control_response") {
        match v.get("response") {
            Some(response) => {
                if opt_is(response.str_at("subtype"), "success") {
                    match response.get2("response", "commands") {
                        Some(Json::Arr(items)) => ChatEvent::Commands {
                            commands: collect_described_cmds(items),
                        },
                        _ => ChatEvent::Other,
                    }
                } else {
                    ChatEvent::Other
                }
            },
            None => ChatEvent::Other,
        }
    } else {
        ChatEvent::Other
    }
}

/// The event that a line of the resident dialect stands for.
pub open spec fn resident_line_event(line: Seq<char>) -> EventView {
    match parsed(line) {
        Some(v) => resident_event(v),
        None => EventView::Other,
    }
}

/// The token counts on the line, if it is a result, add up to a `u64`.
pub open spec fn line_usage_fits(line: Seq<char>) -> bool {
    match parsed(line) {
        Some(v) => usage_fits(v),
        None => true,
    }
}

/// Parse one line of the resident dialect.
pub fn parse_line(line: &str) -> (r: ChatEvent)
    requires
        line_usage_fits(line@),
    ensures
        r@ == resident_line_event(line@),
{
    match Json::parse(line) {
        Some(v) => read_resident(&v),
        None => ChatEvent::Other,
    }
}

/// `parse_line` on any line: `None` where the token counts of a result do not add
/// up to a `u64`.
pub fn try_parse_line(line: &str) -> (r: Option<ChatEvent>)
    ensures
        match r {
            Some(e) => line_usage_fits(line@) && e@ == resident_line_event(line@),
            None => !line_usage_fits(line@),
        },
{
    let fits = match Json::parse(line) {
        Some(v) => {
            let usage = v.get("usage");
            match usage {
                Some(u) if opt_is(v.str_at("type"), "result") => {
                    let a: u128 = count_at(u, "input_tokens") as u128;
                    let b: u128 = count_at(u, "cache_read_input_tokens") as u128;
                    let c: u128 = count_at(u, "cache_creation_input_tokens") as u128;
                    a + b + c <= u64::MAX as u128
                },
                _ => true,
            }
        },
        None => true,
    };
    if fits {
        Some(parse_line(line))
    } else {
        None
    }
}

/// The human message inside an error document.
pub open spec fn error_message(v: JsonView) -> Option<Seq<char>> {
    let found = match v.at("error"@).str_at("message"@) {
        Some(s) => Some(s),
        None => match v.str_at("message"@) {
            Some(s) => Some(s),
            None => v.str_at("error"@),
        },
    };
    match found {
        Some(s) => if trimmed(s).len() == 0 {
            None
        } else {
            Some(trimmed(s))
        },
        None => None,
    }
}

/// What is shown of an error text whose first document is `doc`.
pub open spec fn humanized(raw: Seq<char>, doc: Option<JsonView>) -> Seq<char> {
    let t = trimmed(raw);
    if !("{"@.is_prefix_of(t)) {
        t
    } else {
        match doc {
            Some(v) => or_text(error_message(v), t),
            None => t,
        }
    }
}

/// Dig the human message out of an error text that may itself be JSON, given the
/// first document that stands in it.
pub fn humanize_parsed(raw: &str, doc: Option<&Json>) -> (r: String)
    ensures
        r@ == humanized(
            raw@,
            match doc {
                Some(v) => Some(v@),
                None => None,
            },
        ),
{
    let t = trim(raw);
    if !has_prefix(t, "{") {
        return t.to_owned();
    }
    match doc {
        Some(v) => {
            let found = match v.str_at2("error", "message") {
                Some(s) => Some(s),
                None => match v.str_at("message") {
                    Some(s) => Some(s),
                    None => v.str_at("error"),
                },
            };
            match found {
                Some(s) => {
                    let m = trim(s);
                    if m.is_empty() {
                        t.to_owned()
                    } else {
                        m.to_owned()
                    }
                },
                None => t.to_owned(),
            }
        },
        None => t.to_owned(),
    }
}

/// What is shown of an error text.
pub open spec fn humanized_text(raw: Seq<char>) -> Seq<char> {
    humanized(raw, first_parsed(trimmed(raw)))
}

/// Dig the human message out of an error payload that may itself be raw JSON,
/// sometimes several objects one after the other. Plain text passes through
/// trimmed; so does JSON in which no message is found.
pub fn humanize_error_text(raw: &str) -> (r: String)
    ensures
        r@ == humanized_text(raw@),
{
    let doc = Json::parse_first(trim(raw));
    match doc {
        Some(v) => humanize_parsed(raw, Some(&v)),
        None => humanize_parsed(raw, None),
    }
}

/// The raw error text of an item, wherever it keeps it.
pub open spec fn item_error_text(item: JsonView) -> Seq<char> {
    match first_str(item, seq!["message"@, "text"@, "summary"@, "detail"@]) {
        Some(s) => s,
        None => match item.at("error"@).str_at("message"@) {
            Some(s) => s,
            None => or_text(item.str_at("error"@), "Codex reported an error."@),
        },
    }
}

/// The error text of an item, made readable.
pub fn error_text_from_item(item: &Json) -> (r: String)
    ensures
        r@ == humanized_text(item_error_text(item@)),
{
    let keys = ["message", "text", "summary", "detail"];
    assert(strs_view(keys@) =~= seq!["message"@, "text"@, "summary"@, "detail"@]);
    let text = match find_str(item, keys) {
        Some(s) => s.to_owned(),
        None => match item.str_at2("error", "message") {
            Some(s) => s.to_owned(),
            None => owned_or(item.str_at("error"), "Codex reported an error."),
        },
    };
    humanize_error_text(text.as_str())
}

/// The first of the members `keys` that is a string with something other than
/// white space in it, trimmed.
pub open spec fn first_shown(item: JsonView, keys: Seq<Seq<char>>) -> Option<Seq<char>>
    decreases keys.len(),
{
    if keys.len() == 0 {
        None
    } else {
        match item.str_at(keys[0]) {
            Some(s) => if trimmed(s).len() > 0 {
                Some(trimmed(s))
            } else {
                first_shown(item, keys.drop_first())
            },
            None => first_shown(item, keys.drop_first()),
        }
    }
}

pub open spec fn content_keys() -> Seq<Seq<char>> {
    seq!["text"@, "review"@, "plan"@, "message"@]
}

fn find_shown<const N: usize>(item: &Json, keys: [&str; N]) -> (r: Option<String>)
    ensures
        opt_view(r) == first_shown(item@, strs_view(keys@)),
{
    let mut i: usize = 0;
    assert(strs_view(keys@).skip(0) =~= strs_view(keys@));
    while i < N
        invariant
            i <= N,
            keys@.len() == N,
            first_shown(item@, strs_view(keys@)) == first_shown(
                item@,
                strs_view(keys@).skip(i as int),
            ),
        decreases N - i,
    {
        proof {
            let rest = strs_view(keys@).skip(i as int);
            assert(rest[0] == keys@[i as int]@);
            assert(rest.drop_first() =~= strs_view(keys@).skip(i + 1));
        }
        let k: &str = keys[i];
        match item.str_at(k) {
            Some(s) => {
                let t = trim(s);
                if !t.is_empty() {
                    return Some(t.to_owned());
                }
            },
            None => {},
        }
        i = i + 1;
    }
    None
}

/// Display text of a non-tool content item (/plan, /review): the first non-empty
/// string field it carries.
pub fn codex_content_item_text(item: &Json) -> (r: Option<String>)
    ensures
        opt_view(r) == first_shown(item@, content_keys()),
{
    let keys = ["text", "review", "plan", "message"];
    assert(strs_view(keys@) =~= content_keys());
    find_shown(item, keys)
}

pub open spec fn input_keys() -> Seq<Seq<char>> {
    seq![
        "command"@,
        "cwd"@,
        "changes"@,
        "path"@,
        "server"@,
        "tool"@,
        "arguments"@,
        "invocation"@,
    ]
}

/// The members `keys` of an item that are not null.
pub open spec fn members_of(item: JsonView, keys: Seq<Seq<char>>) -> Map<Seq<char>, JsonView>
    decreases keys.len(),
{
    if keys.len() == 0 {
        map![]
    } else {
        let rest = members_of(item, keys.drop_last());
        let v = item.at(keys.last());
        if v is Null {
            rest
        } else {
            rest.insert(keys.last(), v)
        }
    }
}

fn pick_members<const N: usize>(item: &Json, keys: [&str; N]) -> (r: Json)
    ensures
        r@ == JsonView::Obj(members_of(item@, strs_view(keys@))),
{
    let mut out: Vec<JsonEntry> = Vec::new();
    let mut i: usize = 0;
    let ghost all = strs_view(keys@);
    assert(crate::json::entries_view(out@) =~= members_of(item@, all.take(0)));
    while i < N
        invariant
            i <= N,
            keys@.len() == N,
            all == strs_view(keys@),
            crate::json::entries_view(out@) == members_of(item@, all.take(i as int)),
        decreases N - i,
    {
        proof {
            assert(all.take(i + 1).drop_last() =~= all.take(i as int));
            assert(all.take(i + 1).last() == keys@[i as int]@);
        }
        let k: &str = keys[i];
        match item.get(k) {
            Some(Json::Null) => {},
            Some(v) => {
                let e = JsonEntry { key: k.to_owned(), value: v.copy() };
                assert(out@.push(e).drop_last() =~= out@);
                out.push(e);
            },
            None => {},
        }
        i = i + 1;
    }
    assert(all.take(all.len() as int) =~= all);
    Json::Obj(out)
}

/// The call's descriptive fields for the row's input block; skips status, output
/// and id noise.
pub fn codex_tool_input(item: &Json) -> (r: Json)
    ensures
        r@ == JsonView::Obj(members_of(item@, input_keys())),
{
    let keys = ["command", "cwd", "changes", "path", "server", "tool", "arguments", "invocation"];
    assert(strs_view(keys@) =~= input_keys());
    pick_members(item, keys)
}

/// The path of the first change of an item.
pub open spec fn first_change_path(item: JsonView) -> Option<Seq<char>> {
    match item.at("changes"@) {
        JsonView::Arr(items) => if items.len() > 0 {
            items[0].str_at("path"@)
        } else {
            None
        },
        _ => None,
    }
}

pub open spec fn codex_summary(item: JsonView) -> Seq<char> {
    head(
        match first_str(item, seq!["command"@, "tool"@, "path"@, "name"@]) {
            Some(s) => s,
            None => or_empty(first_change_path(item)),
        },
        MAX_SUMMARY_CHARS as nat,
    )
}

/// A compact, truncated summary for the collapsed tool row.
pub fn codex_tool_summary(item: &Json) -> (r: String)
    ensures
        r@ == codex_summary(item@),
{
    let keys = ["command", "tool", "path", "name"];
    assert(strs_view(keys@) =~= seq!["command"@, "tool"@, "path"@, "name"@]);
    let s = match find_str(item, keys) {
        Some(s) => s.to_owned(),
        None => match item.arr_at("changes") {
            Some(items) => if items.len() > 0 {
                owned_or_empty(items[0].str_at("path"))
            } else {
                String::new()
            },
            None => String::new(),
        },
    };
    take_chars(s.as_str(), MAX_SUMMARY_CHARS)
}

/// The text of a tool result value: a string as it is, the text blocks of a
/// result object, or the value's own JSON.
pub open spec fn result_value_text(v: JsonView) -> Seq<char> {
    match v.as_str() {
        Some(s) => s,
        None => {
            let text = joined(block_texts(arr_or_empty(v.at("content"@))), "\n"@);
            if text.len() > 0 {
                text
            } else {
                json_text(v)
            }
        },
    }
}

fn render_result_value(v: &Json) -> (r: String)
    ensures
        r@ == result_value_text(v@),
{
    match v.as_str() {
        Some(s) => s.to_owned(),
        None => {
            match v.arr_at("content") {
                Some(items) => {
                    let parts = collect_block_texts(items);
                    let text = join(&parts, "\n");
                    if !text.as_str().is_empty() {
                        return text;
                    }
                },
                None => {
                    assert(block_texts(seq![]) =~= seq![]);
                },
            }
            v.print()
        },
    }
}

/// The first of the members `keys` that is there and not null.
pub open spec fn first_value(item: JsonView, keys: Seq<Seq<char>>) -> Option<JsonView>
    decreases keys.len(),
{
    if keys.len() == 0 {
        None
    } else if item.at(keys[0]) is Null {
        first_value(item, keys.drop_first())
    } else {
        Some(item.at(keys[0]))
    }
}

fn find_value<'a, const N: usize>(item: &'a Json, keys: [&str; N]) -> (r: Option<&'a Json>)
    ensures
        match r {
            Some(v) => first_value(item@, strs_view(keys@)) == Some(v@),
            None => first_value(item@, strs_view(keys@)) is None,
        },
{
    let mut i: usize = 0;
    assert(strs_view(keys@).skip(0) =~= strs_view(keys@));
    while i < N
        invariant
            i <= N,
            keys@.len() == N,
            first_value(item@, strs_view(keys@)) == first_value(
                item@,
                strs_view(keys@).skip(i as int),
            ),
        decreases N - i,
    {
        proof {
            let rest = strs_view(keys@).skip(i as int);
            assert(rest[0] == keys@[i as int]@);
            assert(rest.drop_first() =~= strs_view(keys@).skip(i + 1));
        }
        let k: &str = keys[i];
        match item.get(k) {
            Some(Json::Null) => {},
            Some(v) => {
                return Some(v);
            },
            None => {},
        }
        i = i + 1;
    }
    None
}

/// The line for one change: its kind and its path.
pub open spec fn change_line(c: JsonView) -> Option<Seq<char>> {
    match c.str_at("path"@) {
        Some(path) => Some(or_text(c.str_at("kind"@), "change"@) + "  "@ + path),
        None => None,
    }
}

pub open spec fn change_lines(items: Seq<JsonView>) -> Seq<Seq<char>> {
    picked(items, |c: JsonView| change_line(c))
}

fn collect_change_lines(items: &Vec<Json>) -> (r: Vec<String>)
    ensures
        texts_view(r@) == change_lines(items_view(items@)),
{
    let mut out: Vec<String> = Vec::new();
    let mut i: usize = 0;
    let ghost all = items_view(items@);
    let ghost f = |c: JsonView| change_line(c);
    assert(texts_view(out@) =~= picked(all.take(0), f));
    while i < items.len()
        invariant
            i <= items.len(),
            all == items_view(items@),
            f == (|c: JsonView| change_line(c)),
            texts_view(out@) == picked(all.take(i as int), f),
        decreases items.len() - i,
    {
        proof {
            lemma_picked_step(all, i as int, f);
        }
        match items[i].str_at("path") {
            Some(path) => {
                let kind = owned_or(items[i].str_at("kind"), "change");
                let line = cat3(kind.as_str(), "  ", path);
                assert(texts_view(out@.push(line)) =~= texts_view(out@).push(line@));
                out.push(line);
            },
            None => {},
        }
        i = i + 1;
    }
    assert(all.take(all.len() as int) =~= all);
    out
}

pub open spec fn codex_output(item: JsonView) -> Seq<char> {
    match first_str(item, seq!["aggregated_output"@, "unified_diff"@, "diff"@]) {
        Some(s) => s,
        None => match first_value(item, seq!["output"@, "result"@, "error"@]) {
            Some(v) => result_value_text(v),
            None => joined(change_lines(arr_or_empty(item.at("changes"@))), "\n"@),
        },
    }
}

/// Output text for the expanded row: command stdout or tool result, or, for a
/// file change, a `kind  path` line per change.
pub fn codex_item_output(item: &Json) -> (r: String)
    ensures
        r@ == codex_output(item@),
{
    let keys = ["aggregated_output", "unified_diff", "diff"];
    assert(strs_view(keys@) =~= seq!["aggregated_output"@, "unified_diff"@, "diff"@]);
    match find_str(item, keys) {
        Some(s) => {
            return s.to_owned();
        },
        None => {},
    }
    let keys = ["output", "result", "error"];
    assert(strs_view(keys@) =~= seq!["output"@, "result"@, "error"@]);
    match find_value(item, keys) {
        Some(v) => {
            return render_result_value(v);
        },
        None => {},
    }
    match item.arr_at("changes") {
        Some(items) => {
            let lines = collect_change_lines(items);
            join(&lines, "\n")
        },
        None => {
            assert(change_lines(seq![]) =~= seq![]);
            String::new()
        },
    }
}

pub open spec fn failed_status(s: Option<Seq<char>>) -> bool {
    ||| s == Some("failed"@)
    ||| s == Some("error"@)
    ||| s == Some("declined"@)
    ||| s == Some("canceled"@)
    ||| s == Some("cancelled"@)
}

pub open spec fn codex_failed(item: JsonView) -> bool {
    failed_status(item.str_at("status"@)) || match item.at("exit_code"@).as_i64() {
        Some(c) => c != 0,
        None => false,
    }
}

/// Whether a completed codex tool item failed: a failed status, or a non-zero
/// exit code. A declined or canceled approval never ran: not a success.
pub fn codex_item_is_error(item: &Json) -> (r: bool)
    ensures
        r == codex_failed(item@),
{
    let status = item.str_at("status");
    if opt_is(status, "failed") || opt_is(status, "error") || opt_is(status, "declined") || opt_is(
        status,
        "canceled",
    ) || opt_is(status, "cancelled") {
        return true;
    }
    match item.get("exit_code") {
        Some(v) => match v.as_i64() {
            Some(c) => c != 0,
            None => false,
        },
        None => false,
    }
}

pub open spec fn codex_call(item: JsonView) -> ToolCallView {
    ToolCallView {
        id: or_empty(item.str_at("id"@)),
        name: or_text(item.str_at("type"@), "tool"@),
        input: capped_input(JsonView::Obj(members_of(item, input_keys()))),
        summary: codex_summary(item),
        output: None,
        is_error: false,
        collab_threads: seq![],
    }
}

/// The running call of a codex `item.started` tool item; its output comes with
/// the matching `item.completed`.
pub fn codex_tool_call(item: &Json) -> (r: ToolCall)
    ensures
        r@ == codex_call(item@),
{
    let r = ToolCall {
        id: owned_or_empty(item.str_at("id")),
        name: owned_or(item.str_at("type"), "tool"),
        input: cap_input(codex_tool_input(item)),
        summary: codex_tool_summary(item),
        output: None,
        is_error: false,
        collab_threads: Vec::new(),
    };
    assert(r@.collab_threads =~= seq![]);
    r
}

pub open spec fn codex_result(item: JsonView) -> ToolResultView {
    ToolResultView {
        id: or_empty(item.str_at("id"@)),
        output: capped(codex_output(item), output_mark()),
        is_error: codex_failed(item),
        collab_threads: seq![],
    }
}

/// The result of a codex `item.completed` tool item, keyed by item id so that its
/// output is merged into the running row.
pub fn codex_tool_result(item: &Json) -> (r: ToolResultItem)
    ensures
        r@ == codex_result(item@),
{
    let r = ToolResultItem {
        id: owned_or_empty(item.str_at("id")),
        output: cap_output(codex_item_output(item)),
        is_error: codex_item_is_error(item),
        collab_threads: Vec::new(),
    };
    assert(r@.collab_threads =~= seq![]);
    r
}

/// The codex items that are tool calls.
pub open spec fn codex_tool_kind(kind: Option<Seq<char>>) -> bool {
    ||| kind == Some("command_execution"@)
    ||| kind == Some("file_change"@)
    ||| kind == Some("mcp_tool_call"@)
    ||| kind == Some("collab_agent_tool_call"@)
    ||| kind == Some("dynamic_tool_call"@)
}

/// An assistant message of one text, or of none.
pub open spec fn text_message(text: Option<Seq<char>>) -> EventView {
    EventView::Assistant {
        texts: match text {
            Some(t) => seq![t],
            None => seq![],
        },
        tools: seq![],
        uuid: None,
        agent_thread: None,
    }
}

fn make_text_message(text: Option<String>) -> (r: ChatEvent)
    ensures
        r@ == text_message(opt_view(text)),
{
    let ghost shown = opt_view(text);
    let texts = match text {
        Some(t) => vec![t],
        None => Vec::new(),
    };
    assert(texts_view(texts@) =~= (match shown {
        Some(t) => seq![t],
        None => seq![],
    }));
    let tools: Vec<ToolCall> = Vec::new();
    assert(calls_view(tools@) =~= seq![]);
    ChatEvent::Assistant { texts, tools, uuid: None, agent_thread: None }
}

/// The event of a codex item that starts or completes.
pub open spec fn codex_item_event(item: JsonView, completed: bool) -> EventView {
    let kind = item.str_at("type"@);
    if kind == Some("agent_message"@) {
        if completed {
            text_message(item.str_at("text"@))
        } else {
            EventView::Other
        }
    } else if kind == Some("error"@) {
        EventView::TextDelta {
            text: humanized_text(item_error_text(item)),
            item: None,
            agent_thread: None,
        }
    } else if kind == Some("reasoning"@) {
        EventView::Other
    } else if codex_tool_kind(kind) {
        if completed {
            EventView::ToolResults { items: seq![codex_result(item)] }
        } else {
            EventView::Assistant {
                texts: seq![],
                tools: seq![codex_call(item)],
                uuid: None,
                agent_thread: None,
            }
        }
    } else if completed && first_shown(item, content_keys()) is Some {
        text_message(first_shown(item, content_keys()))
    } else {
        EventView::Other
    }
}

fn read_codex_item(item: &Json, completed: bool) -> (r: ChatEvent)
    ensures
        r@ == codex_item_event(item@, completed),
{
    let kind = item.str_at("type");
    if opt_is(kind, "agent_message") {
        if completed {
            make_text_message(owned_opt(item.str_at("text")))
        } else {
            ChatEvent::Other
        }
    } else if opt_is(kind, "error") {
        ChatEvent::TextDelta { text: error_text_from_item(item), item: None, agent_thread: None }
    } else if opt_is(kind, "reasoning") {
        ChatEvent::Other
    } else if opt_is(kind, "command_execution") || opt_is(kind, "file_change") || opt_is(
        kind,
        "mcp_tool_call",
    ) || opt_is(kind, "collab_agent_tool_call") || opt_is(kind, "dynamic_tool_call") {
        if completed {
            let items = vec![codex_tool_result(item)];
            assert(results_view(items@) =~= seq![codex_result(item@)]);
            ChatEvent::ToolResults { items }
        } else {
            let tools = vec![codex_tool_call(item)];
            assert(calls_view(tools@) =~= seq![codex_call(item@)]);
            let texts: Vec<String> = Vec::new();
            assert(texts_view(texts@) =~= seq![]);
            ChatEvent::Assistant { texts, tools, uuid: None, agent_thread: None }
        }
    } else if completed {
        match codex_content_item_text(item) {
            Some(text) => make_text_message(Some(text)),
            None => ChatEvent::Other,
        }
    } else {
        ChatEvent::Other
    }
}

/// The event that a document of the codex dialect stands for.
pub open spec fn codex_event(v: JsonView) -> EventView {
    let kind = v.str_at("type"@);
    if kind == Some("item.started"@) {
        codex_item_event(v.at("item"@), false)
    } else if kind == Some("item.completed"@) {
        codex_item_event(v.at("item"@), true)
    } else if kind == Some("turn.completed"@) {
        EventView::TurnEnd { is_error: false, context_tokens: None }
    } else if kind == Some("turn.failed"@) || kind == Some("error"@) {
        EventView::TurnEnd { is_error: true, context_tokens: None }
    } else {
        EventView::Other
    }
}

/// The codex dialect: one document to one event. The `input_tokens` of a
/// completed turn count the whole session, so they are not reported as context.
pub fn read_codex(v: &Json) -> (r: ChatEvent)
    ensures
        r@ == codex_event(v@),
{
    let kind = v.str_at("type");
    let started = opt_is(kind, "item.started");
    if started || opt_is(kind, "item.completed") {
        match v.get("item") {
            Some(item) => read_codex_item(item, !started),
            None => read_codex_item(&Json::Null, !started),
        }
    } else if opt_is(kind, "turn.completed") {
        ChatEvent::TurnEnd { is_error: false, context_tokens: None }
    } else if opt_is(kind, "turn.failed") || opt_is(kind, "error") {
        ChatEvent::TurnEnd { is_error: true, context_tokens: None }
    } else {
        ChatEvent::Other
    }
}

/// The event that a line of the codex dialect stands for.
pub open spec fn codex_line_event(line: Seq<char>) -> EventView {
    match parsed(line) {
        Some(v) => codex_event(v),
        None => EventView::Other,
    }
}

/// Parse one line of the codex dialect.
pub fn parse_codex(line: &str) -> (r: ChatEvent)
    ensures
        r@ == codex_line_event(line@),
{
    match Json::parse(line) {
        Some(v) => read_codex(&v),
        None => ChatEvent::Other,
    }
}

pub open spec fn opencode_output_spec(state: JsonView) -> Seq<char> {
    capped(
        or_empty(first_str(state, seq!["output"@, "result"@, "stdout"@, "metadata"@])),
        output_mark(),
    )
}

/// Best-effort result text of a finished opencode tool. The field name varies by
/// tool; the row still shows the input when there is none.
pub fn opencode_output(state: &Json) -> (r: String)
    ensures
        r@ == opencode_output_spec(state@),
{
    let keys = ["output", "result", "stdout", "metadata"];
    assert(strs_view(keys@) =~= seq!["output"@, "result"@, "stdout"@, "metadata"@]);
    cap_output(owned_or_empty(find_str(state, keys)))
}

/// The event that a document of the opencode dialect stands for.
pub open spec fn opencode_event(v: JsonView) -> EventView {
    let kind = v.str_at("type"@);
    let part = v.at("part"@);
    if kind == Some("text"@) {
        text_message(part.str_at("text"@))
    } else if kind == Some("tool_use"@) {
        let state = part.at("state"@);
        let status = state.str_at("status"@);
        if status == Some("completed"@) || status == Some("error"@) {
            EventView::Assistant {
                texts: seq![],
                tools: seq![
                    ToolCallView {
                        id: seq![],
                        name: or_text(part.str_at("tool"@), "tool"@),
                        input: capped_input(state.at("input"@)),
                        summary: compact_input_spec(state.at("input"@)),
                        output: Some(opencode_output_spec(state)),
                        is_error: status == Some("error"@),
                        collab_threads: seq![],
                    },
                ],
                uuid: None,
                agent_thread: None,
            }
        } else {
            EventView::Other
        }
    } else {
        EventView::Other
    }
}

/// The opencode dialect: one document to one event. A tool is re-emitted as it
/// progresses, without a stable id, so only its finished frame gives a row.
pub fn read_opencode(v: &Json) -> (r: ChatEvent)
    ensures
        r@ == opencode_event(v@),
{
    let kind = v.str_at("type");
    let null = Json::Null;
    let part = match v.get("part") {
        Some(p) => p,
        None => &null,
    };
    if opt_is(kind, "text") {
        make_text_message(owned_opt(part.str_at("text")))
    } else if opt_is(kind, "tool_use") {
        match part.get("state") {
            Some(state) => {
                let status = state.str_at("status");
                let failed = opt_is(status, "error");
                if opt_is(status, "completed") || failed {
                    let input = copy_at(state, "input");
                    let summary = compact_input(&input);
                    let call = ToolCall {
                        id: String::new(),
                        name: owned_or(part.str_at("tool"), "tool"),
                        input: cap_input(input),
                        summary,
                        output: Some(opencode_output(state)),
                        is_error: failed,
                        collab_threads: Vec::new(),
                    };
                    assert(call@.collab_threads =~= seq![]);
                    assert(call@.id =~= seq![]);
                    let tools = vec![call];
                    assert(calls_view(tools@) =~= seq![call@]);
                    let texts: Vec<String> = Vec::new();
                    assert(texts_view(texts@) =~= seq![]);
                    ChatEvent::Assistant { texts, tools, uuid: None, agent_thread: None }
                } else {
                    ChatEvent::Other
                }
            },
            None => ChatEvent::Other,
        }
    } else {
        ChatEvent::Other
    }
}

/// The event that a line of the opencode dialect stands for.
pub open spec fn opencode_line_event(line: Seq<char>) -> EventView {
    match parsed(line) {
        Some(v) => opencode_event(v),
        None => EventView::Other,
    }
}

/// Parse one line of the opencode dialect.
pub fn parse_opencode(line: &str) -> (r: ChatEvent)
    ensures
        r@ == opencode_line_event(line@),
{
    match Json::parse(line) {
        Some(v) => read_opencode(&v),
        None => ChatEvent::Other,
    }
}

/// The event that a line of the tool's dialect stands for.
pub open spec fn line_event(tool: Seq<char>, line: Seq<char>) -> EventView {
    if tool == "codex"@ {
        codex_line_event(line)
    } else if tool == "opencode"@ {
        opencode_line_event(line)
    } else {
        resident_line_event(line)
    }
}

/// The line is one that the tool's parser can take: in the resident dialect, the
/// token counts of a result add up to a `u64`.
pub open spec fn line_parses(tool: Seq<char>, line: Seq<char>) -> bool {
    tool == "codex"@ || tool == "opencode"@ || line_usage_fits(line)
}

/// Dialect dispatch: per-tool line parser.
pub fn parse_line_for(tool: &str, line: &str) -> (r: ChatEvent)
    requires
        line_parses(tool@, line@),
    ensures
        r@ == line_event(tool@, line@),
{
    if same(tool, "codex") {
        parse_codex(line)
    } else if same(tool, "opencode") {
        parse_opencode(line)
    } else {
        parse_line(line)
    }
}

/// `parse_line_for` on any line: `None` where the token counts of a result do not
/// add up to a `u64`.
pub fn try_parse_line_for(tool: &str, line: &str) -> (r: Option<ChatEvent>)
    ensures
        match r {
            Some(e) => line_parses(tool@, line@) && e@ == line_event(tool@, line@),
            None => !line_parses(tool@, line@),
        },
{
    if same(tool, "codex") || same(tool, "opencode") {
        Some(parse_line_for(tool, line))
    } else {
        try_parse_line(line)
    }
}

/// The native session id that a document of the tool's dialect carries.
pub open spec fn native_id_in(tool: Seq<char>, v: JsonView) -> Option<Seq<char>> {
    if tool == "codex"@ {
        v.str_at("thread_id"@)
    } else if tool == "opencode"@ {
        v.str_at("sessionID"@)
    } else {
        None
    }
}

/// The native session id in one document.
pub fn read_native(tool: &str, v: &Json) -> (r: Option<String>)
    ensures
        opt_view(r) == native_id_in(tool@, v@),
{
    if same(tool, "codex") {
        owned_opt(v.str_at("thread_id"))
    } else if same(tool, "opencode") {
        owned_opt(v.str_at("sessionID"))
    } else {
        None
    }
}

/// Best-effort native session id from a line: the per-turn dialects carry it on
/// their events.
pub fn extract_native(tool: &str, line: &str) -> (r: Option<String>)
    ensures
        opt_view(r) == (match parsed(line@) {
            Some(v) => native_id_in(tool@, v),
            None => None,
        }),
{
    match Json::parse(line) {
        Some(v) => read_native(tool, &v),
        None => None,
    }
}

/// A line that is no JSON document is no event, in every dialect.
pub proof fn law_garbage_is_no_event(tool: Seq<char>, line: Seq<char>)
    requires
        parsed(line) is None,
    ensures
        line_event(tool, line) == EventView::Other,
        line_parses(tool, line),
{
}

/// A document of the resident dialect whose type is none that is known is no event,
/// whatever else it holds.
pub proof fn law_unknown_type_is_no_event(line: Seq<char>, v: JsonView)
    requires
        parsed(line) == Some(v),
        v.str_at("type"@) != Some("system"@),
        v.str_at("type"@) != Some("stream_event"@),
        v.str_at("type"@) != Some("assistant"@),
        v.str_at("type"@) != Some("user"@),
        v.str_at("type"@) != Some("result"@),
        v.str_at("type"@) != Some("control_response"@),
    ensures
        line_usage_fits(line),
        resident_line_event(line) == EventView::Other,
{
}

/// However much a tool writes, what is kept of it stays bounded, and what fits is
/// kept as it is.
pub proof fn law_kept_output_is_bounded(s: Seq<char>)
    ensures
        capped(s, output_mark()).len() <= MAX_TOOL_CHARS + 14,
        s.len() <= MAX_TOOL_CHARS ==> capped(s, output_mark()) == s,
{
    reveal_strlit("\n… (truncated)");
}

} // verus!
