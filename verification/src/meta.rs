//! What a session is known to run on: its snapshot across restarts, and the probes
//! that refresh it.

use vstd::prelude::*;

use crate::engine::EngineInner;
use crate::json::{put, Json, JsonEntry, JsonView};
use crate::proto::{McpServer, McpServerView};
use crate::streaming::{copy_names, copy_servers};
use crate::text::{opt_clone, same};

verus! {

/// Snapshot of what is known of a session, kept across restarts of the app, so that
/// the panel does not go blank until the next turn.
#[derive(Debug)]
pub struct PersistedMeta {
    pub context_tokens: Option<u64>,
    pub window: Option<u64>,
    pub model: Option<String>,
    pub reasoning_effort: Option<String>,
    pub mcp_servers: Vec<McpServer>,
    pub tools: Vec<String>,
}

/// The snapshot, as plain values.
#[verifier::ext_equal]
pub struct MetaView {
    pub context_tokens: Option<u64>,
    pub window: Option<u64>,
    pub model: Option<Seq<char>>,
    pub reasoning_effort: Option<Seq<char>>,
    pub mcp_servers: Seq<McpServerView>,
    pub tools: Seq<Seq<char>>,
}

impl View for PersistedMeta {
    type V = MetaView;

    open spec fn view(&self) -> MetaView {
        MetaView {
            context_tokens: self.context_tokens,
            window: self.window,
            model: crate::text::opt_view(self.model),
            reasoning_effort: crate::text::opt_view(self.reasoning_effort),
            mcp_servers: crate::proto::servers_view(self.mcp_servers@),
            tools: crate::text::texts_view(self.tools@),
        }
    }
}

impl Default for PersistedMeta {
    fn default() -> (r: Self)
        ensures
            r@ == nothing_known(),
    {
        let r = PersistedMeta {
            context_tokens: None,
            window: None,
            model: None,
            reasoning_effort: None,
            mcp_servers: Vec::new(),
            tools: Vec::new(),
        };
        assert(r@ =~= nothing_known());
        r
    }
}

/// Nothing is known of the session.
pub open spec fn nothing_known() -> MetaView {
    MetaView {
        context_tokens: None,
        window: None,
        model: None,
        reasoning_effort: None,
        mcp_servers: seq![],
        tools: seq![],
    }
}

/// What an out-of-band probe found. A missing part was not found out.
pub struct SessionMetaSnapshot {
    pub context_tokens: Option<u64>,
    pub window: Option<u64>,
    pub model: Option<String>,
    pub mcp_servers: Option<Vec<McpServer>>,
}

/// Whether a tool's own events report how much context is in use.
pub fn usage_events_authoritative(tool: &str) -> (r: bool)
    ensures
        r == (tool@ != "opencode"@),
{
    !same(tool, "opencode")
}

/// A part after a probe: what the probe found where it may overwrite, else only
/// what fills a hole.
pub open spec fn merged_part<T>(known: Option<T>, found: Option<T>, overwrite: bool) -> Option<T> {
    if found is Some && (overwrite || known is None) {
        found
    } else {
        known
    }
}

/// What a probe found of the servers.
pub open spec fn found_servers(snap: SessionMetaSnapshot) -> Option<Seq<McpServerView>> {
    match snap.mcp_servers {
        Some(v) => Some(crate::proto::servers_view(v@)),
        None => None,
    }
}

/// The snapshot after a probe. Only the freshest result may overwrite; what the
/// events report is overwritten by no probe; a stale result never touches the
/// servers, or it could bring back what was just removed.
pub open spec fn merged(
    m: MetaView,
    snap: SessionMetaSnapshot,
    freshest: bool,
    usage_from_events: bool,
) -> MetaView {
    MetaView {
        context_tokens: merged_part(
            m.context_tokens,
            snap.context_tokens,
            freshest && !usage_from_events,
        ),
        window: merged_part(m.window, snap.window, freshest),
        model: merged_part(m.model, crate::text::opt_view(snap.model), freshest),
        reasoning_effort: m.reasoning_effort,
        mcp_servers: if freshest && found_servers(snap) is Some {
            found_servers(snap)->0
        } else {
            m.mcp_servers
        },
        tools: m.tools,
    }
}

fn merge_number(known: Option<u64>, found: Option<u64>, overwrite: bool) -> (r: (Option<u64>, bool))
    ensures
        r.0 == merged_part(known, found, overwrite),
        r.1 == (r.0 != known),
{
    match found {
        Some(v) => match known {
            Some(k) => if overwrite && k != v {
                (Some(v), true)
            } else {
                (Some(k), false)
            },
            None => (Some(v), true),
        },
        None => (known, false),
    }
}

fn merge_text(known: Option<String>, found: &Option<String>, overwrite: bool) -> (r: (
    Option<String>,
    bool,
))
    ensures
        crate::text::opt_view(r.0) == merged_part(
            crate::text::opt_view(known),
            crate::text::opt_view(*found),
            overwrite,
        ),
        r.1 == (crate::text::opt_view(r.0) != crate::text::opt_view(known)),
{
    match found {
        Some(v) => match known {
            Some(k) => if overwrite && !same(k.as_str(), v.as_str()) {
                (Some(v.clone()), true)
            } else {
                (Some(k), false)
            },
            None => (Some(v.clone()), true),
        },
        None => (known, false),
    }
}

fn same_servers(a: &Vec<McpServer>, b: &Vec<McpServer>) -> (r: bool)
    ensures
        r == (crate::proto::servers_view(a@) == crate::proto::servers_view(b@)),
{
    let ghost av = crate::proto::servers_view(a@);
    let ghost bv = crate::proto::servers_view(b@);
    if a.len() != b.len() {
        assert(av.len() != bv.len());
        return false;
    }
    let mut i: usize = 0;
    while i < a.len()
        invariant
            i <= a@.len(),
            a@.len() == b@.len(),
            av == crate::proto::servers_view(a@),
            bv == crate::proto::servers_view(b@),
            forall|j: int| 0 <= j < i ==> av[j] == bv[j],
        decreases a@.len() - i,
    {
        assert(av[i as int] == a@[i as int]@ && bv[i as int] == b@[i as int]@);
        if !same(a[i].name.as_str(), b[i].name.as_str()) || !same(
            a[i].status.as_str(),
            b[i].status.as_str(),
        ) {
            return false;
        }
        i = i + 1;
    }
    assert(av =~= bv);
    true
}

impl PersistedMeta {
    /// Merge what a probe found. A part it did not find out keeps its value: a
    /// failed probe never blanks anything. Returns whether anything changed.
    pub fn merge_probe(
        &mut self,
        snap: &SessionMetaSnapshot,
        freshest: bool,
        usage_from_events: bool,
    ) -> (r: bool)
        ensures
            final(self)@ == merged(old(self)@, *snap, freshest, usage_from_events),
            r == (final(self)@ != old(self)@),
    {
        let ghost before = self@;
        let model = self.model.take();
        let (model, c1) = merge_text(model, &snap.model, freshest);
        self.model = model;
        let (window, c2) = merge_number(self.window, snap.window, freshest);
        self.window = window;
        let (tokens, c3) = merge_number(
            self.context_tokens,
            snap.context_tokens,
            freshest && !usage_from_events,
        );
        self.context_tokens = tokens;
        let mut c4 = false;
        if freshest {
            match &snap.mcp_servers {
                Some(v) => {
                    if !same_servers(&self.mcp_servers, v) {
                        self.mcp_servers = copy_servers(v);
                        c4 = true;
                    }
                },
                None => {},
            }
        }
        assert(self@ =~= merged(before, *snap, freshest, usage_from_events));
        c1 || c2 || c3 || c4
    }
}

/// What is known of the session an engine runs.
pub open spec fn known_of(inner: EngineInner) -> MetaView {
    MetaView {
        context_tokens: inner.last_context_tokens,
        window: inner.last_window,
        model: crate::text::opt_view(inner.last_model),
        reasoning_effort: crate::text::opt_view(inner.last_reasoning),
        mcp_servers: crate::proto::servers_view(inner.last_mcp_servers@),
        tools: crate::text::texts_view(inner.last_tools@),
    }
}

/// The engine differs in nothing but what is known of its session.
pub open spec fn only_meta_differs(before: EngineInner, after: EngineInner) -> bool {
    after == (EngineInner {
        last_context_tokens: after.last_context_tokens,
        last_window: after.last_window,
        last_model: after.last_model,
        last_reasoning: after.last_reasoning,
        last_mcp_servers: after.last_mcp_servers,
        last_tools: after.last_tools,
        ..before
    })
}

/// The snapshot of an engine.
pub fn engine_meta(inner: &EngineInner) -> (r: PersistedMeta)
    ensures
        r@ == known_of(*inner),
{
    PersistedMeta {
        context_tokens: inner.last_context_tokens,
        window: inner.last_window,
        model: opt_clone(&inner.last_model),
        reasoning_effort: opt_clone(&inner.last_reasoning),
        mcp_servers: copy_servers(&inner.last_mcp_servers),
        tools: copy_names(&inner.last_tools),
    }
}

/// Hand out a ticket to a probe that starts. Tickets order the results: a slow
/// probe that returns late cannot roll a newer one back.
pub fn take_probe_ticket(inner: &mut EngineInner) -> (r: u64)
    requires
        old(inner).probe_seq < u64::MAX,
    ensures
        r == old(inner).probe_seq + 1,
        *final(inner) == (EngineInner { probe_seq: r, ..*old(inner) }),
{
    inner.probe_seq = inner.probe_seq + 1;
    inner.probe_seq
}

/// The result carries the newest ticket so far. One without a ticket started
/// before the engine was there.
pub open spec fn is_freshest(inner: EngineInner, ticket: Option<u64>) -> bool {
    ticket is Some && ticket->0 > inner.probe_committed
}

/// What a probe's result does to the engine.
pub open spec fn probe_absorbed(
    before: EngineInner,
    after: EngineInner,
    ticket: Option<u64>,
    snap: SessionMetaSnapshot,
) -> bool {
    &&& known_of(after) == merged(
        known_of(before),
        snap,
        is_freshest(before, ticket),
        before.tool@ != "opencode"@,
    )
    &&& only_meta_differs(
        (EngineInner {
            probe_committed: if is_freshest(before, ticket) {
                ticket->0
            } else {
                before.probe_committed
            },
            ..before
        }),
        after,
    )
}

fn store_meta(inner: &mut EngineInner, m: PersistedMeta)
    ensures
        known_of(*final(inner)) == m@,
        only_meta_differs(*old(inner), *final(inner)),
        old(inner).wf() ==> final(inner).wf(),
{
    inner.last_context_tokens = m.context_tokens;
    inner.last_window = m.window;
    inner.last_model = m.model;
    inner.last_reasoning = m.reasoning_effort;
    inner.last_mcp_servers = m.mcp_servers;
    inner.last_tools = m.tools;
}

/// Fold a probe's result into what the engine knows. true = something changed and
/// is to be persisted. A slow probe that returns after a newer one only fills
/// holes.
pub fn absorb_probe_meta(
    inner: &mut EngineInner,
    ticket: Option<u64>,
    snap: &SessionMetaSnapshot,
) -> (r: bool)
    ensures
        probe_absorbed(*old(inner), *final(inner), ticket, *snap),
        r == (known_of(*final(inner)) != known_of(*old(inner))),
{
    let newest: Option<u64> = match ticket {
        Some(t) => if t > inner.probe_committed {
            Some(t)
        } else {
            None
        },
        None => None,
    };
    let usage_from_events = usage_events_authoritative(inner.tool.as_str());
    let mut m = engine_meta(inner);
    let changed = m.merge_probe(snap, newest.is_some(), usage_from_events);
    inner.probe_committed = match newest {
        Some(t) => t,
        None => inner.probe_committed,
    };
    store_meta(inner, m);
    changed
}

/// A stored snapshot went into the engine; one that could not be read changed
/// nothing.
pub open spec fn meta_restored(
    before: EngineInner,
    after: EngineInner,
    stored: Option<PersistedMeta>,
) -> bool {
    match stored {
        Some(m) => known_of(after) == m@ && only_meta_differs(before, after),
        None => after == before,
    }
}

/// Restore a stored snapshot into a freshly built engine. `None` stands for one that
/// is empty or broken: it changes nothing.
pub fn apply_persisted_meta(inner: &mut EngineInner, stored: Option<PersistedMeta>)
    ensures
        meta_restored(*old(inner), *final(inner), stored),
        old(inner).wf() ==> final(inner).wf(),
{
    match stored {
        Some(m) => {
            store_meta(inner, m);
        },
        None => {},
    }
}

/// What is stored of a session, or nothing where that cannot be read.
pub open spec fn stored_or_nothing(stored: Option<PersistedMeta>) -> MetaView {
    match stored {
        Some(m) => m@,
        None => nothing_known(),
    }
}

/// Fold a probe's result into the stored snapshot of a session that no engine runs.
/// Nothing can have overtaken it, so it may overwrite. Returns the new snapshot to
/// store, if anything changed.
pub fn merge_stored_meta(
    stored: Option<PersistedMeta>,
    tool: &str,
    snap: &SessionMetaSnapshot,
) -> (r: Option<PersistedMeta>)
    ensures
        ({
            let known = stored_or_nothing(stored);
            let now = merged(known, *snap, true, tool@ != "opencode"@);
            &&& r is Some == (now != known)
            &&& r is Some ==> r->0@ == now
        }),
{
    let mut m = match stored {
        Some(m) => m,
        None => PersistedMeta::default(),
    };
    if m.merge_probe(snap, true, usage_events_authoritative(tool)) {
        Some(m)
    } else {
        None
    }
}

pub open spec fn number_tree(n: Option<u64>) -> JsonView {
    match n {
        Some(n) => JsonView::Int(n as int),
        None => JsonView::Null,
    }
}

pub open spec fn text_tree(s: Option<Seq<char>>) -> JsonView {
    match s {
        Some(s) => JsonView::Str(s),
        None => JsonView::Null,
    }
}

pub open spec fn server_tree(s: McpServerView) -> JsonView {
    JsonView::Obj(
        map!["name"@ => JsonView::Str(s.name), "status"@ => JsonView::Str(s.status)],
    )
}

pub open spec fn servers_tree(v: Seq<McpServerView>) -> JsonView {
    JsonView::Arr(v.map_values(|s: McpServerView| server_tree(s)))
}

pub(crate) fn number_doc(n: Option<u64>) -> (r: Json)
    ensures
        r@ == number_tree(n),
{
    match n {
        Some(n) => Json::Uint(n),
        None => Json::Null,
    }
}

pub(crate) fn text_doc(s: &Option<String>) -> (r: Json)
    ensures
        r@ == text_tree(crate::text::opt_view(*s)),
{
    match s {
        Some(s) => Json::Str(s.clone()),
        None => Json::Null,
    }
}

fn server_doc(s: &McpServer) -> (r: Json)
    ensures
        r@ == server_tree(s@),
{
    let mut m: Vec<JsonEntry> = Vec::new();
    put(&mut m, "name", Json::Str(s.name.clone()));
    put(&mut m, "status", Json::Str(s.status.clone()));
    let r = Json::Obj(m);
    assert(crate::json::entries_view(m@) =~= map![
        "name"@ => JsonView::Str(s@.name), "status"@ => JsonView::Str(s@.status)
    ]);
    r
}

pub(crate) fn servers_doc(v: &Vec<McpServer>) -> (r: Json)
    ensures
        r@ == servers_tree(crate::proto::servers_view(v@)),
{
    let ghost all = crate::proto::servers_view(v@);
    let ghost f = |s: McpServerView| server_tree(s);
    let mut out: Vec<Json> = Vec::new();
    let mut i: usize = 0;
    assert(crate::json::items_view(out@) =~= all.take(0).map_values(f));
    while i < v.len()
        invariant
            i <= v@.len(),
            all == crate::proto::servers_view(v@),
            f == (|s: McpServerView| server_tree(s)),
            crate::json::items_view(out@) == all.take(i as int).map_values(f),
        decreases v@.len() - i,
    {
        let d = server_doc(&v[i]);
        proof {
            assert(out@.push(d).drop_last() =~= out@);
            assert(all[i as int] == v@[i as int]@);
            assert(all.take(i + 1).map_values(f) =~= all.take(i as int).map_values(f).push(d@));
        }
        out.push(d);
        i = i + 1;
    }
    assert(all.take(all.len() as int) =~= all);
    Json::Arr(out)
}

/// What was kept of one engine's session is what another one is restored to: every
/// part, and nothing else of it.
pub proof fn law_meta_reads_back(
    source: EngineInner,
    kept: PersistedMeta,
    before: EngineInner,
    after: EngineInner,
)
    requires
        kept@ == known_of(source),
        meta_restored(before, after, Some(kept)),
    ensures
        known_of(after) == known_of(source),
        only_meta_differs(before, after),
{
}

/// A probe that found nothing out changes nothing.
pub proof fn law_failed_probe_blanks_nothing(
    m: MetaView,
    snap: SessionMetaSnapshot,
    freshest: bool,
    usage_from_events: bool,
)
    requires
        snap.context_tokens is None && snap.window is None && snap.model is None
            && snap.mcp_servers is None,
    ensures
        merged(m, snap, freshest, usage_from_events) == m,
{
    assert(merged(m, snap, freshest, usage_from_events) =~= m);
}

/// A stale probe takes back nothing that is known: it only fills holes, and it
/// leaves the servers alone.
pub proof fn law_stale_probe_only_fills(
    m: MetaView,
    snap: SessionMetaSnapshot,
    usage_from_events: bool,
)
    ensures
        ({
            let r = merged(m, snap, false, usage_from_events);
            &&& m.context_tokens is Some ==> r.context_tokens == m.context_tokens
            &&& m.window is Some ==> r.window == m.window
            &&& m.model is Some ==> r.model == m.model
            &&& r.mcp_servers == m.mcp_servers
        }),
{
}

/// Of two results that both carry a ticket, the later one to arrive overwrites
/// only if its ticket is the newer one.
pub proof fn law_older_ticket_is_stale(
    before: EngineInner,
    after: EngineInner,
    first: u64,
    second: u64,
    snap: SessionMetaSnapshot,
)
    requires
        probe_absorbed(before, after, Some(first), snap),
        second <= first,
    ensures
        !is_freshest(after, Some(second)),
{
}

/// The arguments of the resident process, in order.
pub open spec fn resident_args(inner: EngineInner) -> Seq<Seq<char>> {
    let fixed = seq![
        "-p"@,
        "--input-format"@,
        "stream-json"@,
        "--output-format"@,
        "stream-json"@,
        "--include-partial-messages"@,
        "--verbose"@,
    ];
    let prompt = if inner.system_prompt@.len() == 0 {
        seq![]
    } else {
        seq!["--append-system-prompt"@, inner.system_prompt@]
    };
    let resume = match inner.native_id {
        Some(id) => seq!["--resume"@, id@],
        None => seq![],
    };
    fixed + prompt + resume + crate::text::texts_view(inner.extra_args@)
}

fn add_arg(args: &mut Vec<String>, arg: &str)
    ensures
        crate::text::texts_view(final(args)@) == crate::text::texts_view(old(args)@).push(arg@),
{
    let ghost before = args@;
    args.push(arg.to_owned());
    assert(crate::text::texts_view(args@) =~= crate::text::texts_view(before).push(arg@));
}

/// The arguments of the resident process.
pub fn build_args(inner: &EngineInner) -> (r: Vec<String>)
    ensures
        crate::text::texts_view(r@) == resident_args(*inner),
{
    let mut a: Vec<String> = Vec::new();
    add_arg(&mut a, "-p");
    add_arg(&mut a, "--input-format");
    add_arg(&mut a, "stream-json");
    add_arg(&mut a, "--output-format");
    add_arg(&mut a, "stream-json");
    add_arg(&mut a, "--include-partial-messages");
    add_arg(&mut a, "--verbose");
    if !inner.system_prompt.as_str().is_empty() {
        add_arg(&mut a, "--append-system-prompt");
        add_arg(&mut a, inner.system_prompt.as_str());
    }
    match &inner.native_id {
        Some(id) => {
            add_arg(&mut a, "--resume");
            add_arg(&mut a, id.as_str());
        },
        None => {},
    }
    let ghost head = crate::text::texts_view(a@);
    let mut i: usize = 0;
    while i < inner.extra_args.len()
        invariant
            i <= inner.extra_args@.len(),
            crate::text::texts_view(a@) == head + crate::text::texts_view(
                inner.extra_args@.take(i as int),
            ),
        decreases inner.extra_args@.len() - i,
    {
        add_arg(&mut a, inner.extra_args[i].as_str());
        assert(crate::text::texts_view(inner.extra_args@.take(i + 1))
            =~= crate::text::texts_view(inner.extra_args@.take(i as int)).push(
            inner.extra_args@[i as int]@,
        ));
        i = i + 1;
    }
    assert(inner.extra_args@.take(inner.extra_args@.len() as int) =~= inner.extra_args@);
    assert(crate::text::texts_view(a@) =~= resident_args(*inner));
    a
}

} // verus!
