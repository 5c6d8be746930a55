//! What is known of a session, what is asked of a human, and what those promise.

use vstd::prelude::*;

use crate::approval::{
    acp_permission_risk, asks_permissions, cancel_open_acp_asks, change_identity, change_label,
    change_paths, codex_approval_fields, codex_change_approval_summary, event_is_late, file_risk,
    final_verdict, first_line, forget_ask, permission_refused, register_ask, requested_permissions,
    signals_view, structured_codex_exhaustion_snapshot, take_first_line, without_ask,
    ApprovalFields, PermissionIntent, QuotaSnapshot, QuotaStatus, RiskLevel, RiskQuestion,
    SignalView,
};
use crate::engine::EngineInner;
use crate::json::{json_text, str_items, Json, JsonView};
use crate::meta::{
    absorb_probe_meta, apply_persisted_meta, build_args, engine_meta, merge_stored_meta,
    take_probe_ticket, usage_events_authoritative, PersistedMeta, SessionMetaSnapshot,
};
use crate::proto::servers_view;
use crate::text::{joined, opt_view, texts_view};

verus! {

/// What an engine knows of its session is read off it, part by part.
pub proof fn law_meta_is_read_off_the_engine(inner: &EngineInner, r: PersistedMeta)
    requires
        call_ensures(engine_meta, (inner,), r),
    ensures
        r.context_tokens == inner.last_context_tokens,
        r.window == inner.last_window,
        opt_view(r.model) == opt_view(inner.last_model),
        opt_view(r.reasoning_effort) == opt_view(inner.last_reasoning),
        servers_view(r.mcp_servers@) == servers_view(inner.last_mcp_servers@),
        texts_view(r.tools@) == texts_view(inner.last_tools@),
{
    assert(r@.tools == texts_view(r.tools@));
    assert(r@.mcp_servers == servers_view(r.mcp_servers@));
}

/// What was stored comes back as it was: read off one engine and applied to another, the
/// second knows what the first did, and is otherwise as it was. Without anything stored
/// nothing changes.
pub proof fn law_stored_meta_comes_back(
    source: EngineInner,
    kept: PersistedMeta,
    before: EngineInner,
    after: EngineInner,
    untouched: EngineInner,
)
    requires
        call_ensures(engine_meta, (&source,), kept),
        exists|m: &mut EngineInner|
            *m == before && *final(m) == after && #[trigger] call_ensures(
                apply_persisted_meta,
                (m, Some(kept)),
                (),
            ),
        exists|m: &mut EngineInner|
            *m == before && *final(m) == untouched && #[trigger] call_ensures(
                apply_persisted_meta,
                (m, None),
                (),
            ),
    ensures
        after == (EngineInner {
            last_context_tokens: after.last_context_tokens,
            last_window: after.last_window,
            last_model: after.last_model,
            last_reasoning: after.last_reasoning,
            last_mcp_servers: after.last_mcp_servers,
            last_tools: after.last_tools,
            ..before
        }),
        after.last_context_tokens == source.last_context_tokens,
        after.last_window == source.last_window,
        opt_view(after.last_model) == opt_view(source.last_model),
        opt_view(after.last_reasoning) == opt_view(source.last_reasoning),
        servers_view(after.last_mcp_servers@) == servers_view(source.last_mcp_servers@),
        texts_view(after.last_tools@) == texts_view(source.last_tools@),
        after.turn == before.turn && after.native_id == before.native_id && after.tool
            == before.tool,
        untouched == before,
{
    let k = crate::meta::known_of(after);
    let s = crate::meta::known_of(source);
    assert(k.mcp_servers == s.mcp_servers && k.tools == s.tools && k.model == s.model);
}

/// Probes get rising tickets.
pub proof fn law_tickets_rise(
    before: EngineInner,
    first: u64,
    between: EngineInner,
    second: u64,
    after: EngineInner,
)
    requires
        before.probe_seq < u64::MAX && between.probe_seq < u64::MAX,
        exists|m: &mut EngineInner|
            *m == before && *final(m) == between && #[trigger] call_ensures(
                take_probe_ticket,
                (m,),
                first,
            ),
        exists|m: &mut EngineInner|
            *m == between && *final(m) == after && #[trigger] call_ensures(
                take_probe_ticket,
                (m,),
                second,
            ),
    ensures
        first > before.probe_seq && second > first,
        after == (EngineInner { probe_seq: after.probe_seq, ..before }),
{
}

/// A probe that is newer than all absorbed ones replaces what it found; an older one, or
/// one without a ticket, only fills what is not known. What it did not find stays in any
/// case, and so does the usage of a tool whose events tell it.
pub proof fn law_newest_probe_counts(
    before: EngineInner,
    ticket: Option<u64>,
    snap: &SessionMetaSnapshot,
    r: bool,
    after: EngineInner,
)
    requires
        exists|m: &mut EngineInner|
            *m == before && *final(m) == after && #[trigger] call_ensures(
                absorb_probe_meta,
                (m, ticket, snap),
                r,
            ),
    ensures
        after == (EngineInner {
            last_context_tokens: after.last_context_tokens,
            last_window: after.last_window,
            last_model: after.last_model,
            last_reasoning: after.last_reasoning,
            last_mcp_servers: after.last_mcp_servers,
            last_tools: after.last_tools,
            probe_committed: after.probe_committed,
            ..before
        }),
        ({
            let newest = ticket is Some && ticket->0 > before.probe_committed;
            &&& newest ==> after.probe_committed == ticket->0
            &&& !newest ==> after.probe_committed == before.probe_committed
            &&& snap.window is Some && (newest || before.last_window is None)
                ==> after.last_window == snap.window
            &&& snap.window is None || (!newest && before.last_window is Some)
                ==> after.last_window == before.last_window
            &&& snap.model is Some && (newest || before.last_model is None) ==> opt_view(
                after.last_model,
            ) == opt_view(snap.model)
            &&& snap.model is None || (!newest && before.last_model is Some) ==> opt_view(
                after.last_model,
            ) == opt_view(before.last_model)
            &&& snap.mcp_servers is Some && newest ==> servers_view(after.last_mcp_servers@)
                == servers_view(snap.mcp_servers->0@)
            &&& snap.mcp_servers is None || !newest ==> servers_view(after.last_mcp_servers@)
                == servers_view(before.last_mcp_servers@)
            &&& snap.context_tokens is Some && (before.last_context_tokens is None || (newest
                && before.tool@ == "opencode"@)) ==> after.last_context_tokens
                == snap.context_tokens
            &&& snap.context_tokens is None || (before.last_context_tokens is Some && (!newest
                || before.tool@ != "opencode"@)) ==> after.last_context_tokens
                == before.last_context_tokens
            &&& texts_view(after.last_tools@) == texts_view(before.last_tools@)
            &&& opt_view(after.last_reasoning) == opt_view(before.last_reasoning)
            &&& after.turn == before.turn && after.native_id == before.native_id
        }),
{
    let k = crate::meta::known_of(after);
    let b = crate::meta::known_of(before);
    assert(k.mcp_servers == servers_view(after.last_mcp_servers@));
    assert(b.mcp_servers == servers_view(before.last_mcp_servers@));
    assert(k.tools == texts_view(after.last_tools@) && k.tools == b.tools);
    assert(k.model == opt_view(after.last_model) && k.reasoning_effort == b.reasoning_effort);
}

/// The usage of a served tool is probed; that of every other comes with its events.
pub proof fn law_whose_usage_is_probed(tool: &str, r: bool)
    requires
        call_ensures(usage_events_authoritative, (tool,), r),
    ensures
        r == (tool@ != "opencode"@),
{
}

/// A probe of a session that is not live is merged into what is stored, and stored again
/// exactly when it tells something new.
pub proof fn law_probe_is_stored_when_it_tells_something(
    stored: Option<PersistedMeta>,
    tool: &str,
    snap: &SessionMetaSnapshot,
    r: Option<PersistedMeta>,
)
    requires
        call_ensures(merge_stored_meta, (stored, tool, snap), r),
    ensures
        snap.context_tokens is None && snap.window is None && snap.model is None
            && snap.mcp_servers is None ==> r is None,
        r is Some && snap.window is Some ==> r->0.window == snap.window,
        r is Some && snap.model is Some ==> opt_view(r->0.model) == opt_view(snap.model),
        r is Some && snap.mcp_servers is Some ==> servers_view(r->0.mcp_servers@) == servers_view(
            snap.mcp_servers->0@,
        ),
        r is Some && snap.window is None && stored is Some ==> r->0.window == stored->0.window,
        r is Some && snap.model is None && stored is Some ==> opt_view(r->0.model) == opt_view(
            stored->0.model,
        ),
        r is Some && stored is Some ==> texts_view(r->0.tools@) == texts_view(stored->0.tools@)
            && opt_view(r->0.reasoning_effort) == opt_view(stored->0.reasoning_effort),
        r is None && stored is Some && snap.window is Some ==> stored->0.window == snap.window,
        r is None && stored is Some && snap.model is Some ==> opt_view(stored->0.model)
            == opt_view(snap.model),
        stored is None && snap.window is Some ==> r is Some,
{
    if r is Some {
        assert(r->0@.tools == texts_view(r->0.tools@));
        assert(r->0@.mcp_servers == servers_view(r->0.mcp_servers@));
        assert(r->0@.model == opt_view(r->0.model));
    }
    if stored is Some {
        assert(stored->0@.tools == texts_view(stored->0.tools@));
        assert(stored->0@.model == opt_view(stored->0.model));
        assert(stored->0@.window == stored->0.window);
    }
}

/// The program's arguments: the fixed ones; the system prompt if there is one; the session
/// to resume if it is known; then the session's own, at the end.
pub proof fn law_arguments_of_the_resident(inner: &EngineInner, r: Vec<String>)
    requires
        call_ensures(build_args, (inner,), r),
    ensures
        ({
            let args = texts_view(r@);
            let prompt: int = if inner.system_prompt@.len() > 0 {
                2
            } else {
                0
            };
            let resume: int = if inner.native_id is Some {
                2
            } else {
                0
            };
            &&& args.len() == 7 + prompt + resume + inner.extra_args@.len()
            &&& args[0] == "-p"@ && args[1] == "--input-format"@ && args[2] == "stream-json"@
            &&& args[3] == "--output-format"@ && args[4] == "stream-json"@
            &&& args[5] == "--include-partial-messages"@ && args[6] == "--verbose"@
            &&& prompt == 2 ==> args[7] == "--append-system-prompt"@ && args[8]
                == inner.system_prompt@
            &&& resume == 2 ==> args[7 + prompt] == "--resume"@ && args[8 + prompt]
                == inner.native_id->0@
            &&& forall|i: int|
                0 <= i < inner.extra_args@.len() ==> args[7 + prompt + resume + i] == (
                #[trigger] inner.extra_args@[i])@
        }),
{
    assert(texts_view(inner.extra_args@).len() == inner.extra_args@.len());
}

/// Files are judged one by one; without any the caller's own verdict stands.
pub proof fn law_every_file_is_judged(
    tool: &str,
    paths: Vec<String>,
    pathless: RiskLevel,
    r: RiskQuestion,
    i: int,
)
    requires
        call_ensures(file_risk, (tool, &paths, pathless), r),
    ensures
        paths@.len() == 0 ==> r == RiskQuestion::Settled(pathless),
        paths@.len() > 0 ==> r is Worst && r->Worst_0@.len() == paths@.len(),
        0 <= i < paths@.len() ==> r->Worst_0@[i]@ == (SignalView::File {
            tool_name: tool@,
            path: paths@[i]@,
        }),
{
    assert(texts_view(paths@).len() == paths@.len());
    if paths@.len() > 0 {
        let v = signals_view(r->Worst_0@);
        assert(v.len() == r->Worst_0@.len());
        if 0 <= i < paths@.len() {
            assert(v[i] == r->Worst_0@[i]@);
            assert(texts_view(paths@)[i] == paths@[i]@);
        }
    }
}

/// A permission is judged by what it is for: a command by itself, files each by its path,
/// the network as such, and anything else by its kind and details. Reading without a path
/// is unknown; writing without one is writing.
pub proof fn law_permissions_are_judged_by_their_intent(
    intent: PermissionIntent,
    detail: &str,
    r: RiskQuestion,
)
    requires
        call_ensures(acp_permission_risk, (&intent, detail), r),
    ensures
        match intent {
            PermissionIntent::Command(c) => r is Worst && r->Worst_0@.len() == 1
                && r->Worst_0@[0]@ == SignalView::Command(c@),
            PermissionIntent::Network => r is Worst && r->Worst_0@.len() == 1 && r->Worst_0@[0]@
                == SignalView::Network,
            PermissionIntent::Other { kind } => r is Worst && r->Worst_0@.len() == 1
                && r->Worst_0@[0]@ == (SignalView::Other {
                tool_name: kind@,
                args_text: detail@,
            }),
            PermissionIntent::Read { paths } => (paths@.len() == 0 ==> r == RiskQuestion::Settled(
                RiskLevel::Unknown,
            )) && (paths@.len() > 0 ==> r is Worst && r->Worst_0@.len() == paths@.len()
                && r->Worst_0@[0]@ == (SignalView::File {
                tool_name: "Read"@,
                path: paths@[0]@,
            })),
            PermissionIntent::Write { paths } => (paths@.len() == 0 ==> r == RiskQuestion::Settled(
                RiskLevel::Write,
            )) && (paths@.len() > 0 ==> r is Worst && r->Worst_0@.len() == paths@.len()
                && r->Worst_0@[0]@ == (SignalView::File {
                tool_name: "Edit"@,
                path: paths@[0]@,
            })),
        },
{
    match intent {
        PermissionIntent::Read { paths } => {
            assert(texts_view(paths@).len() == paths@.len());
        },
        PermissionIntent::Write { paths } => {
            assert(texts_view(paths@).len() == paths@.len());
        },
        _ => {},
    }
    if r is Worst {
        let v = signals_view(r->Worst_0@);
        assert(v.len() == r->Worst_0@.len());
        if v.len() > 0 {
            assert(v[0] == r->Worst_0@[0]@);
        }
    }
}

/// A request for a command shows its first line, and holds all of it: in the details, in
/// what it is judged by, and in what it is remembered by.
pub proof fn law_command_request_holds_the_whole_command(
    method: &str,
    params: &Json,
    r: ApprovalFields,
)
    requires
        call_ensures(codex_approval_fields, (method, params), r),
        params@.get("networkApprovalContext"@) is None,
        params@.at("item"@).get("networkApprovalContext"@) is None,
        params@.str_at("command"@) is Some,
    ensures
        r.key@[0]@ == "Bash"@,
        r.tool@ == "Bash"@,
        r.detail@ == params@.str_at("command"@)->0,
        r.summary@ == "Run: "@ + first_line(r.detail@),
        r.signal@ == SignalView::Command(r.detail@),
        r.key@.len() == 2 && r.key@[1]@ == r.detail@,
{
    assert(r@.key == texts_view(r.key@));
    assert(texts_view(r.key@).len() == r.key@.len());
    assert(texts_view(r.key@)[1] == r.key@[1]@);
    assert(texts_view(r.key@)[0] == r.key@[0]@);
}

/// A request that names a network context is one for the network, whatever else it
/// names: for the host that it names.
pub proof fn law_network_request_comes_first(
    method: &str,
    params: &Json,
    r: ApprovalFields,
)
    requires
        call_ensures(codex_approval_fields, (method, params), r),
        params@.get("networkApprovalContext"@) is Some,
        !(params@.get("networkApprovalContext"@)->0 is Null),
    ensures
        ({
            let net = params@.get("networkApprovalContext"@)->0;
            &&& net.str_at("host"@) is None && net.str_at("url"@) is Some ==> r.detail@
                == net.str_at("url"@)->0
            &&& net.str_at("host"@) is None && net.str_at("url"@) is None && net.str_at("domain"@)
                is Some ==> r.detail@ == net.str_at("domain"@)->0
            &&& net.str_at("host"@) is None && net.str_at("url"@) is None && net.str_at("domain"@)
                is None ==> r.detail@ == "network"@
        }),
        r.key@.len() == 2 && r.key@[0]@ == r.tool@ && r.key@[1]@ == r.detail@,
        r.tool@ == "Network"@,
        r.signal@ == SignalView::Network,
        params@.get("networkApprovalContext"@)->0.str_at("host"@) is Some ==> r.detail@
            == params@.get("networkApprovalContext"@)->0.str_at("host"@)->0,
        r.summary@ == "network access: "@ + r.detail@,
{
    assert(r@.key == texts_view(r.key@));
    assert(texts_view(r.key@).len() == r.key@.len());
    assert(texts_view(r.key@)[0] == r.key@[0]@ && texts_view(r.key@)[1] == r.key@[1]@);
}

/// A request to change files names them all in what it is judged and remembered by, and
/// the first three in what it shows.
pub proof fn law_change_request_names_all_paths(
    method: &str,
    params: &Json,
    r: ApprovalFields,
    s: (String, String),
)
    requires
        call_ensures(codex_approval_fields, (method, params), r),
        call_ensures(codex_change_approval_summary, (params,), s),
        params@.get("networkApprovalContext"@) is None,
        params@.at("item"@).get("networkApprovalContext"@) is None,
        params@.str_at("command"@) is None,
        params@.at("item"@).str_at("command"@) is None,
        !crate::text::occurs(method@, "commandExecution"@),
        params@.at("changes"@) is Arr,
        params@.at("changes"@)->Arr_0.len() > 0,
    ensures
        r.key@.len() == 2 && r.key@[0]@ == r.tool@ && r.key@[1]@ == r.detail@,
        ({
            let paths = change_paths(params@.at("changes"@)->Arr_0);
            &&& r.tool@ == "Edit"@
            &&& r.summary@ == s.0@ && r.detail@ == s.1@
            &&& paths.len() > 0 ==> r.detail@ == json_text(JsonView::Arr(str_items(paths)))
            &&& paths.len() == 0 ==> r.detail@.len() == 0 && r.summary@ == "apply file changes"@
            &&& 0 < paths.len() <= 3 ==> r.summary@ == "apply file changes: "@ + joined(
                paths,
                ", "@,
            )
            &&& paths.len() > 3 ==> r.summary@ == "apply file changes: "@ + joined(
                paths.subrange(0, 3),
                ", "@,
            ) + (" +"@ + crate::decimal::digits((paths.len() - 3) as nat))
            &&& r.signal@ == (SignalView::File { tool_name: "Edit"@, path: r.detail@ })
        }),
{
    assert(r@.key == texts_view(r.key@));
    assert(texts_view(r.key@).len() == r.key@.len());
    assert(texts_view(r.key@)[0] == r.key@[0]@ && texts_view(r.key@)[1] == r.key@[1]@);
    let paths = change_paths(params@.at("changes"@)->Arr_0);
    if paths.len() > 3 {
        assert(paths.take(3) =~= paths.subrange(0, 3));
    }
}

/// Any other request is for permissions, as they are asked for.
pub proof fn law_other_requests_ask_for_permissions(
    method: &str,
    params: &Json,
    r: ApprovalFields,
    p: Option<&Json>,
)
    requires
        call_ensures(codex_approval_fields, (method, params), r),
        call_ensures(requested_permissions, (params,), p),
        params@.get("networkApprovalContext"@) is None,
        params@.at("item"@).get("networkApprovalContext"@) is None,
        params@.str_at("command"@) is None,
        params@.at("item"@).str_at("command"@) is None,
        !crate::text::occurs(method@, "commandExecution"@),
        !(params@.at("changes"@) is Arr),
        !(params@.at("item"@).at("changes"@) is Arr),
    ensures
        r.key@.len() == 2 && r.key@[0]@ == r.tool@ && r.key@[1]@ == r.detail@,
        r.signal@ == (SignalView::Other { tool_name: "Permission"@, args_text: r.detail@ }),
        r.tool@ == "Permission"@,
        p is Some ==> r.detail@ == json_text(p->0@),
        p is None ==> r.detail@ == "(unspecified)"@,
        r.detail@.len() <= 120 ==> r.summary@ == "permission: "@ + r.detail@,
        r.detail@.len() > 120 ==> r.summary@ == "permission: "@ + r.detail@.subrange(0, 120),
{
    assert(r@.key == texts_view(r.key@));
    assert(texts_view(r.key@).len() == r.key@.len());
    assert(texts_view(r.key@)[0] == r.key@[0]@ && texts_view(r.key@)[1] == r.key@[1]@);
    if r.detail@.len() > 120 {
        assert(r.detail@.take(120) =~= r.detail@.subrange(0, 120));
    }
}

/// The permissions that are asked for stand at the top, in the item, or in the parameters
/// of the request; the first of these that names any counts.
pub proof fn law_where_permissions_are_asked_for(params: &Json, r: Option<&Json>)
    requires
        call_ensures(requested_permissions, (params,), r),
    ensures
        params@.get("permissions"@) is Some && !(params@.get("permissions"@)->0 is Null)
            ==> r is Some && r->0@ == params@.get("permissions"@)->0,
        params@.get("permissions"@) is None && params@.at("item"@).get("permissions"@) is Some
            && !(params@.at("item"@).get("permissions"@)->0 is Null) ==> r is Some && r->0@
            == params@.at("item"@).get("permissions"@)->0,
        params@.get("permissions"@) is None && params@.at("item"@).get("permissions"@) is None
            && params@.at("params"@).get("permissions"@) is None ==> r is None,
        r is Some ==> !(r->0@ is Null),
{
}

/// The paths of a list of changes are those of its first part and then those of the rest;
/// a change without a path has none.
pub proof fn law_paths_come_change_by_change(a: Seq<JsonView>, b: Seq<JsonView>)
    ensures
        change_paths(a + b) == change_paths(a) + change_paths(b),
        a.len() == 0 ==> change_paths(a).len() == 0,
        a.len() == 1 && a[0].str_at("path"@) is Some ==> change_paths(a) == seq![
            a[0].str_at("path"@)->0,
        ],
        a.len() == 1 && a[0].str_at("path"@) is None ==> change_paths(a).len() == 0,
    decreases b.len(),
{
    if b.len() == 0 {
        assert(a + b =~= a);
        assert(change_paths(a) + change_paths(b) =~= change_paths(a));
    } else {
        law_paths_come_change_by_change(a, b.drop_last());
        assert((a + b).drop_last() =~= a + b.drop_last());
        assert((a + b).last() == b.last());
        assert(change_paths(a + b) =~= change_paths(a) + change_paths(b));
    }
    if a.len() == 1 {
        assert(a.drop_last() =~= seq![]);
        assert(a.last() == a[0]);
        reveal_with_fuel(change_paths, 2);
        if a[0].str_at("path"@) is Some {
            assert(change_paths(a) =~= seq![a[0].str_at("path"@)->0]);
        }
    }
}

/// The first line of a text holds no line end, and is where the text begins.
pub proof fn law_first_line_of_a_text(s: &str, r: String)
    requires
        call_ensures(take_first_line, (s,), r),
    ensures
        !r@.contains('\n'),
        r@.len() <= s@.len() && r@ == s@.subrange(0, r@.len() as int),
        !s@.contains('\n') ==> r@ == s@,
        s@.contains('\n') ==> s@[r@.len() as int] == '\n' || (s@[r@.len() as int] == '\r'
            && s@[r@.len() as int + 1] == '\n'),
{
    crate::text_laws::lemma_split(s@, '\n');
    let line = crate::text::before_char(s@, '\n');
    assert(!line.contains('\n'));
    assert(r@ == first_line(s@));
    if r@ != line {
        assert(r@ == line.drop_last());
        assert forall|i: int| 0 <= i < r@.len() implies r@[i] != '\n' by {
            assert(line[i] == r@[i]);
            assert(line.contains(line[i]));
        }
    }
    if s@.contains('\n') {
        let rest = crate::text::after_char(s@, '\n');
        assert(s@ == line + seq!['\n'] + rest);
        assert(s@[line.len() as int] == '\n');
        assert(r@ =~= s@.subrange(0, r@.len() as int));
    } else {
        assert(line == s@);
        assert(r@ =~= s@.subrange(0, r@.len() as int));
    }
}

/// A request for permissions is known by its method.
pub proof fn law_method_asks_for_permissions(method: &str, r: bool, a: Seq<char>, b: Seq<char>)
    requires
        call_ensures(asks_permissions, (method,), r),
    ensures
        method@ == a + "permissions"@ + b ==> r,
        r ==> exists|p: int| crate::text::occurs_at(method@, "permissions"@, p),
{
    let w = "permissions"@;
    if method@ == a + w + b {
        assert(method@.subrange(a.len() as int, (a.len() + w.len()) as int) =~= w);
        assert(crate::text::occurs_at(method@, w, a.len() as int));
    }
}

/// An answer counts exactly while the engine that asked was not stopped, interrupted or
/// reset; a refusal stays a refusal.
pub proof fn law_late_answers_are_refusals(
    inner: &EngineInner,
    allow: bool,
    epoch: u64,
    verdict: bool,
    late: bool,
    refused: bool,
)
    requires
        call_ensures(final_verdict, (inner, allow, epoch), verdict),
        call_ensures(event_is_late, (inner, epoch), late),
        call_ensures(permission_refused, (inner,), refused),
    ensures
        !allow ==> !verdict,
        inner.stopped || inner.interrupting || inner.reset_epoch != epoch ==> !verdict,
        allow && !inner.stopped && !inner.interrupting && inner.reset_epoch == epoch ==> verdict,
        late == (inner.stopped || inner.reset_epoch != epoch),
        refused == (inner.stopped || inner.interrupting),
{
}

proof fn lemma_without(asks: Seq<u64>, ask: u64)
    ensures
        without_ask(asks, ask) == asks.filter(|a: u64| a != ask),
    decreases asks.len(),
{
    reveal(Seq::filter);
    if asks.len() > 0 {
        lemma_without(asks.drop_last(), ask);
    } else {
        assert(asks.filter(|a: u64| a != ask) =~= seq![]);
    }
}

/// A card is registered behind the others exactly while its answer would count; answering
/// it takes it away and leaves the others; cancelling takes all.
pub proof fn law_cards_come_and_go(
    before: EngineInner,
    ask: u64,
    epoch: u64,
    r: bool,
    held: EngineInner,
    left: EngineInner,
    taken: Vec<u64>,
    after: EngineInner,
)
    requires
        exists|m: &mut EngineInner|
            *m == before && *final(m) == held && #[trigger] call_ensures(
                register_ask,
                (m, ask, epoch),
                r,
            ),
        exists|m: &mut EngineInner|
            *m == held && *final(m) == left && #[trigger] call_ensures(forget_ask, (m, ask), ()),
        exists|m: &mut EngineInner|
            *m == held && *final(m) == after && #[trigger] call_ensures(
                cancel_open_acp_asks,
                (m,),
                taken,
            ),
    ensures
        r == !(before.stopped || before.interrupting || before.reset_epoch != epoch),
        r ==> held.acp_pending_asks@ == before.acp_pending_asks@.push(ask),
        !r ==> held.acp_pending_asks@ == before.acp_pending_asks@,
        left.acp_pending_asks@ == held.acp_pending_asks@.filter(|a: u64| a != ask),
        taken@ == held.acp_pending_asks@ && after.acp_pending_asks@.len() == 0,
        left == (EngineInner { acp_pending_asks: left.acp_pending_asks, ..before }),
{
    lemma_without(held.acp_pending_asks@, ask);
}

/// The structured signal of exhaustion is codex's alone; it says that the quota is gone,
/// and keeps what was known of it.
pub proof fn law_exhaustion_keeps_what_was_known(
    tool: &str,
    previous: Option<&QuotaSnapshot>,
    now: i64,
    r: Option<QuotaSnapshot>,
)
    requires
        call_ensures(structured_codex_exhaustion_snapshot, (tool, previous, now), r),
    ensures
        r is Some == (tool@ == "codex"@),
        r is Some ==> r->0.status == QuotaStatus::Exceeded && r->0.observed_at == now
            && r->0.tool@ == "codex"@,
        r is Some && previous is Some ==> r->0.used_percent == previous->0.used_percent
            && r->0.resets_at == previous->0.resets_at && opt_view(r->0.window_label) == opt_view(
            previous->0.window_label,
        ),
        r is Some && previous is None ==> r->0.used_percent is None && r->0.resets_at is None
            && r->0.window_label is None,
{
}

/// A probe is merged into what is known in the same way wherever it is kept, and says
/// whether it told something new.
pub proof fn law_probe_is_merged(
    before: PersistedMeta,
    snap: &SessionMetaSnapshot,
    freshest: bool,
    from_events: bool,
    r: bool,
    after: PersistedMeta,
)
    requires
        exists|m: &mut PersistedMeta|
            *m == before && *final(m) == after && #[trigger] call_ensures(
                PersistedMeta::merge_probe,
                (m, snap, freshest, from_events),
                r,
            ),
    ensures
        r == (after@ != before@),
        snap.window is Some && (freshest || before.window is None) ==> after.window == snap.window,
        snap.window is None || (!freshest && before.window is Some) ==> after.window
            == before.window,
        snap.model is Some && (freshest || before.model is None) ==> opt_view(after.model)
            == opt_view(snap.model),
        snap.model is None || (!freshest && before.model is Some) ==> opt_view(after.model)
            == opt_view(before.model),
        snap.context_tokens is Some && (before.context_tokens is None || (freshest
            && !from_events)) ==> after.context_tokens == snap.context_tokens,
        snap.context_tokens is None || (before.context_tokens is Some && (!freshest
            || from_events)) ==> after.context_tokens == before.context_tokens,
        snap.mcp_servers is Some && freshest ==> servers_view(after.mcp_servers@) == servers_view(
            snap.mcp_servers->0@,
        ),
        snap.mcp_servers is None || !freshest ==> servers_view(after.mcp_servers@) == servers_view(
            before.mcp_servers@,
        ),
        texts_view(after.tools@) == texts_view(before.tools@),
{
    assert(after@.tools == texts_view(after.tools@) && before@.tools == texts_view(before.tools@));
    assert(after@.mcp_servers == servers_view(after.mcp_servers@));
    assert(before@.mcp_servers == servers_view(before.mcp_servers@));
    assert(after@.model == opt_view(after.model) && before@.model == opt_view(before.model));
}

/// A request may name its command, its changes or its network context in its item; what
/// stands at the top counts first. A request to run something that names no command says
/// so.
pub proof fn law_item_of_a_request_counts_second(method: &str, params: &Json, r: ApprovalFields)
    requires
        call_ensures(codex_approval_fields, (method, params), r),
        params@.get("networkApprovalContext"@) is None,
    ensures
        ({
            let item = params@.at("item"@);
            let net = item.get("networkApprovalContext"@);
            let plain = net is None || net->0 is Null;
            &&& net is Some && !(net->0 is Null) ==> r.tool@ == "Network"@
            &&& net is Some && net->0.str_at("host"@) is Some ==> r.detail@ == net->0.str_at(
                "host"@,
            )->0
            &&& net is Some && !(net->0 is Null) && net->0.str_at("host"@) is None && net->0.str_at(
                "url"@,
            ) is Some ==> r.detail@ == net->0.str_at("url"@)->0
            &&& net is Some && !(net->0 is Null) && net->0.str_at("host"@) is None && net->0.str_at(
                "url"@,
            ) is None && net->0.str_at("domain"@) is Some ==> r.detail@ == net->0.str_at(
                "domain"@,
            )->0
            &&& plain && params@.str_at("command"@) is None && item.str_at("command"@) is Some
                ==> r.tool@ == "Bash"@ && r.detail@ == item.str_at("command"@)->0
            &&& plain && params@.str_at("command"@) is None && item.str_at("command"@) is None
                && crate::text::occurs(method@, "commandExecution"@) ==> r.tool@ == "Bash"@
                && r.detail@ == "(command)"@
            &&& plain && params@.str_at("command"@) is None && item.str_at("command"@) is None
                && !crate::text::occurs(method@, "commandExecution"@) && !(params@.at("changes"@)
                is Arr) && item.at("changes"@) is Arr && item.at("changes"@)->Arr_0.len() > 0
                ==> r.tool@ == "Edit"@ && r.summary@ == change_label(
                change_paths(item.at("changes"@)->Arr_0),
            ) && r.detail@ == change_identity(change_paths(item.at("changes"@)->Arr_0))
        }),
{
}

/// What a change is remembered by names every path, and differs where the paths do not
/// print alike.
pub proof fn law_identity_of_a_change(paths: Seq<Seq<char>>)
    ensures
        paths.len() == 0 ==> change_identity(paths).len() == 0,
        paths.len() > 0 ==> change_identity(paths) == json_text(JsonView::Arr(str_items(paths))),
{
}

} // verus!
