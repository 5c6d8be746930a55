//! Requests of an agent that need a human's word: how they are shown, by what they
//! are judged, and when an answer may still go out.

use vstd::prelude::*;

use crate::decimal::unsigned_text;
use crate::engine::EngineInner;
use crate::json::{string_array, Json};
use crate::text::{cat, contains, join, same, split_first, take_chars};

verus! {

/// How dangerous a request is.
#[derive(Debug, PartialEq, Eq, Structural, Clone, Copy)]
pub enum RiskLevel {
    ReadOnly,
    Write,
    NetworkOrCredential,
    Unknown,
}

/// What the risk of a request is to be judged by.
#[derive(Debug, PartialEq)]
pub enum RiskSignal {
    Command(String),
    File { tool_name: String, path: String },
    Network,
    Other { tool_name: String, args_text: String },
}

/// A signal, as plain text.
pub enum SignalView {
    Command(Seq<char>),
    File { tool_name: Seq<char>, path: Seq<char> },
    Network,
    Other { tool_name: Seq<char>, args_text: Seq<char> },
}

impl View for RiskSignal {
    type V = SignalView;

    open spec fn view(&self) -> SignalView {
        match self {
            RiskSignal::Command(c) => SignalView::Command(c@),
            RiskSignal::File { tool_name, path } => SignalView::File {
                tool_name: tool_name@,
                path: path@,
            },
            RiskSignal::Network => SignalView::Network,
            RiskSignal::Other { tool_name, args_text } => SignalView::Other {
                tool_name: tool_name@,
                args_text: args_text@,
            },
        }
    }
}

pub open spec fn signals_view(v: Seq<RiskSignal>) -> Seq<SignalView> {
    v.map_values(|s: RiskSignal| s@)
}

/// How the risk of a request is found.
#[derive(Debug, PartialEq)]
pub enum RiskQuestion {
    /// The request alone settles it.
    Settled(RiskLevel),
    /// The most severe level among those of the signals.
    Worst(Vec<RiskSignal>),
}

/// One signal for each path that a file request names.
pub open spec fn file_signals(tool_name: Seq<char>, paths: Seq<Seq<char>>) -> Seq<SignalView> {
    paths.map_values(|p: Seq<char>| SignalView::File { tool_name, path: p })
}

/// The question is about these signals, or settled where there are none.
pub open spec fn file_question(
    tool_name: Seq<char>,
    paths: Seq<Seq<char>>,
    pathless: RiskLevel,
    r: RiskQuestion,
) -> bool {
    if paths.len() == 0 {
        r == RiskQuestion::Settled(pathless)
    } else {
        r is Worst && signals_view(r->Worst_0@) == file_signals(tool_name, paths)
    }
}

/// The risk of a file request: it is judged by every path it names, and the worst
/// counts. What it is when it names none depends on the verb.
pub fn file_risk(tool_name: &str, paths: &Vec<String>, pathless: RiskLevel) -> (r:
    RiskQuestion)
    ensures
        file_question(tool_name@, crate::text::texts_view(paths@), pathless, r),
{
    if paths.len() == 0 {
        return RiskQuestion::Settled(pathless);
    }
    let mut out: Vec<RiskSignal> = Vec::new();
    let mut i: usize = 0;
    while i < paths.len()
        invariant
            i <= paths@.len(),
            signals_view(out@) == file_signals(
                tool_name@,
                crate::text::texts_view(paths@.take(i as int)),
            ),
        decreases paths@.len() - i,
    {
        let s = RiskSignal::File { tool_name: tool_name.to_owned(), path: paths[i].clone() };
        proof {
            assert(signals_view(out@.push(s)) =~= signals_view(out@).push(s@));
            assert(file_signals(tool_name@, crate::text::texts_view(paths@.take(i + 1)))
                =~= file_signals(
                tool_name@,
                crate::text::texts_view(paths@.take(i as int)),
            ).push(s@));
        }
        out.push(s);
        i = i + 1;
    }
    assert(paths@.take(paths@.len() as int) =~= paths@);
    RiskQuestion::Worst(out)
}

/// What an agent on the connection backend asks to do.
pub enum PermissionIntent {
    Command(String),
    Read { paths: Vec<String> },
    Write { paths: Vec<String> },
    Network,
    Other { kind: String },
}

/// How the risk of such a request is found.
pub open spec fn permission_question(
    intent: PermissionIntent,
    detail: Seq<char>,
    r: RiskQuestion,
) -> bool {
    match intent {
        PermissionIntent::Command(c) => r is Worst && signals_view(r->Worst_0@) == seq![
            SignalView::Command(c@),
        ],
        PermissionIntent::Read { paths } => file_question(
            "Read"@,
            crate::text::texts_view(paths@),
            RiskLevel::Unknown,
            r,
        ),
        PermissionIntent::Write { paths } => file_question(
            "Edit"@,
            crate::text::texts_view(paths@),
            RiskLevel::Write,
            r,
        ),
        PermissionIntent::Network => r is Worst && signals_view(r->Worst_0@) == seq![
            SignalView::Network,
        ],
        PermissionIntent::Other { kind } => r is Worst && signals_view(r->Worst_0@) == seq![
            SignalView::Other { tool_name: kind@, args_text: detail },
        ],
    }
}

fn one_signal(s: RiskSignal) -> (r: RiskQuestion)
    ensures
        r is Worst,
        signals_view(r->Worst_0@) == seq![s@],
{
    let mut v: Vec<RiskSignal> = Vec::new();
    v.push(s);
    assert(signals_view(v@) =~= seq![s@]);
    RiskQuestion::Worst(v)
}

/// How the risk of a permission request is found. A read that names nothing has
/// established nothing; a write that names nothing is still a write.
pub fn acp_permission_risk(intent: &PermissionIntent, detail: &str) -> (r: RiskQuestion)
    ensures
        permission_question(*intent, detail@, r),
{
    match intent {
        PermissionIntent::Command(c) => one_signal(RiskSignal::Command(c.clone())),
        PermissionIntent::Read { paths } => file_risk("Read", paths, RiskLevel::Unknown),
        PermissionIntent::Write { paths } => file_risk("Edit", paths, RiskLevel::Write),
        PermissionIntent::Network => one_signal(RiskSignal::Network),
        PermissionIntent::Other { kind } => one_signal(
            RiskSignal::Other { tool_name: kind.clone(), args_text: detail.to_owned() },
        ),
    }
}

/// A request of the app-server, as a card shows and keys it.
#[derive(Debug, PartialEq)]
pub struct ApprovalFields {
    pub tool: &'static str,
    /// A compact label, possibly shortened.
    pub summary: String,
    /// The full content.
    pub detail: String,
    /// What its risk is judged by.
    pub signal: RiskSignal,
    /// The parts that identify the action exactly; never shown.
    pub key: Vec<String>,
}

/// The fields, as plain text.
pub struct FieldsView {
    pub tool: Seq<char>,
    pub summary: Seq<char>,
    pub detail: Seq<char>,
    pub signal: SignalView,
    pub key: Seq<Seq<char>>,
}

impl View for ApprovalFields {
    type V = FieldsView;

    open spec fn view(&self) -> FieldsView {
        FieldsView {
            tool: self.tool@,
            summary: self.summary@,
            detail: self.detail@,
            signal: self.signal@,
            key: crate::text::texts_view(self.key@),
        }
    }
}

/// A member at the top level, or else under `item`.
pub open spec fn top_or_item(params: crate::json::JsonView, key: Seq<char>) -> Option<
    crate::json::JsonView,
> {
    if params.get(key) is Some {
        params.get(key)
    } else {
        params.at("item"@).get(key)
    }
}

pub open spec fn not_null(v: Option<crate::json::JsonView>) -> Option<crate::json::JsonView> {
    if v == Some(crate::json::JsonView::Null) {
        None
    } else {
        v
    }
}

/// The command that is asked for.
pub open spec fn asked_command(params: crate::json::JsonView) -> Option<Seq<char>> {
    if params.str_at("command"@) is Some {
        params.str_at("command"@)
    } else {
        params.at("item"@).str_at("command"@)
    }
}

/// The file changes that are asked for.
pub open spec fn asked_changes(params: crate::json::JsonView) -> Option<
    Seq<crate::json::JsonView>,
> {
    if params.at("changes"@).as_arr() is Some {
        params.at("changes"@).as_arr()
    } else {
        params.at("item"@).at("changes"@).as_arr()
    }
}

/// The network access that is asked for.
pub open spec fn asked_network(params: crate::json::JsonView) -> Option<crate::json::JsonView> {
    not_null(top_or_item(params, "networkApprovalContext"@))
}

/// The permissions that are asked for.
pub open spec fn asked_permissions(params: crate::json::JsonView) -> Option<
    crate::json::JsonView,
> {
    not_null(
        if top_or_item(params, "permissions"@) is Some {
            top_or_item(params, "permissions"@)
        } else {
            params.at("params"@).get("permissions"@)
        },
    )
}

/// The host that the network access goes to.
pub open spec fn asked_host(net: crate::json::JsonView) -> Seq<char> {
    if net.str_at("host"@) is Some {
        net.str_at("host"@)->0
    } else if net.str_at("url"@) is Some {
        net.str_at("url"@)->0
    } else if net.str_at("domain"@) is Some {
        net.str_at("domain"@)->0
    } else {
        "network"@
    }
}

/// The first line of a text, without its line end.
pub open spec fn first_line(s: Seq<char>) -> Seq<char> {
    let line = crate::text::before_char(s, '\n');
    if line.len() < s.len() && line.len() > 0 && line.last() == '\r' {
        line.drop_last()
    } else {
        line
    }
}

/// The first line of a text, without its line end.
pub fn take_first_line(s: &str) -> (r: String)
    ensures
        r@ == first_line(s@),
{
    let (line, _) = split_first(s, '\n');
    let n: usize = line.unicode_len();
    if n < s.unicode_len() && n > 0 && line.get_char(n - 1) == '\r' {
        let cut = line.substring_char(0, n - 1);
        assert(cut@ =~= line@.drop_last());
        cut.to_owned()
    } else {
        line.to_owned()
    }
}

/// The paths of the changes that name one, in order.
pub open spec fn change_paths(changes: Seq<crate::json::JsonView>) -> Seq<Seq<char>>
    decreases changes.len(),
{
    if changes.len() == 0 {
        seq![]
    } else {
        let rest = change_paths(changes.drop_last());
        match changes.last().str_at("path"@) {
            Some(p) => rest.push(p),
            None => rest,
        }
    }
}

/// The label of a file change: the first three paths and how many more there are.
pub open spec fn change_label(paths: Seq<Seq<char>>) -> Seq<char> {
    if paths.len() == 0 {
        "apply file changes"@
    } else if paths.len() <= 3 {
        "apply file changes: "@ + crate::text::joined(paths, ", "@)
    } else {
        "apply file changes: "@ + crate::text::joined(paths.take(3), ", "@) + (" +"@
            + crate::decimal::digits((paths.len() - 3) as nat))
    }
}

/// Every path of a file change, told apart even where the label shortens them.
pub open spec fn change_identity(paths: Seq<Seq<char>>) -> Seq<char> {
    if paths.len() == 0 {
        seq![]
    } else {
        crate::json::json_text(crate::json::JsonView::Arr(crate::json::str_items(paths)))
    }
}

/// The paths that a request wants to change.
pub open spec fn paths_to_change(params: crate::json::JsonView) -> Seq<Seq<char>> {
    match asked_changes(params) {
        Some(c) => change_paths(c),
        None => seq![],
    }
}

fn changes_of<'a>(params: &'a Json) -> (r: Option<&'a Vec<Json>>)
    ensures
        match r {
            Some(a) => asked_changes(params@) == Some(crate::json::items_view(a@)),
            None => asked_changes(params@) is None,
        },
{
    match params.arr_at("changes") {
        Some(a) => Some(a),
        None => match params.get("item") {
            Some(item) => item.arr_at("changes"),
            None => None,
        },
    }
}

fn collect_paths(changes: &Vec<Json>) -> (r: Vec<String>)
    ensures
        crate::text::texts_view(r@) == change_paths(crate::json::items_view(changes@)),
{
    proof {
        crate::json::lemma_items_view(changes@);
    }
    let ghost all = crate::json::items_view(changes@);
    let mut out: Vec<String> = Vec::new();
    let mut i: usize = 0;
    assert(crate::text::texts_view(out@) =~= change_paths(all.take(0)));
    while i < changes.len()
        invariant
            i <= changes@.len(),
            all == crate::json::items_view(changes@),
            all.len() == changes@.len(),
            crate::text::texts_view(out@) == change_paths(all.take(i as int)),
        decreases changes@.len() - i,
    {
        proof {
            crate::json::lemma_items_view(changes@);
            assert(all.take(i + 1).drop_last() =~= all.take(i as int));
            assert(all.take(i + 1).last() == changes@[i as int]@);
        }
        match changes[i].str_at("path") {
            Some(p) => {
                let p = p.to_owned();
                assert(crate::text::texts_view(out@.push(p)) =~= crate::text::texts_view(
                    out@,
                ).push(p@));
                out.push(p);
            },
            None => {},
        }
        i = i + 1;
    }
    assert(all.take(all.len() as int) =~= all);
    out
}

fn first_three(paths: &Vec<String>) -> (r: Vec<String>)
    requires
        paths@.len() > 3,
    ensures
        crate::text::texts_view(r@) == crate::text::texts_view(paths@).take(3),
{
    let mut out: Vec<String> = Vec::new();
    out.push(paths[0].clone());
    out.push(paths[1].clone());
    out.push(paths[2].clone());
    assert(crate::text::texts_view(out@) =~= crate::text::texts_view(paths@).take(3));
    out
}

/// The label of a file change, and all its paths for the card's detail and key.
pub fn codex_change_approval_summary(params: &Json) -> (r: (String, String))
    ensures
        r.0@ == change_label(paths_to_change(params@)),
        r.1@ == change_identity(paths_to_change(params@)),
{
    let paths: Vec<String> = match changes_of(params) {
        Some(c) => collect_paths(c),
        None => Vec::new(),
    };
    assert(crate::text::texts_view(paths@) =~= paths_to_change(params@));
    if paths.len() == 0 {
        let none = String::new();
        assert(none@ =~= seq![]);
        return ("apply file changes".to_owned(), none);
    }
    let full = string_array(&paths).print();
    if paths.len() <= 3 {
        return (cat("apply file changes: ", join(&paths, ", ").as_str()), full);
    }
    let shown = join(&first_three(&paths), ", ");
    let head = cat("apply file changes: ", shown.as_str());
    let more = unsigned_text((paths.len() - 3) as u64);
    let rest = cat(" +", more.as_str());
    (cat(head.as_str(), rest.as_str()), full)
}

/// A request of the app-server, as a card shows it, is judged by and is keyed by.
/// A network request comes first: it arrives as a command with no command in it.
pub open spec fn approval_spec(method: Seq<char>, params: crate::json::JsonView) -> FieldsView {
    match asked_network(params) {
        Some(net) => {
            let host = asked_host(net);
            FieldsView {
                tool: "Network"@,
                summary: "network access: "@ + host,
                detail: host,
                signal: SignalView::Network,
                key: seq!["Network"@, host],
            }
        },
        None => if crate::text::occurs(method, "commandExecution"@) || asked_command(
            params,
        ) is Some {
            let full = match asked_command(params) {
                Some(c) => c,
                None => "(command)"@,
            };
            FieldsView {
                tool: "Bash"@,
                summary: "Run: "@ + first_line(full),
                detail: full,
                signal: SignalView::Command(full),
                key: seq!["Bash"@, full],
            }
        } else if asked_changes(params) is Some && asked_changes(params)->0.len() > 0 {
            let paths = paths_to_change(params);
            FieldsView {
                tool: "Edit"@,
                summary: change_label(paths),
                detail: change_identity(paths),
                signal: SignalView::File { tool_name: "Edit"@, path: change_identity(paths) },
                key: seq!["Edit"@, change_identity(paths)],
            }
        } else {
            let scope = match asked_permissions(params) {
                Some(p) => crate::json::json_text(p),
                None => "(unspecified)"@,
            };
            FieldsView {
                tool: "Permission"@,
                summary: "permission: "@ + crate::text::head(scope, 120),
                detail: scope,
                signal: SignalView::Other { tool_name: "Permission"@, args_text: scope },
                key: seq!["Permission"@, scope],
            }
        },
    }
}

fn find_member<'a>(params: &'a Json, key: &str) -> (r: Option<&'a Json>)
    ensures
        match r {
            Some(v) => top_or_item(params@, key@) == Some(v@),
            None => top_or_item(params@, key@) is None,
        },
{
    match params.get(key) {
        Some(v) => Some(v),
        None => params.get2("item", key),
    }
}

fn some_value<'a>(v: Option<&'a Json>) -> (r: Option<&'a Json>)
    ensures
        match r {
            Some(x) => v is Some && x@ == v->0@ && x@ != crate::json::JsonView::Null,
            None => v is None || v->0@ == crate::json::JsonView::Null,
        },
{
    match v {
        Some(x) => match x {
            Json::Null => None,
            _ => Some(x),
        },
        None => None,
    }
}

/// The permissions that a request wants, to be handed back if they are granted.
pub fn requested_permissions<'a>(params: &'a Json) -> (r: Option<&'a Json>)
    ensures
        match r {
            Some(v) => asked_permissions(params@) == Some(v@),
            None => asked_permissions(params@) is None,
        },
{
    match find_member(params, "permissions") {
        Some(v) => some_value(Some(v)),
        None => some_value(params.get2("params", "permissions")),
    }
}

fn network_host(net: &Json) -> (r: String)
    ensures
        r@ == asked_host(net@),
{
    match net.str_at("host") {
        Some(h) => h.to_owned(),
        None => match net.str_at("url") {
            Some(u) => u.to_owned(),
            None => match net.str_at("domain") {
                Some(d) => d.to_owned(),
                None => "network".to_owned(),
            },
        },
    }
}

fn key_of(kind: &str, what: &str) -> (r: Vec<String>)
    ensures
        crate::text::texts_view(r@) == seq![kind@, what@],
{
    let mut v: Vec<String> = Vec::new();
    v.push(kind.to_owned());
    v.push(what.to_owned());
    assert(crate::text::texts_view(v@) =~= seq![kind@, what@]);
    v
}

fn command_of<'a>(params: &'a Json) -> (r: Option<&'a str>)
    ensures
        crate::text::opt_str_view(r) == asked_command(params@),
{
    match params.str_at("command") {
        Some(c) => Some(c),
        None => params.str_at2("item", "command"),
    }
}

/// The fields of an approval, computed once, so that every card and every standing
/// grant agree on them.
pub fn codex_approval_fields(method: &str, params: &Json) -> (r: ApprovalFields)
    ensures
        r@ == approval_spec(method@, params@),
{
    match some_value(find_member(params, "networkApprovalContext")) {
        Some(net) => {
            let host = network_host(net);
            return ApprovalFields {
                tool: "Network",
                summary: cat("network access: ", host.as_str()),
                key: key_of("Network", host.as_str()),
                signal: RiskSignal::Network,
                detail: host,
            };
        },
        None => {},
    }
    let cmd = command_of(params);
    if contains(method, "commandExecution") || cmd.is_some() {
        let full = match cmd {
            Some(c) => c,
            None => "(command)",
        };
        return ApprovalFields {
            tool: "Bash",
            summary: cat("Run: ", take_first_line(full).as_str()),
            detail: full.to_owned(),
            signal: RiskSignal::Command(full.to_owned()),
            key: key_of("Bash", full),
        };
    }
    let has_changes = match changes_of(params) {
        Some(c) => {
            proof {
                crate::json::lemma_items_view(c@);
            }
            c.len() > 0
        },
        None => false,
    };
    if has_changes {
        let (summary, full) = codex_change_approval_summary(params);
        return ApprovalFields {
            tool: "Edit",
            summary,
            key: key_of("Edit", full.as_str()),
            signal: RiskSignal::File { tool_name: "Edit".to_owned(), path: full.clone() },
            detail: full,
        };
    }
    let scope = match requested_permissions(params) {
        Some(v) => v.print(),
        None => "(unspecified)".to_owned(),
    };
    ApprovalFields {
        tool: "Permission",
        summary: cat("permission: ", take_chars(scope.as_str(), 120).as_str()),
        key: key_of("Permission", scope.as_str()),
        signal: RiskSignal::Other {
            tool_name: "Permission".to_owned(),
            args_text: scope.clone(),
        },
        detail: scope,
    }
}

/// An approval asks for permissions: its answer hands them back.
pub fn asks_permissions(method: &str) -> (r: bool)
    ensures
        r == crate::text::occurs(method@, "permissions"@),
{
    contains(method, "permissions")
}

/// A turn was torn down, or is about to be, since the route was opened.
pub open spec fn torn_down(inner: EngineInner, start_epoch: u64) -> bool {
    inner.stopped || inner.interrupting || inner.reset_epoch != start_epoch
}

/// Whether an event of the connection backend comes too late to count.
pub fn event_is_late(inner: &EngineInner, start_epoch: u64) -> (r: bool)
    ensures
        r == (inner.stopped || inner.reset_epoch != start_epoch),
{
    inner.stopped || inner.reset_epoch != start_epoch
}

/// Whether a permission request is turned down without asking anyone.
pub fn permission_refused(inner: &EngineInner) -> (r: bool)
    ensures
        r == (inner.stopped || inner.interrupting),
{
    inner.stopped || inner.interrupting
}

/// Keep a card that was just opened, unless a teardown already won: then the card
/// must go, or answering it would leave a standing grant.
pub fn register_ask(inner: &mut EngineInner, ask: u64, start_epoch: u64) -> (r: bool)
    ensures
        r == !torn_down(*old(inner), start_epoch),
        final(inner).acp_pending_asks@ == (if r {
            old(inner).acp_pending_asks@.push(ask)
        } else {
            old(inner).acp_pending_asks@
        }),
        *final(inner) == (EngineInner {
            acp_pending_asks: final(inner).acp_pending_asks,
            ..*old(inner)
        }),
{
    if inner.stopped || inner.interrupting || inner.reset_epoch != start_epoch {
        return false;
    }
    inner.acp_pending_asks.push(ask);
    true
}

/// The cards without one of them.
pub open spec fn without_ask(asks: Seq<u64>, ask: u64) -> Seq<u64>
    decreases asks.len(),
{
    if asks.len() == 0 {
        seq![]
    } else if asks.last() == ask {
        without_ask(asks.drop_last(), ask)
    } else {
        without_ask(asks.drop_last(), ask).push(asks.last())
    }
}

fn drop_ask(asks: &Vec<u64>, ask: u64) -> (r: Vec<u64>)
    ensures
        r@ == without_ask(asks@, ask),
{
    let mut out: Vec<u64> = Vec::new();
    let mut i: usize = 0;
    assert(out@ =~= without_ask(asks@.take(0), ask));
    while i < asks.len()
        invariant
            i <= asks@.len(),
            out@ == without_ask(asks@.take(i as int), ask),
        decreases asks@.len() - i,
    {
        assert(asks@.take(i + 1).drop_last() =~= asks@.take(i as int));
        if asks[i] != ask {
            out.push(asks[i]);
        }
        i = i + 1;
    }
    assert(asks@.take(asks@.len() as int) =~= asks@);
    out
}

/// A card was answered or withdrawn: it is kept no longer.
pub fn forget_ask(inner: &mut EngineInner, ask: u64)
    ensures
        final(inner).acp_pending_asks@ == without_ask(old(inner).acp_pending_asks@, ask),
        *final(inner) == (EngineInner {
            acp_pending_asks: final(inner).acp_pending_asks,
            ..*old(inner)
        }),
{
    let left = drop_ask(&inner.acp_pending_asks, ask);
    inner.acp_pending_asks = left;
}

/// The last word on a permission request, whichever way the verdict came: nothing
/// is allowed once the turn was torn down.
pub fn final_verdict(inner: &EngineInner, allow: bool, start_epoch: u64) -> (r: bool)
    ensures
        r == (allow && !torn_down(*inner, start_epoch)),
{
    allow && !(inner.stopped || inner.interrupting || inner.reset_epoch != start_epoch)
}

/// Take all open cards, so that they can be withdrawn.
pub fn cancel_open_acp_asks(inner: &mut EngineInner) -> (r: Vec<u64>)
    ensures
        r@ == old(inner).acp_pending_asks@,
        final(inner).acp_pending_asks@.len() == 0,
        *final(inner) == (EngineInner {
            acp_pending_asks: final(inner).acp_pending_asks,
            ..*old(inner)
        }),
{
    let mut out: Vec<u64> = Vec::new();
    std::mem::swap(&mut out, &mut inner.acp_pending_asks);
    out
}

/// How close an account is to its limit.
#[derive(Debug, PartialEq, Eq, Structural, Clone, Copy)]
pub enum QuotaStatus {
    Warning,
    Exceeded,
}

/// What is known of an account's quota.
#[derive(Debug)]
pub struct QuotaSnapshot {
    pub tool: String,
    pub status: QuotaStatus,
    pub used_percent: Option<u8>,
    pub resets_at: Option<i64>,
    pub window_label: Option<String>,
    /// Unix seconds.
    pub observed_at: i64,
}

/// The snapshot that a structured exhaustion signal gives. It says only that the
/// limit was hit: what was known of the window stays. Only one tool sends it.
pub fn structured_codex_exhaustion_snapshot(
    tool: &str,
    previous: Option<&QuotaSnapshot>,
    now: i64,
) -> (r: Option<QuotaSnapshot>)
    ensures
        r is Some == (tool@ == "codex"@),
        r is Some ==> {
            &&& r->0.tool@ == "codex"@
            &&& r->0.status == QuotaStatus::Exceeded
            &&& r->0.observed_at == now
            &&& r->0.used_percent == (if previous is Some {
                previous->0.used_percent
            } else {
                None
            })
            &&& r->0.resets_at == (if previous is Some {
                previous->0.resets_at
            } else {
                None
            })
            &&& crate::text::opt_view(r->0.window_label) == (if previous is Some {
                crate::text::opt_view(previous->0.window_label)
            } else {
                None
            })
        },
{
    if !same(tool, "codex") {
        return None;
    }
    match previous {
        Some(p) => Some(
            QuotaSnapshot {
                tool: "codex".to_owned(),
                status: QuotaStatus::Exceeded,
                used_percent: p.used_percent,
                resets_at: p.resets_at,
                window_label: crate::text::opt_clone(&p.window_label),
                observed_at: now,
            },
        ),
        None => Some(
            QuotaSnapshot {
                tool: "codex".to_owned(),
                status: QuotaStatus::Exceeded,
                used_percent: None,
                resets_at: None,
                window_label: None,
                observed_at: now,
            },
        ),
    }
}

/// Two requests with the same key ask for the same thing: as far as the printed
/// form of paths and scopes tells documents apart, nothing else shares a grant.
pub proof fn law_same_key_means_same_detail(
    m1: Seq<char>,
    p1: crate::json::JsonView,
    m2: Seq<char>,
    p2: crate::json::JsonView,
)
    requires
        approval_spec(m1, p1).key == approval_spec(m2, p2).key,
    ensures
        approval_spec(m1, p1).tool == approval_spec(m2, p2).tool,
        approval_spec(m1, p1).detail == approval_spec(m2, p2).detail,
{
    let a = approval_spec(m1, p1);
    let b = approval_spec(m2, p2);
    assert(a.key[0] == b.key[0]);
    assert(a.key[1] == b.key[1]);
}

} // verus!
