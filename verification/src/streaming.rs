//! Streamed text and tool activity of the in-flight turn.

use vstd::prelude::*;

use crate::delivery::{hidden_delivery_id_from_tag, tagged_delivery};
use crate::engine::{hidden_marker, EngineInner, OpenTextRow, TextRow, STREAM_THROTTLE_MS};
use crate::json::json_text;
use crate::keyed::Keyed;
use crate::proto::{
    cmds_view, extract_native, native_id_in, servers_view, McpServer, McpServerView, SlashCmd,
    SlashCmdView,
};
use crate::rows::{is_anonymous_slot_duplicate, slot_repeats, text_row_content, text_row_tree};
use crate::text::{
    cat, opt_clone, opt_is, opt_ref, opt_str_view, opt_view, same, texts_view, trim, trimmed,
};
use crate::turn::Outgoing;

verus! {

/// The row that opens the next turn: the queued row of a visible message, the
/// negated id of a hidden delivery, nothing otherwise.
pub open spec fn opening_row(next: Option<Outgoing>) -> Option<i32> {
    match next {
        Some(n) => match n.queue_id {
            Some(id) => Some(id),
            None => hidden_marker(tagged_delivery(opt_view(n.origin_tag))),
        },
        None => None,
    }
}

/// The reply target of the next turn. The tag of a hidden delivery is none.
pub open spec fn reply_target(next: Option<Outgoing>) -> Option<Seq<char>> {
    match next {
        Some(n) => if tagged_delivery(opt_view(n.origin_tag)) is Some {
            None
        } else {
            opt_view(n.origin_tag)
        },
        None => None,
    }
}

/// The bookkeeping follows the turn that starts now.
pub open spec fn dequeued(before: EngineInner, after: EngineInner, next: Option<Outgoing>) -> bool {
    &&& opt_view(after.current_origin_tag) == reply_target(next)
    &&& after == (EngineInner {
        turn_user_row: opening_row(next),
        current_origin_tag: after.current_origin_tag,
        ..before
    })
}

/// Where the bookkeeping of the next turn points: its opening row and its reply
/// target.
pub fn dequeue_target(next: &Option<Outgoing>) -> (r: (Option<i32>, Option<String>))
    ensures
        r.0 == opening_row(*next),
        opt_view(r.1) == reply_target(*next),
{
    match next {
        Some(n) => {
            let delivery = hidden_delivery_id_from_tag(opt_ref(&n.origin_tag));
            let row = match n.queue_id {
                Some(id) => Some(id),
                None => match delivery {
                    Some(id) => Some(-id),
                    None => None,
                },
            };
            let tag = if delivery.is_none() {
                opt_clone(&n.origin_tag)
            } else {
                None
            };
            (row, tag)
        },
        None => (None, None),
    }
}

/// Retarget the bookkeeping to whatever the end of a turn has dequeued; an idle
/// engine points at no row. Receipts in flight are kept elsewhere and survive.
pub fn advance_dequeued_turn(inner: &mut EngineInner, next: &Option<Outgoing>)
    ensures
        dequeued(*old(inner), *final(inner), *next),
{
    let (row, tag) = dequeue_target(next);
    inner.turn_user_row = row;
    inner.current_origin_tag = tag;
}

/// The native id that a line reveals, while none is known.
pub open spec fn native_learned(inner: EngineInner, line: Seq<char>) -> Option<Seq<char>> {
    if inner.native_id is Some {
        None
    } else {
        match crate::json::parsed(line) {
            Some(v) => native_id_in(inner.tool@, v),
            None => None,
        }
    }
}

/// Learn the native session id from a line, if it is not known yet.
pub fn learn_native(inner: &mut EngineInner, line: &str) -> (r: Option<String>)
    ensures
        opt_view(r) == native_learned(*old(inner), line@),
        *final(inner) == (EngineInner { native_id: final(inner).native_id, ..*old(inner) }),
        opt_view(final(inner).native_id) == (if r is Some {
            opt_view(r)
        } else {
            opt_view(old(inner).native_id)
        }),
{
    if inner.native_id.is_some() {
        return None;
    }
    match extract_native(inner.tool.as_str(), line) {
        Some(id) => {
            inner.native_id = Some(id.clone());
            Some(id)
        },
        None => None,
    }
}

/// A structured exhaustion signal counts only against the turn that is running.
pub fn note_quota_exceeded(inner: &mut EngineInner) -> (r: bool)
    ensures
        r == old(inner).turn.busy,
        *final(inner) == (EngineInner { turn: final(inner).turn, ..*old(inner) }),
        final(inner).turn.quota_exceeded == (old(inner).turn.busy
            || old(inner).turn.quota_exceeded),
        final(inner).turn.busy == old(inner).turn.busy,
        final(inner).turn.queue == old(inner).turn.queue,
        final(inner).turn.bus_read_pos == old(inner).turn.bus_read_pos,
{
    if inner.turn.busy {
        inner.turn.quota_exceeded = true;
        true
    } else {
        false
    }
}

/// Whether a text that arrives must first open a row: each item has its own, the
/// others share the anonymous one.
pub open spec fn opens_row(inner: EngineInner, item: Option<Seq<char>>) -> bool {
    match item {
        Some(k) => !inner.open_texts@.dom().contains(k),
        None => inner.current is None,
    }
}

/// Whether a text that arrives must first open a row.
pub fn delta_opens_row(inner: &EngineInner, item: Option<&str>) -> (r: bool)
    ensures
        r == opens_row(*inner, opt_str_view(item)),
{
    match item {
        Some(k) => !inner.open_texts.contains_key(k),
        None => inner.current.is_none(),
    }
}

/// The content with which a text row enters the timeline: empty, under its tag if
/// it belongs to a sub-agent. The anonymous row never does.
pub fn opening_content(item: Option<&str>, branch: Option<&str>) -> (r: String)
    ensures
        r@ == json_text(
            text_row_tree(
                seq![],
                if item is Some {
                    opt_str_view(branch)
                } else {
                    None
                },
            ),
        ),
{
    let tag = if item.is_some() {
        branch
    } else {
        None
    };
    let r = text_row_content("", tag);
    proof {
        reveal_strlit("");
        assert(""@ =~= seq![]);
    }
    r
}

/// The snapshot is due.
pub open spec fn flush_due(last_flush: u64, now: u64) -> bool {
    now - last_flush >= STREAM_THROTTLE_MS
}

fn is_flush_due(last_flush: u64, now: u64) -> (r: bool)
    ensures
        r == flush_due(last_flush, now),
{
    now >= last_flush && now - last_flush >= STREAM_THROTTLE_MS
}

/// A text was appended to a row.
pub struct DeltaStep {
    pub row: i32,
    /// The snapshot to write, when one is due.
    pub snapshot: Option<Snapshot>,
}

/// What stands in a row at one moment of its stream.
pub struct Snapshot {
    pub content: String,
    pub text: String,
}

/// What appending to a row reports.
pub open spec fn delta_reported(
    r: DeltaStep,
    row: i32,
    buf: Seq<char>,
    last_flush: u64,
    tag: Option<Seq<char>>,
    now: u64,
) -> bool {
    &&& r.row == row
    &&& r.snapshot is Some == flush_due(last_flush, now)
    &&& r.snapshot is Some ==> r.snapshot->0.text@ == buf && r.snapshot->0.content@ == json_text(
        text_row_tree(buf, tag),
    )
}

fn append_to_item(
    rows: &mut Keyed<OpenTextRow>,
    item: &str,
    text: &str,
    now: u64,
) -> (r: Option<DeltaStep>)
    requires
        old(rows).wf(),
    ensures
        final(rows).wf(),
        r is Some == old(rows)@.dom().contains(item@),
        r is None ==> final(rows)@ == old(rows)@,
        r is Some ==> item_appended(old(rows)@, final(rows)@, item@, text@, now, r->0),
{
    match rows.remove(item) {
        Some(entry) => {
            let mut e = entry;
            e.buf.append(text);
            let due = is_flush_due(e.last_flush, now);
            let snapshot = if due {
                e.last_flush = now;
                Some(
                    Snapshot {
                        content: text_row_content(e.buf.as_str(), opt_ref(&e.agent_thread)),
                        text: e.buf.clone(),
                    },
                )
            } else {
                None
            };
            let row: i32 = e.row;
            rows.insert(item.to_owned(), e);
            proof {
                assert(rows@.dom() =~= old(rows)@.dom());
                assert(rows@.remove(item@) =~= old(rows)@.remove(item@));
            }
            Some(DeltaStep { row, snapshot })
        },
        None => {
            assert(rows@ =~= old(rows)@);
            None
        },
    }
}

/// Append a text to the row of an item. `None` = the item has no row.
pub fn append_item_delta(inner: &mut EngineInner, item: &str, text: &str, now: u64) -> (r: Option<
    DeltaStep,
>)
    requires
        old(inner).wf(),
    ensures
        final(inner).wf(),
        *final(inner) == (EngineInner { open_texts: final(inner).open_texts, ..*old(inner) }),
        r is Some == old(inner).open_texts@.dom().contains(item@),
        r is None ==> final(inner).open_texts@ == old(inner).open_texts@,
        r is Some ==> item_appended(
            old(inner).open_texts@,
            final(inner).open_texts@,
            item@,
            text@,
            now,
            r->0,
        ),
{
    append_to_item(&mut inner.open_texts, item, text, now)
}

/// The item's row has the text at its end; every other row is as it was.
pub open spec fn item_appended(
    before: Map<Seq<char>, OpenTextRow>,
    after: Map<Seq<char>, OpenTextRow>,
    item: Seq<char>,
    text: Seq<char>,
    now: u64,
    r: DeltaStep,
) -> bool {
    &&& after.dom() == before.dom()
    &&& after.remove(item) == before.remove(item)
    &&& after[item].row == before[item].row
    &&& after[item].buf@ == before[item].buf@ + text
    &&& after[item].agent_thread == before[item].agent_thread
    &&& after[item].last_flush == (if flush_due(before[item].last_flush, now) {
        now
    } else {
        before[item].last_flush
    })
    &&& delta_reported(
        r,
        before[item].row,
        before[item].buf@ + text,
        before[item].last_flush,
        opt_view(before[item].agent_thread),
        now,
    )
}

/// The anonymous row has the text at its end.
pub open spec fn slot_appended(
    before: TextRow,
    after: Option<TextRow>,
    text: Seq<char>,
    now: u64,
    r: DeltaStep,
) -> bool {
    &&& after is Some
    &&& after->0.row == before.row
    &&& after->0.buf@ == before.buf@ + text
    &&& after->0.last_flush == (if flush_due(before.last_flush, now) {
        now
    } else {
        before.last_flush
    })
    &&& delta_reported(r, before.row, before.buf@ + text, before.last_flush, None, now)
}

fn append_to_slot(slot: &mut Option<TextRow>, text: &str, dedupe: bool, now: u64) -> (r: Option<
    DeltaStep,
>)
    ensures
        r is Some == (*old(slot) is Some && !(dedupe && slot_repeats((*old(slot))->0.buf@, text@))),
        r is None ==> *final(slot) == *old(slot),
        r is Some ==> slot_appended((*old(slot))->0, *final(slot), text@, now, r->0),
{
    match slot.take() {
        Some(row) => {
            if dedupe && is_anonymous_slot_duplicate(row.buf.as_str(), text) {
                *slot = Some(row);
                return None;
            }
            let mut c = row;
            c.buf.append(text);
            let due = is_flush_due(c.last_flush, now);
            let snapshot = if due {
                c.last_flush = now;
                Some(
                    Snapshot {
                        content: text_row_content(c.buf.as_str(), None),
                        text: c.buf.clone(),
                    },
                )
            } else {
                None
            };
            let id: i32 = c.row;
            *slot = Some(c);
            Some(DeltaStep { row: id, snapshot })
        },
        None => None,
    }
}

/// Append a text to the anonymous row. `None` = there is no such row, or, where
/// `dedupe` asks for it, the text only repeats what stands at the row's end.
pub fn append_slot_delta(inner: &mut EngineInner, text: &str, dedupe: bool, now: u64) -> (r: Option<
    DeltaStep,
>)
    ensures
        *final(inner) == (EngineInner { current: final(inner).current, ..*old(inner) }),
        r is Some == (old(inner).current is Some && !(dedupe && slot_repeats(
            old(inner).current->0.buf@,
            text@,
        ))),
        r is None ==> final(inner).current == old(inner).current,
        r is Some ==> slot_appended(old(inner).current->0, final(inner).current, text@, now, r->0),
{
    append_to_slot(&mut inner.current, text, dedupe, now)
}

/// How a finished text is to be landed.
pub enum TextLanding {
    /// Close the row that streamed, with this body.
    Close { row: i32, body: String, replaced: bool, agent_thread: Option<String> },
    /// Nothing streamed: insert a row for this body and close it at once.
    Standalone { body: String, agent_thread: Option<String> },
    Nothing,
}

/// What becomes of a finished text.
pub open spec fn text_landed(
    before: Map<Seq<char>, OpenTextRow>,
    after: Map<Seq<char>, OpenTextRow>,
    item: Option<Seq<char>>,
    text: Option<Seq<char>>,
    branch: Option<Seq<char>>,
    r: TextLanding,
) -> bool {
    if item is Some && before.dom().contains(item->0) {
        let streamed = before[item->0];
        let body = if text is Some && text->0.len() > 0 {
            text->0
        } else {
            streamed.buf@
        };
        &&& after == before.remove(item->0)
        &&& r is Close
        &&& r->row == streamed.row
        &&& r->Close_body@ == body
        &&& r->replaced == (body != streamed.buf@)
        &&& opt_view(r->Close_agent_thread) == opt_view(streamed.agent_thread)
    } else if text is Some && trimmed(text->0).len() > 0 {
        &&& after == before
        &&& r is Standalone
        &&& r->Standalone_body@ == text->0
        &&& opt_view(r->Standalone_agent_thread) == branch
    } else {
        &&& after == before
        &&& r is Nothing
    }
}

fn land_text(
    rows: &mut Keyed<OpenTextRow>,
    item: Option<&str>,
    text: Option<String>,
    branch: Option<String>,
) -> (r: TextLanding)
    requires
        old(rows).wf(),
    ensures
        final(rows).wf(),
        text_landed(
            old(rows)@,
            final(rows)@,
            opt_str_view(item),
            opt_view(text),
            opt_view(branch),
            r,
        ),
{
    let streamed = match item {
        Some(k) => rows.remove(k),
        None => None,
    };
    match streamed {
        Some(row) => {
            let body = match text {
                Some(t) => if t.as_str().is_empty() {
                    row.buf.clone()
                } else {
                    t
                },
                None => row.buf.clone(),
            };
            let replaced = !same(body.as_str(), row.buf.as_str());
            TextLanding::Close { row: row.row, body, replaced, agent_thread: row.agent_thread }
        },
        None => {
            assert(rows@ =~= old(rows)@);
            match text {
                Some(t) => if trim(t.as_str()).is_empty() {
                    TextLanding::Nothing
                } else {
                    TextLanding::Standalone { body: t, agent_thread: branch }
                },
                None => TextLanding::Nothing,
            }
        },
    }
}

/// A streamed text is complete. Its authoritative body wins over the frames that
/// arrived; a text that never streamed gets a row of its own.
pub fn text_done(
    inner: &mut EngineInner,
    item: Option<&str>,
    text: Option<String>,
    branch: Option<String>,
) -> (r: TextLanding)
    requires
        old(inner).wf(),
    ensures
        final(inner).wf(),
        *final(inner) == (EngineInner { open_texts: final(inner).open_texts, ..*old(inner) }),
        text_landed(
            old(inner).open_texts@,
            final(inner).open_texts@,
            opt_str_view(item),
            opt_view(text),
            opt_view(branch),
            r,
        ),
{
    land_text(&mut inner.open_texts, item, text, branch)
}

/// A running tool call is a collaboration call.
pub open spec fn collab_running(inner: EngineInner) -> bool {
    exists|i: int|
        0 <= i < inner.tool_rows.entries@.len() && (
        #[trigger] inner.tool_rows.entries@[i]).1.content@.str_at("name"@) == Some(
            "collabAgentToolCall"@,
        )
}

fn has_collab_running(inner: &EngineInner) -> (r: bool)
    ensures
        r == collab_running(*inner),
{
    let mut i: usize = 0;
    while i < inner.tool_rows.entries.len()
        invariant
            i <= inner.tool_rows.entries@.len(),
            forall|j: int|
                0 <= j < i ==> (#[trigger] inner.tool_rows.entries@[j]).1.content@.str_at("name"@)
                    != Some("collabAgentToolCall"@),
        decreases inner.tool_rows.entries@.len() - i,
    {
        if opt_is(inner.tool_rows.entries[i].1.content.str_at("name"), "collabAgentToolCall") {
            assert(inner.tool_rows.entries@[i as int].1.content@.str_at("name"@) == Some(
                "collabAgentToolCall"@,
            ));
            return true;
        }
        i = i + 1;
    }
    false
}

/// The usage after a reading of it.
pub open spec fn usage_noted(
    before: EngineInner,
    context_tokens: u64,
    window: Option<u64>,
) -> EngineInner {
    EngineInner {
        last_context_tokens: Some(context_tokens),
        last_window: if window is Some {
            window
        } else {
            before.last_window
        },
        ..before
    }
}

/// A reading of the current context arrived.
pub fn note_usage(inner: &mut EngineInner, context_tokens: u64, window: Option<u64>)
    ensures
        *final(inner) == usage_noted(*old(inner), context_tokens, window),
{
    inner.last_context_tokens = Some(context_tokens);
    if window.is_some() {
        inner.last_window = window;
    }
}

/// A reading of the app-server. It follows the last model call of the thread, so
/// while sub-agents run it jumps between their contexts: the gauge is frozen for
/// that time. true = the reading counts.
pub fn note_appserver_usage(
    inner: &mut EngineInner,
    context_tokens: u64,
    window: Option<u64>,
) -> (r: bool)
    ensures
        r == !collab_running(*old(inner)),
        r ==> *final(inner) == usage_noted(*old(inner), context_tokens, window),
        !r ==> *final(inner) == *old(inner),
{
    if has_collab_running(inner) {
        return false;
    }
    note_usage(inner, context_tokens, window);
    true
}

/// A command with what is known of it from before.
pub open spec fn enriched(existing: Seq<SlashCmdView>, c: SlashCmdView) -> SlashCmdView {
    match last_named(existing, c.name) {
        Some(old) => SlashCmdView {
            name: c.name,
            description: filled_or(c.description, old.description),
            arg_hint: filled_or(c.arg_hint, old.arg_hint),
        },
        None => c,
    }
}

/// The text, unless it is missing or empty.
pub open spec fn filled_or(a: Option<Seq<char>>, b: Option<Seq<char>>) -> Option<Seq<char>> {
    if a is Some && a->0.len() > 0 {
        a
    } else {
        b
    }
}

/// The last command of that name.
pub open spec fn last_named(cmds: Seq<SlashCmdView>, name: Seq<char>) -> Option<SlashCmdView>
    decreases cmds.len(),
{
    if cmds.len() == 0 {
        None
    } else if cmds.last().name == name {
        Some(cmds.last())
    } else {
        last_named(cmds.drop_last(), name)
    }
}

/// The palette after a new list arrived: the list decides which commands there
/// are; what was known of a command fills what the list leaves open. An empty list
/// changes nothing.
pub open spec fn merged_commands(existing: Seq<SlashCmdView>, init: Seq<SlashCmdView>) -> Seq<
    SlashCmdView,
> {
    if init.len() == 0 {
        existing
    } else {
        init.map_values(|c: SlashCmdView| enriched(existing, c))
    }
}

fn find_named<'a>(cmds: &'a Vec<SlashCmd>, name: &str) -> (r: Option<&'a SlashCmd>)
    ensures
        match r {
            Some(c) => last_named(cmds_view(cmds@), name@) == Some(c@),
            None => last_named(cmds_view(cmds@), name@) is None,
        },
{
    let mut i: usize = cmds.len();
    assert(cmds_view(cmds@).take(i as int) =~= cmds_view(cmds@));
    while i > 0
        invariant
            i <= cmds@.len(),
            last_named(cmds_view(cmds@), name@) == last_named(
                cmds_view(cmds@).take(i as int),
                name@,
            ),
        decreases i,
    {
        proof {
            let t = cmds_view(cmds@).take(i as int);
            assert(t.last() == cmds@[i - 1]@);
            assert(t.drop_last() =~= cmds_view(cmds@).take(i - 1));
        }
        i = i - 1;
        if same(cmds[i].name.as_str(), name) {
            return Some(&cmds[i]);
        }
    }
    None
}

fn fill(a: &Option<String>, b: &Option<String>) -> (r: Option<String>)
    ensures
        opt_view(r) == filled_or(opt_view(*a), opt_view(*b)),
{
    match a {
        Some(s) => if s.as_str().is_empty() {
            opt_clone(b)
        } else {
            Some(s.clone())
        },
        None => opt_clone(b),
    }
}

/// A copy of a palette.
pub fn copy_commands(cmds: &Vec<SlashCmd>) -> (r: Vec<SlashCmd>)
    ensures
        cmds_view(r@) == cmds_view(cmds@),
{
    let mut out: Vec<SlashCmd> = Vec::new();
    let mut i: usize = 0;
    while i < cmds.len()
        invariant
            i <= cmds@.len(),
            cmds_view(out@) == cmds_view(cmds@.take(i as int)),
        decreases cmds@.len() - i,
    {
        let c = cmds[i].copy();
        proof {
            assert(cmds_view(out@.push(c)) =~= cmds_view(out@).push(c@));
            assert(cmds_view(cmds@.take(i + 1)) =~= cmds_view(cmds@.take(i as int)).push(c@));
        }
        out.push(c);
        i = i + 1;
    }
    assert(cmds@.take(cmds@.len() as int) =~= cmds@);
    out
}

/// Merge the list of an init into the palette: metadata known from before survives
/// a later bare list.
pub fn merge_init_slash_commands(existing: &Vec<SlashCmd>, init: Vec<SlashCmd>) -> (r: Vec<
    SlashCmd,
>)
    ensures
        cmds_view(r@) == merged_commands(cmds_view(existing@), cmds_view(init@)),
{
    if init.len() == 0 {
        return copy_commands(existing);
    }
    let ghost known = cmds_view(existing@);
    let ghost f = |c: SlashCmdView| enriched(known, c);
    let mut out: Vec<SlashCmd> = Vec::new();
    let mut i: usize = 0;
    assert(cmds_view(out@) =~= cmds_view(init@).take(0).map_values(f));
    while i < init.len()
        invariant
            i <= init@.len(),
            known == cmds_view(existing@),
            f == (|c: SlashCmdView| enriched(known, c)),
            cmds_view(out@) == cmds_view(init@).take(i as int).map_values(f),
        decreases init@.len() - i,
    {
        let c = match find_named(existing, init[i].name.as_str()) {
            Some(old) => SlashCmd {
                name: init[i].name.clone(),
                description: fill(&init[i].description, &old.description),
                arg_hint: fill(&init[i].arg_hint, &old.arg_hint),
            },
            None => init[i].copy(),
        };
        proof {
            assert(c@ == enriched(known, init@[i as int]@));
            assert(cmds_view(out@.push(c)) =~= cmds_view(out@).push(c@));
            assert(cmds_view(init@).take(i + 1).map_values(f) =~= cmds_view(init@).take(
                i as int,
            ).map_values(f).push(c@));
        }
        out.push(c);
        i = i + 1;
    }
    assert(cmds_view(init@).take(init@.len() as int) =~= cmds_view(init@));
    out
}

/// A copy of a server list.
pub fn copy_servers(v: &Vec<McpServer>) -> (r: Vec<McpServer>)
    ensures
        servers_view(r@) == servers_view(v@),
{
    let mut out: Vec<McpServer> = Vec::new();
    let mut i: usize = 0;
    while i < v.len()
        invariant
            i <= v@.len(),
            servers_view(out@) == servers_view(v@.take(i as int)),
        decreases v@.len() - i,
    {
        let c = v[i].copy();
        proof {
            assert(servers_view(out@.push(c)) =~= servers_view(out@).push(c@));
            assert(servers_view(v@.take(i + 1)) =~= servers_view(v@.take(i as int)).push(c@));
        }
        out.push(c);
        i = i + 1;
    }
    assert(v@.take(v@.len() as int) =~= v@);
    out
}

/// A copy of a list of names.
pub fn copy_names(v: &Vec<String>) -> (r: Vec<String>)
    ensures
        texts_view(r@) == texts_view(v@),
{
    let mut out: Vec<String> = Vec::new();
    let mut i: usize = 0;
    while i < v.len()
        invariant
            i <= v@.len(),
            texts_view(out@) == texts_view(v@.take(i as int)),
        decreases v@.len() - i,
    {
        let c = v[i].clone();
        proof {
            assert(texts_view(out@.push(c)) =~= texts_view(out@).push(c@));
            assert(texts_view(v@.take(i + 1)) =~= texts_view(v@.take(i as int)).push(c@));
        }
        out.push(c);
        i = i + 1;
    }
    assert(v@.take(v@.len() as int) =~= v@);
    out
}

/// What an init does to the session's facts. Only one that names a model is
/// authoritative: it may replace, even by nothing. A partial one only fills.
pub open spec fn init_noted(
    before: EngineInner,
    after: EngineInner,
    session_id: Seq<char>,
    cmds: Seq<SlashCmdView>,
    servers: Seq<McpServerView>,
    tools: Seq<Seq<char>>,
    model: Option<Seq<char>>,
    window: Option<u64>,
) -> bool {
    let full = model is Some;
    &&& opt_view(after.native_id) == Some(session_id)
    &&& cmds_view(after.slash_commands@) == merged_commands(cmds_view(before.slash_commands@), cmds)
    &&& servers_view(after.last_mcp_servers@) == (if full || before.last_mcp_servers@.len() == 0 {
        servers
    } else {
        servers_view(before.last_mcp_servers@)
    })
    &&& texts_view(after.last_tools@) == (if full || before.last_tools@.len() == 0 {
        tools
    } else {
        texts_view(before.last_tools@)
    })
    &&& opt_view(after.last_model) == (if full {
        model
    } else {
        opt_view(before.last_model)
    })
    &&& after.last_window == (if full {
        window
    } else {
        before.last_window
    })
    &&& after == (EngineInner {
        native_id: after.native_id,
        slash_commands: after.slash_commands,
        last_mcp_servers: after.last_mcp_servers,
        last_tools: after.last_tools,
        last_model: after.last_model,
        last_window: after.last_window,
        ..before
    })
}

/// An init arrived. `window` is the context window of its model.
pub fn note_init(
    inner: &mut EngineInner,
    session_id: &str,
    slash_commands: Vec<SlashCmd>,
    mcp_servers: &Vec<McpServer>,
    tools: &Vec<String>,
    model: &Option<String>,
    window: Option<u64>,
)
    ensures
        init_noted(
            *old(inner),
            *final(inner),
            session_id@,
            cmds_view(slash_commands@),
            servers_view(mcp_servers@),
            texts_view(tools@),
            opt_view(*model),
            window,
        ),
{
    let full = model.is_some();
    let merged = merge_init_slash_commands(&inner.slash_commands, slash_commands);
    let servers = if full || inner.last_mcp_servers.len() == 0 {
        copy_servers(mcp_servers)
    } else {
        copy_servers(&inner.last_mcp_servers)
    };
    let names = if full || inner.last_tools.len() == 0 {
        copy_names(tools)
    } else {
        copy_names(&inner.last_tools)
    };
    let last_model = if full {
        opt_clone(model)
    } else {
        opt_clone(&inner.last_model)
    };
    let last_window = if full {
        window
    } else {
        inner.last_window
    };
    inner.native_id = Some(session_id.to_owned());
    inner.slash_commands = merged;
    inner.last_mcp_servers = servers;
    inner.last_tools = names;
    inner.last_model = last_model;
    inner.last_window = last_window;
}

/// A palette arrived on its own.
pub fn note_commands(inner: &mut EngineInner, commands: Vec<SlashCmd>)
    ensures
        *final(inner) == (EngineInner {
            slash_commands: final(inner).slash_commands,
            ..*old(inner)
        }),
        cmds_view(final(inner).slash_commands@) == merged_commands(
            cmds_view(old(inner).slash_commands@),
            cmds_view(commands@),
        ),
{
    let merged = merge_init_slash_commands(&inner.slash_commands, commands);
    inner.slash_commands = merged;
}

/// The transcript uuid of an assistant event is the rewind anchor of its turn; the
/// last one counts.
pub fn note_assistant_uuid(inner: &mut EngineInner, uuid: Option<String>)
    ensures
        *final(inner) == (EngineInner {
            last_assistant_uuid: if uuid is Some {
                uuid
            } else {
                old(inner).last_assistant_uuid
            },
            ..*old(inner)
        }),
{
    if uuid.is_some() {
        inner.last_assistant_uuid = uuid;
    }
}

/// How much of the reasoning stream is shown.
pub const THOUGHT_TAIL_CHARS: usize = 160;

/// A bounded tail of one turn's reasoning.
pub struct ThoughtTail {
    pub buf: String,
    /// Something was dropped off the front.
    pub elided: bool,
}

/// The last `n` characters.
pub open spec fn tail(s: Seq<char>, n: nat) -> Seq<char> {
    if s.len() <= n {
        s
    } else {
        s.skip(s.len() - n)
    }
}

impl Default for ThoughtTail {
    fn default() -> (r: Self)
        ensures
            r.follows(seq![]),
    {
        ThoughtTail { buf: String::new(), elided: false }
    }
}

impl ThoughtTail {
    /// The tail shows the end of the stream `s`, and says so when it is not all.
    pub open spec fn follows(self, s: Seq<char>) -> bool {
        &&& self.buf@ == tail(s, THOUGHT_TAIL_CHARS as nat)
        &&& self.elided == (s.len() > THOUGHT_TAIL_CHARS)
    }

    /// More reasoning arrived. The buffer stays within the window, however long
    /// the stream.
    pub fn push(&mut self, text: &str)
        ensures
            final(self).buf@ == tail(old(self).buf@ + text@, THOUGHT_TAIL_CHARS as nat),
            final(self).elided == (old(self).elided || old(self).buf@.len() + text@.len()
                > THOUGHT_TAIL_CHARS),
            forall|s: Seq<char>| #[trigger]
                old(self).follows(s) ==> final(self).follows(s + text@),
    {
        self.buf.append(text);
        let len: usize = self.buf.as_str().unicode_len();
        if len > THOUGHT_TAIL_CHARS {
            let kept = self.buf.as_str().substring_char(len - THOUGHT_TAIL_CHARS, len);
            assert(kept@ =~= self.buf@.skip(len - THOUGHT_TAIL_CHARS));
            self.buf = kept.to_owned();
            self.elided = true;
        }
        assert forall|s: Seq<char>| #[trigger] old(self).follows(s) implies self.follows(
            s + text@,
        ) by {
            let w = THOUGHT_TAIL_CHARS as nat;
            assert(tail(tail(s, w) + text@, w) =~= tail(s + text@, w));
        }
    }

    /// The text of the chip.
    pub fn summary(&self) -> (r: String)
        ensures
            r@ == (if self.elided {
                "…"@ + self.buf@
            } else {
                self.buf@
            }),
    {
        if self.elided {
            cat("…", self.buf.as_str())
        } else {
            self.buf.clone()
        }
    }

    /// A new prompt starts with nothing.
    pub fn clear(&mut self)
        ensures
            final(self).follows(seq![]),
    {
        self.buf = String::new();
        self.elided = false;
    }
}

/// A later list that only names its commands keeps what was known of them.
pub proof fn law_bare_list_keeps_metadata(existing: Seq<SlashCmdView>, init: Seq<SlashCmdView>, i: int)
    requires
        0 <= i < init.len(),
        last_named(existing, init[i].name) is Some,
        init[i].description is None,
        init[i].arg_hint is None,
    ensures
        merged_commands(existing, init)[i].name == init[i].name,
        merged_commands(existing, init)[i].description == last_named(
            existing,
            init[i].name,
        )->0.description,
        merged_commands(existing, init)[i].arg_hint == last_named(existing, init[i].name)->0.arg_hint,
{
}

/// A new list decides which commands there are, and in which order.
pub proof fn law_new_list_decides(existing: Seq<SlashCmdView>, init: Seq<SlashCmdView>)
    requires
        init.len() > 0,
    ensures
        merged_commands(existing, init).len() == init.len(),
        forall|i: int|
            0 <= i < init.len() ==> (#[trigger] merged_commands(existing, init)[i]).name
                == init[i].name,
{
}

} // verus!
