//! The digest of a conversation that rides into a new engine.

use vstd::prelude::*;

use crate::decimal::unsigned_text;
use crate::json::Json;
use crate::rows::LeadMessage;
use crate::text::{cat, cat3, join, same, take_chars, trim};

verus! {

/// How many turns a digest carries.
pub const SWITCH_DIGEST_MAX_TURNS: usize = 12;

/// How many characters of each.
pub const SWITCH_DIGEST_MAX_CHARS: usize = 500;

/// A text cut to a number of characters, with a sign of the cut.
pub open spec fn truncated(s: Seq<char>, max: nat) -> Seq<char> {
    if s.len() <= max {
        s
    } else {
        s.take(max as int) + "…"@
    }
}

/// Cut a text to `max` characters; an ellipsis shows that something was cut.
pub fn truncate_chars(s: &str, max: usize) -> (r: String)
    ensures
        r@ == truncated(s@, max as nat),
{
    if s.unicode_len() <= max {
        return s.to_owned();
    }
    let head = take_chars(s, max);
    cat(head.as_str(), "…")
}

/// A row that is part of the conversation: plain text of either side.
pub open spec fn is_spoken(m: LeadMessage) -> bool {
    m.kind@ == "text"@ && (m.role@ == "user"@ || m.role@ == "assistant"@)
}

/// The line of a row whose content was read.
pub open spec fn line_of(role: Seq<char>, doc: Option<crate::json::JsonView>) -> Option<Seq<char>> {
    match doc {
        Some(v) => match v.str_at("text"@) {
            Some(t) => if crate::text::trimmed(t).len() == 0 {
                None
            } else {
                Some(
                    (if role == "user"@ {
                        "User"@
                    } else {
                        "Assistant"@
                    }) + ": "@ + truncated(
                        crate::text::trimmed(t),
                        SWITCH_DIGEST_MAX_CHARS as nat,
                    ),
                )
            },
            None => None,
        },
        None => None,
    }
}

/// The line of a row whose content was read. Blank rows have none.
pub fn digest_line(role: &str, doc: Option<&Json>) -> (r: Option<String>)
    ensures
        crate::text::opt_view(r) == line_of(
            role@,
            match doc {
                Some(d) => Some(d@),
                None => None,
            },
        ),
{
    let doc = match doc {
        Some(d) => d,
        None => {
            return None;
        },
    };
    match doc.str_at("text") {
        Some(t) => {
            let text = trim(t);
            if text.is_empty() {
                return None;
            }
            let who = if same(role, "user") {
                "User"
            } else {
                "Assistant"
            };
            let body = truncate_chars(text, SWITCH_DIGEST_MAX_CHARS);
            Some(cat3(who, ": ", body.as_str()))
        },
        None => None,
    }
}

/// The lines of a conversation, oldest first.
pub open spec fn lines_of(messages: Seq<LeadMessage>) -> Seq<Seq<char>>
    decreases messages.len(),
{
    if messages.len() == 0 {
        seq![]
    } else {
        let before = lines_of(messages.drop_last());
        let m = messages.last();
        match (if is_spoken(m) {
            line_of(m.role@, crate::json::parsed(m.content@))
        } else {
            None
        }) {
            Some(l) => before.push(l),
            None => before,
        }
    }
}

fn collect_lines(messages: &[LeadMessage]) -> (r: Vec<String>)
    ensures
        crate::text::texts_view(r@) == lines_of(messages@),
{
    let mut out: Vec<String> = Vec::new();
    let mut i: usize = 0;
    assert(crate::text::texts_view(out@) =~= lines_of(messages@.take(0)));
    while i < messages.len()
        invariant
            i <= messages@.len(),
            crate::text::texts_view(out@) == lines_of(messages@.take(i as int)),
        decreases messages@.len() - i,
    {
        proof {
            assert(messages@.take(i + 1).drop_last() =~= messages@.take(i as int));
            assert(messages@.take(i + 1).last() == messages@[i as int]);
        }
        let m = &messages[i];
        if same(m.kind.as_str(), "text") && (same(m.role.as_str(), "user") || same(
            m.role.as_str(),
            "assistant",
        )) {
            let doc = Json::parse(m.content.as_str());
            let line = match &doc {
                Some(d) => digest_line(m.role.as_str(), Some(d)),
                None => None,
            };
            match line {
                Some(l) => {
                    assert(crate::text::texts_view(out@.push(l)) =~= crate::text::texts_view(
                        out@,
                    ).push(l@));
                    out.push(l);
                },
                None => {},
            }
        }
        i = i + 1;
    }
    assert(messages@.take(messages@.len() as int) =~= messages@);
    out
}

/// The last lines that fit.
pub open spec fn kept_lines(lines: Seq<Seq<char>>) -> Seq<Seq<char>> {
    if lines.len() <= SWITCH_DIGEST_MAX_TURNS {
        lines
    } else {
        lines.skip(lines.len() - SWITCH_DIGEST_MAX_TURNS)
    }
}

/// What happened to the engine.
pub open spec fn change_told(old_tool: Seq<char>, new_tool: Seq<char>) -> Seq<char> {
    if old_tool == new_tool {
        "reloaded its engine ("@ + new_tool
            + ") — e.g. to pick up a CLI-side config/model change"@
    } else {
        "switched engines ("@ + old_tool + (" → "@ + new_tool + ")"@)
    }
}

/// How many lines were left out.
pub open spec fn omission_told(lines: nat) -> Seq<char> {
    if lines <= SWITCH_DIGEST_MAX_TURNS {
        ""@
    } else {
        " ("@ + crate::decimal::digits((lines - SWITCH_DIGEST_MAX_TURNS) as nat)
            + " earlier turn(s) omitted)"@
    }
}

/// The digest of lines.
pub open spec fn digest_spec(
    old_tool: Seq<char>,
    new_tool: Seq<char>,
    lines: Seq<Seq<char>>,
) -> Seq<char> {
    if lines.len() == 0 {
        ""@
    } else {
        "[weft: this thread just "@ + change_told(old_tool, new_tool)
            + (". You have NO memory of the conversation below — it is real prior context from the human, not a new request. Condensed history, oldest first"@
            + omission_told(lines.len()) + (":\n"@ + crate::text::joined(kept_lines(lines), "\n"@)
            + "\n[end of switch digest — continue the conversation naturally from here]"@))
    }
}

fn last_lines(lines: &Vec<String>) -> (r: Vec<String>)
    ensures
        crate::text::texts_view(r@) == kept_lines(crate::text::texts_view(lines@)),
{
    let ghost all = crate::text::texts_view(lines@);
    let start: usize = if lines.len() <= SWITCH_DIGEST_MAX_TURNS {
        0
    } else {
        lines.len() - SWITCH_DIGEST_MAX_TURNS
    };
    let mut out: Vec<String> = Vec::new();
    let mut i: usize = start;
    while i < lines.len()
        invariant
            start <= i <= lines@.len(),
            all == crate::text::texts_view(lines@),
            crate::text::texts_view(out@) == all.subrange(start as int, i as int),
        decreases lines@.len() - i,
    {
        let l = lines[i].clone();
        proof {
            assert(crate::text::texts_view(out@.push(l)) =~= crate::text::texts_view(out@).push(
                l@,
            ));
            assert(all.subrange(start as int, i + 1) =~= all.subrange(start as int, i as int).push(
                l@,
            ));
        }
        out.push(l);
        i = i + 1;
    }
    assert(all.subrange(start as int, all.len() as int) =~= kept_lines(all));
    out
}

fn tell_change(old_tool: &str, new_tool: &str) -> (r: String)
    ensures
        r@ == change_told(old_tool@, new_tool@),
{
    if same(old_tool, new_tool) {
        cat3(
            "reloaded its engine (",
            new_tool,
            ") — e.g. to pick up a CLI-side config/model change",
        )
    } else {
        let head = cat("switched engines (", old_tool);
        let tail = cat3(" → ", new_tool, ")");
        cat(head.as_str(), tail.as_str())
    }
}

fn tell_omission(lines: usize) -> (r: String)
    ensures
        r@ == omission_told(lines as nat),
{
    if lines <= SWITCH_DIGEST_MAX_TURNS {
        return "".to_owned();
    }
    let n = unsigned_text((lines - SWITCH_DIGEST_MAX_TURNS) as u64);
    cat3(" (", n.as_str(), " earlier turn(s) omitted)")
}

/// The digest of a conversation, for an engine that has no memory of it. It is
/// mechanical: the last turns, oldest first, each cut to size. Nothing said, nothing
/// to tell.
pub fn build_switch_digest(old_tool: &str, new_tool: &str, messages: &[LeadMessage]) -> (r: String)
    ensures
        r@ == digest_spec(old_tool@, new_tool@, lines_of(messages@)),
{
    let lines = collect_lines(messages);
    assert(crate::text::texts_view(lines@).len() == lines@.len());
    if lines.len() == 0 {
        return "".to_owned();
    }
    let tail = last_lines(&lines);
    let change = tell_change(old_tool, new_tool);
    let omitted = tell_omission(lines.len());
    let body = join(&tail, "\n");
    let history = cat3(
        ":\n",
        body.as_str(),
        "\n[end of switch digest — continue the conversation naturally from here]",
    );
    let told = cat(
        ". You have NO memory of the conversation below — it is real prior context from the human, not a new request. Condensed history, oldest first",
        omitted.as_str(),
    );
    let rest = cat(told.as_str(), history.as_str());
    let head = cat("[weft: this thread just ", change.as_str());
    cat(head.as_str(), rest.as_str())
}

/// A digest carries at most so many turns, each cut to size, whatever was said.
pub proof fn law_digest_is_bounded(messages: Seq<LeadMessage>)
    ensures
        kept_lines(lines_of(messages)).len() <= SWITCH_DIGEST_MAX_TURNS,
        forall|i: int|
            0 <= i < lines_of(messages).len() ==> (#[trigger] lines_of(messages)[i]).len()
                <= SWITCH_DIGEST_MAX_CHARS + 12,
    decreases messages.len(),
{
    reveal_strlit("…");
    reveal_strlit("User");
    reveal_strlit("Assistant");
    reveal_strlit(": ");
    if messages.len() > 0 {
        law_digest_is_bounded(messages.drop_last());
        let before = lines_of(messages.drop_last());
        assert forall|i: int| 0 <= i < lines_of(messages).len() implies (#[trigger] lines_of(
            messages,
        )[i]).len() <= SWITCH_DIGEST_MAX_CHARS + 12 by {
            if i < before.len() {
                assert(lines_of(messages)[i] == before[i]);
            }
        }
    }
}

/// The digest keeps the latest turns: its last line is the last thing said.
pub proof fn law_digest_ends_with_the_latest(lines: Seq<Seq<char>>)
    requires
        lines.len() > 0,
    ensures
        kept_lines(lines).len() > 0,
        kept_lines(lines).last() == lines.last(),
{
}

} // verus!
