//! What the digest of a conversation promises, said of the conversation and the text.

use vstd::prelude::*;

use crate::decimal::digits;
use crate::digest::{
    build_switch_digest, digest_line, kept_lines, lines_of, truncate_chars, SWITCH_DIGEST_MAX_TURNS,
};
use crate::json::{parsed, Json};
use crate::rows::LeadMessage;
use crate::text::{joined, trimmed};
use crate::text_laws::{blank, lemma_trimmed, stripped};

verus! {

/// The lines that a digest keeps are the longest suffix of the conversation's lines
/// within the cap: as many as there are, or as the cap allows, and the i-th from the
/// end is the i-th from the end.
pub proof fn law_digest_keeps_the_longest_suffix(lines: Seq<Seq<char>>)
    ensures
        kept_lines(lines).len() == (if lines.len() < SWITCH_DIGEST_MAX_TURNS {
            lines.len()
        } else {
            SWITCH_DIGEST_MAX_TURNS as nat
        }),
        forall|i: int|
            0 <= i < kept_lines(lines).len() ==> #[trigger] kept_lines(
                lines,
            )[kept_lines(lines).len() - 1 - i] == lines[lines.len() - 1 - i],
        SWITCH_DIGEST_MAX_TURNS == 12,
{
}

/// What a digest says of the turns that it leaves out.
pub open spec fn omitted_note(omitted: int) -> Seq<char> {
    if omitted > 0 {
        " ("@ + digits(omitted as nat) + " earlier turn(s) omitted)"@
    } else {
        seq![]
    }
}

/// A digest ends with the last lines of the conversation, oldest first, and says before
/// them how many it leaves out: that number and the number of kept lines are together
/// the number of lines. Only a conversation without a line has an empty digest.
pub proof fn law_digest_accounts_for_every_line(
    old_tool: &str,
    new_tool: &str,
    messages: &[LeadMessage],
    r: String,
)
    requires
        call_ensures(build_switch_digest, (old_tool, new_tool, messages), r),
    ensures
        (r@.len() == 0) == (lines_of(messages@).len() == 0),
        lines_of(messages@).len() > 0 ==> exists|told: Seq<char>, omitted: int|
            {
                let lines = lines_of(messages@);
                let kept = lines.skip(omitted);
                &&& r@ == #[trigger] (told + omitted_note(omitted)) + ":\n"@ + joined(kept, "\n"@)
                    + "\n[end of switch digest — continue the conversation naturally from here]"@
                &&& omitted >= 0
                &&& omitted + kept.len() == lines.len()
                &&& kept.len() == if lines.len() < 12 {
                    lines.len()
                } else {
                    12
                }
                &&& "[weft: this thread just "@.is_prefix_of(told)
                &&& exists|change: Seq<char>|
                    told == #[trigger] ("[weft: this thread just "@ + change)
                        + ". You have NO memory of the conversation below — it is real prior context from the human, not a new request. Condensed history, oldest first"@
            },
{
    let lines = lines_of(messages@);
    reveal_strlit(":\n");
    reveal_strlit("");
    if lines.len() > 0 {
        let omitted: int = if lines.len() < 12 {
            0
        } else {
            lines.len() - 12
        };
        let open = "[weft: this thread just "@;
        let change = crate::digest::change_told(old_tool@, new_tool@);
        let mid =
            ". You have NO memory of the conversation below — it is real prior context from the human, not a new request. Condensed history, oldest first"@;
        let told = open + change + mid;
        assert(lines.skip(0) =~= lines);
        assert(omitted_note(omitted) =~= crate::digest::omission_told(lines.len()));
        assert(r@ =~= (told + omitted_note(omitted)) + ":\n"@ + joined(lines.skip(omitted), "\n"@)
            + "\n[end of switch digest — continue the conversation naturally from here]"@);
        assert(told.subrange(0, open.len() as int) =~= open);
        assert(open.is_prefix_of(told));
        assert(told == (open + change) + mid);
    }
}

/// A digest names the engine that the thread now runs on, and the one it ran on before
/// when that is another.
pub proof fn law_digest_names_the_engines(
    old_tool: &str,
    new_tool: &str,
    messages: &[LeadMessage],
    r: String,
)
    requires
        call_ensures(build_switch_digest, (old_tool, new_tool, messages), r),
        lines_of(messages@).len() > 0,
    ensures
        old_tool@ == new_tool@ ==> ("[weft: this thread just "@ + "reloaded its engine ("@
            + new_tool@ + ")"@).is_prefix_of(r@),
        old_tool@ != new_tool@ ==> ("[weft: this thread just "@ + "switched engines ("@
            + old_tool@ + " → "@ + new_tool@ + ")"@).is_prefix_of(r@),
{
    reveal_strlit(")");
    reveal_strlit(") — e.g. to pick up a CLI-side config/model change");
    if old_tool@ == new_tool@ {
        let p = "[weft: this thread just "@ + "reloaded its engine ("@ + new_tool@ + ")"@;
        assert(r@.subrange(0, p.len() as int) =~= p);
    } else {
        let p = "[weft: this thread just "@ + "switched engines ("@ + old_tool@ + " → "@
            + new_tool@ + ")"@;
        assert(r@.subrange(0, p.len() as int) =~= p);
    }
}

/// The lines of a conversation are those of its first part and of the rest, in order.
pub proof fn law_lines_come_turn_by_turn(a: Seq<LeadMessage>, b: Seq<LeadMessage>)
    ensures
        lines_of(a + b) == lines_of(a) + lines_of(b),
    decreases b.len(),
{
    if b.len() == 0 {
        assert(a + b =~= a);
        assert(lines_of(a) + lines_of(b) =~= lines_of(a));
    } else {
        law_lines_come_turn_by_turn(a, b.drop_last());
        assert((a + b).drop_last() =~= a + b.drop_last());
        assert((a + b).last() == b.last());
        assert(lines_of(a + b) =~= lines_of(a) + lines_of(b));
    }
}

/// The text that a row's content holds.
pub open spec fn said_in(m: LeadMessage) -> Option<Seq<char>> {
    match parsed(m.content@) {
        Some(v) => v.str_at("text"@),
        None => None,
    }
}

/// A turn has a line exactly when it is plain text of either side that holds more than
/// white space. The line says who spoke, and what: whole up to the cap, and cut there,
/// with a sign of the cut, beyond it.
pub proof fn law_line_of_one_turn(m: LeadMessage)
    ensures
        lines_of(seq![m]).len() == (if m.kind@ == "text"@ && (m.role@ == "user"@ || m.role@
            == "assistant"@) && said_in(m) is Some && !blank(said_in(m)->0) {
            1nat
        } else {
            0
        }),
        lines_of(seq![m]).len() == 1 ==> exists|who: Seq<char>, body: Seq<char>|
            {
                &&& #[trigger] (who + ": "@ + body) == lines_of(seq![m])[0]
                &&& who == if m.role@ == "user"@ {
                    "User"@
                } else {
                    "Assistant"@
                }
                &&& shows(said_in(m)->0, body)
            },
{
    let s = seq![m];
    assert(s.drop_last() =~= seq![]);
    assert(s.last() == m);
    assert(lines_of(s.drop_last()) =~= seq![]);
    reveal_with_fuel(lines_of, 2);
    if let Some(t) = said_in(m) {
        lemma_trimmed(t);
        let body = trimmed(t);
        let (a, b) = choose|a: Seq<char>, b: Seq<char>|
            t == #[trigger] (a + body + b) && blank(a) && blank(b);
        if body.len() == 0 {
            assert forall|i: int| 0 <= i < t.len() implies crate::text::white(#[trigger] t[i]) by {
                if i < a.len() {
                    assert(t[i] == a[i]);
                } else {
                    assert(t[i] == b[i - a.len()]);
                }
            }
        } else {
            assert(t[a.len() as int] == body[0]);
            assert(!blank(t));
            assert(stripped(t, body));
            let cut = crate::digest::truncated(body, 500);
            assert(shows(t, cut));
            if crate::digest::is_spoken(m) {
                let who = if m.role@ == "user"@ {
                    "User"@
                } else {
                    "Assistant"@
                };
                assert(lines_of(s)[0] == who + ": "@ + cut);
            }
        }
    }
}

/// `shown` is what a line shows of a text: the text without the white space around it,
/// whole up to the cap, and beyond it its first characters with a sign of the cut.
pub open spec fn shows(said: Seq<char>, shown: Seq<char>) -> bool {
    exists|body: Seq<char>| #[trigger]
        stripped(said, body) && shown == if body.len() <= 500 {
            body
        } else {
            body.subrange(0, 500) + "…"@
        }
}

/// A cut text is whole up to the cap; beyond it, its first characters and a sign.
pub proof fn law_truncation_shows(s: &str, max: usize, r: String)
    requires
        call_ensures(truncate_chars, (s, max), r),
    ensures
        s@.len() <= max ==> r@ == s@,
        s@.len() > max ==> r@.len() == max + 1 && r@.last() == '…' && r@.drop_last()
            == s@.subrange(0, max as int),
{
    reveal_strlit("…");
    if s@.len() > max {
        assert(r@.drop_last() =~= s@.subrange(0, max as int));
    }
}

/// The line of a row whose content is read already is the line of that row.
pub proof fn law_line_of_a_read_row(
    m: LeadMessage,
    role: &str,
    doc: Option<&Json>,
    r: Option<String>,
)
    requires
        m.kind@ == "text"@,
        m.role@ == "user"@ || m.role@ == "assistant"@,
        role@ == m.role@,
        parsed(m.content@) == (match doc {
            Some(v) => Some(v@),
            None => None,
        }),
        call_ensures(digest_line, (role, doc), r),
    ensures
        r is Some == (lines_of(seq![m]).len() == 1),
        r is Some ==> r->0@ == lines_of(seq![m])[0],
{
    let s = seq![m];
    assert(s.drop_last() =~= seq![]);
    assert(s.last() == m);
    reveal_with_fuel(lines_of, 2);
}

} // verus!
