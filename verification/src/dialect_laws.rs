//! What the readers of the dialects promise, said of the documents and the events.

use vstd::prelude::*;

use crate::json::{items_view, json_text, parsed, Json, JsonView};
use crate::proto::{
    arr_or_empty, block_texts, cap_input, cap_output, change_lines, codex_content_item_text,
    codex_item_is_error, codex_item_output, codex_tool_call, codex_tool_input, codex_tool_result,
    codex_tool_summary, collect_names, compact_input, context_tokens, described_cmds,
    error_text_from_item, extract_native, first_shown, first_str, first_value, humanize_error_text,
    humanize_parsed, humanized_text, item_error_text, line_usage_fits, listed_cmds, listed_names,
    listed_servers, members_of, message_calls, message_results, message_texts, opencode_output,
    parse_codex, parse_line, parse_line_for, parse_opencode, picked, read_codex, read_native,
    read_opencode, read_resident, result_value_text, tool_result_text, try_parse_line,
    try_parse_line_for, usage_fits, usage_sum, ChatEvent, McpServer, SlashCmd, ToolCall,
    ToolResultItem,
};
use crate::text::{joined, opt_view, texts_view, trimmed};

verus! {

/// The names of the codex document types differ.
proof fn lemma_codex_types()
    ensures
        "turn.failed"@ != "turn.completed"@,
        "turn.failed"@ != "item.started"@,
        "turn.failed"@ != "item.completed"@,
        "error"@ != "turn.completed"@,
        "error"@ != "turn.failed"@,
        "error"@ != "item.started"@,
        "error"@ != "item.completed"@,
        "turn.completed"@ != "item.started"@,
        "turn.completed"@ != "item.completed"@,
        "item.started"@ != "item.completed"@,
{
    reveal_strlit("turn.failed");
    reveal_strlit("turn.completed");
    reveal_strlit("item.started");
    reveal_strlit("item.completed");
    reveal_strlit("error");
    assert("turn.failed"@.len() == 11 && "turn.completed"@.len() == 14);
    assert("item.started"@.len() == 12 && "item.completed"@.len() == 14 && "error"@.len() == 5);
    assert("turn.completed"@[0] == 't' && "item.completed"@[0] == 'i');
}

/// In the codex dialect a document of type "turn.failed" or "error" is the end of a turn
/// with an error, and one of type "turn.completed" the end of one without. No other
/// document ends a turn.
pub proof fn law_codex_turn_ends(v: &Json, r: ChatEvent)
    requires
        call_ensures(read_codex, (v,), r),
    ensures
        r@ is TurnEnd ==> r@->TurnEnd_context_tokens is None,
        v@.str_at("type"@) == Some("turn.failed"@) || v@.str_at("type"@) == Some("error"@)
            ==> r@ is TurnEnd && r@->is_error,
        v@.str_at("type"@) == Some("turn.completed"@) ==> r@ is TurnEnd && !r@->is_error,
        r@ is TurnEnd ==> (v@.str_at("type"@) == Some("turn.completed"@) || v@.str_at("type"@)
            == Some("turn.failed"@) || v@.str_at("type"@) == Some("error"@)),
{
    lemma_codex_types();
}

/// The names of the codex item types differ.
proof fn lemma_codex_items()
    ensures
        "agent_message"@ != "error"@,
        "agent_message"@ != "reasoning"@,
        "error"@ != "reasoning"@,
        !tool_item(Some("agent_message"@)),
        !tool_item(Some("error"@)),
        !tool_item(Some("reasoning"@)),
{
    reveal_strlit("agent_message");
    reveal_strlit("error");
    reveal_strlit("reasoning");
    reveal_strlit("command_execution");
    reveal_strlit("file_change");
    reveal_strlit("mcp_tool_call");
    reveal_strlit("collab_agent_tool_call");
    reveal_strlit("dynamic_tool_call");
    assert("agent_message"@.len() == 13 && "error"@.len() == 5 && "reasoning"@.len() == 9);
    assert("command_execution"@.len() == 17 && "file_change"@.len() == 11);
    assert("mcp_tool_call"@.len() == 13 && "collab_agent_tool_call"@.len() == 22);
    assert("dynamic_tool_call"@.len() == 17);
    assert("mcp_tool_call"@[0] == 'm' && "agent_message"@[0] == 'a');
}

/// The item types that are tools.
pub open spec fn tool_item(kind: Option<Seq<char>>) -> bool {
    ||| kind == Some("command_execution"@)
    ||| kind == Some("file_change"@)
    ||| kind == Some("mcp_tool_call"@)
    ||| kind == Some("collab_agent_tool_call"@)
    ||| kind == Some("dynamic_tool_call"@)
}

/// What the start and the end of a codex item are: a finished message is its text; a
/// tool starts as a call and ends as a result under the same id; an error is told as
/// text, whenever it comes; reasoning is nothing.
pub proof fn law_codex_items(v: &Json, r: ChatEvent)
    requires
        call_ensures(read_codex, (v,), r),
    ensures
        r@ is Assistant ==> r@->uuid is None && r@->Assistant_agent_thread is None,
        r@ is TextDelta ==> r@->TextDelta_agent_thread is None,
        v@.str_at("type"@) == Some("item.completed"@) && v@.at("item"@).str_at("type"@) == Some(
            "agent_message"@,
        ) && v@.at("item"@).str_at("text"@) is None ==> r@ is Assistant && r@->texts.len() == 0
            && r@->Assistant_tools.len() == 0,
        ({
            let started = v@.str_at("type"@) == Some("item.started"@);
            let completed = v@.str_at("type"@) == Some("item.completed"@);
            let item = v@.at("item"@);
            let kind = item.str_at("type"@);
            &&& completed && kind == Some("agent_message"@) && item.str_at("text"@) is Some
                ==> r@ is Assistant && r@->texts == seq![item.str_at("text"@)->0]
                && r@->Assistant_tools.len() == 0
            &&& started && kind == Some("agent_message"@) ==> r@ is Other
            &&& (started || completed) && kind == Some("reasoning"@) ==> r@ is Other
            &&& (started || completed) && kind == Some("error"@) ==> r@ is TextDelta
                && r@->TextDelta_text == humanized_text(item_error_text(item))
                && r@->TextDelta_item is None
            &&& started && tool_item(kind) ==> r@ is Assistant && r@->texts.len() == 0
                && r@->Assistant_tools.len() == 1 && r@->Assistant_tools[0].name == kind->0
                && r@->Assistant_tools[0].output is None && !r@->Assistant_tools[0].is_error
            &&& completed && tool_item(kind) ==> r@ is ToolResults && r@->items.len() == 1
            &&& started && tool_item(kind) && item.str_at("id"@) is Some
                ==> r@->Assistant_tools[0].id == item.str_at("id"@)->0
            &&& completed && tool_item(kind) && item.str_at("id"@) is Some ==> r@->items[0].id
                == item.str_at("id"@)->0
            &&& !started && !completed ==> r@ is TurnEnd || r@ is Other
        }),
{
    lemma_codex_types();
    lemma_codex_items();
}

/// The rest of the codex items are their text, if they are finished and have one.
pub proof fn law_codex_content_items(v: &Json, r: ChatEvent)
    requires
        call_ensures(read_codex, (v,), r),
        v@.str_at("type"@) == Some("item.completed"@) || v@.str_at("type"@) == Some(
            "item.started"@,
        ),
        ({
            let kind = v@.at("item"@).str_at("type"@);
            !tool_item(kind) && kind != Some("agent_message"@) && kind != Some("error"@) && kind
                != Some("reasoning"@)
        }),
    ensures
        ({
            let shown = first_shown(
                v@.at("item"@),
                seq!["text"@, "review"@, "plan"@, "message"@],
            );
            let completed = v@.str_at("type"@) == Some("item.completed"@);
            &&& completed && shown is Some ==> r@ is Assistant && r@->texts == seq![shown->0]
                && r@->Assistant_tools.len() == 0
            &&& !completed || shown is None ==> r@ is Other
        }),
{
    lemma_codex_types();
}

/// The call with which a codex tool starts and the result with which it ends find each
/// other by the item's id, and the result says whether the tool failed.
pub proof fn law_codex_call_and_result_match(item: &Json, call: ToolCall, result: ToolResultItem)
    requires
        call_ensures(codex_tool_call, (item,), call),
        call_ensures(codex_tool_result, (item,), result),
    ensures
        item@.str_at("id"@) is None ==> call.id@.len() == 0,
        item@.str_at("type"@) is None ==> call.name@ == "tool"@,
        call.collab_threads@.len() == 0 && result.collab_threads@.len() == 0,
        call.id@ == result.id@,
        item@.str_at("id"@) is Some ==> call.id@ == item@.str_at("id"@)->0,
        item@.str_at("type"@) is Some ==> call.name@ == item@.str_at("type"@)->0,
        call.output is None && !call.is_error,
        result.is_error == (item@.str_at("status"@) == Some("failed"@) || item@.str_at("status"@)
            == Some("error"@) || item@.str_at("status"@) == Some("declined"@) || item@.str_at(
            "status"@,
        ) == Some("canceled"@) || item@.str_at("status"@) == Some("cancelled"@) || (item@.at(
            "exit_code"@,
        ).as_i64() is Some && item@.at("exit_code"@).as_i64()->0 != 0)),
{
    assert(call@.collab_threads.len() == call.collab_threads@.len());
    assert(result@.collab_threads.len() == result.collab_threads@.len());
}

/// The first of the keys whose member is a string.
pub open spec fn first_string_key(v: JsonView, keys: Seq<Seq<char>>, i: int) -> bool {
    &&& 0 <= i < keys.len()
    &&& v.str_at(keys[i]) is Some
    &&& forall|j: int| 0 <= j < i ==> v.str_at(#[trigger] keys[j]) is None
}

/// Of several keys the first whose member is a string counts.
pub proof fn law_first_string_counts(v: JsonView, keys: Seq<Seq<char>>)
    ensures
        forall|i: int| #[trigger]
            first_string_key(v, keys, i) ==> first_str(v, keys) == v.str_at(keys[i]),
        (forall|j: int| 0 <= j < keys.len() ==> v.str_at(#[trigger] keys[j]) is None) ==> first_str(
            v,
            keys,
        ) is None,
    decreases keys.len(),
{
    if keys.len() > 0 && v.str_at(keys[0]) is None {
        let rest = keys.drop_first();
        law_first_string_counts(v, rest);
        assert forall|i: int| #[trigger] first_string_key(v, keys, i) implies first_str(v, keys)
            == v.str_at(keys[i]) by {
            assert(i > 0);
            assert(rest[i - 1] == keys[i]);
            assert forall|j: int| 0 <= j < i - 1 implies v.str_at(#[trigger] rest[j]) is None by {
                assert(rest[j] == keys[j + 1]);
            }
            assert(first_string_key(v, rest, i - 1));
        }
        if forall|j: int| 0 <= j < keys.len() ==> v.str_at(#[trigger] keys[j]) is None {
            assert forall|j: int| 0 <= j < rest.len() implies v.str_at(#[trigger] rest[j]) is None by {
                assert(rest[j] == keys[j + 1]);
            }
        }
    } else if keys.len() > 0 {
        assert forall|i: int| #[trigger] first_string_key(v, keys, i) implies first_str(v, keys)
            == v.str_at(keys[i]) by {
            if i > 0 {
                assert(v.str_at(keys[0]) is None);
            }
        }
        assert(v.str_at(keys[0]) is Some);
    }
}

/// The first of the keys whose member is there.
pub open spec fn first_present_key(v: JsonView, keys: Seq<Seq<char>>, i: int) -> bool {
    &&& 0 <= i < keys.len()
    &&& !(v.at(keys[i]) is Null)
    &&& forall|j: int| 0 <= j < i ==> v.at(#[trigger] keys[j]) is Null
}

/// Of several keys the first whose member is there counts.
pub proof fn law_first_value_counts(v: JsonView, keys: Seq<Seq<char>>)
    ensures
        forall|i: int| #[trigger]
            first_present_key(v, keys, i) ==> first_value(v, keys) == Some(v.at(keys[i])),
        (forall|j: int| 0 <= j < keys.len() ==> v.at(#[trigger] keys[j]) is Null) ==> first_value(
            v,
            keys,
        ) is None,
    decreases keys.len(),
{
    if keys.len() > 0 && v.at(keys[0]) is Null {
        let rest = keys.drop_first();
        law_first_value_counts(v, rest);
        assert forall|i: int| #[trigger] first_present_key(v, keys, i) implies first_value(v, keys)
            == Some(v.at(keys[i])) by {
            assert(i > 0);
            assert(rest[i - 1] == keys[i]);
            assert forall|j: int| 0 <= j < i - 1 implies v.at(#[trigger] rest[j]) is Null by {
                assert(rest[j] == keys[j + 1]);
            }
            assert(first_present_key(v, rest, i - 1));
        }
        if forall|j: int| 0 <= j < keys.len() ==> v.at(#[trigger] keys[j]) is Null {
            assert forall|j: int| 0 <= j < rest.len() implies v.at(#[trigger] rest[j]) is Null by {
                assert(rest[j] == keys[j + 1]);
            }
        }
    } else if keys.len() > 0 {
        assert forall|i: int| #[trigger] first_present_key(v, keys, i) implies first_value(v, keys)
            == Some(v.at(keys[i])) by {
            if i > 0 {
                assert(v.at(keys[0]) is Null);
            }
        }
        assert(!(v.at(keys[0]) is Null));
    }
}

/// The text of a content item is the first of its texts that is not blank, without the
/// white space around it.
pub proof fn law_content_item_shows_its_first_text(item: &Json, r: Option<String>)
    requires
        call_ensures(codex_content_item_text, (item,), r),
    ensures
        ({
            let text = shown_at(item@, "text"@);
            let review = shown_at(item@, "review"@);
            let plan = shown_at(item@, "plan"@);
            let message = shown_at(item@, "message"@);
            opt_view(r) == if text is Some {
                text
            } else if review is Some {
                review
            } else if plan is Some {
                plan
            } else {
                message
            }
        }),
{
    reveal_with_fuel(first_shown, 6);
    let keys = crate::proto::content_keys();
    assert(keys.drop_first() =~= seq!["review"@, "plan"@, "message"@]);
    assert(keys.drop_first().drop_first() =~= seq!["plan"@, "message"@]);
    assert(keys.drop_first().drop_first().drop_first() =~= seq!["message"@]);
    assert(keys.drop_first().drop_first().drop_first().drop_first() =~= seq![]);
}

/// A member that is a text of more than white space, without the white space around it.
pub open spec fn shown_at(item: JsonView, key: Seq<char>) -> Option<Seq<char>> {
    match item.str_at(key) {
        Some(s) => if trimmed(s).len() > 0 {
            Some(trimmed(s))
        } else {
            None
        },
        None => None,
    }
}

/// The output of a codex tool: its own output, or its diff; else what it names as its
/// output, result or error; else the files it changed, one on a line.
pub proof fn law_codex_output_prefers_the_tool_s_own(item: &Json, r: String)
    requires
        call_ensures(codex_item_output, (item,), r),
    ensures
        ({
            let own = item@.str_at("aggregated_output"@);
            let unified = item@.str_at("unified_diff"@);
            let diff = item@.str_at("diff"@);
            let output = item@.at("output"@);
            let result = item@.at("result"@);
            let error = item@.at("error"@);
            let silent = own is None && unified is None && diff is None;
            &&& own is Some ==> r@ == own->0
            &&& own is None && unified is Some ==> r@ == unified->0
            &&& own is None && unified is None && diff is Some ==> r@ == diff->0
            &&& silent && output is Str ==> r@ == output->Str_0
            &&& silent && output is Null && result is Str ==> r@ == result->Str_0
            &&& silent && output is Null && result is Null && error is Str ==> r@ == error->Str_0
            &&& silent && !(output is Null) ==> r@ == result_value_text(output)
            &&& silent && output is Null && !(result is Null) ==> r@ == result_value_text(result)
            &&& silent && output is Null && result is Null && !(error is Null) ==> r@
                == result_value_text(error)
            &&& silent && output is Null && result is Null && error is Null ==> r@ == joined(
                change_lines(arr_or_empty(item@.at("changes"@))),
                "\n"@,
            )
        }),
{
    reveal_with_fuel(first_str, 5);
    reveal_with_fuel(first_value, 5);
    let keys = seq!["aggregated_output"@, "unified_diff"@, "diff"@];
    assert(keys.drop_first() =~= seq!["unified_diff"@, "diff"@]);
    assert(keys.drop_first().drop_first() =~= seq!["diff"@]);
    assert(keys.drop_first().drop_first().drop_first() =~= seq![]);
    let named = seq!["output"@, "result"@, "error"@];
    assert(named.drop_first() =~= seq!["result"@, "error"@]);
    assert(named.drop_first().drop_first() =~= seq!["error"@]);
    assert(named.drop_first().drop_first().drop_first() =~= seq![]);
}

/// The first characters of a text, as many as a summary holds.
pub open spec fn cut_to_summary(s: Seq<char>) -> Seq<char> {
    if s.len() <= 120 {
        s
    } else {
        s.subrange(0, 120)
    }
}

/// The summary of a codex tool is its command, tool, path or name, in this order; else
/// the path of its first change. It is cut to size.
pub proof fn law_codex_summary_names_the_action(item: &Json, r: String)
    requires
        call_ensures(codex_tool_summary, (item,), r),
    ensures
        ({
            let command = item@.str_at("command"@);
            let tool = item@.str_at("tool"@);
            let path = item@.str_at("path"@);
            let name = item@.str_at("name"@);
            &&& command is Some ==> r@ == cut_to_summary(command->0)
            &&& command is None && tool is Some ==> r@ == cut_to_summary(tool->0)
            &&& command is None && tool is None && path is Some ==> r@ == cut_to_summary(path->0)
            &&& command is None && tool is None && path is None && name is Some ==> r@
                == cut_to_summary(name->0)
            &&& command is None && tool is None && path is None && name is None ==> {
                let changes = item@.at("changes"@);
                &&& changes is Arr && changes->Arr_0.len() > 0 && changes->Arr_0[0].str_at(
                    "path"@,
                ) is Some ==> r@ == cut_to_summary(changes->Arr_0[0].str_at("path"@)->0)
                &&& !(changes is Arr) ==> r@.len() == 0
            }
        }),
{
    reveal_with_fuel(first_str, 6);
    let keys = seq!["command"@, "tool"@, "path"@, "name"@];
    assert(keys.drop_first() =~= seq!["tool"@, "path"@, "name"@]);
    assert(keys.drop_first().drop_first() =~= seq!["path"@, "name"@]);
    assert(keys.drop_first().drop_first().drop_first() =~= seq!["name"@]);
    assert(keys.drop_first().drop_first().drop_first().drop_first() =~= seq![]);
    assert forall|s: Seq<char>| crate::text::head(s, 120) == #[trigger] cut_to_summary(s) by {
        if s.len() > 120 {
            assert(s.take(120) =~= s.subrange(0, 120));
        }
    }
}

proof fn lemma_members(item: JsonView, keys: Seq<Seq<char>>, k: Seq<char>)
    ensures
        members_of(item, keys).dom().contains(k) == (keys.contains(k) && !(item.at(k) is Null)),
        members_of(item, keys).dom().contains(k) ==> members_of(item, keys)[k] == item.at(k),
    decreases keys.len(),
{
    if keys.len() > 0 {
        let rest = keys.drop_last();
        lemma_members(item, rest, k);
        if rest.contains(k) {
            let i = rest.index_of(k);
            assert(keys[i] == k);
        }
        if keys.contains(k) && k != keys.last() {
            let i = keys.index_of(k);
            assert(rest[i] == k);
        }
        if k == keys.last() {
            assert(keys[keys.len() - 1] == k);
        }
    }
}

/// The input of a codex tool is the members of its item that say what it does, each as it
/// stands there, and no other.
pub proof fn law_codex_input_is_taken_from_the_item(item: &Json, r: Json, k: Seq<char>)
    requires
        call_ensures(codex_tool_input, (item,), r),
    ensures
        r@ is Obj,
        ({
            let kept = k == "command"@ || k == "cwd"@ || k == "changes"@ || k == "path"@ || k
                == "server"@ || k == "tool"@ || k == "arguments"@ || k == "invocation"@;
            &&& kept && !(item@.at(k) is Null) ==> r@.get(k) == Some(item@.at(k))
            &&& !kept || item@.at(k) is Null ==> r@.get(k) is None
        }),
{
    let keys = crate::proto::input_keys();
    lemma_members(item@, keys, k);
    assert(keys[0] == "command"@ && keys[1] == "cwd"@ && keys[2] == "changes"@ && keys[3]
        == "path"@ && keys[4] == "server"@ && keys[5] == "tool"@ && keys[6] == "arguments"@
        && keys[7] == "invocation"@);
    if keys.contains(k) {
        let i = keys.index_of(k);
        assert(0 <= i < 8);
    }
}

/// A tool failed exactly when its status says so or its exit code is not zero.
pub proof fn law_exit_code_tells_failure(item: &Json, r: bool)
    requires
        call_ensures(codex_item_is_error, (item,), r),
    ensures
        item@.str_at("status"@) == Some("failed"@) ==> r,
        item@.str_at("status"@) == Some("error"@) ==> r,
        item@.str_at("status"@) == Some("declined"@) ==> r,
        item@.str_at("status"@) == Some("canceled"@) ==> r,
        item@.str_at("status"@) == Some("cancelled"@) ==> r,
        item@.str_at("status"@) is None ==> r == (item@.at("exit_code"@).as_i64() is Some
            && item@.at("exit_code"@).as_i64()->0 != 0),
        item@.str_at("status"@) == Some("completed"@) ==> r == (item@.at("exit_code"@).as_i64()
            is Some && item@.at("exit_code"@).as_i64()->0 != 0),
{
    reveal_strlit("failed");
    reveal_strlit("error");
    reveal_strlit("declined");
    reveal_strlit("canceled");
    reveal_strlit("cancelled");
    reveal_strlit("completed");
    assert("failed"@.len() == 6 && "error"@.len() == 5 && "declined"@.len() == 8);
    assert("canceled"@.len() == 8 && "cancelled"@.len() == 9 && "completed"@.len() == 9);
    assert("completed"@[1] == 'o' && "cancelled"@[1] == 'a');
}

/// A text that is no JSON object is told as it is, the white space around it aside; of an
/// object, the message in it is told where it has one.
pub proof fn law_errors_are_told_by_their_message(raw: &str, doc: Option<&Json>, r: String)
    requires
        call_ensures(humanize_parsed, (raw, doc), r),
    ensures
        ({
            let t = trimmed(raw@);
            let object = t.len() > 0 && t[0] == '{';
            &&& !object || doc is None ==> r@ == t
            &&& object && doc is Some ==> {
                let nested = doc->0@.at("error"@).str_at("message"@);
                let message = doc->0@.str_at("message"@);
                let error = doc->0@.str_at("error"@);
                &&& nested is Some && trimmed(nested->0).len() > 0 ==> r@ == trimmed(nested->0)
                &&& nested is None && message is Some && trimmed(message->0).len() > 0 ==> r@
                    == trimmed(message->0)
                &&& nested is None && message is None && error is Some && trimmed(error->0).len()
                    > 0 ==> r@ == trimmed(error->0)
                &&& nested is None && message is None && error is None ==> r@ == t
                &&& nested is Some && trimmed(nested->0).len() == 0 ==> r@ == t
                &&& nested is None && message is Some && trimmed(message->0).len() == 0 ==> r@ == t
                &&& nested is None && message is None && error is Some && trimmed(error->0).len()
                    == 0 ==> r@ == t
            }
        }),
{
    reveal_strlit("{");
    let t = trimmed(raw@);
    if t.len() > 0 {
        assert("{"@.len() == 1 && "{"@[0] == '{');
        assert(t.subrange(0, 1).len() == 1);
        if t[0] == '{' {
            assert(t.subrange(0, 1) =~= "{"@);
        } else {
            assert(t.subrange(0, 1)[0] == t[0]);
        }
    }
}

proof fn lemma_picked_splits<T>(
    a: Seq<JsonView>,
    b: Seq<JsonView>,
    f: spec_fn(JsonView) -> Option<T>,
)
    ensures
        picked(a + b, f) == picked(a, f) + picked(b, f),
    decreases b.len(),
{
    if b.len() == 0 {
        assert(a + b =~= a);
        assert(picked(a, f) + picked(b, f) =~= picked(a, f));
    } else {
        lemma_picked_splits(a, b.drop_last(), f);
        assert((a + b).drop_last() =~= a + b.drop_last());
        assert((a + b).last() == b.last());
        assert(picked(a + b, f) =~= picked(a, f) + picked(b, f));
    }
}

proof fn lemma_picked_one<T>(x: JsonView, f: spec_fn(JsonView) -> Option<T>)
    ensures
        picked(seq![x], f) == (match f(x) {
            Some(y) => seq![y],
            None => seq![],
        }),
{
    let s = seq![x];
    assert(s.drop_last() =~= seq![]);
    reveal_with_fuel(picked, 2);
    match f(x) {
        Some(y) => {
            assert(picked(s, f) =~= seq![y]);
        },
        None => {
            assert(picked(s, f) =~= seq![]);
        },
    }
}

/// What a list holds of texts, calls, results, commands, servers and names is what its
/// first part holds and then what the rest holds: nothing is lost, added or moved.
pub proof fn law_lists_are_read_item_by_item(a: Seq<JsonView>, b: Seq<JsonView>)
    ensures
        message_texts(a + b) == message_texts(a) + message_texts(b),
        message_calls(a + b) == message_calls(a) + message_calls(b),
        message_results(a + b) == message_results(a) + message_results(b),
        block_texts(a + b) == block_texts(a) + block_texts(b),
        listed_cmds(a + b) == listed_cmds(a) + listed_cmds(b),
        listed_servers(a + b) == listed_servers(a) + listed_servers(b),
        listed_names(a + b) == listed_names(a) + listed_names(b),
        described_cmds(a + b) == described_cmds(a) + described_cmds(b),
        change_lines(a + b) == change_lines(a) + change_lines(b),
{
    lemma_picked_splits(a, b, |x: JsonView| crate::proto::block_text(x));
    lemma_picked_splits(a, b, |x: JsonView| crate::proto::block_call(x));
    lemma_picked_splits(a, b, |x: JsonView| crate::proto::block_result(x));
    lemma_picked_splits(a, b, |x: JsonView| x.str_at("text"@));
    lemma_picked_splits(a, b, |x: JsonView| crate::proto::listed_cmd(x));
    lemma_picked_splits(a, b, |x: JsonView| crate::proto::listed_server(x));
    lemma_picked_splits(a, b, |x: JsonView| x.as_str());
    lemma_picked_splits(a, b, |x: JsonView| crate::proto::described_cmd(x));
    lemma_picked_splits(a, b, |x: JsonView| crate::proto::change_line(x));
}

/// What one block of a message is: a text block its text, unless that is empty; a
/// "tool_use" block a call that has no output yet; a "tool_result" block a result.
pub proof fn law_one_block(b: JsonView)
    ensures
        b.str_at("type"@) == Some("tool_use"@) && b.str_at("id"@) is None ==> message_calls(
            seq![b],
        )[0].id.len() == 0,
        b.str_at("type"@) == Some("tool_result"@) && !(b.at("content"@) is Str) && !(b.at(
            "content"@,
        ) is Arr) ==> message_results(seq![b])[0].output.len() == 0,
        b.str_at("type"@) == Some("tool_result"@) && b.str_at("tool_use_id"@) is None
            ==> message_results(seq![b])[0].id.len() == 0,
        b.str_at("type"@) == Some("text"@) && b.str_at("text"@) is Some && b.str_at(
            "text"@,
        )->0.len() > 0 ==> message_texts(seq![b]) == seq![b.str_at("text"@)->0],
        b.str_at("type"@) != Some("text"@) || b.str_at("text"@) is None || b.str_at(
            "text"@,
        )->0.len() == 0 ==> message_texts(seq![b]).len() == 0,
        message_calls(seq![b]).len() == (if b.str_at("type"@) == Some("tool_use"@) {
            1nat
        } else {
            0
        }),
        b.str_at("type"@) == Some("tool_use"@) ==> {
            let c = message_calls(seq![b])[0];
            &&& b.str_at("id"@) is Some ==> c.id == b.str_at("id"@)->0
            &&& b.str_at("name"@) is Some ==> c.name == b.str_at("name"@)->0
            &&& b.str_at("name"@) is None ==> c.name == "tool"@
            &&& json_text(b.at("input"@)).len() <= 16_000 ==> c.input == b.at("input"@)
            &&& c.output is None && !c.is_error && c.collab_threads.len() == 0
        },
        message_results(seq![b]).len() == (if b.str_at("type"@) == Some("tool_result"@) {
            1nat
        } else {
            0
        }),
        b.str_at("type"@) == Some("tool_result"@) ==> {
            let c = message_results(seq![b])[0];
            let content = b.at("content"@);
            &&& b.str_at("tool_use_id"@) is Some ==> c.id == b.str_at("tool_use_id"@)->0
            &&& c.is_error == (b.at("is_error"@) == JsonView::Bool(true))
            &&& content is Str && content->Str_0.len() <= 16_000 ==> c.output == content->Str_0
            &&& content is Arr && joined(block_texts(content->Arr_0), "\n"@).len() <= 16_000
                ==> c.output == joined(block_texts(content->Arr_0), "\n"@)
        },
{
    lemma_picked_one(b, |x: JsonView| crate::proto::block_text(x));
    lemma_picked_one(b, |x: JsonView| crate::proto::block_call(x));
    lemma_picked_one(b, |x: JsonView| crate::proto::block_result(x));
    reveal_strlit("text");
    reveal_strlit("tool_use");
    assert("text"@.len() == 4 && "tool_use"@.len() == 8);
}

/// What one entry of the other lists is.
pub proof fn law_one_entry(x: JsonView)
    ensures
        x.str_at("text"@) is Some ==> block_texts(seq![x]) == seq![x.str_at("text"@)->0],
        x.str_at("text"@) is None ==> block_texts(seq![x]).len() == 0,
        x is Str ==> listed_names(seq![x]) == seq![x->Str_0],
        !(x is Str) ==> listed_names(seq![x]).len() == 0,
        listed_cmds(seq![x]).len() == listed_names(seq![x]).len(),
        x is Str ==> listed_cmds(seq![x])[0].name == x->Str_0 && listed_cmds(
            seq![x],
        )[0].description is None && listed_cmds(seq![x])[0].arg_hint is None,
        x.str_at("name"@) is None ==> listed_servers(seq![x]).len() == 0 && described_cmds(
            seq![x],
        ).len() == 0,
        x.str_at("name"@) is Some ==> {
            let server = listed_servers(seq![x]);
            let cmd = described_cmds(seq![x]);
            &&& server.len() == 1 && cmd.len() == 1
            &&& server[0].name == x.str_at("name"@)->0 && cmd[0].name == x.str_at("name"@)->0
            &&& x.str_at("status"@) is Some ==> server[0].status == x.str_at("status"@)->0
            &&& x.str_at("status"@) is None ==> server[0].status == "unknown"@
            &&& x.str_at("description"@) is Some && x.str_at("description"@)->0.len() > 0
                ==> cmd[0].description == x.str_at("description"@)
            &&& x.str_at("description"@) is None || x.str_at("description"@)->0.len() == 0
                ==> cmd[0].description is None
            &&& x.str_at("argumentHint"@) is Some && x.str_at("argumentHint"@)->0.len() > 0
                ==> cmd[0].arg_hint == x.str_at("argumentHint"@)
            &&& x.str_at("argumentHint"@) is None || x.str_at("argumentHint"@)->0.len() == 0
                ==> cmd[0].arg_hint is None
        },
        x.str_at("path"@) is None ==> change_lines(seq![x]).len() == 0,
        x.str_at("path"@) is Some && x.str_at("kind"@) is Some ==> change_lines(seq![x]) == seq![
            x.str_at("kind"@)->0 + "  "@ + x.str_at("path"@)->0,
        ],
        x.str_at("path"@) is Some && x.str_at("kind"@) is None ==> change_lines(seq![x]) == seq![
            "change"@ + "  "@ + x.str_at("path"@)->0,
        ],
{
    lemma_picked_one(x, |x: JsonView| x.str_at("text"@));
    lemma_picked_one(x, |x: JsonView| crate::proto::listed_cmd(x));
    lemma_picked_one(x, |x: JsonView| crate::proto::listed_server(x));
    lemma_picked_one(x, |x: JsonView| x.as_str());
    lemma_picked_one(x, |x: JsonView| crate::proto::described_cmd(x));
    lemma_picked_one(x, |x: JsonView| crate::proto::change_line(x));
}

/// A result of text is that text, one of blocks their texts, one on a line; what is too
/// long is cut, and says so.
pub proof fn law_result_text(content: Option<&Json>, r: String)
    requires
        call_ensures(tool_result_text, (content,), r),
    ensures
        ({
            let all = match content {
                Some(c) => match c@ {
                    JsonView::Str(s) => s,
                    JsonView::Arr(items) => joined(block_texts(items), "\n"@),
                    _ => seq![],
                },
                None => seq![],
            };
            &&& all.len() <= 16_000 ==> r@ == all
            &&& all.len() > 16_000 ==> r@ == all.subrange(0, 16_000) + "\n… (truncated)"@
        }),
{
}

/// Output is kept whole up to the cap; beyond it, its start and a note of the cut.
pub proof fn law_output_is_cut_at_the_cap(s: String, r: String)
    requires
        call_ensures(cap_output, (s,), r),
    ensures
        s@.len() <= 16_000 ==> r@ == s@,
        s@.len() > 16_000 ==> r@ == s@.subrange(0, 16_000) + "\n… (truncated)"@,
{
}

/// Input is kept as it is while its text is within the cap; beyond it, the start of that
/// text and a note of the cut.
pub proof fn law_input_is_cut_at_the_cap(input: Json, r: Json)
    requires
        call_ensures(cap_input, (input,), r),
    ensures
        json_text(input@).len() <= 16_000 ==> r@ == input@,
        json_text(input@).len() > 16_000 ==> r@ == JsonView::Str(
            json_text(input@).subrange(0, 16_000) + "… (truncated)"@,
        ),
{
}

/// The summary of an input is the first of its telling members that is a text; else, of
/// an input that is neither empty nor null, its text. It is cut to size.
pub proof fn law_input_summary(input: &Json, r: String)
    requires
        call_ensures(compact_input, (input,), r),
    ensures
        ({
            let keys = seq![
                "file_path"@,
                "path"@,
                "command"@,
                "pattern"@,
                "query"@,
                "url"@,
                "description"@,
            ];
            &&& forall|i: int| #[trigger]
                first_string_key(input@, keys, i) ==> r@ == cut_to_summary(
                    input@.str_at(keys[i])->0,
                )
            &&& (forall|j: int| 0 <= j < keys.len() ==> input@.str_at(#[trigger] keys[j]) is None)
                && !(input@ is Null) && !(input@ is Obj) ==> r@ == cut_to_summary(
                json_text(input@),
            )
            &&& input@ is Null ==> r@.len() == 0
            &&& input@ is Obj && input@->Obj_0 =~= map![] ==> r@.len() == 0
            &&& (forall|j: int| 0 <= j < keys.len() ==> input@.str_at(#[trigger] keys[j]) is None)
                && input@ is Obj && !(input@->Obj_0 =~= map![]) ==> r@ == cut_to_summary(
                json_text(input@),
            )
        }),
{
    let keys = crate::proto::summary_keys();
    law_first_string_counts(input@, keys);
    assert forall|s: Seq<char>| crate::text::head(s, 120) == #[trigger] cut_to_summary(s) by {
        if s.len() > 120 {
            assert(s.take(120) =~= s.subrange(0, 120));
        }
    }
    if input@ is Null || (input@ is Obj && input@->Obj_0 =~= map![]) {
        assert forall|j: int| 0 <= j < keys.len() implies input@.str_at(#[trigger] keys[j]) is None by {
        }
    }
}

/// A count of the usage: what is not a count of tokens is none.
pub open spec fn tokens_at(usage: JsonView, key: Seq<char>) -> int {
    match usage.get(key) {
        Some(JsonView::Int(n)) => if 0 <= n <= u64::MAX {
            n
        } else {
            0
        },
        _ => 0,
    }
}

/// The context is the input, what was read from the cache and what was put into it.
/// Without a usage document there is no count.
pub proof fn law_context_is_the_sum_of_its_parts(usage: Option<&Json>, r: Option<u64>)
    requires
        usage matches Some(u) ==> usage_sum(u@) <= u64::MAX,
        call_ensures(context_tokens, (usage,), r),
    ensures
        r is Some == (usage is Some && usage->0@ is Obj),
        r is Some ==> r->0 == tokens_at(usage->0@, "input_tokens"@) + tokens_at(
            usage->0@,
            "cache_read_input_tokens"@,
        ) + tokens_at(usage->0@, "cache_creation_input_tokens"@),
{
}

/// The names of the resident document types differ.
proof fn lemma_resident_types()
    ensures
        "system"@ != "stream_event"@ && "system"@ != "assistant"@ && "system"@ != "user"@,
        "system"@ != "result"@ && "system"@ != "control_response"@,
        "stream_event"@ != "assistant"@ && "stream_event"@ != "user"@,
        "stream_event"@ != "result"@ && "stream_event"@ != "control_response"@,
        "assistant"@ != "user"@ && "assistant"@ != "result"@,
        "assistant"@ != "control_response"@,
        "user"@ != "result"@ && "user"@ != "control_response"@ && "result"@ != "control_response"@,
{
    reveal_strlit("system");
    reveal_strlit("stream_event");
    reveal_strlit("assistant");
    reveal_strlit("user");
    reveal_strlit("result");
    reveal_strlit("control_response");
    assert("system"@.len() == 6 && "stream_event"@.len() == 12 && "assistant"@.len() == 9);
    assert("user"@.len() == 4 && "result"@.len() == 6 && "control_response"@.len() == 16);
    assert("system"@[0] == 's' && "result"@[0] == 'r');
}

/// A result document ends the turn, and only one does. It is an error unless its subtype
/// is "success".
pub proof fn law_resident_turn_ends(v: &Json, r: ChatEvent)
    requires
        usage_fits(v@),
        call_ensures(read_resident, (v,), r),
    ensures
        r@ is TurnEnd == (v@.str_at("type"@) == Some("result"@)),
        r@ is TurnEnd ==> r@->is_error == (v@.str_at("subtype"@) != Some("success"@)),
        r@ is TurnEnd && v@.at("usage"@) is Obj ==> r@->TurnEnd_context_tokens is Some
            && r@->TurnEnd_context_tokens->0 == tokens_at(v@.at("usage"@), "input_tokens"@)
            + tokens_at(v@.at("usage"@), "cache_read_input_tokens"@) + tokens_at(
            v@.at("usage"@),
            "cache_creation_input_tokens"@,
        ),
        r@ is TurnEnd && !(v@.at("usage"@) is Obj) ==> r@->TurnEnd_context_tokens is None,
{
    lemma_resident_types();
}

/// An assistant document is its text blocks and its calls, in order, under its uuid; a
/// user document the results in it, if there are any.
pub proof fn law_resident_messages(v: &Json, r: ChatEvent)
    requires
        usage_fits(v@),
        call_ensures(read_resident, (v,), r),
    ensures
        ({
            let blocks = arr_or_empty(v@.at("message"@).at("content"@));
            &&& v@.str_at("type"@) == Some("assistant"@) ==> r@ is Assistant && r@->texts
                == message_texts(blocks) && r@->Assistant_tools == message_calls(blocks)
                && r@->uuid == v@.str_at("uuid"@) && r@->Assistant_agent_thread is None
            &&& v@.str_at("type"@) == Some("user"@) && message_results(blocks).len() > 0
                ==> r@ is ToolResults && r@->items == message_results(blocks)
            &&& v@.str_at("type"@) == Some("user"@) && message_results(blocks).len() == 0
                ==> r@ is Other
        }),
{
    lemma_resident_types();
}

/// A stream event is a piece of text exactly when it is a text delta of a content block;
/// an init names the session and lists what it has; an answer to a control request is the
/// commands that it lists.
pub proof fn law_resident_streams_and_inits(v: &Json, r: ChatEvent)
    requires
        usage_fits(v@),
        call_ensures(read_resident, (v,), r),
    ensures
        ({
            let event = v@.at("event"@);
            let delta = event.at("delta"@);
            let piece = v@.str_at("type"@) == Some("stream_event"@) && event.str_at("type"@)
                == Some("content_block_delta"@) && delta.str_at("type"@) == Some("text_delta"@);
            &&& r@ is TextDelta == piece
            &&& piece && delta.str_at("text"@) is Some ==> r@->TextDelta_text == delta.str_at(
                "text"@,
            )->0 && r@->TextDelta_item is None
            &&& r@ is Init == (v@.str_at("type"@) == Some("system"@) && v@.str_at("subtype"@)
                == Some("init"@))
            &&& r@ is Init ==> r@->model == v@.str_at("model"@) && r@->Init_tools
                == listed_names(arr_or_empty(v@.at("tools"@))) && r@->mcp_servers
                == listed_servers(arr_or_empty(v@.at("mcp_servers"@))) && r@->slash_commands
                == listed_cmds(arr_or_empty(v@.at("slash_commands"@)))
            &&& r@ is Init && v@.str_at("session_id"@) is Some ==> r@->session_id == v@.str_at(
                "session_id"@,
            )->0
            &&& r@ is Commands == (v@.str_at("type"@) == Some("control_response"@) && v@.at(
                "response"@,
            ).str_at("subtype"@) == Some("success"@) && v@.at("response"@).at("response"@).at(
                "commands"@,
            ) is Arr)
            &&& r@ is Commands ==> r@->commands == described_cmds(
                v@.at("response"@).at("response"@).at("commands"@)->Arr_0,
            )
        }),
{
    lemma_resident_types();
}

/// A served tool is told once, when it is over: as a call that has its output, and is an
/// error when its status says so. A text document is its text. Everything else is
/// nothing, and nothing ends the turn.
pub proof fn law_served_documents(v: &Json, r: ChatEvent)
    requires
        call_ensures(read_opencode, (v,), r),
    ensures
        r@ is Assistant ==> r@->uuid is None && r@->Assistant_agent_thread is None,
        r@ is Assistant && r@->Assistant_tools.len() == 1 ==> r@->Assistant_tools[0].id.len() == 0
            && r@->Assistant_tools[0].collab_threads.len() == 0,
        r@ is Assistant && r@->Assistant_tools.len() == 1 && v@.at("part"@).str_at("tool"@) is None
            ==> r@->Assistant_tools[0].name == "tool"@,
        ({
            let part = v@.at("part"@);
            let state = part.at("state"@);
            let status = state.str_at("status"@);
            let over = status == Some("completed"@) || status == Some("error"@);
            let tool = v@.str_at("type"@) == Some("tool_use"@);
            let text = v@.str_at("type"@) == Some("text"@);
            &&& text ==> r@ is Assistant && r@->Assistant_tools.len() == 0
            &&& text && part.str_at("text"@) is Some ==> r@->texts == seq![
                part.str_at("text"@)->0,
            ]
            &&& text && part.str_at("text"@) is None ==> r@->texts.len() == 0
            &&& tool && over ==> r@ is Assistant && r@->texts.len() == 0
                && r@->Assistant_tools.len() == 1
            &&& tool && over ==> r@->Assistant_tools[0].is_error == (status == Some("error"@))
            &&& tool && over ==> r@->Assistant_tools[0].output is Some
            &&& tool && over && part.str_at("tool"@) is Some ==> r@->Assistant_tools[0].name
                == part.str_at("tool"@)->0
            &&& tool && over && state.str_at("output"@) is Some && state.str_at(
                "output"@,
            )->0.len() <= 16_000 ==> r@->Assistant_tools[0].output == state.str_at("output"@)
            &&& tool && over && json_text(state.at("input"@)).len() <= 16_000
                ==> r@->Assistant_tools[0].input == state.at("input"@)
            &&& tool && !over ==> r@ is Other
            &&& !tool && !text ==> r@ is Other
        }),
{
    reveal_strlit("text");
    reveal_strlit("tool_use");
    assert("text"@.len() == 4 && "tool_use"@.len() == 8);
    reveal_strlit("completed");
    reveal_strlit("error");
    assert("completed"@.len() == 9 && "error"@.len() == 5);
    reveal_with_fuel(first_str, 2);
}

/// The output of a served tool is its output, else its result, else what it printed, else
/// its notes.
pub proof fn law_served_output(state: &Json, r: String)
    requires
        call_ensures(opencode_output, (state,), r),
    ensures
        ({
            let keys = seq!["output"@, "result"@, "stdout"@, "metadata"@];
            &&& forall|i: int| #[trigger]
                first_string_key(state@, keys, i) && state@.str_at(keys[i])->0.len() <= 16_000
                    ==> r@ == state@.str_at(keys[i])->0
            &&& (forall|j: int| 0 <= j < keys.len() ==> state@.str_at(#[trigger] keys[j]) is None)
                ==> r@.len() == 0
        }),
{
    let keys = seq!["output"@, "result"@, "stdout"@, "metadata"@];
    law_first_string_counts(state@, keys);
}

/// A line is read in the dialect of its tool, and says what its document says; a line
/// that is no document is nothing.
pub proof fn law_lines_are_read_in_their_dialect(
    tool: &str,
    line: &str,
    r: ChatEvent,
    codex: ChatEvent,
    served: ChatEvent,
    resident: ChatEvent,
)
    requires
        line_usage_fits(line@),
        call_ensures(parse_line_for, (tool, line), r),
        call_ensures(parse_codex, (line,), codex),
        call_ensures(parse_opencode, (line,), served),
        call_ensures(parse_line, (line,), resident),
    ensures
        tool@ == "codex"@ ==> r@ == codex@,
        tool@ == "opencode"@ ==> r@ == served@,
        tool@ != "codex"@ && tool@ != "opencode"@ ==> r@ == resident@,
        parsed(line@) is None ==> codex@ is Other && served@ is Other && resident@ is Other,
{
    reveal_strlit("codex");
    reveal_strlit("opencode");
    assert("codex"@.len() == 5 && "opencode"@.len() == 8);
}

/// A line says what its document says.
pub proof fn law_line_says_what_its_document_says(
    line: &str,
    v: &Json,
    from_line: ChatEvent,
    from_document: ChatEvent,
)
    requires
        parsed(line@) == Some(v@),
    ensures
        call_ensures(parse_codex, (line,), from_line) && call_ensures(
            read_codex,
            (v,),
            from_document,
        ) ==> from_line@ == from_document@,
        call_ensures(parse_opencode, (line,), from_line) && call_ensures(
            read_opencode,
            (v,),
            from_document,
        ) ==> from_line@ == from_document@,
        call_ensures(parse_line, (line,), from_line) && call_ensures(
            read_resident,
            (v,),
            from_document,
        ) ==> from_line@ == from_document@,
{
}

/// The native session is named by "thread_id" in the codex dialect and by "sessionID" in
/// the served one; no other dialect names it on its lines.
pub proof fn law_native_id_of_a_line(tool: &str, line: &str, r: Option<String>)
    requires
        call_ensures(extract_native, (tool, line), r),
    ensures
        parsed(line@) is None ==> r is None,
        parsed(line@) is Some && tool@ == "codex"@ ==> opt_view(r) == parsed(line@)->0.str_at(
            "thread_id"@,
        ),
        parsed(line@) is Some && tool@ == "opencode"@ ==> opt_view(r) == parsed(line@)->0.str_at(
            "sessionID"@,
        ),
        tool@ != "codex"@ && tool@ != "opencode"@ ==> r is None,
{
    reveal_strlit("codex");
    reveal_strlit("opencode");
    assert("codex"@.len() == 5 && "opencode"@.len() == 8);
}

/// What a codex error item tells: its message, text, summary or detail, in this order;
/// else the message of its error, or the error itself.
pub proof fn law_item_error_text(item: JsonView)
    ensures
        ({
            let keys = seq!["message"@, "text"@, "summary"@, "detail"@];
            let silent = forall|j: int|
                0 <= j < keys.len() ==> item.str_at(#[trigger] keys[j]) is None;
            &&& forall|i: int| #[trigger]
                first_string_key(item, keys, i) ==> item_error_text(item) == item.str_at(
                    keys[i],
                )->0
            &&& silent && item.at("error"@).str_at("message"@) is Some ==> item_error_text(item)
                == item.at("error"@).str_at("message"@)->0
            &&& silent && item.at("error"@) is Str ==> item_error_text(item) == item.at(
                "error"@,
            )->Str_0
            &&& silent && item.at("error"@) is Null ==> item_error_text(item)
                == "Codex reported an error."@
        }),
{
    law_first_string_counts(item, seq!["message"@, "text"@, "summary"@, "detail"@]);
}

/// A line whose counts can be added up is read as ever; any other is not read.
pub proof fn law_lines_whose_counts_add_up_are_read(
    tool: &str,
    line: &str,
    checked: Option<ChatEvent>,
    plain: ChatEvent,
    resident: Option<ChatEvent>,
)
    requires
        call_ensures(try_parse_line_for, (tool, line), checked),
        call_ensures(try_parse_line, (line,), resident),
    ensures
        tool@ == "codex"@ || tool@ == "opencode"@ || line_usage_fits(line@) ==> checked is Some,
        checked is Some && call_ensures(parse_line_for, (tool, line), plain) ==> checked->0@
            == plain@,
        resident is Some == line_usage_fits(line@),
        tool@ != "codex"@ && tool@ != "opencode"@ && resident is Some ==> checked is Some
            && checked->0@ == resident->0@,
{
}

/// A line's counts can be added up unless it is a result whose sum passes 64 bits.
pub proof fn law_which_counts_add_up(line: Seq<char>)
    ensures
        parsed(line) is None ==> line_usage_fits(line),
        parsed(line) is Some && parsed(line)->0.str_at("type"@) != Some("result"@)
            ==> line_usage_fits(line),
        parsed(line) is Some && parsed(line)->0.str_at("type"@) == Some("result"@) ==> ({
            let usage = parsed(line)->0.at("usage"@);
            line_usage_fits(line) == (tokens_at(usage, "input_tokens"@) + tokens_at(
                usage,
                "cache_read_input_tokens"@,
            ) + tokens_at(usage, "cache_creation_input_tokens"@) <= u64::MAX)
        }),
{
}

/// An error item is told by its text, made readable.
pub proof fn law_error_item_is_told(item: &Json, r: String, raw: &str, told: String)
    requires
        raw@ == item_error_text(item@),
        call_ensures(error_text_from_item, (item,), r),
        call_ensures(humanize_error_text, (raw,), told),
    ensures
        r@ == told@,
{
}

/// The native id of a document is that of its line.
pub proof fn law_native_id_of_a_document(
    tool: &str,
    line: &str,
    v: &Json,
    r: Option<String>,
    from_line: Option<String>,
)
    requires
        parsed(line@) == Some(v@),
        call_ensures(read_native, (tool, v), r),
        call_ensures(extract_native, (tool, line), from_line),
    ensures
        opt_view(r) == opt_view(from_line),
{
}

/// The names in a list are its texts, in order; copies are what they are copies of; and a
/// bare command has a name and nothing else.
pub proof fn law_names_and_copies(
    items: Vec<Json>,
    names: Vec<String>,
    cmd: &SlashCmd,
    c: SlashCmd,
    server: &McpServer,
    s: McpServer,
    name: &str,
    bare: SlashCmd,
)
    requires
        call_ensures(collect_names, (&items,), names),
        call_ensures(SlashCmd::copy, (cmd,), c),
        call_ensures(McpServer::copy, (server,), s),
        call_ensures(SlashCmd::bare, (name,), bare),
    ensures
        texts_view(names@) == listed_names(items_view(items@)),
        c.name@ == cmd.name@ && opt_view(c.description) == opt_view(cmd.description) && opt_view(
            c.arg_hint,
        ) == opt_view(cmd.arg_hint),
        s.name@ == server.name@ && s.status@ == server.status@,
        bare.name@ == name@ && bare.description is None && bare.arg_hint is None,
{
    assert(c@ == cmd@ && s@ == server@);
}

/// A value is told as its text: a string as it is, a list of blocks as their texts, one on
/// a line, and anything else as the document it is.
pub proof fn law_value_is_told_as_its_text(v: JsonView)
    ensures
        v is Str ==> result_value_text(v) == v->Str_0,
        !(v is Str) && v.at("content"@) is Arr && joined(
            block_texts(v.at("content"@)->Arr_0),
            "\n"@,
        ).len() > 0 ==> result_value_text(v) == joined(
            block_texts(v.at("content"@)->Arr_0),
            "\n"@,
        ),
        !(v is Str) && !(v.at("content"@) is Arr) ==> result_value_text(v) == json_text(v),
        !(v is Str) && v.at("content"@) is Arr && joined(
            block_texts(v.at("content"@)->Arr_0),
            "\n"@,
        ).len() == 0 ==> result_value_text(v) == json_text(v),
{
    reveal_with_fuel(picked, 2);
}

/// The call of a codex tool holds its input, cut to size, and its summary; the result its
/// output, cut to size.
pub proof fn law_codex_call_and_result_are_filled(
    item: &Json,
    call: ToolCall,
    result: ToolResultItem,
    summary: String,
    input: Json,
    cut: Json,
    output: String,
    kept: String,
)
    requires
        call_ensures(codex_tool_call, (item,), call),
        call_ensures(codex_tool_result, (item,), result),
        call_ensures(codex_tool_summary, (item,), summary),
        call_ensures(codex_tool_input, (item,), input),
        call_ensures(cap_input, (input,), cut),
        call_ensures(codex_item_output, (item,), output),
        call_ensures(cap_output, (output,), kept),
    ensures
        call.summary@ == summary@,
        call.input@ == cut@,
        result.output@ == kept@,
{
    assert(call@.summary == call.summary@ && call@.input == call.input@);
    assert(result@.output == result.output@);
}

/// The call of a block, and of a served tool, hold their input, cut to size, and its
/// summary.
pub proof fn law_calls_hold_their_input(
    b: JsonView,
    input: &Json,
    summary: String,
    whole: Json,
    cut: Json,
)
    requires
        b.str_at("type"@) == Some("tool_use"@),
        b.at("input"@) == input@,
        whole@ == input@,
        call_ensures(compact_input, (input,), summary),
        call_ensures(cap_input, (whole,), cut),
    ensures
        message_calls(seq![b])[0].summary == summary@,
        message_calls(seq![b])[0].input == cut@,
{
    lemma_picked_one(b, |x: JsonView| crate::proto::block_call(x));
    reveal_strlit("text");
    reveal_strlit("tool_use");
    assert("text"@.len() == 4 && "tool_use"@.len() == 8);
}

} // verus!
