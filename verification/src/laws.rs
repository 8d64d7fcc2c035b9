//! Laws of the pipeline, stated over the same spec functions the executable
//! contracts use, and proved once for all inputs.

use vstd::prelude::*;

use crate::format::{join_lines, lines_of, spec_format, spec_process_line, spec_render_tool};
use crate::json::{parsed_json_of, str_field_of, JsonData};
use crate::message::{BlockModel, MessageModel};
use crate::text::{is_blank, spec_truncate};

verus! {

/// The text a block carries (empty for the other shapes).
pub open spec fn text_of(b: BlockModel) -> Seq<char> {
    match b {
        BlockModel::Text { text } => text,
        _ => Seq::empty(),
    }
}

proof fn lemma_lines_text_only(bs: Seq<BlockModel>)
    requires
        forall|i: int|
            0 <= i < bs.len() ==> ((#[trigger] bs[i]) matches BlockModel::Text { text }
                && !is_blank(text)),
    ensures
        lines_of(bs) =~= bs.map_values(|b: BlockModel| text_of(b)),
    decreases bs.len(),
{
    if bs.len() > 0 {
        lemma_lines_text_only(bs.drop_last());
    }
}

/// An assistant message whose content is only non-blank text blocks renders
/// as exactly those texts, verbatim and in order, joined by newlines.
pub proof fn lemma_assistant_text_only(m: MessageModel)
    requires
        m.kind == "assistant"@,
        m.content matches Some(bs) && bs.len() > 0 && (forall|i: int|
            0 <= i < bs.len() ==> ((#[trigger] bs[i]) matches BlockModel::Text { text }
                && !is_blank(text))),
    ensures
        m.content matches Some(bs) && spec_format(m) == Some(
            join_lines(bs.map_values(|b: BlockModel| text_of(b))),
        ),
{
    let bs = m.content.unwrap();
    lemma_lines_text_only(bs);
}

proof fn lemma_lines_silent(bs: Seq<BlockModel>)
    requires
        forall|i: int|
            0 <= i < bs.len() ==> ((#[trigger] bs[i]) is Other || (bs[i]
                matches BlockModel::Text { text } && is_blank(text))),
    ensures
        lines_of(bs).len() == 0,
    decreases bs.len(),
{
    if bs.len() > 0 {
        lemma_lines_silent(bs.drop_last());
    }
}

/// An assistant message whose content is empty, or holds only blank text
/// blocks and unrecognized blocks, renders as nothing.
pub proof fn lemma_assistant_silent(m: MessageModel)
    requires
        m.kind == "assistant"@,
        m.content matches Some(bs) && (forall|i: int|
            0 <= i < bs.len() ==> ((#[trigger] bs[i]) is Other || (bs[i]
                matches BlockModel::Text { text } && is_blank(text)))),
    ensures
        spec_format(m) is None,
{
    lemma_lines_silent(m.content.unwrap());
}

/// Truncation leaves a fitting text unchanged, is idempotent, and cuts an
/// oversized text to exactly `n` characters ending in the ellipsis.
pub proof fn lemma_truncate_properties(s: Seq<char>, n: int)
    requires
        3 <= n,
    ensures
        s.len() <= n ==> spec_truncate(s, n) == s,
        spec_truncate(spec_truncate(s, n), n) == spec_truncate(s, n),
        s.len() > n ==> spec_truncate(s, n).len() == n,
        s.len() > n ==> spec_truncate(s, n).subrange(n - 3, n) == seq!['.', '.', '.'],
{
    if s.len() > n {
        assert(spec_truncate(s, n).subrange(n - 3, n) =~= seq!['.', '.', '.']);
    }
}

/// Tool rendering is total and never empty; a tool whose expected field is
/// missing or of the wrong shape renders that field as the placeholder.
pub proof fn lemma_tool_render_placeholder(name: Seq<char>, input: JsonData)
    ensures
        spec_render_tool(name, input).len() > 0,
        name == "Read"@ && str_field_of(input, "file_path"@) is None ==> spec_render_tool(
            name,
            input,
        ) == "📖 Read: "@ + "?"@,
        name == "Edit"@ && str_field_of(input, "file_path"@) is None ==> spec_render_tool(
            name,
            input,
        ) == "✏️  Edit: "@ + "?"@,
        name == "Write"@ && str_field_of(input, "file_path"@) is None ==> spec_render_tool(
            name,
            input,
        ) == "📝 Write: "@ + "?"@,
        name == "Bash"@ && str_field_of(input, "command"@) is None ==> spec_render_tool(
            name,
            input,
        ) == "💻 Bash: "@ + "?"@,
        name == "Glob"@ && str_field_of(input, "pattern"@) is None ==> spec_render_tool(
            name,
            input,
        ) == "🔍 Glob: "@ + "?"@,
        name == "Grep"@ && str_field_of(input, "pattern"@) is None ==> spec_render_tool(
            name,
            input,
        ) == "🔎 Grep: "@ + "?"@,
        name == "Task"@ && str_field_of(input, "description"@) is None ==> spec_render_tool(
            name,
            input,
        ) == "🤖 Task: "@ + "?"@,
{
    broadcast use vstd::string::group_string_axioms;

    reveal_strlit("Read");
    reveal_strlit("Edit");
    reveal_strlit("Write");
    reveal_strlit("Bash");
    reveal_strlit("Glob");
    reveal_strlit("Grep");
    reveal_strlit("TodoWrite");
    reveal_strlit("Task");
    reveal_strlit("📖 Read: ");
    reveal_strlit("✏️  Edit: ");
    reveal_strlit("📝 Write: ");
    reveal_strlit("💻 Bash: ");
    reveal_strlit("🔍 Glob: ");
    reveal_strlit("🔎 Grep: ");
    reveal_strlit("📋 TodoWrite");
    reveal_strlit("🤖 Task: ");
    reveal_strlit("🔧 ");
    reveal_strlit("?");
    assert("Read"@[0] == 'R' && "Edit"@[0] == 'E' && "Write"@[0] == 'W' && "Bash"@[0] == 'B'
        && "Glob"@[0] == 'G' && "Grep"@[0] == 'G' && "TodoWrite"@[0] == 'T' && "Task"@[0] == 'T');
    assert("Glob"@[1] == 'l' && "Grep"@[1] == 'r' && "TodoWrite"@[1] == 'o' && "Task"@[1] == 'a');
}

/// Every rendered form leads with its tool's own marker, a function of the
/// tool's name alone; the nine markers are pairwise distinct characters.
pub proof fn lemma_tool_markers_distinct(name: Seq<char>, input: JsonData)
    ensures
        name == "Read"@ ==> spec_render_tool(name, input)[0] == '📖',
        name == "Edit"@ ==> spec_render_tool(name, input)[0] == '✏',
        name == "Write"@ ==> spec_render_tool(name, input)[0] == '📝',
        name == "Bash"@ ==> spec_render_tool(name, input)[0] == '💻',
        name == "Glob"@ ==> spec_render_tool(name, input)[0] == '🔍',
        name == "Grep"@ ==> spec_render_tool(name, input)[0] == '🔎',
        name == "TodoWrite"@ ==> spec_render_tool(name, input)[0] == '📋',
        name == "Task"@ ==> spec_render_tool(name, input)[0] == '🤖',
        name != "Read"@ && name != "Edit"@ && name != "Write"@ && name != "Bash"@ && name
            != "Glob"@ && name != "Grep"@ && name != "TodoWrite"@ && name != "Task"@
            ==> spec_render_tool(name, input)[0] == '🔧',
{
    broadcast use vstd::string::group_string_axioms;

    reveal_strlit("Read");
    reveal_strlit("Edit");
    reveal_strlit("Write");
    reveal_strlit("Bash");
    reveal_strlit("Glob");
    reveal_strlit("Grep");
    reveal_strlit("TodoWrite");
    reveal_strlit("Task");
    reveal_strlit("📖 Read: ");
    reveal_strlit("✏️  Edit: ");
    reveal_strlit("📝 Write: ");
    reveal_strlit("💻 Bash: ");
    reveal_strlit("🔍 Glob: ");
    reveal_strlit("🔎 Grep: ");
    reveal_strlit("📋 TodoWrite");
    reveal_strlit("🤖 Task: ");
    reveal_strlit("🔧 ");
    assert("Read"@[0] == 'R' && "Edit"@[0] == 'E' && "Write"@[0] == 'W' && "Bash"@[0] == 'B'
        && "Glob"@[0] == 'G' && "Grep"@[0] == 'G' && "TodoWrite"@[0] == 'T' && "Task"@[0] == 'T');
    assert("Glob"@[1] == 'l' && "Grep"@[1] == 'r' && "TodoWrite"@[1] == 'o' && "Task"@[1] == 'a');
}

/// Every unknown tool name renders as the generic fallback carrying the name.
pub proof fn lemma_unknown_tool_fallback(name: Seq<char>, input: JsonData)
    requires
        name != "Read"@,
        name != "Edit"@,
        name != "Write"@,
        name != "Bash"@,
        name != "Glob"@,
        name != "Grep"@,
        name != "TodoWrite"@,
        name != "Task"@,
    ensures
        spec_render_tool(name, input) == "🔧 "@ + name,
{
}

/// A line that is not valid JSON produces nothing; processing is a pure
/// function of the one line, so such a line cannot disturb any other.
pub proof fn lemma_malformed_line_silent(s: Seq<char>)
    ensures
        parsed_json_of(s) is None ==> spec_process_line(s) is None,
{
}

} // verus!
