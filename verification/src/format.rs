//! The formatter: renders a decoded stream message as zero or one summary
//! string, one line per contributing content block.
//!
//! Each known tool name renders with its own marker glyph; an unknown tool
//! renders as the generic glyph followed by the tool's name; a field that a
//! rule expects but the input lacks (or holds with the wrong type) renders as
//! the placeholder `"?"`.

use vstd::prelude::*;
use vstd::string::StringExecFns;

use crate::json::{json_as_str, json_get, json_model, parsed_json_of, str_field_of, JsonData};
use crate::message::{
    block_model, decode, message_model, spec_decode_message, BlockModel, ContentBlock,
    MessageModel, StreamMessage,
};
use crate::text::{is_blank, is_blank_str, spec_truncate, str_eq, truncate};

verus! {

/// The string a tool rendering shows for field `key` of `input`: the field's
/// text when present as a string, the placeholder otherwise.
pub open spec fn spec_str_field(input: JsonData, key: Seq<char>) -> Seq<char> {
    match str_field_of(input, key) {
        Some(s) => s,
        None => "?"@,
    }
}

/// How a tool invocation renders: a dispatch on the tool's name, each known
/// tool with its own marker glyph and the fields its rule reads, every other
/// name as the generic glyph plus the name itself. Total: defined for every
/// name and every input shape.
pub open spec fn spec_render_tool(name: Seq<char>, input: JsonData) -> Seq<char> {
    if name == "Read"@ {
        "📖 Read: "@ + spec_str_field(input, "file_path"@)
    } else if name == "Edit"@ {
        "✏️  Edit: "@ + spec_str_field(input, "file_path"@)
    } else if name == "Write"@ {
        "📝 Write: "@ + spec_str_field(input, "file_path"@)
    } else if name == "Bash"@ {
        "💻 Bash: "@ + spec_truncate(spec_str_field(input, "command"@), 80)
    } else if name == "Glob"@ {
        "🔍 Glob: "@ + spec_str_field(input, "pattern"@)
    } else if name == "Grep"@ {
        "🔎 Grep: "@ + spec_str_field(input, "pattern"@)
    } else if name == "TodoWrite"@ {
        "📋 TodoWrite"@
    } else if name == "Task"@ {
        "🤖 Task: "@ + spec_str_field(input, "description"@)
    } else {
        "🔧 "@ + name
    }
}

/// The line one content block contributes: its text when non-blank, a tool
/// rendering, or nothing.
pub open spec fn block_line(b: BlockModel) -> Option<Seq<char>> {
    match b {
        BlockModel::Text { text } => if is_blank(text) {
            None
        } else {
            Some(text)
        },
        BlockModel::ToolUse { name, input } => Some(spec_render_tool(name, input)),
        BlockModel::Other => None,
    }
}

/// The lines a content sequence contributes, in order.
pub open spec fn lines_of(bs: Seq<BlockModel>) -> Seq<Seq<char>>
    decreases bs.len(),
{
    if bs.len() == 0 {
        Seq::empty()
    } else {
        lines_of(bs.drop_last()) + match block_line(bs.last()) {
            Some(l) => seq![l],
            None => Seq::empty(),
        }
    }
}

/// Lines joined with a newline separator.
pub open spec fn join_lines(ls: Seq<Seq<char>>) -> Seq<char>
    decreases ls.len(),
{
    if ls.len() == 0 {
        Seq::empty()
    } else if ls.len() == 1 {
        ls[0]
    } else {
        join_lines(ls.drop_last()) + seq!['\n'] + ls.last()
    }
}

/// What the formatter emits for a message: for an assistant message with
/// content, its blocks' lines joined (absent if none contributes); for a
/// result message with text, the done marker plus the text truncated to 80;
/// nothing for every other message.
pub open spec fn spec_format(m: MessageModel) -> Option<Seq<char>> {
    if m.kind == "assistant"@ {
        match m.content {
            Some(bs) => if lines_of(bs).len() == 0 {
                None
            } else {
                Some(join_lines(lines_of(bs)))
            },
            None => None,
        }
    } else if m.kind == "result"@ {
        match m.result_text {
            Some(t) => Some("✅ Done: "@ + spec_truncate(t, 80)),
            None => None,
        }
    } else {
        None
    }
}

/// The whole pipeline on one line of text: the formatted summary of the
/// decoded message, or nothing when the line is malformed, fails to decode,
/// or decodes to a message that produces no output.
pub open spec fn spec_process_line(s: Seq<char>) -> Option<Seq<char>> {
    match parsed_json_of(s) {
        Some(j) => match spec_decode_message(j) {
            Some(m) => spec_format(m),
            None => None,
        },
        None => None,
    }
}

/// The text field `key` of `input`, or the placeholder when it is missing or
/// not a string.
fn get_str_field(input: &serde_json::Value, key: &str) -> (r: String)
    ensures
        r@ == spec_str_field(json_model(*input), key@),
{
    match json_get(input, key) {
        Some(v) => match json_as_str(v) {
            Some(s) => s.to_owned(),
            None => "?".to_owned(),
        },
        None => "?".to_owned(),
    }
}

/// Render one tool invocation.
pub fn format_tool_use(name: &str, input: &serde_json::Value) -> (r: String)
    ensures
        r@ == spec_render_tool(name@, json_model(*input)),
{
    if str_eq(name, "Read") {
        let mut out = "📖 Read: ".to_owned();
        out.append(get_str_field(input, "file_path").as_str());
        out
    } else if str_eq(name, "Edit") {
        let mut out = "✏️  Edit: ".to_owned();
        out.append(get_str_field(input, "file_path").as_str());
        out
    } else if str_eq(name, "Write") {
        let mut out = "📝 Write: ".to_owned();
        out.append(get_str_field(input, "file_path").as_str());
        out
    } else if str_eq(name, "Bash") {
        let mut out = "💻 Bash: ".to_owned();
        let command = get_str_field(input, "command");
        out.append(truncate(command.as_str(), 80).as_str());
        out
    } else if str_eq(name, "Glob") {
        let mut out = "🔍 Glob: ".to_owned();
        out.append(get_str_field(input, "pattern").as_str());
        out
    } else if str_eq(name, "Grep") {
        let mut out = "🔎 Grep: ".to_owned();
        out.append(get_str_field(input, "pattern").as_str());
        out
    } else if str_eq(name, "TodoWrite") {
        "📋 TodoWrite".to_owned()
    } else if str_eq(name, "Task") {
        let mut out = "🤖 Task: ".to_owned();
        out.append(get_str_field(input, "description").as_str());
        out
    } else {
        let mut out = "🔧 ".to_owned();
        out.append(name);
        out
    }
}

/// Render a decoded message, or nothing when it produces no output.
pub fn format_message(msg: &StreamMessage) -> (r: Option<String>)
    ensures
        r.deep_view() == spec_format(message_model(*msg)),
{
    if str_eq(msg.kind.as_str(), "assistant") {
        match &msg.content {
            Some(blocks) => {
                let ghost bm: Seq<BlockModel> = blocks@.map_values(
                    |b: ContentBlock| block_model(b),
                );
                proof {
                    assert(message_model(*msg).content == Some(bm));
                }
                let mut lines: Vec<String> = Vec::new();
                let mut i: usize = 0;
                while i < blocks.len()
                    invariant
                        i <= blocks.len(),
                        bm.len() == blocks@.len(),
                        forall|k: int|
                            0 <= k < bm.len() ==> bm[k] == block_model(#[trigger] blocks@[k]),
                        lines.deep_view() == lines_of(bm.take(i as int)),
                    decreases blocks.len() - i,
                {
                    proof {
                        assert(bm.take(i as int + 1).drop_last() =~= bm.take(i as int));
                    }
                    match &blocks[i] {
                        ContentBlock::Text { text } => {
                            if !is_blank_str(text.as_str()) {
                                let ghost before = lines.deep_view();
                                lines.push(text.clone());
                                proof {
                                    assert(lines.deep_view() =~= before.push(text@));
                                }
                            }
                        },
                        ContentBlock::ToolUse { name, input } => {
                            let ghost before = lines.deep_view();
                            let rendered = format_tool_use(name.as_str(), input);
                            let ghost rv = rendered@;
                            lines.push(rendered);
                            proof {
                                assert(lines.deep_view() =~= before.push(rv));
                            }
                        },
                        ContentBlock::Other => {},
                    }
                    i += 1;
                }
                proof {
                    assert(bm.take(i as int) =~= bm);
                }
                if lines.len() == 0 {
                    None
                } else {
                    let mut out: String = lines[0].clone();
                    let mut k: usize = 1;
                    while k < lines.len()
                        invariant
                            1 <= k <= lines.len(),
                            lines.deep_view() == lines_of(bm),
                            out@ == join_lines(lines.deep_view().take(k as int)),
                        decreases lines.len() - k,
                    {
                        proof {
                            let ld = lines.deep_view();
                            assert(ld.take(k as int + 1).drop_last() =~= ld.take(k as int));
                            reveal_strlit("\n");
                            assert("\n"@ =~= seq!['\n']);
                        }
                        out.append("\n");
                        out.append(lines[k].as_str());
                        k += 1;
                    }
                    proof {
                        assert(lines.deep_view().take(lines@.len() as int) =~= lines.deep_view());
                    }
                    Some(out)
                }
            },
            None => None,
        }
    } else if str_eq(msg.kind.as_str(), "result") {
        match &msg.result_text {
            Some(t) => {
                let mut out = "✅ Done: ".to_owned();
                out.append(truncate(t.as_str(), 80).as_str());
                Some(out)
            },
            None => None,
        }
    } else {
        None
    }
}

/// Process one line of the input stream: decode it and render the message.
/// A line that fails to decode yields nothing; no input makes this fail.
pub fn process_line(line: &str) -> (r: Option<String>)
    ensures
        r.deep_view() == spec_process_line(line@),
{
    match decode(line) {
        Ok(msg) => format_message(&msg),
        Err(_) => None,
    }
}

} // verus!
