//! The typed stream message, its mathematical model, and the decoder that
//! turns one line of text into a message.
//!
//! Decoding is tolerant where the record's envelope allows it (unknown block
//! tags become [`ContentBlock::Other`], unknown top-level kinds decode under
//! their own name) and strict where it does not (a `message` that is not an
//! object of the expected shape, or a `result` that is not a string, is a
//! [`DecodeError::Shape`]).

use vstd::prelude::*;

use crate::json::{
    field_of, json_as_array, json_as_str, json_get, json_is_null, json_model, parse_json,
    parsed_json_of, JsonData,
};
use crate::text::str_eq;

verus! {

/// One element of an assistant message's content: narrative text, a tool
/// invocation carrying its raw JSON `input`, or an unrecognized shape.
pub enum ContentBlock {
    Text { text: String },
    ToolUse { name: String, input: serde_json::Value },
    Other,
}

/// One decoded record of the input stream.
///
/// `content` is carried only by records whose envelope holds a well-formed
/// `message` object; `result_text` only by those with a string `result`.
pub struct StreamMessage {
    pub kind: String,
    pub content: Option<Vec<ContentBlock>>,
    pub result_text: Option<String>,
}

/// Why a line was rejected: not valid JSON at all, or valid JSON whose
/// envelope cannot be coerced to a stream message.
#[derive(Clone, Copy, Debug, PartialEq, Eq, Structural)]
pub enum DecodeError {
    Syntax,
    Shape,
}

/// The model of a content block: its strings as character sequences, a tool
/// input as the model of its JSON document.
pub enum BlockModel {
    Text { text: Seq<char> },
    ToolUse { name: Seq<char>, input: JsonData },
    Other,
}

/// The model of a stream message.
pub struct MessageModel {
    pub kind: Seq<char>,
    pub content: Option<Seq<BlockModel>>,
    pub result_text: Option<Seq<char>>,
}

pub open spec fn block_model(b: ContentBlock) -> BlockModel {
    match b {
        ContentBlock::Text { text } => BlockModel::Text { text: text@ },
        ContentBlock::ToolUse { name, input } => BlockModel::ToolUse {
            name: name@,
            input: json_model(input),
        },
        ContentBlock::Other => BlockModel::Other,
    }
}

pub open spec fn message_model(m: StreamMessage) -> MessageModel {
    MessageModel {
        kind: m.kind@,
        content: match m.content {
            Some(blocks) => Some(blocks@.map_values(|b: ContentBlock| block_model(b))),
            None => None,
        },
        result_text: match m.result_text {
            Some(s) => Some(s@),
            None => None,
        },
    }
}

/// How one content element decodes: an object tagged `"text"` must carry a
/// string `text`, one tagged `"tool_use"` must carry a string `name` and an
/// `input`; any other tag is the catch-all block; a missing or non-string tag,
/// or a non-object element, fails.
pub open spec fn spec_decode_block(j: JsonData) -> Option<BlockModel> {
    match field_of(j, "type"@) {
        Some(JsonData::Str(tag)) => if tag == "text"@ {
            match field_of(j, "text"@) {
                Some(JsonData::Str(t)) => Some(BlockModel::Text { text: t }),
                _ => None,
            }
        } else if tag == "tool_use"@ {
            match (field_of(j, "name"@), field_of(j, "input"@)) {
                (Some(JsonData::Str(n)), Some(inp)) => Some(
                    BlockModel::ToolUse { name: n, input: inp },
                ),
                _ => None,
            }
        } else {
            Some(BlockModel::Other)
        },
        _ => None,
    }
}

/// All content elements decode, in order, or the whole sequence fails.
pub open spec fn spec_decode_blocks(elems: Seq<JsonData>) -> Option<Seq<BlockModel>>
    decreases elems.len(),
{
    if elems.len() == 0 {
        Some(Seq::empty())
    } else {
        match (spec_decode_blocks(elems.drop_last()), spec_decode_block(elems.last())) {
            (Some(pre), Some(b)) => Some(pre.push(b)),
            _ => None,
        }
    }
}

/// A `message` value must be an object whose `content` is an array of
/// well-formed blocks.
pub open spec fn spec_decode_content(m: JsonData) -> Option<Seq<BlockModel>> {
    match field_of(m, "content"@) {
        Some(JsonData::Arr(elems)) => spec_decode_blocks(elems),
        _ => None,
    }
}

/// The `message` field of the envelope: absent or null means no content;
/// otherwise it must decode, else the record fails (outer `None`).
pub open spec fn spec_content_field(j: JsonData) -> Option<Option<Seq<BlockModel>>> {
    match field_of(j, "message"@) {
        None => Some(None),
        Some(m) => if m is Null {
            Some(None)
        } else {
            match spec_decode_content(m) {
                Some(blocks) => Some(Some(blocks)),
                None => None,
            }
        },
    }
}

/// The `result` field of the envelope: absent or null means no result text;
/// a string is kept; anything else fails the record.
pub open spec fn spec_result_field(j: JsonData) -> Option<Option<Seq<char>>> {
    match field_of(j, "result"@) {
        None => Some(None),
        Some(v) => match v {
            JsonData::Null => Some(None),
            JsonData::Str(s) => Some(Some(s)),
            _ => None,
        },
    }
}

/// How a parsed document decodes into a message: it must be an object with a
/// string `type`, and both optional fields must be well formed. The `type`
/// string itself may be anything; rejecting unknown kinds is the formatter's
/// business.
pub open spec fn spec_decode_message(j: JsonData) -> Option<MessageModel> {
    match (field_of(j, "type"@), spec_content_field(j), spec_result_field(j)) {
        (Some(JsonData::Str(kind)), Some(content), Some(result_text)) => Some(
            MessageModel { kind, content, result_text },
        ),
        _ => None,
    }
}

/// If any element of a sequence fails to decode as a block, the sequence
/// fails.
proof fn lemma_blocks_fail(elems: Seq<JsonData>, i: int)
    requires
        0 <= i < elems.len(),
        spec_decode_block(elems[i]) is None,
    ensures
        spec_decode_blocks(elems) is None,
    decreases elems.len(),
{
    if i == elems.len() - 1 {
    } else {
        lemma_blocks_fail(elems.drop_last(), i);
    }
}

/// Decode one content element.
fn decode_block(e: &serde_json::Value) -> (r: Option<ContentBlock>)
    ensures
        match r {
            Some(b) => spec_decode_block(json_model(*e)) == Some(block_model(b)),
            None => spec_decode_block(json_model(*e)) is None,
        },
{
    let tag_v = match json_get(e, "type") {
        Some(t) => t,
        None => {
            return None;
        },
    };
    let tag = match json_as_str(tag_v) {
        Some(s) => s,
        None => {
            return None;
        },
    };
    if str_eq(tag, "text") {
        match json_get(e, "text") {
            Some(tv) => match json_as_str(tv) {
                Some(t) => Some(ContentBlock::Text { text: t.to_owned() }),
                None => None,
            },
            None => None,
        }
    } else if str_eq(tag, "tool_use") {
        let name = match json_get(e, "name") {
            Some(nv) => match json_as_str(nv) {
                Some(n) => n.to_owned(),
                None => {
                    return None;
                },
            },
            None => {
                return None;
            },
        };
        let input = match json_get(e, "input") {
            Some(iv) => iv.clone(),
            None => {
                return None;
            },
        };
        Some(ContentBlock::ToolUse { name, input })
    } else {
        Some(ContentBlock::Other)
    }
}

/// Decode the `message` field's value into content blocks.
fn decode_content(m: &serde_json::Value) -> (r: Option<Vec<ContentBlock>>)
    ensures
        match r {
            Some(blocks) => spec_decode_content(json_model(*m)) == Some(
                blocks@.map_values(|b: ContentBlock| block_model(b)),
            ),
            None => spec_decode_content(json_model(*m)) is None,
        },
{
    let content_v = match json_get(m, "content") {
        Some(c) => c,
        None => {
            return None;
        },
    };
    let elems = match json_as_array(content_v) {
        Some(a) => a,
        None => {
            return None;
        },
    };
    let ghost ems: Seq<JsonData> = elems@.map_values(|w: serde_json::Value| json_model(w));
    let mut blocks: Vec<ContentBlock> = Vec::new();
    let mut i: usize = 0;
    while i < elems.len()
        invariant
            i <= elems.len(),
            ems.len() == elems@.len(),
            forall|k: int| 0 <= k < ems.len() ==> ems[k] == json_model(#[trigger] elems@[k]),
            spec_decode_content(json_model(*m)) == spec_decode_blocks(ems),
            spec_decode_blocks(ems.take(i as int)) == Some(
                blocks@.map_values(|b: ContentBlock| block_model(b)),
            ),
        decreases elems.len() - i,
    {
        let b = match decode_block(&elems[i]) {
            Some(b) => b,
            None => {
                proof {
                    lemma_blocks_fail(ems, i as int);
                }
                return None;
            },
        };
        proof {
            assert(ems.take(i as int + 1).drop_last() =~= ems.take(i as int));
            let prev = blocks@.map_values(|bb: ContentBlock| block_model(bb));
            assert(blocks@.push(b).map_values(|bb: ContentBlock| block_model(bb)) =~= prev.push(
                block_model(b),
            ));
        }
        blocks.push(b);
        i += 1;
    }
    proof {
        assert(ems.take(i as int) =~= ems);
    }
    Some(blocks)
}

/// Decode one line of text into a stream message.
///
/// Returns `DecodeError::Syntax` exactly when the line is not valid JSON, and
/// `DecodeError::Shape` exactly when it is valid JSON whose envelope does not
/// decode; otherwise the message is the decoded model of the line.
pub fn decode(line: &str) -> (r: Result<StreamMessage, DecodeError>)
    ensures
        match r {
            Ok(msg) => parsed_json_of(line@) matches Some(j) && spec_decode_message(j) == Some(
                message_model(msg),
            ),
            Err(e) => match e {
                DecodeError::Syntax => parsed_json_of(line@) is None,
                DecodeError::Shape => parsed_json_of(line@) matches Some(j)
                    && spec_decode_message(j) is None,
            },
        },
{
    let v = match parse_json(line) {
        Ok(v) => v,
        Err(_) => {
            return Err(DecodeError::Syntax);
        },
    };
    let kind: String = match json_get(&v, "type") {
        Some(t) => match json_as_str(t) {
            Some(s) => s.to_owned(),
            None => {
                return Err(DecodeError::Shape);
            },
        },
        None => {
            return Err(DecodeError::Shape);
        },
    };
    let content: Option<Vec<ContentBlock>> = match json_get(&v, "message") {
        None => None,
        Some(m) => if json_is_null(m) {
            None
        } else {
            match decode_content(m) {
                Some(blocks) => Some(blocks),
                None => {
                    return Err(DecodeError::Shape);
                },
            }
        },
    };
    let result_text: Option<String> = match json_get(&v, "result") {
        None => None,
        Some(rv) => if json_is_null(rv) {
            None
        } else {
            match json_as_str(rv) {
                Some(s) => Some(s.to_owned()),
                None => {
                    return Err(DecodeError::Shape);
                },
            }
        },
    };
    Ok(StreamMessage { kind, content, result_text })
}

} // verus!
