use stream_summary::format::{format_message, format_tool_use, process_line};
use stream_summary::message::{decode, DecodeError};
use stream_summary::text::{is_blank_str, str_eq, truncate};

#[test]
fn multiple_text_blocks_join_with_newlines() {
    let input = r#"{"type": "assistant", "message": {"content": [{"type": "text", "text": "first"}, {"type": "text", "text": "second"}, {"type": "text", "text": "third"}]}}"#;
    let result = process_line(input);
    assert_eq!(result, Some("first\nsecond\nthird".to_string()));
}

#[test]
fn text_is_emitted_untrimmed() {
    let input = r#"{"type": "assistant", "message": {"content": [{"type": "text", "text": "  padded  "}]}}"#;
    let result = process_line(input);
    assert_eq!(result, Some("  padded  ".to_string()));
}

#[test]
fn blank_text_and_unknown_blocks_produce_nothing() {
    let input = r#"{"type": "assistant", "message": {"content": [{"type": "text", "text": "   \t\n"}, {"type": "thinking", "thinking": "hmm"}]}}"#;
    let result = process_line(input);
    assert_eq!(result, None);
}

#[test]
fn empty_content_produces_nothing() {
    let input = r#"{"type": "assistant", "message": {"content": []}}"#;
    let result = process_line(input);
    assert_eq!(result, None);
}

#[test]
fn assistant_without_message_produces_nothing() {
    let input = r#"{"type": "assistant"}"#;
    let result = process_line(input);
    assert_eq!(result, None);
}

#[test]
fn unknown_block_between_text_blocks_is_skipped() {
    let input = r#"{"type": "assistant", "message": {"content": [{"type": "text", "text": "a"}, {"type": "image", "source": {}}, {"type": "text", "text": "b"}]}}"#;
    let result = process_line(input);
    assert_eq!(result, Some("a\nb".to_string()));
}

#[test]
fn missing_tool_field_renders_placeholder() {
    let input = r#"{"type": "assistant", "message": {"content": [{"type": "tool_use", "name": "Read", "input": {}}]}}"#;
    let result = process_line(input);
    assert_eq!(result, Some("📖 Read: ?".to_string()));
}

#[test]
fn wrong_typed_tool_field_renders_placeholder() {
    let input = r#"{"type": "assistant", "message": {"content": [{"type": "tool_use", "name": "Grep", "input": {"pattern": 42}}]}}"#;
    let result = process_line(input);
    assert_eq!(result, Some("🔎 Grep: ?".to_string()));
}

#[test]
fn non_object_tool_input_renders_placeholder() {
    let input = r#"{"type": "assistant", "message": {"content": [{"type": "tool_use", "name": "Task", "input": "oops"}]}}"#;
    let result = process_line(input);
    assert_eq!(result, Some("🤖 Task: ?".to_string()));
}

#[test]
fn bash_command_portion_is_exactly_eighty() {
    let long_cmd = "x".repeat(100);
    let input = format!(
        r#"{{"type": "assistant", "message": {{"content": [{{"type": "tool_use", "name": "Bash", "input": {{"command": "{}"}}}}]}}}}"#,
        long_cmd
    );
    let result = process_line(&input).unwrap();
    let command_part = result.strip_prefix("💻 Bash: ").unwrap();
    assert_eq!(command_part.chars().count(), 80);
    assert!(command_part.ends_with("..."));
}

#[test]
fn result_truncated_to_exactly_eighty() {
    let long_result = "r".repeat(95);
    let input = format!(r#"{{"type": "result", "result": "{}"}}"#, long_result);
    let result = process_line(&input).unwrap();
    let text_part = result.strip_prefix("✅ Done: ").unwrap();
    let mut expected = "r".repeat(77);
    expected.push_str("...");
    assert_eq!(text_part, expected);
}

#[test]
fn truncate_counts_characters_not_bytes() {
    let wide = "€".repeat(100);
    let cut = truncate(&wide, 80);
    assert_eq!(cut.chars().count(), 80);
    assert!(cut.ends_with("..."));
    assert!(cut.starts_with("€€€"));
}

#[test]
fn result_without_text_produces_nothing() {
    assert_eq!(process_line(r#"{"type": "result"}"#), None);
    assert_eq!(process_line(r#"{"type": "result", "result": null}"#), None);
}

#[test]
fn unknown_kind_with_valid_message_produces_nothing() {
    let input = r#"{"type": "system", "message": {"content": [{"type": "text", "text": "boot"}]}}"#;
    assert_eq!(process_line(input), None);
}

#[test]
fn malformed_line_does_not_halt_later_lines() {
    assert_eq!(process_line("{not json"), None);
    let next = r#"{"type": "assistant", "message": {"content": [{"type": "text", "text": "still here"}]}}"#;
    assert_eq!(process_line(next), Some("still here".to_string()));
}

#[test]
fn decode_reports_syntax_error_on_invalid_json() {
    assert_eq!(decode("not json at all").err(), Some(DecodeError::Syntax));
}

#[test]
fn decode_reports_shape_error_on_bad_envelope() {
    assert_eq!(decode(r#"{"no_type": 1}"#).err(), Some(DecodeError::Shape));
    assert_eq!(decode(r#"{"type": 5}"#).err(), Some(DecodeError::Shape));
    assert_eq!(decode(r#"{"type": "assistant", "message": 5}"#).err(), Some(DecodeError::Shape));
    assert_eq!(
        decode(r#"{"type": "assistant", "message": {"content": 5}}"#).err(),
        Some(DecodeError::Shape)
    );
    assert_eq!(
        decode(r#"{"type": "assistant", "message": {"content": [{"type": "text"}]}}"#).err(),
        Some(DecodeError::Shape)
    );
    assert_eq!(
        decode(r#"{"type": "assistant", "message": {"content": [{"name": "Read"}]}}"#).err(),
        Some(DecodeError::Shape)
    );
    assert_eq!(decode(r#"{"type": "result", "result": false}"#).err(), Some(DecodeError::Shape));
    assert_eq!(decode(r#"[1, 2, 3]"#).err(), Some(DecodeError::Shape));
}

#[test]
fn decode_accepts_null_message() {
    let msg = decode(r#"{"type": "assistant", "message": null}"#).unwrap();
    assert!(format_message(&msg).is_none());
}

#[test]
fn format_tool_use_is_total_on_any_input() {
    let raw: serde_json::Value = serde_json::from_str(r#"{"unrelated": [1, {"a": null}]}"#).unwrap();
    assert_eq!(format_tool_use("Write", &raw), "📝 Write: ?");
    assert_eq!(format_tool_use("Mystery", &raw), "🔧 Mystery");
}

#[test]
fn str_eq_and_blank_helpers() {
    assert!(str_eq("abc", "abc"));
    assert!(!str_eq("abc", "abd"));
    assert!(!str_eq("abc", "ab"));
    assert!(is_blank_str("  \t\u{a0}"));
    assert!(!is_blank_str(" a "));
    assert!(is_blank_str(""));
}
