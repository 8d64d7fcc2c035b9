use stream_summary::format::process_line;
use stream_summary::text::truncate;

#[test]
fn test_text_message() {
    let input = r#"{"type": "assistant", "message": {"content": [{"type": "text", "text": "Hello world"}]}}"#;
    let result = process_line(input);
    assert_eq!(result, Some("Hello world".to_string()));
}

#[test]
fn test_read_tool() {
    let input = r#"{"type": "assistant", "message": {"content": [{"type": "tool_use", "name": "Read", "input": {"file_path": "/src/main.rs"}}]}}"#;
    let result = process_line(input);
    assert_eq!(result, Some("📖 Read: /src/main.rs".to_string()));
}

#[test]
fn test_edit_tool() {
    let input = r#"{"type": "assistant", "message": {"content": [{"type": "tool_use", "name": "Edit", "input": {"file_path": "/src/lib.rs"}}]}}"#;
    let result = process_line(input);
    assert_eq!(result, Some("✏️  Edit: /src/lib.rs".to_string()));
}

#[test]
fn test_write_tool() {
    let input = r#"{"type": "assistant", "message": {"content": [{"type": "tool_use", "name": "Write", "input": {"file_path": "/new_file.txt"}}]}}"#;
    let result = process_line(input);
    assert_eq!(result, Some("📝 Write: /new_file.txt".to_string()));
}

#[test]
fn test_bash_tool() {
    let input = r#"{"type": "assistant", "message": {"content": [{"type": "tool_use", "name": "Bash", "input": {"command": "ls -la"}}]}}"#;
    let result = process_line(input);
    assert_eq!(result, Some("💻 Bash: ls -la".to_string()));
}

#[test]
fn test_bash_tool_truncation() {
    let long_cmd = "a".repeat(100);
    let input = format!(
        r#"{{"type": "assistant", "message": {{"content": [{{"type": "tool_use", "name": "Bash", "input": {{"command": "{}"}}}}]}}}}"#,
        long_cmd
    );
    let result = process_line(&input).unwrap();
    assert!(result.len() < 100);
    assert!(result.ends_with("..."));
}

#[test]
fn test_glob_tool() {
    let input = r#"{"type": "assistant", "message": {"content": [{"type": "tool_use", "name": "Glob", "input": {"pattern": "**/*.rs"}}]}}"#;
    let result = process_line(input);
    assert_eq!(result, Some("🔍 Glob: **/*.rs".to_string()));
}

#[test]
fn test_grep_tool() {
    let input = r#"{"type": "assistant", "message": {"content": [{"type": "tool_use", "name": "Grep", "input": {"pattern": "fn main"}}]}}"#;
    let result = process_line(input);
    assert_eq!(result, Some("🔎 Grep: fn main".to_string()));
}

#[test]
fn test_todowrite_tool() {
    let input = r#"{"type": "assistant", "message": {"content": [{"type": "tool_use", "name": "TodoWrite", "input": {"todos": []}}]}}"#;
    let result = process_line(input);
    assert_eq!(result, Some("📋 TodoWrite".to_string()));
}

#[test]
fn test_task_tool() {
    let input = r#"{"type": "assistant", "message": {"content": [{"type": "tool_use", "name": "Task", "input": {"description": "Search for files"}}]}}"#;
    let result = process_line(input);
    assert_eq!(result, Some("🤖 Task: Search for files".to_string()));
}

#[test]
fn test_other_tool() {
    let input = r#"{"type": "assistant", "message": {"content": [{"type": "tool_use", "name": "WebFetch", "input": {"url": "https://example.com"}}]}}"#;
    let result = process_line(input);
    assert_eq!(result, Some("🔧 WebFetch".to_string()));
}

#[test]
fn test_result_message() {
    let input = r#"{"type": "result", "result": "Task completed successfully."}"#;
    let result = process_line(input);
    assert_eq!(result, Some("✅ Done: Task completed successfully.".to_string()));
}

#[test]
fn test_result_truncation() {
    let long_result = "a".repeat(100);
    let input = format!(r#"{{"type": "result", "result": "{}"}}"#, long_result);
    let result = process_line(&input).unwrap();
    assert!(result.len() < 100);
    assert!(result.ends_with("..."));
}

#[test]
fn test_malformed_json() {
    let input = "this is not valid json";
    let result = process_line(input);
    assert_eq!(result, None);
}

#[test]
fn test_unknown_message_type() {
    let input = r#"{"type": "unknown", "data": {}}"#;
    let result = process_line(input);
    assert_eq!(result, None);
}

#[test]
fn test_truncate_function() {
    assert_eq!(truncate("short", 10), "short");
    assert_eq!(truncate("this is a long string", 10), "this is...");
    assert_eq!(truncate("exactly10!", 10), "exactly10!");
}
