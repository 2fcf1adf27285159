use c9watch::{
    analyze_assistant_message, are_pending_tools_auto_approved, has_pending_tool_uses,
    check_all_tools_completed, determine_status, determine_status_with_context, AssistantMessage,
    MessageContent, PermissionChecker, SessionEntry, SessionEntryBase, SessionStatus, ToolInput,
    UserMessage,
};

fn create_base() -> SessionEntryBase {
    SessionEntryBase {
        uuid: "test-uuid".to_string(),
        timestamp: "2026-02-06T12:00:00Z".to_string(),
        session_id: Some("test-session".to_string()),
    }
}

fn checker() -> PermissionChecker {
    PermissionChecker::new()
}

fn assistant(content: Vec<MessageContent>, stop_reason: Option<&str>) -> SessionEntry {
    SessionEntry::Assistant {
        base: create_base(),
        message: AssistantMessage {
            model: "test-model".to_string(),
            id: "msg_test".to_string(),
            role: "assistant".to_string(),
            content,
            stop_reason: stop_reason.map(|s| s.to_string()),
            stop_sequence: None,
        },
    }
}

fn tool_use(id: &str, name: &str, key: &str, value: &str) -> MessageContent {
    MessageContent::ToolUse {
        id: id.to_string(),
        name: name.to_string(),
        input: ToolInput::new().with_field(key, value),
    }
}

fn tool_result(id: &str, content: &str, is_error: Option<bool>) -> MessageContent {
    MessageContent::ToolResult {
        tool_use_id: id.to_string(),
        content: content.to_string(),
        is_error,
    }
}

fn user(text: &str) -> SessionEntry {
    SessionEntry::User {
        base: create_base(),
        message: UserMessage { role: "user".to_string(), content: text.to_string() },
    }
}

#[test]
fn test_empty_entries() {
    let entries: Vec<SessionEntry> = vec![];
    assert_eq!(determine_status(&entries, &checker()), SessionStatus::Connecting);
}

#[test]
fn test_user_message_means_working() {
    let entries = vec![user("Hello")];
    assert_eq!(determine_status(&entries, &checker()), SessionStatus::Working);
}

#[test]
fn test_assistant_text_completed() {
    let entries = vec![assistant(
        vec![MessageContent::Text { text: "Hello there!".to_string() }],
        Some("end_turn"),
    )];
    assert_eq!(determine_status(&entries, &checker()), SessionStatus::WaitingForInput);
}

#[test]
fn test_assistant_generating() {
    let entries = vec![assistant(
        vec![MessageContent::Text { text: "Thinking...".to_string() }],
        None,
    )];
    assert_eq!(determine_status(&entries, &checker()), SessionStatus::Working);
}

#[test]
fn test_tool_use_pending_auto_approved() {
    let entries = vec![assistant(
        vec![tool_use("toolu_123", "Read", "file_path", "/test/file.txt")],
        Some("tool_use"),
    )];
    assert_eq!(determine_status(&entries, &checker()), SessionStatus::Working);
}

#[test]
fn test_tool_use_pending_needs_permission() {
    let entries = vec![assistant(
        vec![tool_use("toolu_123", "Bash", "command", "rm -rf /some/path")],
        Some("tool_use"),
    )];
    assert_eq!(determine_status(&entries, &checker()), SessionStatus::NeedsPermission);
}

#[test]
fn test_tool_use_completed() {
    let entries = vec![assistant(
        vec![
            tool_use("toolu_123", "Read", "file_path", "/test/file.txt"),
            tool_result("toolu_123", "File content here", Some(false)),
        ],
        Some("end_turn"),
    )];
    assert_eq!(determine_status(&entries, &checker()), SessionStatus::WaitingForInput);
}

#[test]
fn test_multiple_tools_partially_completed_auto_approved() {
    let entries = vec![assistant(
        vec![
            tool_use("toolu_123", "Read", "file_path", "/test/file1.txt"),
            tool_use("toolu_456", "Read", "file_path", "/test/file2.txt"),
            tool_result("toolu_123", "File 1 content", Some(false)),
        ],
        Some("tool_use"),
    )];
    assert_eq!(determine_status(&entries, &checker()), SessionStatus::Working);
}

#[test]
fn test_multiple_tools_partially_completed_needs_permission() {
    let entries = vec![assistant(
        vec![
            tool_use("toolu_123", "Read", "file_path", "/test/file1.txt"),
            tool_use("toolu_456", "Bash", "command", "make build"),
            tool_result("toolu_123", "File 1 content", Some(false)),
        ],
        Some("tool_use"),
    )];
    assert_eq!(determine_status(&entries, &checker()), SessionStatus::NeedsPermission);
}

#[test]
fn test_multiple_tools_all_completed() {
    let entries = vec![assistant(
        vec![
            tool_use("toolu_123", "Read", "file_path", "/test/file1.txt"),
            tool_use("toolu_456", "Read", "file_path", "/test/file2.txt"),
            tool_result("toolu_123", "File 1 content", Some(false)),
            tool_result("toolu_456", "File 2 content", Some(false)),
        ],
        Some("end_turn"),
    )];
    assert_eq!(determine_status(&entries, &checker()), SessionStatus::WaitingForInput);
}

#[test]
fn test_check_all_tools_completed() {
    let content = vec![
        MessageContent::ToolUse {
            id: "toolu_1".to_string(),
            name: "Read".to_string(),
            input: ToolInput::new(),
        },
        tool_result("toolu_1", "result", None),
    ];
    assert!(check_all_tools_completed(&content));

    let incomplete_content = vec![MessageContent::ToolUse {
        id: "toolu_1".to_string(),
        name: "Read".to_string(),
        input: ToolInput::new(),
    }];
    assert!(!check_all_tools_completed(&incomplete_content));
}

#[test]
fn other_entry_means_waiting() {
    let entries = vec![user("Hi"), SessionEntry::Other { base: create_base() }];
    assert_eq!(determine_status(&entries, &checker()), SessionStatus::WaitingForInput);
}

#[test]
fn unknown_stop_reason_without_tools_means_waiting() {
    for reason in ["max_tokens", "stop_sequence", "refusal"] {
        let entries = vec![assistant(
            vec![MessageContent::Text { text: "x".to_string() }],
            Some(reason),
        )];
        assert_eq!(determine_status(&entries, &checker()), SessionStatus::WaitingForInput);
    }
}

#[test]
fn completed_tools_with_tool_use_stop_means_working() {
    let entries = vec![assistant(
        vec![
            tool_use("toolu_1", "Read", "file_path", "/a"),
            tool_result("toolu_1", "ok", None),
        ],
        Some("tool_use"),
    )];
    assert_eq!(determine_status(&entries, &checker()), SessionStatus::Working);
}

#[test]
fn completed_tools_without_stop_reason_means_waiting() {
    let entries = vec![assistant(
        vec![
            tool_use("toolu_1", "Read", "file_path", "/a"),
            tool_result("toolu_1", "ok", None),
        ],
        None,
    )];
    assert_eq!(determine_status(&entries, &checker()), SessionStatus::WaitingForInput);
}

#[test]
fn allowed_command_prefix_is_auto_approved() {
    let mut c = PermissionChecker::new();
    c.allow_command_prefix("Bash", "make ");
    let entries = vec![assistant(
        vec![tool_use("toolu_1", "Bash", "command", "make build")],
        Some("tool_use"),
    )];
    assert_eq!(determine_status(&entries, &c), SessionStatus::Working);
    let other = vec![assistant(
        vec![tool_use("toolu_1", "Bash", "command", "rm -rf /")],
        Some("tool_use"),
    )];
    assert_eq!(determine_status(&other, &c), SessionStatus::NeedsPermission);
}

#[test]
fn allowed_tool_is_auto_approved() {
    let mut c = PermissionChecker::new();
    c.allow_tool("WebFetch");
    assert!(c.is_auto_approved("WebFetch", &ToolInput::new().with_field("url", "https://x")));
    assert!(!c.is_auto_approved("Write", &ToolInput::new()));
    assert!(c.is_auto_approved("Grep", &ToolInput::new()));
}

#[test]
fn context_needs_three_entries() {
    let entries = vec![user("a"), user("b")];
    assert_eq!(determine_status_with_context(&entries, &checker()), SessionStatus::Connecting);
    let empty: Vec<SessionEntry> = vec![];
    assert_eq!(determine_status_with_context(&empty, &checker()), SessionStatus::Connecting);
}

#[test]
fn context_keeps_basic_status() {
    let entries = vec![user("a"), user("b"), user("c")];
    assert_eq!(determine_status_with_context(&entries, &checker()), SessionStatus::Working);
    let waiting = vec![
        user("a"),
        user("b"),
        assistant(vec![MessageContent::Text { text: "done".to_string() }], Some("end_turn")),
    ];
    assert_eq!(
        determine_status_with_context(&waiting, &checker()),
        SessionStatus::WaitingForInput
    );
}

#[test]
fn context_two_assistants_with_pending_tool_stay_working() {
    let entries = vec![
        user("a"),
        assistant(vec![MessageContent::Text { text: "x".to_string() }], Some("end_turn")),
        assistant(vec![tool_use("toolu_1", "Read", "file_path", "/a")], Some("tool_use")),
    ];
    assert_eq!(determine_status_with_context(&entries, &checker()), SessionStatus::Working);
}

#[test]
fn input_lookup_takes_first_field() {
    let input = ToolInput::new().with_field("command", "ls").with_field("command", "rm");
    assert_eq!(input.get("command").map(|s| s.as_str()), Some("ls"));
    assert_eq!(input.get("missing"), None);
}

#[test]
fn pending_tools_and_approval_helpers() {
    let content = vec![
        tool_use("t1", "Bash", "command", "make build"),
        tool_use("t2", "Read", "file_path", "/a"),
        tool_result("t1", "done", Some(false)),
    ];
    assert!(has_pending_tool_uses(&content));
    assert!(are_pending_tools_auto_approved(&checker(), &content));
    let message = AssistantMessage {
        model: "m".to_string(),
        id: "x".to_string(),
        role: "assistant".to_string(),
        content,
        stop_reason: Some("tool_use".to_string()),
        stop_sequence: None,
    };
    assert_eq!(analyze_assistant_message(&checker(), &message), SessionStatus::Working);
    let no_tools: Vec<MessageContent> = vec![];
    assert!(!has_pending_tool_uses(&no_tools));
}
