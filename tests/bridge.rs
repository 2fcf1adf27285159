use c9watch::{
    ack_outcome, encode_command, encode_server_msg, invalid_message_reply, reply_for,
    route_message, token_authorized, AckResponse, BridgeCommand, BridgeLifecycle, BridgeMessage,
    CommandKind, PendingTable, ProcessProbe, ProcessState, ReaderAction, ServerMsg,
};

fn cmd(kind: CommandKind, id: &str, cwd: Option<&str>, message: Option<&str>) -> BridgeCommand {
    BridgeCommand {
        kind,
        id: id.to_string(),
        session_id: "sess".to_string(),
        cwd: cwd.map(|s| s.to_string()),
        message: message.map(|s| s.to_string()),
    }
}

#[test]
fn encodes_resume_line() {
    let line = encode_command(&cmd(CommandKind::Resume, "r1", Some("/w"), None));
    assert_eq!(line, "{\"cmd\":\"resume\",\"id\":\"r1\",\"sessionId\":\"sess\",\"cwd\":\"/w\"}\n");
}

#[test]
fn encodes_send_line_with_escapes() {
    let line = encode_command(&cmd(CommandKind::Send, "r2", Some("/w"), Some("say \"hi\"\n")));
    assert_eq!(
        line,
        "{\"cmd\":\"send\",\"id\":\"r2\",\"sessionId\":\"sess\",\"cwd\":\"/w\",\"message\":\"say \\\"hi\\\"\\n\"}\n"
    );
}

#[test]
fn encodes_close_line() {
    let line = encode_command(&cmd(CommandKind::Close, "r3", None, None));
    assert_eq!(line, "{\"cmd\":\"close\",\"id\":\"r3\",\"sessionId\":\"sess\"}\n");
}

#[test]
fn constructors_fill_fields_with_fresh_ids() {
    let a = BridgeCommand::send("s", "hello", "/cwd");
    let b = BridgeCommand::send("s", "hello", "/cwd");
    assert_eq!(a.kind, CommandKind::Send);
    assert_eq!(a.message.as_deref(), Some("hello"));
    assert_eq!(a.cwd.as_deref(), Some("/cwd"));
    assert_ne!(a.id, b.id);
    let r = BridgeCommand::resume("s", "/cwd");
    assert_eq!(r.kind, CommandKind::Resume);
    assert!(r.message.is_none());
    let c = BridgeCommand::close("s");
    assert_eq!(c.kind, CommandKind::Close);
    assert!(c.cwd.is_none());
}

#[test]
fn ack_outcomes() {
    assert_eq!(ack_outcome(AckResponse { success: true, error: None }), Ok(()));
    assert_eq!(
        ack_outcome(AckResponse { success: false, error: Some("boom".to_string()) }),
        Err("boom".to_string())
    );
    assert_eq!(
        ack_outcome(AckResponse { success: false, error: None }),
        Err("Unknown bridge error".to_string())
    );
}

#[test]
fn ack_round_trip_resolves_waiter() {
    let command = BridgeCommand::resume("s", "/w");
    let mut table: PendingTable<u32> = PendingTable::new();
    table.insert(command.id.clone(), 7);
    let action = route_message(BridgeMessage::Ack {
        id: command.id.clone(),
        success: false,
        error: Some("denied".to_string()),
    });
    match action {
        ReaderAction::Resolve { id, ack } => {
            assert_eq!(table.take(&id), Some(7));
            assert_eq!(ack_outcome(ack), Err("denied".to_string()));
        }
        ReaderAction::Broadcast { .. } => panic!("ack must resolve a waiter"),
    }
    assert_eq!(table.len(), 0);
}

#[test]
fn acks_in_reverse_order() {
    let mut table: PendingTable<&str> = PendingTable::new();
    table.insert("id1".to_string(), "first");
    table.insert("id2".to_string(), "second");
    assert_eq!(table.take("id2"), Some("second"));
    assert_eq!(table.take("id1"), Some("first"));
    assert_eq!(table.take("id1"), None);
    assert_eq!(table.len(), 0);
}

#[test]
fn unknown_ack_is_discarded() {
    let mut table: PendingTable<u8> = PendingTable::new();
    table.insert("a".to_string(), 1);
    assert_eq!(table.take("zzz"), None);
    assert_eq!(table.len(), 1);
}

#[test]
fn stream_messages_become_frames() {
    match route_message(BridgeMessage::StreamEvent {
        session_id: "s".to_string(),
        data: "{\"k\":1}".to_string(),
    }) {
        ReaderAction::Broadcast { frame } => {
            assert_eq!(frame, "{\"type\":\"streamEvent\",\"sessionId\":\"s\",\"data\":{\"k\":1}}")
        }
        _ => panic!("expected a frame"),
    }
    match route_message(BridgeMessage::StreamEnd {
        session_id: "s".to_string(),
        success: false,
        error: Some("e".to_string()),
    }) {
        ReaderAction::Broadcast { frame } => assert_eq!(
            frame,
            "{\"type\":\"streamEnd\",\"sessionId\":\"s\",\"success\":false,\"error\":\"e\"}"
        ),
        _ => panic!("expected a frame"),
    }
    match route_message(BridgeMessage::StreamEnd {
        session_id: "s".to_string(),
        success: true,
        error: None,
    }) {
        ReaderAction::Broadcast { frame } => assert_eq!(
            frame,
            "{\"type\":\"streamEnd\",\"sessionId\":\"s\",\"success\":true,\"error\":null}"
        ),
        _ => panic!("expected a frame"),
    }
}

#[test]
fn lifecycle_spawns_once_and_respawns_after_exit() {
    let mut l = BridgeLifecycle::new();
    assert!(l.needs_spawn(ProcessProbe::Absent));
    assert!(l.spawned());
    assert_eq!(l.process, ProcessState::Running);
    assert!(!l.needs_spawn(ProcessProbe::StillRunning));
    assert!(l.needs_spawn(ProcessProbe::Exited));
    assert!(!l.reader_running);
    assert_eq!(l.process, ProcessState::Exited);
    assert!(l.spawned());
    assert!(l.needs_spawn(ProcessProbe::Failed));
}

#[test]
fn token_check() {
    assert!(token_authorized(Some("secret"), "secret"));
    assert!(!token_authorized(Some("wrong"), "secret"));
    assert!(!token_authorized(None, "secret"));
    assert!(!token_authorized(Some(""), "secret"));
}

#[test]
fn server_frames() {
    assert_eq!(encode_server_msg(&ServerMsg::Success), "{\"type\":\"ok\"}");
    assert_eq!(
        encode_server_msg(&ServerMsg::ManagedStatus { managed: true }),
        "{\"type\":\"managedStatus\",\"managed\":true}"
    );
    assert_eq!(
        encode_server_msg(&ServerMsg::Sessions { data: "[]".to_string() }),
        "{\"type\":\"sessions\",\"data\":[]}"
    );
    assert_eq!(
        encode_server_msg(&ServerMsg::Notification { data: "null".to_string() }),
        "{\"type\":\"notification\",\"data\":null}"
    );
    assert_eq!(
        encode_server_msg(&ServerMsg::Error { message: "a\"b".to_string() }),
        "{\"type\":\"error\",\"message\":\"a\\\"b\"}"
    );
}

#[test]
fn replies() {
    assert!(matches!(reply_for(Ok(())), ServerMsg::Success));
    match reply_for(Err("bad".to_string())) {
        ServerMsg::Error { message } => assert_eq!(message, "bad"),
        _ => panic!("expected an error"),
    }
    match invalid_message_reply("expected value") {
        ServerMsg::Error { message } => assert_eq!(message, "Invalid message: expected value"),
        _ => panic!("expected an error"),
    }
}
