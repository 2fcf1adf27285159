use vstd::prelude::*;
use crate::json::{json_bool, json_quote, json_string_literal, push_json_bool};
use crate::registry::{after_take_over, is_managed, take_over_session, SessionMap};
use crate::text::str_eq;

verus! {

/// How long, in milliseconds, a stopped native process is given to release
/// the transcript before the bridge takes it over.
pub const SETTLE_DELAY_MS: u64 = 500;

/// A frame from the server to a client. `data` fields hold JSON text.
pub enum ServerMsg {
    Sessions { data: String },
    Conversation { data: String },
    SessionsUpdated { data: String },
    Error { message: String },
    Success,
    Notification { data: String },
    ManagedStatus { managed: bool },
}

/// A frame whose only member besides its type is `data`.
pub open spec fn data_frame(tag: Seq<char>, data: Seq<char>) -> Seq<char> {
    "{\"type\":\""@ + tag + "\",\"data\":"@ + data + "}"@
}

/// The JSON text of a frame.
pub open spec fn frame_text(msg: ServerMsg) -> Seq<char> {
    match msg {
        ServerMsg::Sessions { data } => data_frame("sessions"@, data@),
        ServerMsg::Conversation { data } => data_frame("conversation"@, data@),
        ServerMsg::SessionsUpdated { data } => data_frame("sessionsUpdated"@, data@),
        ServerMsg::Notification { data } => data_frame("notification"@, data@),
        ServerMsg::Error { message } => "{\"type\":\"error\",\"message\":"@ + json_string_literal(message@) + "}"@,
        ServerMsg::Success => "{\"type\":\"ok\"}"@,
        ServerMsg::ManagedStatus { managed } => "{\"type\":\"managedStatus\",\"managed\":"@ + json_bool(managed) + "}"@,
    }
}

fn data_frame_text(tag: &str, data: &String) -> (r: String)
    ensures
        r@ == data_frame(tag@, data@),
{
    let mut out = String::from_str("{\"type\":\"");
    out.append(tag);
    out.append("\",\"data\":");
    out.append(data.as_str());
    out.append("}");
    out
}

/// The JSON text of a frame.
pub fn encode_server_msg(msg: &ServerMsg) -> (r: String)
    ensures
        r@ == frame_text(*msg),
{
    match msg {
        ServerMsg::Sessions { data } => data_frame_text("sessions", data),
        ServerMsg::Conversation { data } => data_frame_text("conversation", data),
        ServerMsg::SessionsUpdated { data } => data_frame_text("sessionsUpdated", data),
        ServerMsg::Notification { data } => data_frame_text("notification", data),
        ServerMsg::Error { message } => {
            let mut out = String::from_str("{\"type\":\"error\",\"message\":");
            out.append(json_quote(message.as_str()).as_str());
            out.append("}");
            out
        },
        ServerMsg::Success => String::from_str("{\"type\":\"ok\"}"),
        ServerMsg::ManagedStatus { managed } => {
            let mut out = String::from_str("{\"type\":\"managedStatus\",\"managed\":");
            push_json_bool(&mut out, *managed);
            out.append("}");
            out
        },
    }
}

/// Whether a connection may be upgraded: only with a token equal to the
/// shared secret.
pub fn token_authorized(token: Option<&str>, secret: &str) -> (r: bool)
    ensures
        r == (token matches Some(t) && t@ == secret@),
{
    match token {
        Some(t) => str_eq(t, secret),
        None => false,
    }
}

/// The reply to a command whose work ended with `result`.
pub fn reply_for(result: Result<(), String>) -> (r: ServerMsg)
    ensures
        match result {
            Ok(()) => r is Success,
            Err(e) => r matches ServerMsg::Error { message } && message@ == e@,
        },
{
    match result {
        Ok(()) => ServerMsg::Success,
        Err(message) => ServerMsg::Error { message },
    }
}

/// The reply to a text frame that is not a valid command.
pub fn invalid_message_reply(detail: &str) -> (r: ServerMsg)
    ensures
        r matches ServerMsg::Error { message } && message@ == "Invalid message: "@ + detail@,
{
    let mut message = String::from_str("Invalid message: ");
    message.append(detail);
    ServerMsg::Error { message }
}

/// The reply to an `isSessionManaged` command.
pub fn managed_status(map: &SessionMap, session_id: &str) -> (r: ServerMsg)
    requires
        map.wf(),
    ensures
        r matches ServerMsg::ManagedStatus { managed } && managed == map@.contains_key(session_id@),
{
    ServerMsg::ManagedStatus { managed: is_managed(map, session_id) }
}

/// The native process a `takeoverSession` command stops first: none for pid 0.
pub fn takeover_stop_pid(pid: u32) -> (r: Option<u32>)
    ensures
        r == (if pid > 0 { Some(pid) } else { None::<u32> }),
{
    if pid > 0 {
        Some(pid)
    } else {
        None
    }
}

/// The native process a `sendInput` command stops, and whose session it takes
/// over, before the message goes out: only on the first message to a session
/// that is not managed yet, and only when a pid is given.
pub fn send_input_stop_pid(map: &SessionMap, session_id: &str, pid: u32) -> (r: Option<u32>)
    requires
        map.wf(),
    ensures
        r == (if pid > 0 && !map@.contains_key(session_id@) { Some(pid) } else { None::<u32> }),
{
    if pid > 0 && !is_managed(map, session_id) {
        Some(pid)
    } else {
        None
    }
}

/// The last step of a take-over, once any native process has been stopped
/// and has settled: the session is registered and the command succeeds.
pub fn complete_takeover(map: &mut SessionMap, session_id: &str, project_path: &str) -> (r: ServerMsg)
    requires
        old(map).wf(),
    ensures
        final(map).wf(),
        final(map)@ == after_take_over(old(map)@, session_id@, project_path@),
        r is Success,
{
    take_over_session(map, 0, session_id, project_path);
    ServerMsg::Success
}

/// A `takeoverSession` command for a stopped session (pid 0), issued twice,
/// stops nothing, succeeds both times, and leaves the registry as one does.
pub proof fn lemma_takeover_twice(map: SessionMap, session_id: Seq<char>, project_path: Seq<char>)
    requires
        map.wf(),
    ensures
        ({
            let once = after_take_over(map@, session_id, project_path);
            after_take_over(once, session_id, project_path) == once
        }),
{
    let once = after_take_over(map@, session_id, project_path);
    assert(after_take_over(once, session_id, project_path) =~= once);
}

} // verus!
