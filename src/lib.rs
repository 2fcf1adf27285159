//! Session monitoring core: transcript status classification, the registry of
//! sessions owned by the agent bridge, the bridge's request/ack protocol and
//! the realtime gateway's command decisions.

pub mod bridge;
pub mod clock;
pub mod entry;
pub mod gateway;
pub mod json;
pub mod permissions;
pub mod registry;
pub mod status;
pub mod text;

pub use bridge::{
    ack_outcome, encode_command, route_message, AckResponse, BridgeCommand, BridgeLifecycle,
    BridgeMessage, CommandKind, PendingTable, ProcessProbe, ProcessState, ReaderAction,
    ACK_TIMEOUT_SECS,
};
pub use clock::{is_entry_recent, is_recent_at};
pub use entry::{
    AssistantMessage, MessageContent, SessionEntry, SessionEntryBase, ToolInput, UserMessage,
};
pub use gateway::{
    complete_takeover, encode_server_msg, invalid_message_reply, managed_status, reply_for,
    send_input_stop_pid, takeover_stop_pid, token_authorized, ServerMsg, SETTLE_DELAY_MS,
};
pub use permissions::{PermissionChecker, PermissionRule};
pub use registry::{
    get_managed_sessions, get_project_path, is_managed, new_session_map, take_over_session,
    ManagedSession, ManagedSessionInfo, SessionMap,
};
pub use status::{
    analyze_assistant_message, are_pending_tools_auto_approved, check_all_tools_completed,
    contains_tool_use, determine_status, determine_status_with_context, has_pending_tool_uses,
    has_tool_result, SessionStatus,
};
pub use text::{starts_with, str_eq};
