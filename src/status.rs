use vstd::prelude::*;
use crate::clock::is_entry_recent;
use crate::entry::{AssistantMessage, MessageContent, SessionEntry};
use crate::permissions::PermissionChecker;
use crate::text::str_eq;

verus! {

/// How long, in seconds, a pending auto-approved tool counts as just started.
pub const TOOL_GRACE_SECONDS: i64 = 2;

/// The current state of an agent session.
#[derive(Debug, Clone, Copy, PartialEq, Eq, Structural)]
pub enum SessionStatus {
    /// The agent is generating or running tools.
    Working,
    /// A pending tool call waits for the user's approval.
    NeedsPermission,
    /// Idle, ready for the next prompt.
    WaitingForInput,
    /// Starting up, or too little history to tell.
    Connecting,
}

/// Whether some item of `content` is a tool use.
pub open spec fn has_tool_use(content: Seq<MessageContent>) -> bool {
    exists|i: int| 0 <= i < content.len() && #[trigger] content[i] is ToolUse
}

/// Whether some tool result in `content` answers the tool use `id`.
pub open spec fn has_result_for(content: Seq<MessageContent>, id: Seq<char>) -> bool {
    exists|j: int|
        0 <= j < content.len() && (#[trigger] content[j] matches MessageContent::ToolResult {
            tool_use_id,
            ..
        } && tool_use_id@ == id)
}

/// Whether item `i` of `content` is a tool use that no result answers.
pub open spec fn is_pending(content: Seq<MessageContent>, i: int) -> bool {
    content[i] matches MessageContent::ToolUse { id, .. } && !has_result_for(content, id@)
}

/// Whether every tool use in `content` has a result.
pub open spec fn all_tools_completed(content: Seq<MessageContent>) -> bool {
    forall|i: int| 0 <= i < content.len() ==> !#[trigger] is_pending(content, i)
}

/// Whether the checker approves every pending tool use in `content`.
pub open spec fn pending_tools_approved(checker: PermissionChecker, content: Seq<MessageContent>) -> bool {
    forall|i: int|
        0 <= i < content.len() && #[trigger] is_pending(content, i) ==> (content[i] matches MessageContent::ToolUse {
            name,
            input,
            ..
        } && checker.approves(name@, input))
}

/// Whether the stop reason is present and reads `tool_use`.
pub open spec fn stops_for_tool_use(stop_reason: Option<String>) -> bool {
    stop_reason matches Some(s) && s@ == "tool_use"@
}

/// The status that one assistant message shows.
pub open spec fn message_status(checker: PermissionChecker, m: AssistantMessage) -> SessionStatus {
    if has_tool_use(m.content@) {
        if all_tools_completed(m.content@) {
            if stops_for_tool_use(m.stop_reason) {
                SessionStatus::Working
            } else {
                SessionStatus::WaitingForInput
            }
        } else if pending_tools_approved(checker, m.content@) {
            SessionStatus::Working
        } else {
            SessionStatus::NeedsPermission
        }
    } else if m.stop_reason is None {
        SessionStatus::Working
    } else {
        SessionStatus::WaitingForInput
    }
}

/// The status that a transcript tail shows, judged by its last entry.
pub open spec fn status_of(checker: PermissionChecker, entries: Seq<SessionEntry>) -> SessionStatus {
    if entries.len() == 0 {
        SessionStatus::Connecting
    } else {
        match entries.last() {
            SessionEntry::User { .. } => SessionStatus::Working,
            SessionEntry::Assistant { message, .. } => message_status(checker, message),
            SessionEntry::Other { .. } => SessionStatus::WaitingForInput,
        }
    }
}

/// Whether the last two entries are assistant messages and the last one has
/// concluded without tool activity.
pub open spec fn concluded_after_assistant(entries: Seq<SessionEntry>) -> bool {
    &&& entries.len() >= 2
    &&& entries[entries.len() - 2] is Assistant
    &&& entries.last() matches SessionEntry::Assistant { message, .. }
    &&& !has_tool_use(message.content@)
    &&& message.stop_reason is Some
}

/// The status of a transcript tail, smoothed by a look at the entry before the last.
pub open spec fn status_with_context(checker: PermissionChecker, entries: Seq<SessionEntry>) -> SessionStatus {
    if entries.len() < 3 {
        SessionStatus::Connecting
    } else if status_of(checker, entries) == SessionStatus::Working && concluded_after_assistant(entries) {
        SessionStatus::WaitingForInput
    } else {
        status_of(checker, entries)
    }
}

/// Whether some item of `content` is a tool use.
pub fn contains_tool_use(content: &[MessageContent]) -> (r: bool)
    ensures
        r == has_tool_use(content@),
{
    let mut i: usize = 0;
    while i < content.len()
        invariant
            i <= content@.len(),
            forall|k: int| 0 <= k < i ==> !(#[trigger] content@[k] is ToolUse),
        decreases content@.len() - i,
    {
        if let MessageContent::ToolUse { .. } = &content[i] {
            assert(content@[i as int] is ToolUse);
            return true;
        }
        i = i + 1;
    }
    false
}

/// Whether some tool result in `content` answers the tool use `id`.
pub fn has_tool_result(content: &[MessageContent], id: &str) -> (r: bool)
    ensures
        r == has_result_for(content@, id@),
{
    let mut j: usize = 0;
    while j < content.len()
        invariant
            j <= content@.len(),
            forall|k: int|
                0 <= k < j ==> !(#[trigger] content@[k] matches MessageContent::ToolResult {
                    tool_use_id,
                    ..
                } && tool_use_id@ == id@),
        decreases content@.len() - j,
    {
        if let MessageContent::ToolResult { tool_use_id, .. } = &content[j] {
            if str_eq(tool_use_id.as_str(), id) {
                assert(content@[j as int] matches MessageContent::ToolResult { tool_use_id, .. }
                    && tool_use_id@ == id@);
                return true;
            }
        }
        j = j + 1;
    }
    false
}

/// Whether every tool use in `content` has a matching tool result.
pub fn check_all_tools_completed(content: &[MessageContent]) -> (r: bool)
    ensures
        r == all_tools_completed(content@),
{
    let mut i: usize = 0;
    while i < content.len()
        invariant
            i <= content@.len(),
            forall|k: int| 0 <= k < i ==> !#[trigger] is_pending(content@, k),
        decreases content@.len() - i,
    {
        if let MessageContent::ToolUse { id, .. } = &content[i] {
            if !has_tool_result(content, id.as_str()) {
                assert(is_pending(content@, i as int));
                return false;
            }
        }
        i = i + 1;
    }
    true
}

/// Whether some tool use in `content` still waits for its result.
pub fn has_pending_tool_uses(content: &[MessageContent]) -> (r: bool)
    ensures
        r == !all_tools_completed(content@),
{
    !check_all_tools_completed(content)
}

/// Whether the checker approves every tool use in `content` that has no result yet.
pub fn are_pending_tools_auto_approved(checker: &PermissionChecker, content: &[MessageContent]) -> (r: bool)
    ensures
        r == pending_tools_approved(*checker, content@),
{
    let mut i: usize = 0;
    while i < content.len()
        invariant
            i <= content@.len(),
            forall|k: int|
                0 <= k < i && #[trigger] is_pending(content@, k) ==> (content@[k] matches MessageContent::ToolUse {
                    name,
                    input,
                    ..
                } && checker.approves(name@, input)),
        decreases content@.len() - i,
    {
        if let MessageContent::ToolUse { id, name, input } = &content[i] {
            if !has_tool_result(content, id.as_str()) {
                if !checker.is_auto_approved(name.as_str(), input) {
                    assert(is_pending(content@, i as int));
                    return false;
                }
            }
        }
        i = i + 1;
    }
    true
}

/// The status that one assistant message shows.
pub fn analyze_assistant_message(checker: &PermissionChecker, message: &AssistantMessage) -> (r: SessionStatus)
    ensures
        r == message_status(*checker, *message),
{
    let content = message.content.as_slice();
    if contains_tool_use(content) {
        if check_all_tools_completed(content) {
            match &message.stop_reason {
                Some(reason) => {
                    if str_eq(reason.as_str(), "tool_use") {
                        SessionStatus::Working
                    } else {
                        SessionStatus::WaitingForInput
                    }
                },
                None => SessionStatus::WaitingForInput,
            }
        } else if are_pending_tools_auto_approved(checker, content) {
            SessionStatus::Working
        } else {
            SessionStatus::NeedsPermission
        }
    } else {
        match &message.stop_reason {
            None => SessionStatus::Working,
            Some(_) => SessionStatus::WaitingForInput,
        }
    }
}

/// Classifies a transcript tail, most recent entry last.
pub fn determine_status(entries: &[SessionEntry], checker: &PermissionChecker) -> (r: SessionStatus)
    ensures
        r == status_of(*checker, entries@),
{
    if entries.len() == 0 {
        return SessionStatus::Connecting;
    }
    let last = &entries[entries.len() - 1];
    match last {
        SessionEntry::User { .. } => SessionStatus::Working,
        SessionEntry::Assistant { base, message } => {
            let raw = analyze_assistant_message(checker, message);
            if raw == SessionStatus::Working && has_pending_tool_uses(message.content.as_slice()) {
                // A pending auto-approved tool is still working however long
                // it has run; the age check marks where a distinct
                // long-running state would go.
                if is_entry_recent(base.timestamp.as_str(), TOOL_GRACE_SECONDS) {
                    SessionStatus::Working
                } else {
                    SessionStatus::Working
                }
            } else {
                raw
            }
        },
        SessionEntry::Other { .. } => SessionStatus::WaitingForInput,
    }
}

/// Classifies a transcript tail like `determine_status`, but needs at least
/// three entries, and reads two assistant messages in a row, the last of
/// which has stopped without tool use, as waiting for input.
pub fn determine_status_with_context(entries: &[SessionEntry], checker: &PermissionChecker) -> (r: SessionStatus)
    ensures
        r == status_with_context(*checker, entries@),
{
    if entries.len() <= 2 {
        return SessionStatus::Connecting;
    }
    let basic = determine_status(entries, checker);
    if basic == SessionStatus::Working {
        let last = &entries[entries.len() - 1];
        let prev = &entries[entries.len() - 2];
        if let SessionEntry::Assistant { message: last_msg, .. } = last {
            if let SessionEntry::Assistant { .. } = prev {
                if !contains_tool_use(last_msg.content.as_slice()) && last_msg.stop_reason.is_some() {
                    return SessionStatus::WaitingForInput;
                }
            }
        }
    }
    basic
}

/// An empty transcript tail is classified as connecting, whatever the checker.
pub proof fn lemma_empty_is_connecting(checker: PermissionChecker)
    ensures
        status_of(checker, Seq::<SessionEntry>::empty()) == SessionStatus::Connecting,
{
}

/// A transcript tail that ends in a user message is classified as working.
pub proof fn lemma_user_last_is_working(checker: PermissionChecker, entries: Seq<SessionEntry>)
    requires
        entries.len() > 0,
        entries.last() is User,
    ensures
        status_of(checker, entries) == SessionStatus::Working,
{
}

} // verus!
