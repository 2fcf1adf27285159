use vstd::prelude::*;
use crate::json::{
    json_bool, json_opt_string, json_quote, json_string_literal, new_request_id, opt_view,
    push_json_bool, push_json_opt_string,
};
use crate::text::str_eq;

verus! {

/// How long, in seconds, a command waits for its acknowledgement.
pub const ACK_TIMEOUT_SECS: u64 = 30;

/// What a command asks the agent subprocess to do.
#[derive(Debug, Clone, Copy, PartialEq, Eq, Structural)]
pub enum CommandKind {
    Resume,
    Send,
    Close,
}

/// The name of a command kind on the wire.
pub open spec fn kind_name(k: CommandKind) -> Seq<char> {
    match k {
        CommandKind::Resume => "resume"@,
        CommandKind::Send => "send"@,
        CommandKind::Close => "close"@,
    }
}

/// One request to the agent subprocess, answered by an ack with the same id.
pub struct BridgeCommand {
    pub kind: CommandKind,
    pub id: String,
    pub session_id: String,
    pub cwd: Option<String>,
    pub message: Option<String>,
}

/// The optional `cwd` member of a command line.
pub open spec fn cwd_member(cmd: BridgeCommand) -> Seq<char> {
    match cmd.cwd {
        Some(c) => ",\"cwd\":"@ + json_string_literal(c@),
        None => Seq::empty(),
    }
}

/// The optional `message` member of a command line.
pub open spec fn message_member(cmd: BridgeCommand) -> Seq<char> {
    match cmd.message {
        Some(m) => ",\"message\":"@ + json_string_literal(m@),
        None => Seq::empty(),
    }
}

/// The line that carries `cmd` to the subprocess, newline included.
pub open spec fn command_line(cmd: BridgeCommand) -> Seq<char> {
    "{\"cmd\":"@ + json_string_literal(kind_name(cmd.kind)) + ",\"id\":"@ + json_string_literal(cmd.id@)
        + ",\"sessionId\":"@ + json_string_literal(cmd.session_id@) + cwd_member(cmd) + message_member(cmd)
        + "}\n"@
}

impl BridgeCommand {
    /// Resume (or start tracking) `session_id`, working in `cwd`, under a fresh id.
    pub fn resume(session_id: &str, cwd: &str) -> (r: BridgeCommand)
        ensures
            r.kind == CommandKind::Resume,
            r.session_id@ == session_id@,
            r.cwd is Some && r.cwd->0@ == cwd@,
            r.message is None,
    {
        BridgeCommand {
            kind: CommandKind::Resume,
            id: new_request_id(),
            session_id: String::from_str(session_id),
            cwd: Some(String::from_str(cwd)),
            message: None,
        }
    }

    /// Send `message` to `session_id`, working in `cwd`, under a fresh id.
    pub fn send(session_id: &str, message: &str, cwd: &str) -> (r: BridgeCommand)
        ensures
            r.kind == CommandKind::Send,
            r.session_id@ == session_id@,
            r.cwd is Some && r.cwd->0@ == cwd@,
            r.message is Some && r.message->0@ == message@,
    {
        BridgeCommand {
            kind: CommandKind::Send,
            id: new_request_id(),
            session_id: String::from_str(session_id),
            cwd: Some(String::from_str(cwd)),
            message: Some(String::from_str(message)),
        }
    }

    /// Close `session_id`, under a fresh id.
    pub fn close(session_id: &str) -> (r: BridgeCommand)
        ensures
            r.kind == CommandKind::Close,
            r.session_id@ == session_id@,
            r.cwd is None,
            r.message is None,
    {
        BridgeCommand {
            kind: CommandKind::Close,
            id: new_request_id(),
            session_id: String::from_str(session_id),
            cwd: None,
            message: None,
        }
    }
}

/// The line that carries `cmd` to the subprocess.
pub fn encode_command(cmd: &BridgeCommand) -> (r: String)
    ensures
        r@ == command_line(*cmd),
{
    let mut out = String::from_str("{\"cmd\":");
    let kind = match cmd.kind {
        CommandKind::Resume => json_quote("resume"),
        CommandKind::Send => json_quote("send"),
        CommandKind::Close => json_quote("close"),
    };
    out.append(kind.as_str());
    out.append(",\"id\":");
    out.append(json_quote(cmd.id.as_str()).as_str());
    out.append(",\"sessionId\":");
    out.append(json_quote(cmd.session_id.as_str()).as_str());
    let ghost head = out@;
    match &cmd.cwd {
        Some(c) => {
            out.append(",\"cwd\":");
            out.append(json_quote(c.as_str()).as_str());
        },
        None => {},
    }
    let ghost with_cwd = out@;
    match &cmd.message {
        Some(m) => {
            out.append(",\"message\":");
            out.append(json_quote(m.as_str()).as_str());
        },
        None => {},
    }
    let ghost with_message = out@;
    out.append("}\n");
    proof {
        assert(with_cwd =~= head + cwd_member(*cmd));
        assert(with_message =~= head + cwd_member(*cmd) + message_member(*cmd));
        assert(out@ =~= command_line(*cmd));
    }
    out
}

/// The subprocess's reply to one command.
pub struct AckResponse {
    pub success: bool,
    pub error: Option<String>,
}

/// What a command returns once its ack has come: success, the ack's error,
/// or a generic error where the ack gives none.
pub open spec fn ack_result(success: bool, error: Option<Seq<char>>) -> Result<(), Seq<char>> {
    if success {
        Ok(())
    } else {
        match error {
            Some(e) => Err(e),
            None => Err("Unknown bridge error"@),
        }
    }
}

/// What a command returns once its ack has come.
pub fn ack_outcome(ack: AckResponse) -> (r: Result<(), String>)
    ensures
        match r {
            Ok(()) => ack_result(ack.success, opt_view(ack.error)) == Ok::<(), Seq<char>>(()),
            Err(e) => ack_result(ack.success, opt_view(ack.error)) == Err::<(), Seq<char>>(e@),
        },
{
    if ack.success {
        Ok(())
    } else {
        match ack.error {
            Some(e) => Err(e),
            None => Err(String::from_str("Unknown bridge error")),
        }
    }
}

/// One line from the subprocess, decoded. `data` holds the event's payload as
/// JSON text.
pub enum BridgeMessage {
    Ack { id: String, success: bool, error: Option<String> },
    StreamEvent { session_id: String, data: String },
    StreamEnd { session_id: String, success: bool, error: Option<String> },
}

/// What the reader does with one decoded line.
pub enum ReaderAction {
    /// Hand the ack to the waiter registered under `id`, if one is left.
    Resolve { id: String, ack: AckResponse },
    /// Publish `frame` to every subscriber of the event feed.
    Broadcast { frame: String },
}

/// The frame that relays a stream event to clients.
pub open spec fn stream_event_frame(session_id: Seq<char>, data: Seq<char>) -> Seq<char> {
    "{\"type\":\"streamEvent\",\"sessionId\":"@ + json_string_literal(session_id) + ",\"data\":"@ + data + "}"@
}

/// The frame that relays the end of a stream to clients.
pub open spec fn stream_end_frame(session_id: Seq<char>, success: bool, error: Option<Seq<char>>) -> Seq<char> {
    "{\"type\":\"streamEnd\",\"sessionId\":"@ + json_string_literal(session_id) + ",\"success\":"@
        + json_bool(success) + ",\"error\":"@ + json_opt_string(error) + "}"@
}

/// What the reader does with `msg`: acks go to their waiter, stream messages
/// become frames for the event feed.
pub open spec fn reader_action_ok(msg: BridgeMessage, r: ReaderAction) -> bool {
    match msg {
        BridgeMessage::Ack { id, success, error } => r matches ReaderAction::Resolve { id: rid, ack }
            && rid@ == id@ && ack.success == success && opt_view(ack.error) == opt_view(error),
        BridgeMessage::StreamEvent { session_id, data } => r matches ReaderAction::Broadcast { frame }
            && frame@ == stream_event_frame(session_id@, data@),
        BridgeMessage::StreamEnd { session_id, success, error } => r matches ReaderAction::Broadcast { frame }
            && frame@ == stream_end_frame(session_id@, success, opt_view(error)),
    }
}

/// Decides what the reader does with one decoded line.
pub fn route_message(msg: BridgeMessage) -> (r: ReaderAction)
    ensures
        reader_action_ok(msg, r),
{
    match msg {
        BridgeMessage::Ack { id, success, error } => ReaderAction::Resolve {
            id,
            ack: AckResponse { success, error },
        },
        BridgeMessage::StreamEvent { session_id, data } => {
            let mut out = String::from_str("{\"type\":\"streamEvent\",\"sessionId\":");
            out.append(json_quote(session_id.as_str()).as_str());
            out.append(",\"data\":");
            out.append(data.as_str());
            out.append("}");
            ReaderAction::Broadcast { frame: out }
        },
        BridgeMessage::StreamEnd { session_id, success, error } => {
            let mut out = String::from_str("{\"type\":\"streamEnd\",\"sessionId\":");
            out.append(json_quote(session_id.as_str()).as_str());
            out.append(",\"success\":");
            push_json_bool(&mut out, success);
            out.append(",\"error\":");
            push_json_opt_string(&mut out, &error);
            out.append("}");
            ReaderAction::Broadcast { frame: out }
        },
    }
}

/// Waiters for acknowledgements, keyed by request id, at most one per id.
/// An id is registered before its command line is written, and its waiter is
/// taken out exactly once, by the matching ack.
pub struct PendingTable<W> {
    entries: Vec<(String, W)>,
    model: Ghost<Map<Seq<char>, W>>,
}

impl<W> PendingTable<W> {
    /// Request id to waiter.
    pub closed spec fn view(&self) -> Map<Seq<char>, W> {
        self.model@
    }

    /// The entries agree with the map, one per id.
    pub closed spec fn wf(&self) -> bool {
        &&& forall|i: int, j: int|
            0 <= i < j < self.entries@.len() ==> self.entries@[i].0@ != self.entries@[j].0@
        &&& forall|i: int|
            0 <= i < self.entries@.len() ==> self.model@.contains_key(#[trigger] self.entries@[i].0@)
                && self.model@[self.entries@[i].0@] == self.entries@[i].1
        &&& forall|k: Seq<char>|
            self.model@.contains_key(k) ==> exists|i: int|
                0 <= i < self.entries@.len() && #[trigger] self.entries@[i].0@ == k
    }

    /// An empty table.
    pub fn new() -> (r: PendingTable<W>)
        ensures
            r.wf(),
            r@ == Map::<Seq<char>, W>::empty(),
    {
        PendingTable { entries: Vec::new(), model: Ghost(Map::empty()) }
    }

    /// The number of waiters.
    pub fn len(&self) -> (r: usize)
        requires
            self.wf(),
        ensures
            r == self@.dom().len(),
    {
        proof {
            self.lemma_len();
        }
        self.entries.len()
    }

    proof fn lemma_len(&self)
        requires
            self.wf(),
        ensures
            self.entries@.len() == self@.dom().len(),
        decreases self.entries@.len(),
    {
        let keys = Seq::new(self.entries@.len(), |i: int| self.entries@[i].0@);
        assert(keys.no_duplicates());
        assert(keys.to_set() =~= self@.dom()) by {
            assert forall|k: Seq<char>| self@.dom().contains(k) implies keys.to_set().contains(k) by {
                let i = choose|i: int| 0 <= i < self.entries@.len() && #[trigger] self.entries@[i].0@ == k;
                assert(keys[i] == k);
            }
            assert forall|k: Seq<char>| keys.to_set().contains(k) implies self@.dom().contains(k) by {
                let i = choose|i: int| 0 <= i < keys.len() && keys[i] == k;
                assert(self.entries@[i].0@ == k);
            }
        }
        keys.unique_seq_to_set();
    }

    /// The index of the entry for `id`, if any.
    fn find(&self, id: &str) -> (r: Option<usize>)
        requires
            self.wf(),
        ensures
            match r {
                Some(i) => i < self.entries@.len() && self.entries@[i as int].0@ == id@,
                None => !self@.contains_key(id@),
            },
    {
        let mut i: usize = 0;
        while i < self.entries.len()
            invariant
                self.wf(),
                i <= self.entries@.len(),
                forall|k: int| 0 <= k < i ==> self.entries@[k].0@ != id@,
            decreases self.entries@.len() - i,
        {
            if str_eq(self.entries[i].0.as_str(), id) {
                return Some(i);
            }
            i = i + 1;
        }
        None
    }

    /// Registers `waiter` under `id`; a waiter already there is dropped.
    pub fn insert(&mut self, id: String, waiter: W)
        requires
            old(self).wf(),
        ensures
            final(self).wf(),
            final(self)@ == old(self)@.insert(id@, waiter),
    {
        let ghost key = id@;
        let ghost new_model = self.model@.insert(key, waiter);
        match self.find(id.as_str()) {
            Some(i) => {
                self.entries.set(i, (id, waiter));
                self.model = Ghost(new_model);
                assert forall|k: Seq<char>| self.model@.contains_key(k) implies exists|j: int|
                    0 <= j < self.entries@.len() && #[trigger] self.entries@[j].0@ == k by {
                    if k != key {
                        let j = choose|j: int| 0 <= j < old(self).entries@.len() && #[trigger] old(self).entries@[j].0@ == k;
                        assert(self.entries@[j].0@ == k);
                    } else {
                        assert(self.entries@[i as int].0@ == k);
                    }
                }
            },
            None => {
                self.entries.push((id, waiter));
                self.model = Ghost(new_model);
                assert forall|k: Seq<char>| self.model@.contains_key(k) implies exists|j: int|
                    0 <= j < self.entries@.len() && #[trigger] self.entries@[j].0@ == k by {
                    if k != key {
                        let j = choose|j: int| 0 <= j < old(self).entries@.len() && #[trigger] old(self).entries@[j].0@ == k;
                        assert(self.entries@[j].0@ == k);
                    } else {
                        assert(self.entries@[self.entries@.len() - 1].0@ == k);
                    }
                }
            },
        }
    }

    /// Takes out the waiter registered under `id`, if one is left.
    pub fn take(&mut self, id: &str) -> (r: Option<W>)
        requires
            old(self).wf(),
        ensures
            final(self).wf(),
            match r {
                Some(w) => old(self)@.contains_key(id@) && w == old(self)@[id@] && final(self)@ == old(self)@.remove(id@),
                None => !old(self)@.contains_key(id@) && final(self)@ == old(self)@,
            },
    {
        match self.find(id) {
            Some(i) => {
                let ghost before = self.entries@;
                let entry = self.entries.remove(i);
                self.model = Ghost(self.model@.remove(id@));
                assert forall|a: int, b: int| 0 <= a < b < self.entries@.len() implies self.entries@[a].0@ != self.entries@[b].0@ by {
                    let oa = if a < i { a } else { a + 1 };
                    let ob = if b < i { b } else { b + 1 };
                    assert(self.entries@[a] == before[oa]);
                    assert(self.entries@[b] == before[ob]);
                }
                assert forall|a: int| 0 <= a < self.entries@.len() implies self.model@.contains_key(#[trigger] self.entries@[a].0@)
                    && self.model@[self.entries@[a].0@] == self.entries@[a].1 by {
                    let oa = if a < i { a } else { a + 1 };
                    assert(self.entries@[a] == before[oa]);
                }
                assert forall|k: Seq<char>| self.model@.contains_key(k) implies exists|j: int|
                    0 <= j < self.entries@.len() && #[trigger] self.entries@[j].0@ == k by {
                    let j = choose|j: int| 0 <= j < before.len() && #[trigger] before[j].0@ == k;
                    if j < i {
                        assert(self.entries@[j].0@ == k);
                    } else {
                        assert(self.entries@[j - 1].0@ == k);
                    }
                }
                Some(entry.1)
            },
            None => None,
        }
    }
}

/// Registering a command's waiter and then taking out the waiter for the
/// ack's id, where the ack answers that command, yields that waiter, and the
/// waiting command returns what the ack says; the table is then as before.
pub proof fn lemma_ack_round_trip<W>(table: PendingTable<W>, cmd: BridgeCommand, waiter: W, success: bool, error: Option<String>)
    requires
        table.wf(),
        !table@.contains_key(cmd.id@),
    ensures
        ({
            let registered = table@.insert(cmd.id@, waiter);
            let msg = BridgeMessage::Ack { id: cmd.id, success, error };
            &&& registered.contains_key(cmd.id@)
            &&& registered[cmd.id@] == waiter
            &&& registered.remove(cmd.id@) == table@
            &&& forall|r: ReaderAction| #[trigger] reader_action_ok(msg, r) ==> (r matches ReaderAction::Resolve { id, ack }
                && id@ == cmd.id@ && ack_result(ack.success, opt_view(ack.error)) == ack_result(success, opt_view(error)))
        }),
{
    assert(table@.insert(cmd.id@, waiter).remove(cmd.id@) =~= table@);
}

/// Two commands with distinct ids each get their own waiter back, whichever
/// ack arrives first.
pub proof fn lemma_acks_in_any_order<W>(table: PendingTable<W>, id1: Seq<char>, w1: W, id2: Seq<char>, w2: W)
    requires
        table.wf(),
        id1 != id2,
    ensures
        ({
            let both = table@.insert(id1, w1).insert(id2, w2);
            &&& both[id2] == w2
            &&& both.remove(id2).contains_key(id1)
            &&& both.remove(id2)[id1] == w1
            &&& both[id1] == w1
            &&& both.remove(id1).contains_key(id2)
            &&& both.remove(id1)[id2] == w2
            &&& both.remove(id2).remove(id1) == both.remove(id1).remove(id2)
        }),
{
    let both = table@.insert(id1, w1).insert(id2, w2);
    assert(both.remove(id2).remove(id1) =~= both.remove(id1).remove(id2));
}

/// Whether a bridge subprocess has been started, and whether it still runs.
#[derive(Debug, Clone, Copy, PartialEq, Eq, Structural)]
pub enum ProcessState {
    NotStarted,
    Running,
    Exited,
}

/// What a non-blocking status probe of the child process reported.
#[derive(Debug, Clone, Copy, PartialEq, Eq, Structural)]
pub enum ProcessProbe {
    /// There is no child process.
    Absent,
    /// The child is still running.
    StillRunning,
    /// The child has exited.
    Exited,
    /// The probe itself failed.
    Failed,
}

/// The bridge's process bookkeeping: one reader task per running process.
#[derive(Debug, Clone, Copy, PartialEq, Eq, Structural)]
pub struct BridgeLifecycle {
    pub process: ProcessState,
    pub reader_running: bool,
}

impl BridgeLifecycle {
    /// A reader task runs only beside a running process.
    pub open spec fn wf(&self) -> bool {
        self.reader_running ==> self.process == ProcessState::Running
    }

    /// No process, no reader.
    pub fn new() -> (r: BridgeLifecycle)
        ensures
            r.wf(),
            r.process == ProcessState::NotStarted,
            !r.reader_running,
    {
        BridgeLifecycle { process: ProcessState::NotStarted, reader_running: false }
    }

    /// Takes the probe of the current child into account and says whether a
    /// new process must be spawned: not while the running child is alive;
    /// otherwise the stale child and its reader are forgotten.
    pub fn needs_spawn(&mut self, probe: ProcessProbe) -> (r: bool)
        requires
            old(self).wf(),
        ensures
            final(self).wf(),
            r == !(old(self).process == ProcessState::Running && probe == ProcessProbe::StillRunning),
            !r ==> *final(self) == *old(self),
            r ==> !final(self).reader_running && final(self).process == (if old(self).process == ProcessState::NotStarted {
                ProcessState::NotStarted
            } else {
                ProcessState::Exited
            }),
    {
        if self.process == ProcessState::Running && probe == ProcessProbe::StillRunning {
            return false;
        }
        if self.process == ProcessState::Running {
            self.process = ProcessState::Exited;
        }
        self.reader_running = false;
        true
    }

    /// Records a freshly spawned process and says whether a reader task must
    /// be started for it: only if none runs.
    pub fn spawned(&mut self) -> (start_reader: bool)
        requires
            old(self).wf(),
        ensures
            final(self).wf(),
            final(self).process == ProcessState::Running,
            final(self).reader_running,
            start_reader == !old(self).reader_running,
    {
        let start_reader = !self.reader_running;
        self.process = ProcessState::Running;
        self.reader_running = true;
        start_reader
    }
}

} // verus!
