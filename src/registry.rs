use vstd::prelude::*;
use crate::text::str_eq;

verus! {

/// A session whose transcript the bridge now writes.
pub struct ManagedSession {
    pub session_id: String,
    pub project_path: String,
}

/// A managed session as the session poller sees it.
pub struct ManagedSessionInfo {
    pub session_id: String,
    pub pid: u32,
}

/// The registry of sessions taken over by the bridge: at most one record
/// per session id.
pub struct SessionMap {
    sessions: Vec<ManagedSession>,
    model: Ghost<Map<Seq<char>, Seq<char>>>,
}

/// The registry after `session_id` is taken over for `project_path`.
pub open spec fn after_take_over(m: Map<Seq<char>, Seq<char>>, session_id: Seq<char>, project_path: Seq<char>) -> Map<Seq<char>, Seq<char>> {
    m.insert(session_id, project_path)
}

/// The text of the error for a session that is not managed.
pub open spec fn not_managed_message(session_id: Seq<char>) -> Seq<char> {
    "Session "@ + session_id + " is not managed"@
}

/// What a project path lookup yields.
pub open spec fn project_path_result(m: Map<Seq<char>, Seq<char>>, session_id: Seq<char>) -> Result<Seq<char>, Seq<char>> {
    if m.contains_key(session_id) {
        Ok(m[session_id])
    } else {
        Err(not_managed_message(session_id))
    }
}

impl SessionMap {
    /// Session id to project path.
    pub closed spec fn view(&self) -> Map<Seq<char>, Seq<char>> {
        self.model@
    }

    /// The records agree with the map, one per session id.
    pub closed spec fn wf(&self) -> bool {
        &&& forall|i: int, j: int|
            0 <= i < j < self.sessions@.len() ==> self.sessions@[i].session_id@ != self.sessions@[j].session_id@
        &&& forall|i: int|
            0 <= i < self.sessions@.len() ==> self.model@.contains_key(#[trigger] self.sessions@[i].session_id@)
                && self.model@[self.sessions@[i].session_id@] == self.sessions@[i].project_path@
        &&& forall|k: Seq<char>|
            self.model@.contains_key(k) ==> exists|i: int|
                0 <= i < self.sessions@.len() && #[trigger] self.sessions@[i].session_id@ == k
    }

    /// The index of the record for `session_id`, if any.
    fn find(&self, session_id: &str) -> (r: Option<usize>)
        requires
            self.wf(),
        ensures
            match r {
                Some(i) => i < self.sessions@.len() && self.sessions@[i as int].session_id@ == session_id@,
                None => !self@.contains_key(session_id@),
            },
    {
        let mut i: usize = 0;
        while i < self.sessions.len()
            invariant
                self.wf(),
                i <= self.sessions@.len(),
                forall|k: int| 0 <= k < i ==> self.sessions@[k].session_id@ != session_id@,
            decreases self.sessions@.len() - i,
        {
            if str_eq(self.sessions[i].session_id.as_str(), session_id) {
                return Some(i);
            }
            i = i + 1;
        }
        None
    }
}

/// An empty registry.
pub fn new_session_map() -> (r: SessionMap)
    ensures
        r.wf(),
        r@ == Map::<Seq<char>, Seq<char>>::empty(),
{
    SessionMap { sessions: Vec::new(), model: Ghost(Map::empty()) }
}

/// Records that the bridge now owns `session_id`, whose transcript lives in
/// `project_path`; a second call for the same session overwrites the first.
/// The native process `pid` must already have been stopped by the caller.
pub fn take_over_session(map: &mut SessionMap, pid: u32, session_id: &str, project_path: &str)
    requires
        old(map).wf(),
    ensures
        final(map).wf(),
        final(map)@ == after_take_over(old(map)@, session_id@, project_path@),
{
    let record = ManagedSession {
        session_id: String::from_str(session_id),
        project_path: String::from_str(project_path),
    };
    let ghost new_model = map.model@.insert(session_id@, project_path@);
    match map.find(session_id) {
        Some(i) => {
            map.sessions.set(i, record);
            map.model = Ghost(new_model);
            assert forall|k: Seq<char>| map.model@.contains_key(k) implies exists|j: int|
                0 <= j < map.sessions@.len() && #[trigger] map.sessions@[j].session_id@ == k by {
                if k != session_id@ {
                    let j = choose|j: int|
                        0 <= j < old(map).sessions@.len() && #[trigger] old(map).sessions@[j].session_id@ == k;
                    assert(map.sessions@[j].session_id@ == k);
                } else {
                    assert(map.sessions@[i as int].session_id@ == k);
                }
            }
        },
        None => {
            map.sessions.push(record);
            map.model = Ghost(new_model);
            assert forall|k: Seq<char>| map.model@.contains_key(k) implies exists|j: int|
                0 <= j < map.sessions@.len() && #[trigger] map.sessions@[j].session_id@ == k by {
                if k != session_id@ {
                    let j = choose|j: int|
                        0 <= j < old(map).sessions@.len() && #[trigger] old(map).sessions@[j].session_id@ == k;
                    assert(map.sessions@[j].session_id@ == k);
                } else {
                    assert(map.sessions@[map.sessions@.len() - 1].session_id@ == k);
                }
            }
        },
    }
}

/// The project path recorded for `session_id`, or an error naming the
/// session when it is not managed.
pub fn get_project_path(map: &SessionMap, session_id: &str) -> (r: Result<String, String>)
    requires
        map.wf(),
    ensures
        match r {
            Ok(p) => project_path_result(map@, session_id@) == Ok::<Seq<char>, Seq<char>>(p@),
            Err(e) => project_path_result(map@, session_id@) == Err::<Seq<char>, Seq<char>>(e@),
        },
{
    match map.find(session_id) {
        Some(i) => Ok(map.sessions[i].project_path.clone()),
        None => {
            let mut message = String::from_str("Session ");
            message.append(session_id);
            message.append(" is not managed");
            Err(message)
        },
    }
}

/// Whether `session_id` is managed by the bridge.
pub fn is_managed(map: &SessionMap, session_id: &str) -> (r: bool)
    requires
        map.wf(),
    ensures
        r == map@.contains_key(session_id@),
{
    map.find(session_id).is_some()
}

/// One record per managed session, each with pid 0: a managed session has
/// no native process.
pub fn get_managed_sessions(map: &SessionMap) -> (r: Vec<ManagedSessionInfo>)
    requires
        map.wf(),
    ensures
        forall|i: int| 0 <= i < r@.len() ==> #[trigger] r@[i].pid == 0,
        forall|i: int| 0 <= i < r@.len() ==> map@.contains_key(#[trigger] r@[i].session_id@),
        forall|k: Seq<char>| map@.contains_key(k) ==> exists|i: int| 0 <= i < r@.len() && #[trigger] r@[i].session_id@ == k,
        forall|i: int, j: int| 0 <= i < j < r@.len() ==> r@[i].session_id@ != r@[j].session_id@,
{
    let mut out: Vec<ManagedSessionInfo> = Vec::new();
    let mut i: usize = 0;
    while i < map.sessions.len()
        invariant
            map.wf(),
            i <= map.sessions@.len(),
            out@.len() == i,
            forall|k: int| 0 <= k < i ==> (#[trigger] out@[k]).pid == 0 && out@[k].session_id@ == map.sessions@[k].session_id@,
        decreases map.sessions@.len() - i,
    {
        let sid = map.sessions[i].session_id.clone();
        out.push(ManagedSessionInfo { session_id: sid, pid: 0 });
        i = i + 1;
    }
    assert forall|k: Seq<char>| map@.contains_key(k) implies exists|j: int| 0 <= j < out@.len() && #[trigger] out@[j].session_id@ == k by {
        let j = choose|j: int| 0 <= j < map.sessions@.len() && #[trigger] map.sessions@[j].session_id@ == k;
        assert(out@[j].session_id@ == k);
    }
    assert forall|k: int| 0 <= k < out@.len() implies map@.contains_key(#[trigger] out@[k].session_id@) by {
        assert(out@[k].session_id@ == map.sessions@[k].session_id@);
    }
    out
}

/// Taking over a session makes it managed, and its project path is then the
/// one given; an id never taken over has no project path and its lookup
/// fails with the not-managed error.
pub proof fn lemma_take_over_then_lookup(map: SessionMap, session_id: Seq<char>, project_path: Seq<char>, other: Seq<char>)
    requires
        map.wf(),
    ensures
        after_take_over(map@, session_id, project_path).contains_key(session_id),
        project_path_result(after_take_over(map@, session_id, project_path), session_id) == Ok::<Seq<char>, Seq<char>>(project_path),
        !map@.contains_key(other) ==> project_path_result(map@, other) == Err::<Seq<char>, Seq<char>>(not_managed_message(other)),
{
}

} // verus!
