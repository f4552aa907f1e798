//! The remote sessions that Edgehog opens with the device.

use vstd::prelude::*;
use vstd::string::*;

use crate::data::{AstarteType, AstarteTypeView, DeviceEvent, Value};
use crate::forwarder::connections::listed;
use crate::string_map::StringMap;
use crate::text::{join, same_text};

verus! {

/// The interface on which the state of the sessions is published.
pub const SESSIONS_STATE_INTERFACE: &'static str =
    "io.edgehog.devicemanager.DeviceForwarderSessionsState";

/// Where a session is opened, and the token that stands for it.
#[derive(Debug)]
pub struct ConnectionInfo {
    pub host: String,
    pub port: u16,
    pub session_token: String,
}

/// The identity of a session: the host and the port it is opened with.
#[derive(Debug)]
pub struct Key {
    pub info: ConnectionInfo,
}

impl View for Key {
    type V = (Seq<char>, u16);

    open spec fn view(&self) -> (Seq<char>, u16) {
        (self.info.host@, self.info.port)
    }
}

impl Key {
    /// Whether two keys stand for the same session.
    pub fn eq(&self, other: &Key) -> (same: bool)
        ensures
            same == (self@ == other@),
    {
        self.info.host == other.info.host && self.info.port == other.info.port
    }
}

/// The state of a session.
#[derive(Debug, PartialEq)]
pub struct SessionState {
    pub token: String,
    pub connected: bool,
}

impl SessionState {
    /// The state of a session that is open.
    pub fn connected(token: String) -> (state: SessionState)
        ensures
            state.token == token,
            state.connected,
    {
        SessionState { token, connected: true }
    }

    /// The state of a session that is closed.
    pub fn disconnected(token: String) -> (state: SessionState)
        ensures
            state.token == token,
            !state.connected,
    {
        SessionState { token, connected: false }
    }

    /// The path on [`SESSIONS_STATE_INTERFACE`] and the value that publish the
    /// state.
    pub fn property(self) -> (property: (String, AstarteType))
        ensures
            property.0@ == "/"@ + self.token@ + "/connected"@,
            property.1@ == AstarteTypeView::Boolean(self.connected),
    {
        let path = join("/", self.token.as_str()).concat("/connected");
        (path, AstarteType::Boolean(self.connected))
    }
}

/// The states that a session reports when it opens and when it closes, given
/// whether it could be connected: without a connection it reports none.
pub fn handle_session(session_token: String, connected: bool) -> (states: Option<
    (SessionState, SessionState),
>)
    ensures
        match states {
            Some((opened, closed)) => {
                &&& connected
                &&& opened.token == session_token && opened.connected
                &&& closed.token == session_token && !closed.connected
            },
            None => !connected,
        },
{
    if connected {
        let token = session_token.clone();
        Some((SessionState::connected(token), SessionState::disconnected(session_token)))
    } else {
        None
    }
}

/// The sessions that are open, each with the number of the task that handles
/// it.
#[derive(Debug)]
pub struct Forwarder {
    tasks: Vec<(Key, u64)>,
}

/// The sessions with their identities as texts and numbers.
pub open spec fn session_pairs(tasks: Seq<(Key, u64)>) -> Seq<((Seq<char>, u16), u64)> {
    tasks.map_values(|t: (Key, u64)| (t.0@, t.1))
}

/// The sessions whose tasks have not finished.
pub open spec fn running(
    sessions: Map<(Seq<char>, u16), u64>,
    finished: Seq<u64>,
) -> Map<(Seq<char>, u16), u64> {
    Map::new(
        |key: (Seq<char>, u16)| sessions.contains_key(key) && !finished.contains(sessions[key]),
        |key: (Seq<char>, u16)| sessions[key],
    )
}

impl View for Forwarder {
    type V = Map<(Seq<char>, u16), u64>;

    closed spec fn view(&self) -> Map<(Seq<char>, u16), u64> {
        crate::string_map::pairs_map(session_pairs(self.tasks@))
    }
}

impl Forwarder {
    #[verifier::type_invariant]
    spec fn wf(self) -> bool {
        crate::string_map::distinct_keys(session_pairs(self.tasks@))
    }

    /// No sessions.
    pub fn init() -> (forwarder: Forwarder)
        ensures
            forwarder@ == Map::<(Seq<char>, u16), u64>::empty(),
    {
        let forwarder = Forwarder { tasks: Vec::new() };
        assert(session_pairs(forwarder.tasks@) =~= Seq::empty());
        forwarder
    }

    /// The object that an event carries, where the event is a request for a
    /// session.
    pub fn retrieve_astarte_data(event: DeviceEvent) -> (data: Option<StringMap<AstarteType>>)
        ensures
            data == (match event.data {
                Value::Object(object) if event.path@ == "/request"@ => Some(object),
                _ => None,
            }),
    {
        if !same_text(event.path.as_str(), "/request") {
            return None;
        }
        match event.data {
            Value::Object(object) => Some(object),
            _ => None,
        }
    }

    /// Forgets the sessions whose tasks have finished, and finds the session
    /// with the key.
    pub fn get_running(&mut self, key: &Key, finished: &Vec<u64>) -> (task: Option<u64>)
        ensures
            final(self)@ == running(old(self)@, finished@),
            task == (if final(self)@.contains_key(key@) {
                Some(final(self)@[key@])
            } else {
                None
            }),
    {
        proof {
            use_type_invariant(&*self);
        }
        let ghost pairs = session_pairs(self.tasks@);
        let mut tasks: Vec<(Key, u64)> = Vec::new();
        std::mem::swap(&mut tasks, &mut self.tasks);
        let mut kept: Vec<(Key, u64)> = Vec::new();
        let mut found: Option<u64> = None;
        proof {
            assert(pairs.skip(pairs.len() as int) =~= Seq::empty());
            assert(session_pairs(tasks@) =~= pairs.take(pairs.len() as int));
            assert(session_pairs(kept@) =~= Seq::empty());
            assert(crate::string_map::pairs_map(pairs.skip(pairs.len() as int).reverse())
                =~= Map::empty());
            assert(running(Map::empty(), finished@) =~= Map::empty());
        }
        while tasks.len() > 0
            invariant
                tasks.len() <= pairs.len(),
                session_pairs(tasks@) == pairs.take(tasks.len() as int),
                crate::string_map::distinct_keys(pairs),
                crate::string_map::distinct_keys(session_pairs(kept@)),
                forall|k: int|
                    0 <= k < kept.len() ==> exists|j: int|
                        tasks.len() <= j < pairs.len() && pairs[j].0 == (#[trigger] kept[k]).0@,
                crate::string_map::pairs_map(session_pairs(kept@)) == running(
                    crate::string_map::pairs_map(pairs.skip(tasks.len() as int).reverse()),
                    finished@,
                ),
                found == (if crate::string_map::pairs_map(session_pairs(kept@)).contains_key(key@) {
                    Some(crate::string_map::pairs_map(session_pairs(kept@))[key@])
                } else {
                    None
                }),
            decreases tasks.len(),
        {
            let ghost at = tasks.len() - 1;
            let ghost seen = pairs.skip(tasks.len() as int).reverse();
            let ghost next = pairs.skip(at).reverse();
            let ghost before = session_pairs(kept@);
            let ghost kept_before = kept@;
            proof {
                assert(session_pairs(tasks@)[at] == pairs[at]);
                assert(next.last() == pairs[at]);
                assert(next.drop_last() =~= seen);
                crate::string_map::lemma_pairs_map(seen);
                assert(!crate::string_map::pairs_map(seen).contains_key(pairs[at].0)) by {
                    if crate::string_map::pairs_map(seen).contains_key(pairs[at].0) {
                        let j = choose|j: int|
                            0 <= j < seen.len() && #[trigger] seen[j].0 == pairs[at].0;
                        assert(seen[j] == pairs[pairs.len() - 1 - j]);
                        assert(pairs[at].0 != pairs[pairs.len() - 1 - j].0);
                    }
                }
            }
            if let Some((session, task)) = tasks.pop() {
                assert(session@ == pairs[at].0 && task == pairs[at].1);
                assert(session_pairs(tasks@) =~= pairs.take(at));
                if !listed(finished, task) {
                    if session.eq(key) {
                        found = Some(task);
                    }
                    kept.push((session, task));
                    proof {
                        let after = session_pairs(kept@);
                        assert(after =~= before.push((session@, task)));
                        assert(after.drop_last() =~= before);
                        assert forall|a: int, b: int| 0 <= a < b < after.len() implies #[trigger] after[a].0
                            != #[trigger] after[b].0 by {
                            if b == before.len() {
                                let j = choose|j: int|
                                    at + 1 <= j < pairs.len() && pairs[j].0 == (
                                    #[trigger] kept_before[a]).0@;
                                assert(pairs[at].0 != pairs[j].0);
                                assert(after[a].0 == kept_before[a].0@);
                            } else {
                                assert(before[a].0 != before[b].0);
                            }
                        }
                    }
                }
                proof {
                    assert forall|k: int| 0 <= k < kept.len() implies exists|j: int|
                        at <= j < pairs.len() && pairs[j].0 == (#[trigger] kept[k]).0@ by {
                        if k < kept_before.len() {
                            let j = choose|j: int|
                                at + 1 <= j < pairs.len() && pairs[j].0 == (
                                #[trigger] kept_before[k]).0@;
                            assert(pairs[j].0 == kept[k].0@);
                        } else {
                            assert(pairs[at].0 == kept[k].0@);
                        }
                    }
                    assert(crate::string_map::pairs_map(session_pairs(kept@)) =~= running(
                        crate::string_map::pairs_map(next),
                        finished@,
                    ));
                }
            }
        }
        proof {
            lemma_reversed(pairs);
            assert(pairs.skip(0).reverse() =~= pairs.reverse());
        }
        self.tasks = kept;
        found
    }

    fn insert(&mut self, key: Key, task: u64)
        requires
            !old(self)@.contains_key(key@),
        ensures
            final(self)@ == old(self)@.insert(key@, task),
    {
        proof {
            use_type_invariant(&*self);
        }
        let ghost pairs = session_pairs(self.tasks@);
        let mut tasks: Vec<(Key, u64)> = Vec::new();
        std::mem::swap(&mut tasks, &mut self.tasks);
        tasks.push((key, task));
        proof {
            crate::string_map::lemma_pairs_map(pairs);
            let after = session_pairs(tasks@);
            assert(after =~= pairs.push((key@, task)));
            assert(after.drop_last() =~= pairs);
            assert forall|a: int, b: int| 0 <= a < b < after.len() implies #[trigger] after[a].0
                != #[trigger] after[b].0 by {
                if b == pairs.len() {
                    assert(crate::string_map::pairs_map(pairs).contains_key(pairs[a].0));
                } else {
                    assert(pairs[a].0 != pairs[b].0);
                }
            }
        }
        self.tasks = tasks;
    }

    /// Opens a session for connection information and the address of the bridge,
    /// unless one with the same host and port is open. `spawn` starts the task
    /// of the session, and starts none where one is open.
    pub fn open<S: FnOnce(String, String) -> u64>(
        &mut self,
        info: ConnectionInfo,
        bridge_url: String,
        finished: &Vec<u64>,
        spawn: S,
    )
        requires
            !running(old(self)@, finished@).contains_key((info.host@, info.port))
                ==> call_requires(spawn, (bridge_url, info.session_token)),
        ensures
            ({
                let key = (info.host@, info.port);
                let left = running(old(self)@, finished@);
                if left.contains_key(key) {
                    final(self)@ == left
                } else {
                    exists|task: u64| #[trigger]
                        call_ensures(spawn, (bridge_url, info.session_token), task) && final(self)@
                            == left.insert(key, task)
                }
            }),
    {
        let session_token = info.session_token.clone();
        let key = Key { info };
        if self.get_running(&key, finished).is_none() {
            let task: u64 = spawn(bridge_url, session_token);
            self.insert(key, task);
        }
    }

    /// Handles an event from Astarte: opens the session that it asks for.
    /// `locate` reads the connection information and the address of the bridge
    /// from the object of the event. `spawn` starts the task of the session: none
    /// where the event is no request, `locate` finds nothing, or a session with
    /// the host and port is open.
    pub fn handle<
        L: FnOnce(StringMap<AstarteType>) -> Option<(ConnectionInfo, String)>,
        S: FnOnce(String, String) -> u64,
    >(&mut self, event: DeviceEvent, finished: &Vec<u64>, locate: L, spawn: S)
        requires
            event.path@ == "/request"@ ==> (event.data matches Value::Object(object) ==> {
                &&& call_requires(locate, (object,))
                &&& forall|info: ConnectionInfo, url: String| #[trigger]
                    call_ensures(locate, (object,), Some((info, url))) && !running(
                        old(self)@,
                        finished@,
                    ).contains_key((info.host@, info.port)) ==> call_requires(
                        spawn,
                        (url, info.session_token),
                    )
            }),
        ensures
            match event.data {
                Value::Object(object) if event.path@ == "/request"@ => exists|
                    located: Option<(ConnectionInfo, String)>,
                | #[trigger]
                    call_ensures(locate, (object,), located) && match located {
                        Some((info, bridge_url)) => {
                            let key = (info.host@, info.port);
                            let left = running(old(self)@, finished@);
                            if left.contains_key(key) {
                                final(self)@ == left
                            } else {
                                exists|task: u64| #[trigger]
                                    call_ensures(spawn, (bridge_url, info.session_token), task)
                                        && final(self)@ == left.insert(key, task)
                            }
                        },
                        None => final(self)@ == old(self)@,
                    },
                _ => final(self)@ == old(self)@,
            },
    {
        let data = match Self::retrieve_astarte_data(event) {
            Some(data) => data,
            None => return,
        };
        let located = locate(data);
        match located {
            Some((info, bridge_url)) => {
                self.open(info, bridge_url, finished, spawn);
            },
            None => {},
        }
    }
}

/// Opening a session, as [`Forwarder::open`] does, leaves every session whose
/// task runs with its task, whatever host and port it is opened with.
pub proof fn law_running_sessions_stay(
    before: Map<(Seq<char>, u16), u64>,
    finished: Seq<u64>,
    key: (Seq<char>, u16),
    task: u64,
    after: Map<(Seq<char>, u16), u64>,
)
    requires
        ({
            let left = running(before, finished);
            if left.contains_key(key) {
                after == left
            } else {
                after == left.insert(key, task)
            }
        }),
    ensures
        after.contains_key(key),
        forall|other: (Seq<char>, u16)|
            before.contains_key(other) && !finished.contains(before[other])
                ==> #[trigger] after.contains_key(other) && after[other] == before[other],
{
    assert forall|other: (Seq<char>, u16)|
        before.contains_key(other) && !finished.contains(
            before[other],
        ) implies #[trigger] after.contains_key(other) && after[other] == before[other] by {
        assert(running(before, finished).contains_key(other));
    }
}

/// Forgetting sessions makes none up and changes none: those that are left are
/// just those of before whose tasks have not finished.
pub proof fn law_forgetting_only_forgets(
    sessions: Map<(Seq<char>, u16), u64>,
    finished: Seq<u64>,
    key: (Seq<char>, u16),
)
    ensures
        running(sessions, finished).contains_key(key) <==> sessions.contains_key(key)
            && !finished.contains(sessions[key]),
        running(sessions, finished).contains_key(key) ==> running(sessions, finished)[key]
            == sessions[key],
{
}

/// With distinct keys the order of the pairs does not matter.
proof fn lemma_reversed(pairs: Seq<((Seq<char>, u16), u64)>)
    requires
        crate::string_map::distinct_keys(pairs),
    ensures
        crate::string_map::pairs_map(pairs.reverse()) == crate::string_map::pairs_map(pairs),
{
    let back = pairs.reverse();
    assert forall|i: int, j: int| 0 <= i < j < back.len() implies #[trigger] back[i].0
        != #[trigger] back[j].0 by {
        let a = pairs.len() - 1 - j;
        let b = pairs.len() - 1 - i;
        assert(back[i] == pairs[b] && back[j] == pairs[a]);
        assert(pairs[a].0 != pairs[b].0);
    }
    crate::string_map::lemma_pairs_map(pairs);
    crate::string_map::lemma_pairs_map(back);
    let one = crate::string_map::pairs_map(back);
    let two = crate::string_map::pairs_map(pairs);
    assert forall|key: (Seq<char>, u16)| one.contains_key(key) implies two.contains_key(key)
        && one[key] == two[key] by {
        let i = choose|i: int| 0 <= i < back.len() && #[trigger] back[i].0 == key;
        assert(back[i] == pairs[pairs.len() - 1 - i]);
        assert(two.contains_key(pairs[pairs.len() - 1 - i].0));
    }
    assert forall|key: (Seq<char>, u16)| two.contains_key(key) implies one.contains_key(key) by {
        let i = choose|i: int| 0 <= i < pairs.len() && #[trigger] pairs[i].0 == key;
        assert(back[pairs.len() - 1 - i] == pairs[i]);
        assert(one.contains_key(back[pairs.len() - 1 - i].0));
    }
    assert(one =~= two);
}

} // verus!
