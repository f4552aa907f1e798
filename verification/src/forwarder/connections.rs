//! The connections that are open between Edgehog and the device.

use vstd::prelude::*;

use crate::forwarder::connection::{
    ConnectionError, ConnectionHandle, TransportBuilder, WriteHandle,
};
use crate::forwarder::messages::{Http, HttpMessage, Id, Protocol, WebSocket, WebSocketMessage};

verus! {

/// What went wrong with a message from Edgehog.
#[derive(Debug)]
pub enum ConnectionsError {
    /// Edgehog may not send the message with the identifier.
    WrongMessage(Id),
    /// There is no connection with the identifier.
    ConnectionNotFound(Id),
    /// There is a connection with the identifier already.
    IdAlreadyUsed(Id),
    /// The connection failed.
    Connection(ConnectionError),
}

/// The open connections, each under its identifier.
#[derive(Debug)]
pub struct Connections {
    connections: Vec<(Id, ConnectionHandle)>,
}

/// The connections with their identifiers as bytes.
pub open spec fn connection_pairs(connections: Seq<(Id, ConnectionHandle)>) -> Seq<
    (Seq<u8>, ConnectionHandle),
> {
    connections.map_values(|c: (Id, ConnectionHandle)| (c.0@, c.1))
}

/// The connections whose tasks have not finished.
pub open spec fn running(
    connections: Map<Seq<u8>, ConnectionHandle>,
    finished: Seq<u64>,
) -> Map<Seq<u8>, ConnectionHandle> {
    Map::new(
        |id: Seq<u8>| connections.contains_key(id) && !finished.contains(connections[id].task),
        |id: Seq<u8>| connections[id],
    )
}

impl View for Connections {
    type V = Map<Seq<u8>, ConnectionHandle>;

    closed spec fn view(&self) -> Map<Seq<u8>, ConnectionHandle> {
        crate::string_map::pairs_map(connection_pairs(self.connections@))
    }
}

/// Whether the task is one of the tasks.
pub(crate) fn listed(tasks: &Vec<u64>, task: u64) -> (found: bool)
    ensures
        found == tasks@.contains(task),
{
    let mut i: usize = 0;
    while i < tasks.len()
        invariant
            i <= tasks.len(),
            forall|j: int| 0 <= j < i ==> tasks[j] != task,
        decreases tasks.len() - i,
    {
        if tasks[i] == task {
            assert(tasks@[i as int] == task);
            return true;
        }
        i += 1;
    }
    false
}

impl Connections {
    #[verifier::type_invariant]
    spec fn wf(self) -> bool {
        crate::string_map::distinct_keys(connection_pairs(self.connections@))
    }

    /// No connections.
    pub fn new() -> (connections: Connections)
        ensures
            connections@ == Map::<Seq<u8>, ConnectionHandle>::empty(),
    {
        let connections = Connections { connections: Vec::new() };
        assert(connection_pairs(connections.connections@) =~= Seq::empty());
        connections
    }

    fn position(&self, id: &Id) -> (at: Option<usize>)
        ensures
            match at {
                Some(i) => i < self.connections.len() && self.connections[i as int].0@ == id@,
                None => forall|i: int|
                    0 <= i < self.connections.len() ==> (#[trigger] self.connections[i]).0@ != id@,
            },
    {
        let mut i: usize = 0;
        while i < self.connections.len()
            invariant
                i <= self.connections.len(),
                forall|j: int| 0 <= j < i ==> (#[trigger] self.connections[j]).0@ != id@,
            decreases self.connections.len() - i,
        {
            if self.connections[i].0.same(id) {
                return Some(i);
            }
            i += 1;
        }
        None
    }

    /// The connection with the identifier.
    pub fn get(&self, id: &Id) -> (handle: Option<ConnectionHandle>)
        ensures
            handle == (if self@.contains_key(id@) {
                Some(self@[id@])
            } else {
                None
            }),
    {
        let at = self.position(id);
        proof {
            use_type_invariant(self);
            let pairs = connection_pairs(self.connections@);
            crate::string_map::lemma_pairs_map(pairs);
            match at {
                Some(i) => {
                    assert(pairs[i as int].0 == id@);
                },
                None => {
                    if self@.contains_key(id@) {
                        let i = choose|i: int| 0 <= i < pairs.len() && #[trigger] pairs[i].0 == id@;
                        assert(self.connections[i].0@ == id@);
                    }
                },
            }
        }
        match at {
            Some(i) => Some(self.connections[i].1),
            None => None,
        }
    }

    /// Forgets the connections whose tasks have finished.
    pub fn remove_terminated(&mut self, finished: &Vec<u64>)
        ensures
            final(self)@ == running(old(self)@, finished@),
    {
        proof {
            use_type_invariant(&*self);
        }
        let ghost pairs = connection_pairs(self.connections@);
        let mut kept: Vec<(Id, ConnectionHandle)> = Vec::new();
        let mut i: usize = 0;
        proof {
            assert(pairs.take(0) =~= Seq::empty());
            assert(connection_pairs(kept@) =~= Seq::empty());
            assert(running(crate::string_map::pairs_map(pairs.take(0)), finished@) =~= Map::empty());
        }
        while i < self.connections.len()
            invariant
                i <= self.connections.len(),
                pairs == connection_pairs(self.connections@),
                crate::string_map::distinct_keys(pairs),
                crate::string_map::distinct_keys(connection_pairs(kept@)),
                forall|k: int|
                    0 <= k < kept.len() ==> exists|j: int|
                        0 <= j < i && pairs[j].0 == (#[trigger] kept[k]).0@,
                crate::string_map::pairs_map(connection_pairs(kept@)) == running(
                    crate::string_map::pairs_map(pairs.take(i as int)),
                    finished@,
                ),
            decreases self.connections.len() - i,
        {
            let ghost before = connection_pairs(kept@);
            let ghost seen = pairs.take(i as int);
            let ghost key = pairs[i as int].0;
            proof {
                assert(pairs.take(i + 1).drop_last() =~= seen);
                assert(pairs.take(i + 1).last() == pairs[i as int]);
                crate::string_map::lemma_pairs_map(seen);
                assert(!crate::string_map::pairs_map(seen).contains_key(key)) by {
                    if crate::string_map::pairs_map(seen).contains_key(key) {
                        let j = choose|j: int| 0 <= j < seen.len() && #[trigger] seen[j].0 == key;
                        assert(pairs[j].0 != pairs[i as int].0);
                    }
                }
            }
            let handle = self.connections[i].1;
            if !listed(finished, handle.task) {
                let ghost kept_before = kept@;
                kept.push((self.connections[i].0.clone(), handle));
                proof {
                    let after = connection_pairs(kept@);
                    assert(after =~= before.push((key, handle)));
                    assert(after.drop_last() =~= before);
                    assert forall|a: int, b: int| 0 <= a < b < after.len() implies #[trigger] after[a].0
                        != #[trigger] after[b].0 by {
                        if b == before.len() {
                            let j = choose|j: int|
                                0 <= j < i && pairs[j].0 == (#[trigger] kept_before[a]).0@;
                            assert(pairs[j].0 != pairs[i as int].0);
                            assert(after[a].0 == kept_before[a].0@);
                        } else {
                            assert(before[a].0 != before[b].0);
                        }
                    }
                    assert forall|k: int| 0 <= k < kept.len() implies exists|j: int|
                        0 <= j < i + 1 && pairs[j].0 == (#[trigger] kept[k]).0@ by {
                        if k < kept_before.len() {
                            let j = choose|j: int|
                                0 <= j < i && pairs[j].0 == (#[trigger] kept_before[k]).0@;
                            assert(pairs[j].0 == kept[k].0@);
                        } else {
                            assert(pairs[i as int].0 == kept[k].0@);
                        }
                    }
                }
            }
            assert(crate::string_map::pairs_map(connection_pairs(kept@)) =~= running(
                crate::string_map::pairs_map(pairs.take(i + 1)),
                finished@,
            ));
            i += 1;
        }
        assert(pairs.take(i as int) =~= pairs);
        self.connections = kept;
    }

    fn reserve(&mut self, id: &Id, finished: &Vec<u64>, finished_meanwhile: bool) -> (res: Result<
        (),
        ConnectionsError,
    >)
        ensures
            final(self)@ == running(old(self)@, finished@),
            match res {
                Ok(_) => !final(self)@.contains_key(id@) || finished_meanwhile,
                Err(ConnectionsError::IdAlreadyUsed(used)) => final(self)@.contains_key(id@)
                    && !finished_meanwhile && used@ == id@,
                Err(_) => false,
            },
    {
        self.remove_terminated(finished);
        if self.get(id).is_some() && !finished_meanwhile {
            return Err(ConnectionsError::IdAlreadyUsed(id.clone()));
        }
        Ok(())
    }

    fn insert(&mut self, id: Id, handle: ConnectionHandle)
        ensures
            final(self)@ == old(self)@.insert(id@, handle),
    {
        let at = self.position(&id);
        proof {
            use_type_invariant(&*self);
        }
        let ghost pairs = connection_pairs(self.connections@);
        let mut connections: Vec<(Id, ConnectionHandle)> = Vec::new();
        std::mem::swap(&mut connections, &mut self.connections);
        match at {
            Some(i) => {
                proof {
                    crate::string_map::lemma_pairs_map_update(pairs, i as int, handle);
                }
                connections.push((id, handle));
                let _replaced = connections.swap_remove(i);
                assert(connection_pairs(connections@) =~= pairs.update(
                    i as int,
                    (pairs[i as int].0, handle),
                ));
            },
            None => {
                let ghost before = connections@;
                connections.push((id, handle));
                proof {
                    let after = connection_pairs(connections@);
                    assert(after =~= pairs.push((id@, handle)));
                    assert(after.drop_last() =~= pairs);
                    assert forall|a: int, b: int| 0 <= a < b < after.len() implies #[trigger] after[a].0
                        != #[trigger] after[b].0 by {
                        if b == pairs.len() {
                            assert(before[a].0@ != id@);
                        } else {
                            assert(pairs[a].0 != pairs[b].0);
                        }
                    }
                }
            },
        }
        self.connections = connections;
    }

    /// Adds the connection that `f` opens under an identifier. The connections
    /// whose tasks have finished are forgotten first; a connection that is left
    /// keeps its identifier unless its task has finished meanwhile. `f` opens
    /// nothing for an identifier in use.
    pub fn try_add<F: FnOnce() -> Result<ConnectionHandle, ConnectionsError>>(
        &mut self,
        id: Id,
        finished: &Vec<u64>,
        finished_meanwhile: bool,
        f: F,
    ) -> (res: Result<(), ConnectionsError>)
        requires
            !(running(old(self)@, finished@).contains_key(id@) && !finished_meanwhile)
                ==> call_requires(f, ()),
        ensures
            ({
                let left = running(old(self)@, finished@);
                if left.contains_key(id@) && !finished_meanwhile {
                    &&& final(self)@ == left
                    &&& res matches Err(ConnectionsError::IdAlreadyUsed(used)) && used@ == id@
                } else {
                    exists|opened: Result<ConnectionHandle, ConnectionsError>| #[trigger]
                        call_ensures(f, (), opened) && match opened {
                            Ok(handle) => res is Ok && final(self)@ == left.insert(id@, handle),
                            Err(error) => res == Err::<(), ConnectionsError>(error) && final(self)@ == left,
                        }
                }
            }),
    {
        if let Err(error) = self.reserve(&id, finished, finished_meanwhile) {
            return Err(error);
        }
        let opened = f();
        match opened {
            Ok(handle) => {
                self.insert(id, handle);
                Ok(())
            },
            Err(error) => Err(error),
        }
    }

    /// Handles an HTTP message from Edgehog: opens the connection that the
    /// request asks for, with `spawn` starting its task. `spawn` starts nothing
    /// for a response, for an identifier in use, or for a request that fails.
    pub fn handle_http<S: FnOnce(Id, TransportBuilder) -> u64>(
        &mut self,
        http: Http,
        finished: &Vec<u64>,
        finished_meanwhile: bool,
        spawn: S,
    ) -> (res: Result<(), ConnectionsError>)
        requires
            http.http_msg matches HttpMessage::Request(request) ==> (!(running(
                old(self)@,
                finished@,
            ).contains_key(http.request_id@) && !finished_meanwhile) ==> forall|
                given: Id,
                builder: TransportBuilder,
                connection: WriteHandle,
            |
                #![trigger call_requires(spawn, (given, builder)), TransportBuilder::opened_by(request, Ok((builder, connection)))]
                given@ == http.request_id@ && TransportBuilder::opened_by(
                    request,
                    Ok((builder, connection)),
                ) ==> call_requires(spawn, (given, builder))),
        ensures
            ({
                let id = http.request_id@;
                let left = running(old(self)@, finished@);
                match http.http_msg {
                    HttpMessage::Response(_) => {
                        &&& final(self)@ == old(self)@
                        &&& res matches Err(ConnectionsError::WrongMessage(wrong)) && wrong@ == id
                    },
                    HttpMessage::Request(request) => if left.contains_key(id)
                        && !finished_meanwhile {
                        &&& final(self)@ == left
                        &&& res matches Err(ConnectionsError::IdAlreadyUsed(used)) && used@ == id
                    } else {
                        match res {
                            Ok(_) => exists|
                                given: Id,
                                builder: TransportBuilder,
                                connection: WriteHandle,
                                task: u64,
                            |
                                {
                                    &&& given@ == id
                                    &&& #[trigger] TransportBuilder::opened_by(
                                        request,
                                        Ok((builder, connection)),
                                    )
                                    &&& #[trigger] call_ensures(spawn, (given, builder), task)
                                    &&& final(self)@ == left.insert(
                                        id,
                                        ConnectionHandle { task, connection },
                                    )
                                },
                            Err(ConnectionsError::Connection(error)) => {
                                &&& final(self)@ == left
                                &&& TransportBuilder::opened_by(request, Err(error))
                            },
                            Err(_) => false,
                        }
                    },
                }
            }),
    {
        let request = match http.http_msg {
            HttpMessage::Request(request) => request,
            HttpMessage::Response(_) => return Err(ConnectionsError::WrongMessage(http.request_id)),
        };
        if let Err(error) = self.reserve(&http.request_id, finished, finished_meanwhile) {
            return Err(error);
        }
        match TransportBuilder::with_handle(request) {
            Ok((builder, connection)) => {
                let task: u64 = spawn(http.request_id.clone(), builder);
                self.insert(http.request_id, ConnectionHandle { task, connection });
                Ok(())
            },
            Err(error) => Err(ConnectionsError::Connection(error)),
        }
    }

    /// Handles a WebSocket message from Edgehog: finds the task that gets it.
    pub fn handle_ws(&self, ws: WebSocket) -> (res: Result<(u64, WebSocketMessage), ConnectionsError>)
        ensures
            if self@.contains_key(ws.socket_id@) {
                let handle = self@[ws.socket_id@];
                match handle.connection {
                    WriteHandle::Ws => res matches Ok(sent) && sent == (handle.task, ws.message),
                    WriteHandle::Http => res matches Err(
                        ConnectionsError::Connection(ConnectionError::Channel),
                    ),
                }
            } else {
                res matches Err(ConnectionsError::ConnectionNotFound(id)) && id@ == ws.socket_id@
            },
    {
        match self.get(&ws.socket_id) {
            Some(handle) => match handle.send(Protocol::WebSocket(ws)) {
                Ok(message) => Ok((handle.task, message)),
                Err(error) => Err(ConnectionsError::Connection(error)),
            },
            None => Err(ConnectionsError::ConnectionNotFound(ws.socket_id)),
        }
    }

    /// Forgets all connections and hands out the tasks to abort.
    pub fn disconnect(&mut self) -> (tasks: Vec<u64>)
        ensures
            final(self)@ == Map::<Seq<u8>, ConnectionHandle>::empty(),
            forall|task: u64| #[trigger]
                tasks@.contains(task) <==> exists|id: Seq<u8>| #[trigger]
                    old(self)@.contains_key(id) && old(self)@[id].task == task,
    {
        proof {
            use_type_invariant(&*self);
        }
        let ghost pairs = connection_pairs(self.connections@);
        let mut tasks: Vec<u64> = Vec::new();
        let mut i: usize = 0;
        while i < self.connections.len()
            invariant
                i <= self.connections.len(),
                tasks.len() == i,
                forall|j: int| 0 <= j < i ==> tasks[j] == self.connections[j].1.task,
            decreases self.connections.len() - i,
        {
            tasks.push(self.connections[i].1.task);
            i += 1;
        }
        proof {
            crate::string_map::lemma_pairs_map(pairs);
            assert forall|task: u64| #[trigger] tasks@.contains(task) implies exists|id: Seq<u8>|
                #[trigger] self@.contains_key(id) && self@[id].task == task by {
                let j = choose|j: int| 0 <= j < tasks.len() && tasks@[j] == task;
                assert(pairs[j].1.task == task);
                assert(self@.contains_key(pairs[j].0));
            }
            assert forall|task: u64|
                (exists|id: Seq<u8>| #[trigger] self@.contains_key(id) && self@[id].task == task)
                implies #[trigger] tasks@.contains(task) by {
                let id = choose|id: Seq<u8>| #[trigger]
                    self@.contains_key(id) && self@[id].task == task;
                let j = choose|j: int| 0 <= j < pairs.len() && #[trigger] pairs[j].0 == id;
                assert(tasks@[j] == task);
            }
        }
        self.connections = Vec::new();
        assert(connection_pairs(self.connections@) =~= Seq::empty());
        tasks
    }
}

/// Opening another connection leaves every connection whose task runs as it is:
/// whatever [`Connections::try_add`] and [`Connections::handle_http`] come to,
/// such a connection keeps its identifier and its handle.
pub proof fn law_running_connections_stay(
    before: Map<Seq<u8>, ConnectionHandle>,
    finished: Seq<u64>,
    id: Seq<u8>,
    finished_meanwhile: bool,
    handle: ConnectionHandle,
    after: Map<Seq<u8>, ConnectionHandle>,
)
    requires
        ({
            let left = running(before, finished);
            if left.contains_key(id) && !finished_meanwhile {
                after == left
            } else {
                after == left || after == left.insert(id, handle)
            }
        }),
    ensures
        forall|other: Seq<u8>|
            before.contains_key(other) && !finished.contains(before[other].task) && !(
            finished_meanwhile && other == id) ==> #[trigger] after.contains_key(other)
                && after[other] == before[other],
{
    assert forall|other: Seq<u8>|
        before.contains_key(other) && !finished.contains(before[other].task) && !(
        finished_meanwhile && other == id) implies #[trigger] after.contains_key(other)
        && after[other] == before[other] by {
        assert(running(before, finished).contains_key(other));
    }
}

/// Forgetting connections makes none up and changes none: those that are left
/// are just those of before whose tasks have not finished.
pub proof fn law_forgetting_only_forgets(
    connections: Map<Seq<u8>, ConnectionHandle>,
    finished: Seq<u64>,
    id: Seq<u8>,
)
    ensures
        running(connections, finished).contains_key(id) <==> connections.contains_key(id)
            && !finished.contains(connections[id].task),
        running(connections, finished).contains_key(id) ==> running(connections, finished)[id]
            == connections[id],
{
}

/// Connections whose tasks have finished are gone once they were forgotten, and
/// forgetting them again changes nothing.
pub proof fn law_terminated_connections_are_gone(
    connections: Map<Seq<u8>, ConnectionHandle>,
    finished: Seq<u64>,
)
    ensures
        forall|id: Seq<u8>| #[trigger]
            running(connections, finished).contains_key(id) ==> !finished.contains(
                running(connections, finished)[id].task,
            ),
        running(running(connections, finished), finished) == running(connections, finished),
{
    assert(running(running(connections, finished), finished) =~= running(connections, finished));
}

} // verus!
