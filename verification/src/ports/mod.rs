pub mod tcp;
pub mod wasm;
pub mod websocket;
pub mod websocket_wasm;

use std::collections::HashMap;
use vstd::prelude::*;
use vstd::std_specs::iter::IteratorSpec;

verus! {

broadcast use vstd::std_specs::hash::group_hash_axioms;

#[verifier::external_type_specification]
#[verifier::external_body]
pub struct ExClientConfig(rustls::ClientConfig);

#[verifier::external_type_specification]
#[verifier::external_body]
pub struct ExServerConfig(rustls::ServerConfig);

/// What a connecting task does after one attempt.
#[derive(PartialEq, Eq, Structural, Debug, Clone, Copy)]
pub enum ConnectStep {
    /// Try again.
    Retry,
    /// Hand the new stream over to the port.
    Deliver,
    /// Report the connection down and stop.
    Close,
    /// Stop without reporting anything.
    Stop,
}

/// What a socket yielded to the task that reads from it.
#[derive(PartialEq, Eq, Structural, Debug, Clone, Copy)]
pub enum ReceivedItem {
    /// A binary message.
    Binary,
    /// A text message.
    Text,
    /// Another kind of frame: ping, pong, close.
    Other,
    /// A read error.
    Error,
    /// The end of the stream.
    Ended,
}

/// What a reading task does with one item.
#[derive(PartialEq, Eq, Structural, Debug, Clone, Copy)]
pub enum ReadStep {
    /// Pass the message on.
    Deliver,
    /// Skip it.
    Ignore,
    /// Report the connection down; stop reading when `stop` says so.
    ReportDown { stop: bool },
}

/// What every port must be to live in a connection: shareable between threads.
pub trait PortTraits {}

impl<T: Send + Sync> PortTraits for T {}

/// The transport a message arrived on.
#[derive(PartialEq, Eq, Structural, Debug, Clone, Copy)]
pub enum PortTypes {
    Tcp,
    Wasm,
    Udp,
}

/// An IP address: the four bytes of a version 4 address, or the eight 16-bit
/// groups of a version 6 one.
#[derive(Debug, Clone, Copy)]
pub enum IpAddress {
    V4([u8; 4]),
    V6([u16; 8]),
}

impl IpAddress {
    /// The loopback address `127.0.0.1`.
    pub fn localhost() -> (address: IpAddress)
        ensures
            address == IpAddress::V4([127u8, 0u8, 0u8, 1u8]),
    {
        IpAddress::V4([127, 0, 0, 1])
    }
}

/// What to do with a client that a server port has just accepted.
#[derive(PartialEq, Eq, Structural, Debug, Clone, Copy)]
pub enum Admission {
    /// Let it in.
    Accept,
    /// Turn it away: the server is full.
    Reject,
    /// Keep it waiting until a place frees up.
    Wait,
}

/// Whether a newly accepted client gets in. No limit (`max_connections == 0`)
/// or a free place lets it in; a full server turns it away when it refuses
/// when full, and otherwise keeps it waiting.
pub fn admission(max_connections: usize, recuse_when_full: bool, free_places: usize) -> (decision: Admission)
    ensures
        decision == (if max_connections == 0 || free_places > 0 {
            Admission::Accept
        } else if recuse_when_full {
            Admission::Reject
        } else {
            Admission::Wait
        }),
{
    if max_connections == 0 || free_places > 0 {
        Admission::Accept
    } else if recuse_when_full {
        Admission::Reject
    } else {
        Admission::Wait
    }
}

/// What the task that accepts clients does after one attempt: a failed accept
/// reports the listener down and stops the task; a client whose handshake
/// (TLS or WebSocket) failed is dropped and the next one awaited; a client
/// that came through is handed over. `handshake` is none when no handshake
/// is made.
pub fn accept_attempt(accepted: bool, handshake: Option<bool>) -> (step: ConnectStep)
    ensures
        step == (if !accepted {
            ConnectStep::Close
        } else {
            match handshake {
                Some(false) => ConnectStep::Retry,
                _ => ConnectStep::Deliver,
            }
        }),
{
    if !accepted {
        ConnectStep::Close
    } else {
        match handshake {
            Some(false) => ConnectStep::Retry,
            _ => ConnectStep::Deliver,
        }
    }
}

/// A change that a server port's steps make to the clients it knows.
pub enum ClientEvent {
    /// A client connected under this id and waits to authenticate.
    Connected(u128),
    /// The client with this id was let in, if it was waiting.
    Authenticated(u128),
    /// The waiting clients were marked as read from.
    MarkedRead,
    /// The client with this id went down: among the authenticated clients
    /// when the flag is set, among the waiting ones otherwise.
    Disconnected(u128, bool),
}

/// The ids of the authenticated and of the waiting clients after `event`,
/// starting from `ids`.
pub open spec fn ids_after(ids: (Set<u128>, Set<u128>), event: ClientEvent) -> (Set<u128>, Set<u128>) {
    let (authenticated, waiting) = ids;
    match event {
        ClientEvent::Connected(id) => (authenticated, waiting.insert(id)),
        ClientEvent::Authenticated(id) => if waiting.contains(id) {
            (authenticated.insert(id), waiting.remove(id))
        } else {
            ids
        },
        ClientEvent::MarkedRead => ids,
        ClientEvent::Disconnected(id, true) => (authenticated.remove(id), waiting),
        ClientEvent::Disconnected(id, false) => (authenticated, waiting.remove(id)),
    }
}

/// The ids of the authenticated and of the waiting clients after `events`,
/// starting from a port that knows no client.
pub open spec fn ids_after_run(events: Seq<ClientEvent>) -> (Set<u128>, Set<u128>)
    decreases events.len(),
{
    if events.len() == 0 {
        (Set::empty(), Set::empty())
    } else {
        ids_after(ids_after_run(events.drop_last()), events.last())
    }
}

/// Whether every client connects under an id that no authenticated client
/// has at that moment.
pub open spec fn connects_under_fresh_ids(events: Seq<ClientEvent>) -> bool {
    forall|i: int|
        0 <= i < events.len() ==> match #[trigger] events[i] {
            ClientEvent::Connected(id) => !ids_after_run(events.take(i)).0.contains(id),
            _ => true,
        }
}

/// Over any run of a server port's steps in which clients connect under
/// fresh ids, no client is ever both authenticated and waiting to
/// authenticate.
pub proof fn lemma_client_ids_stay_apart(events: Seq<ClientEvent>)
    requires
        connects_under_fresh_ids(events),
    ensures
        ids_after_run(events).0.disjoint(ids_after_run(events).1),
    decreases events.len(),
{
    if events.len() > 0 {
        let prefix = events.drop_last();
        assert(connects_under_fresh_ids(prefix)) by {
            assert forall|i: int| 0 <= i < prefix.len() implies match #[trigger] prefix[i] {
                ClientEvent::Connected(id) => !ids_after_run(prefix.take(i)).0.contains(id),
                _ => true,
            } by {
                assert(prefix.take(i) =~= events.take(i));
                assert(prefix[i] == events[i]);
            }
        }
        lemma_client_ids_stay_apart(prefix);
        let last = events.len() - 1;
        assert(events.take(last) =~= prefix);
        assert(events[last] == events.last());
    }
}

/// A client that a server port knows: the handles to talk with it, and
/// whether a task is already reading from it.
pub struct ListeningInfos<H> {
    pub handles: H,
    pub listening: bool,
}

/// The clients of a server port: those that authenticated, and those that
/// connected but have not authenticated yet, each by id.
pub struct ClientRegistry<H> {
    pub listening_clients: HashMap<u128, ListeningInfos<H>>,
    pub not_authenticated_listening: HashMap<u128, ListeningInfos<H>>,
}

impl<H> ClientRegistry<H> {
    /// No client is both authenticated and waiting to authenticate.
    pub open spec fn is_disjoint(&self) -> bool {
        forall|uuid: u128|
            !(#[trigger] self.listening_clients@.contains_key(uuid)
                && self.not_authenticated_listening@.contains_key(uuid))
    }

    /// The ids of the authenticated clients, then those of the waiting ones.
    pub open spec fn ids(&self) -> (Set<u128>, Set<u128>) {
        (self.listening_clients@.dom(), self.not_authenticated_listening@.dom())
    }

    pub fn new() -> (registry: Self)
        ensures
            registry.listening_clients@ == Map::<u128, ListeningInfos<H>>::empty(),
            registry.not_authenticated_listening@ == Map::<u128, ListeningInfos<H>>::empty(),
            registry.is_disjoint(),
    {
        ClientRegistry { listening_clients: HashMap::new(), not_authenticated_listening: HashMap::new() }
    }

    /// Records a client that just connected, under a fresh id, as waiting to
    /// authenticate and not read from yet.
    pub fn client_connected(&mut self, uuid: u128, handles: H)
        ensures
            final(self).not_authenticated_listening@ == old(self).not_authenticated_listening@.insert(
                uuid,
                ListeningInfos { handles, listening: false },
            ),
            final(self).listening_clients@ == old(self).listening_clients@,
            old(self).is_disjoint() && !old(self).listening_clients@.contains_key(uuid)
                ==> final(self).is_disjoint(),
    {
        self.not_authenticated_listening.insert(uuid, ListeningInfos { handles, listening: false });
    }

    /// Moves a client that was waiting to authenticate to the authenticated
    /// ones, marked as read from. Returns whether the client was waiting; an
    /// unknown id changes nothing.
    pub fn authenticate_client(&mut self, uuid: u128) -> (moved: bool)
        ensures
            moved == old(self).not_authenticated_listening@.contains_key(uuid),
            moved ==> {
                &&& final(self).not_authenticated_listening@
                    == old(self).not_authenticated_listening@.remove(uuid)
                &&& final(self).listening_clients@ == old(self).listening_clients@.insert(
                    uuid,
                    ListeningInfos {
                        handles: old(self).not_authenticated_listening@[uuid].handles,
                        listening: true,
                    },
                )
            },
            !moved ==> {
                &&& final(self).not_authenticated_listening@
                    == old(self).not_authenticated_listening@
                &&& final(self).listening_clients@ == old(self).listening_clients@
            },
            old(self).is_disjoint() ==> final(self).is_disjoint(),
    {
        match self.not_authenticated_listening.remove(&uuid) {
            Some(infos) => {
                let ListeningInfos { handles, listening: _ } = infos;
                self.listening_clients.insert(uuid, ListeningInfos { handles, listening: true });
                true
            },
            None => false,
        }
    }

    /// Forgets a client whose connection went down: among the authenticated
    /// clients or among those waiting, as `authenticated` says.
    pub fn client_disconnected(&mut self, uuid: u128, authenticated: bool)
        ensures
            authenticated ==> {
                &&& final(self).listening_clients@ == old(self).listening_clients@.remove(uuid)
                &&& final(self).not_authenticated_listening@
                    == old(self).not_authenticated_listening@
            },
            !authenticated ==> {
                &&& final(self).listening_clients@ == old(self).listening_clients@
                &&& final(self).not_authenticated_listening@
                    == old(self).not_authenticated_listening@.remove(uuid)
            },
            old(self).is_disjoint() ==> final(self).is_disjoint(),
    {
        if authenticated {
            self.listening_clients.remove(&uuid);
        } else {
            self.not_authenticated_listening.remove(&uuid);
        }
    }

    /// Marks every waiting client as read from, and returns the ids of those
    /// that were not read from yet: a reading task is to start for each.
    pub fn check_not_authenticated_clients(&mut self) -> (to_start: Vec<u128>)
        ensures
            to_start@.no_duplicates(),
            forall|uuid: u128|
                #![trigger to_start@.contains(uuid)]
                to_start@.contains(uuid) <==> (
                old(self).not_authenticated_listening@.contains_key(uuid)
                    && !old(self).not_authenticated_listening@[uuid].listening),
            final(self).not_authenticated_listening@.dom()
                == old(self).not_authenticated_listening@.dom(),
            forall|uuid: u128|
                #![trigger final(self).not_authenticated_listening@[uuid]]
                old(self).not_authenticated_listening@.contains_key(uuid)
                    ==> final(self).not_authenticated_listening@[uuid] == (ListeningInfos {
                    handles: old(self).not_authenticated_listening@[uuid].handles,
                    listening: true,
                }),
            final(self).listening_clients@ == old(self).listening_clients@,
            old(self).is_disjoint() ==> final(self).is_disjoint(),
    {
        let ghost before = self.not_authenticated_listening@;
        let keys = collect_keys(&self.not_authenticated_listening);
        let mut to_start: Vec<u128> = Vec::new();
        let mut i: usize = 0;
        while i < keys.len()
            invariant
                i <= keys@.len(),
                keys@.to_set() == before.dom(),
                keys@.no_duplicates(),
                self.listening_clients@ == old(self).listening_clients@,
                self.not_authenticated_listening@.dom() == before.dom(),
                forall|uuid: u128|
                    #![trigger self.not_authenticated_listening@[uuid]]
                    before.contains_key(uuid) ==> self.not_authenticated_listening@[uuid] == (
                    if keys@.take(i as int).contains(uuid) {
                        ListeningInfos { handles: before[uuid].handles, listening: true }
                    } else {
                        before[uuid]
                    }),
                to_start@.no_duplicates(),
                forall|uuid: u128|
                    #![trigger to_start@.contains(uuid)]
                    to_start@.contains(uuid) <==> (keys@.take(i as int).contains(uuid)
                        && !before[uuid].listening),
            decreases keys@.len() - i,
        {
            let uuid = keys[i];
            assert(keys@.to_set().contains(uuid));
            assert(!keys@.take(i as int).contains(uuid)) by {
                if keys@.take(i as int).contains(uuid) {
                    let k = choose|k: int| 0 <= k < i && keys@.take(i as int)[k] == uuid;
                    assert(keys@[k] == keys@[i as int]);
                }
            }
            assert(keys@.take(i + 1) =~= keys@.take(i as int).push(uuid));
            let ghost prev = self.not_authenticated_listening@;
            let ghost prev_start = to_start@;
            let ghost cur = keys@.take(i as int);
            let ghost next = keys@.take(i + 1);
            assert(prev.contains_key(uuid));
            assert(prev[uuid] == before[uuid]);
            let infos = self.not_authenticated_listening.remove(&uuid);
            assert(infos == Some(before[uuid]));
            if let Some(infos) = infos {
                let ListeningInfos { handles, listening } = infos;
                if !listening {
                    to_start.push(uuid);
                    assert(to_start@.no_duplicates()) by {
                        assert forall|a: int, b: int| 0 <= a < b < to_start@.len() implies to_start@[a] != to_start@[b] by {
                            if b == to_start@.len() - 1 {
                                assert(prev_start.contains(to_start@[a]));
                            }
                        }
                    }
                    assert(to_start@ == prev_start.push(uuid));
                } else {
                    assert(to_start@ == prev_start);
                }
                self.not_authenticated_listening.insert(uuid, ListeningInfos { handles, listening: true });
            }
            assert(self.not_authenticated_listening@ == prev.insert(uuid, ListeningInfos { handles: before[uuid].handles, listening: true }));
            assert forall|u: u128| before.contains_key(u) implies #[trigger] self.not_authenticated_listening@[u] == (
                if keys@.take(i + 1).contains(u) {
                    ListeningInfos { handles: before[u].handles, listening: true }
                } else {
                    before[u]
                }) by {
                assert(next[i as int] == uuid);
                if u != uuid {
                    lemma_push_keeps_others(cur, uuid, u);
                    assert(self.not_authenticated_listening@[u] == prev[u]);
                }
            }
            assert forall|u: u128| #[trigger] to_start@.contains(u) <==> (keys@.take(i + 1).contains(u) && !before[u].listening) by {
                assert(next[i as int] == uuid);
                if u != uuid {
                    lemma_push_keeps_others(cur, uuid, u);
                    lemma_push_keeps_others(prev_start, uuid, u);
                } else {
                    if !before[uuid].listening {
                        assert(to_start@[to_start@.len() - 1] == uuid);
                    } else {
                        assert(!prev_start.contains(uuid));
                    }
                }
            }
            i = i + 1;
        }
        assert(keys@.take(keys@.len() as int) =~= keys@);
        proof {
            assert forall|uuid: u128| before.contains_key(uuid) implies keys@.contains(uuid) by {
                assert(keys@.to_set().contains(uuid));
            }
        }
        to_start
    }

    /// The authenticated client `target`, if it is one.
    pub fn listening_client(&self, target: u128) -> (infos: Option<&ListeningInfos<H>>)
        ensures
            infos == (if self.listening_clients@.contains_key(target) {
                Some(&self.listening_clients@[target])
            } else {
                None
            }),
    {
        self.listening_clients.get(&target)
    }

    /// The client `target` that has not authenticated yet, if it is one.
    pub fn not_authenticated_client(&self, target: u128) -> (infos: Option<&ListeningInfos<H>>)
        ensures
            infos == (if self.not_authenticated_listening@.contains_key(target) {
                Some(&self.not_authenticated_listening@[target])
            } else {
                None
            }),
    {
        self.not_authenticated_listening.get(&target)
    }
}

/// Pushing `x` does not change whether a sequence holds any other value.
proof fn lemma_push_keeps_others(s: Seq<u128>, x: u128, u: u128)
    requires
        u != x,
    ensures
        s.push(x).contains(u) == s.contains(u),
{
    if s.push(x).contains(u) {
        let k = choose|k: int| 0 <= k < s.push(x).len() && #[trigger] s.push(x)[k] == u;
        assert(s[k] == u);
    }
    if s.contains(u) {
        let k = choose|k: int| 0 <= k < s.len() && #[trigger] s[k] == u;
        assert(s.push(x)[k] == u);
    }
}

/// The keys of a map, each once.
fn collect_keys<V>(m: &HashMap<u128, V>) -> (keys: Vec<u128>)
    ensures
        keys@.to_set() == m@.dom(),
        keys@.no_duplicates(),
{
    let ghost all = vstd::std_specs::hash::spec_keys_iter(m).remaining();
    let mut keys: Vec<u128> = Vec::new();
    for k in it: m.keys()
        invariant
            it.seq() == all,
            keys@ == all.take(it.index()).map_values(|r: &u128| *r),
    {
        keys.push(*k);
        assert(all.take(it.index() + 1) =~= all.take(it.index()).push(k));
    }
    assert(all.take(all.len() as int) =~= all);
    assert(all.map_values(|r: &u128| *r) =~= all.unref());
    keys
}

} // verus!
