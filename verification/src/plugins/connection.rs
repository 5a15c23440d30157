use std::collections::HashMap;
use vstd::prelude::*;
use crate::NetworkSide;

verus! {

broadcast use vstd::std_specs::hash::group_hash_axioms;

/// What the connection registry needs of a connection: its started flag.
pub trait ConnectionTrait: Sized {
    /// Whether the connection has been started and not dropped since.
    spec fn spec_connected(&self) -> bool;

    /// The same connection with its started flag set to `connected`.
    spec fn spec_with_connected(&self, connected: bool) -> Self;

    fn is_connected(&self) -> (connected: bool)
        ensures
            connected == self.spec_connected(),
    ;

    /// Setting the started flag sets it, whatever it was.
    proof fn lemma_with_connected_sets_the_flag(&self, connected: bool)
        ensures
            self.spec_with_connected(connected).spec_connected() == connected,
    ;

    /// Marks the connection started.
    fn start_connection(&mut self)
        ensures
            *final(self) == old(self).spec_with_connected(true),
            final(self).spec_connected(),
    ;

    fn set_connected(&mut self, connected: bool)
        ensures
            *final(self) == old(self).spec_with_connected(connected),
            final(self).spec_connected() == connected,
    ;
}

/// The plugin that sets a process up as a server or a client.
pub struct ConnectionPlugin {
    pub network_side: NetworkSide,
}

/// One step of setting an application up for networking.
#[derive(PartialEq, Eq, Structural, Debug, Clone, Copy)]
pub enum ConnectionSetupStep {
    /// Add the messaging plugin for this side.
    AddMessaging(NetworkSide),
    /// Store the side as a resource.
    InsertNetworkSide(NetworkSide),
    /// Add the authentication plugin for this side.
    AddAuthentication(NetworkSide),
    InitClientConnections,
    AddClientConnectionPlugin,
    InitServerConnections,
    AddServerConnectionPlugin,
}

/// The setup steps of a side, in order.
pub open spec fn spec_setup_steps(side: NetworkSide) -> Seq<ConnectionSetupStep> {
    let common = seq![
        ConnectionSetupStep::AddMessaging(side),
        ConnectionSetupStep::InsertNetworkSide(side),
        ConnectionSetupStep::AddAuthentication(side),
    ];
    match side {
        NetworkSide::Client => common + seq![
            ConnectionSetupStep::InitClientConnections,
            ConnectionSetupStep::AddClientConnectionPlugin,
        ],
        NetworkSide::Server => common + seq![
            ConnectionSetupStep::InitServerConnections,
            ConnectionSetupStep::AddServerConnectionPlugin,
        ],
    }
}

impl ConnectionPlugin {
    /// What building the plugin adds to an application, in order: messaging
    /// and the side resource for every side, then the authentication plugin,
    /// the connection registry and the connection systems of the side.
    pub fn setup_steps(&self) -> (steps: Vec<ConnectionSetupStep>)
        ensures
            steps@ == spec_setup_steps(self.network_side),
    {
        let side = self.network_side;
        let mut steps = Vec::new();
        steps.push(ConnectionSetupStep::AddMessaging(side));
        steps.push(ConnectionSetupStep::InsertNetworkSide(side));
        steps.push(ConnectionSetupStep::AddAuthentication(side));
        match side {
            NetworkSide::Client => {
                steps.push(ConnectionSetupStep::InitClientConnections);
                steps.push(ConnectionSetupStep::AddClientConnectionPlugin);
            },
            NetworkSide::Server => {
                steps.push(ConnectionSetupStep::InitServerConnections);
                steps.push(ConnectionSetupStep::AddServerConnectionPlugin);
            },
        }
        assert(steps@ =~= spec_setup_steps(side));
        steps
    }
}

/// The side this process plays, as a resource of the application.
pub struct NetworkSideResource(pub NetworkSide);

/// The state of a server connection: its name, whether it was started, and
/// the clients that authenticated on it, each with the ports it uses.
pub struct ServerConnection {
    pub connection_name: String,
    pub connected: bool,
    pub clients_connected: HashMap<u128, Vec<u32>>,
}

/// What authenticating a client on a server connection did.
#[derive(PartialEq, Eq, Structural, Debug, Clone, Copy)]
pub enum ClientAuthentication {
    /// The client had authenticated before: nothing changed.
    AlreadyConnected,
    /// The client is now known on the main port; `notify_main_port` says
    /// whether the main port must learn of it.
    Registered { notify_main_port: bool },
}

impl ServerConnection {
    pub fn new(connection_name: String) -> (connection: Self)
        ensures
            connection.connection_name == connection_name,
            !connection.connected,
            connection.clients_connected@ == Map::<u128, Vec<u32>>::empty(),
    {
        ServerConnection { connection_name, connected: false, clients_connected: HashMap::new() }
    }

    /// The connection that settings of `side` make, `port_made` saying
    /// whether they gave a main port: only server settings that gave one make
    /// a server connection; client settings are refused before any port is
    /// made.
    pub fn from_settings(connection_name: String, side: NetworkSide, port_made: bool) -> (connection: Option<Self>)
        ensures
            connection is Some <==> (side == NetworkSide::Server && port_made),
            connection matches Some(c) ==> {
                &&& c.connection_name == connection_name
                &&& !c.connected
                &&& c.clients_connected@ == Map::<u128, Vec<u32>>::empty()
            },
    {
        match side {
            NetworkSide::Server => if port_made {
                Some(ServerConnection::new(connection_name))
            } else {
                None
            },
            NetworkSide::Client => None,
        }
    }

    /// Records that the client `uuid` authenticated. A known client is left as
    /// it was; a new one is recorded on the main port (port `0`), and the main
    /// port is to be told when the authentication came through it.
    pub fn authenticate_client(&mut self, uuid: u128, port_number: u32) -> (outcome: ClientAuthentication)
        ensures
            final(self).connection_name == old(self).connection_name,
            final(self).connected == old(self).connected,
            old(self).clients_connected@.contains_key(uuid) ==> {
                &&& outcome == ClientAuthentication::AlreadyConnected
                &&& final(self).clients_connected@ == old(self).clients_connected@
            },
            !old(self).clients_connected@.contains_key(uuid) ==> {
                &&& outcome == (ClientAuthentication::Registered { notify_main_port: port_number == 0 })
                &&& final(self).clients_connected@.dom() == old(self).clients_connected@.dom().insert(uuid)
                &&& final(self).clients_connected@[uuid]@ == seq![0u32]
                &&& forall|other: u128|
                    #![trigger final(self).clients_connected@[other]]
                    other != uuid && old(self).clients_connected@.contains_key(other)
                        ==> final(self).clients_connected@[other] == old(self).clients_connected@[other]
            },
    {
        if self.clients_connected.contains_key(&uuid) {
            ClientAuthentication::AlreadyConnected
        } else {
            let mut ports: Vec<u32> = Vec::new();
            ports.push(0);
            self.clients_connected.insert(uuid, ports);
            ClientAuthentication::Registered { notify_main_port: port_number == 0 }
        }
    }

    /// Whether a message from `sender` is let through: an authenticated
    /// client may send anything, any other only an authentication message.
    pub fn accepts_message_from(&self, sender: u128, is_authentication_message: bool) -> (accepted: bool)
        ensures
            accepted == (self.clients_connected@.contains_key(sender) || is_authentication_message),
    {
        self.clients_connected.contains_key(&sender) || is_authentication_message
    }
}

impl ConnectionTrait for ServerConnection {
    open spec fn spec_connected(&self) -> bool {
        self.connected
    }

    proof fn lemma_with_connected_sets_the_flag(&self, connected: bool) {
    }

    open spec fn spec_with_connected(&self, connected: bool) -> Self {
        ServerConnection { connected, ..*self }
    }

    fn is_connected(&self) -> (connected: bool) {
        self.connected
    }

    fn start_connection(&mut self) {
        self.connected = true;
    }

    fn set_connected(&mut self, connected: bool) {
        self.connected = connected;
    }
}

/// The state of a client connection: its name, whether it was started, and
/// the id the server gave it once it authenticated.
pub struct ClientConnection {
    pub connection_name: String,
    pub connected: bool,
    pub local_uuid: Option<u128>,
}

impl ClientConnection {
    pub fn new(connection_name: String) -> (connection: Self)
        ensures
            connection.connection_name == connection_name,
            !connection.connected,
            connection.local_uuid is None,
    {
        ClientConnection { connection_name, connected: false, local_uuid: None }
    }

    /// The connection that settings of `side` make, `port_made` saying
    /// whether they gave a main port: only client settings that gave one make
    /// a client connection; server settings are refused before any port is
    /// made.
    pub fn from_settings(connection_name: String, side: NetworkSide, port_made: bool) -> (connection: Option<Self>)
        ensures
            connection is Some <==> (side == NetworkSide::Client && port_made),
            connection matches Some(c) ==> {
                &&& c.connection_name == connection_name
                &&& !c.connected
                &&& c.local_uuid is None
            },
    {
        match side {
            NetworkSide::Client => if port_made {
                Some(ClientConnection::new(connection_name))
            } else {
                None
            },
            NetworkSide::Server => None,
        }
    }
}

impl ConnectionTrait for ClientConnection {
    open spec fn spec_connected(&self) -> bool {
        self.connected
    }

    proof fn lemma_with_connected_sets_the_flag(&self, connected: bool) {
    }

    open spec fn spec_with_connected(&self, connected: bool) -> Self {
        ClientConnection { connected, ..*self }
    }

    fn is_connected(&self) -> (connected: bool) {
        self.connected
    }

    fn start_connection(&mut self) {
        self.connected = true;
    }

    fn set_connected(&mut self, connected: bool) {
        self.connected = connected;
    }
}

/// Whether no two entries share a name.
pub open spec fn names_distinct<T>(entries: Seq<(Seq<char>, T)>) -> bool {
    forall|i: int, j: int|
        #![trigger entries[i], entries[j]]
        0 <= i < j < entries.len() ==> entries[i].0 != entries[j].0
}

/// Whether some entry has the name `name`.
pub open spec fn has_name<T>(entries: Seq<(Seq<char>, T)>, name: Seq<char>) -> bool {
    exists|i: int| 0 <= i < entries.len() && #[trigger] entries[i].0 == name
}

/// Whether `after` is `before` with the client `uuid` recorded, as authenticated
/// through port `port_number`, on the connection named `name`, `outcome`
/// being what recording it did: a client known there is left as it was; a new
/// one is recorded on the main port (port `0`). Every other connection, and
/// the name, start flag and other clients of that one, stay as they were.
pub open spec fn client_recorded(
    before: Seq<(Seq<char>, ServerConnection)>,
    after: Seq<(Seq<char>, ServerConnection)>,
    name: Seq<char>,
    uuid: u128,
    port_number: u32,
    outcome: ClientAuthentication,
) -> bool {
    exists|i: int|
        0 <= i < before.len() && #[trigger] before[i].0 == name && {
            let b = before[i].1;
            let a = after[i].1;
            &&& after == before.update(i, (name, a))
            &&& a.connection_name == b.connection_name
            &&& a.connected == b.connected
            &&& b.clients_connected@.contains_key(uuid) ==> {
                &&& outcome == ClientAuthentication::AlreadyConnected
                &&& a.clients_connected@ == b.clients_connected@
            }
            &&& !b.clients_connected@.contains_key(uuid) ==> {
                &&& outcome == (ClientAuthentication::Registered { notify_main_port: port_number == 0 })
                &&& a.clients_connected@.dom() == b.clients_connected@.dom().insert(uuid)
                &&& a.clients_connected@[uuid]@ == seq![0u32]
            }
        }
}

/// The connections after the main ports reported what they saw: a port that
/// dropped for good takes its connection out, a port that dropped but will
/// reconnect leaves its connection marked not started, every other connection
/// stays as it was. `reports[i]` is what the main port of `entries[i]` saw, as
/// (dropped, can reconnect); none for a connection without a main port.
pub open spec fn after_port_drops<T: ConnectionTrait>(
    entries: Seq<(Seq<char>, T)>,
    reports: Seq<Option<(bool, bool)>>,
) -> Seq<(Seq<char>, T)>
    decreases entries.len(),
{
    if entries.len() == 0 || reports.len() == 0 {
        Seq::empty()
    } else {
        let rest = after_port_drops(entries.drop_last(), reports.drop_last());
        let e = entries.last();
        match reports.last() {
            Some((true, false)) => rest,
            Some((true, true)) => rest.push((e.0, e.1.spec_with_connected(false))),
            _ => rest.push(e),
        }
    }
}

/// A connection whose main port dropped but will reconnect stays among the
/// connections after the reports, marked not started, so that starting the
/// connections starts it again.
pub proof fn lemma_reconnecting_connection_stays_not_started<T: ConnectionTrait>(
    entries: Seq<(Seq<char>, T)>,
    reports: Seq<Option<(bool, bool)>>,
    i: int,
)
    requires
        entries.len() == reports.len(),
        0 <= i < entries.len(),
        reports[i] == Some((true, true)),
    ensures
        exists|j: int|
            0 <= j < after_port_drops(entries, reports).len()
                && #[trigger] after_port_drops(entries, reports)[j] == (
                entries[i].0,
                entries[i].1.spec_with_connected(false),
            ) && !after_port_drops(entries, reports)[j].1.spec_connected(),
    decreases entries.len(),
{
    let n = entries.len() - 1;
    let rest = after_port_drops(entries.drop_last(), reports.drop_last());
    let after = after_port_drops(entries, reports);
    entries[i].1.lemma_with_connected_sets_the_flag(false);
    if i == n {
        assert(after == rest.push((entries[i].0, entries[i].1.spec_with_connected(false))));
        assert(after[rest.len() as int] == (entries[i].0, entries[i].1.spec_with_connected(false)));
    } else {
        lemma_reconnecting_connection_stays_not_started(entries.drop_last(), reports.drop_last(), i);
        let j = choose|j: int|
            0 <= j < rest.len() && #[trigger] rest[j] == (
                entries.drop_last()[i].0,
                entries.drop_last()[i].1.spec_with_connected(false),
            ) && !rest[j].1.spec_connected();
        assert(after.len() >= rest.len());
        assert(after[j] == rest[j]);
    }
}

/// The connections that the reports take out, each marked not started.
pub open spec fn dropped_for_good<T: ConnectionTrait>(
    entries: Seq<(Seq<char>, T)>,
    reports: Seq<Option<(bool, bool)>>,
) -> Seq<(Seq<char>, T)>
    decreases entries.len(),
{
    if entries.len() == 0 || reports.len() == 0 {
        Seq::empty()
    } else {
        let rest = dropped_for_good(entries.drop_last(), reports.drop_last());
        let e = entries.last();
        match reports.last() {
            Some((true, false)) => rest.push((e.0, e.1.spec_with_connected(false))),
            _ => rest,
        }
    }
}

/// The connections of one side by name. Names are unique.
pub struct NetworkConnections<T> {
    entries: Vec<(String, T)>,
}

impl<T> View for NetworkConnections<T> {
    type V = Seq<(Seq<char>, T)>;

    closed spec fn view(&self) -> Seq<(Seq<char>, T)> {
        self.entries@.map_values(|e: (String, T)| (e.0@, e.1))
    }
}

impl<T> NetworkConnections<T> {
    #[verifier::type_invariant]
    closed spec fn unique_names(self) -> bool {
        names_distinct(self@)
    }

    pub fn new() -> (connections: Self)
        ensures
            connections@ == Seq::<(Seq<char>, T)>::empty(),
    {
        let c = NetworkConnections { entries: Vec::new() };
        assert(c@ =~= Seq::<(Seq<char>, T)>::empty());
        c
    }

    pub fn len(&self) -> (n: usize)
        ensures
            n == self@.len(),
    {
        self.entries.len()
    }

    /// Every registry keeps its names unique.
    pub fn names_are_unique(&self) -> (unique: bool)
        ensures
            unique,
            names_distinct(self@),
    {
        proof {
            use_type_invariant(self);
        }
        true
    }

    /// The position of the connection named `connection_name`, if there is one.
    pub fn position(&self, connection_name: &str) -> (index: Option<usize>)
        ensures
            match index {
                Some(i) => i < self@.len() && self@[i as int].0 == connection_name@,
                None => !has_name(self@, connection_name@),
            },
    {
        let key = connection_name.to_owned();
        let mut i: usize = 0;
        while i < self.entries.len()
            invariant
                i <= self.entries@.len(),
                key@ == connection_name@,
                forall|j: int| 0 <= j < i ==> self@[j].0 != key@,
            decreases self.entries@.len() - i,
        {
            if self.entries[i].0 == key {
                return Some(i);
            }
            i = i + 1;
        }
        None
    }

    /// Whether a connection of this name can still be started: none has it yet.
    pub fn can_connect(&self, connection_name: &str) -> (can: bool)
        ensures
            can == !has_name(self@, connection_name@),
    {
        self.position(connection_name).is_none()
    }

    /// Adds a newly made connection under a name that is not taken yet. A name
    /// already taken, or no connection (its settings were refused), leaves the
    /// registry as it was.
    pub fn start_connection(&mut self, connection_name: &str, connection: Option<T>)
        ensures
            has_name(old(self)@, connection_name@) ==> final(self)@ == old(self)@,
            !has_name(old(self)@, connection_name@) ==> final(self)@ == match connection {
                Some(c) => old(self)@.push((connection_name@, c)),
                None => old(self)@,
            },
    {
        proof {
            use_type_invariant(&*self);
        }
        if !self.can_connect(connection_name) {
            return;
        }
        if let Some(c) = connection {
            let ghost before = self@;
            let name = connection_name.to_owned();
            let mut entries = Vec::new();
            std::mem::swap(&mut entries, &mut self.entries);
            entries.push((name, c));
            let ghost after = entries@.map_values(|e: (String, T)| (e.0@, e.1));
            assert(after =~= before.push((connection_name@, c)));
            assert(names_distinct(after)) by {
                assert forall|i: int, j: int| 0 <= i < j < after.len() implies after[i].0 != after[j].0 by {
                    if j == after.len() - 1 {
                        assert(before[i].0 == after[i].0);
                    } else {
                        assert(before[i] == after[i] && before[j] == after[j]);
                    }
                }
            }
            self.entries = entries;
        }
    }

    /// Takes the connection named `connection_name` out of the registry and
    /// hands it back so that it can be dropped; none when there is no such
    /// connection.
    pub fn disconnect(&mut self, connection_name: &str) -> (removed: Option<T>)
        ensures
            match removed {
                Some(c) => exists|i: int|
                    0 <= i < old(self)@.len() && old(self)@[i].0 == connection_name@
                        && old(self)@[i].1 == c && final(self)@ == old(self)@.remove(i),
                None => !has_name(old(self)@, connection_name@) && final(self)@ == old(self)@,
            },
    {
        proof {
            use_type_invariant(&*self);
        }
        match self.position(connection_name) {
            None => None,
            Some(i) => {
                let ghost before = self@;
                let mut entries = Vec::new();
                std::mem::swap(&mut entries, &mut self.entries);
                let (_name, c) = entries.remove(i);
                let ghost after = entries@.map_values(|e: (String, T)| (e.0@, e.1));
                assert(after =~= before.remove(i as int));
                assert(names_distinct(after)) by {
                    assert forall|a: int, b: int| 0 <= a < b < after.len() implies after[a].0 != after[b].0 by {
                        if a < i {
                            if b < i {
                                assert(after[a] == before[a] && after[b] == before[b]);
                            } else {
                                assert(after[a] == before[a] && after[b] == before[b + 1]);
                            }
                        } else {
                            assert(after[a] == before[a + 1] && after[b] == before[b + 1]);
                        }
                    }
                }
                self.entries = entries;
                Some(c)
            },
        }
    }

    /// The connection named `connection_name`, if there is one.
    pub fn get(&self, connection_name: &str) -> (connection: Option<&T>)
        ensures
            match connection {
                Some(c) => exists|i: int|
                    0 <= i < self@.len() && self@[i].0 == connection_name@ && self@[i].1 == *c,
                None => !has_name(self@, connection_name@),
            },
    {
        match self.position(connection_name) {
            Some(i) => Some(&self.entries[i].1),
            None => None,
        }
    }

    /// The name and connection at a position.
    pub fn entry(&self, index: usize) -> (entry: (&String, &T))
        requires
            index < self@.len(),
        ensures
            entry.0@ == self@[index as int].0,
            *entry.1 == self@[index as int].1,
    {
        let e = &self.entries[index];
        (&e.0, &e.1)
    }
}

impl<T: ConnectionTrait> NetworkConnections<T> {
    /// Starts every connection that is not started yet, and returns their
    /// positions in order: each of them still has its main port to connect.
    pub fn start_connections(&mut self) -> (started: Vec<usize>)
        ensures
            final(self)@.len() == old(self)@.len(),
            forall|i: int|
                #![trigger final(self)@[i]]
                0 <= i < old(self)@.len() ==> final(self)@[i] == (if old(self)@[i].1.spec_connected() {
                    old(self)@[i]
                } else {
                    (old(self)@[i].0, old(self)@[i].1.spec_with_connected(true))
                }),
            forall|k: int, l: int| 0 <= k < l < started@.len() ==> started@[k] < started@[l],
            forall|k: int|
                0 <= k < started@.len() ==> started@[k] < old(self)@.len()
                    && !old(self)@[started@[k] as int].1.spec_connected(),
            forall|i: int|
                0 <= i < old(self)@.len() && !(#[trigger] old(self)@[i]).1.spec_connected()
                    ==> started@.contains(i as usize),
    {
        proof {
            use_type_invariant(&*self);
        }
        let ghost before = self@;
        let mut entries = Vec::new();
        std::mem::swap(&mut entries, &mut self.entries);
        let mut started: Vec<usize> = Vec::new();
        let n = entries.len();
        let mut i: usize = 0;
        while i < n
            invariant
                n == entries@.len(),
                n == before.len(),
                i <= n,
                forall|j: int|
                    #![trigger entries@[j]]
                    0 <= j < n ==> entries@[j].0@ == before[j].0,
                forall|j: int|
                    #![trigger entries@[j]]
                    0 <= j < i ==> entries@[j].1 == (if before[j].1.spec_connected() {
                        before[j].1
                    } else {
                        before[j].1.spec_with_connected(true)
                    }),
                forall|j: int| #![trigger entries@[j]] i <= j < n ==> entries@[j].1 == before[j].1,
                forall|k: int, l: int| 0 <= k < l < started@.len() ==> started@[k] < started@[l],
                forall|k: int|
                    0 <= k < started@.len() ==> started@[k] < i && !before[started@[k] as int].1.spec_connected(),
                forall|j: int|
                    0 <= j < i && !(#[trigger] before[j]).1.spec_connected() ==> started@.contains(j as usize),
            decreases n - i,
        {
            let connected = entries[i].1.is_connected();
            if !connected {
                let ghost prev = entries@;
                let (name, mut c) = entries.remove(i);
                c.start_connection();
                entries.insert(i, (name, c));
                assert forall|j: int| 0 <= j < n && j != i implies #[trigger] entries@[j] == prev[j] by {}
                let ghost old_started = started@;
                started.push(i);
                assert(started@[started@.len() - 1] == i);
                assert forall|j: int| 0 <= j < i + 1 && !(#[trigger] before[j]).1.spec_connected() implies started@.contains(j as usize) by {
                    if j < i {
                        let k = choose|k: int| 0 <= k < old_started.len() && old_started[k] == j as usize;
                        assert(started@[k] == j as usize);
                    } else {
                        assert(started@[started@.len() - 1] == j as usize);
                    }
                }
            }
            i = i + 1;
        }
        let ghost after = entries@.map_values(|e: (String, T)| (e.0@, e.1));
        assert(names_distinct(after)) by {
            assert forall|a: int, b: int| 0 <= a < b < after.len() implies after[a].0 != after[b].0 by {
                assert(after[a].0 == before[a].0 && after[b].0 == before[b].0);
            }
        }
        self.entries = entries;
        started
    }

    /// Applies what the main ports saw: `reports[i]` is, for the connection at
    /// position `i`, whether its main port dropped and whether it can
    /// reconnect, or none when it has no main port. A dropped port marks its
    /// connection not started; one that cannot reconnect also takes the
    /// connection out of the registry. Returns the connections taken out, to be
    /// dropped.
    pub fn check_main_port_dropped(&mut self, reports: &Vec<Option<(bool, bool)>>) -> (removed: Vec<(String, T)>)
        requires
            reports@.len() == old(self)@.len(),
        ensures
            final(self)@ == after_port_drops(old(self)@, reports@),
            removed@.map_values(|e: (String, T)| (e.0@, e.1)) == dropped_for_good(old(self)@, reports@),
    {
        proof {
            use_type_invariant(&*self);
        }
        let ghost before = self@;
        let mut rest = Vec::new();
        std::mem::swap(&mut rest, &mut self.entries);
        let mut kept: Vec<(String, T)> = Vec::new();
        let mut removed: Vec<(String, T)> = Vec::new();
        let ghost mut origin: Seq<int> = Seq::empty();
        let n = rest.len();
        let mut i: usize = 0;
        while i < n
            invariant
                n == before.len(),
                n == reports@.len(),
                i <= n,
                names_distinct(before),
                rest@.len() == n - i,
                forall|j: int|
                    #![trigger rest@[j]]
                    0 <= j < n - i ==> (rest@[j].0@, rest@[j].1) == before[i + j],
                kept@.map_values(|e: (String, T)| (e.0@, e.1)) == after_port_drops(
                    before.take(i as int),
                    reports@.take(i as int),
                ),
                removed@.map_values(|e: (String, T)| (e.0@, e.1)) == dropped_for_good(
                    before.take(i as int),
                    reports@.take(i as int),
                ),
                origin.len() == kept@.len(),
                forall|a: int| 0 <= a < origin.len() ==> 0 <= #[trigger] origin[a] < i,
                forall|a: int, b: int| 0 <= a < b < origin.len() ==> origin[a] < origin[b],
                forall|a: int|
                    #![trigger kept@[a]]
                    0 <= a < kept@.len() ==> kept@[a].0@ == before[origin[a]].0,
            decreases n - i,
        {
            let ghost prev_rest = rest@;
            let (name, mut c) = rest.remove(0);
            assert((name@, c) == before[i as int]);
            assert forall|j: int| 0 <= j < n - (i + 1) implies (#[trigger] rest@[j]).0@ == before[i + 1 + j].0 && rest@[j].1 == before[i + 1 + j].1 by {
                assert(rest@[j] == prev_rest[j + 1]);
            }
            let ghost bt = before.take(i + 1);
            let ghost rt = reports@.take(i + 1);
            assert(bt.drop_last() =~= before.take(i as int));
            assert(rt.drop_last() =~= reports@.take(i as int));
            assert(bt.last() == before[i as int]);
            assert(rt.last() == reports@[i as int]);
            let ghost kept_before = kept@;
            match reports[i] {
                Some((true, false)) => {
                    c.set_connected(false);
                    let ghost old_removed = removed@;
                    removed.push((name, c));
                    assert(removed@.map_values(|e: (String, T)| (e.0@, e.1)) =~= old_removed.map_values(
                        |e: (String, T)| (e.0@, e.1),
                    ).push((before[i as int].0, before[i as int].1.spec_with_connected(false))));
                },
                Some((true, true)) => {
                    c.set_connected(false);
                    kept.push((name, c));
                    proof {
                        origin = origin.push(i as int);
                    }
                    assert(kept@.map_values(|e: (String, T)| (e.0@, e.1)) =~= kept_before.map_values(
                        |e: (String, T)| (e.0@, e.1),
                    ).push((before[i as int].0, before[i as int].1.spec_with_connected(false))));
                },
                _ => {
                    kept.push((name, c));
                    proof {
                        origin = origin.push(i as int);
                    }
                    assert(kept@.map_values(|e: (String, T)| (e.0@, e.1)) =~= kept_before.map_values(
                        |e: (String, T)| (e.0@, e.1),
                    ).push(before[i as int]));
                },
            }
            assert forall|a: int| #![trigger kept@[a]] 0 <= a < kept@.len() implies kept@[a].0@ == before[origin[a]].0 by {
                if a < kept_before.len() {
                    assert(kept@[a] == kept_before[a]);
                }
            }
            i = i + 1;
        }
        assert(before.take(n as int) =~= before);
        assert(reports@.take(n as int) =~= reports@);
        let ghost after = kept@.map_values(|e: (String, T)| (e.0@, e.1));
        assert(names_distinct(after)) by {
            assert forall|a: int, b: int| 0 <= a < b < after.len() implies after[a].0 != after[b].0 by {
                assert(after[a].0 == kept@[a].0@);
                assert(after[b].0 == kept@[b].0@);
                assert(origin[a] < origin[b]);
                assert(before[origin[a]] == before[origin[a]] && before[origin[b]] == before[origin[b]]);
            }
        }
        self.entries = kept;
        removed
    }
}

impl NetworkConnections<ServerConnection> {
    /// Records on the connection named `connection_name` that the client
    /// `uuid` authenticated through port `port_number`; none when there is no
    /// such connection.
    pub fn authenticate_client(&mut self, connection_name: &str, uuid: u128, port_number: u32) -> (outcome: Option<ClientAuthentication>)
        ensures
            final(self)@.len() == old(self)@.len(),
            match outcome {
                None => !has_name(old(self)@, connection_name@) && final(self)@ == old(self)@,
                Some(o) => client_recorded(old(self)@, final(self)@, connection_name@, uuid, port_number, o),
            },
    {
        proof {
            use_type_invariant(&*self);
        }
        match self.position(connection_name) {
            None => None,
            Some(i) => {
                let ghost before = self@;
                let mut entries = Vec::new();
                std::mem::swap(&mut entries, &mut self.entries);
                let (name, mut c) = entries.remove(i);
                let outcome = c.authenticate_client(uuid, port_number);
                entries.insert(i, (name, c));
                let ghost after = entries@.map_values(|e: (String, ServerConnection)| (e.0@, e.1));
                assert(after =~= before.update(i as int, (connection_name@, after[i as int].1)));
                assert(names_distinct(after)) by {
                    assert forall|a: int, b: int| 0 <= a < b < after.len() implies after[a].0 != after[b].0 by {
                        assert(after[a].0 == before[a].0 && after[b].0 == before[b].0);
                    }
                }
                self.entries = entries;
                assert(before[i as int].0 == connection_name@);
                Some(outcome)
            },
        }
    }
}

impl NetworkConnections<ClientConnection> {
    /// Stores the id that the server gave the connection named
    /// `connection_name`; false when there is no such connection.
    pub fn set_local_uuid(&mut self, connection_name: &str, uuid: u128) -> (found: bool)
        ensures
            found == has_name(old(self)@, connection_name@),
            !found ==> final(self)@ == old(self)@,
            found ==> exists|i: int|
                0 <= i < old(self)@.len() && old(self)@[i].0 == connection_name@
                    && final(self)@ == old(self)@.update(
                    i,
                    (connection_name@, ClientConnection { local_uuid: Some(uuid), ..old(self)@[i].1 }),
                ),
    {
        proof {
            use_type_invariant(&*self);
        }
        match self.position(connection_name) {
            None => false,
            Some(i) => {
                let ghost before = self@;
                let mut entries = Vec::new();
                std::mem::swap(&mut entries, &mut self.entries);
                let (name, mut c) = entries.remove(i);
                c.local_uuid = Some(uuid);
                entries.insert(i, (name, c));
                let ghost after = entries@.map_values(|e: (String, ClientConnection)| (e.0@, e.1));
                assert(after =~= before.update(
                    i as int,
                    (connection_name@, ClientConnection { local_uuid: Some(uuid), ..before[i as int].1 }),
                ));
                assert(names_distinct(after)) by {
                    assert forall|a: int, b: int| 0 <= a < b < after.len() implies after[a].0 != after[b].0 by {
                        assert(after[a].0 == before[a].0 && after[b].0 == before[b].0);
                    }
                }
                self.entries = entries;
                true
            },
        }
    }
}

/// Starting a connection under a name that is free and then disconnecting
/// that name hands the new connection back and leaves the registry as it was:
/// the only entry with the name is the one just added.
pub proof fn lemma_start_then_disconnect<T>(
    entries: Seq<(Seq<char>, T)>,
    name: Seq<char>,
    connection: T,
    i: int,
)
    requires
        !has_name(entries, name),
        0 <= i < entries.len() + 1,
        entries.push((name, connection))[i].0 == name,
    ensures
        i == entries.len(),
        entries.push((name, connection))[i].1 == connection,
        entries.push((name, connection)).remove(i) == entries,
{
    if i < entries.len() {
        assert(entries[i].0 == name);
    }
    assert(entries.push((name, connection)).remove(i) =~= entries);
}

/// After a client authenticated on a server connection, whether it was known
/// before or not, it is known there, and so are all clients known before: from
/// then on every message it sends is let through.
pub proof fn lemma_authenticated_client_is_known(
    before: Map<u128, Vec<u32>>,
    after: Map<u128, Vec<u32>>,
    uuid: u128,
)
    requires
        before.contains_key(uuid) ==> after == before,
        !before.contains_key(uuid) ==> after.dom() == before.dom().insert(uuid),
    ensures
        after.contains_key(uuid),
        forall|other: u128| #[trigger] before.contains_key(other) ==> after.contains_key(other),
{
}

/// After the main ports report, a connection is still in the registry exactly
/// when it was there and its main port did not drop for good.
pub proof fn lemma_port_drops_keep_names<T: ConnectionTrait>(
    entries: Seq<(Seq<char>, T)>,
    reports: Seq<Option<(bool, bool)>>,
    name: Seq<char>,
)
    requires
        reports.len() == entries.len(),
    ensures
        has_name(after_port_drops(entries, reports), name) <==> exists|i: int|
            0 <= i < entries.len() && #[trigger] entries[i].0 == name && reports[i] != Some((true, false)),
    decreases entries.len(),
{
    if entries.len() > 0 {
        let e = entries.drop_last();
        let r = reports.drop_last();
        let rest = after_port_drops(e, r);
        lemma_port_drops_keep_names(e, r, name);
        let last = entries.len() - 1;
        let after = after_port_drops(entries, reports);
        if has_name(after, name) {
            let k = choose|k: int| 0 <= k < after.len() && #[trigger] after[k].0 == name;
            if k < rest.len() {
                assert(after[k] == rest[k]);
                assert(has_name(rest, name));
                let i = choose|i: int| 0 <= i < e.len() && #[trigger] e[i].0 == name && r[i] != Some((true, false));
                assert(entries[i] == e[i]);
            } else {
                assert(entries[last].0 == name);
            }
        }
        if exists|i: int| 0 <= i < entries.len() && #[trigger] entries[i].0 == name && reports[i] != Some((true, false)) {
            let i = choose|i: int| 0 <= i < entries.len() && #[trigger] entries[i].0 == name && reports[i] != Some((true, false));
            if i < last {
                assert(e[i] == entries[i]);
                assert(has_name(rest, name));
                let k = choose|k: int| 0 <= k < rest.len() && #[trigger] rest[k].0 == name;
                assert(after[k] == rest[k]);
            } else {
                assert(after[after.len() - 1].0 == name);
            }
        }
    }
}

} // verus!
