use vstd::prelude::*;
use crate::ports::{
    ids_after, ClientEvent, ClientRegistry, ConnectStep, IpAddress, ListeningInfos, ReadStep,
    ReceivedItem,
};

verus! {

/// Calls `getrandom::fill` for 16 bytes and reads them as one number. The
/// bytes come from the operating system's random source: nothing is claimed
/// of them, and none come back when the source fails.
#[verifier::external_body]
fn random_bits() -> Option<u128> {
    let mut bytes = [0u8; 16];
    match getrandom::fill(&mut bytes) {
        Ok(()) => Some(u128::from_be_bytes(bytes)),
        Err(_) => None,
    }
}

/// The bits of a uuid's version and variant fields.
pub open spec fn version_4_mask() -> u128 {
    0xf000c000000000000000u128
}

/// Those fields in a version 4 uuid of the RFC 4122 variant.
pub open spec fn version_4_fields() -> u128 {
    0x40008000000000000000u128
}

/// The id of a random uuid made of `bits`: the version field set to 4 and
/// the variant field to that of RFC 4122, every other bit kept.
pub open spec fn version_4_id(bits: u128) -> u128 {
    (bits & !version_4_mask()) | version_4_fields()
}

/// Whether `id` is a version 4 uuid of the RFC 4122 variant.
pub open spec fn is_version_4_id(id: u128) -> bool {
    id & version_4_mask() == version_4_fields()
}

/// Calls uuid's `Builder::from_random_bytes` on the bytes of `bits` and hands
/// back the uuid as a number. Claimed: that is `version_4_id(bits)`, as the
/// builder sets byte 6 to `(b & 0x0f) | 0x40` and byte 8 to `(b & 0x3f) | 0x80`.
#[verifier::external_body]
fn uuid_from_random_bits(bits: u128) -> (id: u128)
    ensures
        id == version_4_id(bits),
{
    uuid::Builder::from_random_bytes(bits.to_be_bytes()).into_uuid().as_u128()
}

/// Every id made of random bits is a version 4 uuid.
pub proof fn lemma_version_4_id(bits: u128)
    ensures
        is_version_4_id(version_4_id(bits)),
{
    assert((bits & !0xf000c000000000000000u128 | 0x40008000000000000000u128)
        & 0xf000c000000000000000u128 == 0x40008000000000000000u128) by (bit_vector);
}

/// How a WebSocket server port listens.
pub struct WebSocketSettingsServer {
    pub address: IpAddress,
    pub port: u16,
    pub max_connections: usize,
    pub recuse_when_full: bool,
    pub auto_reconnect: bool,
    pub no_delay: bool,
}

impl WebSocketSettingsServer {
    pub fn new(
        address: IpAddress,
        port: u16,
        max_connections: usize,
        recuse_when_full: bool,
        auto_reconnect: bool,
        no_delay: bool,
    ) -> (settings: Self)
        ensures
            settings == (WebSocketSettingsServer {
                address,
                port,
                max_connections,
                recuse_when_full,
                auto_reconnect,
                no_delay,
            }),
    {
        WebSocketSettingsServer { address, port, max_connections, recuse_when_full, auto_reconnect, no_delay }
    }
}

impl Default for WebSocketSettingsServer {
    /// `127.0.0.1:8080`, no connection limit, reconnecting, no delay.
    fn default() -> (settings: Self)
        ensures
            settings.address == IpAddress::V4([127u8, 0u8, 0u8, 1u8]),
            settings.port == 8080,
            settings.max_connections == 0,
            !settings.recuse_when_full,
            settings.auto_reconnect,
            settings.no_delay,
    {
        WebSocketSettingsServer::new(IpAddress::localhost(), 8080, 0, false, true, true)
    }
}

/// The state of a WebSocket server port: `L` is its listener once bound, `H`
/// the two halves of each client's socket.
pub struct ServerWebSocket<L, H> {
    pub settings: WebSocketSettingsServer,
    pub connecting: bool,
    pub connected: bool,
    pub main_port: bool,
    pub accepting_connections: bool,
    pub tcp_listener: Option<L>,
    pub clients: ClientRegistry<H>,
}

impl<L, H> ServerWebSocket<L, H> {
    pub fn new(settings: WebSocketSettingsServer) -> (port: Self)
        ensures
            port.settings == settings,
            !port.connecting,
            !port.connected,
            !port.main_port,
            !port.accepting_connections,
            port.tcp_listener is None,
            port.clients.listening_clients@ == Map::<u128, ListeningInfos<H>>::empty(),
            port.clients.not_authenticated_listening@ == Map::<u128, ListeningInfos<H>>::empty(),
            port.clients.ids() == (Set::<u128>::empty(), Set::<u128>::empty()),
    {
        ServerWebSocket {
            settings,
            connecting: false,
            connected: false,
            main_port: false,
            accepting_connections: false,
            tcp_listener: None,
            clients: ClientRegistry::new(),
        }
    }

    /// Starts binding the listener, when the connection has a runtime and the
    /// port is not binding already. Returns whether the binding task is to start.
    pub fn connect(&mut self, has_runtime: bool) -> (start: bool)
        ensures
            start == (has_runtime && !old(self).connecting),
            final(self).connecting == (old(self).connecting || start),
            final(self).settings == old(self).settings,
            final(self).connected == old(self).connected,
            final(self).main_port == old(self).main_port,
            final(self).accepting_connections == old(self).accepting_connections,
            final(self).tcp_listener == old(self).tcp_listener,
            final(self).clients == old(self).clients,
    {
        if !has_runtime || self.connecting {
            return false;
        }
        self.connecting = true;
        true
    }

    /// What the binding task does after one attempt: it hands over a bound
    /// listener and tries again otherwise.
    pub fn bind_attempt(bound: bool) -> (step: ConnectStep)
        ensures
            step == (if bound {
                ConnectStep::Deliver
            } else {
                ConnectStep::Retry
            }),
    {
        if bound {
            ConnectStep::Deliver
        } else {
            ConnectStep::Retry
        }
    }

    /// Lets a client that was waiting to authenticate in: it moves to the
    /// authenticated clients, and a reading task is to start for it. Returns
    /// whether the client was waiting.
    pub fn authenticate_client(&mut self, uuid: u128) -> (moved: bool)
        ensures
            final(self).clients.ids() == ids_after(old(self).clients.ids(), ClientEvent::Authenticated(uuid)),
            moved == old(self).clients.not_authenticated_listening@.contains_key(uuid),
            moved ==> {
                &&& final(self).clients.not_authenticated_listening@
                    == old(self).clients.not_authenticated_listening@.remove(uuid)
                &&& final(self).clients.listening_clients@
                    == old(self).clients.listening_clients@.insert(
                    uuid,
                    ListeningInfos {
                        handles: old(self).clients.not_authenticated_listening@[uuid].handles,
                        listening: true,
                    },
                )
            },
            !moved ==> {
                &&& final(self).clients.listening_clients@ == old(self).clients.listening_clients@
                &&& final(self).clients.not_authenticated_listening@
                    == old(self).clients.not_authenticated_listening@
            },
            old(self).clients.is_disjoint() ==> final(self).clients.is_disjoint(),
            final(self).settings == old(self).settings,
            final(self).connecting == old(self).connecting,
            final(self).connected == old(self).connected,
            final(self).main_port == old(self).main_port,
            final(self).accepting_connections == old(self).accepting_connections,
            final(self).tcp_listener == old(self).tcp_listener,
    {
        self.clients.authenticate_client(uuid)
    }

    /// Makes this the main port of its connection.
    pub fn as_main_port(&mut self) -> (is_main: bool)
        ensures
            is_main,
            final(self).main_port,
            final(self).settings == old(self).settings,
            final(self).connecting == old(self).connecting,
            final(self).connected == old(self).connected,
            final(self).accepting_connections == old(self).accepting_connections,
            final(self).tcp_listener == old(self).tcp_listener,
            final(self).clients == old(self).clients,
    {
        self.main_port = true;
        true
    }

    /// Handles the news that the listener went down: the port is reset, its
    /// listener let go, and the answer is (dropped, can reconnect). Without
    /// news nothing changes and the answer is (false, false).
    pub fn check_port_dropped(&mut self, connection_down: bool) -> (dropped: (bool, bool))
        ensures
            final(self).settings == old(self).settings,
            final(self).main_port == old(self).main_port,
            final(self).clients == old(self).clients,
            connection_down ==> {
                &&& dropped == (true, old(self).settings.auto_reconnect)
                &&& !final(self).connected
                &&& !final(self).connecting
                &&& !final(self).accepting_connections
                &&& final(self).tcp_listener is None
            },
            !connection_down ==> {
                &&& dropped == (false, false)
                &&& final(self).connected == old(self).connected
                &&& final(self).connecting == old(self).connecting
                &&& final(self).accepting_connections == old(self).accepting_connections
                &&& final(self).tcp_listener == old(self).tcp_listener
            },
    {
        if connection_down {
            self.connected = false;
            self.connecting = false;
            self.accepting_connections = false;
            self.tcp_listener = None;
            (true, self.settings.auto_reconnect)
        } else {
            (false, false)
        }
    }

    /// Takes over the listener that the binding task delivered, unless the
    /// port is bound already.
    pub fn check_port_connected(&mut self, delivered: Option<L>)
        ensures
            final(self).settings == old(self).settings,
            final(self).connecting == old(self).connecting,
            final(self).main_port == old(self).main_port,
            final(self).accepting_connections == old(self).accepting_connections,
            final(self).clients == old(self).clients,
            old(self).connected || delivered is None ==> {
                &&& final(self).connected == old(self).connected
                &&& final(self).tcp_listener == old(self).tcp_listener
            },
            !old(self).connected && delivered is Some ==> {
                &&& final(self).connected
                &&& final(self).tcp_listener == delivered
            },
    {
        if self.connected {
            return;
        }
        if let Some(listener) = delivered {
            self.connected = true;
            self.tcp_listener = Some(listener);
        }
    }

    /// Starts accepting clients when the connection has a runtime, the
    /// listener is bound and the port does not accept already. Returns the
    /// listener to accept on; none when nothing is to start.
    pub fn start_accepting_connections(&mut self, has_runtime: bool) -> (listener: Option<&L>)
        ensures
            final(self).settings == old(self).settings,
            final(self).connecting == old(self).connecting,
            final(self).connected == old(self).connected,
            final(self).main_port == old(self).main_port,
            final(self).tcp_listener == old(self).tcp_listener,
            final(self).clients == old(self).clients,
            (has_runtime && !old(self).accepting_connections && old(self).connected
                && old(self).tcp_listener is Some) ==> {
                &&& listener matches Some(l) && old(self).tcp_listener == Some(*l)
                &&& final(self).accepting_connections
            },
            !(has_runtime && !old(self).accepting_connections && old(self).connected
                && old(self).tcp_listener is Some) ==> {
                &&& listener is None
                &&& final(self).accepting_connections == old(self).accepting_connections
            },
    {
        if !has_runtime {
            return None;
        }
        if self.accepting_connections || !self.connected {
            return None;
        }
        self.accepting_connections = true;
        if self.tcp_listener.is_none() {
            self.accepting_connections = false;
            return None;
        }
        self.tcp_listener.as_ref()
    }

    /// Forgets a client whose socket failed, among the authenticated clients
    /// or those waiting as the news says; no news changes nothing.
    pub fn check_clients_diconnected(&mut self, disconnected: Option<(u128, bool)>)
        ensures
            final(self).clients.ids() == match disconnected {
                None => old(self).clients.ids(),
                Some((uuid, authenticated)) => ids_after(
                    old(self).clients.ids(),
                    ClientEvent::Disconnected(uuid, authenticated),
                ),
            },
            final(self).settings == old(self).settings,
            final(self).connecting == old(self).connecting,
            final(self).connected == old(self).connected,
            final(self).main_port == old(self).main_port,
            final(self).accepting_connections == old(self).accepting_connections,
            final(self).tcp_listener == old(self).tcp_listener,
            match disconnected {
                None => final(self).clients == old(self).clients,
                Some((uuid, true)) => {
                    &&& final(self).clients.listening_clients@
                        == old(self).clients.listening_clients@.remove(uuid)
                    &&& final(self).clients.not_authenticated_listening@
                        == old(self).clients.not_authenticated_listening@
                },
                Some((uuid, false)) => {
                    &&& final(self).clients.listening_clients@
                        == old(self).clients.listening_clients@
                    &&& final(self).clients.not_authenticated_listening@
                        == old(self).clients.not_authenticated_listening@.remove(uuid)
                },
            },
            old(self).clients.is_disjoint() ==> final(self).clients.is_disjoint(),
    {
        if let Some((uuid, authenticated)) = disconnected {
            self.clients.client_disconnected(uuid, authenticated);
        }
    }

    /// Records a client that the accepting task delivered, under a new random
    /// id, as waiting to authenticate; returns that id. The id is one the port
    /// does not know yet. When the random source gives nothing, or an id the
    /// port knows already, the client is not recorded and no id comes back.
    pub fn check_client_connected(&mut self, delivered: Option<H>) -> (uuid: Option<u128>)
        ensures
            final(self).settings == old(self).settings,
            final(self).connecting == old(self).connecting,
            final(self).connected == old(self).connected,
            final(self).main_port == old(self).main_port,
            final(self).accepting_connections == old(self).accepting_connections,
            final(self).tcp_listener == old(self).tcp_listener,
            final(self).clients.listening_clients@ == old(self).clients.listening_clients@,
            delivered is None ==> uuid is None,
            uuid is None ==> final(self).clients == old(self).clients,
            uuid matches Some(id) ==> {
                &&& is_version_4_id(id)
                &&& delivered matches Some(handles)
                    && final(self).clients.not_authenticated_listening@
                    == old(self).clients.not_authenticated_listening@.insert(
                    id,
                    ListeningInfos { handles, listening: false },
                )
                &&& final(self).clients.ids() == ids_after(old(self).clients.ids(), ClientEvent::Connected(id))
                &&& !old(self).clients.listening_clients@.contains_key(id)
                &&& !old(self).clients.not_authenticated_listening@.contains_key(id)
            },
            uuid matches Some(id) && old(self).clients.is_disjoint()
                && !old(self).clients.listening_clients@.contains_key(id)
                ==> final(self).clients.is_disjoint(),
            old(self).clients.is_disjoint() ==> final(self).clients.is_disjoint(),
    {
        match delivered {
            None => None,
            Some(handles) => match random_bits() {
                None => None,
                Some(bits) => {
                    let id = uuid_from_random_bits(bits);
                    if self.clients.listening_client(id).is_some()
                        || self.clients.not_authenticated_client(id).is_some() {
                        None
                    } else {
                        self.record_client(handles, Some(bits))
                    }
                },
            },
        }
    }

    /// Records a client that connected under the id made of `random`, the
    /// bits drawn for it, as waiting to authenticate, and returns that id;
    /// without bits the client is not recorded and no id comes back.
    pub fn record_client(&mut self, handles: H, random: Option<u128>) -> (uuid: Option<u128>)
        ensures
            uuid == (match random {
                Some(bits) => Some(version_4_id(bits)),
                None => None,
            }),
            final(self).settings == old(self).settings,
            final(self).connecting == old(self).connecting,
            final(self).connected == old(self).connected,
            final(self).main_port == old(self).main_port,
            final(self).accepting_connections == old(self).accepting_connections,
            final(self).tcp_listener == old(self).tcp_listener,
            final(self).clients.listening_clients@ == old(self).clients.listening_clients@,
            uuid is None ==> final(self).clients == old(self).clients,
            uuid matches Some(id) ==> {
                &&& is_version_4_id(id)
                &&& final(self).clients.not_authenticated_listening@
                    == old(self).clients.not_authenticated_listening@.insert(
                    id,
                    ListeningInfos { handles, listening: false },
                )
                &&& final(self).clients.ids() == ids_after(old(self).clients.ids(), ClientEvent::Connected(id))
            },
            uuid matches Some(id) && old(self).clients.is_disjoint()
                && !old(self).clients.listening_clients@.contains_key(id)
                ==> final(self).clients.is_disjoint(),
    {
        match random {
            None => None,
            Some(bits) => {
                let uuid = uuid_from_random_bits(bits);
                proof {
                    lemma_version_4_id(bits);
                }
                self.clients.client_connected(uuid, handles);
                Some(uuid)
            },
        }
    }

    /// Marks every waiting client as read from, and returns the ids of those
    /// that were not read from yet: a reading task is to start for each.
    pub fn check_not_authenticated_clients(&mut self) -> (to_start: Vec<u128>)
        ensures
            to_start@.no_duplicates(),
            forall|uuid: u128|
                #![trigger to_start@.contains(uuid)]
                to_start@.contains(uuid) <==> (
                old(self).clients.not_authenticated_listening@.contains_key(uuid)
                    && !old(self).clients.not_authenticated_listening@[uuid].listening),
            final(self).clients.not_authenticated_listening@.dom()
                == old(self).clients.not_authenticated_listening@.dom(),
            forall|uuid: u128|
                #![trigger final(self).clients.not_authenticated_listening@[uuid]]
                old(self).clients.not_authenticated_listening@.contains_key(uuid)
                    ==> final(self).clients.not_authenticated_listening@[uuid] == (ListeningInfos {
                    handles: old(self).clients.not_authenticated_listening@[uuid].handles,
                    listening: true,
                }),
            final(self).clients.listening_clients@ == old(self).clients.listening_clients@,
            old(self).clients.is_disjoint() ==> final(self).clients.is_disjoint(),
            final(self).clients.ids() == ids_after(old(self).clients.ids(), ClientEvent::MarkedRead),
            final(self).settings == old(self).settings,
            final(self).connecting == old(self).connecting,
            final(self).connected == old(self).connected,
            final(self).main_port == old(self).main_port,
            final(self).accepting_connections == old(self).accepting_connections,
            final(self).tcp_listener == old(self).tcp_listener,
    {
        self.clients.check_not_authenticated_clients()
    }

    /// The socket to read from for a client that has not authenticated yet.
    /// The client is looked up among the authenticated clients, so a client
    /// that is still waiting is not found.
    pub fn start_listening_not_authenticated_client(&self, has_runtime: bool, target: u128) -> (to_read: Option<&H>)
        ensures
            to_read == (if has_runtime && self.clients.listening_clients@.contains_key(target) {
                Some(&self.clients.listening_clients@[target].handles)
            } else {
                None
            }),
    {
        if !has_runtime {
            return None;
        }
        match self.clients.listening_client(target) {
            Some(infos) => Some(&infos.handles),
            None => None,
        }
    }

    /// The socket of the authenticated client `target` to start reading from.
    pub fn start_listening_authenticated_client(&self, has_runtime: bool, target: u128) -> (to_read: Option<&H>)
        ensures
            to_read == (if has_runtime && self.clients.listening_clients@.contains_key(target) {
                Some(&self.clients.listening_clients@[target].handles)
            } else {
                None
            }),
    {
        if !has_runtime {
            return None;
        }
        match self.clients.listening_client(target) {
            Some(infos) => Some(&infos.handles),
            None => None,
        }
    }

    /// The socket to send a message to the authenticated client `target` on.
    pub fn send_message(&self, has_runtime: bool, target: u128) -> (to_write: Option<&H>)
        ensures
            to_write == (if has_runtime && self.clients.listening_clients@.contains_key(target) {
                Some(&self.clients.listening_clients@[target].handles)
            } else {
                None
            }),
    {
        if !has_runtime {
            return None;
        }
        match self.clients.listening_client(target) {
            Some(infos) => Some(&infos.handles),
            None => None,
        }
    }

    /// What a reading task does with what its client's socket yielded: binary
    /// messages are passed on, an error is reported as a disconnection while
    /// the task goes on, anything else is skipped.
    pub fn read_step(item: ReceivedItem) -> (step: ReadStep)
        ensures
            step == match item {
                ReceivedItem::Binary => ReadStep::Deliver,
                ReceivedItem::Error => ReadStep::ReportDown { stop: false },
                _ => ReadStep::Ignore,
            },
    {
        match item {
            ReceivedItem::Binary => ReadStep::Deliver,
            ReceivedItem::Error => ReadStep::ReportDown { stop: false },
            _ => ReadStep::Ignore,
        }
    }
}

impl<L, H> Default for ServerWebSocket<L, H> {
    fn default() -> (port: Self)
        ensures
            port.settings.address == IpAddress::V4([127u8, 0u8, 0u8, 1u8]),
            port.settings.port == 8080,
            port.settings.max_connections == 0,
            !port.settings.recuse_when_full,
            port.settings.auto_reconnect,
            port.settings.no_delay,
            port.clients.listening_clients@ == Map::<u128, ListeningInfos<H>>::empty(),
            port.clients.not_authenticated_listening@ == Map::<u128, ListeningInfos<H>>::empty(),
            !port.connecting,
            !port.connected,
            !port.main_port,
            !port.accepting_connections,
            port.tcp_listener is None,
    {
        ServerWebSocket::new(WebSocketSettingsServer::default())
    }
}

} // verus!
