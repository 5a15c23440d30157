use std::sync::Arc;
use rustls::ServerConfig;
use vstd::prelude::*;
use crate::plugins::{BytesOptions, OrderOptions};
use crate::ports::{ClientRegistry, ConnectStep, IpAddress, ListeningInfos};
use crate::ports::tcp::reader_writer::{frame_message, is_frame_of, size_fits};

verus! {

/// How a TCP server port listens.
pub struct TcpSettingsServer {
    pub address: IpAddress,
    pub port: u16,
    pub bytes: BytesOptions,
    pub order: OrderOptions,
    pub max_connections: usize,
    pub recuse_when_full: bool,
    pub auto_reconnect: bool,
    pub no_delay: bool,
    pub tls: bool,
    pub tls_server_config: Option<Arc<ServerConfig>>,
}

impl TcpSettingsServer {
    pub fn new(
        address: IpAddress,
        port: u16,
        bytes: BytesOptions,
        order: OrderOptions,
        max_connections: usize,
        recuse_when_full: bool,
        auto_reconnect: bool,
        no_delay: bool,
    ) -> (settings: Self)
        ensures
            settings.address == address,
            settings.port == port,
            settings.bytes == bytes,
            settings.order == order,
            settings.max_connections == max_connections,
            settings.recuse_when_full == recuse_when_full,
            settings.auto_reconnect == auto_reconnect,
            settings.no_delay == no_delay,
            !settings.tls,
            settings.tls_server_config is None,
    {
        TcpSettingsServer {
            address,
            port,
            bytes,
            order,
            max_connections,
            recuse_when_full,
            auto_reconnect,
            no_delay,
            tls: false,
            tls_server_config: None,
        }
    }

    /// The same settings, accepting clients over TLS with the given configuration.
    pub fn with_tls(self, server_config: ServerConfig) -> (settings: Self)
        ensures
            settings.tls,
            settings.tls_server_config == Some(Arc::new(server_config)),
            settings.address == self.address,
            settings.port == self.port,
            settings.bytes == self.bytes,
            settings.order == self.order,
            settings.max_connections == self.max_connections,
            settings.recuse_when_full == self.recuse_when_full,
            settings.auto_reconnect == self.auto_reconnect,
            settings.no_delay == self.no_delay,
    {
        let mut settings = self;
        settings.tls = true;
        settings.tls_server_config = Some(Arc::new(server_config));
        settings
    }
}

impl Default for TcpSettingsServer {
    /// `127.0.0.1:8080`, 32-bit little-endian size prefixes, no connection
    /// limit, reconnecting, no delay, no TLS.
    fn default() -> (settings: Self)
        ensures
            settings.address == IpAddress::V4([127u8, 0u8, 0u8, 1u8]),
            settings.port == 8080,
            settings.bytes == BytesOptions::U32,
            settings.order == OrderOptions::LittleEndian,
            settings.max_connections == 0,
            !settings.recuse_when_full,
            settings.auto_reconnect,
            settings.no_delay,
            !settings.tls,
            settings.tls_server_config is None,
    {
        TcpSettingsServer::new(
            IpAddress::localhost(),
            8080,
            BytesOptions::U32,
            OrderOptions::LittleEndian,
            0,
            false,
            true,
            true,
        )
    }
}

/// What sending a message to a client comes to.
pub enum OutgoingToClient<'a, H> {
    /// The connection has no runtime to send on: nothing is sent.
    NoRuntime,
    /// No authenticated client has the id: nothing is sent.
    UnknownClient,
    /// The message is too long for the size prefix, or the prefix is a
    /// floating type: it is left to the caller.
    Unframed,
    /// Write this frame to this client.
    Write(&'a H, Vec<u8>),
}

/// Whether the task that reads from a client that has not authenticated goes
/// on, given the ids announced as authenticated since it last looked: it stops
/// once its own client is among them, or once no more can be announced.
pub fn keeps_reading_unauthenticated(target: u128, announced: &Vec<u128>, announcements_closed: bool) -> (goes_on: bool)
    ensures
        goes_on == (!announced@.contains(target) && !announcements_closed),
{
    let mut i: usize = 0;
    while i < announced.len()
        invariant
            i <= announced@.len(),
            forall|j: int| 0 <= j < i ==> announced@[j] != target,
        decreases announced@.len() - i,
    {
        if announced[i] == target {
            return false;
        }
        i = i + 1;
    }
    !announcements_closed
}

/// The state of a TCP server port: `L` is its listener once bound, `H` the
/// handles of each client's stream.
pub struct ServerTcp<L, H> {
    pub settings: TcpSettingsServer,
    pub connecting: bool,
    pub connected: bool,
    pub main_port: bool,
    pub accepting_connections: bool,
    pub tcp_listener: Option<L>,
    pub clients: ClientRegistry<H>,
}

impl<L, H> ServerTcp<L, H> {
    pub fn new(settings: TcpSettingsServer) -> (port: Self)
        ensures
            port.settings == settings,
            !port.connecting,
            !port.connected,
            !port.main_port,
            !port.accepting_connections,
            port.tcp_listener is None,
            port.clients.listening_clients@ == Map::<u128, ListeningInfos<H>>::empty(),
            port.clients.not_authenticated_listening@ == Map::<u128, ListeningInfos<H>>::empty(),
    {
        ServerTcp {
            settings,
            connecting: false,
            connected: false,
            main_port: false,
            accepting_connections: false,
            tcp_listener: None,
            clients: ClientRegistry::new(),
        }
    }

    pub fn set_auto_reconnect(self, auto_reconnect: bool) -> (port: Self)
        ensures
            port.settings == (TcpSettingsServer { auto_reconnect, ..self.settings }),
            port.connecting == self.connecting,
            port.connected == self.connected,
            port.main_port == self.main_port,
            port.accepting_connections == self.accepting_connections,
            port.tcp_listener == self.tcp_listener,
            port.clients == self.clients,
    {
        let mut port = self;
        port.settings.auto_reconnect = auto_reconnect;
        port
    }

    pub fn with_main_port(self) -> (port: Self)
        ensures
            port.main_port,
            port.settings == self.settings,
            port.connecting == self.connecting,
            port.connected == self.connected,
            port.accepting_connections == self.accepting_connections,
            port.tcp_listener == self.tcp_listener,
            port.clients == self.clients,
    {
        let mut port = self;
        port.main_port = true;
        port
    }

    /// Starts binding the listener, when the connection has a runtime and the
    /// port is not binding already. Returns whether the binding task is to start.
    pub fn connect(&mut self, has_runtime: bool) -> (start: bool)
        ensures
            start == (has_runtime && !old(self).connecting),
            final(self).connecting == (old(self).connecting || start),
            final(self).settings == old(self).settings,
            final(self).connected == old(self).connected,
            final(self).main_port == old(self).main_port,
            final(self).accepting_connections == old(self).accepting_connections,
            final(self).tcp_listener == old(self).tcp_listener,
            final(self).clients == old(self).clients,
    {
        if !has_runtime || self.connecting {
            return false;
        }
        self.connecting = true;
        true
    }

    /// What the binding task does after one attempt: it hands over a bound
    /// listener and tries again otherwise.
    pub fn bind_attempt(bound: bool) -> (step: ConnectStep)
        ensures
            step == (if bound {
                ConnectStep::Deliver
            } else {
                ConnectStep::Retry
            }),
    {
        if bound {
            ConnectStep::Deliver
        } else {
            ConnectStep::Retry
        }
    }

    /// Frames an encoded message for the authenticated client `target`.
    pub fn send_message(&self, has_runtime: bool, payload: &Vec<u8>, target: u128) -> (outgoing: OutgoingToClient<'_, H>)
        ensures
            match outgoing {
                OutgoingToClient::NoRuntime => !has_runtime,
                OutgoingToClient::UnknownClient => has_runtime
                    && !self.clients.listening_clients@.contains_key(target),
                OutgoingToClient::Unframed => has_runtime
                    && self.clients.listening_clients@.contains_key(target)
                    && !size_fits(payload@.len(), self.settings.bytes),
                OutgoingToClient::Write(handles, frame) => {
                    &&& has_runtime
                    &&& self.clients.listening_clients@.contains_key(target)
                    &&& *handles == self.clients.listening_clients@[target].handles
                    &&& size_fits(payload@.len(), self.settings.bytes)
                    &&& is_frame_of(frame@, payload@, self.settings.bytes, self.settings.order)
                },
            },
    {
        if !has_runtime {
            return OutgoingToClient::NoRuntime;
        }
        match self.clients.listening_client(target) {
            None => OutgoingToClient::UnknownClient,
            Some(infos) => match frame_message(payload, self.settings.bytes, self.settings.order) {
                None => OutgoingToClient::Unframed,
                Some(frame) => OutgoingToClient::Write(&infos.handles, frame),
            },
        }
    }

    /// The stream of the authenticated client `target` to start reading from;
    /// none without a runtime or when there is no such client.
    pub fn start_listening_authenticated_client(&self, has_runtime: bool, target: u128) -> (to_read: Option<&H>)
        ensures
            to_read == (if has_runtime && self.clients.listening_clients@.contains_key(target) {
                Some(&self.clients.listening_clients@[target].handles)
            } else {
                None
            }),
    {
        if !has_runtime {
            return None;
        }
        match self.clients.listening_client(target) {
            Some(infos) => Some(&infos.handles),
            None => None,
        }
    }

    /// The stream of the client `target` that has not authenticated yet to
    /// start reading from; none without a runtime or when there is no such
    /// client.
    pub fn start_listening_not_authenticated_client(&self, has_runtime: bool, target: u128) -> (to_read: Option<&H>)
        ensures
            to_read == (if has_runtime && self.clients.not_authenticated_listening@.contains_key(target) {
                Some(&self.clients.not_authenticated_listening@[target].handles)
            } else {
                None
            }),
    {
        if !has_runtime {
            return None;
        }
        match self.clients.not_authenticated_client(target) {
            Some(infos) => Some(&infos.handles),
            None => None,
        }
    }

    /// Starts accepting clients when the connection has a runtime, the
    /// listener is bound and the port does not accept already. Returns the
    /// listener to accept on; none when nothing is to start.
    pub fn start_accepting_connections(&mut self, has_runtime: bool) -> (listener: Option<&L>)
        ensures
            final(self).settings == old(self).settings,
            final(self).connecting == old(self).connecting,
            final(self).connected == old(self).connected,
            final(self).main_port == old(self).main_port,
            final(self).tcp_listener == old(self).tcp_listener,
            final(self).clients == old(self).clients,
            (has_runtime && !old(self).accepting_connections && old(self).connected
                && old(self).tcp_listener is Some) ==> {
                &&& listener matches Some(l) && old(self).tcp_listener == Some(*l)
                &&& final(self).accepting_connections
            },
            !(has_runtime && !old(self).accepting_connections && old(self).connected
                && old(self).tcp_listener is Some) ==> {
                &&& listener is None
                &&& final(self).accepting_connections == old(self).accepting_connections
            },
    {
        if !has_runtime {
            return None;
        }
        if self.accepting_connections || !self.connected {
            return None;
        }
        self.accepting_connections = true;
        if self.tcp_listener.is_none() {
            self.accepting_connections = false;
            return None;
        }
        self.tcp_listener.as_ref()
    }
}

impl<L, H> Default for ServerTcp<L, H> {
    fn default() -> (port: Self)
        ensures
            port.settings.address == IpAddress::V4([127u8, 0u8, 0u8, 1u8]),
            port.settings.port == 8080,
            port.settings.bytes == BytesOptions::U32,
            port.settings.order == OrderOptions::LittleEndian,
            port.settings.max_connections == 0,
            !port.settings.recuse_when_full,
            port.settings.auto_reconnect,
            port.settings.no_delay,
            !port.settings.tls,
            port.settings.tls_server_config is None,
            port.clients.listening_clients@ == Map::<u128, ListeningInfos<H>>::empty(),
            port.clients.not_authenticated_listening@ == Map::<u128, ListeningInfos<H>>::empty(),
            !port.connecting,
            !port.connected,
            !port.main_port,
            !port.accepting_connections,
            port.tcp_listener is None,
    {
        ServerTcp::new(TcpSettingsServer::default())
    }
}

} // verus!
