use std::sync::Arc;
use rustls::ClientConfig;
use tungstenite::protocol::WebSocketConfig;
use vstd::prelude::*;
use crate::ports::{ConnectStep, ReadStep, ReceivedItem};

verus! {

#[verifier::external_type_specification]
#[verifier::external_body]
pub struct ExWebSocketConfig(WebSocketConfig);

/// How a WebSocket client port reaches its server.
pub struct WebSocketSettingsClient {
    pub address: &'static str,
    pub try_reconnect: bool,
    pub no_delay: bool,
    pub client_config: Option<Arc<WebSocketConfig>>,
    pub tls_config: Option<Arc<ClientConfig>>,
}

impl WebSocketSettingsClient {
    pub fn new(address: &'static str, try_reconnect: bool, no_delay: bool) -> (settings: Self)
        ensures
            settings.address == address,
            settings.try_reconnect == try_reconnect,
            settings.no_delay == no_delay,
            settings.client_config is None,
            settings.tls_config is None,
    {
        WebSocketSettingsClient { address, try_reconnect, no_delay, client_config: None, tls_config: None }
    }

    /// The same settings, with the given WebSocket configuration.
    pub fn with_client_config(self, client_config: WebSocketConfig) -> (settings: Self)
        ensures
            settings.client_config == Some(Arc::new(client_config)),
            settings.address == self.address,
            settings.try_reconnect == self.try_reconnect,
            settings.no_delay == self.no_delay,
            settings.tls_config == self.tls_config,
    {
        let mut settings = self;
        settings.client_config = Some(Arc::new(client_config));
        settings
    }

    /// The same settings, connecting over TLS with the given configuration.
    pub fn with_tls_connector(self, client_config: ClientConfig) -> (settings: Self)
        ensures
            settings.tls_config == Some(Arc::new(client_config)),
            settings.address == self.address,
            settings.try_reconnect == self.try_reconnect,
            settings.no_delay == self.no_delay,
            settings.client_config == self.client_config,
    {
        let mut settings = self;
        settings.tls_config = Some(Arc::new(client_config));
        settings
    }
}

impl Default for WebSocketSettingsClient {
    /// `wss://127.0.0.1:8080`, reconnecting, no delay, default configuration.
    fn default() -> (settings: Self)
        ensures
            settings.address@ == "wss://127.0.0.1:8080"@,
            settings.try_reconnect,
            settings.no_delay,
            settings.client_config is None,
            settings.tls_config is None,
    {
        WebSocketSettingsClient::new("wss://127.0.0.1:8080", true, true)
    }
}

/// The state of a WebSocket client port; `S` holds the two halves of its
/// socket once it is connected.
pub struct ClientWebSocket<S> {
    pub settings: WebSocketSettingsClient,
    pub connecting: bool,
    pub connected: bool,
    pub listening: bool,
    pub main_port: bool,
    pub socket: Option<S>,
}

impl<S> ClientWebSocket<S> {
    /// The port is connected exactly when it holds a socket to its server.
    pub open spec fn connected_with_socket(&self) -> bool {
        self.connected == self.socket is Some
    }

    pub fn new(settings: WebSocketSettingsClient) -> (port: Self)
        ensures
            port.connected_with_socket(),
            port.settings == settings,
            !port.connecting,
            !port.connected,
            !port.listening,
            !port.main_port,
            port.socket is None,
    {
        ClientWebSocket {
            settings,
            connecting: false,
            connected: false,
            listening: false,
            main_port: false,
            socket: None,
        }
    }

    /// Starts connecting, unless the port is connecting already or the
    /// connection has no runtime. Returns whether the connecting task is to start.
    pub fn connect(&mut self, has_runtime: bool) -> (start: bool)
        ensures
            old(self).connected_with_socket() ==> final(self).connected_with_socket(),
            start == (has_runtime && !old(self).connecting),
            final(self).connecting == (old(self).connecting || start),
            final(self).settings == old(self).settings,
            final(self).connected == old(self).connected,
            final(self).listening == old(self).listening,
            final(self).main_port == old(self).main_port,
            final(self).socket == old(self).socket,
    {
        if self.connecting {
            return false;
        }
        if !has_runtime {
            return false;
        }
        self.connecting = true;
        true
    }

    /// What the connecting task does after its one attempt: a socket that
    /// opened is handed over; on failure the task ends, reporting the
    /// connection down unless the port reconnects.
    pub fn connect_attempt(opened: bool, try_reconnect: bool) -> (step: ConnectStep)
        ensures
            step == (if opened {
                ConnectStep::Deliver
            } else if try_reconnect {
                ConnectStep::Stop
            } else {
                ConnectStep::Close
            }),
    {
        if opened {
            ConnectStep::Deliver
        } else if try_reconnect {
            ConnectStep::Stop
        } else {
            ConnectStep::Close
        }
    }

    /// Makes this the main port of its connection.
    pub fn as_main_port(&mut self) -> (is_main: bool)
        ensures
            old(self).connected_with_socket() ==> final(self).connected_with_socket(),
            is_main,
            final(self).main_port,
            final(self).settings == old(self).settings,
            final(self).connecting == old(self).connecting,
            final(self).connected == old(self).connected,
            final(self).listening == old(self).listening,
            final(self).socket == old(self).socket,
    {
        self.main_port = true;
        true
    }

    /// Handles the news that the connection went down: the port is reset, its
    /// socket let go, and the answer is (dropped, can reconnect). Without news
    /// nothing changes and the answer is (false, false).
    pub fn check_port_dropped(&mut self, connection_down: bool) -> (dropped: (bool, bool))
        ensures
            old(self).connected_with_socket() ==> final(self).connected_with_socket(),
            final(self).settings == old(self).settings,
            final(self).main_port == old(self).main_port,
            connection_down ==> {
                &&& dropped == (true, old(self).settings.try_reconnect)
                &&& !final(self).connected
                &&& !final(self).connecting
                &&& !final(self).listening
                &&& final(self).socket is None
            },
            !connection_down ==> {
                &&& dropped == (false, false)
                &&& *final(self) == *old(self)
            },
    {
        if connection_down {
            self.connected = false;
            self.connecting = false;
            self.listening = false;
            self.socket = None;
            (true, self.settings.try_reconnect)
        } else {
            (false, false)
        }
    }

    /// Takes over the socket that the connecting task delivered, unless the
    /// port is connected already; returns whether it did.
    pub fn check_connected_to_server(&mut self, delivered: Option<S>) -> (took: bool)
        ensures
            old(self).connected_with_socket() ==> final(self).connected_with_socket(),
            took == (!old(self).connected && delivered is Some),
            !took ==> *final(self) == *old(self),
            took ==> {
                &&& final(self).connected
                &&& final(self).socket == delivered
                &&& final(self).settings == old(self).settings
                &&& final(self).connecting == old(self).connecting
                &&& final(self).listening == old(self).listening
                &&& final(self).main_port == old(self).main_port
            },
    {
        if self.connected {
            return false;
        }
        match delivered {
            Some(socket) => {
                self.connected = true;
                self.socket = Some(socket);
                true
            },
            None => false,
        }
    }

    /// Starts listening to the server, once: with a runtime and a socket, the
    /// port is marked listening and the socket is to be read.
    pub fn start_listening_to_server(&mut self, has_runtime: bool) -> (to_read: Option<&S>)
        ensures
            old(self).connected_with_socket() ==> final(self).connected_with_socket(),
            final(self).settings == old(self).settings,
            final(self).connecting == old(self).connecting,
            final(self).connected == old(self).connected,
            final(self).main_port == old(self).main_port,
            final(self).socket == old(self).socket,
            (!old(self).listening && has_runtime && old(self).socket is Some) ==> {
                &&& to_read matches Some(s) && old(self).socket == Some(*s)
                &&& final(self).listening
            },
            !(!old(self).listening && has_runtime && old(self).socket is Some) ==> {
                &&& to_read is None
                &&& final(self).listening == old(self).listening
            },
    {
        if self.listening {
            return None;
        }
        if !has_runtime || self.socket.is_none() {
            return None;
        }
        self.listening = true;
        self.socket.as_ref()
    }

    /// The socket to send a message on; none without a runtime or a socket.
    pub fn send_message(&self, has_runtime: bool) -> (to_write: Option<&S>)
        ensures
            to_write == (if has_runtime && self.socket is Some {
                Some(&self.socket->Some_0)
            } else {
                None
            }),
    {
        if !has_runtime {
            return None;
        }
        self.socket.as_ref()
    }

    /// What the reading task does with what the socket yielded: binary
    /// messages are passed on, an error is reported as the connection going
    /// down while the task goes on, anything else is skipped.
    pub fn read_step(item: ReceivedItem) -> (step: ReadStep)
        ensures
            step == match item {
                ReceivedItem::Binary => ReadStep::Deliver,
                ReceivedItem::Error => ReadStep::ReportDown { stop: false },
                _ => ReadStep::Ignore,
            },
    {
        match item {
            ReceivedItem::Binary => ReadStep::Deliver,
            ReceivedItem::Error => ReadStep::ReportDown { stop: false },
            _ => ReadStep::Ignore,
        }
    }
}

impl<S> Default for ClientWebSocket<S> {
    fn default() -> (port: Self)
        ensures
            port.settings.address@ == "wss://127.0.0.1:8080"@,
            port.settings.try_reconnect,
            port.settings.no_delay,
            port.settings.client_config is None,
            port.settings.tls_config is None,
            !port.connecting,
            !port.connected,
            !port.listening,
            !port.main_port,
            port.socket is None,
    {
        ClientWebSocket::new(WebSocketSettingsClient::default())
    }
}

} // verus!
