use std::sync::Arc;
use rustls::pki_types::ServerName;
use rustls::ClientConfig;
use vstd::prelude::*;
use crate::plugins::{BytesOptions, OrderOptions};
use crate::ports::{ConnectStep, IpAddress};
use crate::ports::tcp::reader_writer::{frame_message, is_frame_of, size_fits};

verus! {

#[verifier::external_type_specification]
#[verifier::external_body]
pub struct ExServerName<'a>(ServerName<'a>);

/// The server name that rustls reads in `name`: there is one when the text is
/// a valid DNS name or an IP address written out.
pub uninterp spec fn server_name_of(name: Seq<char>) -> Option<ServerName<'static>>;

/// The server name that rustls makes of an IP address.
pub uninterp spec fn address_server_name(address: IpAddress) -> ServerName<'static>;

/// Calls `ServerName::try_from(String)` of rustls: the server name that `name`
/// spells, if it is a valid DNS name or a written IP address. Claimed: the
/// result is `server_name_of` the text, the outcome resting on the text alone.
#[verifier::external_body]
fn server_name_from(name: String) -> (server_name: Option<ServerName<'static>>)
    ensures
        server_name == server_name_of(name@),
{
    match ServerName::try_from(name) {
        Ok(server_name) => Some(server_name),
        Err(_) => None,
    }
}

/// Builds rustls's `ServerName::IpAddress` from an address. Claimed: the
/// result is `address_server_name` of the address, which it alone decides.
#[verifier::external_body]
fn server_name_from_address(address: IpAddress) -> (server_name: ServerName<'static>)
    ensures
        server_name == address_server_name(address),
{
    match address {
        IpAddress::V4(octets) => ServerName::IpAddress(
            rustls::pki_types::IpAddr::V4(rustls::pki_types::Ipv4Addr::from(octets)),
        ),
        IpAddress::V6(groups) => ServerName::IpAddress(
            rustls::pki_types::IpAddr::V6(rustls::pki_types::Ipv6Addr::from(groups)),
        ),
    }
}

/// The name that a TLS client checks the server's certificate against.
#[derive(Debug, Clone)]
pub enum DomainName {
    /// No name given: the server is taken to be `localhost`.
    Empty,
    Name(String),
    Address(IpAddress),
}

/// The server name that a domain name gives TLS, if it gives one: that of
/// `localhost` when none is given, that of the text, or that of the address.
pub open spec fn domain_server_name(domain: DomainName) -> Option<ServerName<'static>> {
    match domain {
        DomainName::Empty => server_name_of("localhost"@),
        DomainName::Name(name) => server_name_of(name@),
        DomainName::Address(address) => Some(address_server_name(address)),
    }
}

/// The server name that a domain name gives: an address, of either family,
/// always gives the name of that very address; a name gives what rustls reads
/// in it; no domain name gives what rustls reads in `localhost`.
pub proof fn lemma_domain_server_name(domain: DomainName)
    ensures
        domain matches DomainName::Address(address) ==> domain_server_name(domain) == Some(
            address_server_name(address),
        ),
        domain matches DomainName::Name(name) ==> domain_server_name(domain) == server_name_of(name@),
        domain is Empty ==> domain_server_name(domain) == server_name_of("localhost"@),
{
}

/// How a TCP client port reaches its server.
pub struct TcpSettingsClient {
    pub address: IpAddress,
    pub port: u16,
    pub bytes: BytesOptions,
    pub order: OrderOptions,
    pub try_reconnect: bool,
    pub no_delay: bool,
    pub tls: bool,
    pub tls_client_config: Option<Arc<ClientConfig>>,
    pub tls_domain_name: DomainName,
}

impl TcpSettingsClient {
    pub fn new(
        address: IpAddress,
        port: u16,
        bytes: BytesOptions,
        order: OrderOptions,
        try_reconnect: bool,
        no_delay: bool,
    ) -> (settings: Self)
        ensures
            settings.address == address,
            settings.port == port,
            settings.bytes == bytes,
            settings.order == order,
            settings.try_reconnect == try_reconnect,
            settings.no_delay == no_delay,
            !settings.tls,
            settings.tls_client_config is None,
            settings.tls_domain_name is Empty,
    {
        TcpSettingsClient {
            address,
            port,
            bytes,
            order,
            try_reconnect,
            no_delay,
            tls: false,
            tls_client_config: None,
            tls_domain_name: DomainName::Empty,
        }
    }

    /// The same settings, talking TLS with the given configuration and
    /// checking the server against `domain_name`.
    pub fn with_tls(self, client_config: ClientConfig, domain_name: DomainName) -> (settings: Self)
        ensures
            settings.tls,
            settings.tls_client_config == Some(Arc::new(client_config)),
            settings.tls_domain_name == domain_name,
            settings.address == self.address,
            settings.port == self.port,
            settings.bytes == self.bytes,
            settings.order == self.order,
            settings.try_reconnect == self.try_reconnect,
            settings.no_delay == self.no_delay,
    {
        let mut settings = self;
        settings.tls = true;
        settings.tls_client_config = Some(Arc::new(client_config));
        settings.tls_domain_name = domain_name;
        settings
    }
}

impl Default for TcpSettingsClient {
    /// `127.0.0.1:8080`, 32-bit little-endian size prefixes, reconnecting, no
    /// delay, no TLS.
    fn default() -> (settings: Self)
        ensures
            settings.address == IpAddress::V4([127u8, 0u8, 0u8, 1u8]),
            settings.port == 8080,
            settings.bytes == BytesOptions::U32,
            settings.order == OrderOptions::LittleEndian,
            settings.try_reconnect,
            settings.no_delay,
            !settings.tls,
            settings.tls_client_config is None,
            settings.tls_domain_name is Empty,
    {
        TcpSettingsClient::new(
            IpAddress::localhost(),
            8080,
            BytesOptions::U32,
            OrderOptions::LittleEndian,
            true,
            true,
        )
    }
}

/// What sending a message on a client port comes to.
pub enum OutgoingMessage<'a, S> {
    /// The connection has no runtime to send on: nothing is sent.
    NoRuntime,
    /// The port is not connected to its server: nothing is sent.
    NotConnected,
    /// The message is too long for the size prefix, or the prefix is a
    /// floating type: it is left to the caller.
    Unframed,
    /// Write this frame on this stream.
    Write(&'a S, Vec<u8>),
}

/// The state of a TCP client port; `S` holds the halves of its stream once it
/// is connected.
pub struct ClientTcp<S> {
    pub settings: TcpSettingsClient,
    pub connecting: bool,
    pub connected: bool,
    pub listening: bool,
    pub main_port: bool,
    pub stream: Option<S>,
}

impl<S> ClientTcp<S> {
    /// The port is connected exactly when it holds a stream to its server.
    pub open spec fn connected_with_stream(&self) -> bool {
        self.connected == self.stream is Some
    }

    pub fn new(settings: TcpSettingsClient) -> (port: Self)
        ensures
            port.connected_with_stream(),
            port.settings == settings,
            !port.connecting,
            !port.connected,
            !port.listening,
            !port.main_port,
            port.stream is None,
    {
        ClientTcp {
            settings,
            connecting: false,
            connected: false,
            listening: false,
            main_port: false,
            stream: None,
        }
    }

    /// Starts connecting, when the connection has a runtime and the port is
    /// not connecting already. Returns the server name to connect with; none
    /// when nothing is to start. A domain name that TLS cannot use stops the
    /// attempt before it starts.
    pub fn connect(&mut self, has_runtime: bool) -> (server_name: Option<ServerName<'static>>)
        ensures
            old(self).connected_with_stream() ==> final(self).connected_with_stream(),
            final(self).settings == old(self).settings,
            final(self).connected == old(self).connected,
            final(self).listening == old(self).listening,
            final(self).main_port == old(self).main_port,
            final(self).stream == old(self).stream,
            !has_runtime || old(self).connecting ==> {
                &&& server_name is None
                &&& final(self).connecting == old(self).connecting
            },
            has_runtime && !old(self).connecting ==> {
                &&& server_name == domain_server_name(old(self).settings.tls_domain_name)
                &&& old(self).settings.tls_domain_name matches DomainName::Address(address)
                    ==> server_name == Some(address_server_name(address))
                &&& old(self).settings.tls_domain_name matches DomainName::Name(name)
                    ==> server_name == server_name_of(name@)
                &&& old(self).settings.tls_domain_name is Empty
                    ==> server_name == server_name_of("localhost"@)
                &&& final(self).connecting == server_name is Some
            },
    {
        if !has_runtime {
            return None;
        }
        if self.connecting {
            return None;
        }
        self.connecting = true;
        let server_name = match &self.settings.tls_domain_name {
            DomainName::Empty => server_name_from("localhost".to_owned()),
            DomainName::Name(name) => server_name_from(name.clone()),
            DomainName::Address(address) => Some(server_name_from_address(*address)),
        };
        self.use_server_name(server_name)
    }

    /// Goes on connecting with the server name that the domain name gave:
    /// without one, the port stops connecting and nothing is to start.
    pub fn use_server_name(&mut self, server_name: Option<ServerName<'static>>) -> (to_connect: Option<ServerName<'static>>)
        ensures
            old(self).connected_with_stream() ==> final(self).connected_with_stream(),
            to_connect == server_name,
            final(self).connecting == (server_name is Some),
            final(self).settings == old(self).settings,
            final(self).connected == old(self).connected,
            final(self).listening == old(self).listening,
            final(self).main_port == old(self).main_port,
            final(self).stream == old(self).stream,
    {
        self.connecting = server_name.is_some();
        server_name
    }

    /// What the connecting task does after one attempt: a refused connection
    /// is tried again when the port reconnects and reported down otherwise; a
    /// failed TLS handshake stops the task, reporting the connection down when
    /// the port does not reconnect; a connection that went through is handed
    /// over. `tls_handshake` is none when the port does not use TLS.
    pub fn connect_attempt(connected: bool, tls_handshake: Option<bool>, try_reconnect: bool) -> (step: ConnectStep)
        ensures
            step == (if !connected {
                if try_reconnect {
                    ConnectStep::Retry
                } else {
                    ConnectStep::Close
                }
            } else {
                match tls_handshake {
                    Some(false) => if try_reconnect {
                        ConnectStep::Stop
                    } else {
                        ConnectStep::Close
                    },
                    _ => ConnectStep::Deliver,
                }
            }),
    {
        if !connected {
            if try_reconnect {
                ConnectStep::Retry
            } else {
                ConnectStep::Close
            }
        } else {
            match tls_handshake {
                Some(false) => if try_reconnect {
                    ConnectStep::Stop
                } else {
                    ConnectStep::Close
                },
                _ => ConnectStep::Deliver,
            }
        }
    }

    /// Makes this the main port of its connection.
    pub fn as_main_port(&mut self) -> (is_main: bool)
        ensures
            old(self).connected_with_stream() ==> final(self).connected_with_stream(),
            is_main,
            final(self).main_port,
            final(self).settings == old(self).settings,
            final(self).connecting == old(self).connecting,
            final(self).connected == old(self).connected,
            final(self).listening == old(self).listening,
            final(self).stream == old(self).stream,
    {
        self.main_port = true;
        true
    }

    /// Handles the news that the connection went down: the port is reset, its
    /// stream let go, and the answer is (dropped, can reconnect). Without news
    /// nothing changes and the answer is (false, false).
    pub fn check_port_dropped(&mut self, connection_down: bool) -> (dropped: (bool, bool))
        ensures
            old(self).connected_with_stream() ==> final(self).connected_with_stream(),
            final(self).settings == old(self).settings,
            final(self).main_port == old(self).main_port,
            connection_down ==> {
                &&& dropped == (true, old(self).settings.try_reconnect)
                &&& !final(self).connected
                &&& !final(self).connecting
                &&& !final(self).listening
                &&& final(self).stream is None
            },
            !connection_down ==> {
                &&& dropped == (false, false)
                &&& *final(self) == *old(self)
            },
    {
        if connection_down {
            self.connected = false;
            self.connecting = false;
            self.listening = false;
            self.stream = None;
            (true, self.settings.try_reconnect)
        } else {
            (false, false)
        }
    }

    /// Takes over the stream that the connecting task delivered, unless the
    /// port is connected already.
    pub fn check_connected_to_server(&mut self, delivered: Option<S>)
        ensures
            old(self).connected_with_stream() ==> final(self).connected_with_stream(),
            old(self).connected || delivered is None ==> *final(self) == *old(self),
            !old(self).connected && delivered is Some ==> {
                &&& final(self).connected
                &&& final(self).stream == delivered
                &&& final(self).settings == old(self).settings
                &&& final(self).connecting == old(self).connecting
                &&& final(self).listening == old(self).listening
                &&& final(self).main_port == old(self).main_port
            },
    {
        if self.connected {
            return;
        }
        if let Some(stream) = delivered {
            self.connected = true;
            self.stream = Some(stream);
        }
    }

    /// Starts listening to the server when the connection has a runtime: the
    /// port is marked listening and its stream, if it has one, is to be read.
    pub fn start_listening_to_server(&mut self, has_runtime: bool) -> (to_read: bool)
        ensures
            old(self).connected_with_stream() ==> final(self).connected_with_stream(),
            to_read == (has_runtime && old(self).stream is Some),
            final(self).listening == (old(self).listening || has_runtime),
            final(self).settings == old(self).settings,
            final(self).connecting == old(self).connecting,
            final(self).connected == old(self).connected,
            final(self).main_port == old(self).main_port,
            final(self).stream == old(self).stream,
    {
        if has_runtime {
            self.listening = true;
            self.stream.is_some()
        } else {
            false
        }
    }

    /// Frames an encoded message for the server with the port's size prefix.
    pub fn send_message(&self, has_runtime: bool, payload: &Vec<u8>) -> (outgoing: OutgoingMessage<'_, S>)
        ensures
            match outgoing {
                OutgoingMessage::NoRuntime => !has_runtime,
                OutgoingMessage::NotConnected => has_runtime && self.stream is None,
                OutgoingMessage::Unframed => has_runtime && self.stream is Some && !size_fits(
                    payload@.len(),
                    self.settings.bytes,
                ),
                OutgoingMessage::Write(stream, frame) => {
                    &&& has_runtime
                    &&& self.stream == Some(*stream)
                    &&& size_fits(payload@.len(), self.settings.bytes)
                    &&& is_frame_of(frame@, payload@, self.settings.bytes, self.settings.order)
                },
            },
    {
        if !has_runtime {
            return OutgoingMessage::NoRuntime;
        }
        match &self.stream {
            None => OutgoingMessage::NotConnected,
            Some(stream) => match frame_message(payload, self.settings.bytes, self.settings.order) {
                None => OutgoingMessage::Unframed,
                Some(frame) => OutgoingMessage::Write(stream, frame),
            },
        }
    }
}

} // verus!
