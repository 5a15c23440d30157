use inator::plugins::{BytesOptions, OrderOptions};
use inator::ports::tcp::client::{ClientTcp, DomainName, OutgoingMessage, TcpSettingsClient};
use inator::ports::tcp::server::{keeps_reading_unauthenticated, OutgoingToClient, ServerTcp, TcpSettingsServer};
use inator::ports::websocket::client::{ClientWebSocket, WebSocketSettingsClient};
use inator::ports::websocket::server::{ServerWebSocket, WebSocketSettingsServer};
use inator::ports::websocket_wasm::client::{WasmClient, WasmSettingsClient};
use inator::ports::{
    accept_attempt, admission, Admission, ClientRegistry, ConnectStep, IpAddress, ReadStep, ReceivedItem,
};
use rustls::pki_types::{IpAddr, Ipv4Addr, ServerName};

fn client_with_domain(domain: DomainName) -> ClientTcp<u8> {
    let mut settings = TcpSettingsClient::default();
    settings.tls_domain_name = domain;
    ClientTcp::new(settings)
}

#[test]
fn client_tcp_connects_once() {
    let mut port = client_with_domain(DomainName::Empty);
    assert!(port.connect(false).is_none());
    assert!(!port.connecting);
    assert!(port.connect(true).is_some());
    assert!(port.connecting);
    assert!(port.connect(true).is_none());
    assert!(port.connecting);
}

#[test]
fn client_tcp_checks_the_domain_name() {
    let mut good = client_with_domain(DomainName::Name("example.com".to_string()));
    assert!(good.connect(true).is_some());
    let mut bad = client_with_domain(DomainName::Name("not a name!".to_string()));
    assert!(bad.connect(true).is_none());
    assert!(!bad.connecting);
    let mut empty = client_with_domain(DomainName::Name(String::new()));
    assert!(empty.connect(true).is_none());
    let mut address = client_with_domain(DomainName::Address(IpAddress::V4([10, 0, 0, 1])));
    assert!(address.connect(true).is_some());
    let mut written = client_with_domain(DomainName::Name("192.168.1.1".to_string()));
    assert!(written.connect(true).is_some());
}

#[test]
fn client_tcp_connect_attempts() {
    assert_eq!(ClientTcp::<u8>::connect_attempt(false, None, true), ConnectStep::Retry);
    assert_eq!(ClientTcp::<u8>::connect_attempt(false, None, false), ConnectStep::Close);
    assert_eq!(ClientTcp::<u8>::connect_attempt(true, None, false), ConnectStep::Deliver);
    assert_eq!(ClientTcp::<u8>::connect_attempt(true, Some(true), false), ConnectStep::Deliver);
    assert_eq!(ClientTcp::<u8>::connect_attempt(true, Some(false), true), ConnectStep::Stop);
    assert_eq!(ClientTcp::<u8>::connect_attempt(true, Some(false), false), ConnectStep::Close);
}

#[test]
fn client_tcp_lifecycle() {
    let mut port: ClientTcp<u8> = ClientTcp::new(TcpSettingsClient::default());
    assert!(port.as_main_port());
    assert!(port.main_port);
    port.check_connected_to_server(Some(9));
    assert!(port.connected);
    assert_eq!(port.stream, Some(9));
    port.check_connected_to_server(Some(10));
    assert_eq!(port.stream, Some(9));
    assert!(port.start_listening_to_server(true));
    assert!(port.listening);
    match port.send_message(true, &vec![1, 2]) {
        OutgoingMessage::Write(stream, frame) => {
            assert_eq!(*stream, 9);
            assert_eq!(frame, vec![2, 0, 0, 0, 1, 2]);
        },
        _ => panic!("expected a frame"),
    }
    assert!(matches!(port.send_message(false, &vec![1]), OutgoingMessage::NoRuntime));
    assert_eq!(port.check_port_dropped(false), (false, false));
    assert!(port.connected);
    assert_eq!(port.check_port_dropped(true), (true, true));
    assert!(!port.connected && !port.connecting && !port.listening);
    assert_eq!(port.stream, None);
    assert!(port.main_port);
    assert!(matches!(port.send_message(true, &vec![1]), OutgoingMessage::NotConnected));
}

#[test]
fn client_tcp_unframed_message() {
    let settings = TcpSettingsClient::new(IpAddress::localhost(), 1, BytesOptions::U8, OrderOptions::BigEndian, false, false);
    let mut port: ClientTcp<u8> = ClientTcp::new(settings);
    port.check_connected_to_server(Some(1));
    assert!(matches!(port.send_message(true, &vec![0; 256]), OutgoingMessage::Unframed));
    assert_eq!(port.check_port_dropped(true), (true, false));
}

#[test]
fn server_tcp_lifecycle() {
    let mut port: ServerTcp<&str, u8> = ServerTcp::new(TcpSettingsServer::default());
    assert!(!port.connect(false));
    assert!(port.connect(true));
    assert!(!port.connect(true));
    assert!(port.start_accepting_connections(true).is_none());
    port.connected = true;
    assert!(port.start_accepting_connections(true).is_none());
    assert!(!port.accepting_connections);
    port.tcp_listener = Some("listener");
    assert_eq!(port.start_accepting_connections(true), Some(&"listener"));
    assert!(port.accepting_connections);
    assert!(port.start_accepting_connections(true).is_none());
    let port = port.set_auto_reconnect(false).with_main_port();
    assert!(!port.settings.auto_reconnect);
    assert!(port.main_port);
    assert_eq!(ServerTcp::<u8, u8>::bind_attempt(true), ConnectStep::Deliver);
    assert_eq!(ServerTcp::<u8, u8>::bind_attempt(false), ConnectStep::Retry);
}

#[test]
fn server_tcp_sends_only_to_authenticated_clients() {
    let mut port: ServerTcp<u8, u8> = ServerTcp::new(TcpSettingsServer::default());
    port.clients.client_connected(5, 50);
    assert!(matches!(port.send_message(true, &vec![7], 5), OutgoingToClient::UnknownClient));
    assert_eq!(port.start_listening_not_authenticated_client(true, 5), Some(&50));
    assert_eq!(port.start_listening_authenticated_client(true, 5), None);
    assert!(port.clients.authenticate_client(5));
    match port.send_message(true, &vec![7], 5) {
        OutgoingToClient::Write(handles, frame) => {
            assert_eq!(*handles, 50);
            assert_eq!(frame, vec![1, 0, 0, 0, 7]);
        },
        _ => panic!("expected a frame"),
    }
    assert!(matches!(port.send_message(false, &vec![7], 5), OutgoingToClient::NoRuntime));
    assert_eq!(port.start_listening_authenticated_client(true, 5), Some(&50));
}

#[test]
fn unauthenticated_reader_stops_when_its_client_is_in() {
    assert!(keeps_reading_unauthenticated(1, &vec![], false));
    assert!(keeps_reading_unauthenticated(1, &vec![2, 3], false));
    assert!(!keeps_reading_unauthenticated(1, &vec![2, 1], false));
    assert!(!keeps_reading_unauthenticated(1, &vec![], true));
}

#[test]
fn admission_decisions() {
    assert_eq!(admission(0, true, 0), Admission::Accept);
    assert_eq!(admission(3, true, 1), Admission::Accept);
    assert_eq!(admission(3, true, 0), Admission::Reject);
    assert_eq!(admission(3, false, 0), Admission::Wait);
}

#[test]
fn client_registry_moves_clients() {
    let mut clients: ClientRegistry<u8> = ClientRegistry::new();
    clients.client_connected(1, 10);
    clients.client_connected(2, 20);
    let mut to_start = clients.check_not_authenticated_clients();
    to_start.sort();
    assert_eq!(to_start, vec![1, 2]);
    assert!(clients.check_not_authenticated_clients().is_empty());
    assert!(clients.authenticate_client(1));
    assert!(!clients.authenticate_client(1));
    assert!(clients.not_authenticated_client(1).is_none());
    let infos = clients.listening_client(1).unwrap();
    assert_eq!(infos.handles, 10);
    assert!(infos.listening);
    clients.client_disconnected(2, true);
    assert!(clients.not_authenticated_client(2).is_some());
    clients.client_disconnected(2, false);
    assert!(clients.not_authenticated_client(2).is_none());
    clients.client_disconnected(1, true);
    assert!(clients.listening_client(1).is_none());
}

#[test]
fn server_websocket_gives_new_clients_fresh_ids() {
    let mut port: ServerWebSocket<u8, u8> = ServerWebSocket::new(WebSocketSettingsServer::default());
    assert_eq!(port.check_client_connected(None), None);
    let first = port.check_client_connected(Some(1)).unwrap();
    let second = port.check_client_connected(Some(2)).unwrap();
    assert_ne!(first, second);
    assert_eq!(port.clients.not_authenticated_client(first).unwrap().handles, 1);
    let mut to_start = port.check_not_authenticated_clients();
    to_start.sort();
    let mut expected = vec![first, second];
    expected.sort();
    assert_eq!(to_start, expected);
    // a waiting client is looked up among the authenticated ones
    assert_eq!(port.start_listening_not_authenticated_client(true, first), None);
    assert!(port.authenticate_client(first));
    assert_eq!(port.send_message(true, first), Some(&1));
    assert_eq!(port.send_message(true, second), None);
    port.check_clients_diconnected(Some((first, true)));
    assert_eq!(port.send_message(true, first), None);
}

#[test]
fn server_websocket_lifecycle() {
    let mut port: ServerWebSocket<u8, u8> = ServerWebSocket::new(WebSocketSettingsServer::default());
    assert!(port.connect(true));
    port.check_port_connected(Some(3));
    assert!(port.connected);
    port.check_port_connected(Some(4));
    assert_eq!(port.tcp_listener, Some(3));
    assert_eq!(port.start_accepting_connections(true), Some(&3));
    assert_eq!(port.check_port_dropped(true), (true, true));
    assert!(!port.connected && !port.connecting && !port.accepting_connections);
    assert_eq!(port.tcp_listener, None);
    assert_eq!(ServerWebSocket::<u8, u8>::read_step(ReceivedItem::Binary), ReadStep::Deliver);
    assert_eq!(
        ServerWebSocket::<u8, u8>::read_step(ReceivedItem::Error),
        ReadStep::ReportDown { stop: false }
    );
    assert_eq!(ServerWebSocket::<u8, u8>::read_step(ReceivedItem::Text), ReadStep::Ignore);
}

#[test]
fn client_websocket_lifecycle() {
    let mut port: ClientWebSocket<u8> = ClientWebSocket::new(WebSocketSettingsClient::new("ws://x", false, true));
    assert!(!port.connect(false));
    assert!(port.connect(true));
    assert!(!port.connect(true));
    assert!(port.start_listening_to_server(true).is_none());
    assert!(port.check_connected_to_server(Some(4)));
    assert!(!port.check_connected_to_server(Some(5)));
    assert_eq!(port.start_listening_to_server(true), Some(&4));
    assert_eq!(port.start_listening_to_server(true), None);
    assert_eq!(port.send_message(true), Some(&4));
    assert_eq!(port.check_port_dropped(true), (true, false));
    assert_eq!(port.send_message(true), None);
    assert_eq!(ClientWebSocket::<u8>::connect_attempt(false, true), ConnectStep::Stop);
    assert_eq!(ClientWebSocket::<u8>::connect_attempt(false, false), ConnectStep::Close);
    assert_eq!(ClientWebSocket::<u8>::connect_attempt(true, false), ConnectStep::Deliver);
    assert_eq!(WebSocketSettingsClient::default().address, "wss://127.0.0.1:8080");
}

#[test]
fn wasm_client_lifecycle() {
    let mut port: WasmClient<u8> = WasmClient::new(WasmSettingsClient::default());
    assert_eq!(port.settings.url, "ws://127.0.0.1:1234");
    assert!(port.connect());
    assert!(!port.connect());
    port.check_connected_to_server(Some(2));
    assert_eq!(port.send_message(vec![1]), Some(&2));
    assert!(port.sending);
    assert_eq!(port.send_message(vec![2]), None);
    assert_eq!(port.start_listening_to_server(), Some(&2));
    assert_eq!(port.start_listening_to_server(), None);
    assert_eq!(WasmClient::<u8>::read_step(ReceivedItem::Ended), ReadStep::ReportDown { stop: true });
    assert_eq!(WasmClient::<u8>::read_step(ReceivedItem::Text), ReadStep::Ignore);
    assert_eq!(WasmClient::<u8>::connect_attempt(false, true), ConnectStep::Retry);
    assert_eq!(port.check_port_dropped(true), (true, true));
}

#[test]
fn client_tcp_goes_on_only_with_a_server_name() {
    let mut port: ClientTcp<u8> = ClientTcp::new(TcpSettingsClient::default());
    port.connecting = true;
    assert!(port.use_server_name(None).is_none());
    assert!(!port.connecting);
    let name = rustls::pki_types::ServerName::try_from("example.com").unwrap();
    assert!(port.use_server_name(Some(name)).is_some());
    assert!(port.connecting);
}

#[test]
fn client_tcp_hands_out_the_server_name_of_its_domain() {
    let mut address = client_with_domain(DomainName::Address(IpAddress::V4([10, 0, 0, 1])));
    assert_eq!(
        address.connect(true),
        Some(ServerName::IpAddress(IpAddr::V4(Ipv4Addr::from([10, 0, 0, 1]))))
    );
    let mut named = client_with_domain(DomainName::Name("example.com".to_string()));
    assert_eq!(named.connect(true), Some(ServerName::try_from("example.com").unwrap()));
    let mut localhost = client_with_domain(DomainName::Empty);
    assert_eq!(localhost.connect(true), Some(ServerName::try_from("localhost").unwrap()));
}

#[test]
fn accept_attempts() {
    assert_eq!(accept_attempt(false, None), ConnectStep::Close);
    assert_eq!(accept_attempt(false, Some(true)), ConnectStep::Close);
    assert_eq!(accept_attempt(true, None), ConnectStep::Deliver);
    assert_eq!(accept_attempt(true, Some(true)), ConnectStep::Deliver);
    assert_eq!(accept_attempt(true, Some(false)), ConnectStep::Retry);
}

#[test]
fn client_ports_are_connected_exactly_when_they_hold_a_stream() {
    let mut port: ClientTcp<u8> = ClientTcp::new(TcpSettingsClient::default());
    assert_eq!(port.connected, port.stream.is_some());
    port.check_connected_to_server(Some(7));
    assert!(port.connected && port.stream == Some(7));
    port.check_port_dropped(true);
    assert!(!port.connected && port.stream.is_none());
    let mut socket: ClientWebSocket<u8> = ClientWebSocket::new(WebSocketSettingsClient::default());
    assert_eq!(socket.connected, socket.socket.is_some());
    socket.check_connected_to_server(Some(7));
    assert!(socket.connected && socket.socket == Some(7));
    socket.check_port_dropped(true);
    assert!(!socket.connected && socket.socket.is_none());
}

#[test]
fn server_websocket_never_has_a_client_both_in_and_waiting() {
    let mut port: ServerWebSocket<u8, u8> = ServerWebSocket::new(WebSocketSettingsServer::default());
    let apart = |port: &ServerWebSocket<u8, u8>| {
        port.clients.listening_clients.keys().all(|id| !port.clients.not_authenticated_listening.contains_key(id))
    };
    let first = port.check_client_connected(Some(1)).unwrap();
    let second = port.check_client_connected(Some(2)).unwrap();
    assert!(apart(&port));
    port.check_not_authenticated_clients();
    assert!(apart(&port));
    assert!(port.authenticate_client(first));
    assert!(!port.authenticate_client(first));
    assert!(apart(&port));
    port.check_clients_diconnected(Some((second, false)));
    port.check_clients_diconnected(Some((first, true)));
    assert!(apart(&port));
    assert!(port.clients.listening_clients.is_empty() && port.clients.not_authenticated_listening.is_empty());
}

#[test]
fn server_websocket_records_clients_under_version_4_ids() {
    let mut port: ServerWebSocket<u8, u8> = ServerWebSocket::new(WebSocketSettingsServer::default());
    let id = port.check_client_connected(Some(1)).unwrap();
    let uuid = uuid::Uuid::from_u128(id);
    assert_eq!(uuid.get_version_num(), 4);
    assert_eq!(uuid.get_variant(), uuid::Variant::RFC4122);
    assert_eq!(port.record_client(2, None), None);
    assert_eq!(port.clients.not_authenticated_listening.len(), 1);
    let bits: u128 = 0x0123_4567_89ab_cdef_fedc_ba98_7654_3210;
    let made = port.record_client(3, Some(bits)).unwrap();
    assert_eq!(made, uuid::Builder::from_random_bytes(bits.to_be_bytes()).into_uuid().as_u128());
    assert_eq!(made, 0x0123_4567_89ab_4def_bedc_ba98_7654_3210);
    assert_ne!(made, bits);
    assert_eq!(port.clients.not_authenticated_client(made).unwrap().handles, 3);
}

#[test]
fn wasm_client_sends_queued_messages_in_order() {
    let mut port: WasmClient<u8> = WasmClient::default();
    assert_eq!(port.send_message(vec![1]), None);
    assert!(!port.sending);
    port.check_connected_to_server(Some(5));
    assert_eq!(port.send_message(vec![2, 2]), Some(&5));
    assert_eq!(port.send_message(vec![3]), None);
    assert_eq!(port.next_to_send(), Some(vec![1]));
    assert_eq!(port.next_to_send(), Some(vec![2, 2]));
    assert_eq!(port.next_to_send(), Some(vec![3]));
    assert_eq!(port.next_to_send(), None);
    port.sending_finished();
    assert!(!port.sending);
    assert_eq!(port.send_message(vec![4]), Some(&5));
}
