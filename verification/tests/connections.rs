use inator::NetworkSide;
use inator::plugins::authentication::{
    authentication_answer_server, authentication_message_server, AuthenticationMessage, AuthenticationTrait, AuthenticatedUuid,
    ServerAuthenticationOutcome,
};
use inator::plugins::connection::{
    ClientAuthentication, ClientConnection, ConnectionTrait, NetworkConnections, ServerConnection,
};
use inator::plugins::messaging::{MessageTrait, MessagesRegistry};

fn server(name: &str) -> ServerConnection {
    ServerConnection::new(name.to_string())
}

#[test]
fn start_connection_adds_a_new_name_once() {
    let mut connections: NetworkConnections<ServerConnection> = NetworkConnections::new();
    assert!(connections.can_connect("Network"));
    connections.start_connection("Network", Some(server("Network")));
    assert_eq!(connections.len(), 1);
    assert!(!connections.can_connect("Network"));
    let mut second = server("Network");
    second.connected = true;
    connections.start_connection("Network", Some(second));
    assert_eq!(connections.len(), 1);
    assert!(!connections.get("Network").unwrap().connected);
    assert!(connections.names_are_unique());
}

#[test]
fn start_connection_without_a_connection_changes_nothing() {
    let mut connections: NetworkConnections<ServerConnection> = NetworkConnections::new();
    connections.start_connection("Network", None);
    assert_eq!(connections.len(), 0);
    assert!(connections.can_connect("Network"));
}

#[test]
fn disconnect_hands_the_connection_back() {
    let mut connections: NetworkConnections<ClientConnection> = NetworkConnections::new();
    connections.start_connection("a", Some(ClientConnection::new("a".to_string())));
    connections.start_connection("b", Some(ClientConnection::new("b".to_string())));
    let removed = connections.disconnect("a").unwrap();
    assert_eq!(removed.connection_name, "a");
    assert_eq!(connections.len(), 1);
    assert_eq!(connections.position("b"), Some(0));
    assert!(connections.disconnect("a").is_none());
    assert_eq!(connections.len(), 1);
}

#[test]
fn start_then_disconnect_restores_the_registry() {
    let mut connections: NetworkConnections<ClientConnection> = NetworkConnections::new();
    connections.start_connection("kept", Some(ClientConnection::new("kept".to_string())));
    connections.start_connection("new", Some(ClientConnection::new("new".to_string())));
    let back = connections.disconnect("new").unwrap();
    assert_eq!(back.connection_name, "new");
    assert_eq!(connections.len(), 1);
    assert_eq!(connections.entry(0).0, "kept");
}

#[test]
fn start_connections_starts_only_the_idle_ones() {
    let mut connections: NetworkConnections<ServerConnection> = NetworkConnections::new();
    let mut running = server("running");
    running.start_connection();
    connections.start_connection("idle", Some(server("idle")));
    connections.start_connection("running", Some(running));
    connections.start_connection("idle2", Some(server("idle2")));
    let started = connections.start_connections();
    assert_eq!(started, vec![0, 2]);
    for i in 0..3 {
        assert!(connections.entry(i).1.is_connected());
    }
    assert_eq!(connections.start_connections(), Vec::<usize>::new());
}

#[test]
fn check_main_port_dropped_marks_and_removes() {
    let mut connections: NetworkConnections<ClientConnection> = NetworkConnections::new();
    for name in ["a", "b", "c", "d"] {
        let mut c = ClientConnection::new(name.to_string());
        c.set_connected(true);
        connections.start_connection(name, Some(c));
    }
    let reports = vec![Some((true, true)), Some((true, false)), None, Some((false, false))];
    let removed = connections.check_main_port_dropped(&reports);
    assert_eq!(removed.len(), 1);
    assert_eq!(removed[0].0, "b");
    assert!(!removed[0].1.connected);
    assert_eq!(connections.len(), 3);
    assert_eq!(connections.entry(0).0, "a");
    assert!(!connections.entry(0).1.connected);
    assert_eq!(connections.entry(1).0, "c");
    assert!(connections.entry(1).1.connected);
    assert_eq!(connections.entry(2).0, "d");
    assert!(connections.entry(2).1.connected);
}

#[test]
fn authenticate_client_twice() {
    let mut connection = server("Network");
    assert_eq!(
        connection.authenticate_client(7, 0),
        ClientAuthentication::Registered { notify_main_port: true }
    );
    assert_eq!(connection.clients_connected.get(&7), Some(&vec![0]));
    assert_eq!(connection.authenticate_client(7, 0), ClientAuthentication::AlreadyConnected);
    assert_eq!(connection.clients_connected.len(), 1);
    assert_eq!(
        connection.authenticate_client(8, 3),
        ClientAuthentication::Registered { notify_main_port: false }
    );
    assert_eq!(connection.clients_connected.get(&8), Some(&vec![0]));
}

#[test]
fn only_authentication_messages_pass_before_authenticating() {
    let mut connection = server("Network");
    assert!(!connection.accepts_message_from(5, false));
    assert!(connection.accepts_message_from(5, true));
    connection.authenticate_client(5, 0);
    assert!(connection.accepts_message_from(5, false));
    assert!(!connection.accepts_message_from(6, false));
}

#[test]
fn client_stores_its_id() {
    let mut connections: NetworkConnections<ClientConnection> = NetworkConnections::new();
    connections.start_connection("Network", Some(ClientConnection::new("Network".to_string())));
    assert!(connections.set_local_uuid("Network", 42));
    assert_eq!(connections.get("Network").unwrap().local_uuid, Some(42));
    assert!(!connections.set_local_uuid("Other", 1));
}

struct Refusing;

impl AuthenticationTrait for Refusing {
    fn can_authenticate(&mut self, _: &ServerConnection) -> (bool, &str) {
        (false, "wrong password")
    }

    fn authenticate(&mut self, connection: &ServerConnection) -> (bool, &str) {
        self.can_authenticate(connection)
    }
}

#[test]
fn authentication_message_server_outcomes() {
    let mut connections: NetworkConnections<ServerConnection> = NetworkConnections::new();
    connections.start_connection("Network", Some(server("Network")));
    let mut credentials = AuthenticationMessage { username: "u".to_string(), password: "p".to_string() };
    match authentication_message_server(&mut connections, "Nowhere", 1, &mut credentials) {
        ServerAuthenticationOutcome::UnknownConnection => {},
        _ => panic!("expected an unknown connection"),
    }
    match authentication_message_server(&mut connections, "Network", 1, &mut Refusing) {
        ServerAuthenticationOutcome::Refused(reason) => assert_eq!(reason, "wrong password"),
        _ => panic!("expected a refusal"),
    }
    assert!(connections.get("Network").unwrap().clients_connected.is_empty());
    match authentication_message_server(&mut connections, "Network", 1, &mut credentials) {
        ServerAuthenticationOutcome::Authenticated(o) => {
            assert_eq!(o, ClientAuthentication::Registered { notify_main_port: true })
        },
        _ => panic!("expected the client in"),
    }
    assert!(connections.get("Network").unwrap().clients_connected.contains_key(&1));
    match authentication_message_server(&mut connections, "Network", 1, &mut credentials) {
        ServerAuthenticationOutcome::Authenticated(o) => assert_eq!(o, ClientAuthentication::AlreadyConnected),
        _ => panic!("expected the client in"),
    }
}

#[test]
fn authentication_message_says_success() {
    let connection = server("Network");
    let mut credentials = AuthenticationMessage { username: "u".to_string(), password: "p".to_string() };
    assert_eq!(credentials.authenticate(&connection), (true, "Success"));
    assert!(credentials.as_authentication());
    assert!(!AuthenticatedUuid(3).as_authentication());
}

#[test]
fn message_ids_are_handed_out_in_order() {
    let mut registry: MessagesRegistry<&'static str> = MessagesRegistry::new();
    assert_eq!(registry.last_id(), 0);
    assert_eq!(registry.register("first"), 1);
    assert_eq!(registry.register("second"), 2);
    assert_eq!(registry.get(1), Some(&"first"));
    assert_eq!(registry.get(2), Some(&"second"));
    assert_eq!(registry.get(0), None);
    assert_eq!(registry.get(3), None);
    assert_eq!(registry.last_id(), 2);
}

#[test]
fn authentication_answers_are_acted_on() {
    let mut connections: NetworkConnections<ServerConnection> = NetworkConnections::new();
    connections.start_connection("Network", Some(server("Network")));
    match authentication_answer_server(&mut connections, "Network", 5, false, "no".to_string()) {
        ServerAuthenticationOutcome::Refused(reason) => assert_eq!(reason, "no"),
        _ => panic!("expected a refusal"),
    }
    assert!(connections.get("Network").unwrap().clients_connected.is_empty());
    match authentication_answer_server(&mut connections, "Network", 5, true, "yes".to_string()) {
        ServerAuthenticationOutcome::Authenticated(o) => {
            assert_eq!(o, ClientAuthentication::Registered { notify_main_port: true })
        },
        _ => panic!("expected the client in"),
    }
    assert_eq!(connections.get("Network").unwrap().clients_connected.get(&5), Some(&vec![0u32]));
    match authentication_answer_server(&mut connections, "Nowhere", 6, true, "yes".to_string()) {
        ServerAuthenticationOutcome::UnknownConnection => {},
        _ => panic!("expected an unknown connection"),
    }
    match authentication_answer_server(&mut connections, "Nowhere", 6, false, "no".to_string()) {
        ServerAuthenticationOutcome::Refused(reason) => assert_eq!(reason, "no"),
        _ => panic!("expected a refusal"),
    }
}

#[test]
fn authentication_message_is_left_as_it_was() {
    let connection = server("Network");
    let mut credentials = AuthenticationMessage { username: "u".to_string(), password: "p".to_string() };
    credentials.authenticate(&connection);
    credentials.can_authenticate(&connection);
    assert_eq!(credentials.username, "u");
    assert_eq!(credentials.password, "p");
}

#[test]
fn connections_are_made_only_from_settings_of_their_side() {
    let made = ServerConnection::from_settings("Network".to_string(), NetworkSide::Server, true).unwrap();
    assert_eq!(made.connection_name, "Network");
    assert!(!made.connected && made.clients_connected.is_empty());
    assert!(ServerConnection::from_settings("Network".to_string(), NetworkSide::Server, false).is_none());
    assert!(ServerConnection::from_settings("Network".to_string(), NetworkSide::Client, true).is_none());
    let made = ClientConnection::from_settings("Network".to_string(), NetworkSide::Client, true).unwrap();
    assert_eq!(made.connection_name, "Network");
    assert!(!made.connected && made.local_uuid.is_none());
    assert!(ClientConnection::from_settings("Network".to_string(), NetworkSide::Client, false).is_none());
    assert!(ClientConnection::from_settings("Network".to_string(), NetworkSide::Server, true).is_none());
}
