use inator::NetworkSide;
use inator::plugins::authentication::{
    AuthenticationMessage, AuthenticationPlugin, AuthenticationSetupStep,
};
use inator::plugins::connection::{ConnectionPlugin, ConnectionSetupStep};
use inator::plugins::messaging::{
    derive_message, ConnectionMessageMeta, MessageAttribute, MessageReaderSystem, MessagingPlugin,
};

#[test]
fn side_codes() {
    assert_eq!(NetworkSide::Server.as_u8(), 0);
    assert_eq!(NetworkSide::Client.as_u8(), 1);
    assert_eq!(NetworkSide::from_u8(1), NetworkSide::Client);
    assert_eq!(NetworkSide::from_u8(0), NetworkSide::Server);
    assert_eq!(NetworkSide::from_u8(7), NetworkSide::Server);
    assert_eq!(NetworkSide::default(), NetworkSide::Server);
    for side in [NetworkSide::Server, NetworkSide::Client] {
        assert_eq!(NetworkSide::from_u8(side.as_u8()), side);
    }
}

#[test]
fn connection_plugin_client_steps() {
    let plugin = ConnectionPlugin { network_side: NetworkSide::Client };
    assert_eq!(
        plugin.setup_steps(),
        vec![
            ConnectionSetupStep::AddMessaging(NetworkSide::Client),
            ConnectionSetupStep::InsertNetworkSide(NetworkSide::Client),
            ConnectionSetupStep::AddAuthentication(NetworkSide::Client),
            ConnectionSetupStep::InitClientConnections,
            ConnectionSetupStep::AddClientConnectionPlugin,
        ]
    );
}

#[test]
fn connection_plugin_server_steps() {
    let plugin = ConnectionPlugin { network_side: NetworkSide::Server };
    assert_eq!(
        plugin.setup_steps(),
        vec![
            ConnectionSetupStep::AddMessaging(NetworkSide::Server),
            ConnectionSetupStep::InsertNetworkSide(NetworkSide::Server),
            ConnectionSetupStep::AddAuthentication(NetworkSide::Server),
            ConnectionSetupStep::InitServerConnections,
            ConnectionSetupStep::AddServerConnectionPlugin,
        ]
    );
}

#[test]
fn authentication_plugin_steps() {
    let server = AuthenticationPlugin::<AuthenticationMessage>::new(NetworkSide::Server);
    assert_eq!(server.network_side, NetworkSide::Server);
    assert_eq!(
        server.setup_steps(),
        vec![
            AuthenticationSetupStep::RegisterAuthenticationMessage,
            AuthenticationSetupStep::RegisterAuthenticatedUuid,
            AuthenticationSetupStep::AddServerSystem,
        ]
    );
    let client = AuthenticationPlugin::<AuthenticationMessage>::new(NetworkSide::Client);
    assert_eq!(client.setup_steps()[2], AuthenticationSetupStep::AddClientSystem);
}

#[test]
fn messaging_plugin_reader() {
    let client = MessagingPlugin { network_side: NetworkSide::Client };
    assert_eq!(client.reader_system(), MessageReaderSystem::ReadMessagesClient);
    let server = MessagingPlugin { network_side: NetworkSide::Server };
    assert_eq!(server.reader_system(), MessageReaderSystem::ReadMessagesServer);
}

fn authentication_item(value: bool) -> ConnectionMessageMeta {
    ConnectionMessageMeta::NameValue { is_authentication_key: true, bool_value: Some(value) }
}

#[test]
fn derive_message_without_attributes_is_not_authentication() {
    assert!(!derive_message(&vec![]));
    let other = MessageAttribute { is_connection_message: false, items: Some(vec![authentication_item(true)]) };
    assert!(!derive_message(&vec![other]));
}

#[test]
fn derive_message_reads_the_authentication_flag() {
    let attribute = MessageAttribute { is_connection_message: true, items: Some(vec![authentication_item(true)]) };
    assert!(derive_message(&vec![attribute]));
    let later_false = MessageAttribute {
        is_connection_message: true,
        items: Some(vec![authentication_item(true), ConnectionMessageMeta::Other, authentication_item(false)]),
    };
    assert!(!derive_message(&vec![later_false]));
}

#[test]
fn derive_message_ignores_other_items() {
    let not_bool = MessageAttribute {
        is_connection_message: true,
        items: Some(vec![ConnectionMessageMeta::NameValue { is_authentication_key: true, bool_value: None }]),
    };
    assert!(!derive_message(&vec![not_bool]));
    let other_key = MessageAttribute {
        is_connection_message: true,
        items: Some(vec![ConnectionMessageMeta::NameValue { is_authentication_key: false, bool_value: Some(true) }]),
    };
    assert!(!derive_message(&vec![other_key]));
    let unparsed = MessageAttribute { is_connection_message: true, items: None };
    let first = MessageAttribute { is_connection_message: true, items: Some(vec![authentication_item(true)]) };
    assert!(derive_message(&vec![first, unparsed]));
}
