use std::marker::PhantomData;
use vstd::prelude::*;
use crate::NetworkSide;
use crate::plugins::connection::{
    client_recorded, has_name, ClientAuthentication, ClientConnection, NetworkConnections,
    ServerConnection,
};
use crate::plugins::messaging::MessageTrait;

verus! {

/// A message that a client sends to be let in. The server asks it whether it
/// may authenticate its sender on a connection; the answer comes with a
/// reason.
pub trait AuthenticationTrait {
    /// Whether the message type's answers follow `admits`. A type that says
    /// nothing of its answers does not.
    open spec fn obeys_admits() -> bool {
        false
    }

    /// Whether the message, as it is, lets its sender in on a connection.
    open spec fn admits(&self, server_connection: ServerConnection) -> bool {
        false
    }

    fn can_authenticate(&mut self, server_connection: &ServerConnection) -> (bool, &str);

    /// The answer that the server acts on: for a type that obeys `admits`,
    /// whether the sender may in is what `admits` says of the message before
    /// the call.
    fn authenticate(&mut self, server_connection: &ServerConnection) -> (answer: (bool, &str))
        ensures
            Self::obeys_admits() ==> answer.0 == old(self).admits(*server_connection),
    ;
}

/// The credentials a client sends to be let in.
pub struct AuthenticationMessage {
    pub username: String,
    pub password: String,
}

impl MessageTrait for AuthenticationMessage {
    fn as_authentication(&self) -> (is_authentication: bool)
        ensures
            is_authentication,
    {
        true
    }
}

impl AuthenticationTrait for AuthenticationMessage {
    open spec fn obeys_admits() -> bool {
        true
    }

    /// Any credentials are accepted.
    open spec fn admits(&self, server_connection: ServerConnection) -> bool {
        true
    }

    /// Any credentials are accepted.
    fn can_authenticate(&mut self, server_connection: &ServerConnection) -> (answer: (bool, &str))
        ensures
            answer.0,
            answer.1@ == "Success"@,
            *final(self) == *old(self),
    {
        (true, "Success")
    }

    fn authenticate(&mut self, server_connection: &ServerConnection) -> (answer: (bool, &str))
        ensures
            answer.0,
            answer.1@ == "Success"@,
            *final(self) == *old(self),
    {
        let (can, message) = self.can_authenticate(server_connection);
        (can, message)
    }
}

/// The built-in credentials follow `admits`, and they let any sender in on
/// any connection.
pub proof fn lemma_credentials_admit_any_sender(message: AuthenticationMessage, server_connection: ServerConnection)
    ensures
        AuthenticationMessage::obeys_admits(),
        message.admits(server_connection),
{
}

/// The id that a server gave a client once it authenticated, sent back to it.
pub struct AuthenticatedUuid(pub u128);

impl MessageTrait for AuthenticatedUuid {
    fn as_authentication(&self) -> (is_authentication: bool)
        ensures
            !is_authentication,
    {
        false
    }
}

/// The plugin that lets clients authenticate with messages of type `T`.
pub struct AuthenticationPlugin<T> {
    pub network_side: NetworkSide,
    pub _marker: PhantomData<T>,
}

/// One step of setting up authentication.
#[derive(PartialEq, Eq, Structural, Debug, Clone, Copy)]
pub enum AuthenticationSetupStep {
    /// Register the authentication message type.
    RegisterAuthenticationMessage,
    /// Register the message that carries a client's id back.
    RegisterAuthenticatedUuid,
    /// On a server: handle authentication messages after they are read.
    AddServerSystem,
    /// On a client: store the id the server sent after it is read.
    AddClientSystem,
}

impl<T: AuthenticationTrait + MessageTrait> AuthenticationPlugin<T> {
    pub fn new(network_side: NetworkSide) -> (plugin: Self)
        ensures
            plugin.network_side == network_side,
    {
        AuthenticationPlugin { network_side, _marker: PhantomData }
    }

    /// What building the plugin adds: both message types, then the system of
    /// its side.
    pub fn setup_steps(&self) -> (steps: Vec<AuthenticationSetupStep>)
        ensures
            steps@ == seq![
                AuthenticationSetupStep::RegisterAuthenticationMessage,
                AuthenticationSetupStep::RegisterAuthenticatedUuid,
                match self.network_side {
                    NetworkSide::Server => AuthenticationSetupStep::AddServerSystem,
                    NetworkSide::Client => AuthenticationSetupStep::AddClientSystem,
                },
            ],
    {
        let mut steps = Vec::new();
        steps.push(AuthenticationSetupStep::RegisterAuthenticationMessage);
        steps.push(AuthenticationSetupStep::RegisterAuthenticatedUuid);
        match self.network_side {
            NetworkSide::Server => steps.push(AuthenticationSetupStep::AddServerSystem),
            NetworkSide::Client => steps.push(AuthenticationSetupStep::AddClientSystem),
        }
        assert(steps@ =~= seq![
            AuthenticationSetupStep::RegisterAuthenticationMessage,
            AuthenticationSetupStep::RegisterAuthenticatedUuid,
            match self.network_side {
                NetworkSide::Server => AuthenticationSetupStep::AddServerSystem,
                NetworkSide::Client => AuthenticationSetupStep::AddClientSystem,
            },
        ]);
        steps
    }
}

/// What became of an authentication message that reached a server.
pub enum ServerAuthenticationOutcome {
    /// No connection has the name the message came through: it is ignored.
    UnknownConnection,
    /// The message refused its sender, for the given reason.
    Refused(String),
    /// The sender is authenticated on the connection: it is to be sent its id.
    Authenticated(ClientAuthentication),
}

/// Handles an authentication message that `sender` sent through the
/// connection named `connection_name`: the message decides whether the sender
/// may in, and its answer is acted on as `authentication_answer_server` says.
/// No connection by that name: the message is not asked.
pub fn authentication_message_server<T: AuthenticationTrait>(
    server_connections: &mut NetworkConnections<ServerConnection>,
    connection_name: &str,
    sender: u128,
    message: &mut T,
) -> (outcome: ServerAuthenticationOutcome)
    ensures
        !has_name(old(server_connections)@, connection_name@) ==> {
            &&& outcome is UnknownConnection
            &&& final(server_connections)@ == old(server_connections)@
        },
        has_name(old(server_connections)@, connection_name@) ==> exists|can: bool, reason: String|
            answer_acted_on(
                old(server_connections)@,
                final(server_connections)@,
                connection_name@,
                sender,
                can,
                reason,
                outcome,
            ),
        has_name(old(server_connections)@, connection_name@) && T::obeys_admits() ==> exists|
            i: int,
            reason: String,
        |
            0 <= i < old(server_connections)@.len() && old(server_connections)@[i].0
                == connection_name@ && #[trigger] answer_acted_on(
                old(server_connections)@,
                final(server_connections)@,
                connection_name@,
                sender,
                old(message).admits(old(server_connections)@[i].1),
                reason,
                outcome,
            ),
{
    let (can, reason) = match server_connections.get(connection_name) {
        None => {
            return ServerAuthenticationOutcome::UnknownConnection;
        },
        Some(connection) => {
            let (can, reason) = message.authenticate(connection);
            (can, reason.to_owned())
        },
    };
    authentication_answer_server(server_connections, connection_name, sender, can, reason)
}

/// Whether `outcome`, with the connections going from `before` to `after`, is
/// what acting on the answer `(can, reason)` about `sender` on the connection
/// named `name` gives: a refusal changes nothing and carries the reason; an
/// acceptance records the sender on the main port of that connection, and
/// when there is no such connection nothing changes.
pub open spec fn answer_acted_on(
    before: Seq<(Seq<char>, ServerConnection)>,
    after: Seq<(Seq<char>, ServerConnection)>,
    name: Seq<char>,
    sender: u128,
    can: bool,
    reason: String,
    outcome: ServerAuthenticationOutcome,
) -> bool {
    if !can {
        outcome == ServerAuthenticationOutcome::Refused(reason) && after == before
    } else if has_name(before, name) {
        outcome matches ServerAuthenticationOutcome::Authenticated(o) && client_recorded(
            before,
            after,
            name,
            sender,
            0,
            o,
        )
    } else {
        outcome is UnknownConnection && after == before
    }
}

/// Acting on an answer: an acceptance on a connection that exists leaves the
/// sender known there and answers `Authenticated`; a refusal answers with
/// the message's reason and leaves every connection as it was.
pub proof fn lemma_answer_decides_the_outcome(
    before: Seq<(Seq<char>, ServerConnection)>,
    after: Seq<(Seq<char>, ServerConnection)>,
    name: Seq<char>,
    sender: u128,
    can: bool,
    reason: String,
    outcome: ServerAuthenticationOutcome,
)
    requires
        answer_acted_on(before, after, name, sender, can, reason, outcome),
    ensures
        can && has_name(before, name) ==> {
            &&& outcome is Authenticated
            &&& exists|i: int|
                0 <= i < after.len() && after[i].0 == name
                    && #[trigger] after[i].1.clients_connected@.contains_key(sender)
        },
        !can ==> outcome == ServerAuthenticationOutcome::Refused(reason) && after == before,
{
    if can && has_name(before, name) {
        let o = outcome->Authenticated_0;
        let i = choose|i: int|
            0 <= i < before.len() && #[trigger] before[i].0 == name && {
                let b = before[i].1;
                let a = after[i].1;
                &&& after == before.update(i, (name, a))
                &&& a.connection_name == b.connection_name
                &&& a.connected == b.connected
                &&& b.clients_connected@.contains_key(sender) ==> {
                    &&& o == ClientAuthentication::AlreadyConnected
                    &&& a.clients_connected@ == b.clients_connected@
                }
                &&& !b.clients_connected@.contains_key(sender) ==> {
                    &&& o == (ClientAuthentication::Registered { notify_main_port: 0u32 == 0 })
                    &&& a.clients_connected@.dom() == b.clients_connected@.dom().insert(sender)
                    &&& a.clients_connected@[sender]@ == seq![0u32]
                }
            };
        assert(after[i].0 == name);
        assert(after[i].1.clients_connected@.dom().contains(sender));
    }
}

/// Acts on the answer `(can, reason)` that an authentication message gave
/// about `sender` on the connection named `connection_name`: refused, the
/// reason is handed back and nothing changes; accepted, the sender is
/// recorded on the connection's main port.
pub fn authentication_answer_server(
    server_connections: &mut NetworkConnections<ServerConnection>,
    connection_name: &str,
    sender: u128,
    can: bool,
    reason: String,
) -> (outcome: ServerAuthenticationOutcome)
    ensures
        answer_acted_on(
            old(server_connections)@,
            final(server_connections)@,
            connection_name@,
            sender,
            can,
            reason,
            outcome,
        ),
{
    if !can {
        return ServerAuthenticationOutcome::Refused(reason);
    }
    match server_connections.authenticate_client(connection_name, sender, 0) {
        Some(o) => ServerAuthenticationOutcome::Authenticated(o),
        None => ServerAuthenticationOutcome::UnknownConnection,
    }
}

/// Handles the id that a server sent back to the client on the connection
/// named `connection_name`: the connection stores it. Returns whether there
/// is such a connection.
pub fn authentication_message_client(
    client_connections: &mut NetworkConnections<ClientConnection>,
    connection_name: &str,
    message: &AuthenticatedUuid,
) -> (found: bool)
    ensures
        found == has_name(old(client_connections)@, connection_name@),
        !found ==> final(client_connections)@ == old(client_connections)@,
        found ==> exists|i: int|
            0 <= i < old(client_connections)@.len() && old(client_connections)@[i].0
                == connection_name@ && final(client_connections)@ == old(client_connections)@.update(
                i,
                (
                    connection_name@,
                    ClientConnection { local_uuid: Some(message.0), ..old(client_connections)@[i].1 },
                ),
            ),
{
    client_connections.set_local_uuid(connection_name, message.0)
}

} // verus!
