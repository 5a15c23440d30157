use std::collections::HashMap;
use vstd::prelude::*;
use crate::NetworkSide;
use crate::ports::PortTypes;

verus! {

broadcast use vstd::std_specs::hash::group_hash_axioms;

/// What a message type must be to cross threads: every sendable, shareable,
/// long-lived type is one.
pub trait MessageSideTrait {}

impl<T: Send + Sync + 'static> MessageSideTrait for T {}

/// A message that can travel over a connection.
pub trait MessageTrait: MessageSideTrait {
    /// Whether a server accepts this message from a client that has not
    /// authenticated yet. Unless a message type says otherwise, none is.
    fn as_authentication(&self) -> (is_authentication: bool)
        default_ensures
            !is_authentication,
    {
        false
    }
}

/// The plugin that reads the messages of every connection each frame.
pub struct MessagingPlugin {
    pub network_side: NetworkSide,
}

/// The reader system that a messaging plugin schedules.
#[derive(PartialEq, Eq, Structural, Debug, Clone, Copy)]
pub enum MessageReaderSystem {
    ReadMessagesClient,
    ReadMessagesServer,
}

impl MessagingPlugin {
    /// A client reads what its servers sent; every other side reads what its
    /// clients sent.
    pub fn reader_system(&self) -> (system: MessageReaderSystem)
        ensures
            system == (if self.network_side == NetworkSide::Client {
                MessageReaderSystem::ReadMessagesClient
            } else {
                MessageReaderSystem::ReadMessagesServer
            }),
    {
        if self.network_side == NetworkSide::Client {
            MessageReaderSystem::ReadMessagesClient
        } else {
            MessageReaderSystem::ReadMessagesServer
        }
    }
}

/// The envelope of every message on the wire: the registered id of its type
/// and its encoded body.
pub struct MessageInfos {
    pub message_id: u32,
    pub message: Vec<u8>,
}

/// A message that a client received from a server.
pub struct MessageReceivedFromServer<T: MessageTrait> {
    pub message: T,
    pub port_type: PortTypes,
    pub connection_name: &'static str,
    pub port_number: u32,
}

/// A message that a server received from a client; `sender` is the client's id.
pub struct MessageReceivedFromClient<T: MessageTrait> {
    pub message: T,
    pub port_type: PortTypes,
    pub sender: Option<u128>,
    pub connection_name: &'static str,
    pub port_number: u32,
}

/// The message types known to this process, each under the id it was
/// registered with. Ids are handed out in order from 1: the registered ids are
/// exactly `1..=last_id`.
pub struct MessagesRegistry<F> {
    last_id: u32,
    functions: HashMap<u32, F>,
}

impl<F> MessagesRegistry<F> {
    /// The registry's invariant: the registered ids are exactly `1..=last_id`.
    #[verifier::type_invariant]
    pub closed spec fn well_formed(&self) -> bool {
        forall|id: u32| #[trigger] self.functions@.contains_key(id) <==> 1 <= id <= self.last_id
    }

    /// The last id handed out; `0` before any registration.
    pub closed spec fn spec_last_id(&self) -> u32 {
        self.last_id
    }

    /// The registered message types by id.
    pub closed spec fn spec_functions(&self) -> Map<u32, F> {
        self.functions@
    }

    /// An id is registered exactly when it lies in `1..=last_id`.
    pub proof fn lemma_registered_ids(&self, id: u32)
        requires
            self.well_formed(),
        ensures
            self.spec_functions().contains_key(id) <==> 1 <= id <= self.spec_last_id(),
    {
    }

    pub fn new() -> (registry: Self)
        ensures
            registry.well_formed(),
            registry.spec_last_id() == 0,
            registry.spec_functions() == Map::<u32, F>::empty(),
    {
        MessagesRegistry { last_id: 0, functions: HashMap::new() }
    }

    pub fn last_id(&self) -> (id: u32)
        ensures
            id == self.spec_last_id(),
    {
        self.last_id
    }

    /// Registers a message type under the next id, and returns that id.
    pub fn register(&mut self, functions: F) -> (id: u32)
        requires
            old(self).spec_last_id() < u32::MAX,
        ensures
            final(self).well_formed(),
            id == old(self).spec_last_id() + 1,
            !old(self).spec_functions().contains_key(id),
            final(self).spec_last_id() == id,
            final(self).spec_functions() == old(self).spec_functions().insert(id, functions),
    {
        proof {
            use_type_invariant(&*self);
        }
        let mut registry = MessagesRegistry::new();
        std::mem::swap(&mut registry, self);
        let MessagesRegistry { last_id, functions: mut table } = registry;
        let id = last_id + 1;
        table.insert(id, functions);
        assert(table@ == old(self).spec_functions().insert(id, functions));
        *self = MessagesRegistry { last_id: id, functions: table };
        id
    }

    /// The message type registered under `id`, if any.
    pub fn get(&self, id: u32) -> (functions: Option<&F>)
        ensures
            functions == (if self.spec_functions().contains_key(id) {
                Some(&self.spec_functions()[id])
            } else {
                None
            }),
    {
        self.functions.get(&id)
    }
}

/// One item in the arguments of a `#[connection_message(..)]` attribute.
pub enum ConnectionMessageMeta {
    /// A `name = value` item: whether the name is `authentication`, and the
    /// value when it is a boolean literal.
    NameValue { is_authentication_key: bool, bool_value: Option<bool> },
    /// Any other item.
    Other,
}

/// An attribute on a type that derives `ConnectionMessage`: whether it is a
/// `connection_message` attribute, and its items when its arguments parse as
/// a comma-separated list.
pub struct MessageAttribute {
    pub is_connection_message: bool,
    pub items: Option<Vec<ConnectionMessageMeta>>,
}

/// The flag after reading `items` from left to right, starting at `flag`:
/// each `authentication = <bool>` sets it.
pub open spec fn flag_after_items(flag: bool, items: Seq<ConnectionMessageMeta>) -> bool
    decreases items.len(),
{
    if items.len() == 0 {
        flag
    } else {
        let before = flag_after_items(flag, items.drop_last());
        match items.last() {
            ConnectionMessageMeta::NameValue { is_authentication_key: true, bool_value: Some(b) } => b,
            _ => before,
        }
    }
}

/// Whether a derived message type is an authentication message: the last
/// `authentication = <bool>` among the parsed `connection_message` attributes
/// decides, and a type without one is not.
pub open spec fn spec_derive_message(attributes: Seq<MessageAttribute>) -> bool
    decreases attributes.len(),
{
    if attributes.len() == 0 {
        false
    } else {
        let before = spec_derive_message(attributes.drop_last());
        let attribute = attributes.last();
        match attribute.items {
            Some(items) => if attribute.is_connection_message {
                flag_after_items(before, items@)
            } else {
                before
            },
            None => before,
        }
    }
}

/// What the derived `as_authentication` of a message type returns, read from
/// the attributes on the type.
pub fn derive_message(attributes: &Vec<MessageAttribute>) -> (is_authentication: bool)
    ensures
        is_authentication == spec_derive_message(attributes@),
{
    let mut is_authentication = false;
    let mut i: usize = 0;
    while i < attributes.len()
        invariant
            i <= attributes@.len(),
            is_authentication == spec_derive_message(attributes@.take(i as int)),
        decreases attributes@.len() - i,
    {
        let attribute = &attributes[i];
        let ghost before = is_authentication;
        assert(attributes@.take(i + 1).drop_last() =~= attributes@.take(i as int));
        assert(attributes@.take(i + 1).last() == attributes@[i as int]);
        if attribute.is_connection_message {
            if let Some(items) = &attribute.items {
                let mut j: usize = 0;
                while j < items.len()
                    invariant
                        j <= items@.len(),
                        is_authentication == flag_after_items(before, items@.take(j as int)),
                    decreases items@.len() - j,
                {
                    assert(items@.take(j + 1).drop_last() =~= items@.take(j as int));
                    assert(items@.take(j + 1).last() == items@[j as int]);
                    match &items[j] {
                        ConnectionMessageMeta::NameValue { is_authentication_key, bool_value } => {
                            if *is_authentication_key {
                                if let Some(b) = bool_value {
                                    is_authentication = *b;
                                }
                            }
                        },
                        ConnectionMessageMeta::Other => {},
                    }
                    j = j + 1;
                }
                assert(items@.take(items@.len() as int) =~= items@);
            }
        }
        i = i + 1;
    }
    assert(attributes@.take(attributes@.len() as int) =~= attributes@);
    is_authentication
}

} // verus!
