pub mod client;
pub mod server;

use vstd::prelude::*;
use crate::ports::websocket::server::WebSocketSettingsServer;

verus! {

/// The settings of a WebSocket port, for either side.
pub enum WebsocketSettings {
    Server(WebSocketSettingsServer),
    Client,
}

} // verus!
