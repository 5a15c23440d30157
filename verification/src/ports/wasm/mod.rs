use vstd::prelude::*;
use crate::ports::websocket_wasm::client::WasmSettingsClient;

verus! {

/// The settings of a browser WebSocket port.
pub enum WasmSettings {
    Client(WasmSettingsClient),
}

} // verus!
