pub mod client;
pub mod reader_writer;
pub mod server;

use vstd::prelude::*;
use crate::ports::tcp::client::TcpSettingsClient;
use crate::ports::tcp::server::TcpSettingsServer;

verus! {

/// The settings of a TCP port, for either side.
pub enum TcpSettings {
    Server(TcpSettingsServer),
    Client(TcpSettingsClient),
}

} // verus!
