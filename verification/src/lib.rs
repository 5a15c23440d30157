pub mod plugins;
pub mod ports;

use vstd::prelude::*;

verus! {

/// Which end of a connection this process plays.
#[derive(PartialEq, Eq, Structural, Clone, Copy, Debug)]
pub enum NetworkSide {
    Server,
    Client,
}

impl NetworkSide {
    /// The one-byte code of the side: `0` for the server, `1` for the client.
    pub open spec fn spec_code(self) -> u8 {
        match self {
            NetworkSide::Server => 0,
            NetworkSide::Client => 1,
        }
    }

    pub fn as_u8(self) -> (code: u8)
        ensures
            code == self.spec_code(),
    {
        match self {
            NetworkSide::Server => 0,
            NetworkSide::Client => 1,
        }
    }

    /// Decodes a side: `1` is the client, every other byte the server.
    pub open spec fn spec_from_code(v: u8) -> NetworkSide {
        if v == 1 {
            NetworkSide::Client
        } else {
            NetworkSide::Server
        }
    }

    pub fn from_u8(v: u8) -> (side: NetworkSide)
        ensures
            side == Self::spec_from_code(v),
    {
        match v {
            1 => NetworkSide::Client,
            _ => NetworkSide::Server,
        }
    }
}

impl Default for NetworkSide {
    /// A process is a server unless told otherwise.
    fn default() -> (side: Self)
        ensures
            side == NetworkSide::Server,
    {
        NetworkSide::Server
    }
}

/// Decoding the code of a side gives the side back.
pub proof fn lemma_side_code_roundtrip(side: NetworkSide)
    ensures
        NetworkSide::spec_from_code(side.spec_code()) == side,
{
}

/// Encoding a decoded byte gives the byte back exactly when it is the code of
/// a side, `0` or `1`.
pub proof fn lemma_code_side_roundtrip(v: u8)
    ensures
        (NetworkSide::spec_from_code(v).spec_code() == v) <==> v <= 1,
{
}

} // verus!
