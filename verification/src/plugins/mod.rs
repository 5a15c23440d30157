pub mod authentication;
pub mod connection;
pub mod messaging;

use vstd::prelude::*;

verus! {

/// Byte order of the size prefix that frames every message on a stream port.
#[derive(PartialEq, Eq, Structural, Debug, Clone, Copy)]
pub enum OrderOptions {
    LittleEndian,
    BigEndian,
}

/// Number type of the size prefix that frames every message on a stream port.
#[derive(PartialEq, Eq, Structural, Debug, Clone, Copy)]
pub enum BytesOptions {
    U8,
    U16,
    U32,
    U64,
    U128,
    I8,
    I16,
    I32,
    I64,
    I128,
    F32,
    F64,
}

} // verus!
