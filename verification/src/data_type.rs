//! The CIP elementary data type identifiers.

use vstd::prelude::*;

verus! {

/// A CIP elementary data type code.
#[derive(Clone, Copy, Debug, PartialEq, Eq, Structural)]
pub struct DataType(pub u8);

impl Default for DataType {
    fn default() -> (r: Self)
        ensures
            r.0 == 0,
    {
        DataType(0)
    }
}

/// Boolean.
pub const BOOL: u8 = 0xc1;

/// Signed 8 bit integer.
pub const SINT: u8 = 0xc2;

/// Signed 16 bit integer.
pub const INT: u8 = 0xc3;

/// Signed 32 bit integer.
pub const DINT: u8 = 0xc4;

/// Signed 64 bit integer.
pub const LINT: u8 = 0xc5;

/// Unsigned 8 bit integer.
pub const USINT: u8 = 0xc6;

/// Unsigned 16 bit integer.
pub const UINT: u8 = 0xc7;

/// Unsigned 32 bit integer.
pub const UDINT: u8 = 0xc8;

/// Unsigned 64 bit integer.
pub const ULINT: u8 = 0xc9;

/// 32 bit float.
pub const REAL: u8 = 0xca;

/// 64 bit float.
pub const LREAL: u8 = 0xcb;

/// Bit string, 8 bits.
pub const BYTE: u8 = 0xd1;

/// Bit string, 16 bits.
pub const WORD: u8 = 0xd2;

/// Bit string, 32 bits.
pub const DWORD: u8 = 0xd3;

/// Bit string, 64 bits.
pub const LWORD: u8 = 0xd4;

/// Character string, 1 byte characters, 1 byte length.
pub const SHORT_STRING: u8 = 0xda;

/// Path segments.
pub const EPATH: u8 = 0xdc;

} // verus!
