//! Byte order of multi-byte scalars in memory.

use vstd::prelude::*;

verus! {

/// Order in which the bytes of a multi-byte scalar follow each other in memory.
#[derive(Clone, Copy, Debug, PartialEq, Eq, Structural)]
pub enum ByteOrder {
    /// Least significant byte first.
    LittleEndian,
    /// Most significant byte first.
    BigEndian,
}

/// The two bytes of a 16-bit value, laid out in `order`.
pub open spec fn bytes_of_u16(value: u16, order: ByteOrder) -> Seq<u8> {
    let low = (value % 256) as u8;
    let high = (value / 256) as u8;
    match order {
        ByteOrder::LittleEndian => seq![low, high],
        ByteOrder::BigEndian => seq![high, low],
    }
}

/// The four bytes of a 32-bit value, laid out in `order`.
pub open spec fn bytes_of_u32(value: u32, order: ByteOrder) -> Seq<u8> {
    let b0 = (value % 256) as u8;
    let b1 = (value / 256 % 256) as u8;
    let b2 = (value / 65536 % 256) as u8;
    let b3 = (value / 16777216) as u8;
    match order {
        ByteOrder::LittleEndian => seq![b0, b1, b2, b3],
        ByteOrder::BigEndian => seq![b3, b2, b1, b0],
    }
}

/// Calls `u16::to_ne_bytes`, which returns the memory representation of the
/// value in the byte order of the machine the program runs on. The contract
/// claims only that this is one of the two orders that `ByteOrder` names; which
/// one is left open, since it differs between machines.
#[verifier::external_body]
fn native_bytes(value: u16) -> (bytes: [u8; 2])
    ensures
        bytes@ == bytes_of_u16(value, ByteOrder::LittleEndian) || bytes@ == bytes_of_u16(
            value,
            ByteOrder::BigEndian,
        ),
{
    value.to_ne_bytes()
}

impl ByteOrder {
    /// The byte order under which `layout` is the memory representation of
    /// the 16-bit value one: little-endian exactly when the low byte, the one
    /// that holds the one, comes first.
    pub fn of_one(layout: [u8; 2]) -> (order: ByteOrder)
        ensures
            order == if layout@[0] == 1 {
                ByteOrder::LittleEndian
            } else {
                ByteOrder::BigEndian
            },
    {
        if layout[0] == 1 {
            ByteOrder::LittleEndian
        } else {
            ByteOrder::BigEndian
        }
    }

    /// The byte order of the machine the program runs on.
    pub(crate) fn native() -> (order: ByteOrder) {
        Self::of_one(native_bytes(1))
    }
}

} // verus!
