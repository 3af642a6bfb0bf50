//! Big-endian encoding of 64-bit unsigned integers, as mathematics.

use vstd::prelude::*;

verus! {

/// Number of bytes in the encoding of a 64-bit integer.
pub const U64_WIDTH: usize = 8;

/// The integer whose big-endian encoding is the first eight bytes of `bytes`:
/// byte 0 is the most significant.
pub open spec fn be_u64(bytes: Seq<u8>) -> u64
    recommends
        bytes.len() == U64_WIDTH,
{
    (bytes[0] * 0x0100_0000_0000_0000 + bytes[1] * 0x0001_0000_0000_0000 + bytes[2]
        * 0x0000_0100_0000_0000 + bytes[3] * 0x0000_0001_0000_0000 + bytes[4] * 0x0100_0000
        + bytes[5] * 0x0001_0000 + bytes[6] * 0x0100 + bytes[7]) as u64
}

/// The eight bytes that encode `value` in big-endian order.
pub open spec fn be_bytes(value: u64) -> Seq<u8> {
    seq![
        (value / 0x0100_0000_0000_0000) as u8,
        (value / 0x0001_0000_0000_0000 % 0x100) as u8,
        (value / 0x0000_0100_0000_0000 % 0x100) as u8,
        (value / 0x0000_0001_0000_0000 % 0x100) as u8,
        (value / 0x0100_0000 % 0x100) as u8,
        (value / 0x0001_0000 % 0x100) as u8,
        (value / 0x0100 % 0x100) as u8,
        (value % 0x100) as u8,
    ]
}

/// Encoding a value and reading the bytes back yields the value.
pub proof fn lemma_be_round_trip(value: u64)
    ensures
        be_bytes(value).len() == U64_WIDTH,
        be_u64(be_bytes(value)) == value,
{
    assert(value == (value / 0x0100_0000_0000_0000) as u8 * 0x0100_0000_0000_0000 + (value
        / 0x0001_0000_0000_0000 % 0x100) as u8 * 0x0001_0000_0000_0000 + (value
        / 0x0000_0100_0000_0000 % 0x100) as u8 * 0x0000_0100_0000_0000 + (value
        / 0x0000_0001_0000_0000 % 0x100) as u8 * 0x0000_0001_0000_0000 + (value / 0x0100_0000
        % 0x100) as u8 * 0x0100_0000 + (value / 0x0001_0000 % 0x100) as u8 * 0x0001_0000 + (value
        / 0x0100 % 0x100) as u8 * 0x0100 + (value % 0x100) as u8) by (bit_vector);
}

/// Reading eight bytes and encoding the value yields the same eight bytes:
/// distinct byte strings of that width stand for distinct values.
pub proof fn lemma_be_bytes_of_value(bytes: Seq<u8>)
    requires
        bytes.len() == U64_WIDTH,
    ensures
        be_bytes(be_u64(bytes)) == bytes,
{
    let (b0, b1, b2, b3) = (bytes[0], bytes[1], bytes[2], bytes[3]);
    let (b4, b5, b6, b7) = (bytes[4], bytes[5], bytes[6], bytes[7]);
    let value = be_u64(bytes);
    assert(value == b0 * 0x0100_0000_0000_0000 + b1 * 0x0001_0000_0000_0000 + b2
        * 0x0000_0100_0000_0000 + b3 * 0x0000_0001_0000_0000 + b4 * 0x0100_0000 + b5 * 0x0001_0000
        + b6 * 0x0100 + b7 ==> {
        &&& (value / 0x0100_0000_0000_0000) as u8 == b0
        &&& (value / 0x0001_0000_0000_0000 % 0x100) as u8 == b1
        &&& (value / 0x0000_0100_0000_0000 % 0x100) as u8 == b2
        &&& (value / 0x0000_0001_0000_0000 % 0x100) as u8 == b3
        &&& (value / 0x0100_0000 % 0x100) as u8 == b4
        &&& (value / 0x0001_0000 % 0x100) as u8 == b5
        &&& (value / 0x0100 % 0x100) as u8 == b6
        &&& (value % 0x100) as u8 == b7
    }) by (bit_vector);
    assert(be_bytes(value) =~= bytes);
}

} // verus!
