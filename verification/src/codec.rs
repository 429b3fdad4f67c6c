//! Four-byte encoding of process ids in the machine's native byte order.
use vstd::endian::{endianness, Endian};
use vstd::prelude::*;

verus! {

/// The value of four bytes read least significant byte first.
pub open spec fn u32_from_le(b: [u8; 4]) -> u32 {
    (b[0] as u32) | (b[1] as u32) << 8 | (b[2] as u32) << 16 | (b[3] as u32) << 24
}

/// The value of four bytes read most significant byte first.
pub open spec fn u32_from_be(b: [u8; 4]) -> u32 {
    (b[3] as u32) | (b[2] as u32) << 8 | (b[1] as u32) << 16 | (b[0] as u32) << 24
}

/// The four bytes of `x`, least significant byte first.
pub open spec fn u32_to_le(x: u32) -> [u8; 4] {
    [(x & 0xff) as u8, ((x >> 8) & 0xff) as u8, ((x >> 16) & 0xff) as u8, ((x >> 24) & 0xff) as u8]
}

/// The four bytes of `x`, most significant byte first.
pub open spec fn u32_to_be(x: u32) -> [u8; 4] {
    [((x >> 24) & 0xff) as u8, ((x >> 16) & 0xff) as u8, ((x >> 8) & 0xff) as u8, (x & 0xff) as u8]
}

/// The value of four bytes in the byte order of the machine that runs the code.
pub open spec fn native_from_bytes(b: [u8; 4]) -> u32 {
    match endianness() {
        Endian::Little => u32_from_le(b),
        Endian::Big => u32_from_be(b),
    }
}

/// The four bytes of `x` in the byte order of the machine that runs the code.
pub open spec fn native_to_bytes(x: u32) -> [u8; 4] {
    match endianness() {
        Endian::Little => u32_to_le(x),
        Endian::Big => u32_to_be(x),
    }
}

/// Calls `u32::from_ne_bytes`, which reads its argument in the machine's byte
/// order (`vstd::endian::endianness`), as its documentation says.
#[verifier::external_body]
pub(crate) fn u32_from_ne_bytes(bytes: [u8; 4]) -> (r: u32)
    ensures
        r == native_from_bytes(bytes),
{
    u32::from_ne_bytes(bytes)
}

/// Calls `u32::to_ne_bytes`, which lays its argument out in the machine's byte
/// order (`vstd::endian::endianness`), as its documentation says.
#[verifier::external_body]
pub(crate) fn u32_to_ne_bytes(x: u32) -> (r: [u8; 4])
    ensures
        r == native_to_bytes(x),
{
    x.to_ne_bytes()
}

/// Decoding the encoding of a value gives the value back, in either byte order.
pub proof fn lemma_value_roundtrip(x: u32)
    ensures
        u32_from_le(u32_to_le(x)) == x,
        u32_from_be(u32_to_be(x)) == x,
        native_from_bytes(native_to_bytes(x)) == x,
{
    let b0 = (x & 0xff) as u8;
    let b1 = ((x >> 8) & 0xff) as u8;
    let b2 = ((x >> 16) & 0xff) as u8;
    let b3 = ((x >> 24) & 0xff) as u8;
    assert((b0 as u32) | (b1 as u32) << 8 | (b2 as u32) << 16 | (b3 as u32) << 24 == x) by (bit_vector)
        requires
            b0 == (x & 0xff) as u8,
            b1 == ((x >> 8) & 0xff) as u8,
            b2 == ((x >> 16) & 0xff) as u8,
            b3 == ((x >> 24) & 0xff) as u8,
    ;
}

/// Encoding the value of four bytes gives the same four bytes, in either byte order.
pub proof fn lemma_bytes_roundtrip(b: [u8; 4])
    ensures
        u32_to_le(u32_from_le(b)) == b,
        u32_to_be(u32_from_be(b)) == b,
        native_to_bytes(native_from_bytes(b)) == b,
{
    let (b0, b1, b2, b3) = (b[0], b[1], b[2], b[3]);
    let x = u32_from_le(b);
    assert(x == (b0 as u32) | (b1 as u32) << 8 | (b2 as u32) << 16 | (b3 as u32) << 24);
    assert((x & 0xff) as u8 == b0 && ((x >> 8) & 0xff) as u8 == b1 && ((x >> 16) & 0xff) as u8
        == b2 && ((x >> 24) & 0xff) as u8 == b3) by (bit_vector)
        requires
            x == (b0 as u32) | (b1 as u32) << 8 | (b2 as u32) << 16 | (b3 as u32) << 24,
    ;
    assert(u32_to_le(x) =~= b);
    let y = u32_from_be(b);
    assert(y == (b3 as u32) | (b2 as u32) << 8 | (b1 as u32) << 16 | (b0 as u32) << 24);
    assert((y & 0xff) as u8 == b3 && ((y >> 8) & 0xff) as u8 == b2 && ((y >> 16) & 0xff) as u8
        == b1 && ((y >> 24) & 0xff) as u8 == b0) by (bit_vector)
        requires
            y == (b3 as u32) | (b2 as u32) << 8 | (b1 as u32) << 16 | (b0 as u32) << 24,
    ;
    assert(u32_to_be(y) =~= b);
}

} // verus!
