//! Byte-exact framing of serial-bus transactions.
//!
//! A read transaction clocks out `[0x03, addr_lo, addr_hi, 0x00]` followed by
//! four filler bytes while the four little-endian response bytes are clocked
//! in; a write transaction clocks out `[0x02, addr_lo, addr_hi, v0, v1, v2,
//! v3]`. `addr_lo`/`addr_hi` are the little-endian bytes of the byte address
//! shifted right by two (the target addresses 32-bit words) truncated to
//! sixteen bits.

use vstd::prelude::*;

verus! {

/// Opcode byte that opens a read transaction frame.
pub const READ_OPCODE: u8 = 0x03;

/// Opcode byte that opens a write transaction frame.
pub const WRITE_OPCODE: u8 = 0x02;

/// Filler byte clocked out while the response bytes are clocked in.
pub const RESPONSE_FILL: u8 = 0xcc;

/// The word index a byte address denotes on the wire: shifted right by two
/// and truncated to the sixteen bits that fit in the frame.
pub open spec fn word_index(address: u32) -> u32 {
    (address >> 2) & 0xffff
}

/// Low byte of the transmitted word index.
pub open spec fn addr_lo(address: u32) -> u8 {
    ((address >> 2) & 0xff) as u8
}

/// High byte of the transmitted word index.
pub open spec fn addr_hi(address: u32) -> u8 {
    (((address >> 2) >> 8) & 0xff) as u8
}

/// A 32-bit value reassembled from four little-endian bytes.
pub open spec fn u32_from_le(b0: u8, b1: u8, b2: u8, b3: u8) -> u32 {
    (b0 as u32) | ((b1 as u32) << 8) | ((b2 as u32) << 16) | ((b3 as u32) << 24)
}

/// Byte `i` (0 through 3) of `value` in little-endian order.
pub open spec fn le_byte(value: u32, i: int) -> u8 {
    ((value >> (8 * i)) & 0xff) as u8
}

/// The eight bytes clocked out during a read transaction.
pub open spec fn spec_read_frame(address: u32) -> Seq<u8> {
    seq![
        READ_OPCODE,
        addr_lo(address),
        addr_hi(address),
        0x00,
        RESPONSE_FILL,
        RESPONSE_FILL,
        RESPONSE_FILL,
        RESPONSE_FILL,
    ]
}

/// The seven bytes clocked out during a write transaction.
pub open spec fn spec_write_frame(address: u32, value: u32) -> Seq<u8> {
    seq![
        WRITE_OPCODE,
        addr_lo(address),
        addr_hi(address),
        le_byte(value, 0),
        le_byte(value, 1),
        le_byte(value, 2),
        le_byte(value, 3),
    ]
}

/// Recombining the two transmitted address bytes yields the word index.
pub proof fn lemma_addr_bytes_recompose(address: u32)
    ensures
        (addr_lo(address) as u32) | ((addr_hi(address) as u32) << 8) == word_index(address),
{
    assert((((address >> 2) & 0xff) as u8 as u32) | (((((address >> 2) >> 8) & 0xff) as u8 as u32)
        << 8) == (address >> 2) & 0xffff) by (bit_vector);
}

/// Splitting a value into little-endian bytes and reassembling them is the
/// identity.
pub proof fn lemma_le_round_trip(value: u32)
    ensures
        u32_from_le(le_byte(value, 0), le_byte(value, 1), le_byte(value, 2), le_byte(value, 3))
            == value,
{
    assert((((value >> 0) & 0xff) as u8 as u32) | ((((value >> 8) & 0xff) as u8 as u32) << 8) | ((((
    value >> 16) & 0xff) as u8 as u32) << 16) | ((((value >> 24) & 0xff) as u8 as u32) << 24)
        == value) by (bit_vector);
}

/// Builds the read transaction frame for `address`.
pub fn read_frame(address: u32) -> (f: Vec<u8>)
    ensures
        f@ == spec_read_frame(address),
{
    let w: u32 = address >> 2;
    assert(w & 0xff < 256 && (w >> 8) & 0xff < 256) by (bit_vector);
    let lo: u8 = (w & 0xff) as u8;
    let hi: u8 = ((w >> 8) & 0xff) as u8;
    let mut f: Vec<u8> = Vec::new();
    f.push(READ_OPCODE);
    f.push(lo);
    f.push(hi);
    f.push(0x00);
    f.push(RESPONSE_FILL);
    f.push(RESPONSE_FILL);
    f.push(RESPONSE_FILL);
    f.push(RESPONSE_FILL);
    proof {
        assert(f@ =~= spec_read_frame(address));
    }
    f
}

/// Builds the write transaction frame for `address` and `value`.
pub fn write_frame(address: u32, value: u32) -> (f: Vec<u8>)
    ensures
        f@ == spec_write_frame(address, value),
{
    let w: u32 = address >> 2;
    assert(w & 0xff < 256 && (w >> 8) & 0xff < 256) by (bit_vector);
    let lo: u8 = (w & 0xff) as u8;
    let hi: u8 = ((w >> 8) & 0xff) as u8;
    let b0: u8 = le_byte_at(value, 0);
    let b1: u8 = le_byte_at(value, 1);
    let b2: u8 = le_byte_at(value, 2);
    let b3: u8 = le_byte_at(value, 3);
    let mut f: Vec<u8> = Vec::new();
    f.push(WRITE_OPCODE);
    f.push(lo);
    f.push(hi);
    f.push(b0);
    f.push(b1);
    f.push(b2);
    f.push(b3);
    proof {
        assert(f@ =~= spec_write_frame(address, value));
    }
    f
}

/// Extracts byte `i` (0 through 3) of `value` in little-endian order.
pub fn le_byte_at(value: u32, i: u32) -> (b: u8)
    requires
        i < 4,
    ensures
        b == le_byte(value, i as int),
{
    let shifted: u32 = value >> (8 * i);
    assert(shifted & 0xff < 256) by (bit_vector);
    (shifted & 0xff) as u8
}

/// Reassembles a 32-bit value from four little-endian bytes.
pub fn decode_le(b0: u8, b1: u8, b2: u8, b3: u8) -> (v: u32)
    ensures
        v == u32_from_le(b0, b1, b2, b3),
{
    (b0 as u32) | ((b1 as u32) << 8) | ((b2 as u32) << 16) | ((b3 as u32) << 24)
}

} // verus!
