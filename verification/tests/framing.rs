use leech_hal::frame::{decode_le, le_byte_at, read_frame, write_frame};

#[test]
fn read_frame_is_byte_exact() {
    // 0x800 >> 2 == 0x200: low byte 0x00, high byte 0x02.
    let f = read_frame(0x800);
    assert_eq!(f, vec![0x03, 0x00, 0x02, 0x00, 0xcc, 0xcc, 0xcc, 0xcc]);
}

#[test]
fn read_frame_truncates_to_sixteen_index_bits() {
    // (0xFFFF_FFFC >> 2) == 0x3FFF_FFFF; only its low sixteen bits travel.
    let f = read_frame(0xFFFF_FFFC);
    assert_eq!(f, vec![0x03, 0xFF, 0xFF, 0x00, 0xcc, 0xcc, 0xcc, 0xcc]);
}

#[test]
fn write_frame_is_byte_exact() {
    // 0x804 >> 2 == 0x201; value bytes travel little-endian.
    let f = write_frame(0x804, 0xDEAD_BEEF);
    assert_eq!(f, vec![0x02, 0x01, 0x02, 0xEF, 0xBE, 0xAD, 0xDE]);
}

#[test]
fn unaligned_address_hits_the_containing_word() {
    // 0x803 is not word-aligned; it is silently truncated to word 0x200.
    assert_eq!(read_frame(0x803), read_frame(0x800));
}

#[test]
fn le_bytes_round_trip() {
    let v: u32 = 0xDEAD_BEEF;
    let b0 = le_byte_at(v, 0);
    let b1 = le_byte_at(v, 1);
    let b2 = le_byte_at(v, 2);
    let b3 = le_byte_at(v, 3);
    assert_eq!((b0, b1, b2, b3), (0xEF, 0xBE, 0xAD, 0xDE));
    assert_eq!(decode_le(b0, b1, b2, b3), v);
}
