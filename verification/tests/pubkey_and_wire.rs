use ledger_core::pubkey::{Pubkey, PUBKEY_BYTES};
use ledger_core::wire::{push_u32_le, read_u32_le, read_u64_le, write_bytes, write_u64_le};

#[test]
fn pubkey_equality_is_by_bytes() {
    let a = Pubkey::new_from_array([7u8; 32]);
    let b = Pubkey::new(&[7u8; 32]);
    let mut other = [7u8; 32];
    other[31] = 8;
    let c = Pubkey::new_from_array(other);
    assert!(a == b);
    assert!(a != c);
    assert_eq!(PUBKEY_BYTES, 32);
}

#[test]
fn pubkey_keeps_its_bytes() {
    let mut bytes = [0u8; 32];
    for (i, b) in bytes.iter_mut().enumerate() {
        *b = i as u8;
    }
    assert_eq!(Pubkey::new(&bytes).to_bytes(), bytes);
    assert_eq!(Pubkey::new_from_array(bytes).bytes, bytes);
}

#[test]
fn u64_is_read_little_endian() {
    let src = [9u8, 0xf4, 0x01, 0, 0, 0, 0, 0, 0, 9];
    assert_eq!(read_u64_le(&src, 1), 500);
    let src = [0x08u8, 0x07, 0x06, 0x05, 0x04, 0x03, 0x02, 0x01];
    assert_eq!(read_u64_le(&src, 0), 0x0102_0304_0506_0708);
    assert_eq!(read_u64_le(&[0xff; 8], 0), u64::MAX);
}

#[test]
fn u64_is_written_little_endian() {
    let mut dst = [0xaau8; 10];
    write_u64_le(&mut dst, 1, 0x0102_0304_0506_0708);
    assert_eq!(dst, [0xaa, 0x08, 0x07, 0x06, 0x05, 0x04, 0x03, 0x02, 0x01, 0xaa]);
    write_u64_le(&mut dst, 2, 500);
    assert_eq!(dst, [0xaa, 0x08, 0xf4, 0x01, 0, 0, 0, 0, 0, 0]);
}

#[test]
fn u64_round_trips_like_std() {
    for x in [0u64, 1, 255, 256, 500, 65_535, 1 << 32, u64::MAX - 1, u64::MAX] {
        let mut dst = [0u8; 8];
        write_u64_le(&mut dst, 0, x);
        assert_eq!(dst, x.to_le_bytes());
        assert_eq!(read_u64_le(&dst, 0), x);
    }
}

#[test]
fn u32_round_trips_like_std() {
    for x in [0u32, 1, 255, 256, 70_000, u32::MAX] {
        let mut out = vec![1u8];
        push_u32_le(&mut out, x);
        assert_eq!(out[0], 1);
        assert_eq!(&out[1..], &x.to_le_bytes()[..]);
        assert_eq!(read_u32_le(&out, 1), x);
    }
}

#[test]
fn write_bytes_touches_only_its_range() {
    let mut dst = [1u8, 2, 3, 4, 5, 6];
    write_bytes(&mut dst, 2, &[9, 8, 7]);
    assert_eq!(dst, [1, 2, 9, 8, 7, 6]);
    write_bytes(&mut dst, 6, &[]);
    assert_eq!(dst, [1, 2, 9, 8, 7, 6]);
}
