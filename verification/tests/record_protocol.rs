//! Direct checks of the shared record protocol and the byte codec.

use ncn_matcher::codec::{
    read_u128_at, read_u32_at, read_u64_at, write_u128_at, write_u32_at, write_u64_at,
};
use ncn_matcher::record::{
    compute_exec_price, read_lp_pda, verify_magic, write_exec_price, write_header, AccountMeta,
    CTX_SIZE,
};

#[test]
fn test_codec_round_trip() {
    let mut buf = vec![0u8; 64];
    write_u32_at(&mut buf, 3, 0xDEAD_BEEF);
    assert_eq!(read_u32_at(&buf, 3), 0xDEAD_BEEF);
    write_u64_at(&mut buf, 10, u64::MAX - 17);
    assert_eq!(read_u64_at(&buf, 10), u64::MAX - 17);
    write_u128_at(&mut buf, 20, 123_456_789_012_345_678_901_234_567u128);
    assert_eq!(read_u128_at(&buf, 20), 123_456_789_012_345_678_901_234_567u128);
    assert_eq!(read_u32_at(&buf, 3), 0xDEAD_BEEF);
    assert_eq!(buf[0], 0);
}

#[test]
fn test_write_header_round_trip() {
    let mut buf = vec![0xAAu8; CTX_SIZE];
    let lp_key = [21u8; 32];
    write_header(&mut buf, 0x1234_5678_9ABC_DEF0, 1, &lp_key);
    assert!(verify_magic(&buf, 0x1234_5678_9ABC_DEF0));
    assert!(!verify_magic(&buf, 0x1234_5678_9ABC_DEF1));
    assert_eq!(read_lp_pda(&buf), lp_key.to_vec());
    assert_eq!(buf[76], 1);
    assert_eq!(buf[112], 0xAA);
}

#[test]
fn test_verify_magic_needs_exact_size() {
    let short = vec![0u8; CTX_SIZE - 1];
    assert!(!verify_magic(&short, 0));
}

#[test]
fn test_compute_exec_price() {
    assert_eq!(compute_exec_price(800_000_000, 50), Some(804_000_000));
    assert_eq!(compute_exec_price(0, 100), Some(0));
    assert_eq!(compute_exec_price(u64::MAX, 0), Some(u64::MAX));
    assert_eq!(compute_exec_price(u64::MAX, 1), None);
}

#[test]
fn test_write_exec_price_touches_only_return_region() {
    let mut buf = vec![0x55u8; CTX_SIZE];
    write_exec_price(&mut buf, 42);
    assert_eq!(read_u64_at(&buf, 0), 42);
    assert_eq!(buf[8], 0x55);
    assert_eq!(buf[319], 0x55);
}

#[test]
fn test_account_meta_fields() {
    let meta = AccountMeta { key: [9u8; 32], is_signer: true, is_writable: false };
    assert_eq!(meta.key, [9u8; 32]);
    assert!(meta.is_signer);
    assert!(!meta.is_writable);
}
