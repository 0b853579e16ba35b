//! The layout of the keys, byte for byte.

use vnode_store::codec::{
    build_key, build_log_key, build_log_prefix, decode_log_key, user_key, LOG_KEY_LEN,
    LOG_PREFIX_LEN, NAMESPACE_LEN,
};

#[test]
fn main_key_is_the_namespace_id_then_the_user_key() {
    assert_eq!(build_key(1, b"sample"), b"\x00\x01sample".to_vec());
    assert_eq!(build_key(0x1234, b"k"), vec![0x12, 0x34, b'k']);
    assert_eq!(build_key(0, b""), vec![0, 0]);
    assert_eq!(build_key(u16::MAX, b"\x00"), vec![0xff, 0xff, 0]);
    assert_eq!(build_key(256, b""), vec![1, 0]);
    assert_eq!(build_key(255, b""), vec![0, 255]);
}

#[test]
fn log_key_is_the_namespace_id_then_group_then_sequence_number() {
    assert_eq!(
        build_log_key(1, (1, 1)),
        vec![0, 1, 0, 0, 0, 0, 0, 0, 0, 1, 0, 0, 0, 0, 0, 0, 0, 1]
    );
    assert_eq!(
        build_log_key(0x0102, (0x0304_0506_0708_090a, 0x0b0c_0d0e_0f10_1112)),
        vec![1, 2, 3, 4, 5, 6, 7, 8, 9, 10, 11, 12, 13, 14, 15, 16, 17, 18]
    );
    assert_eq!(build_log_key(0, (0, 0)), vec![0u8; 18]);
    assert_eq!(build_log_key(u16::MAX, (u64::MAX, u64::MAX)), vec![0xffu8; 18]);
}

#[test]
fn log_prefix_is_the_first_ten_bytes_of_the_log_key() {
    assert_eq!(build_log_prefix(1, 2), vec![0, 1, 0, 0, 0, 0, 0, 0, 0, 2]);
    assert_eq!(
        build_log_prefix(0xabcd, 0x0123_4567_89ab_cdef),
        vec![0xab, 0xcd, 0x01, 0x23, 0x45, 0x67, 0x89, 0xab, 0xcd, 0xef]
    );
    for (num, prefix, seq) in [(0u16, 0u64, 0u64), (7, 8, 9), (u16::MAX, u64::MAX, 1)] {
        assert_eq!(build_log_key(num, (prefix, seq))[..10], build_log_prefix(num, prefix)[..]);
    }
}

#[test]
fn lengths_are_two_ten_and_eighteen() {
    assert_eq!(NAMESPACE_LEN, 2);
    assert_eq!(LOG_PREFIX_LEN, 10);
    assert_eq!(LOG_KEY_LEN, 18);
    assert_eq!(build_key(5, b"abc").len(), 5);
    assert_eq!(build_log_prefix(5, 6).len(), 10);
    assert_eq!(build_log_key(5, (6, 7)).len(), 18);
}

#[test]
fn decoding_a_log_key_gives_back_the_position() {
    for position in [
        (0u64, 0u64),
        (1, 1),
        (1, 256),
        (0x0102_0304_0506_0708, 0x1112_1314_1516_1718),
        (u64::MAX, 0),
        (0, u64::MAX),
        (u64::MAX, u64::MAX),
    ] {
        for num in [0u16, 1, 0x0100, u16::MAX] {
            assert_eq!(decode_log_key(&build_log_key(num, position)), position);
        }
    }
    assert_eq!(
        decode_log_key(&[9, 9, 0, 0, 0, 0, 0, 0, 1, 0, 0x80, 0, 0, 0, 0, 0, 0, 1]),
        (256, 0x8000_0000_0000_0001)
    );
}

#[test]
fn user_key_is_what_follows_the_namespace_id() {
    assert_eq!(user_key(b"\x00\x01sample"), b"sample");
    assert_eq!(user_key(&[0, 1]), b"");
    let key = build_key(77, b"\x00\xffk");
    assert_eq!(user_key(&key), b"\x00\xffk");
}

#[test]
fn byte_order_of_log_keys_is_the_order_of_their_positions() {
    let positions = [
        (0u64, 0u64),
        (0, 1),
        (0, 255),
        (0, 256),
        (0, u64::MAX),
        (1, 0),
        (1, 2),
        (255, 7),
        (256, 0),
        (u64::MAX, 0),
        (u64::MAX, u64::MAX),
    ];
    for a in positions {
        for b in positions {
            assert_eq!(build_log_key(3, a) < build_log_key(3, b), a < b);
            assert_eq!(build_log_key(3, a) == build_log_key(3, b), a == b);
        }
    }
}

#[test]
fn keys_of_different_namespaces_differ() {
    for m in [0u16, 1, 255, 256, u16::MAX] {
        for n in [0u16, 1, 255, 256, u16::MAX] {
            assert_eq!(build_key(m, b"k") == build_key(n, b"k"), m == n);
            assert_eq!(build_key(m, b"") < build_key(n, b""), m < n);
        }
    }
    assert!(build_key(1, b"\xff\xff\xff") < build_key(2, b""));
}
