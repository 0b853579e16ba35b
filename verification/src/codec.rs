//! The layout of the keys that a namespace stores in the engine.
//!
//! A main key is the namespace id in two bytes followed by the user's key. A
//! log key is the namespace id followed by the two halves of the log
//! position, eight bytes each. All integers are written most significant byte
//! first, so that the byte order of the keys is the numeric order of what they
//! encode.

use byteorder::BigEndian;
use byteorder::ByteOrder;
use vstd::prelude::*;
use vstd::slice::slice_subrange;

use crate::lex::{has_prefix, lemma_lex_concat, lemma_lex_irreflexive, lemma_lex_strip, lex_lt};

verus! {

/// The `width` low-order base-256 digits of `n`, most significant first.
pub open spec fn be_bytes(n: nat, width: nat) -> Seq<u8>
    decreases width,
{
    if width == 0 {
        Seq::empty()
    } else {
        be_bytes(n / 256, (width - 1) as nat).push((n % 256) as u8)
    }
}

/// The number of values that `width` bytes can tell apart.
pub open spec fn be_limit(width: nat) -> nat
    decreases width,
{
    if width == 0 {
        1
    } else {
        256 * be_limit((width - 1) as nat)
    }
}

/// The number whose base-256 digits, most significant first, are `bytes`.
pub open spec fn be_value(bytes: Seq<u8>) -> nat
    decreases bytes.len(),
{
    if bytes.len() == 0 {
        0
    } else {
        be_value(bytes.drop_last()) * 256 + bytes.last() as nat
    }
}

/// A 16-bit integer in two bytes.
pub open spec fn be16(n: u16) -> Seq<u8> {
    be_bytes(n as nat, 2)
}

/// A 64-bit integer in eight bytes.
pub open spec fn be64(n: u64) -> Seq<u8> {
    be_bytes(n as nat, 8)
}

/// The key under which namespace `num` stores the user key `key`.
pub open spec fn main_key(num: u16, key: Seq<u8>) -> Seq<u8> {
    be16(num) + key
}

/// The first ten bytes of every log key of namespace `num` in the group `prefix`.
pub open spec fn log_prefix(num: u16, prefix: u64) -> Seq<u8> {
    be16(num) + be64(prefix)
}

/// The key under which namespace `num` stores the log position `(prefix, seq)`.
pub open spec fn log_key(num: u16, prefix: u64, seq: u64) -> Seq<u8> {
    be16(num) + be64(prefix) + be64(seq)
}

/// The log position that a log key holds behind its namespace id.
pub open spec fn log_position(key: Seq<u8>) -> (u64, u64) {
    (be_value(key.subrange(2, 10)) as u64, be_value(key.subrange(10, 18)) as u64)
}

/// The namespace id in front of a key.
pub open spec fn namespace_of(key: Seq<u8>) -> u16 {
    be_value(key.take(2)) as u16
}

/// Length of the namespace id in front of every key.
pub const NAMESPACE_LEN: usize = 2;

/// Length of a log prefix.
pub const LOG_PREFIX_LEN: usize = 10;

/// Length of a log key.
pub const LOG_KEY_LEN: usize = 18;

/// An encoding is as long as its width.
pub proof fn lemma_be_bytes_len(n: nat, width: nat)
    ensures
        be_bytes(n, width).len() == width,
    decreases width,
{
    if width > 0 {
        lemma_be_bytes_len(n / 256, (width - 1) as nat);
    }
}

/// Two and eight bytes tell apart exactly the 16-bit and the 64-bit integers.
pub proof fn lemma_be_limits()
    ensures
        be_limit(2) == 0x1_0000,
        be_limit(8) == 0x1_0000_0000_0000_0000,
{
    reveal_with_fuel(be_limit, 9);
}

/// Decoding undoes encoding, for every number that fits the width.
pub proof fn lemma_be_value_of_bytes(n: nat, width: nat)
    requires
        n < be_limit(width),
    ensures
        be_value(be_bytes(n, width)) == n,
    decreases width,
{
    if width > 0 {
        let w = (width - 1) as nat;
        lemma_be_value_of_bytes(n / 256, w);
        assert(be_bytes(n, width).drop_last() =~= be_bytes(n / 256, w));
    }
}

/// Encoding undoes decoding: every byte string is the encoding, at its own
/// width, of the number it decodes to, and that number fits the width.
pub proof fn lemma_be_bytes_of_value(bytes: Seq<u8>)
    ensures
        be_value(bytes) < be_limit(bytes.len()),
        be_bytes(be_value(bytes), bytes.len()) == bytes,
    decreases bytes.len(),
{
    if bytes.len() > 0 {
        lemma_be_bytes_of_value(bytes.drop_last());
        let high = be_value(bytes.drop_last());
        let value = be_value(bytes);
        assert(value / 256 == high && value % 256 == bytes.last());
        assert(be_bytes(value, bytes.len()) =~= bytes);
    } else {
        assert(be_bytes(0, 0) =~= bytes);
    }
}

/// Encodings of one width are ordered as the numbers they encode: the byte
/// order of two encodings is the numeric order of their values, and equal
/// encodings come from equal values.
pub proof fn lemma_be_bytes_order(a: nat, b: nat, width: nat)
    requires
        a < be_limit(width),
        b < be_limit(width),
    ensures
        lex_lt(be_bytes(a, width), be_bytes(b, width)) <==> a < b,
        be_bytes(a, width) == be_bytes(b, width) <==> a == b,
    decreases width,
{
    if width == 0 {
        lemma_lex_irreflexive(be_bytes(a, width));
    } else {
        let w = (width - 1) as nat;
        let (ha, hb) = (be_bytes(a / 256, w), be_bytes(b / 256, w));
        let (la, lb) = (seq![(a % 256) as u8], seq![(b % 256) as u8]);
        lemma_be_bytes_order(a / 256, b / 256, w);
        lemma_be_bytes_len(a / 256, w);
        lemma_be_bytes_len(b / 256, w);
        assert(be_bytes(a, width) =~= ha + la);
        assert(be_bytes(b, width) =~= hb + lb);
        lemma_lex_concat(ha, la, hb, lb);
        assert(lex_lt(la, lb) <==> a % 256 < b % 256) by {
            reveal_with_fuel(lex_lt, 2);
            assert(la[0] == a % 256 && lb[0] == b % 256);
            assert(la.drop_first().len() == 0 && lb.drop_first().len() == 0);
        }
        lemma_lex_irreflexive(be_bytes(a, width));
        if be_bytes(a, width) == be_bytes(b, width) {
            assert((ha + la).take(w as int) =~= ha);
            assert((hb + lb).take(w as int) =~= hb);
            assert((ha + la)[w as int] == la[0]);
            assert((hb + lb)[w as int] == lb[0]);
        }
    }
}

/// Keys of different namespaces differ within their first two bytes, whatever
/// follows: no two namespaces share a key.
pub proof fn lemma_namespaces_disjoint(m: u16, n: u16, a: Seq<u8>, b: Seq<u8>)
    requires
        m != n,
    ensures
        be16(m) + a != be16(n) + b,
{
    lemma_be_limits();
    lemma_be_bytes_order(m as nat, n as nat, 2);
    lemma_be_bytes_len(m as nat, 2);
    lemma_be_bytes_len(n as nat, 2);
    if be16(m) + a == be16(n) + b {
        assert((be16(m) + a).take(2) =~= be16(m));
        assert((be16(n) + b).take(2) =~= be16(n));
    }
}

/// A key belongs to namespace `num` exactly when it is the main key of some
/// user key there: the namespace id in front, the user key behind.
pub proof fn lemma_main_key_prefix(num: u16, key: Seq<u8>)
    ensures
        has_prefix(key, be16(num)) <==> key == main_key(num, key.skip(2)) && key.len() >= 2,
        has_prefix(main_key(num, key), be16(num)),
        main_key(num, key).skip(2) == key,
        main_key(num, key).len() == key.len() + 2,
{
    lemma_be_bytes_len(num as nat, 2);
    assert(main_key(num, key).take(2) =~= be16(num));
    assert(main_key(num, key).skip(2) =~= key);
    if has_prefix(key, be16(num)) {
        assert(key =~= key.take(2) + key.skip(2));
    }
    if key.len() >= 2 && key == main_key(num, key.skip(2)) {
        assert((be16(num) + key.skip(2)).take(2) =~= be16(num));
    }
}

/// Main keys of one namespace are equal only for equal user keys, and are
/// ordered as the user keys are.
pub proof fn lemma_main_key_order(num: u16, a: Seq<u8>, b: Seq<u8>)
    ensures
        main_key(num, a) == main_key(num, b) <==> a == b,
        lex_lt(main_key(num, a), main_key(num, b)) <==> lex_lt(a, b),
{
    lemma_main_key_prefix(num, a);
    lemma_main_key_prefix(num, b);
    lemma_lex_strip(be16(num), a, b);
}

/// A log key is eighteen bytes: the log prefix of its group, then the
/// sequence number.
pub proof fn lemma_log_key_shape(num: u16, prefix: u64, seq: u64)
    ensures
        log_key(num, prefix, seq).len() == 18,
        log_prefix(num, prefix).len() == 10,
        log_key(num, prefix, seq) == log_prefix(num, prefix) + be64(seq),
        log_key(num, prefix, seq) == main_key(num, be64(prefix) + be64(seq)),
        has_prefix(log_key(num, prefix, seq), be16(num)),
        has_prefix(log_key(num, prefix, seq), log_prefix(num, prefix)),
        log_key(num, prefix, seq).subrange(2, 10) == be64(prefix),
        log_key(num, prefix, seq).subrange(10, 18) == be64(seq),
{
    lemma_be_bytes_len(num as nat, 2);
    lemma_be_bytes_len(prefix as nat, 8);
    lemma_be_bytes_len(seq as nat, 8);
    let k = log_key(num, prefix, seq);
    assert(k =~= be16(num) + (be64(prefix) + be64(seq)));
    assert(k.take(2) =~= be16(num));
    assert(k.take(10) =~= log_prefix(num, prefix));
    assert(k.subrange(2, 10) =~= be64(prefix));
    assert(k.subrange(10, 18) =~= be64(seq));
}

/// Log keys of one namespace are ordered as their positions are, first by
/// group and then by sequence number, and equal only for equal positions.
pub proof fn lemma_log_key_order(num: u16, pa: u64, sa: u64, pb: u64, sb: u64)
    ensures
        lex_lt(log_key(num, pa, sa), log_key(num, pb, sb)) <==> (pa < pb || (pa == pb && sa < sb)),
        log_key(num, pa, sa) == log_key(num, pb, sb) <==> (pa == pb && sa == sb),
{
    lemma_be_limits();
    lemma_be_bytes_order(pa as nat, pb as nat, 8);
    lemma_be_bytes_order(sa as nat, sb as nat, 8);
    lemma_be_bytes_len(pa as nat, 8);
    lemma_be_bytes_len(pb as nat, 8);
    lemma_log_key_shape(num, pa, sa);
    lemma_log_key_shape(num, pb, sb);
    lemma_lex_concat(be64(pa), be64(sa), be64(pb), be64(sb));
    lemma_main_key_order(num, be64(pa) + be64(sa), be64(pb) + be64(sb));
    if be64(pa) + be64(sa) == be64(pb) + be64(sb) {
        assert((be64(pa) + be64(sa)).take(8) =~= be64(pa));
        assert((be64(pb) + be64(sb)).take(8) =~= be64(pb));
        assert((be64(pa) + be64(sa)).skip(8) =~= be64(sa));
        assert((be64(pb) + be64(sb)).skip(8) =~= be64(sb));
    }
}

/// A log key decodes to the position it was built from, and its first two
/// bytes to its namespace.
pub proof fn lemma_log_key_decodes(num: u16, prefix: u64, seq: u64)
    ensures
        log_position(log_key(num, prefix, seq)) == (prefix, seq),
        namespace_of(log_key(num, prefix, seq)) == num,
{
    lemma_log_key_shape(num, prefix, seq);
    lemma_be_limits();
    lemma_be_value_of_bytes(num as nat, 2);
    lemma_be_value_of_bytes(prefix as nat, 8);
    lemma_be_value_of_bytes(seq as nat, 8);
    assert(log_key(num, prefix, seq).take(2) =~= be16(num)) by {
        lemma_be_bytes_len(num as nat, 2);
    }
}

/// Every key of eighteen bytes is a log key: that of the namespace and the
/// position it decodes to.
pub proof fn lemma_log_key_of_any(key: Seq<u8>)
    requires
        key.len() == 18,
    ensures
        key == log_key(namespace_of(key), log_position(key).0, log_position(key).1),
{
    lemma_be_limits();
    lemma_be_bytes_of_value(key.take(2));
    lemma_be_bytes_of_value(key.subrange(2, 10));
    lemma_be_bytes_of_value(key.subrange(10, 18));
    assert(key =~= key.take(2) + key.subrange(2, 10) + key.subrange(10, 18));
}

/// Every key of at least two bytes is a main key: that of the namespace it
/// decodes to, and of what follows the first two bytes.
pub proof fn lemma_main_key_of_any(key: Seq<u8>)
    requires
        key.len() >= 2,
    ensures
        key == main_key(namespace_of(key), key.skip(2)),
        has_prefix(key, be16(namespace_of(key))),
        forall|num: u16| has_prefix(key, be16(num)) <==> num == namespace_of(key),
{
    lemma_be_limits();
    lemma_be_bytes_of_value(key.take(2));
    assert(key =~= key.take(2) + key.skip(2));
    assert forall|num: u16| has_prefix(key, be16(num)) implies num == namespace_of(key) by {
        lemma_be_bytes_len(num as nat, 2);
        lemma_be_value_of_bytes(num as nat, 2);
    }
}

/// Log keys of any namespaces are ordered first by namespace, then by group,
/// then by sequence number.
pub proof fn lemma_log_key_order_across(na: u16, pa: u64, sa: u64, nb: u16, pb: u64, sb: u64)
    ensures
        lex_lt(log_key(na, pa, sa), log_key(nb, pb, sb)) <==> (na < nb || (na == nb && (pa < pb || (pa
            == pb && sa < sb)))),
        lex_lt(log_prefix(na, pa), log_prefix(nb, pb)) <==> (na < nb || (na == nb && pa < pb)),
{
    lemma_be_limits();
    lemma_be_bytes_order(na as nat, nb as nat, 2);
    lemma_be_bytes_order(pa as nat, pb as nat, 8);
    lemma_be_bytes_len(na as nat, 2);
    lemma_be_bytes_len(nb as nat, 2);
    lemma_log_key_shape(na, pa, sa);
    lemma_log_key_shape(nb, pb, sb);
    lemma_lex_concat(be16(na), be64(pa) + be64(sa), be16(nb), be64(pb) + be64(sb));
    lemma_lex_concat(be16(na), be64(pa), be16(nb), be64(pb));
    if na == nb {
        lemma_log_key_order(na, pa, sa, pb, sb);
        lemma_main_key_order(na, be64(pa) + be64(sa), be64(pb) + be64(sb));
    }
}

/// Calls `byteorder::BigEndian::write_u16` on a buffer of two bytes. Trusted:
/// the buffer then holds the integer's two bytes, most significant first.
#[verifier::external_body]
fn be_write_u16(n: u16) -> (out: [u8; 2])
    ensures
        out@ == be16(n),
{
    let mut out: [u8; 2] = [0u8; 2];
    BigEndian::write_u16(&mut out, n);
    out
}

/// Calls `byteorder::BigEndian::write_u64` on a buffer of eight bytes.
/// Trusted: the buffer then holds the integer's eight bytes, most significant
/// first.
#[verifier::external_body]
fn be_write_u64(n: u64) -> (out: [u8; 8])
    ensures
        out@ == be64(n),
{
    let mut out: [u8; 8] = [0u8; 8];
    BigEndian::write_u64(&mut out, n);
    out
}

/// Calls `byteorder::BigEndian::read_u64`, which panics on fewer than eight
/// bytes. Trusted: the result is the number whose eight bytes, most
/// significant first, the buffer starts with.
#[verifier::external_body]
fn be_read_u64(buf: &[u8]) -> (n: u64)
    requires
        buf@.len() >= 8,
    ensures
        n == be_value(buf@.subrange(0, 8)),
{
    BigEndian::read_u64(buf)
}

/// Builds the main key of `key` in namespace `num`.
pub fn build_key(num: u16, key: &[u8]) -> (out: Vec<u8>)
    ensures
        out@ == main_key(num, key@),
{
    let head = be_write_u16(num);
    let mut out: Vec<u8> = Vec::new();
    out.extend_from_slice(head.as_slice());
    out.extend_from_slice(key);
    assert(out@ =~= main_key(num, key@));
    out
}

/// Builds the log key of the position `log_key` in namespace `num`.
pub fn build_log_key(num: u16, log_key: (u64, u64)) -> (out: Vec<u8>)
    ensures
        out@ == self::log_key(num, log_key.0, log_key.1),
        out@.len() == 18,
{
    let mut out = build_log_prefix(num, log_key.0);
    let seq = be_write_u64(log_key.1);
    out.extend_from_slice(seq.as_slice());
    proof {
        lemma_log_key_shape(num, log_key.0, log_key.1);
    }
    assert(out@ =~= self::log_key(num, log_key.0, log_key.1));
    out
}

/// Builds the log prefix of the group `prefix` in namespace `num`.
pub fn build_log_prefix(num: u16, prefix: u64) -> (out: Vec<u8>)
    ensures
        out@ == log_prefix(num, prefix),
        out@.len() == 10,
{
    let head = be_write_u16(num);
    let group = be_write_u64(prefix);
    let mut out: Vec<u8> = Vec::new();
    out.extend_from_slice(head.as_slice());
    out.extend_from_slice(group.as_slice());
    proof {
        lemma_be_bytes_len(num as nat, 2);
        lemma_be_bytes_len(prefix as nat, 8);
    }
    assert(out@ =~= log_prefix(num, prefix));
    out
}

/// The user key inside a main key: what follows the namespace id.
pub fn user_key<'a>(key: &'a [u8]) -> (out: &'a [u8])
    requires
        key@.len() >= 2,
    ensures
        out@ == key@.skip(2),
{
    let out = slice_subrange(key, NAMESPACE_LEN, key.len());
    assert(out@ =~= key@.skip(2));
    out
}

/// The log position inside a log key of any namespace.
pub fn decode_log_key(key: &[u8]) -> (position: (u64, u64))
    requires
        key@.len() == 18,
    ensures
        position == log_position(key@),
{
    let first = be_read_u64(slice_subrange(key, NAMESPACE_LEN, LOG_PREFIX_LEN));
    let second = be_read_u64(slice_subrange(key, LOG_PREFIX_LEN, LOG_KEY_LEN));
    proof {
        assert(key@.subrange(2, 10).subrange(0, 8) =~= key@.subrange(2, 10));
        assert(key@.subrange(10, 18).subrange(0, 8) =~= key@.subrange(10, 18));
    }
    (first, second)
}

} // verus!
