//! Little-endian fields inside fixed-size hardware records: the descriptors
//! and completion records are plain byte arrays, and every field is read
//! and written through the functions here.

use vstd::prelude::*;

verus! {

/// The little-endian bytes of a 64-bit value.
pub open spec fn le_bytes_u64(v: u64) -> Seq<u8> {
    seq![
        (v & 0xff) as u8,
        ((v >> 8) & 0xff) as u8,
        ((v >> 16) & 0xff) as u8,
        ((v >> 24) & 0xff) as u8,
        ((v >> 32) & 0xff) as u8,
        ((v >> 40) & 0xff) as u8,
        ((v >> 48) & 0xff) as u8,
        ((v >> 56) & 0xff) as u8,
    ]
}

/// The little-endian bytes of a 32-bit value.
pub open spec fn le_bytes_u32(v: u32) -> Seq<u8> {
    seq![
        (v & 0xff) as u8,
        ((v >> 8) & 0xff) as u8,
        ((v >> 16) & 0xff) as u8,
        ((v >> 24) & 0xff) as u8,
    ]
}

/// The little-endian bytes of a 16-bit value.
pub open spec fn le_bytes_u16(v: u16) -> Seq<u8> {
    seq![(v & 0xff) as u8, ((v >> 8) & 0xff) as u8]
}

/// `b` with `v` written over it from offset `off`.
pub open spec fn put_bytes(b: Seq<u8>, off: int, v: Seq<u8>) -> Seq<u8> {
    b.subrange(0, off) + v + b.subrange(off + v.len(), b.len() as int)
}

/// The 64-bit little-endian value stored at `off`.
pub open spec fn read_u64(b: Seq<u8>, off: int) -> u64 {
    (b[off] as u64) | (b[off + 1] as u64) << 8 | (b[off + 2] as u64) << 16 | (b[off + 3] as u64)
        << 24 | (b[off + 4] as u64) << 32 | (b[off + 5] as u64) << 40 | (b[off + 6] as u64) << 48
        | (b[off + 7] as u64) << 56
}

/// The 32-bit little-endian value stored at `off`.
pub open spec fn read_u32(b: Seq<u8>, off: int) -> u32 {
    (b[off] as u32) | (b[off + 1] as u32) << 8 | (b[off + 2] as u32) << 16 | (b[off + 3] as u32)
        << 24
}

/// The 16-bit little-endian value stored at `off`.
pub open spec fn read_u16(b: Seq<u8>, off: int) -> u16 {
    (b[off] as u16) | (b[off + 1] as u16) << 8
}

/// `n` zero bytes.
pub open spec fn zeros(n: nat) -> Seq<u8> {
    Seq::new(n, |i: int| 0u8)
}

/// Bytes `[lo, hi)` of `b` are all zero.
pub open spec fn zero_between(b: Seq<u8>, lo: int, hi: int) -> bool {
    forall|i: int| lo <= i < hi ==> #[trigger] b[i] == 0
}

pub proof fn lemma_put_index(b: Seq<u8>, off: int, v: Seq<u8>, i: int)
    requires
        0 <= off,
        off + v.len() <= b.len(),
        0 <= i < b.len(),
    ensures
        put_bytes(b, off, v).len() == b.len(),
        off <= i < off + v.len() ==> put_bytes(b, off, v)[i] == v[i - off],
        !(off <= i < off + v.len()) ==> put_bytes(b, off, v)[i] == b[i],
{
}

/// A write leaves every byte outside the written range as it was.
pub proof fn lemma_put_outside(b: Seq<u8>, off: int, v: Seq<u8>, lo: int, hi: int)
    requires
        0 <= off,
        off + v.len() <= b.len(),
        0 <= lo <= hi <= b.len(),
        hi <= off || off + v.len() <= lo,
    ensures
        put_bytes(b, off, v).subrange(lo, hi) == b.subrange(lo, hi),
        put_bytes(b, off, v).len() == b.len(),
{
    assert forall|i: int| lo <= i < hi implies put_bytes(b, off, v)[i] == b[i] by {
        lemma_put_index(b, off, v, i);
    }
    assert(put_bytes(b, off, v).subrange(lo, hi) =~= b.subrange(lo, hi));
}

pub proof fn lemma_read_u64_of_subrange(a: Seq<u8>, b: Seq<u8>, off: int)
    requires
        0 <= off,
        off + 8 <= a.len(),
        off + 8 <= b.len(),
        a.subrange(off, off + 8) == b.subrange(off, off + 8),
    ensures
        read_u64(a, off) == read_u64(b, off),
{
    assert forall|j: int| off <= j < off + 8 implies #[trigger] a[j] == b[j] by {
        let k = j - off;
        assert(a.subrange(off, off + 8)[k] == a[off + k]);
        assert(b.subrange(off, off + 8)[k] == b[off + k]);
        assert(a.subrange(off, off + 8)[k] == b.subrange(off, off + 8)[k]);
    }
}

pub proof fn lemma_read_u32_of_subrange(a: Seq<u8>, b: Seq<u8>, off: int)
    requires
        0 <= off,
        off + 4 <= a.len(),
        off + 4 <= b.len(),
        a.subrange(off, off + 4) == b.subrange(off, off + 4),
    ensures
        read_u32(a, off) == read_u32(b, off),
{
    assert forall|j: int| off <= j < off + 4 implies #[trigger] a[j] == b[j] by {
        let k = j - off;
        assert(a.subrange(off, off + 4)[k] == a[off + k]);
        assert(b.subrange(off, off + 4)[k] == b[off + k]);
        assert(a.subrange(off, off + 4)[k] == b.subrange(off, off + 4)[k]);
    }
}

pub proof fn lemma_read_u16_of_subrange(a: Seq<u8>, b: Seq<u8>, off: int)
    requires
        0 <= off,
        off + 2 <= a.len(),
        off + 2 <= b.len(),
        a.subrange(off, off + 2) == b.subrange(off, off + 2),
    ensures
        read_u16(a, off) == read_u16(b, off),
{
    assert forall|j: int| off <= j < off + 2 implies #[trigger] a[j] == b[j] by {
        let k = j - off;
        assert(a.subrange(off, off + 2)[k] == a[off + k]);
        assert(b.subrange(off, off + 2)[k] == b[off + k]);
        assert(a.subrange(off, off + 2)[k] == b.subrange(off, off + 2)[k]);
    }
}

/// Reading a 64-bit field gives back what was written there.
pub proof fn lemma_read_u64_put(b: Seq<u8>, off: int, v: u64)
    requires
        0 <= off,
        off + 8 <= b.len(),
    ensures
        read_u64(put_bytes(b, off, le_bytes_u64(v)), off) == v,
{
    let p = put_bytes(b, off, le_bytes_u64(v));
    lemma_put_index(b, off, le_bytes_u64(v), off + 0);
    lemma_put_index(b, off, le_bytes_u64(v), off + 1);
    lemma_put_index(b, off, le_bytes_u64(v), off + 2);
    lemma_put_index(b, off, le_bytes_u64(v), off + 3);
    lemma_put_index(b, off, le_bytes_u64(v), off + 4);
    lemma_put_index(b, off, le_bytes_u64(v), off + 5);
    lemma_put_index(b, off, le_bytes_u64(v), off + 6);
    lemma_put_index(b, off, le_bytes_u64(v), off + 7);
    let b0 = (v & 0xff) as u8;
    let b1 = ((v >> 8) & 0xff) as u8;
    let b2 = ((v >> 16) & 0xff) as u8;
    let b3 = ((v >> 24) & 0xff) as u8;
    let b4 = ((v >> 32) & 0xff) as u8;
    let b5 = ((v >> 40) & 0xff) as u8;
    let b6 = ((v >> 48) & 0xff) as u8;
    let b7 = ((v >> 56) & 0xff) as u8;
    assert(p[off] == b0 && p[off + 1] == b1 && p[off + 2] == b2 && p[off + 3] == b3);
    assert(p[off + 4] == b4 && p[off + 5] == b5 && p[off + 6] == b6 && p[off + 7] == b7);
    assert((b0 as u64) | (b1 as u64) << 8 | (b2 as u64) << 16 | (b3 as u64) << 24 | (b4 as u64)
        << 32 | (b5 as u64) << 40 | (b6 as u64) << 48 | (b7 as u64) << 56 == v) by (bit_vector)
        requires
            b0 == (v & 0xff) as u8,
            b1 == ((v >> 8) & 0xff) as u8,
            b2 == ((v >> 16) & 0xff) as u8,
            b3 == ((v >> 24) & 0xff) as u8,
            b4 == ((v >> 32) & 0xff) as u8,
            b5 == ((v >> 40) & 0xff) as u8,
            b6 == ((v >> 48) & 0xff) as u8,
            b7 == ((v >> 56) & 0xff) as u8,
    ;
}

/// Reading a 32-bit field gives back what was written there.
pub proof fn lemma_read_u32_put(b: Seq<u8>, off: int, v: u32)
    requires
        0 <= off,
        off + 4 <= b.len(),
    ensures
        read_u32(put_bytes(b, off, le_bytes_u32(v)), off) == v,
{
    let p = put_bytes(b, off, le_bytes_u32(v));
    lemma_put_index(b, off, le_bytes_u32(v), off + 0);
    lemma_put_index(b, off, le_bytes_u32(v), off + 1);
    lemma_put_index(b, off, le_bytes_u32(v), off + 2);
    lemma_put_index(b, off, le_bytes_u32(v), off + 3);
    let b0 = (v & 0xff) as u8;
    let b1 = ((v >> 8) & 0xff) as u8;
    let b2 = ((v >> 16) & 0xff) as u8;
    let b3 = ((v >> 24) & 0xff) as u8;
    assert(p[off] == b0 && p[off + 1] == b1 && p[off + 2] == b2 && p[off + 3] == b3);
    assert((b0 as u32) | (b1 as u32) << 8 | (b2 as u32) << 16 | (b3 as u32) << 24 == v)
        by (bit_vector)
        requires
            b0 == (v & 0xff) as u8,
            b1 == ((v >> 8) & 0xff) as u8,
            b2 == ((v >> 16) & 0xff) as u8,
            b3 == ((v >> 24) & 0xff) as u8,
    ;
}

/// Reading a 16-bit field gives back what was written there.
pub proof fn lemma_read_u16_put(b: Seq<u8>, off: int, v: u16)
    requires
        0 <= off,
        off + 2 <= b.len(),
    ensures
        read_u16(put_bytes(b, off, le_bytes_u16(v)), off) == v,
{
    let p = put_bytes(b, off, le_bytes_u16(v));
    lemma_put_index(b, off, le_bytes_u16(v), off + 0);
    lemma_put_index(b, off, le_bytes_u16(v), off + 1);
    let b0 = (v & 0xff) as u8;
    let b1 = ((v >> 8) & 0xff) as u8;
    assert(p[off] == b0 && p[off + 1] == b1);
    assert((b0 as u16) | (b1 as u16) << 8 == v) by (bit_vector)
        requires
            b0 == (v & 0xff) as u8,
            b1 == ((v >> 8) & 0xff) as u8,
    ;
}

/// Writes `v` little-endian at `off`.
pub fn store_u64<const N: usize>(bytes: &mut [u8; N], off: usize, v: u64)
    requires
        off + 8 <= N,
    ensures
        final(bytes)@ == put_bytes(old(bytes)@, off as int, le_bytes_u64(v)),
{
    bytes[off] = (v & 0xff) as u8;
    bytes[off + 1] = ((v >> 8) & 0xff) as u8;
    bytes[off + 2] = ((v >> 16) & 0xff) as u8;
    bytes[off + 3] = ((v >> 24) & 0xff) as u8;
    bytes[off + 4] = ((v >> 32) & 0xff) as u8;
    bytes[off + 5] = ((v >> 40) & 0xff) as u8;
    bytes[off + 6] = ((v >> 48) & 0xff) as u8;
    bytes[off + 7] = ((v >> 56) & 0xff) as u8;
    assert(bytes@ =~= put_bytes(old(bytes)@, off as int, le_bytes_u64(v)));
}

/// Writes `v` little-endian at `off`.
pub fn store_u32<const N: usize>(bytes: &mut [u8; N], off: usize, v: u32)
    requires
        off + 4 <= N,
    ensures
        final(bytes)@ == put_bytes(old(bytes)@, off as int, le_bytes_u32(v)),
{
    bytes[off] = (v & 0xff) as u8;
    bytes[off + 1] = ((v >> 8) & 0xff) as u8;
    bytes[off + 2] = ((v >> 16) & 0xff) as u8;
    bytes[off + 3] = ((v >> 24) & 0xff) as u8;
    assert(bytes@ =~= put_bytes(old(bytes)@, off as int, le_bytes_u32(v)));
}

/// Writes `v` little-endian at `off`.
pub fn store_u16<const N: usize>(bytes: &mut [u8; N], off: usize, v: u16)
    requires
        off + 2 <= N,
    ensures
        final(bytes)@ == put_bytes(old(bytes)@, off as int, le_bytes_u16(v)),
{
    bytes[off] = (v & 0xff) as u8;
    bytes[off + 1] = ((v >> 8) & 0xff) as u8;
    assert(bytes@ =~= put_bytes(old(bytes)@, off as int, le_bytes_u16(v)));
}

/// The 64-bit little-endian value at `off`.
pub fn load_u64<const N: usize>(bytes: &[u8; N], off: usize) -> (v: u64)
    requires
        off + 8 <= N,
    ensures
        v == read_u64(bytes@, off as int),
{
    (bytes[off] as u64) | (bytes[off + 1] as u64) << 8 | (bytes[off + 2] as u64) << 16 | (
    bytes[off + 3] as u64) << 24 | (bytes[off + 4] as u64) << 32 | (bytes[off + 5] as u64) << 40
        | (bytes[off + 6] as u64) << 48 | (bytes[off + 7] as u64) << 56
}

/// The 32-bit little-endian value at `off`.
pub fn load_u32<const N: usize>(bytes: &[u8; N], off: usize) -> (v: u32)
    requires
        off + 4 <= N,
    ensures
        v == read_u32(bytes@, off as int),
{
    (bytes[off] as u32) | (bytes[off + 1] as u32) << 8 | (bytes[off + 2] as u32) << 16 | (
    bytes[off + 3] as u32) << 24
}

/// The 16-bit little-endian value at `off`.
pub fn load_u16<const N: usize>(bytes: &[u8; N], off: usize) -> (v: u16)
    requires
        off + 2 <= N,
    ensures
        v == read_u16(bytes@, off as int),
{
    (bytes[off] as u16) | (bytes[off + 1] as u16) << 8
}


/// Eight zero bytes read as zero.
pub proof fn lemma_read_u64_zero(b: Seq<u8>, off: int)
    requires
        0 <= off,
        off + 8 <= b.len(),
        zero_between(b, off, off + 8),
    ensures
        read_u64(b, off) == 0,
{
    let b0 = b[off];
    let b1 = b[off + 1];
    let b2 = b[off + 2];
    let b3 = b[off + 3];
    let b4 = b[off + 4];
    let b5 = b[off + 5];
    let b6 = b[off + 6];
    let b7 = b[off + 7];
    assert((b0 as u64) | (b1 as u64) << 8 | (b2 as u64) << 16 | (b3 as u64) << 24 | (b4 as u64)
        << 32 | (b5 as u64) << 40 | (b6 as u64) << 48 | (b7 as u64) << 56 == 0) by (bit_vector)
        requires
            b0 == 0 && b1 == 0 && b2 == 0 && b3 == 0 && b4 == 0 && b5 == 0 && b6 == 0 && b7 == 0,
    ;
}

/// Four zero bytes read as zero.
pub proof fn lemma_read_u32_zero(b: Seq<u8>, off: int)
    requires
        0 <= off,
        off + 4 <= b.len(),
        zero_between(b, off, off + 4),
    ensures
        read_u32(b, off) == 0,
{
    let b0 = b[off];
    let b1 = b[off + 1];
    let b2 = b[off + 2];
    let b3 = b[off + 3];
    assert((b0 as u32) | (b1 as u32) << 8 | (b2 as u32) << 16 | (b3 as u32) << 24 == 0)
        by (bit_vector)
        requires
            b0 == 0 && b1 == 0 && b2 == 0 && b3 == 0,
    ;
}

/// Two zero bytes read as zero.
pub proof fn lemma_read_u16_zero(b: Seq<u8>, off: int)
    requires
        0 <= off,
        off + 2 <= b.len(),
        zero_between(b, off, off + 2),
    ensures
        read_u16(b, off) == 0,
{
    let b0 = b[off];
    let b1 = b[off + 1];
    assert((b0 as u16) | (b1 as u16) << 8 == 0) by (bit_vector)
        requires
            b0 == 0 && b1 == 0,
    ;
}

} // verus!
