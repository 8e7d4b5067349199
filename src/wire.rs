//! Big-endian integer encoding and the byte-level helpers the codecs share.

use vstd::prelude::*;

verus! {

/// Two big-endian octets of `x`.
pub open spec fn be16(x: u16) -> Seq<u8> {
    seq![(x / 256) as u8, (x % 256) as u8]
}

/// Four big-endian octets of `x`.
pub open spec fn be32(x: u32) -> Seq<u8> {
    be16((x / 0x1_0000) as u16) + be16((x % 0x1_0000) as u16)
}

/// Eight big-endian octets of `x`.
pub open spec fn be64(x: u64) -> Seq<u8> {
    be32((x / 0x1_0000_0000) as u32) + be32((x % 0x1_0000_0000) as u32)
}

/// Sixteen big-endian octets of `x`.
pub open spec fn be128(x: u128) -> Seq<u8> {
    be64((x / 0x1_0000_0000_0000_0000) as u64) + be64((x % 0x1_0000_0000_0000_0000) as u64)
}

/// The big-endian `u16` starting at offset `i` of `s`.
pub open spec fn u16_at(s: Seq<u8>, i: int) -> u16 {
    (s[i] as int * 256 + s[i + 1] as int) as u16
}

/// The big-endian `u32` starting at offset `i` of `s`.
pub open spec fn u32_at(s: Seq<u8>, i: int) -> u32 {
    (u16_at(s, i) as int * 0x1_0000 + u16_at(s, i + 2) as int) as u32
}

/// The big-endian `u64` starting at offset `i` of `s`.
pub open spec fn u64_at(s: Seq<u8>, i: int) -> u64 {
    (u32_at(s, i) as int * 0x1_0000_0000 + u32_at(s, i + 4) as int) as u64
}

/// The big-endian `u128` starting at offset `i` of `s`.
pub open spec fn u128_at(s: Seq<u8>, i: int) -> u128 {
    (u64_at(s, i) as int * 0x1_0000_0000_0000_0000 + u64_at(s, i + 8) as int) as u128
}

/// Every octet of `s` is zero.
pub open spec fn all_zero(s: Seq<u8>) -> bool {
    forall|k: int| 0 <= k < s.len() ==> s[k] == 0
}

pub proof fn lemma_be16(x: u16, s: Seq<u8>, i: int)
    requires
        0 <= i,
        i + 2 <= s.len(),
        s.subrange(i, i + 2) == be16(x),
    ensures
        u16_at(s, i) == x,
{
    assert(s[i] == be16(x)[0]);
    assert(s[i + 1] == be16(x)[1]);
}

pub proof fn lemma_be32(x: u32, s: Seq<u8>, i: int)
    requires
        0 <= i,
        i + 4 <= s.len(),
        s.subrange(i, i + 4) == be32(x),
    ensures
        u32_at(s, i) == x,
{
    let hi = (x / 0x1_0000) as u16;
    let lo = (x % 0x1_0000) as u16;
    assert(s.subrange(i, i + 2) =~= s.subrange(i, i + 4).subrange(0, 2));
    assert(s.subrange(i + 2, i + 4) =~= s.subrange(i, i + 4).subrange(2, 4));
    assert(be32(x).subrange(0, 2) =~= be16(hi));
    assert(be32(x).subrange(2, 4) =~= be16(lo));
    lemma_be16(hi, s, i);
    lemma_be16(lo, s, i + 2);
}

pub proof fn lemma_be64(x: u64, s: Seq<u8>, i: int)
    requires
        0 <= i,
        i + 8 <= s.len(),
        s.subrange(i, i + 8) == be64(x),
    ensures
        u64_at(s, i) == x,
{
    let hi = (x / 0x1_0000_0000) as u32;
    let lo = (x % 0x1_0000_0000) as u32;
    assert(s.subrange(i, i + 4) =~= s.subrange(i, i + 8).subrange(0, 4));
    assert(s.subrange(i + 4, i + 8) =~= s.subrange(i, i + 8).subrange(4, 8));
    assert(be64(x).subrange(0, 4) =~= be32(hi));
    assert(be64(x).subrange(4, 8) =~= be32(lo));
    lemma_be32(hi, s, i);
    lemma_be32(lo, s, i + 4);
}

pub proof fn lemma_be128(x: u128, s: Seq<u8>, i: int)
    requires
        0 <= i,
        i + 16 <= s.len(),
        s.subrange(i, i + 16) == be128(x),
    ensures
        u128_at(s, i) == x,
{
    let hi = (x / 0x1_0000_0000_0000_0000) as u64;
    let lo = (x % 0x1_0000_0000_0000_0000) as u64;
    assert(s.subrange(i, i + 8) =~= s.subrange(i, i + 16).subrange(0, 8));
    assert(s.subrange(i + 8, i + 16) =~= s.subrange(i, i + 16).subrange(8, 16));
    assert(be128(x).subrange(0, 8) =~= be64(hi));
    assert(be128(x).subrange(8, 16) =~= be64(lo));
    lemma_be64(hi, s, i);
    lemma_be64(lo, s, i + 8);
}

/// Appends the two big-endian octets of `x`.
pub fn push_u16(out: &mut Vec<u8>, x: u16)
    ensures
        final(out)@ == old(out)@ + be16(x),
{
    out.push((x / 256) as u8);
    out.push((x % 256) as u8);
    assert(final(out)@ =~= old(out)@ + be16(x));
}

/// Appends the four big-endian octets of `x`.
pub fn push_u32(out: &mut Vec<u8>, x: u32)
    ensures
        final(out)@ == old(out)@ + be32(x),
{
    push_u16(out, (x / 0x1_0000) as u16);
    push_u16(out, (x % 0x1_0000) as u16);
    assert(final(out)@ =~= old(out)@ + be32(x));
}

/// Appends the eight big-endian octets of `x`.
pub fn push_u64(out: &mut Vec<u8>, x: u64)
    ensures
        final(out)@ == old(out)@ + be64(x),
{
    push_u32(out, (x / 0x1_0000_0000) as u32);
    push_u32(out, (x % 0x1_0000_0000) as u32);
    assert(final(out)@ =~= old(out)@ + be64(x));
}

/// Appends the sixteen big-endian octets of `x`.
pub fn push_u128(out: &mut Vec<u8>, x: u128)
    ensures
        final(out)@ == old(out)@ + be128(x),
{
    push_u64(out, (x / 0x1_0000_0000_0000_0000) as u64);
    push_u64(out, (x % 0x1_0000_0000_0000_0000) as u64);
    assert(final(out)@ =~= old(out)@ + be128(x));
}

/// Appends every octet of `a`.
pub fn push_bytes(out: &mut Vec<u8>, a: &[u8])
    ensures
        final(out)@ == old(out)@ + a@,
{
    let mut k: usize = 0;
    while k < a.len()
        invariant
            k <= a@.len(),
            out@ == old(out)@ + a@.subrange(0, k as int),
        decreases a@.len() - k,
    {
        out.push(a[k]);
        k = k + 1;
        assert(out@ =~= old(out)@ + a@.subrange(0, k as int));
    }
    assert(a@.subrange(0, k as int) =~= a@);
}

/// The big-endian `u16` at offset `i`.
pub fn read_u16(b: &[u8], i: usize) -> (r: u16)
    requires
        i + 2 <= b@.len(),
    ensures
        r == u16_at(b@, i as int),
{
    let _len = b.len();
    (b[i] as u16) * 256 + (b[i + 1] as u16)
}

/// The big-endian `u32` at offset `i`.
pub fn read_u32(b: &[u8], i: usize) -> (r: u32)
    requires
        i + 4 <= b@.len(),
    ensures
        r == u32_at(b@, i as int),
{
    let _len = b.len();
    (read_u16(b, i) as u32) * 0x1_0000 + (read_u16(b, i + 2) as u32)
}

/// The big-endian `u64` at offset `i`.
pub fn read_u64(b: &[u8], i: usize) -> (r: u64)
    requires
        i + 8 <= b@.len(),
    ensures
        r == u64_at(b@, i as int),
{
    let _len = b.len();
    (read_u32(b, i) as u64) * 0x1_0000_0000 + (read_u32(b, i + 4) as u64)
}

/// The big-endian `u128` at offset `i`.
pub fn read_u128(b: &[u8], i: usize) -> (r: u128)
    requires
        i + 16 <= b@.len(),
    ensures
        r == u128_at(b@, i as int),
{
    let _len = b.len();
    (read_u64(b, i) as u128) * 0x1_0000_0000_0000_0000 + (read_u64(b, i + 8) as u128)
}

/// The `N` octets starting at offset `i`.
pub fn read_array<const N: usize>(b: &[u8], i: usize) -> (r: [u8; N])
    requires
        i + N <= b@.len(),
    ensures
        r@ == b@.subrange(i as int, i + N),
{
    let len = b.len();
    let mut r = [0u8; N];
    let mut k: usize = 0;
    while k < N
        invariant
            k <= N,
            i + N <= b@.len(),
            r@.len() == N,
            len == b@.len(),
            forall|j: int| 0 <= j < k ==> #[trigger] r@[j] == b@[i + j],
        decreases N - k,
    {
        r[k] = b[i + k];
        k = k + 1;
    }
    assert(r@ =~= b@.subrange(i as int, i + N));
    r
}

/// The `n` octets starting at offset `i`, in a vector.
pub fn read_vec(b: &[u8], i: usize, n: usize) -> (r: Vec<u8>)
    requires
        i + n <= b@.len(),
    ensures
        r@ == b@.subrange(i as int, i + n),
{
    let len = b.len();
    let mut r: Vec<u8> = Vec::new();
    let mut k: usize = 0;
    while k < n
        invariant
            k <= n,
            i + n <= b@.len(),
            len == b@.len(),
            r@ == b@.subrange(i as int, i + k),
        decreases n - k,
    {
        r.push(b[i + k]);
        k = k + 1;
        assert(r@ =~= b@.subrange(i as int, i + k));
    }
    r
}

/// Whether the `n` octets starting at offset `i` are all zero.
pub fn zero_at(b: &[u8], i: usize, n: usize) -> (r: bool)
    requires
        i + n <= b@.len(),
    ensures
        r == all_zero(b@.subrange(i as int, i + n)),
{
    let len = b.len();
    let mut k: usize = 0;
    while k < n
        invariant
            k <= n,
            i + n <= b@.len(),
            len == b@.len(),
            forall|j: int| i <= j < i + k ==> b@[j] == 0,
        decreases n - k,
    {
        if b[i + k] != 0 {
            assert(b@.subrange(i as int, i + n)[k as int] != 0);
            return false;
        }
        k = k + 1;
    }
    assert forall|j: int| 0 <= j < n implies #[trigger] b@.subrange(i as int, i + n)[j] == 0 by {
        assert(b@[i + j] == 0);
    }
    true
}

} // verus!
