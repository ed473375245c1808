//! Big-endian integer views of byte sequences, shared by the header and
//! b-tree decoders. All multi-byte integers in the file format are
//! big-endian.

use vstd::prelude::*;

verus! {

/// The big-endian 16-bit integer formed by the two bytes at `off`.
pub open spec fn spec_be_u16(b: Seq<u8>, off: int) -> int {
    b[off] * 0x100 + b[off + 1]
}

/// The big-endian 32-bit integer formed by the four bytes at `off`.
pub open spec fn spec_be_u32(b: Seq<u8>, off: int) -> int {
    b[off] * 0x1000000 + b[off + 1] * 0x10000 + b[off + 2] * 0x100 + b[off + 3]
}

/// Reads the big-endian 16-bit integer at `off`.
pub fn read_be_u16(b: &[u8], off: usize) -> (r: u16)
    requires
        off + 2 <= b@.len(),
    ensures
        r == spec_be_u16(b@, off as int),
{
    (b[off] as u16) * 0x100 + (b[off + 1] as u16)
}

/// Reads the big-endian 32-bit integer at `off`.
pub fn read_be_u32(b: &[u8], off: usize) -> (r: u32)
    requires
        off + 4 <= b@.len(),
    ensures
        r == spec_be_u32(b@, off as int),
{
    (b[off] as u32) * 0x1000000 + (b[off + 1] as u32) * 0x10000 + (b[off + 2] as u32) * 0x100
        + (b[off + 3] as u32)
}

/// The two big-endian bytes of a 16-bit integer.
pub open spec fn spec_be_u16_bytes(v: int) -> Seq<u8> {
    seq![(v / 0x100) as u8, (v % 0x100) as u8]
}

/// The four big-endian bytes of a 32-bit integer.
pub open spec fn spec_be_u32_bytes(v: int) -> Seq<u8> {
    seq![
        (v / 0x1000000) as u8,
        ((v / 0x10000) % 0x100) as u8,
        ((v / 0x100) % 0x100) as u8,
        (v % 0x100) as u8,
    ]
}

/// Splitting a 16-bit integer into big-endian bytes and reading them back
/// returns the integer.
pub proof fn lemma_be_u16_round_trip(v: int)
    requires
        0 <= v < 0x10000,
    ensures
        spec_be_u16(spec_be_u16_bytes(v), 0) == v,
{
    assert(spec_be_u16(spec_be_u16_bytes(v), 0) == v) by (nonlinear_arith)
        requires 0 <= v < 0x10000;
}

/// Splitting a 32-bit integer into big-endian bytes and reading them back
/// returns the integer.
pub proof fn lemma_be_u32_round_trip(v: int)
    requires
        0 <= v < 0x100000000,
    ensures
        spec_be_u32(spec_be_u32_bytes(v), 0) == v,
{
    assert(spec_be_u32(spec_be_u32_bytes(v), 0) == v) by (nonlinear_arith)
        requires 0 <= v < 0x100000000;
}

/// Two bytes that hold the big-endian form of `v` read back as `v`.
pub proof fn lemma_be_u16_at(b: Seq<u8>, off: int, v: int)
    requires
        0 <= v < 0x10000,
        0 <= off,
        off + 2 <= b.len(),
        b[off] == spec_be_u16_bytes(v)[0],
        b[off + 1] == spec_be_u16_bytes(v)[1],
    ensures
        spec_be_u16(b, off) == v,
{
    lemma_be_u16_round_trip(v);
}

/// Four bytes that hold the big-endian form of `v` read back as `v`.
pub proof fn lemma_be_u32_at(b: Seq<u8>, off: int, v: int)
    requires
        0 <= v < 0x100000000,
        0 <= off,
        off + 4 <= b.len(),
        b[off] == spec_be_u32_bytes(v)[0],
        b[off + 1] == spec_be_u32_bytes(v)[1],
        b[off + 2] == spec_be_u32_bytes(v)[2],
        b[off + 3] == spec_be_u32_bytes(v)[3],
    ensures
        spec_be_u32(b, off) == v,
{
    lemma_be_u32_round_trip(v);
}

/// Appends the two big-endian bytes of `v` to `out`.
pub fn push_be_u16(out: &mut Vec<u8>, v: u16)
    ensures
        final(out)@ == old(out)@ + spec_be_u16_bytes(v as int),
{
    out.push((v / 0x100) as u8);
    out.push((v % 0x100) as u8);
    assert(out@ =~= old(out)@ + spec_be_u16_bytes(v as int));
}

/// Appends the four big-endian bytes of `v` to `out`.
pub fn push_be_u32(out: &mut Vec<u8>, v: u32)
    ensures
        final(out)@ == old(out)@ + spec_be_u32_bytes(v as int),
{
    out.push((v / 0x1000000) as u8);
    out.push(((v / 0x10000) % 0x100) as u8);
    out.push(((v / 0x100) % 0x100) as u8);
    out.push((v % 0x100) as u8);
    assert(out@ =~= old(out)@ + spec_be_u32_bytes(v as int));
}

/// Copies `n` bytes starting at `start` into an owned vector.
pub fn copy_range(b: &[u8], start: usize, n: usize) -> (r: Vec<u8>)
    requires
        start + n <= b@.len(),
    ensures
        r@ == b@.subrange(start as int, start + n),
{
    let b_len = b.len();
    assert(start + n <= b_len);
    let mut out: Vec<u8> = Vec::new();
    let mut i: usize = 0;
    while i < n
        invariant
            start + n <= b@.len(),
            start + n <= usize::MAX,
            i <= n,
            out@ == b@.subrange(start as int, start + i),
        decreases n - i,
    {
        out.push(b[start + i]);
        proof {
            assert(out@ =~= b@.subrange(start as int, start + i + 1));
        }
        i = i + 1;
    }
    out
}

/// True when the two byte slices hold the same bytes.
pub fn bytes_eq(a: &[u8], b: &[u8]) -> (r: bool)
    ensures
        r == (a@ == b@),
{
    if a.len() != b.len() {
        assert(a@ != b@);
        return false;
    }
    let n = a.len();
    let mut i: usize = 0;
    while i < n
        invariant
            n == a@.len() == b@.len(),
            i <= n,
            forall|j: int| 0 <= j < i ==> a@[j] == b@[j],
        decreases n - i,
    {
        if a[i] != b[i] {
            return false;
        }
        i = i + 1;
    }
    proof {
        assert(a@ =~= b@);
    }
    true
}

} // verus!
