//! The variable-length integer of the file format: 1 to 9 bytes,
//! big-endian base 128, the high bit of each byte meaning "more bytes
//! follow". The ninth byte, if reached, contributes all eight of its
//! bits. Only reading is needed here; writing varints is out of scope.

use vstd::prelude::*;

use vstd::arithmetic::power2::{lemma2_to64, lemma2_to64_rest, lemma_pow2_adds, pow2};

use crate::result::{SQLiteError, SQLiteResult};

verus! {

/// The value and byte length of the varint at `i`, continuing from an
/// accumulator with `budget` bytes still allowed, or `None` when the
/// sequence ends before the varint does.
pub open spec fn spec_varint_rec(b: Seq<u8>, i: int, acc: int, budget: nat) -> Option<(int, int)>
    decreases budget,
{
    if budget == 0 || i >= b.len() {
        None
    } else if budget == 1 {
        Some((acc * 0x100 + b[i], 1))
    } else if b[i] < 0x80 {
        Some((acc * 0x80 + b[i], 1))
    } else {
        match spec_varint_rec(b, i + 1, acc * 0x80 + (b[i] - 0x80), (budget - 1) as nat) {
            None => None,
            Some((v, n)) => Some((v, n + 1)),
        }
    }
}

/// The value and byte length of the varint at `i`, or `None` when the
/// sequence ends before the varint does.
pub open spec fn spec_varint(b: Seq<u8>, i: int) -> Option<(int, int)> {
    spec_varint_rec(b, i, 0, 9)
}

/// A decoded varint never takes more than nine bytes, and its value
/// always fits in 64 bits.
pub proof fn lemma_varint_bounds(b: Seq<u8>, i: int, acc: int, budget: nat)
    requires
        budget <= 9,
        0 <= acc < pow2((7 * (9 - budget)) as nat),
    ensures
        match spec_varint_rec(b, i, acc, budget) {
            Some(vn) => 0 <= vn.0 < pow2(64) && 1 <= vn.1 <= budget,
            None => true,
        },
    decreases budget,
{
    lemma2_to64();
    lemma2_to64_rest();
    if budget == 0 || i >= b.len() {
    } else if budget == 1 {
        assert(pow2(56) == 0x100000000000000);
        assert(pow2(64) == 0x10000000000000000);
    } else if b[i] < 0x80 {
        assert(pow2((7 * (9 - budget)) as nat) * 0x80 == pow2((7 * (9 - (budget - 1))) as nat)) by {
            lemma_pow2_adds((7 * (9 - budget)) as nat, 7);
            assert(pow2(7) == 0x80);
        }
        assert(pow2((7 * (9 - (budget - 1))) as nat) <= pow2(64)) by {
            if ((7 * (9 - (budget - 1))) as nat) < 64 {
                vstd::arithmetic::power2::lemma_pow2_strictly_increases(
                    (7 * (9 - (budget - 1))) as nat,
                    64,
                );
            }
        }
        assert(acc * 0x80 + b[i] < pow2((7 * (9 - (budget - 1))) as nat)) by (nonlinear_arith)
            requires
                0 <= acc < pow2((7 * (9 - budget)) as nat),
                b[i] < 0x80,
                pow2((7 * (9 - budget)) as nat) * 0x80 == pow2((7 * (9 - (budget - 1))) as nat),
        ;
    } else {
        assert(pow2((7 * (9 - budget)) as nat) * 0x80 == pow2((7 * (9 - (budget - 1))) as nat)) by {
            lemma_pow2_adds((7 * (9 - budget)) as nat, 7);
            assert(pow2(7) == 0x80);
        }
        assert(acc * 0x80 + (b[i] - 0x80) < pow2((7 * (9 - (budget - 1))) as nat))
            by (nonlinear_arith)
            requires
                0 <= acc < pow2((7 * (9 - budget)) as nat),
                0x80 <= b[i] < 0x100,
                pow2((7 * (9 - budget)) as nat) * 0x80 == pow2((7 * (9 - (budget - 1))) as nat),
        ;
        lemma_varint_bounds(b, i + 1, acc * 0x80 + (b[i] - 0x80), (budget - 1) as nat);
    }
}

fn decode_varint_rec(bytes: &[u8], offset: usize, acc: u64, budget: u8) -> (r: SQLiteResult<
    (u64, usize),
>)
    requires
        1 <= budget <= 9,
        acc < pow2((7 * (9 - budget)) as nat),
    ensures
        match spec_varint_rec(bytes@, offset as int, acc as int, budget as nat) {
            Some(vn) => r matches Ok(p) && p.0 as int == vn.0 && p.1 as int == vn.1,
            None => r == Err::<(u64, usize), _>(SQLiteError::TruncatedCell),
        },
    decreases budget,
{
    proof {
        lemma2_to64();
        lemma2_to64_rest();
        lemma_varint_bounds(bytes@, offset as int, acc as int, budget as nat);
        assert(pow2((7 * (9 - budget)) as nat) <= pow2(56)) by {
            if ((7 * (9 - budget)) as nat) < 56 {
                vstd::arithmetic::power2::lemma_pow2_strictly_increases(
                    (7 * (9 - budget)) as nat,
                    56,
                );
            }
        }
        assert(pow2(56) == 0x100000000000000);
    }
    if offset >= bytes.len() {
        return Err(SQLiteError::TruncatedCell);
    }
    let byte = bytes[offset];
    if budget == 1 {
        Ok((acc * 0x100 + byte as u64, 1))
    } else if byte < 0x80 {
        Ok((acc * 0x80 + byte as u64, 1))
    } else {
        proof {
            assert(pow2((7 * (9 - budget)) as nat) * 0x80 == pow2(
                (7 * (9 - (budget - 1))) as nat,
            )) by {
                lemma_pow2_adds((7 * (9 - budget)) as nat, 7);
                assert(pow2(7) == 0x80);
            }
            assert((acc as int) * 0x80 + (byte - 0x80) < pow2((7 * (9 - (budget - 1))) as nat))
                by (nonlinear_arith)
                requires
                    0 <= acc,
                    (acc as int) < pow2((7 * (9 - budget)) as nat),
                    0x80 <= byte < 0x100,
                    pow2((7 * (9 - budget)) as nat) * 0x80 == pow2(
                        (7 * (9 - (budget - 1))) as nat,
                    ),
            ;
        }
        let next = decode_varint_rec(bytes, offset + 1, acc * 0x80 + (byte - 0x80) as u64, budget
            - 1)?;
        Ok((next.0, next.1 + 1))
    }
}

/// Decodes the varint starting at `offset`. Returns its value and the
/// number of bytes it took, or fails exactly when the input ends
/// before the varint does.
pub fn decode_varint(bytes: &[u8], offset: usize) -> (r: SQLiteResult<(u64, usize)>)
    ensures
        match spec_varint(bytes@, offset as int) {
            Some(vn) => r matches Ok(p) && p.0 as int == vn.0 && p.1 as int == vn.1 && 1 <= p.1
                <= 9,
            None => r == Err::<(u64, usize), _>(SQLiteError::TruncatedCell),
        },
        (r is Ok) == (spec_varint(bytes@, offset as int) is Some),
{
    proof {
        vstd::arithmetic::power2::lemma_pow2_pos(0);
        lemma_varint_bounds(bytes@, offset as int, 0, 9);
    }
    decode_varint_rec(bytes, offset, 0, 9)
}

} // verus!
