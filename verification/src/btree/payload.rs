//! The overflow-spill arithmetic of the file format. For a page of
//! usable size `U` holding a cell with payload size `P`, these
//! formulas decide how many payload bytes stay in-page and how many
//! spill to overflow pages. They are reproduced exactly from the
//! file-format rules; any deviation breaks interoperability.

use vstd::prelude::*;

verus! {

/// The least usable size any legal page has: a 512-byte page may
/// reserve at most 32 bytes, and every larger page size leaves more.
pub open spec fn usable_size_ok(u: int) -> bool {
    480 <= u <= 65536
}

/// `M`, the minimum payload that must stay in-page before spilling is
/// allowed: `(U-12)*32/255 - 23`.
pub open spec fn spec_min_local(u: int) -> int {
    (u - 12) * 32 / 255 - 23
}

/// `X` for a table-leaf cell: the largest payload stored wholly
/// in-page, `U - 35`.
pub open spec fn spec_table_leaf_max_local(u: int) -> int {
    u - 35
}

/// `X` for an index cell, leaf or interior: `(U-12)*64/255 - 23`.
pub open spec fn spec_index_max_local(u: int) -> int {
    (u - 12) * 64 / 255 - 23
}

/// `K = M + ((P-M) mod (U-4))`, the candidate in-page size of a
/// spilling payload.
pub open spec fn spec_spill_candidate(u: int, p: int) -> int {
    spec_min_local(u) + (p - spec_min_local(u)) % (u - 4)
}

/// In-page payload bytes of a cell with payload `p`, given the
/// in-page maximum `x` of its cell kind: all of it when it fits,
/// otherwise `K` unless that exceeds `x`, and never less than `M`.
pub open spec fn spec_local_size(u: int, p: int, x: int) -> int {
    if p <= x {
        p
    } else if spec_spill_candidate(u, p) <= x {
        spec_spill_candidate(u, p)
    } else {
        spec_min_local(u)
    }
}

/// In-page payload bytes of a table-leaf cell.
pub open spec fn spec_table_leaf_local(u: int, p: int) -> int {
    spec_local_size(u, p, spec_table_leaf_max_local(u))
}

/// In-page payload bytes of an index cell, leaf or interior.
pub open spec fn spec_index_local(u: int, p: int) -> int {
    spec_local_size(u, p, spec_index_max_local(u))
}

/// `M` is below both in-page maxima: `(U-12)*32/255 - 23` is at most
/// `(U-12)*64/255 - 23`, which is at most `U - 35`.
pub proof fn lemma_min_local_below_max(u: int)
    requires
        usable_size_ok(u),
    ensures
        0 < spec_min_local(u) <= spec_index_max_local(u) <= spec_table_leaf_max_local(u),
{
    assert((u - 12) * 32 / 255 - 23 > 0 && (u - 12) * 32 / 255 <= (u - 12) * 64 / 255 && (u - 12)
        * 64 / 255 <= u - 12) by (nonlinear_arith)
        requires
            480 <= u <= 65536,
    ;
}

/// The minimum in-page payload, `(U-12)*32/255 - 23`.
pub fn min_local(usable_size: u32) -> (r: u32)
    requires
        usable_size_ok(usable_size as int),
    ensures
        r as int == spec_min_local(usable_size as int),
        0 < r < usable_size,
{
    proof {
        lemma_min_local_below_max(usable_size as int);
    }
    (usable_size - 12) * 32 / 255 - 23
}

/// The largest table-leaf payload stored wholly in-page, `U - 35`.
pub fn table_leaf_max_local(usable_size: u32) -> (r: u32)
    requires
        usable_size_ok(usable_size as int),
    ensures
        r as int == spec_table_leaf_max_local(usable_size as int),
{
    usable_size - 35
}

/// The largest index payload stored wholly in-page,
/// `(U-12)*64/255 - 23`.
pub fn index_max_local(usable_size: u32) -> (r: u32)
    requires
        usable_size_ok(usable_size as int),
    ensures
        r as int == spec_index_max_local(usable_size as int),
{
    proof {
        assert((usable_size - 12) * 64 / 255 - 23 >= 0 && (usable_size - 12) * 64 / 255 - 23 <= (
        usable_size - 12) * 64) by (nonlinear_arith)
            requires
                480 <= usable_size <= 65536,
        ;
    }
    (usable_size - 12) * 64 / 255 - 23
}

/// In-page size of a payload of `payload_size` bytes whose in-page
/// maximum is `max_local`.
fn local_size(usable_size: u32, payload_size: u64, max_local: u32) -> (r: u64)
    requires
        usable_size_ok(usable_size as int),
        max_local as int <= spec_table_leaf_max_local(usable_size as int),
        spec_min_local(usable_size as int) <= max_local as int,
    ensures
        r as int == spec_local_size(usable_size as int, payload_size as int, max_local as int),
{
    if payload_size <= max_local as u64 {
        return payload_size;
    }
    let m = min_local(usable_size) as u64;
    let k = m + (payload_size - m) % (usable_size as u64 - 4);
    proof {
        let u = usable_size as int;
        let p = payload_size as int;
        let mi = spec_min_local(u);
        assert((p - mi) % (u - 4) == (payload_size - m) as int % (u - 4)) by (nonlinear_arith)
            requires
                mi == m as int,
                p == payload_size as int,
                u == usable_size as int,
                0 <= m < p,
                4 < u,
        ;
        assert(0 <= (payload_size - m) as int % (u - 4) < u - 4);
    }
    if k <= max_local as u64 {
        k
    } else {
        m
    }
}

/// In-page payload bytes of a table-leaf cell with a payload of
/// `payload_size` bytes: the whole payload when it is at most
/// `U - 35`, else `K = M + ((P-M) mod (U-4))` when that is at most
/// `U - 35`, else `M`.
pub fn table_leaf_local_size(usable_size: u32, payload_size: u64) -> (r: u64)
    requires
        usable_size_ok(usable_size as int),
    ensures
        r as int == spec_table_leaf_local(usable_size as int, payload_size as int),
{
    proof {
        lemma_min_local_below_max(usable_size as int);
    }
    local_size(usable_size, payload_size, table_leaf_max_local(usable_size))
}

/// In-page payload bytes of an index cell, leaf or interior, with a
/// payload of `payload_size` bytes.
pub fn index_local_size(usable_size: u32, payload_size: u64) -> (r: u64)
    requires
        usable_size_ok(usable_size as int),
    ensures
        r as int == spec_index_local(usable_size as int, payload_size as int),
{
    proof {
        lemma_min_local_below_max(usable_size as int);
    }
    local_size(usable_size, payload_size, index_max_local(usable_size))
}

/// Whether a table-leaf payload spills to overflow pages: exactly
/// when it exceeds `U - 35`.
pub fn table_leaf_payload_spills(usable_size: u32, payload_size: u64) -> (r: bool)
    requires
        usable_size_ok(usable_size as int),
    ensures
        r == (payload_size as int > spec_table_leaf_max_local(usable_size as int)),
        r == (spec_table_leaf_local(usable_size as int, payload_size as int) < payload_size
            as int),
{
    proof {
        lemma_local_size_bounds(
            usable_size as int,
            payload_size as int,
            spec_table_leaf_max_local(usable_size as int),
        );
    }
    payload_size > table_leaf_max_local(usable_size) as u64
}

/// A spilling payload keeps at least `M` and at most `x` bytes
/// in-page; a fitting payload keeps all of its bytes.
pub proof fn lemma_local_size_bounds(u: int, p: int, x: int)
    requires
        usable_size_ok(u),
        0 <= p,
        spec_min_local(u) <= x <= spec_table_leaf_max_local(u),
    ensures
        p <= x ==> spec_local_size(u, p, x) == p,
        p > x ==> spec_min_local(u) <= spec_local_size(u, p, x) <= x,
        p > x ==> spec_local_size(u, p, x) < p,
{
    lemma_min_local_below_max(u);
    if p > x {
        let m = spec_min_local(u);
        assert(0 <= (p - m) % (u - 4) < u - 4) by (nonlinear_arith)
            requires
                0 <= m < p,
                4 < u,
        ;
    }
}

} // verus!
