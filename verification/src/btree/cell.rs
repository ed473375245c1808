//! Cells: the records stored in a b-tree page's content area. The
//! shape of a cell depends on the page kind: interior cells carry a
//! left-child pointer, table cells carry a rowid, and every cell with
//! a payload keeps only its in-page portion here, with a trailing
//! pointer to the first overflow page when the payload spills.

use vstd::prelude::*;

use crate::btree::page_type::BtreePageType;
use crate::btree::payload::{index_local_size, spec_index_local, spec_table_leaf_local,
    table_leaf_local_size, usable_size_ok};
use crate::btree::varint::{spec_varint, spec_varint_rec};
use crate::bytes::spec_be_u32;
use crate::result::{SQLiteError, SQLiteResult};

verus! {

/// The mathematical content of a decoded cell: the optional left
/// child pointer, the optional rowid, the payload length when the
/// cell has one, the in-page payload bytes, and the first overflow
/// page when the payload spills.
pub struct CellV {
    pub left_child_page: Option<int>,
    pub rowid: Option<int>,
    pub payload_size: Option<int>,
    pub local_payload: Seq<u8>,
    pub first_overflow_page: Option<int>,
}

/// A varint that decoded to `Some` lies wholly within its input.
pub proof fn lemma_varint_in_bounds(b: Seq<u8>, i: int, acc: int, budget: nat)
    ensures
        match spec_varint_rec(b, i, acc, budget) {
            Some(vn) => i + vn.1 <= b.len(),
            None => true,
        },
    decreases budget,
{
    if budget == 0 || i >= b.len() {
    } else if budget == 1 {
    } else if b[i] < 0x80 {
    } else {
        lemma_varint_in_bounds(b, i + 1, acc * 0x80 + (b[i] - 0x80), (budget - 1) as nat);
    }
}

/// The in-page payload bytes starting at `start` together with the
/// overflow pointer that follows them when the payload spills: the
/// whole payload and no pointer when `local == p`, else `local` bytes
/// and the four-byte page number after them.
pub open spec fn spec_payload_part(b: Seq<u8>, start: int, p: int, local: int) -> Result<
    (Seq<u8>, Option<int>),
    SQLiteError,
> {
    if local == p {
        if start + p <= b.len() {
            Ok((b.subrange(start, start + p), None))
        } else {
            Err(SQLiteError::TruncatedCell)
        }
    } else {
        if start + local + 4 <= b.len() {
            Ok((b.subrange(start, start + local), Some(spec_be_u32(b, start + local))))
        } else {
            Err(SQLiteError::TruncatedCell)
        }
    }
}

/// The cell starting at byte `off` of page buffer `b`, on a page of
/// kind `t` with usable size `u`; an error exactly when the cell runs
/// past the end of the buffer.
pub open spec fn spec_parse_cell(b: Seq<u8>, off: int, t: BtreePageType, u: int) -> Result<
    CellV,
    SQLiteError,
> {
    match t {
        BtreePageType::InteriorTable => {
            if off < 0 || off + 4 > b.len() {
                Err(SQLiteError::TruncatedCell)
            } else {
                match spec_varint(b, off + 4) {
                    None => Err(SQLiteError::TruncatedCell),
                    Some((key, n)) => Ok(
                        CellV {
                            left_child_page: Some(spec_be_u32(b, off)),
                            rowid: Some(key),
                            payload_size: None,
                            local_payload: Seq::empty(),
                            first_overflow_page: None,
                        },
                    ),
                }
            }
        },
        BtreePageType::LeafTable => {
            match spec_varint(b, off) {
                None => Err(SQLiteError::TruncatedCell),
                Some((p, n1)) => match spec_varint(b, off + n1) {
                    None => Err(SQLiteError::TruncatedCell),
                    Some((key, n2)) => {
                        match spec_payload_part(
                            b,
                            off + n1 + n2,
                            p,
                            spec_table_leaf_local(u, p),
                        ) {
                            Err(e) => Err(e),
                            Ok((pl, ov)) => Ok(
                                CellV {
                                    left_child_page: None,
                                    rowid: Some(key),
                                    payload_size: Some(p),
                                    local_payload: pl,
                                    first_overflow_page: ov,
                                },
                            ),
                        }
                    },
                },
            }
        },
        BtreePageType::LeafIndex => {
            match spec_varint(b, off) {
                None => Err(SQLiteError::TruncatedCell),
                Some((p, n1)) => {
                    match spec_payload_part(b, off + n1, p, spec_index_local(u, p)) {
                        Err(e) => Err(e),
                        Ok((pl, ov)) => Ok(
                            CellV {
                                left_child_page: None,
                                rowid: None,
                                payload_size: Some(p),
                                local_payload: pl,
                                first_overflow_page: ov,
                            },
                        ),
                    }
                },
            }
        },
        BtreePageType::InteriorIndex => {
            if off < 0 || off + 4 > b.len() {
                Err(SQLiteError::TruncatedCell)
            } else {
                match spec_varint(b, off + 4) {
                    None => Err(SQLiteError::TruncatedCell),
                    Some((p, n1)) => {
                        match spec_payload_part(b, off + 4 + n1, p, spec_index_local(u, p)) {
                            Err(e) => Err(e),
                            Ok((pl, ov)) => Ok(
                                CellV {
                                    left_child_page: Some(spec_be_u32(b, off)),
                                    rowid: None,
                                    payload_size: Some(p),
                                    local_payload: pl,
                                    first_overflow_page: ov,
                                },
                            ),
                        }
                    },
                }
            }
        },
    }
}

/// One record of a b-tree page, decoded to its in-page parts.
#[derive(Debug)]
pub enum BtreeCell {
    /// A row of a table: rowid and payload, in a leaf-table page.
    TableLeaf {
        rowid: u64,
        payload_size: u64,
        local_payload: Vec<u8>,
        first_overflow_page: Option<u32>,
    },
    /// A divider of a table b-tree: left child pointer and rowid, no
    /// payload ever.
    TableInterior { left_child_page: u32, rowid: u64 },
    /// An index entry: key payload only.
    IndexLeaf { payload_size: u64, local_payload: Vec<u8>, first_overflow_page: Option<u32> },
    /// A divider of an index b-tree: left child pointer and key
    /// payload.
    IndexInterior {
        left_child_page: u32,
        payload_size: u64,
        local_payload: Vec<u8>,
        first_overflow_page: Option<u32>,
    },
}

impl View for BtreeCell {
    type V = CellV;

    closed spec fn view(&self) -> CellV {
        match self {
            BtreeCell::TableLeaf { rowid, payload_size, local_payload, first_overflow_page } => CellV {
                left_child_page: None,
                rowid: Some(*rowid as int),
                payload_size: Some(*payload_size as int),
                local_payload: local_payload@,
                first_overflow_page: match first_overflow_page {
                    Some(p) => Some(*p as int),
                    None => None,
                },
            },
            BtreeCell::TableInterior { left_child_page, rowid } => CellV {
                left_child_page: Some(*left_child_page as int),
                rowid: Some(*rowid as int),
                payload_size: None,
                local_payload: Seq::empty(),
                first_overflow_page: None,
            },
            BtreeCell::IndexLeaf { payload_size, local_payload, first_overflow_page } => CellV {
                left_child_page: None,
                rowid: None,
                payload_size: Some(*payload_size as int),
                local_payload: local_payload@,
                first_overflow_page: match first_overflow_page {
                    Some(p) => Some(*p as int),
                    None => None,
                },
            },
            BtreeCell::IndexInterior {
                left_child_page,
                payload_size,
                local_payload,
                first_overflow_page,
            } => CellV {
                left_child_page: Some(*left_child_page as int),
                rowid: None,
                payload_size: Some(*payload_size as int),
                local_payload: local_payload@,
                first_overflow_page: match first_overflow_page {
                    Some(p) => Some(*p as int),
                    None => None,
                },
            },
        }
    }
}

/// Reads the in-page payload and, when the payload spills, the
/// four-byte overflow pointer after it.
fn read_payload_part(bytes: &[u8], start: usize, payload_size: u64, local: u64) -> (r:
    SQLiteResult<(Vec<u8>, Option<u32>)>)
    requires
        local <= payload_size,
        local <= 0x10000,
    ensures
        match spec_payload_part(bytes@, start as int, payload_size as int, local as int) {
            Ok(part) => r matches Ok(q) && q.0@ == part.0 && (match q.1 {
                Some(p) => part.1 == Some(p as int),
                None => part.1 is None,
            }),
            Err(e) => r == Err::<(Vec<u8>, Option<u32>), _>(e),
        },
{
    let len = bytes.len();
    if local == payload_size {
        if payload_size <= (len as u64) && (start as u64) <= (len as u64) - payload_size {
            let pl = crate::bytes::copy_range(bytes, start, payload_size as usize);
            Ok((pl, None))
        } else {
            Err(SQLiteError::TruncatedCell)
        }
    } else {
        if local + 4 <= (len as u64) && (start as u64) <= (len as u64) - local - 4 {
            let pl = crate::bytes::copy_range(bytes, start, local as usize);
            let overflow = crate::bytes::read_be_u32(bytes, start + (local as usize));
            Ok((pl, Some(overflow)))
        } else {
            Err(SQLiteError::TruncatedCell)
        }
    }
}

impl BtreeCell {
    /// Decodes the cell that starts at byte `offset` of a page of
    /// kind `page_type` whose usable size is `usable_size`.
    pub fn parsing_handler(
        bytes: &[u8],
        offset: usize,
        page_type: &BtreePageType,
        usable_size: u32,
    ) -> (r: SQLiteResult<BtreeCell>)
        requires
            usable_size_ok(usable_size as int),
        ensures
            match spec_parse_cell(bytes@, offset as int, *page_type, usable_size as int) {
                Ok(cv) => r matches Ok(c) && c@ == cv,
                Err(e) => r == Err::<BtreeCell, _>(e),
            },
    {
        let len = bytes.len();
        match page_type {
            BtreePageType::InteriorTable => {
                if len < 4 || offset > len - 4 {
                    return Err(SQLiteError::TruncatedCell);
                }
                let left_child_page = crate::bytes::read_be_u32(bytes, offset);
                let (rowid, _n) = crate::btree::varint::decode_varint(bytes, offset + 4)?;
                Ok(BtreeCell::TableInterior { left_child_page, rowid })
            },
            BtreePageType::LeafTable => {
                let (payload_size, n1) = crate::btree::varint::decode_varint(bytes, offset)?;
                proof {
                    lemma_varint_in_bounds(bytes@, offset as int, 0, 9);
                }
                let (rowid, n2) = crate::btree::varint::decode_varint(bytes, offset + n1)?;
                proof {
                    lemma_varint_in_bounds(bytes@, offset + n1, 0, 9);
                }
                let local = table_leaf_local_size(usable_size, payload_size);
                proof {
                    crate::btree::payload::lemma_local_size_bounds(
                        usable_size as int,
                        payload_size as int,
                        crate::btree::payload::spec_table_leaf_max_local(usable_size as int),
                    );
                }
                let part = read_payload_part(bytes, offset + n1 + n2, payload_size, local)?;
                Ok(
                    BtreeCell::TableLeaf {
                        rowid,
                        payload_size,
                        local_payload: part.0,
                        first_overflow_page: part.1,
                    },
                )
            },
            BtreePageType::LeafIndex => {
                let (payload_size, n1) = crate::btree::varint::decode_varint(bytes, offset)?;
                proof {
                    lemma_varint_in_bounds(bytes@, offset as int, 0, 9);
                }
                let local = index_local_size(usable_size, payload_size);
                proof {
                    crate::btree::payload::lemma_local_size_bounds(
                        usable_size as int,
                        payload_size as int,
                        crate::btree::payload::spec_index_max_local(usable_size as int),
                    );
                    crate::btree::payload::lemma_min_local_below_max(usable_size as int);
                }
                let part = read_payload_part(bytes, offset + n1, payload_size, local)?;
                Ok(
                    BtreeCell::IndexLeaf {
                        payload_size,
                        local_payload: part.0,
                        first_overflow_page: part.1,
                    },
                )
            },
            BtreePageType::InteriorIndex => {
                if len < 4 || offset > len - 4 {
                    return Err(SQLiteError::TruncatedCell);
                }
                let left_child_page = crate::bytes::read_be_u32(bytes, offset);
                let (payload_size, n1) = crate::btree::varint::decode_varint(bytes, offset + 4)?;
                proof {
                    lemma_varint_in_bounds(bytes@, offset + 4, 0, 9);
                }
                let local = index_local_size(usable_size, payload_size);
                proof {
                    crate::btree::payload::lemma_local_size_bounds(
                        usable_size as int,
                        payload_size as int,
                        crate::btree::payload::spec_index_max_local(usable_size as int),
                    );
                    crate::btree::payload::lemma_min_local_below_max(usable_size as int);
                }
                let part = read_payload_part(bytes, offset + 4 + n1, payload_size, local)?;
                Ok(
                    BtreeCell::IndexInterior {
                        left_child_page,
                        payload_size,
                        local_payload: part.0,
                        first_overflow_page: part.1,
                    },
                )
            },
        }
    }
}

} // verus!
