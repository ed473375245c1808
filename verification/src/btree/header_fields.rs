//! The fields of the b-tree page header that follow the page-type tag:
//! first-freeblock offset, cell count, start of the cell content area,
//! fragmented free byte count, and — on interior pages only — the
//! right-most child pointer.

use vstd::prelude::*;

verus! {

/// The offset of the first freeblock on the page, or zero when the
/// page has no freeblocks. Stored at header offset 1.
#[derive(Debug, Clone, Copy, PartialEq, Eq, Structural)]
pub struct BtreePageFirstFreeBlock(u16);

impl View for BtreePageFirstFreeBlock {
    type V = int;

    closed spec fn view(&self) -> int {
        self.0 as int
    }
}

impl BtreePageFirstFreeBlock {
    /// Wraps a freeblock offset.
    pub fn new(v: u16) -> (r: Self)
        ensures
            r@ == v as int,
    {
        BtreePageFirstFreeBlock(v)
    }

    /// The stored offset; zero means no freeblocks.
    pub fn get(&self) -> (r: u16)
        ensures
            r as int == self@,
    {
        self.0
    }

    /// Whether the page has any freeblock at all.
    pub fn is_none(&self) -> (r: bool)
        ensures
            r == (self@ == 0),
    {
        self.0 == 0
    }
}

/// The number of cells on the page. Stored at header offset 3.
#[derive(Debug, Clone, Copy, PartialEq, Eq, Structural)]
pub struct BtreePageNumberOfCells(u16);

impl View for BtreePageNumberOfCells {
    type V = int;

    closed spec fn view(&self) -> int {
        self.0 as int
    }
}

impl BtreePageNumberOfCells {
    /// Wraps a cell count.
    pub fn new(v: u16) -> (r: Self)
        ensures
            r@ == v as int,
    {
        BtreePageNumberOfCells(v)
    }

    /// The cell count.
    pub fn get(&self) -> (r: u16)
        ensures
            r as int == self@,
    {
        self.0
    }

    /// The cell count as an index bound.
    pub fn into_inner(&self) -> (r: u16)
        ensures
            r as int == self@,
    {
        self.0
    }
}

/// The start of the cell content area. Stored as two bytes at header
/// offset 5, where the stored value 0 stands for 65536, the same
/// convention as the page size field.
#[derive(Debug, Clone, Copy, PartialEq, Eq, Structural)]
pub struct StartofCellContentArea(u32);

impl View for StartofCellContentArea {
    type V = int;

    closed spec fn view(&self) -> int {
        self.0 as int
    }
}

/// The content-area start a stored two-byte value stands for.
pub open spec fn spec_decode_content_start(raw: int) -> int {
    if raw == 0 {
        65536
    } else {
        raw
    }
}

impl StartofCellContentArea {
    /// Decodes a stored two-byte value; 0 stands for 65536.
    pub fn from_raw(raw: u16) -> (r: Self)
        ensures
            r@ == spec_decode_content_start(raw as int),
    {
        if raw == 0 {
            StartofCellContentArea(65536)
        } else {
            StartofCellContentArea(raw as u32)
        }
    }

    /// The decoded start of the cell content area.
    pub fn get(&self) -> (r: u32)
        ensures
            r as int == self@,
    {
        self.0
    }
}

/// The number of fragmented free bytes within the cell content area.
/// Stored at header offset 7.
#[derive(Debug, Clone, Copy, PartialEq, Eq, Structural)]
pub struct FragmentedFreeBytes(u8);

impl View for FragmentedFreeBytes {
    type V = int;

    closed spec fn view(&self) -> int {
        self.0 as int
    }
}

impl FragmentedFreeBytes {
    /// Wraps a fragmented free byte count.
    pub fn new(v: u8) -> (r: Self)
        ensures
            r@ == v as int,
    {
        FragmentedFreeBytes(v)
    }

    /// The fragmented free byte count.
    pub fn get(&self) -> (r: u8)
        ensures
            r as int == self@,
    {
        self.0
    }
}

/// The right-most child page number of an interior page. Stored as
/// four bytes at header offset 8, on interior pages only.
#[derive(Debug, Clone, Copy, PartialEq, Eq, Structural)]
pub struct RightMostPointer(u32);

impl View for RightMostPointer {
    type V = int;

    closed spec fn view(&self) -> int {
        self.0 as int
    }
}

impl RightMostPointer {
    /// Wraps a child page number.
    pub fn new(v: u32) -> (r: Self)
        ensures
            r@ == v as int,
    {
        RightMostPointer(v)
    }

    /// The child page number.
    pub fn get(&self) -> (r: u32)
        ensures
            r as int == self@,
    {
        self.0
    }
}

} // verus!
