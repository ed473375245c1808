//! A whole b-tree page: the page-type tag, the page header, and the
//! cell-pointer array that follows it. Each call to the parser is
//! independent and pure given its input bytes.

use vstd::prelude::*;

use crate::btree::cell::{spec_parse_cell, BtreeCell, CellV};
use crate::btree::header::{spec_btree_header_of, BtreeHeaderV, BtreePageHeader};
use crate::btree::page_type::{page_type_tag_ok, BtreePageType};
use crate::btree::payload::usable_size_ok;
use crate::bytes::spec_be_u16;
use crate::result::{FieldKind, InvalidPayloadSizeError, SQLiteError, SQLiteResult};

verus! {

/// The page kind a legal tag byte stands for.
pub open spec fn spec_tag_type(t: int) -> BtreePageType {
    if t == 2 {
        BtreePageType::InteriorIndex
    } else if t == 5 {
        BtreePageType::InteriorTable
    } else if t == 10 {
        BtreePageType::LeafIndex
    } else {
        BtreePageType::LeafTable
    }
}

/// The byte length of the header opened by tag `t`: 8 on leaves, 12
/// on interior pages.
pub open spec fn spec_tag_header_length(t: int) -> int {
    if t == 10 || t == 13 {
        8
    } else {
        12
    }
}

/// The cell count stored at offset 3 of page buffer `b`.
pub open spec fn spec_cell_count(b: Seq<u8>) -> int {
    spec_be_u16(b, 3)
}

/// The `n` cell pointers that follow a header of `hdr` bytes: two-byte
/// big-endian offsets into the same page, in key order.
pub open spec fn spec_cell_pointers(b: Seq<u8>, hdr: int, n: int) -> Seq<int> {
    Seq::new(n as nat, |k: int| spec_be_u16(b, hdr + 2 * k))
}

/// Whether page buffer `b` parses as a b-tree page under usable size
/// `u`: a legal tag, a complete header, a complete cell-pointer
/// array, and every pointer inside the usable page area.
pub open spec fn spec_btree_page_ok(b: Seq<u8>, u: int) -> bool {
    &&& b.len() >= 1
    &&& page_type_tag_ok(b[0] as int)
    &&& b.len() >= spec_tag_header_length(b[0] as int)
    &&& b.len() >= spec_tag_header_length(b[0] as int) + 2 * spec_cell_count(b)
    &&& forall|k: int|
        0 <= k < spec_cell_count(b) ==> #[trigger] spec_cell_pointers(
            b,
            spec_tag_header_length(b[0] as int),
            spec_cell_count(b),
        )[k] < u
}

/// The cell-pointer array of a page: `cell_count` two-byte offsets to
/// cell starts, arranged in key order, left-most cell first.
#[derive(Debug)]
pub struct BtreePageCellPointerArray(Vec<u16>);

impl View for BtreePageCellPointerArray {
    type V = Seq<u16>;

    closed spec fn view(&self) -> Seq<u16> {
        self.0@
    }
}

impl BtreePageCellPointerArray {
    /// The number of cell pointers.
    pub fn len(&self) -> (r: usize)
        ensures
            r == self@.len(),
    {
        self.0.len()
    }

    /// The `i`-th cell pointer, left-most key first.
    pub fn get(&self, i: usize) -> (r: u16)
        requires
            i < self@.len(),
        ensures
            r == self@[i as int],
    {
        self.0[i]
    }

    /// Reads `n` two-byte pointers starting at byte `start`.
    pub fn parsing_handler(bytes: &[u8], start: usize, n: usize) -> (r: SQLiteResult<Self>)
        ensures
            start + 2 * n > bytes@.len() ==> r == Err::<Self, _>(
                SQLiteError::TruncatedCellPointerArray,
            ),
            start + 2 * n <= bytes@.len() ==> (r matches Ok(a) && a@.len() == n && forall|k: int|
                0 <= k < n ==> #[trigger] a@[k] as int == spec_cell_pointers(
                    bytes@,
                    start as int,
                    n as int,
                )[k]),
    {
        let len = bytes.len();
        if n > len / 2 || start > len - 2 * n {
            return Err(SQLiteError::TruncatedCellPointerArray);
        }
        let mut pointers: Vec<u16> = Vec::new();
        let mut k: usize = 0;
        while k < n
            invariant
                start + 2 * n <= bytes@.len(),
                start + 2 * n <= usize::MAX,
                k <= n,
                pointers@.len() == k,
                forall|j: int|
                    0 <= j < k ==> #[trigger] pointers@[j] as int == spec_be_u16(
                        bytes@,
                        start + 2 * j,
                    ),
            decreases n - k,
        {
            let p = crate::bytes::read_be_u16(bytes, start + 2 * k);
            pointers.push(p);
            k = k + 1;
        }
        Ok(BtreePageCellPointerArray(pointers))
    }
}

/// A parsed b-tree page: its kind, its header, and its cell-pointer
/// array. Cell contents are decoded on demand through `decode_cell`.
#[derive(Debug)]
pub struct BtreePage {
    page_type: BtreePageType,
    header: BtreePageHeader,
    cell_pointer_array: BtreePageCellPointerArray,
}

impl BtreePage {
    /// The page kind the tag byte decoded to.
    pub closed spec fn spec_page_type(&self) -> BtreePageType {
        self.page_type
    }

    /// The decoded page header.
    pub closed spec fn spec_header(&self) -> BtreeHeaderV {
        self.header@
    }

    /// The decoded cell pointers.
    pub closed spec fn spec_pointers(&self) -> Seq<u16> {
        self.cell_pointer_array@
    }

    /// A parsed page is internally consistent: the header carries the
    /// page's kind and the pointer array has one entry per cell.
    pub open spec fn spec_wf(&self) -> bool {
        &&& self.spec_header().page_type == self.spec_page_type()@
        &&& self.spec_pointers().len() == self.spec_header().number_of_cells
    }

    /// The page kind.
    pub fn page_type(&self) -> (r: &BtreePageType)
        ensures
            r == self.spec_page_type(),
    {
        &self.page_type
    }

    /// The page header.
    pub fn header(&self) -> (r: &BtreePageHeader)
        ensures
            r@ == self.spec_header(),
    {
        &self.header
    }

    /// The cell-pointer array.
    pub fn cell_pointer_array(&self) -> (r: &BtreePageCellPointerArray)
        ensures
            r@ == self.spec_pointers(),
    {
        &self.cell_pointer_array
    }

    /// The number of cells on the page.
    pub fn cell_count(&self) -> (r: usize)
        ensures
            r == self.spec_pointers().len(),
    {
        self.cell_pointer_array.len()
    }

    /// Parses a b-tree page from its buffer, in order: the page-type
    /// tag, the 8- or 12-byte header, then the cell-pointer array,
    /// each pointer checked against the usable page area. Malformed
    /// pages are reported, never partially decoded.
    pub fn parsing_handler(bytes: &[u8], usable_size: u32) -> (r: SQLiteResult<Self>)
        ensures
            spec_btree_page_ok(bytes@, usable_size as int) ==> (r matches Ok(pg) && {
                let tag = bytes@[0] as int;
                let hdr = spec_tag_header_length(tag);
                &&& pg.spec_page_type()@ == tag
                &&& pg.spec_header() == spec_btree_header_of(bytes@, spec_tag_type(tag))
                &&& pg.spec_pointers().len() == spec_cell_count(bytes@)
                &&& (forall|k: int|
                    0 <= k < spec_cell_count(bytes@) ==> #[trigger] pg.spec_pointers()[k] as int
                        == spec_cell_pointers(bytes@, hdr, spec_cell_count(bytes@))[k])
                &&& pg.spec_wf()
            }),
            bytes@.len() == 0 ==> r == Err::<Self, _>(
                SQLiteError::InvalidPayloadSize(
                    InvalidPayloadSizeError { field: FieldKind::BtreePageHeader },
                ),
            ),
            bytes@.len() >= 1 && !page_type_tag_ok(bytes@[0] as int) ==> r == Err::<Self, _>(
                SQLiteError::InvalidPageType(bytes@[0]),
            ),
            bytes@.len() >= 1 && page_type_tag_ok(bytes@[0] as int) && bytes@.len()
                < spec_tag_header_length(bytes@[0] as int) ==> r == Err::<Self, _>(
                SQLiteError::InvalidPayloadSize(
                    InvalidPayloadSizeError { field: FieldKind::BtreePageHeader },
                ),
            ),
            bytes@.len() >= 1 && page_type_tag_ok(bytes@[0] as int) && bytes@.len()
                >= spec_tag_header_length(bytes@[0] as int) && bytes@.len() < spec_tag_header_length(
                bytes@[0] as int,
            ) + 2 * spec_cell_count(bytes@) ==> r == Err::<Self, _>(
                SQLiteError::TruncatedCellPointerArray,
            ),
            ({
                let tag = bytes@[0] as int;
                let hdr = spec_tag_header_length(tag);
                let n = spec_cell_count(bytes@);
                let ptrs = spec_cell_pointers(bytes@, hdr, n);
                bytes@.len() >= 1 && page_type_tag_ok(tag) && bytes@.len() >= hdr + 2 * n && !(
                forall|k: int| 0 <= k < n ==> #[trigger] ptrs[k] < usable_size as int)
            }) ==> ({
                let tag = bytes@[0] as int;
                let hdr = spec_tag_header_length(tag);
                let n = spec_cell_count(bytes@);
                let ptrs = spec_cell_pointers(bytes@, hdr, n);
                exists|k: int|
                    {
                        &&& 0 <= k < n
                        &&& #[trigger] ptrs[k] >= usable_size as int
                        &&& (forall|j: int| 0 <= j < k ==> #[trigger] ptrs[j] < usable_size as int)
                        &&& r == Err::<Self, _>(SQLiteError::InvalidCellPointer(ptrs[k] as u16))
                    }
            }),
    {
        if bytes.len() == 0 {
            return Err(
                SQLiteError::InvalidPayloadSize(
                    InvalidPayloadSizeError { field: FieldKind::BtreePageHeader },
                ),
            );
        }
        let page_type = BtreePageType::from_byte(bytes[0])?;
        let header = BtreePageHeader::parsing_handler(&page_type, bytes)?;
        let header_length = page_type.header_length();
        let cell_count_u16 = header.number_of_cells().get();
        let cell_count = cell_count_u16 as usize;
        let cell_pointer_array = BtreePageCellPointerArray::parsing_handler(
            bytes,
            header_length,
            cell_count,
        )?;
        let mut k: usize = 0;
        while k < cell_count
            invariant
                cell_count == spec_cell_count(bytes@),
                bytes@.len() >= 1,
                page_type_tag_ok(bytes@[0] as int),
                header_length == spec_tag_header_length(bytes@[0] as int),
                bytes@.len() >= spec_tag_header_length(bytes@[0] as int) + 2 * spec_cell_count(
                    bytes@,
                ),
                cell_pointer_array@.len() == cell_count,
                forall|j: int|
                    0 <= j < cell_count ==> #[trigger] cell_pointer_array@[j] as int
                        == spec_cell_pointers(
                        bytes@,
                        header_length as int,
                        cell_count as int,
                    )[j],
                k <= cell_count,
                forall|j: int|
                    0 <= j < k ==> #[trigger] spec_cell_pointers(
                        bytes@,
                        header_length as int,
                        cell_count as int,
                    )[j] < usable_size as int,
            decreases cell_count - k,
        {
            let p = cell_pointer_array.get(k);
            if p as u32 >= usable_size {
                return Err(SQLiteError::InvalidCellPointer(p));
            }
            k = k + 1;
        }
        Ok(BtreePage { page_type, header, cell_pointer_array })
    }

    /// Decodes the `index`-th cell of this page out of the same page
    /// buffer the page was parsed from.
    pub fn decode_cell(&self, bytes: &[u8], index: usize, usable_size: u32) -> (r: SQLiteResult<
        BtreeCell,
    >)
        requires
            index < self.spec_pointers().len(),
            usable_size_ok(usable_size as int),
        ensures
            match spec_parse_cell(
                bytes@,
                self.spec_pointers()[index as int] as int,
                self.spec_page_type(),
                usable_size as int,
            ) {
                Ok(cv) => r matches Ok(c) && c@ == cv,
                Err(e) => r == Err::<BtreeCell, _>(e),
            },
    {
        let offset = self.cell_pointer_array.get(index);
        BtreeCell::parsing_handler(bytes, offset as usize, &self.page_type, usable_size)
    }

    /// Decodes every cell of this page, left-most key first.
    pub fn decode_cells(&self, bytes: &[u8], usable_size: u32) -> (r: SQLiteResult<Vec<BtreeCell>>)
        requires
            usable_size_ok(usable_size as int),
        ensures
            r matches Ok(cells) ==> {
                &&& cells@.len() == self.spec_pointers().len()
                &&& forall|i: int|
                    0 <= i < cells@.len() ==> spec_parse_cell(
                        bytes@,
                        self.spec_pointers()[i] as int,
                        self.spec_page_type(),
                        usable_size as int,
                    ) == Ok::<CellV, SQLiteError>(#[trigger] cells@[i]@)
            },
            r matches Err(e) ==> exists|i: int|
                0 <= i < self.spec_pointers().len() && spec_parse_cell(
                    bytes@,
                    #[trigger] self.spec_pointers()[i] as int,
                    self.spec_page_type(),
                    usable_size as int,
                ) == Err::<CellV, SQLiteError>(e),
    {
        let n = self.cell_pointer_array.len();
        let mut cells: Vec<BtreeCell> = Vec::new();
        let mut i: usize = 0;
        while i < n
            invariant
                n == self.spec_pointers().len(),
                usable_size_ok(usable_size as int),
                i <= n,
                cells@.len() == i,
                forall|j: int|
                    0 <= j < i ==> spec_parse_cell(
                        bytes@,
                        self.spec_pointers()[j] as int,
                        self.spec_page_type(),
                        usable_size as int,
                    ) == Ok::<CellV, SQLiteError>(#[trigger] cells@[j]@),
            decreases n - i,
        {
            let cell = self.decode_cell(bytes, i, usable_size)?;
            cells.push(cell);
            i = i + 1;
        }
        Ok(cells)
    }
}

} // verus!
