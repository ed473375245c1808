//! The b-tree page header: 8 bytes on leaf pages, 12 on interior
//! pages, the page-type tag at offset 0 included. All multi-byte
//! header integers are big-endian. Interior headers alone carry the
//! right-most child pointer, so the two shapes are distinct variants.

use vstd::prelude::*;

use crate::btree::header_fields::{spec_decode_content_start, BtreePageFirstFreeBlock,
    BtreePageNumberOfCells, FragmentedFreeBytes, RightMostPointer, StartofCellContentArea};
use crate::btree::page_type::BtreePageType;
use crate::bytes::{spec_be_u16, spec_be_u32};
use crate::result::{FieldKind, InvalidPayloadSizeError, SQLiteError, SQLiteResult};

verus! {

/// The mathematical content of a decoded b-tree page header.
pub struct BtreeHeaderV {
    pub page_type: int,
    pub first_freeblock: int,
    pub number_of_cells: int,
    pub cell_content_start: int,
    pub fragmented_free_bytes: int,
    pub right_most_pointer: Option<int>,
}

/// The header value the start of page buffer `b` decodes to for a
/// page of kind `t`: the tag at offset 0, the four common fields at
/// offsets 1, 3, 5 and 7, and on interior pages the right-most child
/// pointer at offset 8.
pub open spec fn spec_btree_header_of(b: Seq<u8>, t: BtreePageType) -> BtreeHeaderV {
    BtreeHeaderV {
        page_type: t@,
        first_freeblock: spec_be_u16(b, 1),
        number_of_cells: spec_be_u16(b, 3),
        cell_content_start: spec_decode_content_start(spec_be_u16(b, 5)),
        fragmented_free_bytes: b[7] as int,
        right_most_pointer: if t.spec_is_leaf() {
            None
        } else {
            Some(spec_be_u32(b, 8))
        },
    }
}

/// The 8-byte header of a leaf page.
#[derive(Debug, Clone, Copy, PartialEq, Eq, Structural)]
pub struct BtreePageHeaderLeaf {
    page_type: BtreePageType,
    first_freeblock: BtreePageFirstFreeBlock,
    number_of_cells: BtreePageNumberOfCells,
    start_of_cell_content_area: StartofCellContentArea,
    fragmented_free_bytes: FragmentedFreeBytes,
}

/// The 12-byte header of an interior page: the leaf fields plus the
/// right-most child pointer.
#[derive(Debug, Clone, Copy, PartialEq, Eq, Structural)]
pub struct BtreePageHeaderInterior {
    page_type: BtreePageType,
    first_freeblock: BtreePageFirstFreeBlock,
    number_of_cells: BtreePageNumberOfCells,
    start_of_cell_content_area: StartofCellContentArea,
    fragmented_free_bytes: FragmentedFreeBytes,
    right_most_pointer: RightMostPointer,
}

/// A b-tree page header, leaf or interior. The kind is decided once,
/// by the page-type tag, and the right-most pointer exists only in
/// the interior shape.
#[derive(Debug, Clone, Copy, PartialEq, Eq, Structural)]
pub enum BtreePageHeader {
    Leaf(BtreePageHeaderLeaf),
    Interior(BtreePageHeaderInterior),
}

impl View for BtreePageHeader {
    type V = BtreeHeaderV;

    closed spec fn view(&self) -> BtreeHeaderV {
        match self {
            BtreePageHeader::Leaf(h) => BtreeHeaderV {
                page_type: h.page_type@,
                first_freeblock: h.first_freeblock@,
                number_of_cells: h.number_of_cells@,
                cell_content_start: h.start_of_cell_content_area@,
                fragmented_free_bytes: h.fragmented_free_bytes@,
                right_most_pointer: None,
            },
            BtreePageHeader::Interior(h) => BtreeHeaderV {
                page_type: h.page_type@,
                first_freeblock: h.first_freeblock@,
                number_of_cells: h.number_of_cells@,
                cell_content_start: h.start_of_cell_content_area@,
                fragmented_free_bytes: h.fragmented_free_bytes@,
                right_most_pointer: Some(h.right_most_pointer@),
            },
        }
    }
}

impl BtreePageHeader {
    /// A header's shape agrees with its page-type tag.
    pub open spec fn spec_wf(&self) -> bool {
        match self {
            BtreePageHeader::Leaf(_) => self@.page_type == 10 || self@.page_type == 13,
            BtreePageHeader::Interior(_) => self@.page_type == 2 || self@.page_type == 5,
        }
    }

    /// The page-type tag this header was decoded under.
    pub fn page_type(&self) -> (r: &BtreePageType)
        ensures
            r@ == self@.page_type,
    {
        match self {
            BtreePageHeader::Leaf(h) => &h.page_type,
            BtreePageHeader::Interior(h) => &h.page_type,
        }
    }

    /// The header's length in bytes: 8 for a leaf, 12 for an interior
    /// page, the tag byte included.
    pub fn length_bytes(&self) -> (r: usize)
        ensures
            (self matches BtreePageHeader::Leaf(_)) ==> r == 8,
            (self matches BtreePageHeader::Interior(_)) ==> r == 12,
    {
        match self {
            BtreePageHeader::Leaf(_) => 8,
            BtreePageHeader::Interior(_) => 12,
        }
    }

    /// The first-freeblock offset, zero when there are none.
    pub fn first_freeblock(&self) -> (r: &BtreePageFirstFreeBlock)
        ensures
            r@ == self@.first_freeblock,
    {
        match self {
            BtreePageHeader::Leaf(h) => &h.first_freeblock,
            BtreePageHeader::Interior(h) => &h.first_freeblock,
        }
    }

    /// The number of cells on the page.
    pub fn number_of_cells(&self) -> (r: &BtreePageNumberOfCells)
        ensures
            r@ == self@.number_of_cells,
    {
        match self {
            BtreePageHeader::Leaf(h) => &h.number_of_cells,
            BtreePageHeader::Interior(h) => &h.number_of_cells,
        }
    }

    /// The start of the cell content area, already widened from the
    /// zero-means-65536 stored form.
    pub fn start_of_cell_content_area(&self) -> (r: &StartofCellContentArea)
        ensures
            r@ == self@.cell_content_start,
    {
        match self {
            BtreePageHeader::Leaf(h) => &h.start_of_cell_content_area,
            BtreePageHeader::Interior(h) => &h.start_of_cell_content_area,
        }
    }

    /// The fragmented free byte count.
    pub fn fragmented_free_bytes(&self) -> (r: &FragmentedFreeBytes)
        ensures
            r@ == self@.fragmented_free_bytes,
    {
        match self {
            BtreePageHeader::Leaf(h) => &h.fragmented_free_bytes,
            BtreePageHeader::Interior(h) => &h.fragmented_free_bytes,
        }
    }

    /// The right-most child pointer: present on interior pages,
    /// absent on leaves.
    pub fn right_most_pointer(&self) -> (r: Option<&RightMostPointer>)
        ensures
            match r {
                Some(p) => self@.right_most_pointer == Some(p@),
                None => self@.right_most_pointer is None,
            },
    {
        match self {
            BtreePageHeader::Leaf(_) => None,
            BtreePageHeader::Interior(h) => Some(&h.right_most_pointer),
        }
    }

    /// Decodes the page header from the start of a page buffer, for a
    /// page whose tag byte decoded to `page_type`. Fails exactly when
    /// the buffer is shorter than the header.
    pub fn parsing_handler(page_type: &BtreePageType, bytes: &[u8]) -> (r: SQLiteResult<Self>)
        ensures
            bytes@.len() < page_type.spec_header_length() ==> r == Err::<Self, _>(
                SQLiteError::InvalidPayloadSize(
                    InvalidPayloadSizeError { field: FieldKind::BtreePageHeader },
                ),
            ),
            bytes@.len() >= page_type.spec_header_length() ==> (r matches Ok(h) && h@
                == spec_btree_header_of(bytes@, *page_type) && h.spec_wf()),
    {
        let header_length = page_type.header_length();
        if bytes.len() < header_length {
            return Err(
                SQLiteError::InvalidPayloadSize(
                    InvalidPayloadSizeError { field: FieldKind::BtreePageHeader },
                ),
            );
        }
        let first_freeblock = BtreePageFirstFreeBlock::new(crate::bytes::read_be_u16(bytes, 1));
        let number_of_cells = BtreePageNumberOfCells::new(crate::bytes::read_be_u16(bytes, 3));
        let start_of_cell_content_area = StartofCellContentArea::from_raw(
            crate::bytes::read_be_u16(bytes, 5),
        );
        let fragmented_free_bytes = FragmentedFreeBytes::new(bytes[7]);
        if page_type.is_leaf() {
            Ok(
                BtreePageHeader::Leaf(
                    BtreePageHeaderLeaf {
                        page_type: *page_type,
                        first_freeblock,
                        number_of_cells,
                        start_of_cell_content_area,
                        fragmented_free_bytes,
                    },
                ),
            )
        } else {
            let right_most_pointer = RightMostPointer::new(crate::bytes::read_be_u32(bytes, 8));
            Ok(
                BtreePageHeader::Interior(
                    BtreePageHeaderInterior {
                        page_type: *page_type,
                        first_freeblock,
                        number_of_cells,
                        start_of_cell_content_area,
                        fragmented_free_bytes,
                        right_most_pointer,
                    },
                ),
            )
        }
    }
}

} // verus!
