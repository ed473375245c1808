//! The one-byte page-type tag at the start of every b-tree page header:
//! 2 for an interior index page, 5 for an interior table page, 10 for a
//! leaf index page, 13 for a leaf table page. Any other byte is a
//! format error.

use vstd::prelude::*;

use crate::result::{SQLiteError, SQLiteResult};

verus! {

/// The four legal page-type tag bytes.
pub open spec fn page_type_tag_ok(t: int) -> bool {
    t == 2 || t == 5 || t == 10 || t == 13
}

/// The kind of a b-tree page.
#[derive(Debug, Clone, Copy, PartialEq, Eq, Structural)]
pub enum BtreePageType {
    /// Tag 2: interior page of an index b-tree.
    InteriorIndex,
    /// Tag 5: interior page of a table b-tree.
    InteriorTable,
    /// Tag 10: leaf page of an index b-tree.
    LeafIndex,
    /// Tag 13: leaf page of a table b-tree.
    LeafTable,
}

impl View for BtreePageType {
    type V = int;

    open spec fn view(&self) -> int {
        match self {
            BtreePageType::InteriorIndex => 2,
            BtreePageType::InteriorTable => 5,
            BtreePageType::LeafIndex => 10,
            BtreePageType::LeafTable => 13,
        }
    }
}

impl crate::result::Name for BtreePageType {
    fn name() -> &'static str {
        "BtreePageType"
    }
}

impl BtreePageType {
    /// Whether the page is a leaf.
    pub open spec fn spec_is_leaf(&self) -> bool {
        self@ == 10 || self@ == 13
    }

    /// The length in bytes of the b-tree page header this tag opens:
    /// 8 for leaf pages, 12 for interior pages, the tag byte included.
    pub open spec fn spec_header_length(&self) -> int {
        if self.spec_is_leaf() {
            8
        } else {
            12
        }
    }

    /// The tag byte for this page kind.
    pub fn get(&self) -> (r: u8)
        ensures
            r as int == self@,
    {
        match self {
            BtreePageType::InteriorIndex => 2,
            BtreePageType::InteriorTable => 5,
            BtreePageType::LeafIndex => 10,
            BtreePageType::LeafTable => 13,
        }
    }

    /// Whether the page is a leaf.
    pub fn is_leaf(&self) -> (r: bool)
        ensures
            r == self.spec_is_leaf(),
    {
        match self {
            BtreePageType::LeafIndex | BtreePageType::LeafTable => true,
            _ => false,
        }
    }

    /// The length in bytes of the page header this tag opens.
    pub fn header_length(&self) -> (r: usize)
        ensures
            r as int == self.spec_header_length(),
    {
        if self.is_leaf() {
            8
        } else {
            12
        }
    }

    /// Reads a page-type tag byte.
    pub fn from_byte(tag: u8) -> (r: SQLiteResult<Self>)
        ensures
            page_type_tag_ok(tag as int) ==> (r matches Ok(t) && t@ == tag as int),
            !page_type_tag_ok(tag as int) ==> r == Err::<Self, _>(
                SQLiteError::InvalidPageType(tag),
            ),
    {
        match tag {
            2 => Ok(BtreePageType::InteriorIndex),
            5 => Ok(BtreePageType::InteriorTable),
            10 => Ok(BtreePageType::LeafIndex),
            13 => Ok(BtreePageType::LeafTable),
            _ => Err(SQLiteError::InvalidPageType(tag)),
        }
    }

    /// Decodes the tag from the first byte of a page.
    pub fn parsing_handler(bytes: &[u8]) -> (r: SQLiteResult<Self>)
        ensures
            bytes@.len() == 0 ==> r == Err::<Self, _>(
                SQLiteError::InvalidPayloadSize(
                    crate::result::InvalidPayloadSizeError {
                        field: crate::result::FieldKind::BtreePageHeader,
                    },
                ),
            ),
            bytes@.len() >= 1 ==> {
                if page_type_tag_ok(bytes@[0] as int) {
                    r matches Ok(t) && t@ == bytes@[0] as int
                } else {
                    r == Err::<Self, _>(SQLiteError::InvalidPageType(bytes@[0]))
                }
            },
    {
        if bytes.len() == 0 {
            return Err(
                SQLiteError::InvalidPayloadSize(
                    crate::result::InvalidPayloadSizeError {
                        field: crate::result::FieldKind::BtreePageHeader,
                    },
                ),
            );
        }
        BtreePageType::from_byte(bytes[0])
    }
}

} // verus!
