//! B-tree pages: the page-type tag, the 8- or 12-byte page header,
//! the cell-pointer array, and the cells themselves with the
//! overflow-spill arithmetic of the file format.

pub mod cell;
pub mod header;
pub mod header_fields;
pub mod page;
pub mod page_type;
pub mod payload;
pub mod varint;

pub use cell::{BtreeCell, CellV};
pub use header::{BtreeHeaderV, BtreePageHeader, BtreePageHeaderInterior, BtreePageHeaderLeaf};
pub use header_fields::{BtreePageFirstFreeBlock, BtreePageNumberOfCells, FragmentedFreeBytes,
    RightMostPointer, StartofCellContentArea};
pub use page::{BtreePage, BtreePageCellPointerArray};
pub use page_type::BtreePageType;
