//! The reserved-space byte at offset 20: extra bytes set aside at the end
//! of every page for extensions. The usable size of a page may not fall
//! below 480, so a 512-byte page admits at most 32 reserved bytes.

use vstd::prelude::*;

use crate::header::page_size::PageSize;
use crate::result::{FieldKind, FieldParsingError, InvalidPayloadSizeError, SQLiteError,
    SQLiteResult};

verus! {

/// Whether `reserved` bytes may be set aside on pages of `page_size`
/// bytes: the usable size `page_size - reserved` must stay at least 480.
pub open spec fn reserved_ok(page_size: int, reserved: int) -> bool {
    page_size == 512 ==> reserved <= 32
}

/// Bytes of unused reserved space at the end of each page. Usually 0.
#[derive(Debug, Clone, Copy, PartialEq, Eq, Structural)]
pub struct ReservedBytesPerPage(u8);

impl View for ReservedBytesPerPage {
    type V = int;

    closed spec fn view(&self) -> int {
        self.0 as int
    }
}

impl crate::result::Name for ReservedBytesPerPage {
    fn name() -> &'static str {
        "ReservedBytesPerPage"
    }
}

impl ReservedBytesPerPage {
    /// Wraps a reserved-space count that is legal for `page_size`.
    pub fn new(v: u8, page_size: &PageSize) -> (r: Self)
        requires
            reserved_ok(page_size@, v as int),
        ensures
            r@ == v as int,
    {
        ReservedBytesPerPage(v)
    }

    /// The number of reserved bytes per page.
    pub fn get(&self) -> (r: u8)
        ensures
            r as int == self@,
    {
        self.0
    }

    /// Decodes the one-byte field at offset 20 and cross-checks it
    /// against the already-decoded page size: on 512-byte pages more
    /// than 32 reserved bytes would leave under 480 usable bytes.
    pub fn parse_bytes(bytes: &[u8], page_size: &PageSize) -> (r: SQLiteResult<Self>)
        ensures
            bytes@.len() < 1 ==> r == Err::<Self, _>(
                SQLiteError::InvalidPayloadSize(
                    InvalidPayloadSizeError { field: FieldKind::ReservedBytesPerPage },
                ),
            ),
            bytes@.len() >= 1 ==> {
                if reserved_ok(page_size@, bytes@[0] as int) {
                    r matches Ok(v) && v@ == bytes@[0] as int
                } else {
                    r == Err::<Self, _>(
                        SQLiteError::ParsingField(
                            FieldParsingError { field: FieldKind::ReservedBytesPerPage },
                        ),
                    )
                }
            },
    {
        if bytes.len() < 1 {
            return Err(
                SQLiteError::InvalidPayloadSize(
                    InvalidPayloadSizeError { field: FieldKind::ReservedBytesPerPage },
                ),
            );
        }
        let v = bytes[0];
        if page_size.get() == 512 && v > 32 {
            Err(
                SQLiteError::ParsingField(
                    FieldParsingError { field: FieldKind::ReservedBytesPerPage },
                ),
            )
        } else {
            Ok(ReservedBytesPerPage(v))
        }
    }
}

} // verus!
