//! The database page size, decoded from the two bytes at offset 16 of the
//! database header. The stored value is big-endian and must be a power of
//! two between 512 and 32768, or the magic value 1 standing for 65536.

use vstd::prelude::*;

use crate::bytes::spec_be_u16;
use crate::result::{FieldKind, FieldParsingError, SQLiteError, SQLiteResult};

verus! {

/// The legal page sizes: the powers of two from 512 through 65536.
pub open spec fn is_valid_page_size(v: int) -> bool {
    ||| v == 512
    ||| v == 1024
    ||| v == 2048
    ||| v == 4096
    ||| v == 8192
    ||| v == 16384
    ||| v == 32768
    ||| v == 65536
}

/// The stored two-byte values that decode to a page size: the magic value
/// 1 (standing for 65536) or a power of two at least 512.
pub open spec fn page_size_field_ok(raw: int) -> bool {
    raw == 1 || (is_valid_page_size(raw) && raw != 65536)
}

/// The page size a legal stored value decodes to.
pub open spec fn spec_decode_page_size(raw: int) -> int {
    if raw == 1 {
        65536
    } else {
        raw
    }
}

/// The stored two-byte value that encodes a page size.
pub open spec fn spec_encode_page_size(v: int) -> int {
    if v == 65536 {
        1
    } else {
        v
    }
}

/// The database page size in bytes: one of the eight legal values.
#[derive(Debug, Clone, Copy, PartialEq, Eq, Structural)]
pub struct PageSize(u32);

impl View for PageSize {
    type V = int;

    closed spec fn view(&self) -> int {
        self.0 as int
    }
}

impl crate::result::Name for PageSize {
    fn name() -> &'static str {
        "PageSize"
    }
}

impl PageSize {
    /// The held value is one of the eight legal page sizes.
    pub open spec fn spec_wf(&self) -> bool {
        is_valid_page_size(self@)
    }

    /// Wraps a legal page size value.
    pub fn new(v: u32) -> (r: Self)
        requires
            is_valid_page_size(v as int),
        ensures
            r@ == v as int,
            r.spec_wf(),
    {
        PageSize(v)
    }

    /// The page size in bytes.
    pub fn get(&self) -> (r: u32)
        ensures
            r as int == self@,
    {
        self.0
    }

    /// The page size as the unit used for byte offsets.
    pub fn as_usize(&self) -> (r: usize)
        ensures
            r as int == self@,
    {
        self.0 as usize
    }

    /// Decodes the two-byte field. The magic stored value 1 stands for
    /// 65536; every other legal value is a power of two at least 512 and
    /// decodes to itself.
    pub fn parse_bytes(bytes: &[u8]) -> (r: SQLiteResult<Self>)
        ensures
            bytes@.len() < 2 ==> r == Err::<Self, _>(
                SQLiteError::InvalidPayloadSize(
                    crate::result::InvalidPayloadSizeError { field: FieldKind::PageSize },
                ),
            ),
            bytes@.len() >= 2 ==> {
                let raw = spec_be_u16(bytes@, 0);
                if page_size_field_ok(raw) {
                    r matches Ok(ps) && ps@ == spec_decode_page_size(raw) && ps.spec_wf()
                } else {
                    r == Err::<Self, _>(
                        SQLiteError::ParsingField(FieldParsingError { field: FieldKind::PageSize }),
                    )
                }
            },
    {
        if bytes.len() < 2 {
            return Err(
                SQLiteError::InvalidPayloadSize(
                    crate::result::InvalidPayloadSizeError { field: FieldKind::PageSize },
                ),
            );
        }
        let raw = crate::bytes::read_be_u16(bytes, 0);
        if raw == 1 {
            Ok(PageSize(65536))
        } else if raw == 512 || raw == 1024 || raw == 2048 || raw == 4096 || raw == 8192 || raw
            == 16384 || raw == 32768 {
            Ok(PageSize(raw as u32))
        } else {
            Err(SQLiteError::ParsingField(FieldParsingError { field: FieldKind::PageSize }))
        }
    }

    /// The two-byte stored form of this page size.
    pub fn to_bytes(&self) -> (r: Vec<u8>)
        requires
            self.spec_wf(),
        ensures
            r@ == crate::bytes::spec_be_u16_bytes(spec_encode_page_size(self@)),
            r@.len() == 2,
    {
        let mut out: Vec<u8> = Vec::new();
        let stored: u16 = if self.0 == 65536 {
            1
        } else {
            self.0 as u16
        };
        crate::bytes::push_be_u16(&mut out, stored);
        out
    }
}

/// A legal stored page-size value decodes to a legal page size, and
/// re-encoding that page size returns the stored value.
pub proof fn lemma_page_size_round_trip(raw: int)
    requires
        page_size_field_ok(raw),
    ensures
        is_valid_page_size(spec_decode_page_size(raw)),
        spec_encode_page_size(spec_decode_page_size(raw)) == raw,
{
}

} // verus!
