//! The text-encoding word at offset 56: 1 means UTF-8, 2 means UTF-16
//! little-endian, 3 means UTF-16 big-endian; no other value is allowed.

use vstd::prelude::*;

use crate::bytes::spec_be_u32;
use crate::result::{FieldKind, FieldParsingError, InvalidPayloadSizeError, SQLiteError,
    SQLiteResult};

verus! {

/// The encoding used for all text stored in the database.
#[derive(Debug, Clone, Copy, PartialEq, Eq, Structural)]
pub enum DatabaseTextEncoding {
    Utf8,
    Utf16Le,
    Utf16Be,
}

impl View for DatabaseTextEncoding {
    type V = int;

    open spec fn view(&self) -> int {
        match self {
            DatabaseTextEncoding::Utf8 => 1,
            DatabaseTextEncoding::Utf16Le => 2,
            DatabaseTextEncoding::Utf16Be => 3,
        }
    }
}

impl DatabaseTextEncoding {
    /// The stored word for this encoding.
    pub fn get(&self) -> (r: u32)
        ensures
            r as int == self@,
    {
        match self {
            DatabaseTextEncoding::Utf8 => 1,
            DatabaseTextEncoding::Utf16Le => 2,
            DatabaseTextEncoding::Utf16Be => 3,
        }
    }

    /// A printable name for this encoding.
    pub fn name(&self) -> (r: &'static str) {
        match self {
            DatabaseTextEncoding::Utf8 => "utf8",
            DatabaseTextEncoding::Utf16Le => "utf16le",
            DatabaseTextEncoding::Utf16Be => "utf16be",
        }
    }

    /// Decodes the four-byte big-endian word at offset 56.
    pub fn parse_bytes(bytes: &[u8]) -> (r: SQLiteResult<Self>)
        ensures
            bytes@.len() < 4 ==> r == Err::<Self, _>(
                SQLiteError::InvalidPayloadSize(
                    InvalidPayloadSizeError { field: FieldKind::DatabaseTextEncoding },
                ),
            ),
            bytes@.len() >= 4 ==> {
                let raw = spec_be_u32(bytes@, 0);
                if 1 <= raw <= 3 {
                    r matches Ok(v) && v@ == raw
                } else {
                    r == Err::<Self, _>(
                        SQLiteError::ParsingField(
                            FieldParsingError { field: FieldKind::DatabaseTextEncoding },
                        ),
                    )
                }
            },
    {
        if bytes.len() < 4 {
            return Err(
                SQLiteError::InvalidPayloadSize(
                    InvalidPayloadSizeError { field: FieldKind::DatabaseTextEncoding },
                ),
            );
        }
        match crate::bytes::read_be_u32(bytes, 0) {
            1 => Ok(DatabaseTextEncoding::Utf8),
            2 => Ok(DatabaseTextEncoding::Utf16Le),
            3 => Ok(DatabaseTextEncoding::Utf16Be),
            _ => Err(
                SQLiteError::ParsingField(
                    FieldParsingError { field: FieldKind::DatabaseTextEncoding },
                ),
            ),
        }
    }
}

} // verus!
