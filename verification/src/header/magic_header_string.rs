//! The 16-byte signature at offset 0 of every database file: the ASCII
//! string `SQLite format 3` followed by a NUL byte.

use vstd::prelude::*;

use crate::bytes::bytes_eq;
use crate::result::{FieldKind, FieldParsingError, InvalidPayloadSizeError, SQLiteError,
    SQLiteResult};

verus! {

/// The sixteen signature bytes.
pub open spec fn spec_magic() -> Seq<u8> {
    seq![
        0x53u8, 0x51u8, 0x4cu8, 0x69u8, 0x74u8, 0x65u8, 0x20u8, 0x66u8,
        0x6fu8, 0x72u8, 0x6du8, 0x61u8, 0x74u8, 0x20u8, 0x33u8, 0x00u8,
    ]
}

/// The sixteen signature bytes as an owned vector.
pub fn magic_bytes() -> (r: Vec<u8>)
    ensures
        r@ == spec_magic(),
{
    let r: Vec<u8> = vec![
        0x53u8, 0x51u8, 0x4cu8, 0x69u8, 0x74u8, 0x65u8, 0x20u8, 0x66u8,
        0x6fu8, 0x72u8, 0x6du8, 0x61u8, 0x74u8, 0x20u8, 0x33u8, 0x00u8,
    ];
    proof {
        assert(r@ =~= spec_magic());
    }
    r
}

/// Witness that a header began with the sixteen signature bytes.
#[derive(Debug, Clone, Copy, PartialEq, Eq, Structural)]
pub struct MagicHeaderString;

impl crate::result::Name for MagicHeaderString {
    fn name() -> &'static str {
        "MagicHeaderString"
    }
}

impl MagicHeaderString {
    /// Checks that the input begins with the sixteen signature bytes.
    pub fn parse_bytes(bytes: &[u8]) -> (r: SQLiteResult<Self>)
        ensures
            bytes@.len() < 16 ==> r == Err::<Self, _>(
                SQLiteError::InvalidPayloadSize(
                    InvalidPayloadSizeError { field: FieldKind::MagicHeaderString },
                ),
            ),
            bytes@.len() >= 16 ==> {
                if bytes@.subrange(0, 16) == spec_magic() {
                    r == Ok::<_, SQLiteError>(MagicHeaderString)
                } else {
                    r == Err::<Self, _>(
                        SQLiteError::ParsingField(
                            FieldParsingError { field: FieldKind::MagicHeaderString },
                        ),
                    )
                }
            },
    {
        if bytes.len() < 16 {
            return Err(
                SQLiteError::InvalidPayloadSize(
                    InvalidPayloadSizeError { field: FieldKind::MagicHeaderString },
                ),
            );
        }
        let expected = magic_bytes();
        if bytes_eq(&bytes[0..16], expected.as_slice()) {
            Ok(MagicHeaderString)
        } else {
            Err(SQLiteError::ParsingField(FieldParsingError { field: FieldKind::MagicHeaderString }))
        }
    }

    /// The sixteen signature bytes this value stands for.
    pub fn to_bytes(&self) -> (r: Vec<u8>)
        ensures
            r@ == spec_magic(),
    {
        magic_bytes()
    }
}

} // verus!
