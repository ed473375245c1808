//! The plain big-endian word fields of the database header: counters,
//! freelist bookkeeping, cookies and version numbers, together with the
//! 20 reserved-for-expansion bytes and the schema-format number.

use vstd::prelude::*;

use crate::bytes::spec_be_u32;
use crate::result::{FieldKind, FieldParsingError, InvalidPayloadSizeError, SQLiteError,
    SQLiteResult};

verus! {

/// The file change counter at offset 24, incremented on every unlock
/// after a modification.
#[derive(Debug, Clone, Copy, PartialEq, Eq, Structural)]
pub struct FileChangeCounter(u32);

impl View for FileChangeCounter {
    type V = int;

    closed spec fn view(&self) -> int {
        self.0 as int
    }
}

impl FileChangeCounter {
    /// Wraps a counter value.
    pub fn new(v: u32) -> (r: Self)
        ensures
            r@ == v as int,
    {
        FileChangeCounter(v)
    }

    /// The counter value.
    pub fn get(&self) -> (r: u32)
        ensures
            r as int == self@,
    {
        self.0
    }

    /// Decodes the four-byte big-endian word at offset 24.
    pub fn parse_bytes(bytes: &[u8]) -> (r: SQLiteResult<Self>)
        ensures
            bytes@.len() < 4 ==> r == Err::<Self, _>(
                SQLiteError::InvalidPayloadSize(
                    InvalidPayloadSizeError { field: FieldKind::FileChangeCounter },
                ),
            ),
            bytes@.len() >= 4 ==> (r matches Ok(v) && v@ == spec_be_u32(bytes@, 0)),
    {
        if bytes.len() < 4 {
            return Err(
                SQLiteError::InvalidPayloadSize(
                    InvalidPayloadSizeError { field: FieldKind::FileChangeCounter },
                ),
            );
        }
        Ok(FileChangeCounter(crate::bytes::read_be_u32(bytes, 0)))
    }
}

/// The in-header database size in pages at offset 28. Only trusted when
/// non-zero and the change counter matches the version-valid-for number.
#[derive(Debug, Clone, Copy, PartialEq, Eq, Structural)]
pub struct DatabaseFileSizeInPages(u32);

impl View for DatabaseFileSizeInPages {
    type V = int;

    closed spec fn view(&self) -> int {
        self.0 as int
    }
}

impl DatabaseFileSizeInPages {
    /// Wraps a page count.
    pub fn new(v: u32) -> (r: Self)
        ensures
            r@ == v as int,
    {
        DatabaseFileSizeInPages(v)
    }

    /// The stored page count.
    pub fn get(&self) -> (r: u32)
        ensures
            r as int == self@,
    {
        self.0
    }

    /// Decodes the four-byte big-endian word at offset 28.
    pub fn parse_bytes(bytes: &[u8]) -> (r: SQLiteResult<Self>)
        ensures
            bytes@.len() < 4 ==> r == Err::<Self, _>(
                SQLiteError::InvalidPayloadSize(
                    InvalidPayloadSizeError { field: FieldKind::DatabaseFileSizeInPages },
                ),
            ),
            bytes@.len() >= 4 ==> (r matches Ok(v) && v@ == spec_be_u32(bytes@, 0)),
    {
        if bytes.len() < 4 {
            return Err(
                SQLiteError::InvalidPayloadSize(
                    InvalidPayloadSizeError { field: FieldKind::DatabaseFileSizeInPages },
                ),
            );
        }
        Ok(DatabaseFileSizeInPages(crate::bytes::read_be_u32(bytes, 0)))
    }
}

/// The page number of the first freelist trunk page at offset 32, or
/// zero when the freelist is empty.
#[derive(Debug, Clone, Copy, PartialEq, Eq, Structural)]
pub struct FreeListPagesFirstTrunkPage(u32);

impl View for FreeListPagesFirstTrunkPage {
    type V = int;

    closed spec fn view(&self) -> int {
        self.0 as int
    }
}

impl FreeListPagesFirstTrunkPage {
    /// Wraps a page number.
    pub fn new(v: u32) -> (r: Self)
        ensures
            r@ == v as int,
    {
        FreeListPagesFirstTrunkPage(v)
    }

    /// The stored page number, or zero for an empty freelist.
    pub fn get(&self) -> (r: u32)
        ensures
            r as int == self@,
    {
        self.0
    }

    /// Decodes the four-byte big-endian word at offset 32.
    pub fn parse_bytes(bytes: &[u8]) -> (r: SQLiteResult<Self>)
        ensures
            bytes@.len() < 4 ==> r == Err::<Self, _>(
                SQLiteError::InvalidPayloadSize(
                    InvalidPayloadSizeError { field: FieldKind::FreeListPagesFirstTrunkPage },
                ),
            ),
            bytes@.len() >= 4 ==> (r matches Ok(v) && v@ == spec_be_u32(bytes@, 0)),
    {
        if bytes.len() < 4 {
            return Err(
                SQLiteError::InvalidPayloadSize(
                    InvalidPayloadSizeError { field: FieldKind::FreeListPagesFirstTrunkPage },
                ),
            );
        }
        Ok(FreeListPagesFirstTrunkPage(crate::bytes::read_be_u32(bytes, 0)))
    }
}

/// The total number of freelist pages at offset 36.
#[derive(Debug, Clone, Copy, PartialEq, Eq, Structural)]
pub struct FreeListPagesTotalPages(u32);

impl View for FreeListPagesTotalPages {
    type V = int;

    closed spec fn view(&self) -> int {
        self.0 as int
    }
}

impl FreeListPagesTotalPages {
    /// Wraps a page count.
    pub fn new(v: u32) -> (r: Self)
        ensures
            r@ == v as int,
    {
        FreeListPagesTotalPages(v)
    }

    /// The stored page count.
    pub fn get(&self) -> (r: u32)
        ensures
            r as int == self@,
    {
        self.0
    }

    /// Decodes the four-byte big-endian word at offset 36.
    pub fn parse_bytes(bytes: &[u8]) -> (r: SQLiteResult<Self>)
        ensures
            bytes@.len() < 4 ==> r == Err::<Self, _>(
                SQLiteError::InvalidPayloadSize(
                    InvalidPayloadSizeError { field: FieldKind::FreeListPagesTotalPages },
                ),
            ),
            bytes@.len() >= 4 ==> (r matches Ok(v) && v@ == spec_be_u32(bytes@, 0)),
    {
        if bytes.len() < 4 {
            return Err(
                SQLiteError::InvalidPayloadSize(
                    InvalidPayloadSizeError { field: FieldKind::FreeListPagesTotalPages },
                ),
            );
        }
        Ok(FreeListPagesTotalPages(crate::bytes::read_be_u32(bytes, 0)))
    }
}

/// The freelist bookkeeping words at offsets 32 and 36.
#[derive(Debug, Clone, Copy, PartialEq, Eq, Structural)]
pub struct FreeListPages {
    first: FreeListPagesFirstTrunkPage,
    total: FreeListPagesTotalPages,
}

impl FreeListPages {
    /// Pairs the first-trunk page number with the total page count.
    pub fn new(first: FreeListPagesFirstTrunkPage, total: FreeListPagesTotalPages) -> (r: Self)
        ensures
            r.first() == first,
            r.total() == total,
    {
        FreeListPages { first, total }
    }

    /// The first-trunk page number at offset 32.
    pub closed spec fn spec_first(&self) -> FreeListPagesFirstTrunkPage {
        self.first
    }

    /// The total freelist page count at offset 36.
    pub closed spec fn spec_total(&self) -> FreeListPagesTotalPages {
        self.total
    }

    /// The first-trunk page number at offset 32.
    #[verifier::when_used_as_spec(spec_first)]
    pub fn first(&self) -> (r: FreeListPagesFirstTrunkPage)
        ensures
            r == self.spec_first(),
    {
        self.first
    }

    /// The total freelist page count at offset 36.
    #[verifier::when_used_as_spec(spec_total)]
    pub fn total(&self) -> (r: FreeListPagesTotalPages)
        ensures
            r == self.spec_total(),
    {
        self.total
    }

    /// Decodes the eight bytes at offset 32: first-trunk page then total.
    pub fn parse_bytes(bytes: &[u8]) -> (r: SQLiteResult<Self>)
        ensures
            bytes@.len() < 8 ==> r == Err::<Self, _>(
                SQLiteError::InvalidPayloadSize(
                    InvalidPayloadSizeError { field: FieldKind::FreeListPages },
                ),
            ),
            bytes@.len() >= 8 ==> (r matches Ok(v) && v.first()@ == spec_be_u32(bytes@, 0)
                && v.total()@ == spec_be_u32(bytes@, 4)),
    {
        if bytes.len() < 8 {
            return Err(
                SQLiteError::InvalidPayloadSize(
                    InvalidPayloadSizeError { field: FieldKind::FreeListPages },
                ),
            );
        }
        let first = FreeListPagesFirstTrunkPage(crate::bytes::read_be_u32(bytes, 0));
        let total = FreeListPagesTotalPages(crate::bytes::read_be_u32(bytes, 4));
        Ok(FreeListPages { first, total })
    }
}

/// The schema cookie at offset 40, incremented on every schema change.
#[derive(Debug, Clone, Copy, PartialEq, Eq, Structural)]
pub struct SchemaCookie(u32);

impl View for SchemaCookie {
    type V = int;

    closed spec fn view(&self) -> int {
        self.0 as int
    }
}

impl SchemaCookie {
    /// Wraps a cookie value.
    pub fn new(v: u32) -> (r: Self)
        ensures
            r@ == v as int,
    {
        SchemaCookie(v)
    }

    /// The cookie value.
    pub fn get(&self) -> (r: u32)
        ensures
            r as int == self@,
    {
        self.0
    }

    /// Decodes the four-byte big-endian word at offset 40.
    pub fn parse_bytes(bytes: &[u8]) -> (r: SQLiteResult<Self>)
        ensures
            bytes@.len() < 4 ==> r == Err::<Self, _>(
                SQLiteError::InvalidPayloadSize(
                    InvalidPayloadSizeError { field: FieldKind::SchemaCookie },
                ),
            ),
            bytes@.len() >= 4 ==> (r matches Ok(v) && v@ == spec_be_u32(bytes@, 0)),
    {
        if bytes.len() < 4 {
            return Err(
                SQLiteError::InvalidPayloadSize(
                    InvalidPayloadSizeError { field: FieldKind::SchemaCookie },
                ),
            );
        }
        Ok(SchemaCookie(crate::bytes::read_be_u32(bytes, 0)))
    }
}

/// The schema formats a file may declare.
pub open spec fn schema_format_ok(v: int) -> bool {
    1 <= v <= 4
}

/// The schema format number at offset 44, one of 1 through 4.
#[derive(Debug, Clone, Copy, PartialEq, Eq, Structural)]
pub struct SchemaFormat(u32);

impl View for SchemaFormat {
    type V = int;

    closed spec fn view(&self) -> int {
        self.0 as int
    }
}

impl SchemaFormat {
    /// Wraps a legal schema format number.
    pub fn new(v: u32) -> (r: Self)
        requires
            schema_format_ok(v as int),
        ensures
            r@ == v as int,
    {
        SchemaFormat(v)
    }

    /// The schema format number.
    pub fn get(&self) -> (r: u32)
        ensures
            r as int == self@,
    {
        self.0
    }

    /// Decodes the four-byte big-endian word at offset 44 and checks it
    /// is one of the four supported formats.
    pub fn parse_bytes(bytes: &[u8]) -> (r: SQLiteResult<Self>)
        ensures
            bytes@.len() < 4 ==> r == Err::<Self, _>(
                SQLiteError::InvalidPayloadSize(
                    InvalidPayloadSizeError { field: FieldKind::SchemaFormat },
                ),
            ),
            bytes@.len() >= 4 ==> {
                let raw = spec_be_u32(bytes@, 0);
                if schema_format_ok(raw) {
                    r matches Ok(v) && v@ == raw
                } else {
                    r == Err::<Self, _>(
                        SQLiteError::ParsingField(
                            FieldParsingError { field: FieldKind::SchemaFormat },
                        ),
                    )
                }
            },
    {
        if bytes.len() < 4 {
            return Err(
                SQLiteError::InvalidPayloadSize(
                    InvalidPayloadSizeError { field: FieldKind::SchemaFormat },
                ),
            );
        }
        let raw = crate::bytes::read_be_u32(bytes, 0);
        if 1 <= raw && raw <= 4 {
            Ok(SchemaFormat(raw))
        } else {
            Err(SQLiteError::ParsingField(FieldParsingError { field: FieldKind::SchemaFormat }))
        }
    }
}

/// The suggested page-cache size at offset 48; a suggestion only, with
/// the absolute value of the signed word as the size.
#[derive(Debug, Clone, Copy, PartialEq, Eq, Structural)]
pub struct SuggestedCacheSize(u32);

impl View for SuggestedCacheSize {
    type V = int;

    closed spec fn view(&self) -> int {
        self.0 as int
    }
}

impl SuggestedCacheSize {
    /// Wraps a stored cache-size word.
    pub fn new(v: u32) -> (r: Self)
        ensures
            r@ == v as int,
    {
        SuggestedCacheSize(v)
    }

    /// The stored word, sign bit included.
    pub fn get(&self) -> (r: u32)
        ensures
            r as int == self@,
    {
        self.0
    }

    /// Decodes the four-byte big-endian word at offset 48.
    pub fn parse_bytes(bytes: &[u8]) -> (r: SQLiteResult<Self>)
        ensures
            bytes@.len() < 4 ==> r == Err::<Self, _>(
                SQLiteError::InvalidPayloadSize(
                    InvalidPayloadSizeError { field: FieldKind::SuggestedCacheSize },
                ),
            ),
            bytes@.len() >= 4 ==> (r matches Ok(v) && v@ == spec_be_u32(bytes@, 0)),
    {
        if bytes.len() < 4 {
            return Err(
                SQLiteError::InvalidPayloadSize(
                    InvalidPayloadSizeError { field: FieldKind::SuggestedCacheSize },
                ),
            );
        }
        Ok(SuggestedCacheSize(crate::bytes::read_be_u32(bytes, 0)))
    }
}

/// The user version at offset 60, set and read by the user; opaque to
/// the file format.
#[derive(Debug, Clone, Copy, PartialEq, Eq, Structural)]
pub struct UserVersion(u32);

impl View for UserVersion {
    type V = int;

    closed spec fn view(&self) -> int {
        self.0 as int
    }
}

impl UserVersion {
    /// Wraps a user-version value.
    pub fn new(v: u32) -> (r: Self)
        ensures
            r@ == v as int,
    {
        UserVersion(v)
    }

    /// The user-version value.
    pub fn get(&self) -> (r: u32)
        ensures
            r as int == self@,
    {
        self.0
    }

    /// Decodes the four-byte big-endian word at offset 60.
    pub fn parse_bytes(bytes: &[u8]) -> (r: SQLiteResult<Self>)
        ensures
            bytes@.len() < 4 ==> r == Err::<Self, _>(
                SQLiteError::InvalidPayloadSize(
                    InvalidPayloadSizeError { field: FieldKind::UserVersion },
                ),
            ),
            bytes@.len() >= 4 ==> (r matches Ok(v) && v@ == spec_be_u32(bytes@, 0)),
    {
        if bytes.len() < 4 {
            return Err(
                SQLiteError::InvalidPayloadSize(
                    InvalidPayloadSizeError { field: FieldKind::UserVersion },
                ),
            );
        }
        Ok(UserVersion(crate::bytes::read_be_u32(bytes, 0)))
    }
}

/// The application id at offset 68, set by an application; opaque to
/// the file format.
#[derive(Debug, Clone, Copy, PartialEq, Eq, Structural)]
pub struct ApplicationId(u32);

impl View for ApplicationId {
    type V = int;

    closed spec fn view(&self) -> int {
        self.0 as int
    }
}

impl ApplicationId {
    /// Wraps an application id.
    pub fn new(v: u32) -> (r: Self)
        ensures
            r@ == v as int,
    {
        ApplicationId(v)
    }

    /// The application id.
    pub fn get(&self) -> (r: u32)
        ensures
            r as int == self@,
    {
        self.0
    }

    /// Decodes the four-byte big-endian word at offset 68.
    pub fn parse_bytes(bytes: &[u8]) -> (r: SQLiteResult<Self>)
        ensures
            bytes@.len() < 4 ==> r == Err::<Self, _>(
                SQLiteError::InvalidPayloadSize(
                    InvalidPayloadSizeError { field: FieldKind::ApplicationId },
                ),
            ),
            bytes@.len() >= 4 ==> (r matches Ok(v) && v@ == spec_be_u32(bytes@, 0)),
    {
        if bytes.len() < 4 {
            return Err(
                SQLiteError::InvalidPayloadSize(
                    InvalidPayloadSizeError { field: FieldKind::ApplicationId },
                ),
            );
        }
        Ok(ApplicationId(crate::bytes::read_be_u32(bytes, 0)))
    }
}

/// Whether the 20 reserved-for-expansion bytes starting at `off` are all
/// zero, as the format requires.
pub open spec fn reserved_expansion_ok(b: Seq<u8>, off: int) -> bool {
    forall|j: int| off <= j < off + 20 ==> b[j] == 0
}

/// Witness that the 20 reserved-for-expansion bytes at offset 72 were
/// all zero.
#[derive(Debug, Clone, Copy, PartialEq, Eq, Structural)]
pub struct ReservedForExpansion;

impl ReservedForExpansion {
    /// Checks that the first 20 input bytes are all zero.
    pub fn parse_bytes(bytes: &[u8]) -> (r: SQLiteResult<Self>)
        ensures
            bytes@.len() < 20 ==> r == Err::<Self, _>(
                SQLiteError::InvalidPayloadSize(
                    InvalidPayloadSizeError { field: FieldKind::ReservedForExpansion },
                ),
            ),
            bytes@.len() >= 20 ==> {
                if reserved_expansion_ok(bytes@, 0) {
                    r == Ok::<_, SQLiteError>(ReservedForExpansion)
                } else {
                    r == Err::<Self, _>(
                        SQLiteError::ParsingField(
                            FieldParsingError { field: FieldKind::ReservedForExpansion },
                        ),
                    )
                }
            },
    {
        if bytes.len() < 20 {
            return Err(
                SQLiteError::InvalidPayloadSize(
                    InvalidPayloadSizeError { field: FieldKind::ReservedForExpansion },
                ),
            );
        }
        let mut i: usize = 0;
        while i < 20
            invariant
                bytes@.len() >= 20,
                i <= 20,
                forall|j: int| 0 <= j < i ==> bytes@[j] == 0,
            decreases 20 - i,
        {
            if bytes[i] != 0 {
                return Err(
                    SQLiteError::ParsingField(
                        FieldParsingError { field: FieldKind::ReservedForExpansion },
                    ),
                );
            }
            i = i + 1;
        }
        Ok(ReservedForExpansion)
    }
}

/// The version-valid-for number at offset 92: the change-counter value
/// at which the write library version was stored.
#[derive(Debug, Clone, Copy, PartialEq, Eq, Structural)]
pub struct VersionValidFor(u32);

impl View for VersionValidFor {
    type V = int;

    closed spec fn view(&self) -> int {
        self.0 as int
    }
}

impl VersionValidFor {
    /// Wraps a version-valid-for value.
    pub fn new(v: u32) -> (r: Self)
        ensures
            r@ == v as int,
    {
        VersionValidFor(v)
    }

    /// The stored value.
    pub fn get(&self) -> (r: u32)
        ensures
            r as int == self@,
    {
        self.0
    }

    /// Decodes the four-byte big-endian word at offset 92.
    pub fn parse_bytes(bytes: &[u8]) -> (r: SQLiteResult<Self>)
        ensures
            bytes@.len() < 4 ==> r == Err::<Self, _>(
                SQLiteError::InvalidPayloadSize(
                    InvalidPayloadSizeError { field: FieldKind::VersionValidFor },
                ),
            ),
            bytes@.len() >= 4 ==> (r matches Ok(v) && v@ == spec_be_u32(bytes@, 0)),
    {
        if bytes.len() < 4 {
            return Err(
                SQLiteError::InvalidPayloadSize(
                    InvalidPayloadSizeError { field: FieldKind::VersionValidFor },
                ),
            );
        }
        Ok(VersionValidFor(crate::bytes::read_be_u32(bytes, 0)))
    }
}

/// The version number of the library that most recently wrote the file,
/// at offset 96.
#[derive(Debug, Clone, Copy, PartialEq, Eq, Structural)]
pub struct WriteLibraryVersion(u32);

impl View for WriteLibraryVersion {
    type V = int;

    closed spec fn view(&self) -> int {
        self.0 as int
    }
}

impl WriteLibraryVersion {
    /// Wraps a library version number.
    pub fn new(v: u32) -> (r: Self)
        ensures
            r@ == v as int,
    {
        WriteLibraryVersion(v)
    }

    /// The stored version number.
    pub fn get(&self) -> (r: u32)
        ensures
            r as int == self@,
    {
        self.0
    }

    /// Decodes the four-byte big-endian word at offset 96.
    pub fn parse_bytes(bytes: &[u8]) -> (r: SQLiteResult<Self>)
        ensures
            bytes@.len() < 4 ==> r == Err::<Self, _>(
                SQLiteError::InvalidPayloadSize(
                    InvalidPayloadSizeError { field: FieldKind::WriteLibraryVersion },
                ),
            ),
            bytes@.len() >= 4 ==> (r matches Ok(v) && v@ == spec_be_u32(bytes@, 0)),
    {
        if bytes.len() < 4 {
            return Err(
                SQLiteError::InvalidPayloadSize(
                    InvalidPayloadSizeError { field: FieldKind::WriteLibraryVersion },
                ),
            );
        }
        Ok(WriteLibraryVersion(crate::bytes::read_be_u32(bytes, 0)))
    }
}

} // verus!
