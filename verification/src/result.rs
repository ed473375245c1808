//! Error taxonomy of the read path. Every violated format constraint maps
//! to a distinct error value naming the field or structure involved, so
//! contracts can state exactly which error an input produces.

use vstd::prelude::*;

verus! {

/// The header or page field whose constraint was violated.
#[derive(Debug, Clone, Copy, PartialEq, Eq, Structural)]
pub enum FieldKind {
    MagicHeaderString,
    PageSize,
    FileFormatWriteVersion,
    FileFormatReadVersion,
    ReservedBytesPerPage,
    MaximumEmbeddedPayloadFraction,
    MinimumEmbeddedPayloadFraction,
    LeafPayloadFraction,
    SchemaFormat,
    DatabaseTextEncoding,
    IncrementalVacuumMode,
    ReservedForExpansion,
    FileChangeCounter,
    DatabaseFileSizeInPages,
    FreeListPagesFirstTrunkPage,
    FreeListPagesTotalPages,
    FreeListPages,
    SchemaCookie,
    SuggestedCacheSize,
    LargestRootBtreePage,
    UserVersion,
    ApplicationId,
    VersionValidFor,
    WriteLibraryVersion,
    SqliteHeader,
    FileFormatVersionNumbers,
    PayloadFractions,
    BtreePageHeader,
}

/// A field held bytes that violate its format constraint.
#[derive(Debug, Clone, Copy, PartialEq, Eq, Structural)]
pub struct FieldParsingError {
    pub field: FieldKind,
}

/// Fewer input bytes were given than the structure requires.
#[derive(Debug, Clone, Copy, PartialEq, Eq, Structural)]
pub struct InvalidPayloadSizeError {
    pub field: FieldKind,
}

/// Every error the read path reports.
#[derive(Debug, Clone, Copy, PartialEq, Eq, Structural)]
pub enum SQLiteError {
    /// A header field's own bytes violate its constraint.
    ParsingField(FieldParsingError),
    /// A structure was handed fewer bytes than its fixed length.
    InvalidPayloadSize(InvalidPayloadSizeError),
    /// A page number of zero was asked for; pages are 1-indexed.
    InvalidPageNumber,
    /// The underlying byte store ended before a full page or header.
    ShortRead,
    /// The one-byte b-tree page-type tag is none of the four legal values.
    InvalidPageType(u8),
    /// The page ends before the cell-pointer array does.
    TruncatedCellPointerArray,
    /// A cell pointer does not resolve to a valid in-page offset.
    InvalidCellPointer(u16),
    /// A varint or cell runs past the end of its page.
    TruncatedCell,
    /// A page number repeated within an overflow chain.
    OverflowCycleDetected,
    /// The connection locator names a store this library cannot reach.
    UnsupportedLocator,
}

/// Outcome of every fallible operation of the read path.
pub type SQLiteResult<T> = Result<T, SQLiteError>;

/// A type that knows the field or structure name it stands for, as
/// used in error reports.
pub trait Name {
    /// The name this type reports itself under.
    fn name() -> &'static str;
}

impl SQLiteError {
    /// A short name for the error, for callers that print diagnostics.
    pub fn describe(&self) -> (r: &'static str)
        ensures
            r@.len() > 0,
    {
        let s: &'static str = match self {
            SQLiteError::ParsingField(_) => "invalid field payload",
            SQLiteError::InvalidPayloadSize(_) => "input shorter than the field requires",
            SQLiteError::InvalidPageNumber => "page numbers start at 1",
            SQLiteError::ShortRead => "byte store ended before the structure did",
            SQLiteError::InvalidPageType(_) => "unknown b-tree page-type tag",
            SQLiteError::TruncatedCellPointerArray => "page ends inside the cell-pointer array",
            SQLiteError::InvalidCellPointer(_) => "cell pointer outside the usable page area",
            SQLiteError::TruncatedCell => "cell runs past the end of the page",
            SQLiteError::OverflowCycleDetected => "overflow chain visits a page twice",
            SQLiteError::UnsupportedLocator => "locator not supported by this store",
        };
        proof {
            reveal_strlit("invalid field payload");
            reveal_strlit("input shorter than the field requires");
            reveal_strlit("page numbers start at 1");
            reveal_strlit("byte store ended before the structure did");
            reveal_strlit("unknown b-tree page-type tag");
            reveal_strlit("page ends inside the cell-pointer array");
            reveal_strlit("cell pointer outside the usable page area");
            reveal_strlit("cell runs past the end of the page");
            reveal_strlit("overflow chain visits a page twice");
            reveal_strlit("locator not supported by this store");
        }
        s
    }
}

} // verus!
