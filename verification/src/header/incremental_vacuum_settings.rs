//! The two vacuum-related words of the header: the largest root b-tree
//! page number at offset 52 and the incremental-vacuum flag at offset 64.
//! When the word at offset 52 is zero, no vacuum mode is active and the
//! flag at offset 64 must also be zero.

use vstd::prelude::*;

use crate::bytes::spec_be_u32;
use crate::result::{FieldKind, FieldParsingError, InvalidPayloadSizeError, SQLiteError,
    SQLiteResult};

verus! {

/// The page number of the largest root b-tree page when a vacuum mode is
/// active, or zero otherwise.
#[derive(Debug, Clone, Copy, PartialEq, Eq, Structural)]
pub struct LargestRootBtreePage(u32);

impl View for LargestRootBtreePage {
    type V = int;

    closed spec fn view(&self) -> int {
        self.0 as int
    }
}

impl LargestRootBtreePage {
    /// Wraps a page number.
    pub fn new(v: u32) -> (r: Self)
        ensures
            r@ == v as int,
    {
        LargestRootBtreePage(v)
    }

    /// The stored page number, or zero when no vacuum mode is active.
    pub fn get(&self) -> (r: u32)
        ensures
            r as int == self@,
    {
        self.0
    }

    /// Decodes the four-byte big-endian word at offset 52.
    pub fn parse_bytes(bytes: &[u8]) -> (r: SQLiteResult<Self>)
        ensures
            bytes@.len() < 4 ==> r == Err::<Self, _>(
                SQLiteError::InvalidPayloadSize(
                    InvalidPayloadSizeError { field: FieldKind::LargestRootBtreePage },
                ),
            ),
            bytes@.len() >= 4 ==> (r matches Ok(v) && v@ == spec_be_u32(bytes@, 0)),
    {
        if bytes.len() < 4 {
            return Err(
                SQLiteError::InvalidPayloadSize(
                    InvalidPayloadSizeError { field: FieldKind::LargestRootBtreePage },
                ),
            );
        }
        Ok(LargestRootBtreePage(crate::bytes::read_be_u32(bytes, 0)))
    }
}

/// Whether incremental-vacuum mode is active: decoded from the word at
/// offset 64, any non-zero value meaning true.
#[derive(Debug, Clone, Copy, PartialEq, Eq, Structural)]
pub enum IncrementalVacuumMode {
    True,
    False,
}

impl View for IncrementalVacuumMode {
    type V = bool;

    open spec fn view(&self) -> bool {
        match self {
            IncrementalVacuumMode::True => true,
            IncrementalVacuumMode::False => false,
        }
    }
}

impl IncrementalVacuumMode {
    /// The normalized stored word: 1 when active, 0 otherwise.
    pub fn get(&self) -> (r: u32)
        ensures
            r as int == (if self@ { 1int } else { 0int }),
    {
        match self {
            IncrementalVacuumMode::True => 1,
            IncrementalVacuumMode::False => 0,
        }
    }

    /// Decodes the four-byte big-endian word at offset 64; any non-zero
    /// value means incremental-vacuum mode.
    pub fn parse_bytes(bytes: &[u8]) -> (r: SQLiteResult<Self>)
        ensures
            bytes@.len() < 4 ==> r == Err::<Self, _>(
                SQLiteError::InvalidPayloadSize(
                    InvalidPayloadSizeError { field: FieldKind::IncrementalVacuumMode },
                ),
            ),
            bytes@.len() >= 4 ==> (r matches Ok(v) && v@ == (spec_be_u32(bytes@, 0) != 0)),
    {
        if bytes.len() < 4 {
            return Err(
                SQLiteError::InvalidPayloadSize(
                    InvalidPayloadSizeError { field: FieldKind::IncrementalVacuumMode },
                ),
            );
        }
        if crate::bytes::read_be_u32(bytes, 0) != 0 {
            Ok(IncrementalVacuumMode::True)
        } else {
            Ok(IncrementalVacuumMode::False)
        }
    }
}

/// Whether a largest-root word and a vacuum flag are consistent: a flag
/// may only be set when a vacuum mode is active, that is, when the
/// largest-root word is non-zero.
pub open spec fn vacuum_settings_ok(largest_root: int, vacuum_flag: bool) -> bool {
    vacuum_flag ==> largest_root != 0
}

/// The pair of vacuum-related header words.
#[derive(Debug, Clone, Copy, PartialEq, Eq, Structural)]
pub struct IncrementalVacuumSettings {
    largest_root_btree_page: LargestRootBtreePage,
    incremental_vacuum_mode: IncrementalVacuumMode,
}

impl IncrementalVacuumSettings {
    /// Pairs a consistent largest-root page number and vacuum flag.
    pub fn new(
        largest_root_btree_page: LargestRootBtreePage,
        incremental_vacuum_mode: IncrementalVacuumMode,
    ) -> (r: Self)
        requires
            vacuum_settings_ok(largest_root_btree_page@, incremental_vacuum_mode@),
        ensures
            r.largest_root_btree_page() == largest_root_btree_page,
            r.incremental_vacuum_mode() == incremental_vacuum_mode,
    {
        IncrementalVacuumSettings { largest_root_btree_page, incremental_vacuum_mode }
    }

    /// The word at offset 52.
    pub closed spec fn spec_largest_root_btree_page(&self) -> LargestRootBtreePage {
        self.largest_root_btree_page
    }

    /// The flag decoded from offset 64.
    pub closed spec fn spec_incremental_vacuum_mode(&self) -> IncrementalVacuumMode {
        self.incremental_vacuum_mode
    }

    /// The word at offset 52.
    #[verifier::when_used_as_spec(spec_largest_root_btree_page)]
    pub fn largest_root_btree_page(&self) -> (r: LargestRootBtreePage)
        ensures
            r == self.spec_largest_root_btree_page(),
    {
        self.largest_root_btree_page
    }

    /// The flag decoded from offset 64.
    #[verifier::when_used_as_spec(spec_incremental_vacuum_mode)]
    pub fn incremental_vacuum_mode(&self) -> (r: IncrementalVacuumMode)
        ensures
            r == self.spec_incremental_vacuum_mode(),
    {
        self.incremental_vacuum_mode
    }
}

} // verus!
