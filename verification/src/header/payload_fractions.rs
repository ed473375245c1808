//! The three payload-fraction bytes at offsets 21 through 23. They were
//! once tunable; the format now fixes them at 64, 32 and 32.

use vstd::prelude::*;

use crate::result::{FieldKind, FieldParsingError, InvalidPayloadSizeError, SQLiteError,
    SQLiteResult};

verus! {

/// Maximum embedded payload fraction. Must be 64.
#[derive(Debug, Clone, Copy, PartialEq, Eq, Structural)]
pub struct MaximumEmbeddedPayloadFraction;

impl MaximumEmbeddedPayloadFraction {
    /// The only legal stored byte.
    pub fn get(&self) -> (r: u8)
        ensures
            r == 64,
    {
        64
    }

    /// Accepts the byte 64 and nothing else.
    pub fn parse_bytes(bytes: &[u8]) -> (r: SQLiteResult<Self>)
        ensures
            bytes@.len() < 1 ==> r == Err::<Self, _>(
                SQLiteError::InvalidPayloadSize(
                    InvalidPayloadSizeError { field: FieldKind::MaximumEmbeddedPayloadFraction },
                ),
            ),
            bytes@.len() >= 1 ==> {
                if bytes@[0] == 64 {
                    r == Ok::<_, SQLiteError>(MaximumEmbeddedPayloadFraction)
                } else {
                    r == Err::<Self, _>(
                        SQLiteError::ParsingField(
                            FieldParsingError { field: FieldKind::MaximumEmbeddedPayloadFraction },
                        ),
                    )
                }
            },
    {
        if bytes.len() < 1 {
            return Err(
                SQLiteError::InvalidPayloadSize(
                    InvalidPayloadSizeError { field: FieldKind::MaximumEmbeddedPayloadFraction },
                ),
            );
        }
        if bytes[0] == 64 {
            Ok(MaximumEmbeddedPayloadFraction)
        } else {
            Err(
                SQLiteError::ParsingField(
                    FieldParsingError { field: FieldKind::MaximumEmbeddedPayloadFraction },
                ),
            )
        }
    }
}

/// Minimum embedded payload fraction. Must be 32.
#[derive(Debug, Clone, Copy, PartialEq, Eq, Structural)]
pub struct MinimumEmbeddedPayloadFraction;

impl MinimumEmbeddedPayloadFraction {
    /// The only legal stored byte.
    pub fn get(&self) -> (r: u8)
        ensures
            r == 32,
    {
        32
    }

    /// Accepts the byte 32 and nothing else.
    pub fn parse_bytes(bytes: &[u8]) -> (r: SQLiteResult<Self>)
        ensures
            bytes@.len() < 1 ==> r == Err::<Self, _>(
                SQLiteError::InvalidPayloadSize(
                    InvalidPayloadSizeError { field: FieldKind::MinimumEmbeddedPayloadFraction },
                ),
            ),
            bytes@.len() >= 1 ==> {
                if bytes@[0] == 32 {
                    r == Ok::<_, SQLiteError>(MinimumEmbeddedPayloadFraction)
                } else {
                    r == Err::<Self, _>(
                        SQLiteError::ParsingField(
                            FieldParsingError { field: FieldKind::MinimumEmbeddedPayloadFraction },
                        ),
                    )
                }
            },
    {
        if bytes.len() < 1 {
            return Err(
                SQLiteError::InvalidPayloadSize(
                    InvalidPayloadSizeError { field: FieldKind::MinimumEmbeddedPayloadFraction },
                ),
            );
        }
        if bytes[0] == 32 {
            Ok(MinimumEmbeddedPayloadFraction)
        } else {
            Err(
                SQLiteError::ParsingField(
                    FieldParsingError { field: FieldKind::MinimumEmbeddedPayloadFraction },
                ),
            )
        }
    }
}

/// Leaf payload fraction. Must be 32.
#[derive(Debug, Clone, Copy, PartialEq, Eq, Structural)]
pub struct LeafPayloadFraction;

impl LeafPayloadFraction {
    /// The only legal stored byte.
    pub fn get(&self) -> (r: u8)
        ensures
            r == 32,
    {
        32
    }

    /// Accepts the byte 32 and nothing else.
    pub fn parse_bytes(bytes: &[u8]) -> (r: SQLiteResult<Self>)
        ensures
            bytes@.len() < 1 ==> r == Err::<Self, _>(
                SQLiteError::InvalidPayloadSize(
                    InvalidPayloadSizeError { field: FieldKind::LeafPayloadFraction },
                ),
            ),
            bytes@.len() >= 1 ==> {
                if bytes@[0] == 32 {
                    r == Ok::<_, SQLiteError>(LeafPayloadFraction)
                } else {
                    r == Err::<Self, _>(
                        SQLiteError::ParsingField(
                            FieldParsingError { field: FieldKind::LeafPayloadFraction },
                        ),
                    )
                }
            },
    {
        if bytes.len() < 1 {
            return Err(
                SQLiteError::InvalidPayloadSize(
                    InvalidPayloadSizeError { field: FieldKind::LeafPayloadFraction },
                ),
            );
        }
        if bytes[0] == 32 {
            Ok(LeafPayloadFraction)
        } else {
            Err(
                SQLiteError::ParsingField(FieldParsingError { field: FieldKind::LeafPayloadFraction }),
            )
        }
    }
}

/// The three payload-fraction bytes, in offset order.
#[derive(Debug, Clone, Copy, PartialEq, Eq, Structural)]
pub struct PayloadFractions {
    maximum: MaximumEmbeddedPayloadFraction,
    minimum: MinimumEmbeddedPayloadFraction,
    leaf: LeafPayloadFraction,
}

impl PayloadFractions {
    /// The canonical fractions 64, 32 and 32.
    pub fn new() -> (r: Self) {
        PayloadFractions {
            maximum: MaximumEmbeddedPayloadFraction,
            minimum: MinimumEmbeddedPayloadFraction,
            leaf: LeafPayloadFraction,
        }
    }

    /// Maximum embedded payload fraction at offset 21.
    pub fn maximum(&self) -> (r: MaximumEmbeddedPayloadFraction) {
        self.maximum
    }

    /// Minimum embedded payload fraction at offset 22.
    pub fn minimum(&self) -> (r: MinimumEmbeddedPayloadFraction) {
        self.minimum
    }

    /// Leaf payload fraction at offset 23.
    pub fn leaf(&self) -> (r: LeafPayloadFraction) {
        self.leaf
    }

    /// Decodes the three bytes in offset order; the first byte that
    /// differs from its fixed value is the one reported.
    pub fn parse_bytes(bytes: &[u8]) -> (r: SQLiteResult<Self>)
        ensures
            bytes@.len() < 3 ==> r == Err::<Self, _>(
                SQLiteError::InvalidPayloadSize(
                    InvalidPayloadSizeError { field: FieldKind::PayloadFractions },
                ),
            ),
            bytes@.len() >= 3 ==> {
                if bytes@[0] != 64 {
                    r == Err::<Self, _>(
                        SQLiteError::ParsingField(
                            FieldParsingError { field: FieldKind::MaximumEmbeddedPayloadFraction },
                        ),
                    )
                } else if bytes@[1] != 32 {
                    r == Err::<Self, _>(
                        SQLiteError::ParsingField(
                            FieldParsingError { field: FieldKind::MinimumEmbeddedPayloadFraction },
                        ),
                    )
                } else if bytes@[2] != 32 {
                    r == Err::<Self, _>(
                        SQLiteError::ParsingField(
                            FieldParsingError { field: FieldKind::LeafPayloadFraction },
                        ),
                    )
                } else {
                    r is Ok
                }
            },
    {
        if bytes.len() < 3 {
            return Err(
                SQLiteError::InvalidPayloadSize(
                    InvalidPayloadSizeError { field: FieldKind::PayloadFractions },
                ),
            );
        }
        let maximum = MaximumEmbeddedPayloadFraction::parse_bytes(&bytes[0..1])?;
        let minimum = MinimumEmbeddedPayloadFraction::parse_bytes(&bytes[1..2])?;
        let leaf = LeafPayloadFraction::parse_bytes(&bytes[2..3])?;
        Ok(PayloadFractions { maximum, minimum, leaf })
    }
}

} // verus!
