//! The file-format write and read version bytes at offsets 18 and 19:
//! 1 for rollback-journal files, 2 for write-ahead-log files.

use vstd::prelude::*;

use crate::result::{FieldKind, FieldParsingError, InvalidPayloadSizeError, SQLiteError,
    SQLiteResult};

verus! {

/// The version bytes a file may carry: 1 (legacy) or 2 (WAL).
pub open spec fn version_byte_ok(v: int) -> bool {
    v == 1 || v == 2
}

/// File format write version: how the file is journalled on writes.
#[derive(Debug, Clone, Copy, PartialEq, Eq, Structural)]
pub enum FileFormatWriteVersion {
    Legacy,
    WAL,
}

impl View for FileFormatWriteVersion {
    type V = int;

    open spec fn view(&self) -> int {
        match self {
            FileFormatWriteVersion::Legacy => 1,
            FileFormatWriteVersion::WAL => 2,
        }
    }
}

impl FileFormatWriteVersion {
    /// The stored byte for this version.
    pub fn get(&self) -> (r: u8)
        ensures
            r as int == self@,
    {
        match self {
            FileFormatWriteVersion::Legacy => 1,
            FileFormatWriteVersion::WAL => 2,
        }
    }

    /// Decodes the one-byte field at offset 18.
    pub fn parse_bytes(bytes: &[u8]) -> (r: SQLiteResult<Self>)
        ensures
            bytes@.len() < 1 ==> r == Err::<Self, _>(
                SQLiteError::InvalidPayloadSize(
                    InvalidPayloadSizeError { field: FieldKind::FileFormatWriteVersion },
                ),
            ),
            bytes@.len() >= 1 ==> {
                if version_byte_ok(bytes@[0] as int) {
                    r matches Ok(v) && v@ == bytes@[0] as int
                } else {
                    r == Err::<Self, _>(
                        SQLiteError::ParsingField(
                            FieldParsingError { field: FieldKind::FileFormatWriteVersion },
                        ),
                    )
                }
            },
    {
        if bytes.len() < 1 {
            return Err(
                SQLiteError::InvalidPayloadSize(
                    InvalidPayloadSizeError { field: FieldKind::FileFormatWriteVersion },
                ),
            );
        }
        match bytes[0] {
            1 => Ok(FileFormatWriteVersion::Legacy),
            2 => Ok(FileFormatWriteVersion::WAL),
            _ => Err(
                SQLiteError::ParsingField(
                    FieldParsingError { field: FieldKind::FileFormatWriteVersion },
                ),
            ),
        }
    }
}

/// File format read version: whether the file can be read at all.
#[derive(Debug, Clone, Copy, PartialEq, Eq, Structural)]
pub enum FileFormatReadVersion {
    Legacy,
    WAL,
}

impl View for FileFormatReadVersion {
    type V = int;

    open spec fn view(&self) -> int {
        match self {
            FileFormatReadVersion::Legacy => 1,
            FileFormatReadVersion::WAL => 2,
        }
    }
}

impl FileFormatReadVersion {
    /// The stored byte for this version.
    pub fn get(&self) -> (r: u8)
        ensures
            r as int == self@,
    {
        match self {
            FileFormatReadVersion::Legacy => 1,
            FileFormatReadVersion::WAL => 2,
        }
    }

    /// Decodes the one-byte field at offset 19.
    pub fn parse_bytes(bytes: &[u8]) -> (r: SQLiteResult<Self>)
        ensures
            bytes@.len() < 1 ==> r == Err::<Self, _>(
                SQLiteError::InvalidPayloadSize(
                    InvalidPayloadSizeError { field: FieldKind::FileFormatReadVersion },
                ),
            ),
            bytes@.len() >= 1 ==> {
                if version_byte_ok(bytes@[0] as int) {
                    r matches Ok(v) && v@ == bytes@[0] as int
                } else {
                    r == Err::<Self, _>(
                        SQLiteError::ParsingField(
                            FieldParsingError { field: FieldKind::FileFormatReadVersion },
                        ),
                    )
                }
            },
    {
        if bytes.len() < 1 {
            return Err(
                SQLiteError::InvalidPayloadSize(
                    InvalidPayloadSizeError { field: FieldKind::FileFormatReadVersion },
                ),
            );
        }
        match bytes[0] {
            1 => Ok(FileFormatReadVersion::Legacy),
            2 => Ok(FileFormatReadVersion::WAL),
            _ => Err(
                SQLiteError::ParsingField(
                    FieldParsingError { field: FieldKind::FileFormatReadVersion },
                ),
            ),
        }
    }
}

/// The pair of version bytes at offsets 18 and 19.
#[derive(Debug, Clone, Copy, PartialEq, Eq, Structural)]
pub struct FileFormatVersionNumbers {
    write_version: FileFormatWriteVersion,
    read_version: FileFormatReadVersion,
}

impl FileFormatVersionNumbers {
    /// Pairs a write version with a read version.
    pub fn new(write_version: FileFormatWriteVersion, read_version: FileFormatReadVersion) -> (r:
        Self)
        ensures
            r.write_version() == write_version,
            r.read_version() == read_version,
    {
        FileFormatVersionNumbers { write_version, read_version }
    }

    /// The write version at offset 18.
    pub closed spec fn spec_write_version(&self) -> FileFormatWriteVersion {
        self.write_version
    }

    /// The read version at offset 19.
    pub closed spec fn spec_read_version(&self) -> FileFormatReadVersion {
        self.read_version
    }

    /// The write version at offset 18.
    #[verifier::when_used_as_spec(spec_write_version)]
    pub fn write_version(&self) -> (r: FileFormatWriteVersion)
        ensures
            r == self.spec_write_version(),
    {
        self.write_version
    }

    /// The read version at offset 19.
    #[verifier::when_used_as_spec(spec_read_version)]
    pub fn read_version(&self) -> (r: FileFormatReadVersion)
        ensures
            r == self.spec_read_version(),
    {
        self.read_version
    }

    /// Decodes the two version bytes, write version first; the first
    /// illegal byte is the one reported.
    pub fn parse_bytes(bytes: &[u8]) -> (r: SQLiteResult<Self>)
        ensures
            bytes@.len() < 2 ==> r == Err::<Self, _>(
                SQLiteError::InvalidPayloadSize(
                    InvalidPayloadSizeError { field: FieldKind::FileFormatVersionNumbers },
                ),
            ),
            bytes@.len() >= 2 ==> {
                if !version_byte_ok(bytes@[0] as int) {
                    r == Err::<Self, _>(
                        SQLiteError::ParsingField(
                            FieldParsingError { field: FieldKind::FileFormatWriteVersion },
                        ),
                    )
                } else if !version_byte_ok(bytes@[1] as int) {
                    r == Err::<Self, _>(
                        SQLiteError::ParsingField(
                            FieldParsingError { field: FieldKind::FileFormatReadVersion },
                        ),
                    )
                } else {
                    r matches Ok(v) && v.write_version()@ == bytes@[0] as int && v.read_version()@
                        == bytes@[1] as int
                }
            },
    {
        if bytes.len() < 2 {
            return Err(
                SQLiteError::InvalidPayloadSize(
                    InvalidPayloadSizeError { field: FieldKind::FileFormatVersionNumbers },
                ),
            );
        }
        let write_version = FileFormatWriteVersion::parse_bytes(&bytes[0..1])?;
        let read_version = FileFormatReadVersion::parse_bytes(&bytes[1..2])?;
        Ok(FileFormatVersionNumbers { write_version, read_version })
    }
}

} // verus!
