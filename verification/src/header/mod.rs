//! The 100-byte database header: one type per field, each with its own
//! decoder, and the all-or-nothing header decoder that validates fields
//! strictly in offset order so the first invalid field is the one
//! reported.

use vstd::prelude::*;

pub mod database_text_encoding;
pub mod fields;
pub mod file_format_version_numbers;
pub mod incremental_vacuum_settings;
pub mod magic_header_string;
pub mod page_size;
pub mod payload_fractions;
pub mod reserved_bytes_per_page;

pub use database_text_encoding::DatabaseTextEncoding;
pub use fields::{ApplicationId, DatabaseFileSizeInPages, FileChangeCounter, FreeListPages,
    FreeListPagesFirstTrunkPage, FreeListPagesTotalPages, ReservedForExpansion, SchemaCookie,
    SchemaFormat, SuggestedCacheSize, UserVersion, VersionValidFor, WriteLibraryVersion};
pub use file_format_version_numbers::{FileFormatReadVersion, FileFormatVersionNumbers,
    FileFormatWriteVersion};
pub use incremental_vacuum_settings::{IncrementalVacuumMode, IncrementalVacuumSettings,
    LargestRootBtreePage};
pub use magic_header_string::MagicHeaderString;
pub use page_size::PageSize;
pub use payload_fractions::{LeafPayloadFraction, MaximumEmbeddedPayloadFraction,
    MinimumEmbeddedPayloadFraction, PayloadFractions};
pub use reserved_bytes_per_page::ReservedBytesPerPage;

use crate::bytes::{spec_be_u16, spec_be_u16_bytes, spec_be_u32, spec_be_u32_bytes};
use crate::result::{FieldKind, FieldParsingError, InvalidPayloadSizeError, SQLiteError,
    SQLiteResult};

use fields::{reserved_expansion_ok, schema_format_ok};
use file_format_version_numbers::version_byte_ok;
use incremental_vacuum_settings::vacuum_settings_ok;
use magic_header_string::spec_magic;
use page_size::{is_valid_page_size, page_size_field_ok, spec_decode_page_size,
    spec_encode_page_size};
use reserved_bytes_per_page::reserved_ok;

verus! {

/// Number of bytes of the database header at the start of page 1.
pub const HEADER_LENGTH_BYTES: usize = 100;

/// The mathematical content of a decoded header: every integer field at
/// its decoded value, the page size already widened from its stored form
/// and the vacuum flag already normalized to a boolean.
pub struct HeaderV {
    pub page_size: int,
    pub write_version: int,
    pub read_version: int,
    pub reserved_bytes_per_page: int,
    pub file_change_counter: int,
    pub db_filesize_in_pages: int,
    pub freelist_first_trunk_page: int,
    pub freelist_total_pages: int,
    pub schema_cookie: int,
    pub schema_format: int,
    pub suggested_cache_size: int,
    pub largest_root_btree_page: int,
    pub text_encoding: int,
    pub user_version: int,
    pub incremental_vacuum: bool,
    pub application_id: int,
    pub version_valid_for: int,
    pub write_library_version: int,
}

/// Whether the first 100 bytes of `b` form a valid database header.
pub open spec fn spec_header_valid(b: Seq<u8>) -> bool {
    &&& b.subrange(0, 16) == spec_magic()
    &&& page_size_field_ok(spec_be_u16(b, 16))
    &&& version_byte_ok(b[18] as int)
    &&& version_byte_ok(b[19] as int)
    &&& reserved_ok(spec_decode_page_size(spec_be_u16(b, 16)), b[20] as int)
    &&& b[21] == 64
    &&& b[22] == 32
    &&& b[23] == 32
    &&& schema_format_ok(spec_be_u32(b, 44))
    &&& 1 <= spec_be_u32(b, 56) <= 3
    &&& vacuum_settings_ok(spec_be_u32(b, 52), spec_be_u32(b, 64) != 0)
    &&& reserved_expansion_ok(b, 72)
}

/// The error a header decode reports: fields are validated strictly in
/// offset order, so the first offset whose constraint fails decides.
pub open spec fn spec_header_error(b: Seq<u8>) -> SQLiteError {
    if b.subrange(0, 16) != spec_magic() {
        SQLiteError::ParsingField(FieldParsingError { field: FieldKind::MagicHeaderString })
    } else if !page_size_field_ok(spec_be_u16(b, 16)) {
        SQLiteError::ParsingField(FieldParsingError { field: FieldKind::PageSize })
    } else if !version_byte_ok(b[18] as int) {
        SQLiteError::ParsingField(FieldParsingError { field: FieldKind::FileFormatWriteVersion })
    } else if !version_byte_ok(b[19] as int) {
        SQLiteError::ParsingField(FieldParsingError { field: FieldKind::FileFormatReadVersion })
    } else if !reserved_ok(spec_decode_page_size(spec_be_u16(b, 16)), b[20] as int) {
        SQLiteError::ParsingField(FieldParsingError { field: FieldKind::ReservedBytesPerPage })
    } else if b[21] != 64 {
        SQLiteError::ParsingField(
            FieldParsingError { field: FieldKind::MaximumEmbeddedPayloadFraction },
        )
    } else if b[22] != 32 {
        SQLiteError::ParsingField(
            FieldParsingError { field: FieldKind::MinimumEmbeddedPayloadFraction },
        )
    } else if b[23] != 32 {
        SQLiteError::ParsingField(FieldParsingError { field: FieldKind::LeafPayloadFraction })
    } else if !schema_format_ok(spec_be_u32(b, 44)) {
        SQLiteError::ParsingField(FieldParsingError { field: FieldKind::SchemaFormat })
    } else if !(1 <= spec_be_u32(b, 56) <= 3) {
        SQLiteError::ParsingField(FieldParsingError { field: FieldKind::DatabaseTextEncoding })
    } else if !vacuum_settings_ok(spec_be_u32(b, 52), spec_be_u32(b, 64) != 0) {
        SQLiteError::ParsingField(FieldParsingError { field: FieldKind::IncrementalVacuumMode })
    } else {
        SQLiteError::ParsingField(FieldParsingError { field: FieldKind::ReservedForExpansion })
    }
}

/// The header value the first 100 bytes of `b` decode to, when they are
/// valid.
pub open spec fn spec_header_of(b: Seq<u8>) -> HeaderV {
    HeaderV {
        page_size: spec_decode_page_size(spec_be_u16(b, 16)),
        write_version: b[18] as int,
        read_version: b[19] as int,
        reserved_bytes_per_page: b[20] as int,
        file_change_counter: spec_be_u32(b, 24),
        db_filesize_in_pages: spec_be_u32(b, 28),
        freelist_first_trunk_page: spec_be_u32(b, 32),
        freelist_total_pages: spec_be_u32(b, 36),
        schema_cookie: spec_be_u32(b, 40),
        schema_format: spec_be_u32(b, 44),
        suggested_cache_size: spec_be_u32(b, 48),
        largest_root_btree_page: spec_be_u32(b, 52),
        text_encoding: spec_be_u32(b, 56),
        user_version: spec_be_u32(b, 60),
        incremental_vacuum: spec_be_u32(b, 64) != 0,
        application_id: spec_be_u32(b, 68),
        version_valid_for: spec_be_u32(b, 92),
        write_library_version: spec_be_u32(b, 96),
    }
}

/// The constraints every decoded header value satisfies.
pub open spec fn header_v_wf(h: HeaderV) -> bool {
    &&& is_valid_page_size(h.page_size)
    &&& version_byte_ok(h.write_version)
    &&& version_byte_ok(h.read_version)
    &&& 0 <= h.reserved_bytes_per_page < 0x100
    &&& reserved_ok(h.page_size, h.reserved_bytes_per_page)
    &&& 0 <= h.file_change_counter < 0x100000000
    &&& 0 <= h.db_filesize_in_pages < 0x100000000
    &&& 0 <= h.freelist_first_trunk_page < 0x100000000
    &&& 0 <= h.freelist_total_pages < 0x100000000
    &&& 0 <= h.schema_cookie < 0x100000000
    &&& schema_format_ok(h.schema_format)
    &&& 0 <= h.suggested_cache_size < 0x100000000
    &&& 0 <= h.largest_root_btree_page < 0x100000000
    &&& 1 <= h.text_encoding <= 3
    &&& 0 <= h.user_version < 0x100000000
    &&& vacuum_settings_ok(h.largest_root_btree_page, h.incremental_vacuum)
    &&& 0 <= h.application_id < 0x100000000
    &&& 0 <= h.version_valid_for < 0x100000000
    &&& 0 <= h.write_library_version < 0x100000000
}

/// The database header decoded from the first 100 bytes of page 1,
/// constructed once per connection and never mutated.
#[derive(Debug, Clone, Copy, PartialEq, Eq, Structural)]
pub struct SqliteHeader {
    magic_header_string: MagicHeaderString,
    page_size: PageSize,
    file_format_version_numbers: FileFormatVersionNumbers,
    reserved_bytes_per_page: ReservedBytesPerPage,
    payload_fractions: PayloadFractions,
    file_change_counter: FileChangeCounter,
    db_filesize_in_pages: DatabaseFileSizeInPages,
    freelist_pages: FreeListPages,
    schema_cookie: SchemaCookie,
    schema_format: SchemaFormat,
    suggested_cache_size: SuggestedCacheSize,
    incremental_vacuum_settings: IncrementalVacuumSettings,
    database_text_encoding: DatabaseTextEncoding,
    user_version: UserVersion,
    application_id: ApplicationId,
    reserved_for_expansion: ReservedForExpansion,
    version_valid_for: VersionValidFor,
    write_library_version: WriteLibraryVersion,
}

impl View for SqliteHeader {
    type V = HeaderV;

    closed spec fn view(&self) -> HeaderV {
        HeaderV {
            page_size: self.page_size@,
            write_version: self.file_format_version_numbers.write_version()@,
            read_version: self.file_format_version_numbers.read_version()@,
            reserved_bytes_per_page: self.reserved_bytes_per_page@,
            file_change_counter: self.file_change_counter@,
            db_filesize_in_pages: self.db_filesize_in_pages@,
            freelist_first_trunk_page: self.freelist_pages.first()@,
            freelist_total_pages: self.freelist_pages.total()@,
            schema_cookie: self.schema_cookie@,
            schema_format: self.schema_format@,
            suggested_cache_size: self.suggested_cache_size@,
            largest_root_btree_page: self.incremental_vacuum_settings.largest_root_btree_page()@,
            text_encoding: self.database_text_encoding@,
            user_version: self.user_version@,
            incremental_vacuum: self.incremental_vacuum_settings.incremental_vacuum_mode()@,
            application_id: self.application_id@,
            version_valid_for: self.version_valid_for@,
            write_library_version: self.write_library_version@,
        }
    }
}

impl crate::result::Name for SqliteHeader {
    fn name() -> &'static str {
        "SqliteHeader"
    }
}

impl SqliteHeader {
    /// The 16-byte signature.
    pub fn magic_header_string(&self) -> &MagicHeaderString {
        &self.magic_header_string
    }

    /// The page size decoded from offset 16.
    pub fn page_size(&self) -> (r: &PageSize)
        ensures
            r@ == self@.page_size,
    {
        &self.page_size
    }

    /// The write and read version bytes at offsets 18 and 19.
    pub fn file_format_version_numbers(&self) -> (r: &FileFormatVersionNumbers)
        ensures
            r.write_version()@ == self@.write_version,
            r.read_version()@ == self@.read_version,
    {
        &self.file_format_version_numbers
    }

    /// The reserved-space byte at offset 20.
    pub fn reserved_bytes_per_page(&self) -> (r: &ReservedBytesPerPage)
        ensures
            r@ == self@.reserved_bytes_per_page,
    {
        &self.reserved_bytes_per_page
    }

    /// The three fixed payload-fraction bytes.
    pub fn payload_fractions(&self) -> &PayloadFractions {
        &self.payload_fractions
    }

    /// The file change counter at offset 24.
    pub fn file_change_counter(&self) -> (r: &FileChangeCounter)
        ensures
            r@ == self@.file_change_counter,
    {
        &self.file_change_counter
    }

    /// The in-header database size at offset 28.
    pub fn db_filesize_in_pages(&self) -> (r: &DatabaseFileSizeInPages)
        ensures
            r@ == self@.db_filesize_in_pages,
    {
        &self.db_filesize_in_pages
    }

    /// The freelist bookkeeping words at offsets 32 and 36.
    pub fn freelist_pages(&self) -> (r: &FreeListPages)
        ensures
            r.first()@ == self@.freelist_first_trunk_page,
            r.total()@ == self@.freelist_total_pages,
    {
        &self.freelist_pages
    }

    /// The schema cookie at offset 40.
    pub fn schema_cookie(&self) -> (r: &SchemaCookie)
        ensures
            r@ == self@.schema_cookie,
    {
        &self.schema_cookie
    }

    /// The schema format number at offset 44.
    pub fn schema_format(&self) -> (r: &SchemaFormat)
        ensures
            r@ == self@.schema_format,
    {
        &self.schema_format
    }

    /// The suggested cache size at offset 48.
    pub fn suggested_cache_size(&self) -> (r: &SuggestedCacheSize)
        ensures
            r@ == self@.suggested_cache_size,
    {
        &self.suggested_cache_size
    }

    /// The vacuum-related words at offsets 52 and 64.
    pub fn incremental_vacuum_settings(&self) -> (r: &IncrementalVacuumSettings)
        ensures
            r.largest_root_btree_page()@ == self@.largest_root_btree_page,
            r.incremental_vacuum_mode()@ == self@.incremental_vacuum,
    {
        &self.incremental_vacuum_settings
    }

    /// The text encoding at offset 56.
    pub fn database_text_encoding(&self) -> (r: &DatabaseTextEncoding)
        ensures
            r@ == self@.text_encoding,
    {
        &self.database_text_encoding
    }

    /// The user version at offset 60.
    pub fn user_version(&self) -> (r: &UserVersion)
        ensures
            r@ == self@.user_version,
    {
        &self.user_version
    }

    /// The application id at offset 68.
    pub fn application_id(&self) -> (r: &ApplicationId)
        ensures
            r@ == self@.application_id,
    {
        &self.application_id
    }

    /// Witness that the 20 reserved-for-expansion bytes were zero.
    pub fn reserved_for_expansion(&self) -> &ReservedForExpansion {
        &self.reserved_for_expansion
    }

    /// The version-valid-for number at offset 92.
    pub fn version_valid_for(&self) -> (r: &VersionValidFor)
        ensures
            r@ == self@.version_valid_for,
    {
        &self.version_valid_for
    }

    /// The write library version number at offset 96.
    pub fn write_library_version(&self) -> (r: &WriteLibraryVersion)
        ensures
            r@ == self@.write_library_version,
    {
        &self.write_library_version
    }

    /// Whether the in-header database size may be trusted: it must be
    /// non-zero and the change counter must match the version-valid-for
    /// number; otherwise the true page count must come from the file
    /// size.
    pub fn db_size_is_trusted(&self) -> (r: bool)
        ensures
            r == (self@.db_filesize_in_pages != 0 && self@.file_change_counter
                == self@.version_valid_for),
    {
        self.db_filesize_in_pages.get() != 0 && self.file_change_counter.get()
            == self.version_valid_for.get()
    }

    /// Decodes and validates the 100-byte header, field by field in
    /// offset order. Decoding is all-or-nothing: one invalid field
    /// yields its error and no header.
    pub fn parse_bytes(bytes: &[u8]) -> (r: SQLiteResult<Self>)
        ensures
            bytes@.len() < 100 ==> r == Err::<Self, _>(
                SQLiteError::InvalidPayloadSize(
                    InvalidPayloadSizeError { field: FieldKind::SqliteHeader },
                ),
            ),
            bytes@.len() >= 100 ==> {
                if spec_header_valid(bytes@) {
                    &&& r matches Ok(h)
                    &&& h@ == spec_header_of(bytes@)
                    &&& header_v_wf(h@)
                } else {
                    r == Err::<Self, _>(spec_header_error(bytes@))
                }
            },
    {
        if bytes.len() < HEADER_LENGTH_BYTES {
            return Err(
                SQLiteError::InvalidPayloadSize(
                    InvalidPayloadSizeError { field: FieldKind::SqliteHeader },
                ),
            );
        }
        let magic_slice = &bytes[0..16];
        proof {
            assert(magic_slice@.subrange(0, 16) =~= magic_slice@);
            assert((magic_slice@ == spec_magic()) == (bytes@.subrange(0, 16) == spec_magic()));
        }
        let magic_header_string = MagicHeaderString::parse_bytes(magic_slice)?;
        let page_size_slice = &bytes[16..18];
        proof {
            assert(spec_be_u16(page_size_slice@, 0) == spec_be_u16(bytes@, 16));
        }
        let page_size = PageSize::parse_bytes(page_size_slice)?;
        let versions_slice = &bytes[18..20];
        proof {
            assert(versions_slice@[0] == bytes@[18]);
            assert(versions_slice@[1] == bytes@[19]);
        }
        let file_format_version_numbers = FileFormatVersionNumbers::parse_bytes(versions_slice)?;
        let reserved_slice = &bytes[20..21];
        proof {
            assert(reserved_slice@[0] == bytes@[20]);
        }
        let reserved_bytes_per_page = ReservedBytesPerPage::parse_bytes(
            reserved_slice,
            &page_size,
        )?;
        let fractions_slice = &bytes[21..24];
        proof {
            assert(fractions_slice@[0] == bytes@[21]);
            assert(fractions_slice@[1] == bytes@[22]);
            assert(fractions_slice@[2] == bytes@[23]);
        }
        let payload_fractions = PayloadFractions::parse_bytes(fractions_slice)?;
        let counter_slice = &bytes[24..28];
        proof {
            assert(spec_be_u32(counter_slice@, 0) == spec_be_u32(bytes@, 24));
        }
        let file_change_counter = FileChangeCounter::parse_bytes(counter_slice)?;
        let db_size_slice = &bytes[28..32];
        proof {
            assert(spec_be_u32(db_size_slice@, 0) == spec_be_u32(bytes@, 28));
        }
        let db_filesize_in_pages = DatabaseFileSizeInPages::parse_bytes(db_size_slice)?;
        let freelist_slice = &bytes[32..40];
        proof {
            assert(spec_be_u32(freelist_slice@, 0) == spec_be_u32(bytes@, 32));
            assert(spec_be_u32(freelist_slice@, 4) == spec_be_u32(bytes@, 36));
        }
        let freelist_pages = FreeListPages::parse_bytes(freelist_slice)?;
        let cookie_slice = &bytes[40..44];
        proof {
            assert(spec_be_u32(cookie_slice@, 0) == spec_be_u32(bytes@, 40));
        }
        let schema_cookie = SchemaCookie::parse_bytes(cookie_slice)?;
        let schema_format_slice = &bytes[44..48];
        proof {
            assert(spec_be_u32(schema_format_slice@, 0) == spec_be_u32(bytes@, 44));
        }
        let schema_format = SchemaFormat::parse_bytes(schema_format_slice)?;
        let cache_slice = &bytes[48..52];
        proof {
            assert(spec_be_u32(cache_slice@, 0) == spec_be_u32(bytes@, 48));
        }
        let suggested_cache_size = SuggestedCacheSize::parse_bytes(cache_slice)?;
        let largest_root_slice = &bytes[52..56];
        proof {
            assert(spec_be_u32(largest_root_slice@, 0) == spec_be_u32(bytes@, 52));
        }
        let largest_root_btree_page = LargestRootBtreePage::parse_bytes(largest_root_slice)?;
        let encoding_slice = &bytes[56..60];
        proof {
            assert(spec_be_u32(encoding_slice@, 0) == spec_be_u32(bytes@, 56));
        }
        let database_text_encoding = DatabaseTextEncoding::parse_bytes(encoding_slice)?;
        let user_version_slice = &bytes[60..64];
        proof {
            assert(spec_be_u32(user_version_slice@, 0) == spec_be_u32(bytes@, 60));
        }
        let user_version = UserVersion::parse_bytes(user_version_slice)?;
        let vacuum_slice = &bytes[64..68];
        proof {
            assert(spec_be_u32(vacuum_slice@, 0) == spec_be_u32(bytes@, 64));
        }
        let incremental_vacuum_mode = IncrementalVacuumMode::parse_bytes(vacuum_slice)?;
        if incremental_vacuum_mode.get() == 1 && largest_root_btree_page.get() == 0 {
            return Err(
                SQLiteError::ParsingField(
                    FieldParsingError { field: FieldKind::IncrementalVacuumMode },
                ),
            );
        }
        let incremental_vacuum_settings = IncrementalVacuumSettings::new(
            largest_root_btree_page,
            incremental_vacuum_mode,
        );
        let app_id_slice = &bytes[68..72];
        proof {
            assert(spec_be_u32(app_id_slice@, 0) == spec_be_u32(bytes@, 68));
        }
        let application_id = ApplicationId::parse_bytes(app_id_slice)?;
        let expansion_slice = &bytes[72..92];
        proof {
            assert(forall|j: int| 0 <= j < 20 ==> expansion_slice@[j] == bytes@[72 + j]);
            if reserved_expansion_ok(expansion_slice@, 0) {
                assert forall|j: int| 72 <= j < 92 implies bytes@[j] == 0 by {
                    assert(bytes@[j] == expansion_slice@[j - 72]);
                }
            }
            if reserved_expansion_ok(bytes@, 72) {
                assert forall|j: int| 0 <= j < 20 implies expansion_slice@[j] == 0 by {
                    assert(expansion_slice@[j] == bytes@[72 + j]);
                }
            }
            assert(reserved_expansion_ok(expansion_slice@, 0) == reserved_expansion_ok(
                bytes@,
                72,
            ));
        }
        let reserved_for_expansion = ReservedForExpansion::parse_bytes(expansion_slice)?;
        let valid_for_slice = &bytes[92..96];
        proof {
            assert(spec_be_u32(valid_for_slice@, 0) == spec_be_u32(bytes@, 92));
        }
        let version_valid_for = VersionValidFor::parse_bytes(valid_for_slice)?;
        let library_version_slice = &bytes[96..100];
        proof {
            assert(spec_be_u32(library_version_slice@, 0) == spec_be_u32(bytes@, 96));
        }
        let write_library_version = WriteLibraryVersion::parse_bytes(library_version_slice)?;
        Ok(
            SqliteHeader {
                magic_header_string,
                page_size,
                file_format_version_numbers,
                reserved_bytes_per_page,
                payload_fractions,
                file_change_counter,
                db_filesize_in_pages,
                freelist_pages,
                schema_cookie,
                schema_format,
                suggested_cache_size,
                incremental_vacuum_settings,
                database_text_encoding,
                user_version,
                application_id,
                reserved_for_expansion,
                version_valid_for,
                write_library_version,
            },
        )
    }
}


/// The 100 bytes that store a header value: each field written back at
/// its offset in big-endian form, the page size in its stored form and
/// the vacuum flag normalized to 0 or 1.
pub open spec fn spec_encode_header(h: HeaderV) -> Seq<u8> {
    magic_header_string::spec_magic() + spec_be_u16_bytes(spec_encode_page_size(h.page_size))
        + seq![
        h.write_version as u8,
        h.read_version as u8,
        h.reserved_bytes_per_page as u8,
        64u8,
        32u8,
        32u8,
    ] + spec_be_u32_bytes(h.file_change_counter) + spec_be_u32_bytes(h.db_filesize_in_pages)
        + spec_be_u32_bytes(h.freelist_first_trunk_page) + spec_be_u32_bytes(
        h.freelist_total_pages,
    ) + spec_be_u32_bytes(h.schema_cookie) + spec_be_u32_bytes(h.schema_format)
        + spec_be_u32_bytes(h.suggested_cache_size) + spec_be_u32_bytes(h.largest_root_btree_page)
        + spec_be_u32_bytes(h.text_encoding) + spec_be_u32_bytes(h.user_version)
        + spec_be_u32_bytes(if h.incremental_vacuum { 1int } else { 0int }) + spec_be_u32_bytes(
        h.application_id,
    ) + Seq::new(20, |i: int| 0u8) + spec_be_u32_bytes(h.version_valid_for) + spec_be_u32_bytes(
        h.write_library_version,
    )
}

impl SqliteHeader {
    /// Writes the header back to its 100-byte stored form.
    #[verifier::rlimit(60)]
    pub fn to_bytes(&self) -> (r: Vec<u8>)
        requires
            header_v_wf(self@),
        ensures
            r@ == spec_encode_header(self@),
            r@.len() == 100,
    {
        let mut out: Vec<u8> = self.magic_header_string.to_bytes();
        let mut page_size_bytes = self.page_size.to_bytes();
        out.append(&mut page_size_bytes);
        out.push(self.file_format_version_numbers.write_version().get());
        out.push(self.file_format_version_numbers.read_version().get());
        out.push(self.reserved_bytes_per_page.get());
        out.push(64);
        out.push(32);
        out.push(32);
        crate::bytes::push_be_u32(&mut out, self.file_change_counter.get());
        crate::bytes::push_be_u32(&mut out, self.db_filesize_in_pages.get());
        crate::bytes::push_be_u32(&mut out, self.freelist_pages.first().get());
        crate::bytes::push_be_u32(&mut out, self.freelist_pages.total().get());
        crate::bytes::push_be_u32(&mut out, self.schema_cookie.get());
        crate::bytes::push_be_u32(&mut out, self.schema_format.get());
        crate::bytes::push_be_u32(&mut out, self.suggested_cache_size.get());
        crate::bytes::push_be_u32(
            &mut out,
            self.incremental_vacuum_settings.largest_root_btree_page().get(),
        );
        crate::bytes::push_be_u32(&mut out, self.database_text_encoding.get());
        crate::bytes::push_be_u32(&mut out, self.user_version.get());
        crate::bytes::push_be_u32(
            &mut out,
            self.incremental_vacuum_settings.incremental_vacuum_mode().get(),
        );
        crate::bytes::push_be_u32(&mut out, self.application_id.get());
        let ghost mid = out@;
        let mut k: usize = 0;
        while k < 20
            invariant
                0 <= k <= 20,
                out@ == mid + Seq::new(k as nat, |i: int| 0u8),
            decreases 20 - k,
        {
            out.push(0);
            proof {
                assert(out@ =~= mid + Seq::new((k + 1) as nat, |i: int| 0u8));
            }
            k = k + 1;
        }
        crate::bytes::push_be_u32(&mut out, self.version_valid_for.get());
        crate::bytes::push_be_u32(&mut out, self.write_library_version.get());
        proof {
            assert(out@ =~= spec_encode_header(self@));
        }
        out
    }
}

/// The header of a fresh, empty database: canonical page size 4096,
/// legacy versions, no reserved space, no freelist, schema format 1,
/// UTF-8 text and no vacuum mode.
pub open spec fn spec_default_header() -> HeaderV {
    HeaderV {
        page_size: 4096,
        write_version: 1,
        read_version: 1,
        reserved_bytes_per_page: 0,
        file_change_counter: 0,
        db_filesize_in_pages: 0,
        freelist_first_trunk_page: 0,
        freelist_total_pages: 0,
        schema_cookie: 0,
        schema_format: 1,
        suggested_cache_size: 0,
        largest_root_btree_page: 0,
        text_encoding: 1,
        user_version: 0,
        incremental_vacuum: false,
        application_id: 0,
        version_valid_for: 0,
        write_library_version: 0,
    }
}

impl Default for SqliteHeader {
    /// The header of a fresh, empty database.
    fn default() -> (r: Self)
        ensures
            header_v_wf(r@),
            r@ == spec_default_header(),
    {
        let page_size = PageSize::new(4096);
        SqliteHeader {
            magic_header_string: MagicHeaderString,
            page_size,
            file_format_version_numbers: FileFormatVersionNumbers::new(
                FileFormatWriteVersion::Legacy,
                FileFormatReadVersion::Legacy,
            ),
            reserved_bytes_per_page: ReservedBytesPerPage::new(0, &page_size),
            payload_fractions: PayloadFractions::new(),
            file_change_counter: FileChangeCounter::new(0),
            db_filesize_in_pages: DatabaseFileSizeInPages::new(0),
            freelist_pages: FreeListPages::new(
                FreeListPagesFirstTrunkPage::new(0),
                FreeListPagesTotalPages::new(0),
            ),
            schema_cookie: SchemaCookie::new(0),
            schema_format: SchemaFormat::new(1),
            suggested_cache_size: SuggestedCacheSize::new(0),
            incremental_vacuum_settings: IncrementalVacuumSettings::new(
                LargestRootBtreePage::new(0),
                IncrementalVacuumMode::False,
            ),
            database_text_encoding: DatabaseTextEncoding::Utf8,
            user_version: UserVersion::new(0),
            application_id: ApplicationId::new(0),
            reserved_for_expansion: ReservedForExpansion,
            version_valid_for: VersionValidFor::new(0),
            write_library_version: WriteLibraryVersion::new(0),
        }
    }
}

/// A valid header's decoded value satisfies every format constraint.
pub proof fn lemma_decoded_header_wf(b: Seq<u8>)
    requires
        b.len() >= 100,
        spec_header_valid(b),
    ensures
        header_v_wf(spec_header_of(b)),
{
    lemma_every_stored_word_fits(b);
    page_size::lemma_page_size_round_trip(spec_be_u16(b, 16));
}

/// Every big-endian word read out of a byte sequence fits its width.
proof fn lemma_every_stored_word_fits(b: Seq<u8>)
    requires
        b.len() >= 100,
    ensures
        forall|off: int| 0 <= off && off + 4 <= 100 ==> 0 <= #[trigger] spec_be_u32(b, off)
            < 0x100000000,
        forall|off: int| 0 <= off && off + 2 <= 100 ==> 0 <= #[trigger] spec_be_u16(b, off)
            < 0x10000,
{
    assert forall|off: int| 0 <= off && off + 4 <= 100 implies 0 <= #[trigger] spec_be_u32(b, off)
        < 0x100000000 by {
        assert(b[off] <= 255 && b[off + 1] <= 255 && b[off + 2] <= 255 && b[off + 3] <= 255);
    }
    assert forall|off: int| 0 <= off && off + 2 <= 100 implies 0 <= #[trigger] spec_be_u16(b, off)
        < 0x10000 by {
        assert(b[off] <= 255 && b[off + 1] <= 255);
    }
}

/// Header decoding is injective on the happy path: writing a decoded
/// header's fields back to bytes and decoding them again yields the
/// identical header value.
pub proof fn lemma_reencoded_header_decodes_identically(b: Seq<u8>)
    requires
        b.len() >= 100,
        spec_header_valid(b),
    ensures
        ({
            let h = spec_header_of(b);
            &&& spec_header_valid(spec_encode_header(h))
            &&& spec_header_of(spec_encode_header(h)) == h
        }),
{
    lemma_decoded_header_wf(b);
    lemma_header_round_trip(spec_header_of(b));
}

/// Every legal page size decodes: a header whose page-size field
/// encodes `s` and whose other fields hold canonical legal values is
/// valid, and decodes to a header whose page size is exactly `s`.
pub proof fn lemma_every_valid_page_size_decodes(s: int)
    requires
        is_valid_page_size(s),
    ensures
        ({
            let h = HeaderV { page_size: s, ..spec_default_header() };
            &&& spec_header_valid(spec_encode_header(h))
            &&& spec_header_of(spec_encode_header(h)).page_size == s
        }),
{
    let h = HeaderV { page_size: s, ..spec_default_header() };
    lemma_header_round_trip(h);
}

/// Header decoding round-trips on the happy path: writing any
/// well-formed header value back to bytes yields a valid header whose
/// decode is that same value.
#[verifier::rlimit(60)]
pub proof fn lemma_header_round_trip(h: HeaderV)
    requires
        header_v_wf(h),
    ensures
        spec_encode_header(h).len() == 100,
        spec_header_valid(spec_encode_header(h)),
        spec_header_of(spec_encode_header(h)) == h,
{
    let b = spec_encode_header(h);
    assert(b.len() == 100);
    assert(b.subrange(0, 16) =~= magic_header_string::spec_magic());
    let stored_page_size = spec_encode_page_size(h.page_size);
    assert(b[16] == spec_be_u16_bytes(stored_page_size)[0]);
    assert(b[17] == spec_be_u16_bytes(stored_page_size)[1]);
    crate::bytes::lemma_be_u16_at(b, 16, stored_page_size);
    assert(page_size_field_ok(stored_page_size));
    assert(spec_decode_page_size(stored_page_size) == h.page_size);
    assert(b[18] == h.write_version as u8);
    assert(b[19] == h.read_version as u8);
    assert(b[20] == h.reserved_bytes_per_page as u8);
    assert(b[21] == 64);
    assert(b[22] == 32);
    assert(b[23] == 32);
    assert(b[24] == spec_be_u32_bytes(h.file_change_counter)[0]);
    assert(b[25] == spec_be_u32_bytes(h.file_change_counter)[1]);
    assert(b[26] == spec_be_u32_bytes(h.file_change_counter)[2]);
    assert(b[27] == spec_be_u32_bytes(h.file_change_counter)[3]);
    crate::bytes::lemma_be_u32_at(b, 24, h.file_change_counter);
    assert(b[28] == spec_be_u32_bytes(h.db_filesize_in_pages)[0]);
    assert(b[29] == spec_be_u32_bytes(h.db_filesize_in_pages)[1]);
    assert(b[30] == spec_be_u32_bytes(h.db_filesize_in_pages)[2]);
    assert(b[31] == spec_be_u32_bytes(h.db_filesize_in_pages)[3]);
    crate::bytes::lemma_be_u32_at(b, 28, h.db_filesize_in_pages);
    assert(b[32] == spec_be_u32_bytes(h.freelist_first_trunk_page)[0]);
    assert(b[33] == spec_be_u32_bytes(h.freelist_first_trunk_page)[1]);
    assert(b[34] == spec_be_u32_bytes(h.freelist_first_trunk_page)[2]);
    assert(b[35] == spec_be_u32_bytes(h.freelist_first_trunk_page)[3]);
    crate::bytes::lemma_be_u32_at(b, 32, h.freelist_first_trunk_page);
    assert(b[36] == spec_be_u32_bytes(h.freelist_total_pages)[0]);
    assert(b[37] == spec_be_u32_bytes(h.freelist_total_pages)[1]);
    assert(b[38] == spec_be_u32_bytes(h.freelist_total_pages)[2]);
    assert(b[39] == spec_be_u32_bytes(h.freelist_total_pages)[3]);
    crate::bytes::lemma_be_u32_at(b, 36, h.freelist_total_pages);
    assert(b[40] == spec_be_u32_bytes(h.schema_cookie)[0]);
    assert(b[41] == spec_be_u32_bytes(h.schema_cookie)[1]);
    assert(b[42] == spec_be_u32_bytes(h.schema_cookie)[2]);
    assert(b[43] == spec_be_u32_bytes(h.schema_cookie)[3]);
    crate::bytes::lemma_be_u32_at(b, 40, h.schema_cookie);
    assert(b[44] == spec_be_u32_bytes(h.schema_format)[0]);
    assert(b[45] == spec_be_u32_bytes(h.schema_format)[1]);
    assert(b[46] == spec_be_u32_bytes(h.schema_format)[2]);
    assert(b[47] == spec_be_u32_bytes(h.schema_format)[3]);
    crate::bytes::lemma_be_u32_at(b, 44, h.schema_format);
    assert(b[48] == spec_be_u32_bytes(h.suggested_cache_size)[0]);
    assert(b[49] == spec_be_u32_bytes(h.suggested_cache_size)[1]);
    assert(b[50] == spec_be_u32_bytes(h.suggested_cache_size)[2]);
    assert(b[51] == spec_be_u32_bytes(h.suggested_cache_size)[3]);
    crate::bytes::lemma_be_u32_at(b, 48, h.suggested_cache_size);
    assert(b[52] == spec_be_u32_bytes(h.largest_root_btree_page)[0]);
    assert(b[53] == spec_be_u32_bytes(h.largest_root_btree_page)[1]);
    assert(b[54] == spec_be_u32_bytes(h.largest_root_btree_page)[2]);
    assert(b[55] == spec_be_u32_bytes(h.largest_root_btree_page)[3]);
    crate::bytes::lemma_be_u32_at(b, 52, h.largest_root_btree_page);
    assert(b[56] == spec_be_u32_bytes(h.text_encoding)[0]);
    assert(b[57] == spec_be_u32_bytes(h.text_encoding)[1]);
    assert(b[58] == spec_be_u32_bytes(h.text_encoding)[2]);
    assert(b[59] == spec_be_u32_bytes(h.text_encoding)[3]);
    crate::bytes::lemma_be_u32_at(b, 56, h.text_encoding);
    assert(b[60] == spec_be_u32_bytes(h.user_version)[0]);
    assert(b[61] == spec_be_u32_bytes(h.user_version)[1]);
    assert(b[62] == spec_be_u32_bytes(h.user_version)[2]);
    assert(b[63] == spec_be_u32_bytes(h.user_version)[3]);
    crate::bytes::lemma_be_u32_at(b, 60, h.user_version);
    let vacuum_word = if h.incremental_vacuum { 1int } else { 0int };
    assert(b[64] == spec_be_u32_bytes(vacuum_word)[0]);
    assert(b[65] == spec_be_u32_bytes(vacuum_word)[1]);
    assert(b[66] == spec_be_u32_bytes(vacuum_word)[2]);
    assert(b[67] == spec_be_u32_bytes(vacuum_word)[3]);
    crate::bytes::lemma_be_u32_at(b, 64, vacuum_word);
    assert(b[68] == spec_be_u32_bytes(h.application_id)[0]);
    assert(b[69] == spec_be_u32_bytes(h.application_id)[1]);
    assert(b[70] == spec_be_u32_bytes(h.application_id)[2]);
    assert(b[71] == spec_be_u32_bytes(h.application_id)[3]);
    crate::bytes::lemma_be_u32_at(b, 68, h.application_id);
    assert(forall|j: int| 72 <= j < 92 ==> b[j] == 0);
    assert(b[92] == spec_be_u32_bytes(h.version_valid_for)[0]);
    assert(b[93] == spec_be_u32_bytes(h.version_valid_for)[1]);
    assert(b[94] == spec_be_u32_bytes(h.version_valid_for)[2]);
    assert(b[95] == spec_be_u32_bytes(h.version_valid_for)[3]);
    crate::bytes::lemma_be_u32_at(b, 92, h.version_valid_for);
    assert(b[96] == spec_be_u32_bytes(h.write_library_version)[0]);
    assert(b[97] == spec_be_u32_bytes(h.write_library_version)[1]);
    assert(b[98] == spec_be_u32_bytes(h.write_library_version)[2]);
    assert(b[99] == spec_be_u32_bytes(h.write_library_version)[3]);
    crate::bytes::lemma_be_u32_at(b, 96, h.write_library_version);
}


} // verus!
