//! Tests of the 100-byte database header decoder.

use sqlite_rs::header::{DatabaseTextEncoding, FileFormatReadVersion, FileFormatWriteVersion,
    SqliteHeader};
use sqlite_rs::result::{FieldKind, FieldParsingError, Name, SQLiteError};

/// A 100-byte header with the given page-size field and every other
/// field at a canonical legal value.
fn canonical_header(page_size_bytes: [u8; 2]) -> Vec<u8> {
    let mut h = vec![0u8; 100];
    h[0..16].copy_from_slice(b"SQLite format 3\0");
    h[16] = page_size_bytes[0];
    h[17] = page_size_bytes[1];
    h[18] = 1; // write version: legacy
    h[19] = 1; // read version: legacy
    h[20] = 0; // reserved bytes per page
    h[21] = 64;
    h[22] = 32;
    h[23] = 32;
    h[47] = 1; // schema format 1
    h[59] = 1; // text encoding: UTF-8
    h
}

fn parsing_error(field: FieldKind) -> SQLiteError {
    SQLiteError::ParsingField(FieldParsingError { field })
}

#[test]
fn all_valid_page_sizes_decode() {
    let cases: [([u8; 2], u32); 8] = [
        ([0x02, 0x00], 512),
        ([0x04, 0x00], 1024),
        ([0x08, 0x00], 2048),
        ([0x10, 0x00], 4096),
        ([0x20, 0x00], 8192),
        ([0x40, 0x00], 16384),
        ([0x80, 0x00], 32768),
        ([0x00, 0x01], 65536),
    ];
    for (bytes, expected) in cases {
        let header = SqliteHeader::parse_bytes(&canonical_header(bytes)).unwrap();
        assert_eq!(header.page_size().get(), expected);
    }
}

#[test]
fn page_size_two_is_rejected() {
    // 0x00 0x02 is neither the 65536 magic (0x00 0x01) nor a power of
    // two at least 512 when read as big-endian.
    let r = SqliteHeader::parse_bytes(&canonical_header([0x00, 0x02]));
    assert_eq!(r.unwrap_err(), parsing_error(FieldKind::PageSize));
}

#[test]
fn page_size_below_512_is_rejected() {
    let r = SqliteHeader::parse_bytes(&canonical_header([0x01, 0x00]));
    assert_eq!(r.unwrap_err(), parsing_error(FieldKind::PageSize));
}

#[test]
fn header_round_trips() {
    let mut bytes = canonical_header([0x10, 0x00]);
    // Give the integer fields distinctive values.
    bytes[24..28].copy_from_slice(&7u32.to_be_bytes()); // change counter
    bytes[28..32].copy_from_slice(&3u32.to_be_bytes()); // db size in pages
    bytes[32..36].copy_from_slice(&2u32.to_be_bytes()); // freelist first
    bytes[36..40].copy_from_slice(&1u32.to_be_bytes()); // freelist total
    bytes[40..44].copy_from_slice(&9u32.to_be_bytes()); // schema cookie
    bytes[48..52].copy_from_slice(&100u32.to_be_bytes()); // cache size
    bytes[52..56].copy_from_slice(&5u32.to_be_bytes()); // largest root page
    bytes[60..64].copy_from_slice(&11u32.to_be_bytes()); // user version
    bytes[64..68].copy_from_slice(&1u32.to_be_bytes()); // incremental vacuum
    bytes[68..72].copy_from_slice(&77u32.to_be_bytes()); // application id
    bytes[92..96].copy_from_slice(&7u32.to_be_bytes()); // version valid for
    bytes[96..100].copy_from_slice(&3049000u32.to_be_bytes()); // library version
    let first = SqliteHeader::parse_bytes(&bytes).unwrap();
    let reencoded = first.to_bytes();
    assert_eq!(reencoded.len(), 100);
    let second = SqliteHeader::parse_bytes(&reencoded).unwrap();
    assert_eq!(first, second);
}

#[test]
fn reserved_bytes_boundary_on_512_pages() {
    let mut too_many = canonical_header([0x02, 0x00]);
    too_many[20] = 33;
    assert_eq!(
        SqliteHeader::parse_bytes(&too_many).unwrap_err(),
        parsing_error(FieldKind::ReservedBytesPerPage)
    );

    let mut at_boundary = canonical_header([0x02, 0x00]);
    at_boundary[20] = 32;
    let header = SqliteHeader::parse_bytes(&at_boundary).unwrap();
    assert_eq!(header.reserved_bytes_per_page().get(), 32);
}

#[test]
fn large_pages_allow_more_reserved_bytes() {
    let mut h = canonical_header([0x10, 0x00]);
    h[20] = 255;
    let header = SqliteHeader::parse_bytes(&h).unwrap();
    assert_eq!(header.reserved_bytes_per_page().get(), 255);
}

#[test]
fn vacuum_flag_without_largest_root_fails() {
    let mut h = canonical_header([0x10, 0x00]);
    // largest root page (offset 52) stays 0; set the flag at 64.
    h[64..68].copy_from_slice(&1u32.to_be_bytes());
    assert_eq!(
        SqliteHeader::parse_bytes(&h).unwrap_err(),
        parsing_error(FieldKind::IncrementalVacuumMode)
    );
}

#[test]
fn vacuum_flag_with_largest_root_succeeds() {
    let mut h = canonical_header([0x10, 0x00]);
    h[52..56].copy_from_slice(&5u32.to_be_bytes());
    h[64..68].copy_from_slice(&1u32.to_be_bytes());
    let header = SqliteHeader::parse_bytes(&h).unwrap();
    assert_eq!(header.incremental_vacuum_settings().largest_root_btree_page().get(), 5);
    assert_eq!(header.incremental_vacuum_settings().incremental_vacuum_mode().get(), 1);
}

#[test]
fn canonical_header_decodes_and_every_accessor_agrees() {
    let bytes = canonical_header([0x10, 0x00]);
    let header = SqliteHeader::parse_bytes(&bytes).unwrap();
    assert_eq!(header.page_size().get(), 4096);
    assert_eq!(
        header.file_format_version_numbers().write_version(),
        FileFormatWriteVersion::Legacy
    );
    assert_eq!(header.file_format_version_numbers().read_version(), FileFormatReadVersion::Legacy);
    assert_eq!(header.reserved_bytes_per_page().get(), 0);
    assert_eq!(header.payload_fractions().maximum().get(), 64);
    assert_eq!(header.payload_fractions().minimum().get(), 32);
    assert_eq!(header.payload_fractions().leaf().get(), 32);
    assert_eq!(header.file_change_counter().get(), 0);
    assert_eq!(header.db_filesize_in_pages().get(), 0);
    assert_eq!(header.freelist_pages().first().get(), 0);
    assert_eq!(header.freelist_pages().total().get(), 0);
    assert_eq!(header.schema_cookie().get(), 0);
    assert_eq!(header.schema_format().get(), 1);
    assert_eq!(header.suggested_cache_size().get(), 0);
    assert_eq!(header.incremental_vacuum_settings().largest_root_btree_page().get(), 0);
    assert_eq!(header.incremental_vacuum_settings().incremental_vacuum_mode().get(), 0);
    assert_eq!(*header.database_text_encoding(), DatabaseTextEncoding::Utf8);
    assert_eq!(header.user_version().get(), 0);
    assert_eq!(header.application_id().get(), 0);
    assert_eq!(header.version_valid_for().get(), 0);
    assert_eq!(header.write_library_version().get(), 0);

    let mut corrupted = bytes.clone();
    corrupted[0] = 0x00;
    assert_eq!(
        SqliteHeader::parse_bytes(&corrupted).unwrap_err(),
        parsing_error(FieldKind::MagicHeaderString)
    );
}

#[test]
fn first_invalid_field_in_offset_order_is_reported() {
    // Both the read version (offset 19) and the text encoding (offset
    // 56) are illegal; the earlier offset decides.
    let mut h = canonical_header([0x10, 0x00]);
    h[19] = 9;
    h[59] = 9;
    assert_eq!(
        SqliteHeader::parse_bytes(&h).unwrap_err(),
        parsing_error(FieldKind::FileFormatReadVersion)
    );
}

#[test]
fn short_header_input_is_rejected() {
    let h = canonical_header([0x10, 0x00]);
    let r = SqliteHeader::parse_bytes(&h[0..99]);
    assert!(matches!(r.unwrap_err(), SQLiteError::InvalidPayloadSize(_)));
}

#[test]
fn nonzero_reserved_expansion_is_rejected() {
    let mut h = canonical_header([0x10, 0x00]);
    h[80] = 1;
    assert_eq!(
        SqliteHeader::parse_bytes(&h).unwrap_err(),
        parsing_error(FieldKind::ReservedForExpansion)
    );
}

#[test]
fn text_encodings_decode() {
    for (code, expected) in [
        (1u32, DatabaseTextEncoding::Utf8),
        (2, DatabaseTextEncoding::Utf16Le),
        (3, DatabaseTextEncoding::Utf16Be),
    ] {
        let mut h = canonical_header([0x10, 0x00]);
        h[56..60].copy_from_slice(&code.to_be_bytes());
        let header = SqliteHeader::parse_bytes(&h).unwrap();
        assert_eq!(*header.database_text_encoding(), expected);
        assert_eq!(header.database_text_encoding().get(), code);
    }
    let mut h = canonical_header([0x10, 0x00]);
    h[56..60].copy_from_slice(&4u32.to_be_bytes());
    assert_eq!(
        SqliteHeader::parse_bytes(&h).unwrap_err(),
        parsing_error(FieldKind::DatabaseTextEncoding)
    );
}

#[test]
fn schema_format_is_bounded() {
    for code in [1u32, 2, 3, 4] {
        let mut h = canonical_header([0x10, 0x00]);
        h[44..48].copy_from_slice(&code.to_be_bytes());
        let header = SqliteHeader::parse_bytes(&h).unwrap();
        assert_eq!(header.schema_format().get(), code);
    }
    let mut h = canonical_header([0x10, 0x00]);
    h[44..48].copy_from_slice(&5u32.to_be_bytes());
    assert_eq!(SqliteHeader::parse_bytes(&h).unwrap_err(), parsing_error(FieldKind::SchemaFormat));
}

#[test]
fn types_report_their_names() {
    assert_eq!(<sqlite_rs::header::PageSize as Name>::name(), "PageSize");
    assert_eq!(<SqliteHeader as Name>::name(), "SqliteHeader");
}

#[test]
fn db_size_is_trusted_only_when_counters_match() {
    let mut h = canonical_header([0x10, 0x00]);
    h[24..28].copy_from_slice(&7u32.to_be_bytes()); // change counter
    h[28..32].copy_from_slice(&3u32.to_be_bytes()); // in-header size
    h[92..96].copy_from_slice(&7u32.to_be_bytes()); // version valid for
    let header = SqliteHeader::parse_bytes(&h).unwrap();
    assert!(header.db_size_is_trusted());

    h[92..96].copy_from_slice(&6u32.to_be_bytes());
    let header = SqliteHeader::parse_bytes(&h).unwrap();
    assert!(!header.db_size_is_trusted());
}
