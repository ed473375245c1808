//! Tests of the connection and runtime layer.

use sqlite_rs::result::SQLiteError;
use sqlite_rs::SqliteConnection;

/// A store of `pages` pages of 512 bytes whose page 1 begins with a
/// canonical header.
fn small_db(pages: usize) -> Vec<u8> {
    let mut data = vec![0u8; 512 * pages];
    data[0..16].copy_from_slice(b"SQLite format 3\0");
    data[16] = 0x02;
    data[17] = 0x00;
    data[18] = 1;
    data[19] = 1;
    data[21] = 64;
    data[22] = 32;
    data[23] = 32;
    data[47] = 1;
    data[59] = 1;
    data
}

#[test]
fn ok_on_new_inmemory_database() {
    let res = SqliteConnection::open(":memory:");
    assert!(res.is_ok());
    let mut conn = res.unwrap();
    // A fresh in-memory database holds no pages yet, so reading page 1
    // reports a short read rather than inventing bytes.
    let page = conn.runtime_mut().pager_mut().first();
    assert_eq!(page.unwrap_err(), SQLiteError::ShortRead);
    let header = conn.runtime().header();
    assert_eq!(header.page_size().get(), conn.runtime().pager().page_size().get());
    assert_eq!(header.page_size().get(), 4096);
    assert_eq!(header.reserved_bytes_per_page().get(), 0);
}

#[test]
fn open_sample_yields_a_readable_database() {
    let mut conn = SqliteConnection::open_sample().unwrap();
    assert_eq!(conn.runtime().header().page_size().get(), 4096);
    let page = conn.runtime_mut().read_page(1).unwrap();
    assert_eq!(page.number(), 1);
    assert_eq!(page.raw_data().len(), 4096);
    assert_eq!(&page.raw_data()[0..16], b"SQLite format 3\0");
}

#[test]
fn unsupported_locators_are_reported() {
    let r = SqliteConnection::open("sqlite://./data/flights.db");
    assert_eq!(r.unwrap_err(), SQLiteError::UnsupportedLocator);
}

#[test]
fn from_io_decodes_the_header_of_page_one() {
    let data = small_db(1);
    let io = sqlite_rs::io::SqliteIo::from_bytes(sqlite_rs::io::SqliteIoMode::InMemory, data);
    let conn = SqliteConnection::from_io(io).unwrap();
    assert_eq!(conn.runtime().header().page_size().get(), 512);
}

#[test]
fn from_io_rejects_a_corrupt_magic() {
    let mut data = small_db(1);
    data[0] = 0x53 - 1;
    let io = sqlite_rs::io::SqliteIo::from_bytes(sqlite_rs::io::SqliteIoMode::InMemory, data);
    let r = SqliteConnection::from_io(io);
    assert!(matches!(r.unwrap_err(), SQLiteError::ParsingField(_)));
}

#[test]
fn from_io_rejects_a_truncated_page_one() {
    let mut data = small_db(1);
    data.truncate(300);
    let io = sqlite_rs::io::SqliteIo::from_bytes(sqlite_rs::io::SqliteIoMode::InMemory, data);
    let r = SqliteConnection::from_io(io);
    assert_eq!(r.unwrap_err(), SQLiteError::ShortRead);
}

#[test]
fn decode_btree_page_uses_the_connection_usable_size() {
    // Page 2 of a small database holds an empty table leaf.
    let mut data = small_db(2);
    data[512] = 13;
    let io = sqlite_rs::io::SqliteIo::from_bytes(sqlite_rs::io::SqliteIoMode::InMemory, data);
    let mut conn = SqliteConnection::from_io(io).unwrap();
    let page = conn.runtime_mut().read_page(2).unwrap();
    let parsed = conn.runtime().decode_btree_page(page.raw_data().as_slice()).unwrap();
    assert_eq!(parsed.cell_count(), 0);
}

#[test]
fn page_one_btree_content_follows_the_file_header() {
    // On page 1 the b-tree page starts after the 100-byte database
    // header, so its buffer is handed over with those bytes skipped.
    let mut data = small_db(1);
    data[100] = 13; // leaf table, zero cells
    let io = sqlite_rs::io::SqliteIo::from_bytes(sqlite_rs::io::SqliteIoMode::InMemory, data);
    let mut conn = SqliteConnection::from_io(io).unwrap();
    let page = conn.runtime_mut().read_page(1).unwrap();
    let parsed = conn.runtime().decode_btree_page(&page.raw_data()[100..]).unwrap();
    assert_eq!(parsed.cell_count(), 0);
}

#[test]
fn overflow_chain_is_collected_in_order() {
    // Pages 2 and 3 form a chain: page 2 links to page 3, page 3 ends
    // the chain. With 512-byte pages each holds 508 content bytes.
    let mut data = small_db(3);
    data[512..516].copy_from_slice(&3u32.to_be_bytes());
    for i in 516..1024 {
        data[i] = 0xaa;
    }
    // page 3: next = 0, content 0xbb
    for i in 1028..1536 {
        data[i] = 0xbb;
    }
    let io = sqlite_rs::io::SqliteIo::from_bytes(sqlite_rs::io::SqliteIoMode::InMemory, data);
    let mut conn = SqliteConnection::from_io(io).unwrap();
    let payload = conn.runtime_mut().read_overflow_chain(2, 600).unwrap();
    assert_eq!(payload.len(), 600);
    assert!(payload[0..508].iter().all(|b| *b == 0xaa));
    assert!(payload[508..600].iter().all(|b| *b == 0xbb));
}

#[test]
fn overflow_cycle_is_detected() {
    // Page 2 links back to itself.
    let mut data = small_db(2);
    data[512..516].copy_from_slice(&2u32.to_be_bytes());
    let io = sqlite_rs::io::SqliteIo::from_bytes(sqlite_rs::io::SqliteIoMode::InMemory, data);
    let mut conn = SqliteConnection::from_io(io).unwrap();
    let r = conn.runtime_mut().read_overflow_chain(2, 600);
    assert_eq!(r.unwrap_err(), SQLiteError::OverflowCycleDetected);
}

#[test]
fn overflow_chain_ending_early_is_a_short_read() {
    // Page 2 ends the chain but 600 bytes were expected.
    let data = small_db(2);
    let io = sqlite_rs::io::SqliteIo::from_bytes(sqlite_rs::io::SqliteIoMode::InMemory, data);
    let mut conn = SqliteConnection::from_io(io).unwrap();
    let r = conn.runtime_mut().read_overflow_chain(2, 600);
    assert_eq!(r.unwrap_err(), SQLiteError::ShortRead);
}

#[test]
fn error_descriptions_are_not_empty() {
    assert!(!SQLiteError::ShortRead.describe().is_empty());
    assert!(!SQLiteError::InvalidPageNumber.describe().is_empty());
    assert!(!SQLiteError::OverflowCycleDetected.describe().is_empty());
}
