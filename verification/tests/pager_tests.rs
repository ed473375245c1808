//! Tests of the byte store and the pager.

use sqlite_rs::io::{SqliteIo, SqliteIoMode, SqliteUri};
use sqlite_rs::pager::SqlitePager;
use sqlite_rs::result::SQLiteError;

/// A store of `pages` pages of `page_size` bytes, whose page 1 begins
/// with a canonical header and whose page N is filled with the byte N.
fn sample_db(page_size: usize, page_size_bytes: [u8; 2], pages: usize) -> Vec<u8> {
    let mut data = vec![0u8; page_size * pages];
    data[0..16].copy_from_slice(b"SQLite format 3\0");
    data[16] = page_size_bytes[0];
    data[17] = page_size_bytes[1];
    data[18] = 1;
    data[19] = 1;
    data[21] = 64;
    data[22] = 32;
    data[23] = 32;
    data[47] = 1;
    data[59] = 1;
    for n in 2..=pages {
        for i in 0..page_size {
            data[(n - 1) * page_size + i] = n as u8;
        }
    }
    data
}

#[test]
fn read_page_zero_fails() {
    let data = sample_db(4096, [0x10, 0x00], 3);
    let io = SqliteIo::from_bytes(SqliteIoMode::InMemory, data);
    let mut pager = SqlitePager::connect(io).unwrap();
    assert_eq!(pager.read(0).unwrap_err(), SQLiteError::InvalidPageNumber);
}

#[test]
fn read_page_beyond_file_fails_with_short_read() {
    let data = sample_db(4096, [0x10, 0x00], 3);
    let io = SqliteIo::from_bytes(SqliteIoMode::InMemory, data);
    let mut pager = SqlitePager::connect(io).unwrap();
    assert_eq!(pager.read(4).unwrap_err(), SQLiteError::ShortRead);
}

#[test]
fn read_page_two_returns_its_exact_byte_range() {
    let data = sample_db(4096, [0x10, 0x00], 3);
    let expected = data[4096..8192].to_vec();
    let io = SqliteIo::from_bytes(SqliteIoMode::InMemory, data);
    let mut pager = SqlitePager::connect(io).unwrap();
    let page = pager.read(2).unwrap();
    assert_eq!(page.number(), 2);
    assert_eq!(page.raw_data().as_slice(), expected.as_slice());
    assert_eq!(page.length().get(), 4096);
    assert_eq!(page.raw_data().len(), 4096);
}

#[test]
fn first_reads_page_one() {
    let data = sample_db(512, [0x02, 0x00], 2);
    let expected = data[0..512].to_vec();
    let io = SqliteIo::from_bytes(SqliteIoMode::InMemory, data);
    let mut pager = SqlitePager::connect(io).unwrap();
    let page = pager.first().unwrap();
    assert_eq!(page.number(), 1);
    assert_eq!(page.raw_data().as_slice(), expected.as_slice());
}

#[test]
fn connect_learns_the_page_size() {
    for (bytes, expected) in [([0x02u8, 0x00u8], 512u32), ([0x00, 0x01], 65536)] {
        let data = sample_db(expected as usize, bytes, 1);
        let io = SqliteIo::from_bytes(SqliteIoMode::InMemory, data);
        let pager = SqlitePager::connect(io).unwrap();
        assert_eq!(pager.page_size().get(), expected);
    }
}

#[test]
fn connect_rejects_an_illegal_page_size() {
    let data = sample_db(4096, [0x00, 0x02], 1);
    let r = SqlitePager::connect(SqliteIo::from_bytes(SqliteIoMode::InMemory, data));
    assert!(matches!(r.unwrap_err(), SQLiteError::ParsingField(_)));
}

#[test]
fn connect_rejects_a_store_shorter_than_the_page_size_field() {
    let data = vec![0u8; 10];
    let r = SqlitePager::connect(SqliteIo::from_bytes(SqliteIoMode::InMemory, data));
    assert_eq!(r.unwrap_err(), SQLiteError::ShortRead);
}

#[test]
fn io_reads_advance_the_cursor() {
    let mut io = SqliteIo::from_bytes(SqliteIoMode::InMemory, vec![10, 20, 30, 40, 50]);
    assert!(!io.is_empty());
    assert_eq!(io.len(), 5);
    let first = io.read(2);
    assert_eq!(first.as_slice(), &[10, 20]);
    assert_eq!(io.stream_position().unwrap(), 2);
    let rest = io.read(10);
    assert_eq!(rest.as_slice(), &[30, 40, 50]);
    io.rewind().unwrap();
    assert_eq!(io.stream_position().unwrap(), 0);
    io.seek(4).unwrap();
    let tail = io.read(2);
    assert_eq!(tail.as_slice(), &[50]);
    assert_eq!(*io.mode(), SqliteIoMode::InMemory);
    io.close().unwrap();
}

#[test]
fn the_default_store_is_empty_and_in_memory() {
    let io = SqliteIo::default();
    assert!(io.is_empty());
    assert_eq!(*io.mode(), SqliteIoMode::InMemory);
}

#[test]
fn memory_locator_opens_an_empty_store() {
    let io = SqliteIo::open(":memory:").unwrap();
    assert!(io.is_empty());
    assert_eq!(*io.mode(), SqliteIoMode::InMemory);
}

#[test]
fn other_locators_are_not_opened_here() {
    let r = SqliteIo::open("sqlite://./data/flights.db");
    assert_eq!(r.unwrap_err(), SQLiteError::UnsupportedLocator);
}

#[test]
fn a_page_gives_its_buffer_back() {
    let data = sample_db(512, [0x02, 0x00], 1);
    let io = SqliteIo::from_bytes(SqliteIoMode::InMemory, data.clone());
    let mut pager = SqlitePager::connect(io).unwrap();
    let page = pager.first().unwrap();
    let (length, bytes) = page.take();
    assert_eq!(length.get(), 512);
    assert_eq!(bytes, data);
}

#[test]
fn uri_splits_at_the_first_separator() {
    let uri = SqliteUri::parse("sqlite://./data/flights.db").unwrap();
    assert_eq!(uri.path().as_str(), "./data/flights.db");
    assert_eq!(uri.uri().as_str(), "sqlite://./data/flights.db");
    let nested = SqliteUri::parse("a://b://c").unwrap();
    assert_eq!(nested.path().as_str(), "b://c");
    assert!(SqliteUri::parse(":memory:").is_err());
    assert!(SqliteUri::parse("").is_err());
}
