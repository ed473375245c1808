//! Tests of the b-tree page parser: page types, headers, cell
//! pointers, varints, cells and the overflow-spill arithmetic.

use sqlite_rs::btree::cell::BtreeCell;
use sqlite_rs::btree::page::BtreePage;
use sqlite_rs::btree::page_type::BtreePageType;
use sqlite_rs::btree::payload::{index_local_size, table_leaf_local_size,
    table_leaf_payload_spills};
use sqlite_rs::btree::varint::decode_varint;
use sqlite_rs::result::SQLiteError;

#[test]
fn freeblock_offset_zero_means_none() {
    let page = vec![13u8, 0, 0, 0, 0, 0, 0, 0];
    let parsed = BtreePage::parsing_handler(&page, 4096).unwrap();
    assert!(parsed.header().first_freeblock().is_none());
    assert_eq!(parsed.header().first_freeblock().get(), 0);
}

#[test]
fn leaf_page_with_zero_cells_parses() {
    // Tag 13 (leaf table), no freeblock, zero cells, content start
    // stored as 0 (meaning 65536), no fragmented bytes.
    let page = vec![13u8, 0, 0, 0, 0, 0, 0, 0];
    let parsed = BtreePage::parsing_handler(&page, 4096).unwrap();
    assert_eq!(*parsed.page_type(), BtreePageType::LeafTable);
    assert_eq!(parsed.cell_count(), 0);
    assert_eq!(parsed.header().number_of_cells().get(), 0);
    assert_eq!(parsed.header().start_of_cell_content_area().get(), 65536);
    assert_eq!(parsed.header().length_bytes(), 8);
    assert!(parsed.header().right_most_pointer().is_none());
}

#[test]
fn page_type_seven_is_rejected() {
    let page = vec![7u8, 0, 0, 0, 0, 0, 0, 0];
    let r = BtreePage::parsing_handler(&page, 4096);
    assert_eq!(r.unwrap_err(), SQLiteError::InvalidPageType(7));
}

#[test]
fn interior_page_has_right_most_pointer() {
    // Tag 5 (interior table), one cell at offset 100, right-most
    // child page 9.
    let mut page = vec![0u8; 4096];
    page[0] = 5;
    page[3] = 0;
    page[4] = 1; // one cell
    page[8..12].copy_from_slice(&9u32.to_be_bytes());
    page[12] = 0;
    page[13] = 100; // cell pointer
    page[100..104].copy_from_slice(&4u32.to_be_bytes()); // left child
    page[104] = 42; // rowid varint
    let parsed = BtreePage::parsing_handler(&page, 4096).unwrap();
    assert_eq!(*parsed.page_type(), BtreePageType::InteriorTable);
    assert_eq!(parsed.header().length_bytes(), 12);
    assert_eq!(parsed.header().right_most_pointer().unwrap().get(), 9);
    let cells = parsed.decode_cells(&page, 4096).unwrap();
    assert_eq!(cells.len(), 1);
    match &cells[0] {
        BtreeCell::TableInterior { left_child_page, rowid } => {
            assert_eq!(*left_child_page, 4);
            assert_eq!(*rowid, 42);
        }
        other => panic!("wrong cell kind: {other:?}"),
    }
}

#[test]
fn truncated_cell_pointer_array_is_reported() {
    // Tag 13 with 3 cells but no room for their pointers.
    let mut page = vec![0u8; 9];
    page[0] = 13;
    page[4] = 3;
    let r = BtreePage::parsing_handler(&page, 4096);
    assert_eq!(r.unwrap_err(), SQLiteError::TruncatedCellPointerArray);
}

#[test]
fn cell_pointer_outside_usable_area_is_reported() {
    let mut page = vec![0u8; 4096];
    page[0] = 13;
    page[4] = 1; // one cell
    page[8..10].copy_from_slice(&4096u16.to_be_bytes()); // pointer == usable size
    let r = BtreePage::parsing_handler(&page, 4096);
    assert_eq!(r.unwrap_err(), SQLiteError::InvalidCellPointer(4096));
}

#[test]
fn table_leaf_cell_decodes() {
    let mut page = vec![0u8; 4096];
    page[0] = 13;
    page[4] = 1;
    page[8..10].copy_from_slice(&1000u16.to_be_bytes());
    page[1000] = 3; // payload size varint
    page[1001] = 7; // rowid varint
    page[1002] = 0xaa;
    page[1003] = 0xbb;
    page[1004] = 0xcc;
    let parsed = BtreePage::parsing_handler(&page, 4096).unwrap();
    let cells = parsed.decode_cells(&page, 4096).unwrap();
    assert_eq!(cells.len(), 1);
    match &cells[0] {
        BtreeCell::TableLeaf { rowid, payload_size, local_payload, first_overflow_page } => {
            assert_eq!(*rowid, 7);
            assert_eq!(*payload_size, 3);
            assert_eq!(local_payload.as_slice(), &[0xaa, 0xbb, 0xcc]);
            assert!(first_overflow_page.is_none());
        }
        other => panic!("wrong cell kind: {other:?}"),
    }
}

#[test]
fn spilling_table_leaf_cell_carries_overflow_pointer() {
    // Usable size 4096: X = 4061, so a payload of 4062 spills and
    // keeps only M = 489 bytes in-page.
    let mut page = vec![0u8; 4096];
    page[0] = 13;
    page[4] = 1;
    page[8..10].copy_from_slice(&100u16.to_be_bytes());
    // payload size 4062 as a two-byte varint: 4062 = 31*128 + 94.
    page[100] = 0x80 | 31;
    page[101] = 94;
    page[102] = 5; // rowid
    // 489 local payload bytes at 103..592, then the overflow pointer.
    for i in 0..489 {
        page[103 + i] = 0x11;
    }
    page[592..596].copy_from_slice(&77u32.to_be_bytes());
    let parsed = BtreePage::parsing_handler(&page, 4096).unwrap();
    let cells = parsed.decode_cells(&page, 4096).unwrap();
    match &cells[0] {
        BtreeCell::TableLeaf { rowid, payload_size, local_payload, first_overflow_page } => {
            assert_eq!(*rowid, 5);
            assert_eq!(*payload_size, 4062);
            assert_eq!(local_payload.len(), 489);
            assert_eq!(*first_overflow_page, Some(77));
        }
        other => panic!("wrong cell kind: {other:?}"),
    }
}

#[test]
fn table_leaf_spill_thresholds() {
    // U = 4096 gives X = 4061: a payload of exactly 4061 bytes stays
    // wholly in-page, one more byte spills.
    assert_eq!(table_leaf_local_size(4096, 4061), 4061);
    assert!(!table_leaf_payload_spills(4096, 4061));
    assert!(table_leaf_payload_spills(4096, 4062));

    // The spilling in-page portion is M + ((P - M) mod (U - 4)),
    // clamped back to M when that exceeds X.
    let m: u64 = (4096 - 12) * 32 / 255 - 23;
    assert_eq!(m, 489);
    let k: u64 = m + (4062 - m) % (4096 - 4);
    let expected = if k <= 4061 { k } else { m };
    assert_eq!(table_leaf_local_size(4096, 4062), expected);
    assert_eq!(table_leaf_local_size(4096, 4062), 489);

    // A much larger payload lands in the K branch.
    let p: u64 = 10000;
    let k: u64 = m + (p - m) % (4096 - 4);
    assert!(k <= 4061);
    assert_eq!(table_leaf_local_size(4096, p), k);
}

#[test]
fn index_cells_use_the_smaller_maximum() {
    // For indexes X = (U-12)*64/255 - 23 = 1002 at U = 4096.
    let x: u64 = (4096 - 12) * 64 / 255 - 23;
    assert_eq!(x, 1002);
    assert_eq!(index_local_size(4096, x), x);
    let m: u64 = (4096 - 12) * 32 / 255 - 23;
    let k: u64 = m + (x + 1 - m) % (4096 - 4);
    let expected = if k <= x { k } else { m };
    assert_eq!(index_local_size(4096, x + 1), expected);
}

#[test]
fn varints_decode() {
    assert_eq!(decode_varint(&[0x00], 0).unwrap(), (0, 1));
    assert_eq!(decode_varint(&[0x7f], 0).unwrap(), (127, 1));
    assert_eq!(decode_varint(&[0x81, 0x00], 0).unwrap(), (128, 2));
    assert_eq!(decode_varint(&[0x82, 0x24], 0).unwrap(), (292, 2));
    // Nine 0xff bytes: the ninth contributes all eight bits.
    let nine = [0xffu8; 9];
    assert_eq!(decode_varint(&nine, 0).unwrap(), (u64::MAX, 9));
    // A continuation bit with nothing after it is a truncated cell.
    assert_eq!(decode_varint(&[0x80], 0).unwrap_err(), SQLiteError::TruncatedCell);
    assert_eq!(decode_varint(&[], 0).unwrap_err(), SQLiteError::TruncatedCell);
}

#[test]
fn index_leaf_cell_decodes() {
    let mut page = vec![0u8; 4096];
    page[0] = 10; // leaf index
    page[4] = 1;
    page[8..10].copy_from_slice(&200u16.to_be_bytes());
    page[200] = 2; // key payload size
    page[201] = 0x01;
    page[202] = 0x02;
    let parsed = BtreePage::parsing_handler(&page, 4096).unwrap();
    assert_eq!(*parsed.page_type(), BtreePageType::LeafIndex);
    let cells = parsed.decode_cells(&page, 4096).unwrap();
    match &cells[0] {
        BtreeCell::IndexLeaf { payload_size, local_payload, first_overflow_page } => {
            assert_eq!(*payload_size, 2);
            assert_eq!(local_payload.as_slice(), &[0x01, 0x02]);
            assert!(first_overflow_page.is_none());
        }
        other => panic!("wrong cell kind: {other:?}"),
    }
}

#[test]
fn truncated_cell_is_reported() {
    let mut page = vec![0u8; 32];
    page[0] = 13;
    page[4] = 1;
    page[8..10].copy_from_slice(&30u16.to_be_bytes());
    // At offset 30: payload size 5, rowid 1, but only 0 payload bytes fit.
    page[30] = 5;
    page[31] = 1;
    let parsed = BtreePage::parsing_handler(&page, 4096).unwrap();
    let r = parsed.decode_cells(&page, 4096);
    assert_eq!(r.unwrap_err(), SQLiteError::TruncatedCell);
}

#[test]
fn empty_page_buffer_is_rejected() {
    let r = BtreePage::parsing_handler(&[], 4096);
    assert!(matches!(r.unwrap_err(), SQLiteError::InvalidPayloadSize(_)));
}
