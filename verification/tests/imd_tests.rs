use std::io::Cursor;

use fluxfox::{DiskImage, DiskImageError};
use fluxfox_web::imd::is_headerless_imd;
use fluxfox_web::status::{outcome_message, ThreadLoadStatus};

const HEADER: &[u8] = b"IMD 1.00: 01/01/2024 00:00:00";

fn header_only_file() -> Vec<u8> {
    let mut v = HEADER.to_vec();
    v.push(0x1A);
    v
}

fn load(bytes: Vec<u8>) -> ThreadLoadStatus<DiskImage, DiskImageError> {
    let mut cursor = Cursor::new(bytes);
    outcome_message(DiskImage::load(&mut cursor, None, None, None))
}

#[test]
fn header_only_file_is_guarded() {
    assert!(is_headerless_imd(&header_only_file()));
}

#[test]
fn header_with_four_trailing_bytes_is_guarded() {
    let mut v = header_only_file();
    v.extend_from_slice(&[1, 2, 3, 4]);
    assert!(is_headerless_imd(&v));
}

#[test]
fn header_with_room_for_a_track_header_is_not_guarded() {
    let mut v = header_only_file();
    v.extend_from_slice(&[0xFF, 0xFF, 0xFF, 0xFF, 0xFF]);
    assert!(!is_headerless_imd(&v));
    // The loader runs and rejects the invalid track header itself.
    assert!(matches!(load(v), ThreadLoadStatus::Error(_)));
}

#[test]
fn header_without_terminator_is_guarded() {
    assert!(is_headerless_imd(&HEADER.to_vec()));
}

#[test]
fn signature_found_at_an_offset() {
    let mut v = b"comment first ".to_vec();
    v.extend_from_slice(HEADER);
    v.push(0x1A);
    assert!(is_headerless_imd(&v));
}

#[test]
fn non_printable_bytes_are_skipped_by_the_header_scan() {
    // The header reader drops bytes outside printable ASCII, so a stray
    // high byte inside the signature does not hide it.
    let mut v = b"IM".to_vec();
    v.push(0x80);
    v.extend_from_slice(b"D 1.00: 01/01/2024 00:00:00");
    v.push(0x1A);
    assert!(is_headerless_imd(&v));
}

#[test]
fn nul_byte_ends_the_header_scan() {
    // The signature sits behind a NUL, so the header text never holds it.
    let mut v = vec![0x00];
    v.extend_from_slice(HEADER);
    v.push(0x1A);
    assert!(!is_headerless_imd(&v));
}

#[test]
fn unrelated_buffers_are_not_guarded() {
    assert!(!is_headerless_imd(&Vec::new()));
    assert!(!is_headerless_imd(&b"IMD 1.0: too short a version".to_vec()));
    assert!(!is_headerless_imd(&vec![0u8; 368640]));
}
