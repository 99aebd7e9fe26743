use dcspkg::archive::{check_checksum, check_entries, verify_archive};
use dcspkg::error::ErrorKind;
use std::io::Write;

fn crc_of(data: &[u8]) -> u32 {
    let mut c = flate2::Crc::new();
    c.update(data);
    c.sum()
}

fn header_for(path: &[u8], size: u64) -> tar::Header {
    let mut h = tar::Header::new_gnu();
    h.as_old_mut().name[..path.len()].copy_from_slice(path);
    h.set_size(size);
    h.set_mode(0o644);
    h.set_cksum();
    h
}

fn tar_of(entries: &[(&[u8], &[u8])]) -> Vec<u8> {
    let mut b = tar::Builder::new(Vec::new());
    for (path, data) in entries {
        let h = header_for(path, data.len() as u64);
        b.append(&h, *data).unwrap();
    }
    b.into_inner().unwrap()
}

fn gz(data: &[u8]) -> Vec<u8> {
    let mut e = flate2::write::GzEncoder::new(Vec::new(), flate2::Compression::default());
    e.write_all(data).unwrap();
    e.finish().unwrap()
}

#[test]
fn checksum_equal_accepted() {
    assert_eq!(check_checksum(0xDEADBEEF, 0xDEADBEEF), Ok(()));
}

#[test]
fn checksum_differs_rejected() {
    assert_eq!(
        check_checksum(1, 2),
        Err(ErrorKind::ChecksumMismatch { expected: 1, actual: 2 })
    );
}

#[test]
fn entries_unreadable_rejected() {
    assert_eq!(check_entries(&None), Err(ErrorKind::Extraction));
}

#[test]
fn entries_inside_accepted() {
    let paths = Some(vec![b"bin/foo".to_vec(), b"./README".to_vec(), b"a/..b".to_vec()]);
    assert_eq!(check_entries(&paths), Ok(()));
    assert_eq!(check_entries(&Some(vec![])), Ok(()));
}

#[test]
fn entries_escaping_rejected() {
    for bad in [&b"../x"[..], b"a/../../x", b"/etc/passwd", b"a/..", b""] {
        let paths = Some(vec![b"ok".to_vec(), bad.to_vec()]);
        assert_eq!(check_entries(&paths), Err(ErrorKind::Extraction));
    }
}

#[test]
fn archive_good_gives_tar() {
    let tar = tar_of(&[(b"bin/foo", b"#!/bin/sh\n")]);
    let data = gz(&tar);
    assert_eq!(verify_archive(crc_of(&data), &data), Ok(tar));
}

#[test]
fn archive_tampered_is_mismatch() {
    let tar = tar_of(&[(b"bin/foo", b"#!/bin/sh\n")]);
    let data = gz(&tar);
    let expected = crc_of(&data);
    let mut tampered = data.clone();
    let last = tampered.len() - 1;
    tampered[last] ^= 0xff;
    let actual = crc_of(&tampered);
    assert_ne!(actual, expected);
    assert_eq!(
        verify_archive(expected, &tampered),
        Err(ErrorKind::ChecksumMismatch { expected, actual })
    );
}

#[test]
fn archive_checksum_known_value() {
    // The CRC-32 of "123456789" is 0xCBF43926.
    let data = b"123456789".to_vec();
    assert_eq!(
        verify_archive(0, &data),
        Err(ErrorKind::ChecksumMismatch { expected: 0, actual: 0xCBF43926 })
    );
}

#[test]
fn archive_not_gzip_is_decompression_error() {
    let data = b"this is not gzip".to_vec();
    assert_eq!(verify_archive(crc_of(&data), &data), Err(ErrorKind::Decompression));
}

#[test]
fn archive_traversal_entry_rejected() {
    let tar = tar_of(&[(b"bin/foo", b"x"), (b"../evil", b"y")]);
    let data = gz(&tar);
    assert_eq!(verify_archive(crc_of(&data), &data), Err(ErrorKind::Extraction));
}

#[test]
fn archive_garbled_tar_rejected() {
    let mut tar = tar_of(&[(b"bin/foo", b"x")]);
    tar[148] = b'Z'; // break the header checksum
    let data = gz(&tar);
    assert_eq!(verify_archive(crc_of(&data), &data), Err(ErrorKind::Extraction));
}
