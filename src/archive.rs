//! Integrity and safety checks on a downloaded archive, made before
//! anything is written to disk: its checksum, its gzip framing, and the paths
//! of its tar entries.

use vstd::prelude::*;
use crate::error::ErrorKind;
use crate::outside::{checksum, crc32_of, gunzip, gunzipped, list_tar_entries, tar_entry_paths};
use crate::paths::{path_stays_inside, stays_inside};

verus! {

/// The verdict on downloaded bytes whose checksum is `actual` where the
/// descriptor gives `expected`: exact equality, nothing else.
pub open spec fn checksum_verdict(expected: u32, actual: u32) -> Result<(), ErrorKind> {
    if expected == actual {
        Ok(())
    } else {
        Err(ErrorKind::ChecksumMismatch { expected, actual })
    }
}

/// Every path in `paths` stays inside the directory it is unpacked into.
pub open spec fn all_stay_inside(paths: Seq<Seq<u8>>) -> bool {
    forall|i: int| 0 <= i < paths.len() ==> stays_inside(#[trigger] paths[i])
}

/// The verdict on a tar archive whose entry listing is `paths` (`None` where
/// it could not be read).
pub open spec fn entries_verdict(paths: Option<Seq<Seq<u8>>>) -> Result<(), ErrorKind> {
    match paths {
        None => Err(ErrorKind::Extraction),
        Some(ps) => if all_stay_inside(ps) {
            Ok(())
        } else {
            Err(ErrorKind::Extraction)
        },
    }
}

/// What checking the downloaded bytes `data` against the checksum `expected`
/// gives: the tar archive to unpack, or the first failure. The checksum is
/// taken over the compressed bytes and decides before anything else.
pub open spec fn archive_verdict(expected: u32, data: Seq<u8>) -> Result<Seq<u8>, ErrorKind> {
    match checksum_verdict(expected, crc32_of(data)) {
        Err(e) => Err(e),
        Ok(_) => match gunzipped(data) {
            None => Err(ErrorKind::Decompression),
            Some(t) => match entries_verdict(tar_entry_paths(t)) {
                Err(e) => Err(e),
                Ok(_) => Ok(t),
            },
        },
    }
}

/// The paths of an entry listing.
pub open spec fn listing_view(paths: Option<Vec<Vec<u8>>>) -> Option<Seq<Seq<u8>>> {
    match paths {
        Some(v) => Some(v@.map_values(|p: Vec<u8>| p@)),
        None => None,
    }
}

/// Compares the checksum `actual` of downloaded bytes with the `expected`
/// one.
pub fn check_checksum(expected: u32, actual: u32) -> (r: Result<(), ErrorKind>)
    ensures
        r == checksum_verdict(expected, actual),
{
    if expected == actual {
        Ok(())
    } else {
        Err(ErrorKind::ChecksumMismatch { expected, actual })
    }
}

/// Judges the entry listing of a tar archive: it must have been read whole,
/// and no entry may land outside the install directory.
pub fn check_entries(paths: &Option<Vec<Vec<u8>>>) -> (r: Result<(), ErrorKind>)
    ensures
        r == entries_verdict(listing_view(*paths)),
{
    match paths {
        None => Err(ErrorKind::Extraction),
        Some(v) => {
            let ghost ps = listing_view(*paths)->Some_0;
            let n = v.len();
            let mut i: usize = 0;
            while i < n
                invariant
                    n == v@.len(),
                    ps == listing_view(*paths)->Some_0,
                    *paths == Some(*v),
                    i <= n,
                    forall|j: int| 0 <= j < i ==> stays_inside(#[trigger] ps[j]),
                decreases n - i,
            {
                if !path_stays_inside(v[i].as_slice()) {
                    assert(!stays_inside(ps[i as int]));
                    assert(!all_stay_inside(ps));
                    return Err(ErrorKind::Extraction);
                }
                i = i + 1;
            }
            assert(all_stay_inside(ps));
            Ok(())
        },
    }
}

/// Checks downloaded archive bytes: the checksum first, then the gzip
/// stream, then the entry paths. Returns the decompressed tar archive.
pub fn verify_archive(expected: u32, data: &[u8]) -> (r: Result<Vec<u8>, ErrorKind>)
    ensures
        match r {
            Ok(t) => archive_verdict(expected, data@) == Ok::<Seq<u8>, ErrorKind>(t@),
            Err(e) => archive_verdict(expected, data@) == Err::<Seq<u8>, ErrorKind>(e),
        },
{
    let actual = checksum(data);
    match check_checksum(expected, actual) {
        Err(e) => Err(e),
        Ok(_) => match gunzip(data) {
            None => Err(ErrorKind::Decompression),
            Some(t) => {
                let paths = list_tar_entries(t.as_slice());
                match check_entries(&paths) {
                    Err(e) => Err(e),
                    Ok(_) => Ok(t),
                }
            },
        },
    }
}

} // verus!
