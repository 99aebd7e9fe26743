//! The calls into outside crates that the pipeline makes on values in
//! memory: the archive checksum, gzip decompression, the listing of a tar
//! archive's entries, and URL resolution. Each result is named by a spec
//! function of its arguments alone.

use vstd::prelude::*;

verus! {

/// The CRC-32 of `data`, as flate2 computes it.
pub uninterp spec fn crc32_of(data: Seq<u8>) -> u32;

/// What gzip decompression of `data` gives, or `None` where `data` is not a
/// well-formed gzip stream.
pub uninterp spec fn gunzipped(data: Seq<u8>) -> Option<Seq<u8>>;

/// The raw path of each entry of the tar archive `data`, in archive order, or
/// `None` where the archive cannot be read to its end.
pub uninterp spec fn tar_entry_paths(data: Seq<u8>) -> Option<Seq<Seq<u8>>>;

/// The text of the URL that `rel` resolves to against the base URL `base`, or
/// `None` where either cannot be parsed.
pub uninterp spec fn url_joined(base: Seq<char>, rel: Seq<char>) -> Option<Seq<char>>;

/// Relies on flate2::Crc (`new`, `update`, `sum`): the CRC-32 of all of `data`.
#[verifier::external_body]
pub(crate) fn checksum(data: &[u8]) -> (r: u32)
    ensures
        r == crc32_of(data@),
{
    let mut crc = flate2::Crc::new();
    crc.update(data);
    crc.sum()
}

/// Relies on flate2::read::GzDecoder, read to its end: the decompressed bytes,
/// or an error where the gzip stream is malformed.
#[verifier::external_body]
pub(crate) fn gunzip(data: &[u8]) -> (r: Option<Vec<u8>>)
    ensures
        r.is_some() == gunzipped(data@).is_some(),
        r matches Some(v) ==> gunzipped(data@) == Some(v@),
{
    let mut out = Vec::new();
    let mut decoder = flate2::read::GzDecoder::new(data);
    std::io::Read::read_to_end(&mut decoder, &mut out).ok().map(|_| out)
}

/// Relies on tar::Archive::entries and tar::Entry::path_bytes: the path of
/// every entry, in archive order, or an error where an entry cannot be read.
#[verifier::external_body]
pub(crate) fn list_tar_entries(data: &[u8]) -> (r: Option<Vec<Vec<u8>>>)
    ensures
        r.is_some() == tar_entry_paths(data@).is_some(),
        r matches Some(v) ==> tar_entry_paths(data@) == Some(
            v@.map_values(|p: Vec<u8>| p@),
        ),
{
    let mut archive = tar::Archive::new(data);
    let entries = archive.entries().ok()?;
    entries.map(|e| e.map(|e| e.path_bytes().into_owned())).collect::<Result<Vec<_>, _>>().ok()
}

/// Relies on url's Url::parse of `base` and Url::join of `rel` onto it
/// (through reqwest::Url): the resolved URL as text, or an error where either
/// does not parse.
#[verifier::external_body]
pub(crate) fn join_url(base: &str, rel: &str) -> (r: Option<String>)
    ensures
        r.is_some() == url_joined(base@, rel@).is_some(),
        r matches Some(u) ==> url_joined(base@, rel@) == Some(u@),
{
    reqwest::Url::parse(base).and_then(|u| u.join(rel)).ok().map(|u| u.to_string())
}

} // verus!
