//! What holds of every install, stated over the machine's steps.

use vstd::prelude::*;
use crate::archive::all_stay_inside;
use crate::error::{ErrorKind, InstallError, Stage};
use crate::install::{
    after_archive, after_done, after_metadata, after_script_check, descriptor_verdict, failed,
    install_dir, phase_for, script_path, started, Act, Config, Machine, Phase,
};
use crate::paths::{joined, plain_name, stays_inside};
use vstd::utf8::encode_utf8;
use crate::outside::{crc32_of, tar_entry_paths};
use crate::package::Descriptor;

verus! {

/// Only a checked archive is ever unpacked: the one step that asks for an
/// unpack is the answer to the archive's bytes, and then every entry of the
/// tar archive handed over stays inside the install directory. No other
/// step asks for an unpack.
pub proof fn unpacked_entries_stay_inside(
    m: Machine,
    data: Seq<u8>,
    fetched: Result<Option<Descriptor>, ErrorKind>,
    ok: bool,
    exists: bool,
)
    ensures
        after_archive(m, Ok(data)).1 matches Act::Unpack(dir, tar) ==> {
            &&& dir == m.dir
            &&& tar_entry_paths(tar) is Some
            &&& all_stay_inside(tar_entry_paths(tar)->Some_0)
        },
        !(after_metadata(m, fetched).1 is Unpack),
        !(after_done(m, ok).1 is Unpack),
        !(after_script_check(m, exists).1 is Unpack),
{
}

/// Every step leaves the machine waiting for the outcome of the action it
/// hands out, so reporting that outcome always meets the step's demand; the
/// install is over exactly when the action is a finish.
pub proof fn action_matches_phase(
    cfg: Config,
    name: Seq<char>,
    server: Seq<char>,
    m: Machine,
    fetched: Result<Option<Descriptor>, ErrorKind>,
    data: Result<Seq<u8>, ErrorKind>,
    ok: bool,
    exists: bool,
)
    ensures
        started(cfg, name, server).0.phase == phase_for(started(cfg, name, server).1),
        after_metadata(m, fetched).0.phase == phase_for(after_metadata(m, fetched).1),
        after_archive(m, data).0.phase == phase_for(after_archive(m, data).1),
        after_script_check(m, exists).0.phase == phase_for(after_script_check(m, exists).1),
        after_done(m, ok).0.phase == phase_for(after_done(m, ok).1),
{
}

/// An accepted descriptor has its files go into one directory entry of the
/// packages directory, named after the package, and a linked executable
/// stands inside that directory.
pub proof fn install_directory_under_root(m: Machine, d: Descriptor)
    requires
        descriptor_verdict(d) is Ok,
    ensures
        after_metadata(m, Ok(Some(d))).1 == Act::CreateDir(install_dir(m.root, d.pkgname)),
        plain_name(encode_utf8(d.pkgname)),
        after_metadata(m, Ok(Some(d))).0.link matches Some((target, _)) ==> {
            &&& d.executable_path is Some
            &&& target == joined(install_dir(m.root, d.pkgname), d.executable_path->Some_0)
            &&& stays_inside(encode_utf8(d.executable_path->Some_0))
        },
{
}

/// Bytes whose checksum differs from the descriptor's end the install with a
/// checksum mismatch, before anything is decompressed or unpacked.
pub proof fn checksum_mismatch_stops(m: Machine, data: Seq<u8>)
    requires
        crc32_of(data) != m.crc,
    ensures
        after_archive(m, Ok(data)) == failed(
            m,
            Stage::InstallFile,
            ErrorKind::ChecksumMismatch { expected: m.crc, actual: crc32_of(data) },
        ),
        after_archive(m, Ok(data)).0.phase == Phase::Finished,
{
}

/// A server that answers with no descriptor ends the install with
/// "not found", told apart from transport and decoding failures.
pub proof fn absent_descriptor_not_found(m: Machine)
    ensures
        after_metadata(m, Ok(None)).1 == Act::Finish(
            Err(InstallError { stage: Stage::GetPackageData, kind: ErrorKind::NotFound }),
        ),
{
}

/// A descriptor that asks to be linked but names no executable ends the
/// install as misconfigured, before the archive is requested.
pub proof fn link_without_executable_misconfigured(m: Machine, d: Descriptor)
    requires
        d.add_to_path,
        d.executable_path is None,
    ensures
        after_metadata(m, Ok(Some(d))).1 == Act::Finish(
            Err(
                InstallError {
                    stage: Stage::CheckPackageData,
                    kind: ErrorKind::MisconfiguredPackage,
                },
            ),
        ),
{
}

/// After an unpack, a package with an install script has the script looked
/// for; where it is missing the install ends with "missing script", and
/// nothing is asked that would remove the unpacked files.
pub proof fn missing_script_reported(m: Machine)
    ensures
        m.phase == Phase::AwaitUnpack && m.script ==> after_done(m, true).1 == Act::CheckScript(
            script_path(m.dir),
        ),
        after_script_check(m, false) == failed(m, Stage::RunScript, ErrorKind::MissingScript),
        after_script_check(m, false).1 is Finish,
{
}

/// A link that cannot be made, because one of that name is already there,
/// ends the install with a link failure: nothing is overwritten, and a
/// made link finishes the install.
pub proof fn existing_link_not_replaced(m: Machine)
    requires
        m.phase == Phase::AwaitLink,
    ensures
        after_done(m, false) == failed(m, Stage::CreateLink, ErrorKind::Link),
        after_done(m, true).1 == Act::Finish(Ok(())),
{
}

} // verus!
