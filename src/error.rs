//! What can go wrong during an install, and at which stage.

use vstd::prelude::*;

verus! {

/// The kind of an install failure.
#[derive(Clone, Copy, Debug, PartialEq, Eq, Structural)]
pub enum ErrorKind {
    /// A URL could not be formed from the server URL and the package name.
    Url,
    /// A request could not be completed.
    Network,
    /// The metadata response was not a valid descriptor.
    Decode,
    /// The server knows no package of that name.
    NotFound,
    /// The downloaded bytes do not have the checksum the descriptor gives.
    ChecksumMismatch { expected: u32, actual: u32 },
    /// The archive is not a well-formed gzip stream.
    Decompression,
    /// An archive entry is unreadable, would land outside the install
    /// directory, or could not be written.
    Extraction,
    /// The descriptor asks for an install script the archive does not hold.
    MissingScript,
    /// The install script could not be made executable or run.
    Execution,
    /// The install script could not be removed after it ran.
    Cleanup,
    /// The descriptor contradicts itself or names an unusable path.
    MisconfiguredPackage,
    /// The link to the executable could not be created.
    Link,
}

/// The stage of the install at which a failure happened.
#[derive(Clone, Copy, Debug, PartialEq, Eq, Structural)]
pub enum Stage {
    GetPackageData,
    CheckPackageData,
    CreateDirectory,
    InstallFile,
    RunScript,
    RemoveScript,
    CreateLink,
}

/// A failed install: the stage that failed and the cause.
#[derive(Clone, Copy, Debug, PartialEq, Eq, Structural)]
pub struct InstallError {
    pub stage: Stage,
    pub kind: ErrorKind,
}

/// The human-readable label of each stage.
pub open spec fn stage_context(s: Stage) -> Seq<char> {
    match s {
        Stage::GetPackageData => "could not get package data from server"@,
        Stage::CheckPackageData => "package data is not usable"@,
        Stage::CreateDirectory => "could not create install directory for package"@,
        Stage::InstallFile => "could not install file"@,
        Stage::RunScript => "could not run install script for package"@,
        Stage::RemoveScript => "could not remove install script"@,
        Stage::CreateLink => "could not create symbolic link to package executable"@,
    }
}

impl Stage {
    /// The label that names this stage in a reported failure.
    pub fn context(&self) -> (r: &'static str)
        ensures
            r@ == stage_context(*self),
    {
        match self {
            Stage::GetPackageData => "could not get package data from server",
            Stage::CheckPackageData => "package data is not usable",
            Stage::CreateDirectory => "could not create install directory for package",
            Stage::InstallFile => "could not install file",
            Stage::RunScript => "could not run install script for package",
            Stage::RemoveScript => "could not remove install script",
            Stage::CreateLink => "could not create symbolic link to package executable",
        }
    }
}

} // verus!
