//! The package descriptor that the metadata server hands out.

use vstd::prelude::*;

verus! {

/// Represents a package, and contains all the metadata associated with it.
#[derive(Clone, Debug, PartialEq, Eq, Default)]
pub struct Package {
    /// The package's name, ie "gcc". This is the primary key.
    pub pkgname: String,
    /// The game/app's full name/title.
    pub fullname: String,
    /// A short description of the package.
    pub description: Option<String>,
    /// A URL pointing to an image for the package.
    pub image_url: Option<String>,
    /// The relative path of the executable within the tarball.
    pub executable_path: Option<String>,
    /// The CRC-32 of the compressed archive.
    pub crc: u32,
    /// Does the package have an install script that needs running?
    pub has_installer: bool,
    /// Does the package want to be added to path on the machine it was installed on?
    pub add_to_path: bool,
}

/// The mathematical value of a [`Package`].
pub struct Descriptor {
    pub pkgname: Seq<char>,
    pub fullname: Seq<char>,
    pub description: Option<Seq<char>>,
    pub image_url: Option<Seq<char>>,
    pub executable_path: Option<Seq<char>>,
    pub crc: u32,
    pub has_installer: bool,
    pub add_to_path: bool,
}

/// The text of an optional string.
pub open spec fn opt_view(s: Option<String>) -> Option<Seq<char>> {
    match s {
        Some(t) => Some(t@),
        None => None,
    }
}

impl View for Package {
    type V = Descriptor;

    open spec fn view(&self) -> Descriptor {
        Descriptor {
            pkgname: self.pkgname@,
            fullname: self.fullname@,
            description: opt_view(self.description),
            image_url: opt_view(self.image_url),
            executable_path: opt_view(self.executable_path),
            crc: self.crc,
            has_installer: self.has_installer,
            add_to_path: self.add_to_path,
        }
    }
}

} // verus!
