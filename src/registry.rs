//! The packager's rule for registering a package: a name and version may be
//! added only where the database holds no package with both.

use vstd::prelude::*;

verus! {

/// What a lookup of a name and version in the package database found.
#[derive(Clone, Copy, Debug, PartialEq, Eq, Structural)]
pub enum Lookup {
    /// The query could not be made.
    Failed,
    /// No package has that name and version.
    Absent,
    /// A package with that name and version is already there.
    Present,
}

/// Why a package cannot be registered.
#[derive(Clone, Copy, Debug, PartialEq, Eq, Structural)]
pub enum RegistryError {
    /// The database could not be queried.
    Database,
    /// A package with that name and version already exists.
    AlreadyExists,
}

/// The verdict on registering a package, given what the lookup found.
pub open spec fn registration_verdict(l: Lookup) -> Result<(), RegistryError> {
    match l {
        Lookup::Absent => Ok(()),
        Lookup::Failed => Err(RegistryError::Database),
        Lookup::Present => Err(RegistryError::AlreadyExists),
    }
}

/// Decides whether a name and version may be registered.
pub fn check_registration(l: Lookup) -> (r: Result<(), RegistryError>)
    ensures
        r == registration_verdict(l),
{
    match l {
        Lookup::Absent => Ok(()),
        Lookup::Failed => Err(RegistryError::Database),
        Lookup::Present => Err(RegistryError::AlreadyExists),
    }
}

} // verus!
