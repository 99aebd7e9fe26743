//! A package-installation client: the decisions of the install pipeline
//! (where files go, what is checked before anything touches the disk, which
//! step follows which) as verified code, with the network, the filesystem and
//! child processes left to the caller.

pub mod paths;
pub mod outside;
pub mod package;
pub mod error;
pub mod archive;
pub mod install;
pub mod guarantees;
pub mod registry;
