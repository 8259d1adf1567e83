//! The storage of asset files (skins and capes): where files are kept.

use vstd::prelude::*;

verus! {

/// Where asset files are stored, with the settings of that storage.
pub enum StorageConfiguration {
    Local(LocalStorageConfiguration),
    S3(S3StorageConfiguration),
}

/// The kind of storage a file was stored in.
#[derive(Clone, Copy, PartialEq, Eq, Debug)]
pub enum StorageType {
    Local,
    S3,
}

/// Files kept in a local directory.
pub struct LocalStorageConfiguration {
    /// Root directory to store the files in (typically `data/assets`).
    pub path: String,
}

/// Files kept in an S3 bucket (no settings yet).
pub struct S3StorageConfiguration {}

} // verus!
