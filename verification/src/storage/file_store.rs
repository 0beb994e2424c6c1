//! Storage volumes.

use std::path::PathBuf;
use vstd::prelude::*;

verus! {

/// `std::path::PathBuf`, which is carried along and never looked into.
#[verifier::external_type_specification]
#[verifier::external_body]
pub struct ExPathBuf(PathBuf);

/// The storage backends that a volume can have.
#[derive(Debug, Clone, Copy, PartialEq, Eq, Structural)]
pub enum StorageVolumeType {
    Filesystem,
}

/// A place where stored files live.
pub struct StorageVolume {
    /// The name of the volume
    pub name: String,
    /// The storage backend used for this volume.
    pub volume_type: StorageVolumeType,
    /// Measured in bytes. This is how many bytes is allocated for files in
    /// this volume.
    pub allocation_size: u64,
    /// **For filesystem volume types only**
    ///
    /// The root filesystem path of the storage volume
    pub filesystem_path: PathBuf,
}

impl StorageVolume {
    /// A volume on the local filesystem.
    pub fn filesystem(name: String, allocation_size: u64, filesystem_path: PathBuf) -> (volume:
        Self)
        ensures
            volume.name == name,
            volume.volume_type == StorageVolumeType::Filesystem,
            volume.allocation_size == allocation_size,
            volume.filesystem_path == filesystem_path,
    {
        StorageVolume {
            name,
            volume_type: StorageVolumeType::Filesystem,
            allocation_size,
            filesystem_path,
        }
    }
}

} // verus!
