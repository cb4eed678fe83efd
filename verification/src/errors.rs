use vstd::prelude::*;

verus! {

/// Everything that can stop a build. No stage recovers internally: the first
/// error aborts the whole pipeline and no partial image is handed out.
#[derive(Clone, Copy, Debug, PartialEq, Eq, Structural)]
pub enum BuildError {
    /// The requested partition alignment cannot clear the GPT metadata, or is
    /// unreasonably large.
    InvalidAlignment,
    /// The boot executable is larger than any layout this builder produces.
    ExecutableTooLarge,
    /// The image buffer cannot hold even a single sector.
    ImageTooSmall,
    /// The buffer holds a whole sector but the `0x55AA` boot signature is
    /// absent from its end.
    MissingBootSignature,
    /// The partition start handed to the table builder does not satisfy the
    /// alignment the plan promised.
    MisalignedStart,
    /// The planned partition would overlap the partition table's own sectors
    /// at the front or the tail of the disk, or is not whole sectors.
    PartitionOutOfRange,
    /// Committing the partition table failed.
    GptWriteFailed,
    /// Reading a partition table back failed.
    GptReadFailed,
    /// The cluster size is not a power of two between one sector and 64 KiB,
    /// or does not evenly divide the partition.
    InvalidClusterSize,
    /// Formatting the partition as a FAT volume failed.
    VolumeFormatFailed,
    /// The bytes in the partition's range do not carry a boot sector this
    /// builder is willing to mount.
    VolumeUnmountable,
    /// The volume has too little room for the boot executable.
    VolumeCapacity,
    /// Reading a file back out of the volume failed.
    VolumeReadFailed,
}

/// The description `describe` owes for each failure.
pub open spec fn spec_describe(e: BuildError) -> Seq<char> {
    match e {
        BuildError::InvalidAlignment => "partition alignment cannot hold the GPT metadata"@,
        BuildError::ExecutableTooLarge => "boot executable exceeds the largest supported layout"@,
        BuildError::ImageTooSmall => "image is smaller than one sector"@,
        BuildError::MissingBootSignature => "boot signature 0x55AA is absent"@,
        BuildError::MisalignedStart => "partition start violates the planned alignment"@,
        BuildError::PartitionOutOfRange => "partition would overlap the partition table"@,
        BuildError::GptWriteFailed => "failed to commit the GUID partition table"@,
        BuildError::GptReadFailed => "failed to parse the GUID partition table"@,
        BuildError::InvalidClusterSize => "cluster size is unusable for this partition"@,
        BuildError::VolumeFormatFailed => "failed to format the partition as a FAT volume"@,
        BuildError::VolumeUnmountable => "partition bytes are not a mountable FAT volume"@,
        BuildError::VolumeCapacity => "not enough room in the volume for the boot executable"@,
        BuildError::VolumeReadFailed => "failed to read the embedded file back"@,
    }
}

impl BuildError {
    /// A short human-readable description naming the violated constraint.
    pub fn describe(&self) -> (r: &'static str)
        ensures
            r@ == spec_describe(*self),
    {
        match self {
            BuildError::InvalidAlignment => "partition alignment cannot hold the GPT metadata",
            BuildError::ExecutableTooLarge => "boot executable exceeds the largest supported layout",
            BuildError::ImageTooSmall => "image is smaller than one sector",
            BuildError::MissingBootSignature => "boot signature 0x55AA is absent",
            BuildError::MisalignedStart => "partition start violates the planned alignment",
            BuildError::PartitionOutOfRange => "partition would overlap the partition table",
            BuildError::GptWriteFailed => "failed to commit the GUID partition table",
            BuildError::GptReadFailed => "failed to parse the GUID partition table",
            BuildError::InvalidClusterSize => "cluster size is unusable for this partition",
            BuildError::VolumeFormatFailed => "failed to format the partition as a FAT volume",
            BuildError::VolumeUnmountable => "partition bytes are not a mountable FAT volume",
            BuildError::VolumeCapacity => "not enough room in the volume for the boot executable",
            BuildError::VolumeReadFailed => "failed to read the embedded file back",
        }
    }
}

/// `std::io::Error` is what the partitioning and filesystem crates report;
/// this declaration lets it cross the trusted wrappers' signatures. Verified
/// code never looks inside it: every wrapper failure is mapped to a
/// `BuildError` variant of the stage that failed.
#[verifier::external_type_specification]
#[verifier::external_body]
pub struct ExIoError(std::io::Error);

} // verus!
