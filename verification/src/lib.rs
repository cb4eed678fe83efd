//! Construction of a raw, bootable disk image: a protective MBR at sector 0,
//! a GUID partition table describing one EFI System Partition, and a FAT
//! volume inside that partition holding the boot executable at the fixed
//! path `EFI/BOOT/BOOTX64.EFI`.
//!
//! Two policy bounds shape what the planner accepts, and violating either is
//! a configuration error reported before any byte is written: the boot
//! executable may be at most 64 MiB (`layout::MAX_EXECUTABLE_BYTES` — no
//! larger layout is reachable here), and the partition start alignment at
//! most 65536 sectors (`layout::MAX_ALIGNMENT_SECTORS`).

pub mod errors;
pub mod gpt_table;
pub mod layout;
pub mod mbr;
pub mod pipeline;
pub mod volume;
