use vstd::prelude::*;

use crate::errors::BuildError;

verus! {

/// Size of one logical sector in bytes. The whole builder works on
/// 512-byte sectors.
pub const SECTOR_SIZE: u64 = 512;

/// Sectors the GPT metadata occupies in front of the first usable sector:
/// the protective MBR, the primary header, and 32 sectors of entries.
pub const GPT_METADATA_SECTORS: u64 = 34;

/// Smallest partition the planner lays out, in sectors (128 KiB).
pub const MIN_PARTITION_SECTORS: u64 = 256;

/// Extra sectors reserved inside the partition so the filesystem's own
/// bookkeeping (reserved sectors, allocation tables, root directory) never
/// eats into the room promised to the boot executable: a thirty-second of
/// the payload plus 32 KiB.
pub const FS_OVERHEAD_BASE_SECTORS: u64 = 64;

/// Partition sizes are rounded up to whole multiples of this (128 KiB).
pub const PARTITION_GRANULE_SECTORS: u64 = 256;

/// Sectors kept free after the partition for the backup GPT entry array and
/// header (128 KiB, far more than the 33 sectors the table needs).
pub const TRAILING_RESERVE_SECTORS: u64 = 256;

/// Largest partition start alignment the planner accepts, in sectors
/// (32 MiB of leading gap). A larger gap serves no layout this builder
/// produces, and the bound keeps every offset computation in range; asking
/// for more is a configuration error, reported before any byte is written.
pub const MAX_ALIGNMENT_SECTORS: u64 = 65536;

/// Largest boot executable the planner accepts, in bytes (64 MiB). Anything
/// bigger has no reachable layout here and is rejected as a capacity error
/// before any byte is written.
pub const MAX_EXECUTABLE_BYTES: u64 = 64 * 1024 * 1024;

/// Every image this planner describes stays under this many bytes.
pub const MAX_IMAGE_BYTES: u64 = 128 * 1024 * 1024;

/// The disk as a whole: its length in sectors. The backing buffer always has
/// exactly `total_sectors * SECTOR_SIZE` bytes.
#[derive(Clone, Copy, Debug, PartialEq, Eq, Structural)]
pub struct SectorGeometry {
    /// Number of 512-byte sectors in the image.
    pub total_sectors: u64,
}

/// Where the single EFI System Partition lives, in bytes of the image.
#[derive(Clone, Copy, Debug, PartialEq, Eq, Structural)]
pub struct PartitionPlan {
    /// First byte of the partition; always `alignment_sectors * SECTOR_SIZE`.
    pub start_offset: u64,
    /// Length of the partition in bytes; a whole number of sectors.
    pub size_bytes: u64,
    /// The alignment, in sectors, the caller asked for.
    pub alignment_sectors: u64,
}

/// A fully resolved layout: geometry plus partition placement, with no free
/// parameters left for the later stages.
#[derive(Clone, Copy, Debug, PartialEq, Eq, Structural)]
pub struct ImageLayout {
    /// The whole-disk geometry.
    pub geometry: SectorGeometry,
    /// The single partition's placement.
    pub plan: PartitionPlan,
}

impl PartitionPlan {
    /// First logical block of the partition.
    pub open spec fn first_lba(self) -> int {
        self.start_offset as int / SECTOR_SIZE as int
    }

    /// Length of the partition in sectors.
    pub open spec fn sectors(self) -> int {
        self.size_bytes as int / SECTOR_SIZE as int
    }

    /// Last logical block of the partition (inclusive).
    pub open spec fn last_lba(self) -> int {
        self.first_lba() + self.sectors() - 1
    }

    /// First byte past the partition.
    pub open spec fn end_offset(self) -> int {
        self.start_offset + self.size_bytes
    }
}

impl ImageLayout {
    /// Length of the whole image in bytes.
    pub open spec fn total_bytes(self) -> int {
        self.geometry.total_sectors * SECTOR_SIZE
    }

    /// Well-formedness of a resolved layout: the partition is aligned, whole
    /// sectors, no smaller than the policy minimum, clears the GPT metadata
    /// in front, and leaves the trailing reserve behind it.
    pub open spec fn wf(self) -> bool {
        &&& GPT_METADATA_SECTORS <= self.plan.alignment_sectors
        &&& self.plan.alignment_sectors <= MAX_ALIGNMENT_SECTORS
        &&& self.plan.start_offset == self.plan.alignment_sectors * SECTOR_SIZE
        &&& self.plan.size_bytes % SECTOR_SIZE == 0
        &&& MIN_PARTITION_SECTORS * SECTOR_SIZE <= self.plan.size_bytes
        &&& self.plan.end_offset() + TRAILING_RESERVE_SECTORS * SECTOR_SIZE
            == self.total_bytes()
        &&& self.total_bytes() <= MAX_IMAGE_BYTES
    }
}

/// The partition's hard lower bound in bytes: the larger of the executable
/// and the policy minimum. The planner then adds the filesystem-overhead
/// reserve on top of this floor, so that the minimum-size invariant holds
/// and the executable still fits once the volume's own bookkeeping is paid.
pub open spec fn spec_partition_floor(exec: u64) -> int {
    if exec >= MIN_PARTITION_SECTORS * SECTOR_SIZE {
        exec as int
    } else {
        (MIN_PARTITION_SECTORS * SECTOR_SIZE) as int
    }
}

/// How many sectors the partition gets for a boot executable of `exec` bytes:
/// the payload rounded up to sectors, at least the policy minimum, plus the
/// filesystem-overhead reserve, rounded up to a whole 128 KiB granule.
pub open spec fn spec_partition_sectors(exec: u64) -> int {
    let exec_sectors = (exec + SECTOR_SIZE - 1) as int / SECTOR_SIZE as int;
    let base = if exec_sectors > MIN_PARTITION_SECTORS {
        exec_sectors
    } else {
        MIN_PARTITION_SECTORS as int
    };
    let padded = base + base / 32 + FS_OVERHEAD_BASE_SECTORS;
    ((padded + PARTITION_GRANULE_SECTORS - 1) / PARTITION_GRANULE_SECTORS as int)
        * PARTITION_GRANULE_SECTORS as int
}

/// Total image length in sectors: alignment gap, partition, trailing reserve.
pub open spec fn spec_total_sectors(exec: u64, align: u64) -> int {
    align + spec_partition_sectors(exec) + TRAILING_RESERVE_SECTORS
}

/// Exactly what `plan_layout` promises of a layout it returns for the inputs
/// `exec` (executable length in bytes) and `align` (alignment in sectors).
pub open spec fn plan_post(exec: u64, align: u64, layout: ImageLayout) -> bool {
    &&& GPT_METADATA_SECTORS <= align <= MAX_ALIGNMENT_SECTORS
    &&& exec <= MAX_EXECUTABLE_BYTES
    &&& layout.plan.alignment_sectors == align
    &&& layout.plan.start_offset == align * SECTOR_SIZE
    &&& layout.plan.size_bytes == spec_partition_sectors(exec) * SECTOR_SIZE
    &&& layout.geometry.total_sectors == spec_total_sectors(exec, align)
    &&& spec_partition_floor(exec) <= layout.plan.size_bytes
    &&& exec <= layout.plan.size_bytes
    &&& layout.wf()
}

/// The one layout the planner resolves for each accepted input pair.
pub open spec fn spec_planned_layout(exec: u64, align: u64) -> ImageLayout {
    ImageLayout {
        geometry: SectorGeometry { total_sectors: spec_total_sectors(exec, align) as u64 },
        plan: PartitionPlan {
            start_offset: (align * SECTOR_SIZE) as u64,
            size_bytes: (spec_partition_sectors(exec) * SECTOR_SIZE) as u64,
            alignment_sectors: align,
        },
    }
}

/// The Layout Planner: from the executable's byte length and the requested
/// partition start alignment to a fully resolved layout.
///
/// The partition is never smaller than the larger of the executable and the
/// policy minimum; on top of that floor the planner reserves room for the
/// volume's own bookkeeping and rounds up to whole 128 KiB granules, so that
/// the executable provably fits in the formatted volume, not just in the raw
/// range. An alignment below the sectors GPT metadata needs would let the
/// partition overlap the table, so it is rejected outright rather than
/// rounded; an executable beyond the largest supported layout is a capacity
/// error, reported before any byte is written.
pub fn plan_layout(executable_bytes: u64, alignment_sectors: u64) -> (r: Result<
    ImageLayout,
    BuildError,
>)
    ensures
        (alignment_sectors < GPT_METADATA_SECTORS || alignment_sectors > MAX_ALIGNMENT_SECTORS)
            <==> r == Err::<ImageLayout, BuildError>(BuildError::InvalidAlignment),
        (GPT_METADATA_SECTORS <= alignment_sectors <= MAX_ALIGNMENT_SECTORS
            && executable_bytes > MAX_EXECUTABLE_BYTES) <==> r == Err::<
            ImageLayout,
            BuildError,
        >(BuildError::ExecutableTooLarge),
        r is Ok ==> plan_post(executable_bytes, alignment_sectors, r->Ok_0),
        r is Ok ==> r->Ok_0 == spec_planned_layout(executable_bytes, alignment_sectors),
        (GPT_METADATA_SECTORS <= alignment_sectors <= MAX_ALIGNMENT_SECTORS && executable_bytes
            <= MAX_EXECUTABLE_BYTES) ==> r is Ok,
{
    if alignment_sectors < GPT_METADATA_SECTORS || alignment_sectors > MAX_ALIGNMENT_SECTORS {
        return Err(BuildError::InvalidAlignment);
    }
    if executable_bytes > MAX_EXECUTABLE_BYTES {
        return Err(BuildError::ExecutableTooLarge);
    }
    let exec_sectors = (executable_bytes + (SECTOR_SIZE - 1)) / SECTOR_SIZE;
    let base = if exec_sectors > MIN_PARTITION_SECTORS {
        exec_sectors
    } else {
        MIN_PARTITION_SECTORS
    };
    let padded = base + base / 32 + FS_OVERHEAD_BASE_SECTORS;
    let part_sectors = ((padded + (PARTITION_GRANULE_SECTORS - 1)) / PARTITION_GRANULE_SECTORS)
        * PARTITION_GRANULE_SECTORS;
    let total_sectors = alignment_sectors + part_sectors + TRAILING_RESERVE_SECTORS;
    let layout = ImageLayout {
        geometry: SectorGeometry { total_sectors },
        plan: PartitionPlan {
            start_offset: alignment_sectors * SECTOR_SIZE,
            size_bytes: part_sectors * SECTOR_SIZE,
            alignment_sectors,
        },
    };
    proof {
        lemma_partition_holds_executable(executable_bytes);
    }
    Ok(layout)
}

/// The partition never shrinks below the executable: rounding up to sectors,
/// the minimum, and the overhead reserve only add room.
proof fn lemma_partition_holds_executable(exec: u64)
    requires
        exec <= MAX_EXECUTABLE_BYTES,
    ensures
        exec <= spec_partition_sectors(exec) * SECTOR_SIZE,
        spec_partition_sectors(exec) * SECTOR_SIZE % SECTOR_SIZE as int == 0,
        MIN_PARTITION_SECTORS * SECTOR_SIZE <= spec_partition_sectors(exec) * SECTOR_SIZE,
        spec_partition_sectors(exec) <= 140000,
{
    let exec_sectors = (exec + SECTOR_SIZE - 1) as int / SECTOR_SIZE as int;
    vstd::arithmetic::div_mod::lemma_fundamental_div_mod(
        (exec + SECTOR_SIZE - 1) as int,
        SECTOR_SIZE as int,
    );
    vstd::arithmetic::div_mod::lemma_mod_bound((exec + SECTOR_SIZE - 1) as int, SECTOR_SIZE as int);
    assert(exec <= exec_sectors * 512 && exec_sectors <= 131073);
    let base = if exec_sectors > MIN_PARTITION_SECTORS {
        exec_sectors
    } else {
        MIN_PARTITION_SECTORS as int
    };
    let padded = base + base / 32 + FS_OVERHEAD_BASE_SECTORS;
    vstd::arithmetic::div_mod::lemma_fundamental_div_mod(base, 32);
    vstd::arithmetic::div_mod::lemma_mod_bound(base, 32);
    let granules = (padded + PARTITION_GRANULE_SECTORS - 1) / PARTITION_GRANULE_SECTORS as int;
    vstd::arithmetic::div_mod::lemma_fundamental_div_mod(
        padded + PARTITION_GRANULE_SECTORS - 1,
        PARTITION_GRANULE_SECTORS as int,
    );
    vstd::arithmetic::div_mod::lemma_mod_bound(
        padded + PARTITION_GRANULE_SECTORS - 1,
        PARTITION_GRANULE_SECTORS as int,
    );
    assert(base <= granules * 256 && granules <= 540 && 256 <= granules * 256);
    assert(spec_partition_sectors(exec) == granules * 256);
    assert(granules * 256 * 512 % 512 == (granules * 256) * 512 % 512) by (nonlinear_arith);
    assert((granules * 256) * 512 % 512 == 0) by (nonlinear_arith);
}

/// The planner's placement law: for every accepted input pair, the partition
/// start is a whole multiple of `alignment * SECTOR_SIZE`, and the image is
/// long enough to hold the partition where the plan put it.
pub proof fn lemma_plan_start_aligned(exec: u64, align: u64, layout: ImageLayout)
    ensures
        plan_post(exec, align, layout) ==> {
            &&& layout.plan.start_offset as int % (align * SECTOR_SIZE) == 0
            &&& layout.plan.start_offset + layout.plan.size_bytes <= layout.geometry.total_sectors
                * SECTOR_SIZE
        },
{
    if plan_post(exec, align, layout) {
        assert(layout.plan.start_offset as int % (align * SECTOR_SIZE) == 0) by (nonlinear_arith)
            requires
                layout.plan.start_offset == align * SECTOR_SIZE,
                GPT_METADATA_SECTORS <= align,
        ;
    }
}

} // verus!
