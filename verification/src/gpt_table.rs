use vstd::prelude::*;

use std::collections::BTreeMap;
use std::io::Cursor;
use std::io::Read;
use std::io::Seek;
use std::io::SeekFrom;

use gpt::GptConfig;
use gpt::disk::LogicalBlockSize;
use gpt::partition::Partition;
use gpt::partition_types;
use uuid::Uuid;

use crate::errors::BuildError;
use crate::layout::GPT_METADATA_SECTORS;
use crate::layout::MAX_ALIGNMENT_SECTORS;
use crate::layout::PartitionPlan;
use crate::layout::SECTOR_SIZE;

verus! {

/// Disk GUID every image gets. The table builder fixes both GUIDs instead of
/// drawing random ones so that identical inputs give byte-identical images.
pub const DISK_GUID: u128 = 0x8d21_3a9a_0f1b_4ea5_93c5_2f2f_6ab1_40c6;

/// Partition GUID of the single EFI System Partition entry.
pub const PART_GUID: u128 = 0x5a18_7e22_6c40_41b7_8f4d_9e0a_3d58_2bd1;

/// The name carried by the single partition entry.
pub open spec fn spec_partition_name() -> Seq<char> {
    "EFI Partition"@
}

/// The name carried by the single partition entry.
pub fn partition_name() -> (r: &'static str)
    ensures
        r@ == spec_partition_name(),
{
    "EFI Partition"
}

/// One partition entry as read back from a GUID partition table, reduced to
/// what the builder promises about it.
#[derive(Clone, Copy, Debug, PartialEq, Eq, Structural)]
pub struct GptEntry {
    /// First logical block of the partition.
    pub first_lba: u64,
    /// Last logical block of the partition (inclusive).
    pub last_lba: u64,
    /// Whether the entry's type GUID is the EFI System Partition type.
    pub efi: bool,
}

/// The bytes of the image after the partition table for one entry spanning
/// `first_lba..=last_lba` has been committed onto `img`: primary header at
/// sector 1, entries at sectors 2 to 33, backup entries and header in the
/// last 33 sectors, checksums filled in. Stating those checksummed bytes
/// would mean writing out a CRC; the committing wrapper names the result
/// instead, and everything downstream speaks of the name.
pub uninterp spec fn gpt_commit_bytes(
    img: Seq<u8>,
    first_lba: int,
    last_lba: int,
    disk_guid: u128,
    part_guid: u128,
    name: Seq<char>,
) -> Seq<u8>;

/// Whether committing a table with these arguments succeeds. The commit is a
/// deterministic function of its arguments, so success is one too: the
/// committing wrapper returns the new image exactly when this holds, and the
/// parsing wrapper's round-trip promise is limited to such images.
pub uninterp spec fn gpt_commit_ok(
    img: Seq<u8>,
    first_lba: int,
    last_lba: int,
    disk_guid: u128,
    part_guid: u128,
    name: Seq<char>,
) -> bool;

/// The geometry under which the table builder can place an entry: a whole
/// number of sectors, room for the metadata in front (sector 0 for the MBR,
/// sector 1 for the header, 32 sectors of entries) and for its mirror at the
/// tail.
pub open spec fn gpt_fits(len: int, first_lba: int, last_lba: int) -> bool {
    &&& len % (SECTOR_SIZE as int) == 0
    &&& GPT_METADATA_SECTORS * SECTOR_SIZE <= len
    &&& GPT_METADATA_SECTORS <= first_lba
    &&& first_lba <= last_lba
    &&& (last_lba + GPT_METADATA_SECTORS) * SECTOR_SIZE <= len
}

/// Two images of equal length that agree everywhere outside `lo..hi`.
pub open spec fn agrees_outside(a: Seq<u8>, b: Seq<u8>, lo: int, hi: int) -> bool {
    &&& a.len() == b.len()
    &&& forall|i: int| 0 <= i < a.len() && !(lo <= i < hi) ==> a[i] == b[i]
}

/// `img` carries the GPT metadata of a successful commit of `(b, f, l, dg,
/// pg, nm)`: it may differ from the committed image inside the partition's
/// own sectors (a filesystem lives there), but nowhere else.
pub open spec fn gpt_round_trip_src(
    img: Seq<u8>,
    b: Seq<u8>,
    f: int,
    l: int,
    dg: u128,
    pg: u128,
    nm: Seq<char>,
) -> bool {
    &&& gpt_fits(b.len() as int, f, l)
    &&& gpt_commit_ok(b, f, l, dg, pg, nm)
    &&& agrees_outside(img, gpt_commit_bytes(b, f, l, dg, pg, nm), f * SECTOR_SIZE, (l + 1)
        * SECTOR_SIZE)
}

/// Relies on `gpt::GptConfig::create_from_device` (fresh table, the given
/// disk GUID), `GptDisk::update_partitions` (headers computed from a blank
/// original: 128 entries of 128 bytes, first usable sector 34, last usable 34
/// from the end) and `GptDisk::write` (entries at sector 2 and mirrored at
/// the tail, both headers checksummed and written at sector 1 and the last
/// sector). All writes land in sectors 1..34 and the last 33 sectors, so
/// sector 0 and the entry's own sectors come through unchanged; everything
/// written is a function of the arguments alone.
#[verifier::external_body]
fn gpt_commit_raw(
    img: Vec<u8>,
    first_lba: u64,
    last_lba: u64,
    disk_guid: u128,
    part_guid: u128,
    name: &str,
) -> (r: Result<Vec<u8>, std::io::Error>)
    requires
        gpt_fits(img@.len() as int, first_lba as int, last_lba as int),
    ensures
        r is Ok <==> gpt_commit_ok(
            img@,
            first_lba as int,
            last_lba as int,
            disk_guid,
            part_guid,
            name@,
        ),
        r matches Ok(v) ==> {
            &&& v@ == gpt_commit_bytes(
                img@,
                first_lba as int,
                last_lba as int,
                disk_guid,
                part_guid,
                name@,
            )
            &&& v@.len() == img@.len()
            &&& v@.subrange(0, 512) == img@.subrange(0, 512)
            &&& v@.subrange(first_lba as int * SECTOR_SIZE, (last_lba as int + 1) * SECTOR_SIZE)
                == img@.subrange(first_lba as int * SECTOR_SIZE, (last_lba as int + 1) * SECTOR_SIZE)
        },
{
    let n = img.len();
    let cfg = GptConfig::new().writable(true).initialized(false).logical_block_size(LogicalBlockSize::Lb512);
    let mut disk = cfg.create_from_device(Box::new(Cursor::new(img)), Some(Uuid::from_u128(disk_guid)))?;
    let mut parts = BTreeMap::new();
    parts.insert(1u32, Partition { part_type_guid: partition_types::EFI, part_guid: Uuid::from_u128(part_guid), first_lba, last_lba, flags: 0, name: name.to_string() });
    disk.update_partitions(parts)?;
    let mut dev = disk.write()?;
    dev.seek(SeekFrom::Start(0))?;
    let mut out = vec![0u8; n];
    dev.read_exact(&mut out)?;
    Ok(out)
}

/// Relies on `gpt::GptConfig::open_from_device` and `GptDisk::partitions`:
/// opening validates both header checksums and the entry-array checksum
/// against the bytes and collects the used entries. On an image whose
/// metadata sectors are exactly those of a successful commit, the headers and
/// entries are the committed ones, so parsing succeeds and yields that one
/// entry; the `efi` flag reports whether the entry's type GUID is the EFI
/// System Partition type.
#[verifier::external_body]
fn gpt_read_raw(img: &Vec<u8>) -> (r: Result<Vec<GptEntry>, std::io::Error>)
    ensures
        forall|b: Seq<u8>, f: int, l: int, dg: u128, pg: u128, nm: Seq<char>|
            gpt_round_trip_src(img@, b, f, l, dg, pg, nm) ==> (r is Ok && r->Ok_0@ == seq![
                GptEntry { first_lba: f as u64, last_lba: l as u64, efi: true },
            ]),
{
    let cfg = GptConfig::new().writable(false).initialized(true).logical_block_size(LogicalBlockSize::Lb512);
    let disk = cfg.open_from_device(Box::new(Cursor::new(img.clone())))?;
    let mut out = Vec::new();
    for (_id, p) in disk.partitions().iter() {
        out.push(GptEntry { first_lba: p.first_lba, last_lba: p.last_lba, efi: p.part_type_guid == partition_types::EFI });
    }
    Ok(out)
}

/// What `read_gpt_entries` promises: whenever the image carries the intact
/// metadata of some successful commit, the read succeeds and returns exactly
/// the committed entry.
pub open spec fn gpt_entries_post(img: Seq<u8>, r: Result<Vec<GptEntry>, BuildError>) -> bool {
    forall|b: Seq<u8>, f: int, l: int, dg: u128, pg: u128, nm: Seq<char>|
        gpt_round_trip_src(img, b, f, l, dg, pg, nm) ==> (r is Ok && r->Ok_0@ == seq![
            GptEntry { first_lba: f as u64, last_lba: l as u64, efi: true },
        ])
}

/// Parses the GUID partition table of `img` (validating its checksums) and
/// returns the used entries.
pub fn read_gpt_entries(img: &Vec<u8>) -> (r: Result<Vec<GptEntry>, BuildError>)
    ensures
        gpt_entries_post(img@, r),
        r is Err ==> r == Err::<Vec<GptEntry>, BuildError>(BuildError::GptReadFailed),
{
    match gpt_read_raw(img) {
        Ok(es) => Ok(es),
        Err(_) => Err(BuildError::GptReadFailed),
    }
}

/// The plan's start satisfies its own alignment demand.
pub open spec fn plan_alignment_ok(plan: PartitionPlan) -> bool {
    &&& 0 < plan.alignment_sectors <= MAX_ALIGNMENT_SECTORS
    &&& plan.start_offset as int % (plan.alignment_sectors * SECTOR_SIZE) == 0
}

/// The plan's partition is whole sectors and sits clear of the table's own
/// sectors at both ends of an image of `len` bytes.
pub open spec fn gpt_plan_ok(len: int, plan: PartitionPlan) -> bool {
    &&& len % (SECTOR_SIZE as int) == 0
    &&& GPT_METADATA_SECTORS * SECTOR_SIZE <= len
    &&& plan.start_offset % SECTOR_SIZE == 0
    &&& plan.size_bytes != 0
    &&& plan.size_bytes % SECTOR_SIZE == 0
    &&& GPT_METADATA_SECTORS <= plan.first_lba()
    &&& plan.last_lba() <= len / (SECTOR_SIZE as int) - GPT_METADATA_SECTORS
}

/// The GPT Table Builder: commits onto `img` a fresh table whose single
/// entry is the planned EFI System Partition. The plan's placement is
/// checked, never rounded: a start that does not meet the plan's own
/// alignment is rejected, as is a partition that would overlap the table's
/// sectors at either end of the disk.
pub fn commit_gpt(img: Vec<u8>, plan: &PartitionPlan) -> (r: Result<Vec<u8>, BuildError>)
    ensures
        (plan_alignment_ok(*plan) && gpt_plan_ok(img@.len() as int, *plan)) ==> (r is Ok
            <==> gpt_commit_ok(
            img@,
            plan.first_lba(),
            plan.last_lba(),
            DISK_GUID,
            PART_GUID,
            spec_partition_name(),
        )),
        r matches Ok(v) ==> {
            &&& gpt_fits(img@.len() as int, plan.first_lba(), plan.last_lba())
            &&& plan.start_offset as int % (plan.alignment_sectors * SECTOR_SIZE) == 0
            &&& v@ == gpt_commit_bytes(
                img@,
                plan.first_lba(),
                plan.last_lba(),
                DISK_GUID,
                PART_GUID,
                spec_partition_name(),
            )
            &&& gpt_commit_ok(
                img@,
                plan.first_lba(),
                plan.last_lba(),
                DISK_GUID,
                PART_GUID,
                spec_partition_name(),
            )
            &&& v@.len() == img@.len()
            &&& v@.subrange(0, 512) == img@.subrange(0, 512)
            &&& v@.subrange(plan.first_lba() * SECTOR_SIZE, (plan.last_lba() + 1) * SECTOR_SIZE)
                == img@.subrange(
                plan.first_lba() * SECTOR_SIZE,
                (plan.last_lba() + 1) * SECTOR_SIZE,
            )
        },
        !plan_alignment_ok(*plan) <==> r == Err::<Vec<u8>, BuildError>(BuildError::MisalignedStart),
        (plan_alignment_ok(*plan) && !gpt_plan_ok(img@.len() as int, *plan)) <==> r == Err::<
            Vec<u8>,
            BuildError,
        >(BuildError::PartitionOutOfRange),
        r is Err ==> (r == Err::<Vec<u8>, BuildError>(BuildError::MisalignedStart) || r == Err::<
            Vec<u8>,
            BuildError,
        >(BuildError::PartitionOutOfRange) || r == Err::<Vec<u8>, BuildError>(
            BuildError::GptWriteFailed,
        )),
{
    if plan.alignment_sectors == 0 || plan.alignment_sectors > MAX_ALIGNMENT_SECTORS {
        return Err(BuildError::MisalignedStart);
    }
    if plan.start_offset % (plan.alignment_sectors * SECTOR_SIZE) != 0 {
        return Err(BuildError::MisalignedStart);
    }
    let len = img.len();
    let sector = SECTOR_SIZE as usize;
    if len % sector != 0 || len / sector < GPT_METADATA_SECTORS as usize {
        return Err(BuildError::PartitionOutOfRange);
    }
    let total_sectors: u64 = (len / sector) as u64;
    if plan.start_offset % SECTOR_SIZE != 0 || plan.size_bytes == 0 || plan.size_bytes % SECTOR_SIZE
        != 0 {
        return Err(BuildError::PartitionOutOfRange);
    }
    let first_lba = plan.start_offset / SECTOR_SIZE;
    let sectors = plan.size_bytes / SECTOR_SIZE;
    let last_lba = first_lba + (sectors - 1);
    if first_lba < GPT_METADATA_SECTORS || last_lba > total_sectors - GPT_METADATA_SECTORS {
        return Err(BuildError::PartitionOutOfRange);
    }
    proof {
        vstd::arithmetic::div_mod::lemma_fundamental_div_mod(len as int, SECTOR_SIZE as int);
        vstd::arithmetic::div_mod::lemma_fundamental_div_mod(
            plan.start_offset as int,
            SECTOR_SIZE as int,
        );
        vstd::arithmetic::div_mod::lemma_fundamental_div_mod(
            plan.size_bytes as int,
            SECTOR_SIZE as int,
        );
    }
    match gpt_commit_raw(img, first_lba, last_lba, DISK_GUID, PART_GUID, partition_name()) {
        Ok(v) => Ok(v),
        Err(_) => Err(BuildError::GptWriteFailed),
    }
}

} // verus!
