use vstd::prelude::*;

use std::io::Read;
use std::io::Write;

use crate::errors::BuildError;
use crate::gpt_table::agrees_outside;
use crate::layout::PartitionPlan;
use crate::layout::SECTOR_SIZE;
use crate::mbr::le16;
use crate::mbr::le32;
use crate::mbr::spec_le16;
use crate::mbr::spec_le32;

verus! {

/// Largest cluster size the formatter accepts, in bytes. The formatting
/// library stores sectors-per-cluster in one byte, so a cluster above 64 KiB
/// (128 sectors) would trip its internal checks instead of erroring.
pub const MAX_CLUSTER_BYTES: u32 = 65536;

/// Byte ranges handed to the formatter stay below this, so the tables the
/// format lays out are small enough for every computation on the library's
/// mount path.
pub const MAX_FORMAT_BYTES: u64 = 0x1_0000_0000;

/// First directory on the volume's root.
pub open spec fn spec_efi_dir() -> Seq<char> {
    "EFI"@
}

/// First directory on the volume's root.
pub fn efi_dir() -> (r: &'static str)
    ensures
        r@ == spec_efi_dir(),
{
    "EFI"
}

/// Directory inside `EFI` that firmware searches.
pub open spec fn spec_boot_dir() -> Seq<char> {
    "BOOT"@
}

/// Directory inside `EFI` that firmware searches.
pub fn boot_dir() -> (r: &'static str)
    ensures
        r@ == spec_boot_dir(),
{
    "BOOT"
}

/// File name firmware loads from `EFI/BOOT`.
pub open spec fn spec_boot_file_name() -> Seq<char> {
    "BOOTX64.EFI"@
}

/// File name firmware loads from `EFI/BOOT`.
pub fn boot_file_name() -> (r: &'static str)
    ensures
        r@ == spec_boot_file_name(),
{
    "BOOTX64.EFI"
}

/// A usable cluster size: a power of two between one sector and 64 KiB.
/// The lower bound and the power-of-two shape are what the formatting
/// library insists on; the upper bound keeps its one-byte
/// sectors-per-cluster field in range.
pub open spec fn cluster_size_ok(cluster: u32) -> bool {
    &&& SECTOR_SIZE <= cluster
    &&& cluster <= MAX_CLUSTER_BYTES
    &&& (cluster & (cluster - 1) as u32) == 0
}

/// Whether the boot sector at the front of `img[start..end]` is one this
/// builder will hand to the filesystem library at all. A range shorter than
/// one sector never reaches the library's field arithmetic (the read fails
/// first). Otherwise the guarded fields are the FAT32 ones: a 16-bit
/// sectors-per-FAT marks the volume FAT12/16, whose fields are too narrow to
/// overflow anything; a FAT32 volume must declare at most two tables and a
/// bounded 32-bit sectors-per-FAT, so that no product on the mount path
/// exceeds 32 bits. Anything else inside the boot sector either mounts or is
/// rejected with an error, never an abort.
pub open spec fn volume_mount_safe(img: Seq<u8>, start: int, end: int) -> bool {
    ||| end - start < 512
    ||| spec_le16(img[start + 22], img[start + 23]) != 0
    ||| (img[start + 16] <= 2 && spec_le32(
        img[start + 36],
        img[start + 37],
        img[start + 38],
        img[start + 39],
    ) < 131072)
}

/// Decides `volume_mount_safe` on the real bytes.
pub fn volume_mountable(img: &Vec<u8>, start: u64, end: u64) -> (r: bool)
    requires
        start <= end,
        end <= img@.len(),
    ensures
        r == volume_mount_safe(img@, start as int, end as int),
{
    let n = img.len();
    if end - start < 512 {
        return true;
    }
    proof {
        assert(start + 512 <= end <= n);
    }
    let base = start as usize;
    if le16(img[base + 22], img[base + 23]) != 0 {
        return true;
    }
    img[base + 16] <= 2 && le32(img[base + 36], img[base + 37], img[base + 38], img[base + 39])
        < 131072
}

/// Where the filesystem library keeps the volume's status flags: one byte
/// inside the boot sector, at offset 37 of the range for a volume whose
/// 16-bit sectors-per-FAT field is set (FAT12/16), at offset 65 otherwise
/// (FAT32). It is the one boot-sector byte the library rewrites outside a
/// format.
pub open spec fn spec_status_byte_offset(img: Seq<u8>, start: int) -> int {
    if spec_le16(img[start + 22], img[start + 23]) != 0 {
        start + 37
    } else {
        start + 65
    }
}

/// Two buffers of one length whose boot sectors agree except possibly at the
/// status-flags byte are mount-safe together or not at all: the guarded
/// fields all lie elsewhere.
proof fn lemma_mount_safe_same_boot_sector(a: Seq<u8>, b: Seq<u8>, start: int, end: int)
    requires
        a.len() == b.len(),
        0 <= start <= end <= a.len(),
        start + 512 <= end ==> forall|i: int|
            start <= i < start + 512 && i != spec_status_byte_offset(a, start) ==> a[i] == b[i],
    ensures
        volume_mount_safe(a, start, end) == volume_mount_safe(b, start, end),
{
    if start + 512 <= end {
        let off = spec_status_byte_offset(a, start);
        assert(a[start + 22] == b[start + 22] && a[start + 23] == b[start + 23]);
        if spec_le16(a[start + 22], a[start + 23]) != 0 {
            assert(volume_mount_safe(a, start, end) && volume_mount_safe(b, start, end));
        } else {
            assert(off == start + 65);
            assert(a[start + 16] == b[start + 16]);
            assert(a[start + 36] == b[start + 36] && a[start + 37] == b[start + 37] && a[start + 38]
                == b[start + 38] && a[start + 39] == b[start + 39]);
        }
    }
}

/// The range holds exactly what one successful format left there: the shape
/// under which the filesystem library's own allocation tables are
/// well-formed, so every chain walk inside it terminates.
pub open spec fn spec_fresh_volume(img: Seq<u8>, start: int, end: int) -> bool {
    exists|base: Seq<u8>, cluster: u32|
        {
            &&& cluster_size_ok(cluster)
            &&& fat_format_ok(base, start, end, cluster)
            &&& img == fat_format_bytes(base, start, end, cluster)
        }
}

/// The range holds exactly what one successful format followed by one
/// successful embedding left there.
pub open spec fn spec_embedded_volume(
    img: Seq<u8>,
    start: int,
    end: int,
    d1: Seq<char>,
    d2: Seq<char>,
    name: Seq<char>,
) -> bool {
    exists|base: Seq<u8>, cluster: u32, c: Seq<u8>|
        fat_round_trip_src(img, start, end, d1, d2, name, base, cluster, c)
}

/// The bytes of the image after `img[start..end]` has been formatted as a
/// fresh FAT volume with the given cluster size: boot sector, allocation
/// tables and an empty root directory, with the data region's leftover bytes
/// kept. The exact bytes are the formatter's layout policy; the formatting
/// wrapper names the result and callers speak of the name.
pub uninterp spec fn fat_format_bytes(img: Seq<u8>, start: int, end: int, cluster: u32) -> Seq<u8>;

/// Whether formatting `img[start..end]` with this cluster size succeeds
/// (enough sectors for the tables, an unambiguous FAT flavour).
pub uninterp spec fn fat_format_ok(img: Seq<u8>, start: int, end: int, cluster: u32) -> bool;

/// The bytes of the image after the directories `d1/d2` and the file `name`
/// holding `contents` have been created on the volume in `img[start..end]`.
pub uninterp spec fn fat_embed_bytes(
    img: Seq<u8>,
    start: int,
    end: int,
    d1: Seq<char>,
    d2: Seq<char>,
    name: Seq<char>,
    contents: Seq<u8>,
) -> Seq<u8>;

/// Whether creating `d1/d2/name` with `contents` on the volume in
/// `img[start..end]` succeeds (room enough in the volume).
pub uninterp spec fn fat_embed_ok(
    img: Seq<u8>,
    start: int,
    end: int,
    d1: Seq<char>,
    d2: Seq<char>,
    name: Seq<char>,
    contents: Seq<u8>,
) -> bool;

/// Relies on `fscommon::StreamSlice::new`, which confines every read, write
/// and seek to `start..end` of the buffer, and `fatfs::format_volume`, which
/// lays a fresh FAT volume into that range. With no time source compiled in
/// and the default volume id, everything written — and whether the format
/// succeeds at all — is a function of the arguments alone. Within the
/// accepted cluster sizes every internal check of the library fails soft,
/// so the call returns rather than aborts; and a volume it formats in a
/// range of at most `MAX_FORMAT_BYTES` declares two tables of a few thousand
/// sectors each, well inside the mount-safety bounds.
#[verifier::external_body]
fn fat_format_raw(img: Vec<u8>, start: u64, end: u64, cluster: u32) -> (r: Result<
    Vec<u8>,
    std::io::Error,
>)
    requires
        cluster_size_ok(cluster),
        start <= end,
        end <= img@.len(),
    ensures
        r is Ok <==> fat_format_ok(img@, start as int, end as int, cluster),
        r matches Ok(v) ==> {
            &&& v@ == fat_format_bytes(img@, start as int, end as int, cluster)
            &&& v@.len() == img@.len()
            &&& agrees_outside(v@, img@, start as int, end as int)
            &&& end - start <= MAX_FORMAT_BYTES ==> volume_mount_safe(
                v@,
                start as int,
                end as int,
            )
        },
{
    let mut cur = std::io::Cursor::new(img);
    let mut slice = fscommon::StreamSlice::new(&mut cur, start, end)?;
    fatfs::format_volume(
        &mut slice,
        fatfs::FormatVolumeOptions::new().bytes_per_cluster(cluster),
    )?;
    Ok(cur.into_inner())
}

/// Relies on `fscommon::StreamSlice::new` (all filesystem traffic stays in
/// `start..end`), `fatfs::FileSystem::new`, `Dir::create_dir`,
/// `Dir::create_file`, the `write_all`/`flush` of `fatfs::File`, and
/// `FileSystem::unmount`. Mount safety of the boot sector keeps every
/// computation on the mount path in range, and on a freshly formatted
/// volume the allocation tables hold no chains but the root directory's,
/// so every chain walk terminates and the call returns rather than aborts
/// or hangs. With no time source compiled in, the directory entries carry
/// fixed timestamps, so the result — and whether the embedding succeeds —
/// is a function of the arguments alone. Of the boot sector the library
/// rewrites exactly one byte, the status flags (set while writing, cleared
/// on unmount); every other byte of the first sector comes through
/// unchanged.
#[verifier::external_body]
fn fat_embed_raw(
    img: Vec<u8>,
    start: u64,
    end: u64,
    d1: &str,
    d2: &str,
    name: &str,
    contents: &Vec<u8>,
) -> (r: Result<Vec<u8>, std::io::Error>)
    requires
        start <= end,
        end <= img@.len(),
        volume_mount_safe(img@, start as int, end as int),
        spec_fresh_volume(img@, start as int, end as int),
    ensures
        r is Ok <==> fat_embed_ok(img@, start as int, end as int, d1@, d2@, name@, contents@),
        r matches Ok(v) ==> {
            &&& v@ == fat_embed_bytes(
                img@,
                start as int,
                end as int,
                d1@,
                d2@,
                name@,
                contents@,
            )
            &&& v@.len() == img@.len()
            &&& agrees_outside(v@, img@, start as int, end as int)
            &&& start as int + 512 <= end as int ==> forall|i: int|
                start as int <= i < start as int + 512 && i != spec_status_byte_offset(
                    img@,
                    start as int,
                ) ==> v@[i] == img@[i]
        },
{
    let mut cur = std::io::Cursor::new(img);
    let slice = fscommon::StreamSlice::new(&mut cur, start, end)?;
    let fs = fatfs::FileSystem::new(slice, fatfs::FsOptions::new())?;
    {
        let root = fs.root_dir();
        let sub = root.create_dir(d1)?.create_dir(d2)?;
        let mut file = sub.create_file(name)?;
        file.write_all(contents.as_slice())?;
        file.flush()?;
    }
    fs.unmount()?;
    Ok(cur.into_inner())
}

/// `img` is, byte for byte, the volume in `start..end` that a successful
/// format with `cluster` on `base` followed by a successful embedding of
/// `contents` at `d1/d2/name` produces.
pub open spec fn fat_round_trip_src(
    img: Seq<u8>,
    start: int,
    end: int,
    d1: Seq<char>,
    d2: Seq<char>,
    name: Seq<char>,
    base: Seq<u8>,
    cluster: u32,
    c: Seq<u8>,
) -> bool {
    let formatted = fat_format_bytes(base, start, end, cluster);
    &&& cluster_size_ok(cluster)
    &&& 0 <= start
    &&& start <= end
    &&& end <= img.len()
    &&& volume_mount_safe(img, start, end)
    &&& fat_format_ok(base, start, end, cluster)
    &&& fat_embed_ok(formatted, start, end, d1, d2, name, c)
    &&& img == fat_embed_bytes(formatted, start, end, d1, d2, name, c)
}

/// Relies on `fscommon::StreamSlice::new`, `fatfs::FileSystem::new`,
/// `Dir::open_dir`, `Dir::open_file` and `read_to_end` through
/// `fatfs::File`: on a volume that is exactly what a successful format and
/// embedding left in `start..end`, the file at `d1/d2/name` opens and reads
/// back the embedded contents in full. Mount safety of the boot sector keeps
/// every computation on the mount path in range, and on a volume one format
/// and one embedding produced, the allocation tables hold only the
/// terminated chains those operations wrote, so every chain walk terminates
/// and the call returns rather than hangs.
#[verifier::external_body]
fn fat_read_raw(img: &Vec<u8>, start: u64, end: u64, d1: &str, d2: &str, name: &str) -> (r: Result<
    Vec<u8>,
    std::io::Error,
>)
    requires
        start <= end,
        end <= img@.len(),
        volume_mount_safe(img@, start as int, end as int),
        spec_embedded_volume(img@, start as int, end as int, d1@, d2@, name@),
    ensures
        forall|base: Seq<u8>, cluster: u32, c: Seq<u8>|
            fat_round_trip_src(img@, start as int, end as int, d1@, d2@, name@, base, cluster, c)
                ==> (r is Ok && r->Ok_0@ == c),
{
    let mut cur = std::io::Cursor::new(img.clone());
    let slice = fscommon::StreamSlice::new(&mut cur, start, end)?;
    let fs = fatfs::FileSystem::new(slice, fatfs::FsOptions::new())?;
    let mut out = Vec::new();
    {
        let mut file = fs.root_dir().open_dir(d1)?.open_dir(d2)?.open_file(name)?;
        file.read_to_end(&mut out)?;
    }
    Ok(out)
}

/// The Volume Formatter: formats the partition's byte range of `img` as a
/// fresh FAT volume. The cluster size must be a power of two of at least one
/// sector and must evenly divide the partition; all filesystem metadata and
/// data stay inside the range.
pub fn format_partition(img: Vec<u8>, plan: &PartitionPlan, cluster: u32) -> (r: Result<
    Vec<u8>,
    BuildError,
>)
    ensures
        r matches Ok(v) ==> {
            &&& cluster_size_ok(cluster)
            &&& plan.size_bytes as int % cluster as int == 0
            &&& plan.end_offset() <= img@.len()
            &&& v@ == fat_format_bytes(img@, plan.start_offset as int, plan.end_offset(), cluster)
            &&& fat_format_ok(img@, plan.start_offset as int, plan.end_offset(), cluster)
            &&& v@.len() == img@.len()
            &&& agrees_outside(v@, img@, plan.start_offset as int, plan.end_offset())
            &&& plan.size_bytes <= MAX_FORMAT_BYTES ==> volume_mount_safe(
                v@,
                plan.start_offset as int,
                plan.end_offset(),
            )
        },
        (cluster_size_ok(cluster) && plan.size_bytes as int % cluster as int == 0
            && plan.end_offset() <= img@.len()) ==> (r is Ok <==> fat_format_ok(
            img@,
            plan.start_offset as int,
            plan.end_offset(),
            cluster,
        )),
        (!cluster_size_ok(cluster) || plan.size_bytes as int % cluster as int != 0) <==> r == Err::<
            Vec<u8>,
            BuildError,
        >(BuildError::InvalidClusterSize),
        (cluster_size_ok(cluster) && plan.size_bytes as int % cluster as int == 0
            && plan.end_offset() > img@.len()) <==> r == Err::<Vec<u8>, BuildError>(
            BuildError::PartitionOutOfRange,
        ),
        r is Err ==> (r == Err::<Vec<u8>, BuildError>(BuildError::InvalidClusterSize) || r
            == Err::<Vec<u8>, BuildError>(BuildError::PartitionOutOfRange) || r == Err::<
            Vec<u8>,
            BuildError,
        >(BuildError::VolumeFormatFailed)),
{
    let n = img.len();
    if cluster < SECTOR_SIZE as u32 || cluster > MAX_CLUSTER_BYTES || (cluster & (cluster - 1))
        != 0 {
        return Err(BuildError::InvalidClusterSize);
    }
    if plan.size_bytes % (cluster as u64) != 0 {
        return Err(BuildError::InvalidClusterSize);
    }
    if plan.size_bytes > u64::MAX - plan.start_offset {
        return Err(BuildError::PartitionOutOfRange);
    }
    let end = plan.start_offset + plan.size_bytes;
    if end > n as u64 {
        return Err(BuildError::PartitionOutOfRange);
    }
    match fat_format_raw(img, plan.start_offset, end, cluster) {
        Ok(v) => Ok(v),
        Err(_) => Err(BuildError::VolumeFormatFailed),
    }
}

/// The File Embedder: creates `EFI`, then `BOOT`, then `BOOTX64.EFI` on the
/// just-formatted volume in the partition's range of `img` and copies the
/// boot executable into it in full. Its input is owed to be exactly what
/// the Volume Formatter left there — the filesystem library walks the
/// volume's own allocation chains, which only a fresh format keeps
/// well-formed. A range whose boot sector is not mount-safe is refused
/// before the library sees it; past that, a failure is the volume running
/// out of room for the executable, and is reported as a capacity error.
pub fn embed_boot_file(img: Vec<u8>, plan: &PartitionPlan, contents: &Vec<u8>) -> (r: Result<
    Vec<u8>,
    BuildError,
>)
    requires
        spec_fresh_volume(img@, plan.start_offset as int, plan.end_offset()),
    ensures
        r matches Ok(v) ==> {
            &&& plan.end_offset() <= img@.len()
            &&& v@ == fat_embed_bytes(
                img@,
                plan.start_offset as int,
                plan.end_offset(),
                spec_efi_dir(),
                spec_boot_dir(),
                spec_boot_file_name(),
                contents@,
            )
            &&& v@.len() == img@.len()
            &&& agrees_outside(v@, img@, plan.start_offset as int, plan.end_offset())
            &&& volume_mount_safe(v@, plan.start_offset as int, plan.end_offset())
        },
        (plan.end_offset() <= img@.len() && volume_mount_safe(
            img@,
            plan.start_offset as int,
            plan.end_offset(),
        )) ==> (r is Ok <==> fat_embed_ok(
            img@,
            plan.start_offset as int,
            plan.end_offset(),
            spec_efi_dir(),
            spec_boot_dir(),
            spec_boot_file_name(),
            contents@,
        )),
        (plan.end_offset() > img@.len()) <==> r == Err::<Vec<u8>, BuildError>(
            BuildError::PartitionOutOfRange,
        ),
        (plan.end_offset() <= img@.len() && !volume_mount_safe(
            img@,
            plan.start_offset as int,
            plan.end_offset(),
        )) <==> r == Err::<Vec<u8>, BuildError>(BuildError::VolumeUnmountable),
        r is Err ==> (r == Err::<Vec<u8>, BuildError>(BuildError::PartitionOutOfRange) || r
            == Err::<Vec<u8>, BuildError>(BuildError::VolumeUnmountable) || r == Err::<
            Vec<u8>,
            BuildError,
        >(BuildError::VolumeCapacity)),
{
    let n = img.len();
    if plan.size_bytes > u64::MAX - plan.start_offset {
        return Err(BuildError::PartitionOutOfRange);
    }
    let end = plan.start_offset + plan.size_bytes;
    if end > n as u64 {
        return Err(BuildError::PartitionOutOfRange);
    }
    if !volume_mountable(&img, plan.start_offset, end) {
        return Err(BuildError::VolumeUnmountable);
    }
    let ghost img0 = img@;
    match fat_embed_raw(
        img,
        plan.start_offset,
        end,
        efi_dir(),
        boot_dir(),
        boot_file_name(),
        contents,
    ) {
        Ok(v) => {
            proof {
                lemma_mount_safe_same_boot_sector(
                    img0,
                    v@,
                    plan.start_offset as int,
                    plan.end_offset(),
                );
            }
            Ok(v)
        },
        Err(_) => Err(BuildError::VolumeCapacity),
    }
}

/// What `read_boot_file` promises: on an image whose partition range is
/// exactly what a successful format-then-embed left there, the read succeeds
/// and returns the embedded contents.
pub open spec fn boot_file_read_post(
    img: Seq<u8>,
    start: int,
    end: int,
    r: Result<Vec<u8>, BuildError>,
) -> bool {
    forall|base: Seq<u8>, cluster: u32, c: Seq<u8>|
        fat_round_trip_src(
            img,
            start,
            end,
            spec_efi_dir(),
            spec_boot_dir(),
            spec_boot_file_name(),
            base,
            cluster,
            c,
        ) ==> (r is Ok && r->Ok_0@ == c)
}

/// Opens the volume in the partition's range of `img` and reads
/// `EFI/BOOT/BOOTX64.EFI` back in full. Its input is owed to be what one
/// format and one embedding produced there — the walk through the volume's
/// allocation chains terminates only on such input — and on it the read
/// always succeeds.
pub fn read_boot_file(img: &Vec<u8>, plan: &PartitionPlan) -> (r: Result<Vec<u8>, BuildError>)
    requires
        spec_embedded_volume(
            img@,
            plan.start_offset as int,
            plan.end_offset(),
            spec_efi_dir(),
            spec_boot_dir(),
            spec_boot_file_name(),
        ),
    ensures
        r is Ok,
        boot_file_read_post(img@, plan.start_offset as int, plan.end_offset(), r),
{
    let ghost w = choose|base: Seq<u8>, cluster: u32, c: Seq<u8>|
        fat_round_trip_src(
            img@,
            plan.start_offset as int,
            plan.end_offset(),
            spec_efi_dir(),
            spec_boot_dir(),
            spec_boot_file_name(),
            base,
            cluster,
            c,
        );
    let n = img.len();
    if plan.size_bytes > u64::MAX - plan.start_offset {
        proof {
            assert(false);
        }
        return Err(BuildError::VolumeReadFailed);
    }
    let end = plan.start_offset + plan.size_bytes;
    if end > n as u64 {
        proof {
            assert(false);
        }
        return Err(BuildError::VolumeReadFailed);
    }
    if !volume_mountable(img, plan.start_offset, end) {
        proof {
            assert(false);
        }
        return Err(BuildError::VolumeReadFailed);
    }
    match fat_read_raw(img, plan.start_offset, end, efi_dir(), boot_dir(), boot_file_name()) {
        Ok(v) => Ok(v),
        Err(_) => {
            proof {
                assert(false);
            }
            Err(BuildError::VolumeReadFailed)
        },
    }
}

} // verus!
