use vstd::prelude::*;

use crate::errors::BuildError;
use crate::gpt_table::DISK_GUID;
use crate::gpt_table::GptEntry;
use crate::gpt_table::PART_GUID;
use crate::gpt_table::agrees_outside;
use crate::gpt_table::commit_gpt;
use crate::gpt_table::gpt_commit_bytes;
use crate::gpt_table::gpt_commit_ok;
use crate::gpt_table::gpt_entries_post;
use crate::gpt_table::gpt_fits;
use crate::gpt_table::gpt_round_trip_src;
use crate::gpt_table::spec_partition_name;
use crate::layout::GPT_METADATA_SECTORS;
use crate::layout::ImageLayout;
use crate::layout::MAX_ALIGNMENT_SECTORS;
use crate::layout::MAX_EXECUTABLE_BYTES;
use crate::layout::SECTOR_SIZE;
use crate::layout::plan_layout;
use crate::layout::plan_post;
use crate::layout::spec_partition_sectors;
use crate::layout::spec_planned_layout;
use crate::mbr::MbrPartRecord;
use crate::mbr::spec_protective_mbr;
use crate::mbr::spec_protective_sectors;
use crate::mbr::spec_used_records;
use crate::mbr::write_protective_mbr;
use crate::volume::MAX_FORMAT_BYTES;
use crate::volume::boot_file_read_post;
use crate::volume::cluster_size_ok;
use crate::volume::embed_boot_file;
use crate::volume::fat_embed_bytes;
use crate::volume::fat_embed_ok;
use crate::volume::fat_format_bytes;
use crate::volume::fat_format_ok;
use crate::volume::fat_round_trip_src;
use crate::volume::format_partition;
use crate::volume::spec_boot_dir;
use crate::volume::spec_boot_file_name;
use crate::volume::spec_efi_dir;
use crate::volume::volume_mount_safe;

verus! {

/// The finished product: the resolved layout and the full image bytes, ready
/// to be flushed to storage in one piece.
#[derive(Debug, Clone)]
pub struct BuildOutput {
    /// The layout the image was built to.
    pub layout: ImageLayout,
    /// The whole image, `layout.geometry.total_sectors * SECTOR_SIZE` bytes.
    pub bytes: Vec<u8>,
}

/// A buffer of `n` zero bytes.
pub fn zeroed_image(n: usize) -> (r: Vec<u8>)
    ensures
        r@ == Seq::new(n as nat, |i: int| 0u8),
{
    let mut v: Vec<u8> = Vec::new();
    let mut i: usize = 0;
    while i < n
        invariant
            i <= n,
            v@.len() == i,
            forall|j: int| 0 <= j < i ==> v@[j] == 0u8,
        decreases n - i,
    {
        v.push(0u8);
        i = i + 1;
    }
    proof {
        assert(v@ =~= Seq::new(n as nat, |i: int| 0u8));
    }
    v
}

/// The image after the first stage: a zeroed buffer of the layout's length
/// with the protective MBR over its first sector.
pub open spec fn spec_mbr_image(layout: ImageLayout) -> Seq<u8> {
    spec_protective_mbr(spec_protective_sectors(layout.geometry.total_sectors)) + Seq::new(
        layout.total_bytes() as nat,
        |i: int| 0u8,
    ).skip(512)
}

/// The image after the second stage: the partition table committed onto the
/// MBR image.
pub open spec fn spec_gpt_image(layout: ImageLayout) -> Seq<u8> {
    gpt_commit_bytes(
        spec_mbr_image(layout),
        layout.plan.first_lba(),
        layout.plan.last_lba(),
        DISK_GUID,
        PART_GUID,
        spec_partition_name(),
    )
}

/// The image after the third stage: the partition's range formatted as a
/// fresh FAT volume.
pub open spec fn spec_formatted_image(layout: ImageLayout, cluster: u32) -> Seq<u8> {
    fat_format_bytes(
        spec_gpt_image(layout),
        layout.plan.start_offset as int,
        layout.plan.end_offset(),
        cluster,
    )
}

/// The finished image: the executable embedded at `EFI/BOOT/BOOTX64.EFI` of
/// the formatted volume.
pub open spec fn spec_full_image(exec: Seq<u8>, layout: ImageLayout, cluster: u32) -> Seq<u8> {
    fat_embed_bytes(
        spec_formatted_image(layout, cluster),
        layout.plan.start_offset as int,
        layout.plan.end_offset(),
        spec_efi_dir(),
        spec_boot_dir(),
        spec_boot_file_name(),
        exec,
    )
}

/// The inputs on which the pipeline owes an answer beyond its own three
/// input checks: an alignment the metadata fits under, an executable within
/// the largest layout, and a usable cluster size that evenly divides the
/// partition the planner will lay out.
pub open spec fn build_inputs_ok(exec: Seq<u8>, align: u64, cluster: u32) -> bool {
    &&& GPT_METADATA_SECTORS <= align <= MAX_ALIGNMENT_SECTORS
    &&& exec.len() <= MAX_EXECUTABLE_BYTES
    &&& cluster_size_ok(cluster)
    &&& spec_partition_sectors(exec.len() as u64) * SECTOR_SIZE % cluster as int == 0
}

/// When the pipeline succeeds on accepted inputs: exactly when each of the
/// three outside stages succeeds on the image the stage before it owes.
pub open spec fn build_succeeds(exec: Seq<u8>, align: u64, cluster: u32) -> bool {
    let layout = spec_planned_layout(exec.len() as u64, align);
    &&& gpt_commit_ok(
        spec_mbr_image(layout),
        layout.plan.first_lba(),
        layout.plan.last_lba(),
        DISK_GUID,
        PART_GUID,
        spec_partition_name(),
    )
    &&& fat_format_ok(
        spec_gpt_image(layout),
        layout.plan.start_offset as int,
        layout.plan.end_offset(),
        cluster,
    )
    &&& fat_embed_ok(
        spec_formatted_image(layout, cluster),
        layout.plan.start_offset as int,
        layout.plan.end_offset(),
        spec_efi_dir(),
        spec_boot_dir(),
        spec_boot_file_name(),
        exec,
    )
}

/// The image the pipeline owes for a boot executable `exec`, alignment
/// `align` and cluster size `cluster`, stage by stage: a zeroed buffer, the
/// protective MBR over its first sector, the partition table committed onto
/// that, the partition's range formatted, and the executable embedded at
/// `EFI/BOOT/BOOTX64.EFI`.
pub open spec fn built_image_post(
    exec: Seq<u8>,
    align: u64,
    cluster: u32,
    layout: ImageLayout,
    img: Seq<u8>,
) -> bool {
    let ps = spec_protective_sectors(layout.geometry.total_sectors);
    let f = layout.plan.first_lba();
    let l = layout.plan.last_lba();
    let start = layout.plan.start_offset as int;
    let end = layout.plan.end_offset();
    &&& plan_post(exec.len() as u64, align, layout)
    &&& cluster_size_ok(cluster)
    &&& gpt_fits(layout.total_bytes(), f, l)
    &&& gpt_commit_ok(spec_mbr_image(layout), f, l, DISK_GUID, PART_GUID, spec_partition_name())
    &&& fat_format_ok(spec_gpt_image(layout), start, end, cluster)
    &&& fat_embed_ok(
        spec_formatted_image(layout, cluster),
        start,
        end,
        spec_efi_dir(),
        spec_boot_dir(),
        spec_boot_file_name(),
        exec,
    )
    &&& img == spec_full_image(exec, layout, cluster)
    &&& img.len() == layout.total_bytes()
    &&& start == f * SECTOR_SIZE
    &&& end == (l + 1) * SECTOR_SIZE
    &&& img.subrange(0, 512) == spec_protective_mbr(ps)
    &&& agrees_outside(img, spec_gpt_image(layout), f * SECTOR_SIZE, (l + 1) * SECTOR_SIZE)
    &&& volume_mount_safe(img, start, end)
}

/// The whole pipeline, in memory: plan the layout, zero a buffer, write the
/// protective MBR, commit the partition table, format the partition as a FAT
/// volume with `bytes_per_cluster`, and embed the executable at
/// `EFI/BOOT/BOOTX64.EFI`. Either every stage succeeds and the finished
/// image is returned whole, or the first failure aborts the build and
/// nothing is returned; on accepted inputs the build succeeds exactly when
/// the three outside stages do.
pub fn build_image(
    executable: &Vec<u8>,
    alignment_sectors: u64,
    bytes_per_cluster: u32,
) -> (r: Result<BuildOutput, BuildError>)
    ensures
        r matches Ok(out) ==> {
            &&& out.layout == spec_planned_layout(executable@.len() as u64, alignment_sectors)
            &&& built_image_post(
                executable@,
                alignment_sectors,
                bytes_per_cluster,
                out.layout,
                out.bytes@,
            )
        },
        build_inputs_ok(executable@, alignment_sectors, bytes_per_cluster) ==> (r is Ok
            <==> build_succeeds(executable@, alignment_sectors, bytes_per_cluster)),
        (alignment_sectors < GPT_METADATA_SECTORS || alignment_sectors > MAX_ALIGNMENT_SECTORS)
            <==> r == Err::<BuildOutput, BuildError>(BuildError::InvalidAlignment),
        (GPT_METADATA_SECTORS <= alignment_sectors <= MAX_ALIGNMENT_SECTORS && executable@.len()
            > MAX_EXECUTABLE_BYTES) <==> r == Err::<BuildOutput, BuildError>(
            BuildError::ExecutableTooLarge,
        ),
        (GPT_METADATA_SECTORS <= alignment_sectors <= MAX_ALIGNMENT_SECTORS && executable@.len()
            <= MAX_EXECUTABLE_BYTES && !(cluster_size_ok(bytes_per_cluster)
            && spec_partition_sectors(executable@.len() as u64) * SECTOR_SIZE
            % bytes_per_cluster as int == 0)) <==> r == Err::<BuildOutput, BuildError>(
            BuildError::InvalidClusterSize,
        ),
        r is Err ==> (r == Err::<BuildOutput, BuildError>(BuildError::InvalidAlignment) || r
            == Err::<BuildOutput, BuildError>(BuildError::ExecutableTooLarge) || r == Err::<
            BuildOutput,
            BuildError,
        >(BuildError::InvalidClusterSize) || r == Err::<BuildOutput, BuildError>(
            BuildError::GptWriteFailed,
        ) || r == Err::<BuildOutput, BuildError>(BuildError::VolumeFormatFailed) || r == Err::<
            BuildOutput,
            BuildError,
        >(BuildError::VolumeCapacity)),
{
    let exec_len: u64 = executable.len() as u64;
    let layout = match plan_layout(exec_len, alignment_sectors) {
        Ok(l) => l,
        Err(e) => { return Err(e) },
    };
    if bytes_per_cluster < SECTOR_SIZE as u32 || bytes_per_cluster > crate::volume::MAX_CLUSTER_BYTES
        || (bytes_per_cluster & (bytes_per_cluster - 1)) != 0 {
        return Err(BuildError::InvalidClusterSize);
    }
    if layout.plan.size_bytes % (bytes_per_cluster as u64) != 0 {
        return Err(BuildError::InvalidClusterSize);
    }
    proof {
        assert(layout == spec_planned_layout(exec_len, alignment_sectors));
    }
    let total_bytes: u64 = layout.geometry.total_sectors * SECTOR_SIZE;
    let mut img = zeroed_image(total_bytes as usize);
    let ghost zero_img = img@;
    match write_protective_mbr(&mut img, layout.geometry.total_sectors) {
        Ok(_) => (),
        Err(e) => {
            // The planned geometry always has at least one sector.
            proof {
                assert(false);
            }
            return Err(e);
        },
    }
    let ghost mbr_img = img@;
    proof {
        assert(mbr_img == spec_mbr_image(layout));
    }
    let img = match commit_gpt(img, &layout.plan) {
        Ok(v) => v,
        Err(e) => {
            // Under a planned layout the builder's placement checks cannot
            // fire, so the only failure left is the commit itself.
            proof {
                lemma_stage_errors_excluded(exec_len, alignment_sectors, layout, mbr_img.len() as int);
                assert(e == BuildError::GptWriteFailed);
            }
            return Err(e);
        },
    };
    let ghost gpt_img = img@;
    proof {
        assert(gpt_img == spec_gpt_image(layout));
    }
    let img = match format_partition(img, &layout.plan, bytes_per_cluster) {
        Ok(v) => v,
        Err(e) => {
            // The cluster size was vetted above and the planned range lies
            // inside the image, so only the formatting itself can have
            // failed.
            proof {
                lemma_layout_lbas(layout);
                assert(e == BuildError::VolumeFormatFailed);
            }
            return Err(e);
        },
    };
    let ghost fmt_img = img@;
    proof {
        assert(fmt_img == spec_formatted_image(layout, bytes_per_cluster));
        // The formatter's output is by definition a fresh volume, which the
        // embedder's contract asks for.
        assert(crate::volume::spec_fresh_volume(
            fmt_img,
            layout.plan.start_offset as int,
            layout.plan.end_offset(),
        )) by {
            assert(cluster_size_ok(bytes_per_cluster) && fat_format_ok(
                gpt_img,
                layout.plan.start_offset as int,
                layout.plan.end_offset(),
                bytes_per_cluster,
            ) && fmt_img == fat_format_bytes(
                gpt_img,
                layout.plan.start_offset as int,
                layout.plan.end_offset(),
                bytes_per_cluster,
            ));
        }
    }
    let img = match embed_boot_file(img, &layout.plan, executable) {
        Ok(v) => v,
        Err(e) => {
            // The planned range lies inside the image and the fresh volume
            // is mount-safe, so what remains is the volume running out of
            // room.
            proof {
                lemma_layout_lbas(layout);
                assert(e == BuildError::VolumeCapacity);
            }
            return Err(e);
        },
    };
    proof {
        lemma_compose_stages(
            executable@,
            alignment_sectors,
            bytes_per_cluster,
            layout,
            zero_img,
            mbr_img,
            gpt_img,
            fmt_img,
            img@,
        );
    }
    Ok(BuildOutput { layout, bytes: img })
}

/// Builds the image and then proves the deliverable by reading the embedded
/// executable back out of the finished bytes: when the build reports
/// success, the caller holds both the image and the evidence that
/// `EFI/BOOT/BOOTX64.EFI` inside it is the input, byte for byte.
pub fn build_and_read_back(
    executable: &Vec<u8>,
    alignment_sectors: u64,
    bytes_per_cluster: u32,
) -> (r: Result<(BuildOutput, Vec<u8>), BuildError>)
    ensures
        r matches Ok(p) ==> {
            &&& built_image_post(
                executable@,
                alignment_sectors,
                bytes_per_cluster,
                p.0.layout,
                p.0.bytes@,
            )
            &&& p.1@ == executable@
        },
        build_inputs_ok(executable@, alignment_sectors, bytes_per_cluster) ==> (r is Ok
            <==> build_succeeds(executable@, alignment_sectors, bytes_per_cluster)),
        r is Err ==> (r == Err::<(BuildOutput, Vec<u8>), BuildError>(BuildError::InvalidAlignment)
            || r == Err::<(BuildOutput, Vec<u8>), BuildError>(BuildError::ExecutableTooLarge) || r
            == Err::<(BuildOutput, Vec<u8>), BuildError>(BuildError::InvalidClusterSize) || r
            == Err::<(BuildOutput, Vec<u8>), BuildError>(BuildError::GptWriteFailed) || r == Err::<
            (BuildOutput, Vec<u8>),
            BuildError,
        >(BuildError::VolumeFormatFailed) || r == Err::<(BuildOutput, Vec<u8>), BuildError>(
            BuildError::VolumeCapacity,
        )),
{
    let out = match build_image(executable, alignment_sectors, bytes_per_cluster) {
        Ok(out) => out,
        Err(e) => { return Err(e) },
    };
    proof {
        // The finished image is, at the partition's range, exactly one
        // format followed by one embedding of the executable.
        assert(fat_round_trip_src(
            out.bytes@,
            out.layout.plan.start_offset as int,
            out.layout.plan.end_offset(),
            spec_efi_dir(),
            spec_boot_dir(),
            spec_boot_file_name(),
            spec_gpt_image(out.layout),
            bytes_per_cluster,
            executable@,
        ));
    }
    let back = match crate::volume::read_boot_file(&out.bytes, &out.layout.plan) {
        Ok(b) => b,
        Err(e) => {
            proof {
                assert(false);
            }
            return Err(e);
        },
    };
    Ok((out, back))
}

/// Under a planned layout the table builder's own placement checks can never
/// fire: the start is aligned and the partition clears both table copies.
proof fn lemma_stage_errors_excluded(exec_len: u64, align: u64, layout: ImageLayout, len: int)
    requires
        plan_post(exec_len, align, layout),
        len == layout.total_bytes(),
    ensures
        crate::gpt_table::plan_alignment_ok(layout.plan),
        crate::gpt_table::gpt_plan_ok(len, layout.plan),
{
    lemma_layout_lbas(layout);
    assert(layout.plan.start_offset as int % (layout.plan.alignment_sectors * SECTOR_SIZE) == 0)
        by (nonlinear_arith)
        requires
            layout.plan.start_offset == layout.plan.alignment_sectors * SECTOR_SIZE,
            0 < layout.plan.alignment_sectors,
    ;
}

/// The planned partition's block addresses, recovered from its byte offsets:
/// division undoes the multiplications the planner did.
proof fn lemma_layout_lbas(layout: ImageLayout)
    requires
        layout.wf(),
    ensures
        layout.plan.first_lba() == layout.plan.alignment_sectors,
        layout.plan.start_offset == layout.plan.first_lba() * SECTOR_SIZE,
        layout.plan.end_offset() == (layout.plan.last_lba() + 1) * SECTOR_SIZE,
        layout.plan.start_offset % SECTOR_SIZE == 0,
        GPT_METADATA_SECTORS <= layout.plan.first_lba(),
        layout.plan.last_lba() + GPT_METADATA_SECTORS <= layout.total_bytes() / (
        SECTOR_SIZE as int),
        layout.total_bytes() % (SECTOR_SIZE as int) == 0,
        GPT_METADATA_SECTORS * SECTOR_SIZE <= layout.total_bytes(),
        layout.plan.size_bytes <= MAX_FORMAT_BYTES,
{
    let align = layout.plan.alignment_sectors;
    let size = layout.plan.size_bytes;
    assert((align * SECTOR_SIZE) as int / SECTOR_SIZE as int == align as int) by (nonlinear_arith);
    vstd::arithmetic::div_mod::lemma_fundamental_div_mod(size as int, SECTOR_SIZE as int);
    vstd::arithmetic::div_mod::lemma_fundamental_div_mod(
        layout.total_bytes(),
        SECTOR_SIZE as int,
    );
    assert(layout.geometry.total_sectors * SECTOR_SIZE as int / (SECTOR_SIZE as int)
        == layout.geometry.total_sectors as int) by (nonlinear_arith);
    assert((align * SECTOR_SIZE) as int % SECTOR_SIZE as int == 0) by (nonlinear_arith);
    assert(layout.geometry.total_sectors * SECTOR_SIZE as int % (SECTOR_SIZE as int) == 0)
        by (nonlinear_arith);
}

/// Chains the four stages' contracts into `built_image_post`.
proof fn lemma_compose_stages(
    exec: Seq<u8>,
    align: u64,
    cluster: u32,
    layout: ImageLayout,
    zero_img: Seq<u8>,
    mbr_img: Seq<u8>,
    gpt_img: Seq<u8>,
    fmt_img: Seq<u8>,
    full_img: Seq<u8>,
)
    requires
        plan_post(exec.len() as u64, align, layout),
        cluster_size_ok(cluster),
        zero_img == Seq::new(layout.total_bytes() as nat, |i: int| 0u8),
        mbr_img == spec_protective_mbr(spec_protective_sectors(layout.geometry.total_sectors))
            + zero_img.skip(512),
        gpt_fits(mbr_img.len() as int, layout.plan.first_lba(), layout.plan.last_lba()),
        gpt_img == spec_gpt_image(layout),
        gpt_commit_ok(
            mbr_img,
            layout.plan.first_lba(),
            layout.plan.last_lba(),
            DISK_GUID,
            PART_GUID,
            spec_partition_name(),
        ),
        gpt_img.len() == mbr_img.len(),
        gpt_img.subrange(0, 512) == mbr_img.subrange(0, 512),
        fmt_img == spec_formatted_image(layout, cluster),
        fat_format_ok(gpt_img, layout.plan.start_offset as int, layout.plan.end_offset(), cluster),
        fmt_img.len() == gpt_img.len(),
        agrees_outside(fmt_img, gpt_img, layout.plan.start_offset as int, layout.plan.end_offset()),
        full_img == spec_full_image(exec, layout, cluster),
        fat_embed_ok(
            fmt_img,
            layout.plan.start_offset as int,
            layout.plan.end_offset(),
            spec_efi_dir(),
            spec_boot_dir(),
            spec_boot_file_name(),
            exec,
        ),
        full_img.len() == fmt_img.len(),
        agrees_outside(
            full_img,
            fmt_img,
            layout.plan.start_offset as int,
            layout.plan.end_offset(),
        ),
        volume_mount_safe(full_img, layout.plan.start_offset as int, layout.plan.end_offset()),
    ensures
        built_image_post(exec, align, cluster, layout, full_img),
{
    lemma_layout_lbas(layout);
    let ps = spec_protective_sectors(layout.geometry.total_sectors);
    let f = layout.plan.first_lba();
    let l = layout.plan.last_lba();
    let start = layout.plan.start_offset as int;
    let end = layout.plan.end_offset();
    assert(mbr_img == spec_mbr_image(layout));
    assert(mbr_img.len() == layout.total_bytes());
    assert(GPT_METADATA_SECTORS * SECTOR_SIZE <= start);
    assert(end <= layout.total_bytes());
    // The first sector survives the filesystem stages untouched.
    assert forall|i: int| 0 <= i < 512 implies full_img[i] == gpt_img[i] by {
        assert(!(start <= i < end));
    }
    assert forall|i: int| 0 <= i < 512 implies gpt_img[i] == spec_protective_mbr(ps)[i] by {
        assert(gpt_img.subrange(0, 512)[i] == gpt_img[i]);
        assert(mbr_img.subrange(0, 512)[i] == mbr_img[i]);
        assert(mbr_img[i] == (spec_protective_mbr(ps) + zero_img.skip(512))[i]);
    }
    assert(full_img.subrange(0, 512) =~= spec_protective_mbr(ps));
    // And the filesystem stages only touched the partition's own bytes.
    assert forall|i: int|
        0 <= i < full_img.len() && !(f * SECTOR_SIZE <= i < (l + 1) * SECTOR_SIZE) implies full_img[i]
        == gpt_img[i] by {
        assert(!(start <= i < end));
    }
}

/// Round trip through the legacy table: the first sector of every finished
/// image parses as exactly one used record, of type `0xEE`, starting at LBA 1
/// and spanning `min(total_sectors - 1, 0xFFFFFFFF)` sectors.
pub proof fn lemma_built_mbr_round_trip(
    exec: Seq<u8>,
    align: u64,
    cluster: u32,
    layout: ImageLayout,
    img: Seq<u8>,
)
    ensures
        built_image_post(exec, align, cluster, layout, img) ==> {
            &&& img[510] == 0x55
            &&& img[511] == 0xAA
            &&& spec_used_records(img, 4) == seq![
                MbrPartRecord {
                    os_type: 0xEE,
                    start_lba: 1,
                    sectors: spec_protective_sectors(layout.geometry.total_sectors),
                },
            ]
        },
{
    if built_image_post(exec, align, cluster, layout, img) {
        crate::mbr::lemma_mbr_round_trip(
            spec_protective_sectors(layout.geometry.total_sectors),
            img,
        );
    }
}

/// Round trip through the GUID partition table: parsing any finished image
/// (checksums validated) yields exactly one entry, typed as the EFI System
/// Partition, whose block span is the planner's.
pub proof fn lemma_built_gpt_round_trip(
    exec: Seq<u8>,
    align: u64,
    cluster: u32,
    layout: ImageLayout,
    img: Seq<u8>,
    rr: Result<Vec<GptEntry>, BuildError>,
)
    ensures
        (built_image_post(exec, align, cluster, layout, img) && gpt_entries_post(img, rr)) ==> (rr
            is Ok && rr->Ok_0@ == seq![
            GptEntry {
                first_lba: layout.plan.first_lba() as u64,
                last_lba: layout.plan.last_lba() as u64,
                efi: true,
            },
        ]),
{
    if built_image_post(exec, align, cluster, layout, img) && gpt_entries_post(img, rr) {
        let f = layout.plan.first_lba();
        let l = layout.plan.last_lba();
        assert(gpt_round_trip_src(
            img,
            spec_mbr_image(layout),
            f,
            l,
            DISK_GUID,
            PART_GUID,
            spec_partition_name(),
        ));
    }
}

/// Round trip through the volume: opening any finished image at the
/// partition's byte range and reading `EFI/BOOT/BOOTX64.EFI` gives back the
/// input executable, byte for byte.
pub proof fn lemma_built_volume_round_trip(
    exec: Seq<u8>,
    align: u64,
    cluster: u32,
    layout: ImageLayout,
    img: Seq<u8>,
    rr: Result<Vec<u8>, BuildError>,
)
    ensures
        (built_image_post(exec, align, cluster, layout, img) && boot_file_read_post(
            img,
            layout.plan.start_offset as int,
            layout.plan.end_offset(),
            rr,
        )) ==> (rr is Ok && rr->Ok_0@ == exec),
{
    if built_image_post(exec, align, cluster, layout, img) && boot_file_read_post(
        img,
        layout.plan.start_offset as int,
        layout.plan.end_offset(),
        rr,
    ) {
        assert(fat_round_trip_src(
            img,
            layout.plan.start_offset as int,
            layout.plan.end_offset(),
            spec_efi_dir(),
            spec_boot_dir(),
            spec_boot_file_name(),
            spec_gpt_image(layout),
            cluster,
            exec,
        ));
    }
}

/// Idempotence: two builds from identical inputs that both succeeded agree
/// on the layout and on every byte of the image.
pub proof fn lemma_build_deterministic(
    exec: Seq<u8>,
    align: u64,
    cluster: u32,
    layout1: ImageLayout,
    img1: Seq<u8>,
    layout2: ImageLayout,
    img2: Seq<u8>,
)
    ensures
        (built_image_post(exec, align, cluster, layout1, img1) && built_image_post(
            exec,
            align,
            cluster,
            layout2,
            img2,
        )) ==> (layout1 == layout2 && img1 == img2),
{
}

} // verus!
