use bootimg::errors::BuildError;
use bootimg::gpt_table::commit_gpt;
use bootimg::gpt_table::read_gpt_entries;
use bootimg::layout::plan_layout;
use bootimg::layout::PartitionPlan;
use bootimg::layout::SECTOR_SIZE;
use bootimg::mbr::parse_protective_mbr;
use bootimg::mbr::write_protective_mbr;
use bootimg::pipeline::build_and_read_back;
use bootimg::pipeline::build_image;
use bootimg::pipeline::zeroed_image;
use bootimg::volume::embed_boot_file;
use bootimg::volume::format_partition;
use bootimg::volume::read_boot_file;

fn sample_executable(n: usize) -> Vec<u8> {
    let mut v = Vec::with_capacity(n);
    for i in 0..n {
        v.push((i % 251) as u8);
    }
    v
}

#[test]
fn planner_start_is_aligned_and_image_holds_partition() {
    for (exec, align) in [
        (0u64, 34u64),
        (1, 34),
        (131072, 34),
        (131073, 40),
        (1048576, 64),
        (12345678, 2048),
        (64 * 1024 * 1024, 34),
    ] {
        let layout = plan_layout(exec, align).expect("valid inputs must plan");
        assert_eq!(layout.plan.start_offset % (align * SECTOR_SIZE), 0);
        assert_eq!(layout.plan.start_offset, align * SECTOR_SIZE);
        assert!(
            layout.plan.start_offset + layout.plan.size_bytes
                <= layout.geometry.total_sectors * SECTOR_SIZE
        );
        assert!(layout.plan.size_bytes >= exec.max(131072));
        assert_eq!(layout.plan.size_bytes % SECTOR_SIZE, 0);
    }
}

#[test]
fn planner_rejects_bad_alignment() {
    assert_eq!(plan_layout(1000, 0).unwrap_err(), BuildError::InvalidAlignment);
    assert_eq!(plan_layout(1000, 33).unwrap_err(), BuildError::InvalidAlignment);
    assert_eq!(plan_layout(1000, 65537).unwrap_err(), BuildError::InvalidAlignment);
    assert!(plan_layout(1000, 34).is_ok());
    assert!(plan_layout(1000, 65536).is_ok());
}

#[test]
fn planner_rejects_oversized_executable() {
    assert_eq!(
        plan_layout(64 * 1024 * 1024 + 1, 34).unwrap_err(),
        BuildError::ExecutableTooLarge
    );
    assert!(plan_layout(64 * 1024 * 1024, 34).is_ok());
}

#[test]
fn protective_mbr_round_trip() {
    let exec = sample_executable(1000);
    let out = build_image(&exec, 34, 512).expect("build must succeed");
    let records = parse_protective_mbr(&out.bytes).expect("signature must be present");
    assert_eq!(records.len(), 1);
    assert_eq!(records[0].os_type, 0xEE);
    assert_eq!(records[0].start_lba, 1);
    assert_eq!(records[0].sectors as u64, out.layout.geometry.total_sectors - 1);
    assert_eq!(out.bytes[510], 0x55);
    assert_eq!(out.bytes[511], 0xAA);
}

#[test]
fn gpt_round_trip() {
    let exec = sample_executable(1000);
    let out = build_image(&exec, 34, 512).expect("build must succeed");
    // The primary header magic sits at the start of sector 1.
    assert_eq!(&out.bytes[512..520], b"EFI PART");
    let entries = read_gpt_entries(&out.bytes).expect("table must parse with valid checksums");
    assert_eq!(entries.len(), 1);
    assert!(entries[0].efi);
    assert_eq!(entries[0].first_lba * SECTOR_SIZE, out.layout.plan.start_offset);
    assert_eq!(
        (entries[0].last_lba + 1) * SECTOR_SIZE,
        out.layout.plan.start_offset + out.layout.plan.size_bytes
    );
}

#[test]
fn volume_round_trip() {
    let exec = sample_executable(50000);
    let out = build_image(&exec, 34, 512).expect("build must succeed");
    let back = read_boot_file(&out.bytes, &out.layout.plan).expect("file must read back");
    assert_eq!(back.len(), exec.len());
    assert_eq!(back, exec);
}

#[test]
fn volume_round_trip_megabyte() {
    let exec = sample_executable(1048576);
    let out = build_image(&exec, 34, 512).expect("build must succeed");
    let back = read_boot_file(&out.bytes, &out.layout.plan).expect("file must read back");
    assert_eq!(back, exec);
}

#[test]
fn build_is_idempotent() {
    let exec = sample_executable(131072);
    let first = build_image(&exec, 34, 512).expect("build must succeed");
    let second = build_image(&exec, 34, 512).expect("build must succeed");
    assert_eq!(first.layout, second.layout);
    assert_eq!(first.bytes, second.bytes);
}

#[test]
fn oversized_executable_fails_with_capacity_error_and_no_output() {
    let exec = sample_executable(64 * 1024 * 1024 + 1);
    match build_image(&exec, 34, 512) {
        Ok(_) => panic!("an executable past the capacity limit must not build"),
        Err(e) => assert_eq!(e, BuildError::ExecutableTooLarge),
    }
}

#[test]
fn scenario_128kib_default_alignment() {
    let exec = sample_executable(131072);
    let out = build_image(&exec, 34, 512).expect("build must succeed");
    // Alignment gap of 34 sectors, a 512-sector partition, 256 sectors of
    // trailing reserve.
    assert_eq!(out.layout.plan.start_offset, 17408);
    assert_eq!(out.layout.plan.size_bytes, 262144);
    let total_bytes = 17408 + 262144 + 131072;
    assert_eq!(out.layout.geometry.total_sectors * SECTOR_SIZE, total_bytes);
    assert_eq!(out.bytes.len() as u64, total_bytes);
    // Protective record spans LBA 1 to the last sector of the image.
    let records = parse_protective_mbr(&out.bytes).unwrap();
    assert_eq!(records[0].sectors as u64, total_bytes / 512 - 1);
    // GPT entry starts at LBA 34.
    let entries = read_gpt_entries(&out.bytes).unwrap();
    assert_eq!(entries[0].first_lba, 34);
    // The volume holds BOOTX64.EFI of exactly 131072 bytes.
    let back = read_boot_file(&out.bytes, &out.layout.plan).unwrap();
    assert_eq!(back.len(), 131072);
    assert_eq!(back, exec);
}

#[test]
fn bad_cluster_sizes_are_rejected() {
    let exec = sample_executable(1000);
    assert_eq!(build_image(&exec, 34, 0).unwrap_err(), BuildError::InvalidClusterSize);
    assert_eq!(build_image(&exec, 34, 256).unwrap_err(), BuildError::InvalidClusterSize);
    assert_eq!(build_image(&exec, 34, 513).unwrap_err(), BuildError::InvalidClusterSize);
    // A power of two past 64 KiB would not fit the one-byte
    // sectors-per-cluster field and is refused up front.
    assert_eq!(build_image(&exec, 34, 131072).unwrap_err(), BuildError::InvalidClusterSize);
    assert!(build_image(&exec, 34, 1024).is_ok());
}

#[test]
fn unmountable_boot_sector_is_refused_before_the_library_sees_it() {
    let layout = plan_layout(1000, 34).unwrap();
    let mut img = zeroed_image((layout.geometry.total_sectors * SECTOR_SIZE) as usize);
    // Craft a boot sector that claims FAT32 shape (16-bit sectors-per-FAT
    // zero) with 255 tables of an enormous sectors-per-FAT.
    let base = layout.plan.start_offset as usize;
    img[base + 16] = 255;
    for i in 0..4 {
        img[base + 36 + i] = 0xFF;
    }
    let contents = sample_executable(100);
    assert_eq!(
        embed_boot_file(img, &layout.plan, &contents).unwrap_err(),
        BuildError::VolumeUnmountable
    );
}

#[test]
fn misaligned_start_is_rejected_not_rounded() {
    let layout = plan_layout(1000, 34).unwrap();
    let img = zeroed_image((layout.geometry.total_sectors * SECTOR_SIZE) as usize);
    let bad_plan = PartitionPlan {
        start_offset: layout.plan.start_offset + 512,
        size_bytes: layout.plan.size_bytes,
        alignment_sectors: 34,
    };
    assert_eq!(commit_gpt(img, &bad_plan).unwrap_err(), BuildError::MisalignedStart);
}

#[test]
fn partition_overlapping_table_is_rejected() {
    let img = zeroed_image(1024 * 1024);
    let plan = PartitionPlan { start_offset: 512, size_bytes: 512, alignment_sectors: 1 };
    assert_eq!(commit_gpt(img, &plan).unwrap_err(), BuildError::PartitionOutOfRange);
}

#[test]
fn format_range_past_image_end_is_rejected() {
    let img = zeroed_image(1024);
    let plan = PartitionPlan {
        start_offset: 17408,
        size_bytes: 262144,
        alignment_sectors: 34,
    };
    assert_eq!(
        format_partition(img, &plan, 512).unwrap_err(),
        BuildError::PartitionOutOfRange
    );
}

#[test]
fn embedding_more_than_the_volume_holds_is_a_capacity_error() {
    let layout = plan_layout(1000, 34).unwrap();
    let img = zeroed_image((layout.geometry.total_sectors * SECTOR_SIZE) as usize);
    let img = format_partition(img, &layout.plan, 512).expect("format must succeed");
    let oversized = sample_executable(600000);
    assert_eq!(
        embed_boot_file(img, &layout.plan, &oversized).unwrap_err(),
        BuildError::VolumeCapacity
    );
}

#[test]
fn mbr_writer_needs_one_sector() {
    let mut empty: Vec<u8> = Vec::new();
    assert_eq!(write_protective_mbr(&mut empty, 0).unwrap_err(), BuildError::ImageTooSmall);
}

#[test]
fn mbr_parser_rejects_short_or_unsigned_buffers() {
    let short = vec![0u8; 100];
    assert_eq!(parse_protective_mbr(&short).unwrap_err(), BuildError::ImageTooSmall);
    let unsigned = vec![0u8; 512];
    assert_eq!(
        parse_protective_mbr(&unsigned).unwrap_err(),
        BuildError::MissingBootSignature
    );
}

#[test]
fn build_and_read_back_returns_the_executable() {
    let exec = sample_executable(20000);
    let (out, back) = build_and_read_back(&exec, 34, 512).expect("build must succeed");
    assert_eq!(back, exec);
    assert_eq!(out.bytes.len() as u64, out.layout.geometry.total_sectors * SECTOR_SIZE);
    assert_eq!(
        build_and_read_back(&exec, 33, 512).unwrap_err(),
        BuildError::InvalidAlignment
    );
}

#[test]
fn error_descriptions_name_the_stage() {
    assert_eq!(
        BuildError::InvalidAlignment.describe(),
        "partition alignment cannot hold the GPT metadata"
    );
    assert_eq!(
        BuildError::ExecutableTooLarge.describe(),
        "boot executable exceeds the largest supported layout"
    );
    assert_eq!(
        BuildError::MissingBootSignature.describe(),
        "boot signature 0x55AA is absent"
    );
    assert!(!BuildError::VolumeCapacity.describe().is_empty());
    assert!(!BuildError::VolumeUnmountable.describe().is_empty());
    assert!(!BuildError::GptWriteFailed.describe().is_empty());
}

#[test]
fn wider_alignment_moves_the_partition() {
    let exec = sample_executable(4096);
    let out = build_image(&exec, 64, 1024).expect("build must succeed");
    assert_eq!(out.layout.plan.start_offset, 64 * SECTOR_SIZE);
    let entries = read_gpt_entries(&out.bytes).unwrap();
    assert_eq!(entries[0].first_lba, 64);
    assert!(entries[0].efi);
    let back = read_boot_file(&out.bytes, &out.layout.plan).unwrap();
    assert_eq!(back, exec);
}
