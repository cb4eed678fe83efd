use vstd::prelude::*;

use crate::errors::BuildError;
use crate::layout::SECTOR_SIZE;

verus! {

/// One partition record of the legacy table at sector 0, reduced to the
/// fields the protective scheme cares about.
#[derive(Clone, Copy, Debug, PartialEq, Eq, Structural)]
pub struct MbrPartRecord {
    /// Partition type byte; `0xEE` marks the GPT-protective partition.
    pub os_type: u8,
    /// First logical block of the partition.
    pub start_lba: u32,
    /// Number of sectors the partition spans.
    pub sectors: u32,
}

/// A 16-bit value from two little-endian bytes.
pub open spec fn spec_le16(b0: u8, b1: u8) -> u16 {
    (b0 as u16) | ((b1 as u16) << 8)
}

/// A 16-bit value from two little-endian bytes.
pub fn le16(b0: u8, b1: u8) -> (r: u16)
    ensures
        r == spec_le16(b0, b1),
{
    (b0 as u16) | ((b1 as u16) << 8)
}

/// A 32-bit value from four little-endian bytes.
pub open spec fn spec_le32(b0: u8, b1: u8, b2: u8, b3: u8) -> u32 {
    (b0 as u32) | ((b1 as u32) << 8) | ((b2 as u32) << 16) | ((b3 as u32) << 24)
}

/// The sector count the protective partition record carries: the whole disk
/// past sector 0, saturating at the 32-bit limit.
pub open spec fn spec_protective_sectors(total_sectors: u64) -> u32 {
    if total_sectors - 1 > 0xFFFF_FFFF {
        0xFFFF_FFFFu32
    } else {
        (total_sectors - 1) as u32
    }
}

/// Byte `i` of the protective MBR sector: 440 bytes of zeroed boot code, a
/// zero disk signature, one protective partition record (type `0xEE`,
/// starting at LBA 1, `ps` sectors long, maximal CHS end address), three
/// all-zero records, and the `0x55AA` boot signature.
pub open spec fn spec_mbr_byte(ps: u32, i: int) -> u8 {
    if i == 448 {
        0x02u8
    } else if i == 450 {
        0xEEu8
    } else if i == 451 || i == 452 || i == 453 {
        0xFFu8
    } else if i == 454 {
        0x01u8
    } else if i == 458 {
        (ps & 0xFF) as u8
    } else if i == 459 {
        ((ps >> 8) & 0xFF) as u8
    } else if i == 460 {
        ((ps >> 16) & 0xFF) as u8
    } else if i == 461 {
        ((ps >> 24) & 0xFF) as u8
    } else if i == 510 {
        0x55u8
    } else if i == 511 {
        0xAAu8
    } else {
        0x00u8
    }
}

/// The full 512-byte protective MBR sector for a protective span of `ps`
/// sectors.
pub open spec fn spec_protective_mbr(ps: u32) -> Seq<u8> {
    Seq::new(512, |i: int| spec_mbr_byte(ps, i))
}

/// The partition record at slot `idx` (0 to 3) of the table at the front of
/// `s`, as the legacy layout stores it: 16 bytes each from offset 446, with
/// the type byte fifth and the two 32-bit fields little-endian at the end.
pub open spec fn spec_mbr_record(s: Seq<u8>, idx: int) -> MbrPartRecord {
    let off = 446 + 16 * idx;
    MbrPartRecord {
        os_type: s[off + 4],
        start_lba: spec_le32(s[off + 8], s[off + 9], s[off + 10], s[off + 11]),
        sectors: spec_le32(s[off + 12], s[off + 13], s[off + 14], s[off + 15]),
    }
}

/// The used records among the first `n` slots, in slot order. A slot is used
/// when its type byte is nonzero.
pub open spec fn spec_used_records(s: Seq<u8>, n: int) -> Seq<MbrPartRecord>
    decreases n,
{
    if n <= 0 {
        Seq::empty()
    } else {
        let rest = spec_used_records(s, n - 1);
        let rec = spec_mbr_record(s, n - 1);
        if rec.os_type != 0 {
            rest.push(rec)
        } else {
            rest
        }
    }
}

/// Relies on `gpt::mbr::ProtectiveMBR::with_lb_size` and `overwrite_lba0`:
/// together they overwrite exactly the first 512 bytes of the device with
/// zeroed boot code and disk signature, one protective record (type `0xEE`,
/// start LBA 1, `protective_sectors` sectors, CHS start 0/2/0 and end
/// maximal), three zero records, and the `0x55AA` signature. Serializing is
/// in-memory and the write goes through a cursor into a buffer of at least
/// one sector, so the call cannot fail.
#[verifier::external_body]
fn write_mbr_lba0(img: &mut Vec<u8>, protective_sectors: u32) -> (r: Result<(), std::io::Error>)
    requires
        old(img)@.len() >= 512,
    ensures
        r is Ok,
        final(img)@ == spec_protective_mbr(protective_sectors) + old(img)@.skip(512),
{
    let mbr = gpt::mbr::ProtectiveMBR::with_lb_size(protective_sectors);
    let mut cur = std::io::Cursor::new(&mut *img);
    mbr.overwrite_lba0(&mut cur).map(|_n| ())
}

/// What a successful protective-MBR write leaves behind: the canonical
/// protective sector in front, everything after the first sector untouched.
pub open spec fn mbr_post(img0: Seq<u8>, img1: Seq<u8>, total_sectors: u64) -> bool {
    img1 == spec_protective_mbr(spec_protective_sectors(total_sectors)) + img0.skip(512)
}

/// The Protective MBR Writer: overwrites sector 0 of the image with a legacy
/// table describing the disk as one GPT-protective partition of type `0xEE`
/// starting at LBA 1 and spanning `min(total_sectors - 1, 0xFFFFFFFF)`
/// sectors. An image without even one sector cannot carry a boot record and
/// is fatal.
pub fn write_protective_mbr(img: &mut Vec<u8>, total_sectors: u64) -> (r: Result<(), BuildError>)
    requires
        old(img)@.len() == total_sectors * SECTOR_SIZE,
    ensures
        (total_sectors == 0) <==> r == Err::<(), BuildError>(BuildError::ImageTooSmall),
        r is Err ==> r == Err::<(), BuildError>(BuildError::ImageTooSmall),
        total_sectors != 0 ==> (r is Ok && mbr_post(old(img)@, final(img)@, total_sectors)),
{
    if total_sectors == 0 {
        return Err(BuildError::ImageTooSmall);
    }
    let ps: u32 = if total_sectors - 1 > 0xFFFF_FFFF {
        0xFFFF_FFFFu32
    } else {
        (total_sectors - 1) as u32
    };
    let _ = write_mbr_lba0(img, ps);
    Ok(())
}

/// Parses the legacy partition table at the front of `buf` and returns the
/// used records in slot order. A buffer shorter than one sector and a
/// missing `0x55AA` boot signature are reported apart, each naming its own
/// violated constraint.
pub fn parse_protective_mbr(buf: &Vec<u8>) -> (r: Result<Vec<MbrPartRecord>, BuildError>)
    ensures
        r is Ok <==> (buf@.len() >= 512 && buf@[510] == 0x55 && buf@[511] == 0xAA),
        (buf@.len() < 512) <==> r == Err::<Vec<MbrPartRecord>, BuildError>(
            BuildError::ImageTooSmall,
        ),
        (buf@.len() >= 512 && !(buf@[510] == 0x55 && buf@[511] == 0xAA)) <==> r == Err::<
            Vec<MbrPartRecord>,
            BuildError,
        >(BuildError::MissingBootSignature),
        r is Ok ==> r->Ok_0@ == spec_used_records(buf@, 4),
{
    if buf.len() < 512 {
        return Err(BuildError::ImageTooSmall);
    }
    if !(buf[510] == 0x55 && buf[511] == 0xAA) {
        return Err(BuildError::MissingBootSignature);
    }
    let mut records: Vec<MbrPartRecord> = Vec::new();
    let mut slot: usize = 0;
    while slot < 4
        invariant
            buf@.len() >= 512,
            0 <= slot <= 4,
            records@ == spec_used_records(buf@, slot as int),
        decreases 4 - slot,
    {
        let off: usize = 446 + 16 * slot;
        let os_type = buf[off + 4];
        if os_type != 0 {
            let start_lba = le32(buf[off + 8], buf[off + 9], buf[off + 10], buf[off + 11]);
            let sectors = le32(buf[off + 12], buf[off + 13], buf[off + 14], buf[off + 15]);
            records.push(MbrPartRecord { os_type, start_lba, sectors });
        }
        slot = slot + 1;
    }
    Ok(records)
}

/// A 32-bit value from four little-endian bytes.
pub fn le32(b0: u8, b1: u8, b2: u8, b3: u8) -> (r: u32)
    ensures
        r == spec_le32(b0, b1, b2, b3),
{
    (b0 as u32) | ((b1 as u32) << 8) | ((b2 as u32) << 16) | ((b3 as u32) << 24)
}

/// Splitting a 32-bit value into little-endian bytes and reassembling them
/// gives the value back.
proof fn lemma_le32_recompose(x: u32)
    ensures
        spec_le32((x & 0xFF) as u8, ((x >> 8) & 0xFF) as u8, ((x >> 16) & 0xFF) as u8, ((x >> 24)
            & 0xFF) as u8) == x,
{
    assert((((x & 0xFF) as u8) as u32) | ((((x >> 8) & 0xFF) as u8) as u32) << 8 | ((((x >> 16)
        & 0xFF) as u8) as u32) << 16 | ((((x >> 24) & 0xFF) as u8) as u32) << 24 == x)
        by (bit_vector);
}

/// The protective-MBR round trip: any image whose first sector is the
/// canonical protective sector for `ps` carries the boot signature, and its
/// legacy table holds exactly one used record, of type `0xEE`, starting at
/// LBA 1 and spanning `ps` sectors.
pub proof fn lemma_mbr_round_trip(ps: u32, img: Seq<u8>)
    ensures
        (img.len() >= 512 && img.subrange(0, 512) == spec_protective_mbr(ps)) ==> {
            &&& img[510] == 0x55
            &&& img[511] == 0xAA
            &&& spec_used_records(img, 4) == seq![
                MbrPartRecord { os_type: 0xEE, start_lba: 1, sectors: ps },
            ]
        },
{
    if img.len() >= 512 && img.subrange(0, 512) == spec_protective_mbr(ps) {
        assert forall|i: int| 0 <= i < 512 implies img[i] == spec_mbr_byte(ps, i) by {
            assert(img.subrange(0, 512)[i] == img[i]);
        }
        lemma_le32_recompose(ps);
        assert((1u8 as u32) | ((0u8 as u32) << 8) | ((0u8 as u32) << 16) | ((0u8 as u32) << 24)
            == 1u32) by (bit_vector);
        reveal_with_fuel(spec_used_records, 5);
        assert(spec_mbr_record(img, 0) == MbrPartRecord {
            os_type: 0xEE,
            start_lba: 1,
            sectors: ps,
        });
        assert(spec_mbr_record(img, 1).os_type == 0);
        assert(spec_mbr_record(img, 2).os_type == 0);
        assert(spec_mbr_record(img, 3).os_type == 0);
        assert(spec_used_records(img, 4) =~= seq![
            MbrPartRecord { os_type: 0xEE, start_lba: 1, sectors: ps },
        ]);
    }
}

} // verus!
