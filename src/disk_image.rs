//! Synthesis and parsing of SunPCi hard-disk images.
//!
//! A new image holds an MBR whose bytes 12 to 25 carry the SunPCi magic, a
//! format revision and the CHS geometry, one active primary partition, a FAT
//! boot sector at the start of that partition, two FAT copies and an empty
//! root directory. All multi-byte fields are little-endian.
use vstd::prelude::*;

verus! {

/// "SPCI", stored little-endian at offset 12 of the MBR.
pub const SUNPCI_MAGIC: u32 = 0x53504349;

/// Bytes per sector.
pub const SECTOR_SIZE: u32 = 512;

/// Sectors per track of every synthesized geometry.
pub const SECTORS_PER_TRACK: u8 = 63;

/// Highest cylinder count that CHS addressing can reach.
pub const MAX_CYLINDERS: u16 = 1024;

/// Entries in the root directory.
pub const ROOT_DIR_ENTRIES: u32 = 512;

/// Bytes of one root directory entry.
pub const DIR_ENTRY_SIZE: u32 = 32;

/// Heads chosen for a capacity in MB.
pub open spec fn heads_for(size_mb: u32) -> u8 {
    if size_mb <= 504 {
        16
    } else if size_mb <= 1008 {
        32
    } else if size_mb <= 2016 {
        64
    } else if size_mb <= 4032 {
        128
    } else {
        255
    }
}

/// Cylinders chosen for a capacity in MB: whole cylinders of
/// `heads * 63` sectors that fit the capacity, at most 1024.
pub open spec fn cylinders_for(size_mb: u32) -> u16 {
    let c = (size_mb as int * 2048) / (heads_for(size_mb) as int * 63);
    if c < 1024 {
        c as u16
    } else {
        1024
    }
}

/// The geometry (cylinders, heads, sectors per track) for a capacity in MB.
pub open spec fn spec_geometry(size_mb: u32) -> (u16, u8, u8) {
    (cylinders_for(size_mb), heads_for(size_mb), 63u8)
}

/// Sectors of the image synthesized for a capacity.
pub open spec fn image_sectors(size_mb: u32) -> int {
    cylinders_for(size_mb) as int * heads_for(size_mb) as int * 63
}

/// Bytes of the image synthesized for a capacity.
pub open spec fn image_bytes(size_mb: u32) -> int {
    image_sectors(size_mb) * 512
}

/// Computes the CHS geometry (cylinders, heads, sectors per track) for a
/// capacity in MB.
pub fn calculate_geometry(size_mb: u32) -> (r: (u16, u8, u8))
    ensures
        r == spec_geometry(size_mb),
        r.1 == 16 || r.1 == 32 || r.1 == 64 || r.1 == 128 || r.1 == 255,
        r.0 <= 1024,
        r.2 == 63,
{
    let total_sectors: u64 = size_mb as u64 * 2048;
    let sectors_per_track: u8 = SECTORS_PER_TRACK;
    let heads: u8 = if size_mb <= 504 {
        16
    } else if size_mb <= 1008 {
        32
    } else if size_mb <= 2016 {
        64
    } else if size_mb <= 4032 {
        128
    } else {
        255
    };
    let per_cylinder: u64 = heads as u64 * 63;
    let cylinders_wide: u64 = total_sectors / per_cylinder;
    let cylinders: u16 = if cylinders_wide < MAX_CYLINDERS as u64 {
        cylinders_wide as u16
    } else {
        MAX_CYLINDERS
    };
    (cylinders, heads, sectors_per_track)
}

/// Whole cylinders cover at least one cylinder from 1 MB on.
proof fn lemma_geometry_bounds(size_mb: u32)
    requires
        size_mb >= 1,
    ensures
        1 <= cylinders_for(size_mb) <= 1024,
        image_sectors(size_mb) >= 63 * 16,
        image_sectors(size_mb) <= 1024 * 255 * 63,
{
    let h = heads_for(size_mb) as int;
    let n = size_mb as int * 2048;
    assert(h * 63 <= n) by {
        if size_mb <= 504 {
        } else {
            assert(h <= 255);
        }
    }
    assert(n / (h * 63) >= 1) by (nonlinear_arith)
        requires
            h * 63 <= n,
            h >= 16,
    ;
    let c = cylinders_for(size_mb) as int;
    assert(c * h * 63 >= 63 * 16) by (nonlinear_arith)
        requires
            c >= 1,
            h >= 16,
    ;
    assert(c * h * 63 <= 1024 * 255 * 63) by (nonlinear_arith)
        requires
            1 <= c <= 1024,
            16 <= h <= 255,
    ;
}


/// `n` zero bytes.
pub open spec fn zeros(n: int) -> Seq<u8> {
    Seq::new(n as nat, |i: int| 0u8)
}

/// Little-endian encoding of a 16-bit value.
pub open spec fn le16(v: int) -> Seq<u8> {
    seq![(v % 0x100) as u8, (v / 0x100 % 0x100) as u8]
}

/// Little-endian encoding of a 32-bit value.
pub open spec fn le32(v: int) -> Seq<u8> {
    seq![
        (v % 0x100) as u8,
        (v / 0x100 % 0x100) as u8,
        (v / 0x1_0000 % 0x100) as u8,
        (v / 0x100_0000 % 0x100) as u8,
    ]
}

/// Appends `bytes` to `v`.
fn push_bytes(v: &mut Vec<u8>, bytes: &[u8])
    ensures
        final(v)@ == old(v)@ + bytes@,
{
    let mut i: usize = 0;
    while i < bytes.len()
        invariant
            0 <= i <= bytes@.len(),
            v@ == old(v)@ + bytes@.subrange(0, i as int),
        decreases bytes@.len() - i,
    {
        v.push(bytes[i]);
        i = i + 1;
        assert(v@ =~= old(v)@ + bytes@.subrange(0, i as int));
    }
    assert(bytes@.subrange(0, bytes@.len() as int) =~= bytes@);
}

/// Appends `n` zero bytes to `v`.
fn push_zeros(v: &mut Vec<u8>, n: usize)
    ensures
        final(v)@ == old(v)@ + zeros(n as int),
{
    let mut i: usize = 0;
    while i < n
        invariant
            0 <= i <= n,
            v@ == old(v)@ + zeros(i as int),
        decreases n - i,
    {
        v.push(0);
        i = i + 1;
        assert(v@ =~= old(v)@ + zeros(i as int));
    }
}

/// Appends a 16-bit value, little-endian.
fn push_le16(v: &mut Vec<u8>, x: u16)
    ensures
        final(v)@ == old(v)@ + le16(x as int),
{
    let lo = (x & 0xFF) as u8;
    let hi = (x >> 8u16) as u8;
    assert((x & 0xFF) as u8 == (x % 0x100) as u8) by (bit_vector);
    assert((x >> 8u16) as u8 == (x / 0x100 % 0x100) as u8) by (bit_vector);
    v.push(lo);
    v.push(hi);
    assert(v@ =~= old(v)@ + le16(x as int));
}

/// Appends a 32-bit value, little-endian.
fn push_le32(v: &mut Vec<u8>, x: u32)
    ensures
        final(v)@ == old(v)@ + le32(x as int),
{
    let b0 = (x & 0xFF) as u8;
    let b1 = ((x >> 8u32) & 0xFF) as u8;
    let b2 = ((x >> 16u32) & 0xFF) as u8;
    let b3 = ((x >> 24u32) & 0xFF) as u8;
    assert((x & 0xFF) as u8 == (x % 0x100) as u8) by (bit_vector);
    assert(((x >> 8u32) & 0xFF) as u8 == (x / 0x100 % 0x100) as u8) by (bit_vector);
    assert(((x >> 16u32) & 0xFF) as u8 == (x / 0x1_0000 % 0x100) as u8) by (bit_vector);
    assert(((x >> 24u32) & 0xFF) as u8 == (x / 0x100_0000 % 0x100) as u8) by (bit_vector);
    v.push(b0);
    v.push(b1);
    v.push(b2);
    v.push(b3);
    assert(v@ =~= old(v)@ + le32(x as int));
}

/// Partition type byte: FAT16 above 32 MB, FAT12 otherwise.
pub open spec fn partition_type_for(size_mb: u32) -> u8 {
    if size_mb > 32 {
        0x06
    } else {
        0x01
    }
}

/// Sectors of the partition: everything after the first track.
pub open spec fn partition_sectors(size_mb: u32) -> int {
    image_sectors(size_mb) - 63
}

/// Last cylinder reachable in CHS terms.
pub open spec fn end_cylinder(size_mb: u32) -> int {
    let c = cylinders_for(size_mb) as int - 1;
    if c < 1023 {
        c
    } else {
        1023
    }
}

/// The 16-byte entry of the single active primary partition.
pub open spec fn partition_entry(size_mb: u32) -> Seq<u8> {
    let end_cyl = end_cylinder(size_mb);
    seq![
        0x80u8,
        1u8,
        1u8,
        0u8,
        partition_type_for(size_mb),
        (heads_for(size_mb) - 1) as u8,
        (63 + (end_cyl / 256) * 64) as u8,
        (end_cyl % 256) as u8,
    ] + le32(63) + le32(partition_sectors(size_mb))
}

/// The 512-byte MBR of a new image: magic at 12, revision at 16 and 17,
/// geometry at 18 to 25, partition table at 0x1BE, signature at 510.
pub open spec fn spec_mbr(size_mb: u32, revision: u8) -> Seq<u8> {
    zeros(12) + le32(SUNPCI_MAGIC as int) + seq![revision, 0u8] + le16(cylinders_for(size_mb) as int)
        + seq![heads_for(size_mb), 63u8] + le32(image_sectors(size_mb)) + zeros(420)
        + partition_entry(size_mb) + zeros(48) + seq![0x55u8, 0xAAu8]
}

/// Builds the MBR of a new image.
pub fn build_mbr(size_mb: u32, revision: u8) -> (r: Vec<u8>)
    requires
        size_mb >= 1,
    ensures
        r@ == spec_mbr(size_mb, revision),
        r@.len() == 512,
{
    proof {
        lemma_geometry_bounds(size_mb);
    }
    let (cylinders, heads, sectors_per_track) = calculate_geometry(size_mb);
    let total_sectors: u32 = cylinders as u32 * heads as u32 * 63;
    let partition_start: u32 = sectors_per_track as u32;
    let partition_sectors: u32 = total_sectors - partition_start;
    let end_cyl: u16 = if cylinders - 1 < 1023 { cylinders - 1 } else { 1023 };
    let end_head: u8 = heads - 1;
    let chs_sector: u8 = 63 + ((end_cyl / 256) as u8) * 64;
    let chs_cyl_low: u8 = (end_cyl % 256) as u8;
    let part_type: u8 = if size_mb > 32 { 0x06 } else { 0x01 };

    let mut mbr: Vec<u8> = Vec::new();
    push_zeros(&mut mbr, 12);
    push_le32(&mut mbr, SUNPCI_MAGIC);
    push_bytes(&mut mbr, [revision, 0].as_slice());
    push_le16(&mut mbr, cylinders);
    push_bytes(&mut mbr, [heads, sectors_per_track].as_slice());
    push_le32(&mut mbr, total_sectors);
    push_zeros(&mut mbr, 420);
    push_bytes(&mut mbr, [0x80, 1, 1, 0, part_type, end_head, chs_sector, chs_cyl_low].as_slice());
    push_le32(&mut mbr, partition_start);
    push_le32(&mut mbr, partition_sectors);
    push_zeros(&mut mbr, 48);
    push_bytes(&mut mbr, [0x55, 0xAA].as_slice());
    assert(mbr@ =~= spec_mbr(size_mb, revision));
    mbr
}


/// Sectors per cluster: 8 above 256 MB, 4 otherwise.
pub open spec fn sectors_per_cluster_for(size_mb: u32) -> u8 {
    if size_mb > 256 {
        8
    } else {
        4
    }
}

/// Sectors of one FAT copy: two bytes per cluster, rounded up by one sector.
pub open spec fn sectors_per_fat_for(size_mb: u32) -> int {
    (partition_sectors(size_mb) / sectors_per_cluster_for(size_mb) as int) * 2 / 512 + 1
}

/// The 512-byte FAT boot sector written at the start of the partition.
pub open spec fn spec_boot_sector(size_mb: u32) -> Seq<u8> {
    let p = partition_sectors(size_mb);
    seq![0xEBu8, 0x3Cu8, 0x90u8] + seq![0x53u8, 0x55u8, 0x4Eu8, 0x50u8, 0x43u8, 0x49u8, 0x20u8, 0x20u8]
        + le16(512) + seq![sectors_per_cluster_for(size_mb)] + le16(1) + seq![2u8] + le16(512)
        + le16(if p <= 65535 { p } else { 0 }) + seq![0xF8u8] + le16(sectors_per_fat_for(size_mb))
        + le16(63) + le16(heads_for(size_mb) as int) + le32(63) + le32(if p > 65535 { p } else { 0 })
        + seq![0x80u8, 0u8, 0x29u8] + le32(0x12345678) + seq![
        0x4Eu8,
        0x4Fu8,
        0x20u8,
        0x4Eu8,
        0x41u8,
        0x4Du8,
        0x45u8,
        0x20u8,
        0x20u8,
        0x20u8,
        0x20u8,
    ] + seq![0x46u8, 0x41u8, 0x54u8, 0x31u8, 0x36u8, 0x20u8, 0x20u8, 0x20u8] + zeros(448) + seq![
        0x55u8,
        0xAAu8,
    ]
}

/// One FAT copy: the fixed-disk end-of-chain marker, then free clusters.
pub open spec fn spec_fat(size_mb: u32) -> Seq<u8> {
    seq![0xF8u8, 0xFFu8, 0xFFu8, 0xFFu8] + zeros(sectors_per_fat_for(size_mb) * 512 - 4)
}

/// Bounds on the partition and FAT sizes of a valid capacity.
proof fn lemma_partition_bounds(size_mb: u32)
    requires
        size_mb >= 1,
    ensures
        1 <= partition_sectors(size_mb) <= 1024 * 255 * 63 - 63,
        1 <= sectors_per_fat_for(size_mb) <= 16066,
{
    lemma_geometry_bounds(size_mb);
    let p = partition_sectors(size_mb);
    let spc = sectors_per_cluster_for(size_mb) as int;
    assert(p / spc <= p) by (nonlinear_arith)
        requires
            p >= 0,
            spc >= 4,
    ;
    assert(p / spc >= 0) by (nonlinear_arith)
        requires
            p >= 0,
            spc >= 4,
    ;
}

/// Builds the FAT boot sector of a new image.
pub fn build_boot_sector(size_mb: u32) -> (r: Vec<u8>)
    requires
        size_mb >= 1,
    ensures
        r@ == spec_boot_sector(size_mb),
        r@.len() == 512,
{
    proof {
        lemma_partition_bounds(size_mb);
    }
    let (cylinders, heads, sectors_per_track) = calculate_geometry(size_mb);
    let total_sectors: u32 = cylinders as u32 * heads as u32 * 63;
    let partition_start: u32 = sectors_per_track as u32;
    let partition_sectors: u32 = total_sectors - partition_start;
    let sectors_per_cluster: u8 = if size_mb > 256 { 8 } else { 4 };
    let sectors_per_fat: u16 = ((partition_sectors / sectors_per_cluster as u32) * 2 / 512 + 1) as u16;

    let mut boot: Vec<u8> = Vec::new();
    push_bytes(&mut boot, [0xEB, 0x3C, 0x90].as_slice());
    push_bytes(&mut boot, [0x53, 0x55, 0x4E, 0x50, 0x43, 0x49, 0x20, 0x20].as_slice());
    push_le16(&mut boot, 512);
    push_bytes(&mut boot, [sectors_per_cluster].as_slice());
    push_le16(&mut boot, 1);
    push_bytes(&mut boot, [2].as_slice());
    push_le16(&mut boot, 512);
    if partition_sectors <= 65535 {
        push_le16(&mut boot, partition_sectors as u16);
    } else {
        push_le16(&mut boot, 0);
    }
    push_bytes(&mut boot, [0xF8].as_slice());
    push_le16(&mut boot, sectors_per_fat);
    push_le16(&mut boot, sectors_per_track as u16);
    push_le16(&mut boot, heads as u16);
    push_le32(&mut boot, partition_start);
    if partition_sectors > 65535 {
        push_le32(&mut boot, partition_sectors);
    } else {
        push_le32(&mut boot, 0);
    }
    push_bytes(&mut boot, [0x80, 0, 0x29].as_slice());
    push_le32(&mut boot, 0x12345678);
    push_bytes(&mut boot, [0x4E, 0x4F, 0x20, 0x4E, 0x41, 0x4D, 0x45, 0x20, 0x20, 0x20, 0x20].as_slice());
    push_bytes(&mut boot, [0x46, 0x41, 0x54, 0x31, 0x36, 0x20, 0x20, 0x20].as_slice());
    push_zeros(&mut boot, 448);
    push_bytes(&mut boot, [0x55, 0xAA].as_slice());
    assert(boot@ =~= spec_boot_sector(size_mb));
    boot
}

/// Builds one FAT copy of a new image.
pub fn build_fat(size_mb: u32) -> (r: Vec<u8>)
    requires
        size_mb >= 1,
    ensures
        r@ == spec_fat(size_mb),
        r@.len() == sectors_per_fat_for(size_mb) * 512,
{
    proof {
        lemma_partition_bounds(size_mb);
    }
    let (cylinders, heads, _sectors_per_track) = calculate_geometry(size_mb);
    let total_sectors: u32 = cylinders as u32 * heads as u32 * 63;
    let partition_sectors: u32 = total_sectors - 63;
    let sectors_per_cluster: u32 = if size_mb > 256 { 8 } else { 4 };
    let sectors_per_fat: usize = ((partition_sectors / sectors_per_cluster) * 2 / 512 + 1) as usize;
    let mut fat: Vec<u8> = Vec::new();
    push_bytes(&mut fat, [0xF8, 0xFF, 0xFF, 0xFF].as_slice());
    push_zeros(&mut fat, sectors_per_fat * 512 - 4);
    fat
}


/// One write of an image: `bytes` at byte `offset` of the file.
#[derive(Debug, Clone)]
pub struct ImageWrite {
    pub offset: u64,
    pub bytes: Vec<u8>,
}

/// Everything needed to write a new image file: its geometry, its length and
/// the writes that fill it, in order. Whatever no write covers stays zero.
#[derive(Debug, Clone)]
pub struct DiskImageLayout {
    pub cylinders: u16,
    pub heads: u8,
    pub sectors_per_track: u8,
    pub total_sectors: u32,
    pub total_bytes: u64,
    pub writes: Vec<ImageWrite>,
}

/// Byte offset of the boot sector: the partition starts after the first track.
pub open spec fn boot_offset() -> int {
    63int * 512
}

/// Bytes of one FAT copy.
pub open spec fn fat_bytes(size_mb: u32) -> int {
    sectors_per_fat_for(size_mb) * 512
}

impl DiskImageLayout {
    /// This layout is the one for `size_mb` and `revision`: the MBR at 0, the
    /// boot sector at the partition start, two FAT copies and the empty root
    /// directory right after it, and a last zero byte that sets the length.
    pub open spec fn is_layout_of(&self, size_mb: u32, revision: u8) -> bool {
        let w = self.writes@;
        let fat_at = boot_offset() + 512;
        let root_at = fat_at + 2 * fat_bytes(size_mb);
        &&& self.cylinders == cylinders_for(size_mb)
        &&& self.heads == heads_for(size_mb)
        &&& self.sectors_per_track == 63
        &&& self.total_sectors as int == image_sectors(size_mb)
        &&& self.total_bytes as int == image_bytes(size_mb)
        &&& w.len() == 6
        &&& w[0].offset == 0 && w[0].bytes@ == spec_mbr(size_mb, revision)
        &&& w[1].offset == boot_offset() && w[1].bytes@ == spec_boot_sector(size_mb)
        &&& w[2].offset == fat_at && w[2].bytes@ == spec_fat(size_mb)
        &&& w[3].offset == fat_at + fat_bytes(size_mb) && w[3].bytes@ == spec_fat(size_mb)
        &&& w[4].offset == root_at && w[4].bytes@ == zeros(512int * 32)
        &&& w[5].offset == image_bytes(size_mb) - 1 && w[5].bytes@ == seq![0u8]
    }
}

/// Lays out a new image of `size_mb` MB with format revision `revision`.
pub fn plan_disk_image(size_mb: u32, revision: u8) -> (r: DiskImageLayout)
    requires
        size_mb >= 1,
    ensures
        r.is_layout_of(size_mb, revision),
{
    proof {
        lemma_partition_bounds(size_mb);
    }
    let (cylinders, heads, sectors_per_track) = calculate_geometry(size_mb);
    let total_sectors: u32 = cylinders as u32 * heads as u32 * 63;
    let total_bytes: u64 = total_sectors as u64 * SECTOR_SIZE as u64;
    let boot_at: u64 = sectors_per_track as u64 * SECTOR_SIZE as u64;
    let fat = build_fat(size_mb);
    let fat_len: u64 = fat.len() as u64;
    let fat1_at: u64 = boot_at + SECTOR_SIZE as u64;
    let fat2_at: u64 = fat1_at + fat_len;
    let root_at: u64 = fat2_at + fat_len;
    let mut root_dir: Vec<u8> = Vec::new();
    push_zeros(&mut root_dir, (ROOT_DIR_ENTRIES * DIR_ENTRY_SIZE) as usize);

    let mut writes: Vec<ImageWrite> = Vec::new();
    writes.push(ImageWrite { offset: 0, bytes: build_mbr(size_mb, revision) });
    writes.push(ImageWrite { offset: boot_at, bytes: build_boot_sector(size_mb) });
    writes.push(ImageWrite { offset: fat1_at, bytes: fat.clone() });
    writes.push(ImageWrite { offset: fat2_at, bytes: fat });
    writes.push(ImageWrite { offset: root_at, bytes: root_dir });
    writes.push(ImageWrite { offset: total_bytes - 1, bytes: vec![0u8] });
    let r = DiskImageLayout {
        cylinders,
        heads,
        sectors_per_track,
        total_sectors,
        total_bytes,
        writes,
    };
    assert(r.writes@[5].bytes@ =~= seq![0u8]);
    r
}


/// Why an image header could not be read.
#[derive(Debug, Clone, Copy, PartialEq, Eq, Structural)]
pub enum HeaderError {
    /// Fewer than 512 bytes were available.
    TooShort,
    /// Bytes 510 and 511 are not 0x55, 0xAA.
    BadSignature,
}

/// What a disk image header says about the image.
#[derive(Debug, Clone, Copy)]
pub struct DiskInfo {
    /// The SunPCi magic is present.
    pub is_sunpci: bool,
    /// File size in whole MB.
    pub size_mb: u32,
    /// SunPCi format revision; 0 for a foreign image.
    pub revision: u8,
    pub cylinders: u16,
    pub heads: u8,
    pub sectors_per_track: u8,
    pub total_sectors: u64,
    /// The first partition is marked active.
    pub bootable: bool,
    /// Name of the first partition's type.
    pub partition_type: &'static str,
}

/// The little-endian 16-bit value at offset `i`.
pub open spec fn le16_at(m: Seq<u8>, i: int) -> int {
    m[i] as int + m[i + 1] as int * 0x100
}

/// The little-endian 32-bit value at offset `i`.
pub open spec fn le32_at(m: Seq<u8>, i: int) -> int {
    m[i] as int + m[i + 1] as int * 0x100 + m[i + 2] as int * 0x1_0000 + m[i + 3] as int * 0x100_0000
}

/// The header ends in the 0x55, 0xAA boot signature.
pub open spec fn has_boot_signature(m: Seq<u8>) -> bool {
    m[510] == 0x55 && m[511] == 0xAA
}

/// The header carries the SunPCi magic.
pub open spec fn has_sunpci_magic(m: Seq<u8>) -> bool {
    le32_at(m, 12) == SUNPCI_MAGIC
}

/// Whole MB in a file size, saturated to 32 bits.
pub open spec fn file_size_mb(file_size: u64) -> u32 {
    let mb = file_size as int / 0x10_0000;
    if mb <= u32::MAX {
        mb as u32
    } else {
        u32::MAX
    }
}

/// Name of a partition type byte.
pub open spec fn partition_type_name(code: u8) -> Seq<char> {
    if code == 0x00 {
        "Empty"@
    } else if code == 0x01 {
        "FAT12"@
    } else if code == 0x04 {
        "FAT16 (<32MB)"@
    } else if code == 0x05 {
        "Extended"@
    } else if code == 0x06 {
        "FAT16"@
    } else if code == 0x07 {
        "NTFS/HPFS"@
    } else if code == 0x0B {
        "FAT32"@
    } else if code == 0x0C {
        "FAT32 (LBA)"@
    } else if code == 0x0E {
        "FAT16 (LBA)"@
    } else if code == 0x0F {
        "Extended (LBA)"@
    } else if code == 0x82 {
        "Linux Swap"@
    } else if code == 0x83 {
        "Linux"@
    } else {
        "Unknown"@
    }
}

/// Names a partition type byte.
pub fn partition_type_label(code: u8) -> (r: &'static str)
    ensures
        r@ == partition_type_name(code),
{
    match code {
        0x00 => "Empty",
        0x01 => "FAT12",
        0x04 => "FAT16 (<32MB)",
        0x05 => "Extended",
        0x06 => "FAT16",
        0x07 => "NTFS/HPFS",
        0x0B => "FAT32",
        0x0C => "FAT32 (LBA)",
        0x0E => "FAT16 (LBA)",
        0x0F => "Extended (LBA)",
        0x82 => "Linux Swap",
        0x83 => "Linux",
        _ => "Unknown",
    }
}

impl DiskInfo {
    /// This is what header `m` of a file of `file_size` bytes says. A SunPCi
    /// header gives its stored revision and geometry; a foreign one gets the
    /// geometry computed from the file size.
    pub open spec fn describes(&self, m: Seq<u8>, file_size: u64) -> bool {
        let sunpci = has_sunpci_magic(m);
        let stored = le32_at(m, 22);
        &&& self.is_sunpci == sunpci
        &&& self.size_mb == file_size_mb(file_size)
        &&& (sunpci ==> {
            &&& self.revision == m[16]
            &&& self.cylinders as int == le16_at(m, 18)
            &&& self.heads == m[20]
            &&& self.sectors_per_track == m[21]
            &&& self.total_sectors as int == (if stored > 0 { stored } else { file_size as int / 512 })
        })
        &&& (!sunpci ==> {
            &&& self.revision == 0
            &&& (self.cylinders, self.heads, self.sectors_per_track) == spec_geometry(file_size_mb(file_size))
            &&& self.total_sectors as int == file_size as int / 512
        })
        &&& self.bootable == (m[0x1BE] == 0x80)
        &&& self.partition_type@ == partition_type_name(m[0x1C2])
    }
}

/// Reads a little-endian 16-bit value.
fn read_le16(b0: u8, b1: u8) -> (r: u16)
    ensures
        r as int == b0 as int + b1 as int * 0x100,
{
    let r = (b0 as u16) | ((b1 as u16) << 8u16);
    assert((b0 as u16) | ((b1 as u16) << 8u16) == b0 as u16 + b1 as u16 * 0x100u16) by (bit_vector);
    r
}

/// Reads a little-endian 32-bit value.
fn read_le32(b0: u8, b1: u8, b2: u8, b3: u8) -> (r: u32)
    ensures
        r as int == b0 as int + b1 as int * 0x100 + b2 as int * 0x1_0000 + b3 as int * 0x100_0000,
{
    let r = (b0 as u32) | ((b1 as u32) << 8u32) | ((b2 as u32) << 16u32) | ((b3 as u32) << 24u32);
    assert((b0 as u32) | ((b1 as u32) << 8u32) | ((b2 as u32) << 16u32) | ((b3 as u32) << 24u32)
        == b0 as u32 + b1 as u32 * 0x100u32 + b2 as u32 * 0x1_0000u32 + b3 as u32 * 0x100_0000u32)
        by (bit_vector);
    r
}

/// Parses the first sector `mbr` of an image file of `file_size` bytes.
pub fn parse_disk_header(mbr: &[u8], file_size: u64) -> (r: Result<DiskInfo, HeaderError>)
    ensures
        mbr@.len() < 512 ==> r == Err::<DiskInfo, HeaderError>(HeaderError::TooShort),
        mbr@.len() >= 512 && !has_boot_signature(mbr@) ==> r == Err::<DiskInfo, HeaderError>(
            HeaderError::BadSignature,
        ),
        mbr@.len() >= 512 && has_boot_signature(mbr@) ==> (r matches Ok(info) && info.describes(
            mbr@,
            file_size,
        )),
{
    if mbr.len() < 512 {
        return Err(HeaderError::TooShort);
    }
    if mbr[510] != 0x55 || mbr[511] != 0xAA {
        return Err(HeaderError::BadSignature);
    }
    let magic = read_le32(mbr[12], mbr[13], mbr[14], mbr[15]);
    let is_sunpci = magic == SUNPCI_MAGIC;
    let mb_wide: u64 = file_size / 0x10_0000;
    let size_mb: u32 = if mb_wide <= u32::MAX as u64 { mb_wide as u32 } else { u32::MAX };
    let (revision, cylinders, heads, sectors_per_track, total_sectors) = if is_sunpci {
        let stored = read_le32(mbr[22], mbr[23], mbr[24], mbr[25]);
        let total: u64 = if stored > 0 { stored as u64 } else { file_size / SECTOR_SIZE as u64 };
        (mbr[16], read_le16(mbr[18], mbr[19]), mbr[20], mbr[21], total)
    } else {
        let (c, h, s) = calculate_geometry(size_mb);
        (0u8, c, h, s, file_size / SECTOR_SIZE as u64)
    };
    Ok(
        DiskInfo {
            is_sunpci,
            size_mb,
            revision,
            cylinders,
            heads,
            sectors_per_track,
            total_sectors,
            bootable: mbr[0x1BE] == 0x80,
            partition_type: partition_type_label(mbr[0x1C2]),
        },
    )
}


/// Little-endian encoding and decoding of 32-bit values are inverse.
proof fn lemma_le32_round_trip(v: int)
    requires
        0 <= v < 0x1_0000_0000,
    ensures
        le32_at(le32(v), 0) == v,
{
    let x = v as u32;
    assert((x % 0x100) as u8 as u64 + (x / 0x100 % 0x100) as u8 as u64 * 0x100 + (x / 0x1_0000
        % 0x100) as u8 as u64 * 0x1_0000 + (x / 0x100_0000 % 0x100) as u8 as u64 * 0x100_0000
        == x as u64) by (bit_vector);
}

/// Little-endian encoding and decoding of 16-bit values are inverse.
proof fn lemma_le16_round_trip(v: int)
    requires
        0 <= v < 0x1_0000,
    ensures
        le16_at(le16(v), 0) == v,
{
    let x = v as u16;
    assert((x % 0x100) as u8 as u32 + (x / 0x100 % 0x100) as u8 as u32 * 0x100 == x as u32)
        by (bit_vector);
}

/// Re-deriving the geometry from the size of a synthesized image, as is done
/// for an image without the magic, never yields more capacity than the image
/// was made with; with the same head count it never yields more cylinders.
pub proof fn lemma_rederived_geometry(size_mb: u32)
    requires
        size_mb >= 1,
    ensures
        ({
            let again = file_size_mb(image_bytes(size_mb) as u64);
            &&& cylinders_for(again) as int * heads_for(again) as int <= cylinders_for(size_mb) as int
                * heads_for(size_mb) as int
            &&& (heads_for(again) == heads_for(size_mb) ==> cylinders_for(again) <= cylinders_for(
                size_mb,
            ))
        }),
{
    lemma_geometry_bounds(size_mb);
    let c = cylinders_for(size_mb) as int;
    let h = heads_for(size_mb) as int;
    let n = size_mb as int * 2048;
    assert(c * (h * 63) <= n) by (nonlinear_arith)
        requires
            c <= n / (h * 63),
            h >= 16,
            n >= 0,
    ;
    let bytes = image_bytes(size_mb);
    assert(bytes == c * (h * 63) * 512) by (nonlinear_arith)
        requires
            bytes == c * h * 63 * 512,
    ;
    assert(bytes <= size_mb as int * 0x10_0000);
    let again_wide = bytes / 0x10_0000;
    assert(again_wide <= size_mb as int);
    let again = file_size_mb(bytes as u64);
    assert(again as int == again_wide);
    let c2 = cylinders_for(again) as int;
    let h2 = heads_for(again) as int;
    let n2 = again as int * 2048;
    assert(again_wide * 0x10_0000 <= bytes);
    assert(n2 * 512 <= c * (h * 63) * 512);
    assert(n2 <= c * (h * 63)) by (nonlinear_arith)
        requires
            n2 * 512 <= c * (h * 63) * 512,
    ;
    assert(c2 * (h2 * 63) <= n2) by (nonlinear_arith)
        requires
            c2 <= n2 / (h2 * 63),
            h2 >= 16,
            n2 >= 0,
    ;
    assert(c2 * h2 <= c * h) by (nonlinear_arith)
        requires
            c2 * (h2 * 63) <= c * (h * 63),
    ;
    if h2 == h {
        assert(c2 <= c) by (nonlinear_arith)
            requires
                c2 * h2 <= c * h,
                h2 == h,
                h >= 16,
        ;
    }
}

/// Reading back the header of a freshly synthesized image finds the boot
/// signature and the magic, and reports the revision and geometry it was
/// made with, an active partition, and FAT12 up to 32 MB, FAT16 above.
pub proof fn lemma_header_round_trip(size_mb: u32, revision: u8, info: DiskInfo)
    requires
        size_mb >= 1,
        info.describes(spec_mbr(size_mb, revision), image_bytes(size_mb) as u64),
    ensures
        spec_mbr(size_mb, revision).len() == 512,
        has_boot_signature(spec_mbr(size_mb, revision)),
        info.is_sunpci,
        info.revision == revision,
        info.cylinders == cylinders_for(size_mb),
        info.heads == heads_for(size_mb),
        info.sectors_per_track == 63,
        info.total_sectors as int == image_sectors(size_mb),
        info.bootable,
        info.partition_type@ == (if size_mb <= 32 { "FAT12"@ } else { "FAT16"@ }),
{
    lemma_geometry_bounds(size_mb);
    let m = spec_mbr(size_mb, revision);
    let magic = le32(SUNPCI_MAGIC as int);
    let cyl = le16(cylinders_for(size_mb) as int);
    let sectors = le32(image_sectors(size_mb));
    lemma_le32_round_trip(SUNPCI_MAGIC as int);
    lemma_le16_round_trip(cylinders_for(size_mb) as int);
    lemma_le32_round_trip(image_sectors(size_mb));
    assert(m[12] == magic[0] && m[13] == magic[1] && m[14] == magic[2] && m[15] == magic[3]);
    assert(m[16] == revision);
    assert(m[18] == cyl[0] && m[19] == cyl[1]);
    assert(m[20] == heads_for(size_mb) && m[21] == 63);
    assert(m[22] == sectors[0] && m[23] == sectors[1] && m[24] == sectors[2] && m[25] == sectors[3]);
    assert(m[0x1BE] == 0x80);
    assert(m[0x1C2] == partition_type_for(size_mb));
    assert(m[510] == 0x55 && m[511] == 0xAA);
}

/// Reading a header is a function of its bytes and the file size: two
/// readings of the same file report the same information.
pub proof fn lemma_header_reading_deterministic(m: Seq<u8>, file_size: u64, a: DiskInfo, b: DiskInfo)
    requires
        a.describes(m, file_size),
        b.describes(m, file_size),
    ensures
        a.is_sunpci == b.is_sunpci,
        a.size_mb == b.size_mb,
        a.revision == b.revision,
        a.cylinders == b.cylinders,
        a.heads == b.heads,
        a.sectors_per_track == b.sectors_per_track,
        a.total_sectors == b.total_sectors,
        a.bootable == b.bootable,
        a.partition_type@ == b.partition_type@,
{
}

/// Synthesis is deterministic: two layouts for the same capacity and
/// revision write the same bytes at the same offsets and have one length.
pub proof fn lemma_synthesis_deterministic(
    size_mb: u32,
    revision: u8,
    a: DiskImageLayout,
    b: DiskImageLayout,
)
    requires
        a.is_layout_of(size_mb, revision),
        b.is_layout_of(size_mb, revision),
    ensures
        a.total_bytes == b.total_bytes,
        a.writes@.len() == b.writes@.len(),
        forall|i: int|
            0 <= i < a.writes@.len() ==> a.writes@[i].offset == b.writes@[i].offset
                && a.writes@[i].bytes@ == b.writes@[i].bytes@,
{
}

} // verus!
