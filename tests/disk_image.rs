use rising_sun_common::disk_image::{
    build_boot_sector, build_fat, build_mbr, calculate_geometry, parse_disk_header,
    partition_type_label, plan_disk_image, HeaderError,
};

#[test]
fn geometry_follows_head_thresholds() {
    assert_eq!(calculate_geometry(10), (20, 16, 63));
    assert_eq!(calculate_geometry(33), (67, 16, 63));
    assert_eq!(calculate_geometry(100), (203, 16, 63));
    assert_eq!(calculate_geometry(504), (1024, 16, 63));
    assert_eq!(calculate_geometry(520), (528, 32, 63));
    assert_eq!(calculate_geometry(1500), (761, 64, 63));
    assert_eq!(calculate_geometry(2050), (520, 128, 63));
    assert_eq!(calculate_geometry(5000), (637, 255, 63));
    assert_eq!(calculate_geometry(10000), (1024, 255, 63));
    assert_eq!(calculate_geometry(u32::MAX).0, 1024);
}

#[test]
fn rederived_geometry_does_not_grow() {
    for &mb in &[10u32, 33, 100, 520, 2050] {
        let (c, h, s) = calculate_geometry(mb);
        let bytes = c as u64 * h as u64 * s as u64 * 512;
        let (c2, h2, _) = calculate_geometry((bytes / (1024 * 1024)) as u32);
        assert!(c2 as u64 * h2 as u64 <= c as u64 * h as u64);
        if h2 == h {
            assert!(c2 <= c);
        }
    }
}

#[test]
fn mbr_layout_for_ten_megabytes() {
    let mbr = build_mbr(10, 2);
    assert_eq!(mbr.len(), 512);
    assert!(mbr[..12].iter().all(|&b| b == 0));
    assert_eq!(&mbr[12..16], &[0x49, 0x43, 0x50, 0x53]);
    assert_eq!((mbr[16], mbr[17]), (2, 0));
    assert_eq!(&mbr[18..22], &[20, 0, 16, 63]);
    assert_eq!(&mbr[22..26], &20160u32.to_le_bytes());
    assert_eq!(
        &mbr[0x1BE..0x1CE],
        &[0x80, 1, 1, 0, 0x01, 15, 63, 19, 63, 0, 0, 0, 0x81, 0x4E, 0, 0]
    );
    assert!(mbr[0x1CE..510].iter().all(|&b| b == 0));
    assert_eq!((mbr[510], mbr[511]), (0x55, 0xAA));
}

#[test]
fn mbr_partition_type_and_chs_end() {
    assert_eq!(build_mbr(32, 1)[0x1C2], 0x01);
    assert_eq!(build_mbr(33, 1)[0x1C2], 0x06);
    let big = build_mbr(10000, 1);
    // Cylinder 1023: sector byte carries its two high bits.
    assert_eq!(&big[0x1C3..0x1C6], &[254, 63 | 0xC0, 0xFF]);
}

#[test]
fn boot_sector_fields() {
    let boot = build_boot_sector(10);
    assert_eq!(boot.len(), 512);
    assert_eq!(&boot[0..3], &[0xEB, 0x3C, 0x90]);
    assert_eq!(&boot[3..11], b"SUNPCI  ");
    assert_eq!(&boot[11..13], &512u16.to_le_bytes());
    assert_eq!(boot[13], 4);
    assert_eq!(&boot[14..16], &[1, 0]);
    assert_eq!(boot[16], 2);
    assert_eq!(&boot[17..19], &512u16.to_le_bytes());
    assert_eq!(&boot[19..21], &20097u16.to_le_bytes());
    assert_eq!(boot[21], 0xF8);
    assert_eq!(&boot[22..24], &[20, 0]);
    assert_eq!(&boot[24..28], &[63, 0, 16, 0]);
    assert_eq!(&boot[28..32], &[63, 0, 0, 0]);
    assert_eq!(&boot[32..36], &[0, 0, 0, 0]);
    assert_eq!((boot[36], boot[38]), (0x80, 0x29));
    assert_eq!(&boot[39..43], &0x12345678u32.to_le_bytes());
    assert_eq!(&boot[43..54], b"NO NAME    ");
    assert_eq!(&boot[54..62], b"FAT16   ");
    assert_eq!((boot[510], boot[511]), (0x55, 0xAA));
}

#[test]
fn boot_sector_large_partition_uses_32_bit_count() {
    let boot = build_boot_sector(520);
    assert_eq!(boot[13], 8);
    assert_eq!(&boot[19..21], &[0, 0]);
    let sectors = 528u32 * 32 * 63 - 63;
    assert_eq!(&boot[32..36], &sectors.to_le_bytes());
}

#[test]
fn fat_copy() {
    let fat = build_fat(10);
    assert_eq!(fat.len(), 20 * 512);
    assert_eq!(&fat[..4], &[0xF8, 0xFF, 0xFF, 0xFF]);
    assert!(fat[4..].iter().all(|&b| b == 0));
}

#[test]
fn layout_offsets() {
    let plan = plan_disk_image(10, 2);
    assert_eq!(plan.total_sectors, 20160);
    assert_eq!(plan.total_bytes, 20160 * 512);
    let offsets: Vec<u64> = plan.writes.iter().map(|w| w.offset).collect();
    assert_eq!(offsets, vec![0, 32256, 32768, 43008, 53248, 20160 * 512 - 1]);
    assert_eq!(plan.writes[4].bytes.len(), 16384);
    assert_eq!(plan.writes[5].bytes, vec![0]);
    assert_eq!(plan.writes[0].bytes, build_mbr(10, 2));
}

#[test]
fn synthesis_is_deterministic() {
    let a = plan_disk_image(100, 3);
    let b = plan_disk_image(100, 3);
    assert_eq!(a.total_bytes, b.total_bytes);
    for (x, y) in a.writes.iter().zip(b.writes.iter()) {
        assert_eq!(x.offset, y.offset);
        assert_eq!(x.bytes, y.bytes);
    }
}

#[test]
fn header_round_trip() {
    for &(mb, rev, kind) in &[(10u32, 2u8, "FAT12"), (32, 1, "FAT12"), (33, 1, "FAT16"), (520, 7, "FAT16")] {
        let plan = plan_disk_image(mb, rev);
        let info = parse_disk_header(&plan.writes[0].bytes, plan.total_bytes).unwrap();
        assert!(info.is_sunpci);
        assert_eq!(info.revision, rev);
        assert_eq!((info.cylinders, info.heads, info.sectors_per_track), (plan.cylinders, plan.heads, 63));
        assert_eq!(info.total_sectors, plan.total_sectors as u64);
        assert!(info.bootable);
        assert_eq!(info.partition_type, kind);
    }
}

#[test]
fn header_parsing_is_repeatable() {
    let mbr = build_mbr(100, 4);
    let a = parse_disk_header(&mbr, 1 << 27).unwrap();
    let b = parse_disk_header(&mbr, 1 << 27).unwrap();
    assert_eq!(
        (a.is_sunpci, a.size_mb, a.revision, a.cylinders, a.heads, a.total_sectors, a.partition_type),
        (b.is_sunpci, b.size_mb, b.revision, b.cylinders, b.heads, b.total_sectors, b.partition_type)
    );
    assert_eq!(a.size_mb, 128);
}

#[test]
fn foreign_image_gets_computed_geometry() {
    let mut mbr = vec![0u8; 512];
    mbr[510] = 0x55;
    mbr[511] = 0xAA;
    let info = parse_disk_header(&mbr, 100 * 1024 * 1024).unwrap();
    assert!(!info.is_sunpci);
    assert_eq!(info.revision, 0);
    assert_eq!(info.size_mb, 100);
    assert_eq!((info.cylinders, info.heads, info.sectors_per_track), (203, 16, 63));
    assert_eq!(info.total_sectors, 204800);
    assert!(!info.bootable);
    assert_eq!(info.partition_type, "Empty");
}

#[test]
fn bad_headers_are_rejected() {
    let mut mbr = build_mbr(10, 1);
    assert!(matches!(parse_disk_header(&mbr[..511], 0), Err(HeaderError::TooShort)));
    mbr[511] = 0;
    assert!(matches!(parse_disk_header(&mbr, 1 << 20), Err(HeaderError::BadSignature)));
}

#[test]
fn partition_type_names() {
    assert_eq!(partition_type_label(0x01), "FAT12");
    assert_eq!(partition_type_label(0x06), "FAT16");
    assert_eq!(partition_type_label(0x0C), "FAT32 (LBA)");
    assert_eq!(partition_type_label(0x83), "Linux");
    assert_eq!(partition_type_label(0x42), "Unknown");
}
