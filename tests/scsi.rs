use rising_sun_common::scsi::{
    cdb10_get_length, cdb10_get_lba, inquiry_get_alloc_length, mode_sense6_get_alloc_length,
    mode_sense_get_page_code, InquiryData, ReadCapacityData, ScsiResult, SenseData, SimpleToc,
    TocEntry, SENSE_ILLEGAL_REQUEST, SENSE_NOT_READY, SENSE_UNIT_ATTENTION, STATUS_CHECK_CONDITION,
    STATUS_GOOD,
};

#[test]
fn test_sense_data_size() {
    assert_eq!(std::mem::size_of::<SenseData>(), SenseData::SIZE);
}

#[test]
fn test_inquiry_data_size() {
    assert_eq!(std::mem::size_of::<InquiryData>(), InquiryData::SIZE);
}

#[test]
fn test_read_capacity_size() {
    assert_eq!(std::mem::size_of::<ReadCapacityData>(), ReadCapacityData::SIZE);
}

#[test]
fn test_inquiry_identity() {
    let inq = InquiryData::with_identity("RISING", "Virtual CDROM", "2.0");
    assert_eq!(&inq.vendor, b"RISING  ");
    assert_eq!(&inq.product, b"Virtual CDROM   ");
    assert_eq!(&inq.revision, b"2.0 ");
}

#[test]
fn test_cdb10_parsing() {
    let cdb = [0x28, 0x00, 0x00, 0x01, 0x00, 0x00, 0x00, 0x00, 0x10, 0x00];
    assert_eq!(cdb10_get_lba(&cdb), 0x00010000);
    assert_eq!(cdb10_get_length(&cdb), 0x0010);
}

#[test]
fn test_simple_toc() {
    let toc = SimpleToc::new(333000);
    let bytes = toc.to_bytes();
    assert_eq!(bytes.len(), SimpleToc::SIZE);
    assert_eq!(bytes[2], 1);
    assert_eq!(bytes[3], 1);
    assert_eq!(bytes[6], 1);
    assert_eq!(bytes[14], 0xAA);
}

#[test]
fn simple_toc_full_layout() {
    let bytes = SimpleToc::new(333000).to_bytes();
    assert_eq!(
        bytes,
        [0, 18, 1, 1, 0, 0x14, 1, 0, 0, 0, 0, 0, 0, 0x14, 0xAA, 0, 0x00, 0x05, 0x14, 0xC8]
    );
    assert_eq!(u32::from_be_bytes([bytes[16], bytes[17], bytes[18], bytes[19]]), 333000);
}

#[test]
fn inquiry_default_response() {
    let inq = InquiryData::new();
    let b = inq.to_bytes();
    assert_eq!(b.len(), 36);
    assert_eq!(b[0], 0x05);
    assert_eq!(b[1], 0x80);
    assert_eq!(b[2], 0x02);
    assert_eq!(b[3], 0x02);
    assert_eq!(b[4], 31);
    assert_eq!(&b[8..16], b"SUN     ");
    assert_eq!(&b[16..32], b"Virtual CDROM   ");
    assert_eq!(&b[32..36], b"1.0 ");
}

#[test]
fn inquiry_identity_truncates_long_strings() {
    let inq = InquiryData::with_identity("ABCDEFGHIJ", "0123456789abcdefXYZ", "12345");
    assert_eq!(&inq.vendor, b"ABCDEFGH");
    assert_eq!(&inq.product, b"0123456789abcdef");
    assert_eq!(&inq.revision, b"1234");
    let empty = InquiryData::with_identity("", "", "");
    assert_eq!(&empty.vendor, b"        ");
    assert_eq!(empty.to_bytes()[0], 0x05);
}

#[test]
fn sense_records() {
    let s = SenseData::medium_not_present().to_bytes();
    assert_eq!(s.len(), 18);
    assert_eq!(s[0], 0x70);
    assert_eq!(s[2], SENSE_NOT_READY);
    assert_eq!(s[7], 10);
    assert_eq!((s[12], s[13]), (0x3A, 0x01));
    let s = SenseData::medium_changed().to_bytes();
    assert_eq!((s[2], s[12], s[13]), (SENSE_UNIT_ATTENTION, 0x28, 0x00));
    let s = SenseData::invalid_field().to_bytes();
    assert_eq!((s[2], s[12], s[13]), (SENSE_ILLEGAL_REQUEST, 0x24, 0x00));
    let s = SenseData::lba_out_of_range().to_bytes();
    assert_eq!((s[2], s[12], s[13]), (SENSE_ILLEGAL_REQUEST, 0x21, 0x00));
    let s = SenseData::invalid_command().to_bytes();
    assert_eq!((s[2], s[12], s[13]), (SENSE_ILLEGAL_REQUEST, 0x20, 0x00));
    let s = SenseData::no_sense().to_bytes();
    assert_eq!((s[0], s[2], s[7], s[12], s[13]), (0x70, 0, 10, 0, 0));
    let s = SenseData::new(0x03, 0x11, 0x05).to_bytes();
    assert_eq!((s[2], s[12], s[13]), (0x03, 0x11, 0x05));
}

#[test]
fn read_capacity_response() {
    let cap = ReadCapacityData::new(333000, 2048).to_bytes();
    assert_eq!(cap, [0x00, 0x05, 0x14, 0xC7, 0x00, 0x00, 0x08, 0x00]);
    let empty = ReadCapacityData::new(0, 2048).to_bytes();
    assert_eq!(&empty[..4], &[0, 0, 0, 0]);
}

#[test]
fn toc_entries() {
    let e = TocEntry::data_track(1, 0x01020304);
    assert_eq!((e.adr_control, e.track_number), (0x14, 1));
    assert_eq!(e.start_address, [1, 2, 3, 4]);
    let l = TocEntry::lead_out(7);
    assert_eq!(l.track_number, 0xAA);
    assert_eq!(l.start_address, [0, 0, 0, 7]);
}

#[test]
fn scsi_result_status() {
    assert_eq!(ScsiResult::Good(vec![1, 2]).status(), STATUS_GOOD);
    assert_eq!(ScsiResult::GoodNoData.status(), STATUS_GOOD);
    assert_eq!(ScsiResult::CheckCondition(SenseData::invalid_field()).status(), STATUS_CHECK_CONDITION);
}

#[test]
fn cdb_field_extraction() {
    let cdb = [0x28, 0, 0x12, 0x34, 0x56, 0x78, 0, 0xAB, 0xCD, 0];
    assert_eq!(cdb10_get_lba(&cdb), 0x12345678);
    assert_eq!(cdb10_get_length(&cdb), 0xABCD);
    assert_eq!(cdb10_get_lba(&cdb[..5]), 0);
    assert_eq!(cdb10_get_length(&cdb[..8]), 0);
    let inq = [0x12, 0, 0, 0, 36, 0];
    assert_eq!(inquiry_get_alloc_length(&inq), 36);
    assert_eq!(inquiry_get_alloc_length(&inq[..4]), 0);
    let ms = [0x1A, 0, 0xEA, 0, 0xFF, 0];
    assert_eq!(mode_sense6_get_alloc_length(&ms), 0xFF);
    assert_eq!(mode_sense_get_page_code(&ms), 0x2A);
    assert_eq!(mode_sense_get_page_code(&ms[..2]), 0);
}
