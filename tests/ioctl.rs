use rising_sun_common::ioctl::{
    combine_u32, read_terminated, AudioBuffer, AudioFormat, AudioStatus, AudioVolume, Clipboard,
    DisplayInfo, DriverVersion, FramebufferInfo, IoctlSessionConfig, KeyEvent, MouseEvent,
    PixelFormat, ScsiRequest, ScsiResponse, SessionState, SessionStatus, CLIPBOARD_TEXT,
    SCSI_DIRECTION_NONE, SCSI_DIRECTION_READ, SCSI_STATUS_CHECK_CONDITION, SCSI_STATUS_GOOD,
    SUNPCI_AUDIO_MAX_BUFFER, SUNPCI_MAX_CLIPBOARD, SUNPCI_MAX_PATH,
};
use std::mem;

#[test]
fn test_struct_sizes() {
    assert_eq!(mem::size_of::<DriverVersion>(), 12);
    // Nine 32-bit counters and one pad word.
    assert_eq!(mem::size_of::<SessionStatus>(), 40);
    assert_eq!(mem::size_of::<DisplayInfo>(), 24);
    assert_eq!(mem::size_of::<KeyEvent>(), 8);
    assert_eq!(mem::size_of::<MouseEvent>(), 16);
}

#[test]
fn test_session_config_set_path() {
    let mut config = IoctlSessionConfig::default();
    IoctlSessionConfig::set_path(&mut config.primary_disk, "/path/to/disk.img");
    assert_eq!(&config.primary_disk[..18], b"/path/to/disk.img\0");
}

#[test]
fn set_path_truncates_long_paths() {
    let mut config = IoctlSessionConfig::default();
    let long = "x".repeat(400);
    IoctlSessionConfig::set_path(&mut config.bios_path, &long);
    assert!(config.bios_path[..SUNPCI_MAX_PATH - 1].iter().all(|&b| b == b'x'));
    assert_eq!(config.bios_path[SUNPCI_MAX_PATH - 1], 0);
}

#[test]
fn set_path_keeps_bytes_after_terminator() {
    let mut buf = [7u8; SUNPCI_MAX_PATH];
    IoctlSessionConfig::set_path(&mut buf, "ab");
    assert_eq!(&buf[..4], &[b'a', b'b', 0, 7]);
}

#[test]
fn read_terminated_stops_at_nul() {
    assert_eq!(read_terminated(b"abc\0def"), b"abc".to_vec());
    assert_eq!(read_terminated(b"abc"), b"abc".to_vec());
    assert_eq!(read_terminated(b"\0abc"), Vec::<u8>::new());
}

#[test]
fn default_session_config() {
    let config = IoctlSessionConfig::default();
    assert_eq!(config.memory_mb, 64);
    assert_eq!(config.flags, 0);
    assert!(config.primary_disk.iter().all(|&b| b == 0));
}

#[test]
fn split_fields_combine_to_u64() {
    let status = SessionStatus {
        memory_used_lo: 0xFFFF_FFFF,
        memory_used_hi: 0x1,
        uptime_ns_lo: 0xFFFF_FFFF,
        uptime_ns_hi: 0x1,
        ..Default::default()
    };
    assert_eq!(status.memory_used(), 0x1_FFFF_FFFF);
    assert_eq!(status.uptime_ns(), 0x1_FFFF_FFFF);
    let fb = FramebufferInfo {
        phys_addr_lo: 0xFFFF_FFFF,
        phys_addr_hi: 0x1,
        size_lo: 0xFFFF_FFFF,
        size_hi: 0x1,
        ..Default::default()
    };
    assert_eq!(fb.phys_addr(), 0x1_FFFF_FFFF);
    assert_eq!(fb.size(), 0x1_FFFF_FFFF);
    let audio = AudioStatus { samples_played_lo: 0xFFFF_FFFF, samples_played_hi: 0x1, ..Default::default() };
    assert_eq!(audio.samples_played(), 0x1_FFFF_FFFF);
    assert_eq!(combine_u32(0x1234_5678, 0x9ABC_DEF0), 0x9ABC_DEF0_1234_5678);
    assert_eq!(combine_u32(0, 0), 0);
}

#[test]
fn session_state_codes() {
    assert_eq!(SessionState::Running.code(), 2);
    assert_eq!(SessionState::from_code(4), Some(SessionState::Error));
    assert_eq!(SessionState::from_code(5), None);
    assert_eq!(SessionState::default(), SessionState::Stopped);
    assert_eq!(PixelFormat::from_code(3), Some(PixelFormat::Xrgb8888));
    assert_eq!(PixelFormat::Rgb565.code(), 1);
    assert_eq!(PixelFormat::from_code(4), None);
}

#[test]
fn scsi_request_builders() {
    let req = ScsiRequest::new_cdb6([0x12, 0, 0, 0, 36, 0]);
    assert_eq!(req.cdb_len, 6);
    assert_eq!(&req.cdb[..6], &[0x12, 0, 0, 0, 36, 0]);
    assert!(req.cdb[6..].iter().all(|&b| b == 0));
    assert_eq!(req.data_direction, SCSI_DIRECTION_NONE);
    let req = ScsiRequest::new_cdb10([0x28, 0, 0, 0, 0, 16, 0, 0, 1, 0]).with_read(2048);
    assert_eq!(req.cdb_len, 10);
    assert_eq!(req.cdb[5], 16);
    assert_eq!(req.data_direction, SCSI_DIRECTION_READ);
    assert_eq!(req.data_len, 2048);
}

#[test]
fn scsi_response_accessors() {
    let mut resp = ScsiResponse::default();
    assert!(resp.is_good());
    assert_eq!(resp.sense_key(), None);
    assert_eq!(resp.asc(), None);
    resp.status = SCSI_STATUS_CHECK_CONDITION;
    resp.sense_len = 18;
    resp.sense[2] = 0xF2;
    resp.sense[12] = 0x3A;
    assert!(resp.is_check_condition());
    assert!(!resp.is_good());
    assert_eq!(resp.sense_key(), Some(0x02));
    assert_eq!(resp.asc(), Some(0x3A));
    resp.sense_len = 12;
    assert_eq!(resp.asc(), None);
    assert_ne!(SCSI_STATUS_GOOD, SCSI_STATUS_CHECK_CONDITION);
}

#[test]
fn audio_records() {
    let fmt = AudioFormat { sample_rate: 44100, format: 7, channels: 2, bits_per_sample: 16 };
    assert_eq!(fmt.bytes_per_sample(), 4);
    assert_eq!(fmt.bytes_per_second(), 176400);
    let v = AudioVolume::new(200);
    assert_eq!((v.left, v.right, v.muted), (200, 200, 0));
    let m = AudioVolume::muted();
    assert_eq!((m.left, m.right, m.muted), (0, 0, 1));
    let l = AudioVolume::levels(10, 20, true);
    assert_eq!((l.left, l.right, l.muted), (10, 20, 1));
    let st = AudioStatus { flags: 0b101, ..Default::default() };
    assert!(st.is_playing());
    assert!(!st.is_available());
    assert!(st.is_muted());
}

#[test]
fn clipboard_payloads() {
    let clip = Clipboard::from_text("hello");
    assert_eq!(clip.length, 5);
    assert_eq!(clip.format, CLIPBOARD_TEXT);
    assert_eq!(clip.payload(), Some(b"hello".to_vec()));
    let long = "y".repeat(5000);
    let clip = Clipboard::from_text(&long);
    assert_eq!(clip.length as usize, SUNPCI_MAX_CLIPBOARD - 1);
    assert_eq!(clip.data[SUNPCI_MAX_CLIPBOARD - 1], 0);
    let mut bad = Clipboard::default();
    bad.length = SUNPCI_MAX_CLIPBOARD as u32 + 1;
    assert_eq!(bad.payload(), None);
}

#[test]
fn audio_buffer_requests() {
    assert_eq!(AudioBuffer::request(100).size, 100);
    assert_eq!(AudioBuffer::request(1 << 20).size as usize, SUNPCI_AUDIO_MAX_BUFFER);
    let mut buf = AudioBuffer::request(8);
    buf.data[0] = 9;
    buf.size = 2;
    assert_eq!(buf.payload(), Some(vec![9, 0]));
    buf.size = SUNPCI_AUDIO_MAX_BUFFER as u32 + 1;
    assert_eq!(buf.payload(), None);
}
