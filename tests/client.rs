use rising_sun_common::client::{
    audio_samples, call_error, check_floppy_image, clipboard_text, disk_drive_name,
    drive_letter_request, drive_mapping_request, floppy_drive_name, mount_cdrom_request,
    mount_disk_request, open_error, plan_cdrom_mount, plan_disk_mount, plan_floppy_mount,
    session_flags, session_request, OpenFailure,
};
use rising_sun_common::config::ClipboardDirection;
use rising_sun_common::disk_image::{parse_disk_header, plan_disk_image};
use rising_sun_common::ioctl::{AudioBuffer, Clipboard, FLAG_CLIPBOARD_ENABLED, FLAG_CLIPBOARD_TO_GUEST, FLAG_CLIPBOARD_TO_HOST, FLAG_NETWORK_ENABLED};
use rising_sun_common::types::SunPciError;

#[test]
fn open_errors_are_distinguished() {
    assert!(matches!(open_error(OpenFailure::NotFound, "/dev/sunpci0"), SunPciError::DriverNotLoaded));
    match open_error(OpenFailure::PermissionDenied, "/dev/sunpci0") {
        SunPciError::PermissionDenied(p) => assert_eq!(p, "/dev/sunpci0"),
        other => panic!("unexpected {:?}", other),
    }
    assert!(matches!(open_error(OpenFailure::Other(5), "/dev/sunpci0"), SunPciError::Io(5)));
    assert_eq!(call_error(16).code(), Some(16));
    assert_eq!(SunPciError::NotRunning.code(), None);
}

#[test]
fn session_flag_bits() {
    assert_eq!(session_flags(false, false, ClipboardDirection::Bidirectional), 0);
    assert_eq!(session_flags(true, false, ClipboardDirection::Bidirectional), FLAG_NETWORK_ENABLED);
    assert_eq!(
        session_flags(false, true, ClipboardDirection::Bidirectional),
        FLAG_CLIPBOARD_ENABLED | FLAG_CLIPBOARD_TO_GUEST | FLAG_CLIPBOARD_TO_HOST
    );
    assert_eq!(session_flags(true, true, ClipboardDirection::HostToGuest), 1 | 2 | 8);
    assert_eq!(session_flags(false, true, ClipboardDirection::GuestToHost), 2 | 4);
}

#[test]
fn session_request_fields() {
    let cfg = session_request(true, false, ClipboardDirection::Bidirectional, Some("/a.img"), None);
    assert_eq!(cfg.memory_mb, 64);
    assert_eq!(cfg.flags, FLAG_NETWORK_ENABLED);
    assert_eq!(&cfg.primary_disk[..7], b"/a.img\0");
    assert!(cfg.secondary_disk.iter().all(|&b| b == 0));
}

#[test]
fn mount_requests() {
    let m = mount_disk_request(1, "/d.img", true);
    assert_eq!((m.slot, m.flags), (1, 1));
    assert_eq!(&m.path[..7], b"/d.img\0");
    let p = mount_cdrom_request("/cd.iso");
    assert_eq!(&p.path[..8], b"/cd.iso\0");
    assert_eq!(disk_drive_name(0), "C:");
    assert_eq!(disk_drive_name(1), "D:");
    assert_eq!(floppy_drive_name(0), "A:");
    assert_eq!(floppy_drive_name(1), "B:");
}

#[test]
fn drive_mapping_letters() {
    let m = drive_mapping_request('F', "/opt/SUNWspci", true).unwrap();
    assert_eq!((m.letter, m.flags), (b'F', 1));
    assert_eq!(&m.path[..14], b"/opt/SUNWspci\0");
    assert!(drive_mapping_request('E', "/x", false).is_ok());
    assert!(drive_mapping_request('Z', "/x", false).is_ok());
    assert!(matches!(drive_mapping_request('C', "/x", false), Err(SunPciError::InvalidConfig(_))));
    assert!(matches!(drive_mapping_request('f', "/x", false), Err(SunPciError::InvalidConfig(_))));
    assert_eq!(drive_letter_request('G').unwrap().letter, b'G');
    assert!(drive_letter_request('D').is_err());
}

#[test]
fn floppy_mount_checks_size() {
    let two_mb = 2 * 1024 * 1024;
    let m = plan_floppy_mount(0, "/a.img", Some(two_mb)).unwrap();
    assert_eq!(m.drive, 0);
    assert_eq!(&m.path[..7], b"/a.img\0");
    assert!(plan_floppy_mount(1, "/a.img", Some(3 * 1024 * 1024)).is_ok());
    assert!(matches!(
        plan_floppy_mount(0, "/a.img", Some(3 * 1024 * 1024 + 1)),
        Err(SunPciError::ImageTooLarge(3145729))
    ));
    assert!(matches!(plan_floppy_mount(0, "/a.img", None), Err(SunPciError::ImageNotFound)));
    assert!(check_floppy_image(Some(1_474_560)).is_ok());
}

#[test]
fn cdrom_mount_needs_existing_file() {
    assert!(matches!(plan_cdrom_mount("/missing.iso", false), Err(SunPciError::ImageNotFound)));
    let p = plan_cdrom_mount("/cd.iso", true).unwrap();
    assert_eq!(&p.path[..8], b"/cd.iso\0");
}

#[test]
fn disk_mount_needs_sunpci_header() {
    let plan = plan_disk_image(10, 1);
    let info = parse_disk_header(&plan.writes[0].bytes, plan.total_bytes).ok();
    let m = plan_disk_mount(0, "/c.img", info).unwrap();
    assert_eq!((m.slot, m.flags), (0, 0));
    let mut foreign = vec![0u8; 512];
    foreign[510] = 0x55;
    foreign[511] = 0xAA;
    let info = parse_disk_header(&foreign, 1 << 20).ok();
    assert!(matches!(plan_disk_mount(0, "/c.img", info), Err(SunPciError::InvalidImage)));
    assert!(matches!(plan_disk_mount(0, "/c.img", None), Err(SunPciError::InvalidImage)));
}

#[test]
fn driver_payload_lengths_are_checked() {
    let clip = Clipboard::from_text("hi");
    assert_eq!(clipboard_text(&clip).unwrap(), b"hi".to_vec());
    let mut bad = Clipboard::default();
    bad.length = 5000;
    assert!(matches!(clipboard_text(&bad), Err(SunPciError::ProtocolViolation)));
    let mut buf = AudioBuffer::request(4);
    buf.size = 3;
    assert_eq!(audio_samples(&buf).unwrap(), vec![0, 0, 0]);
    buf.size = 20000;
    assert!(matches!(audio_samples(&buf), Err(SunPciError::ProtocolViolation)));
}
