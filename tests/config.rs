use rising_sun_common::config::{
    default_max_recent, ClipboardConfig, ClipboardDirection, DriveMapping, GeneralConfig,
    KeyboardConfig, MouseCaptureMode, MouseConfig, MouseProtocol, NetworkConfig, RecentFiles,
    ScalingMode, StorageConfig,
};

#[test]
fn defaults() {
    let g = GeneralConfig::default();
    assert!(!g.auto_start && g.confirm_on_close && g.save_state_on_exit);
    let k = KeyboardConfig::default();
    assert_eq!((k.layout.as_str(), k.code_page.as_str(), k.release_key.as_str()), ("us", "437", "Right Ctrl"));
    let m = MouseConfig::default();
    assert_eq!((m.protocol, m.capture_mode), (MouseProtocol::Ps2, MouseCaptureMode::ClickToCapture));
    let c = ClipboardConfig::default();
    assert!(c.enabled && !c.share_files);
    assert_eq!(c.direction, ClipboardDirection::Bidirectional);
    let n = NetworkConfig::default();
    assert_eq!((n.enabled, n.irq), (false, 10));
    let s = StorageConfig::default();
    assert!(s.primary_disk.is_none() && s.cdrom.auto_mount && s.floppy_b.auto_mount);
    assert_eq!(DriveMapping::default().drive_letter, "F:");
    assert_eq!(ScalingMode::default(), ScalingMode::Fit);
    assert_eq!(default_max_recent(), 10);
}

#[test]
fn recent_files_are_most_recent_first() {
    let mut r = RecentFiles::default();
    r.add_disk_image("/a.img".to_string());
    r.add_disk_image("/b.img".to_string());
    r.add_disk_image("/a.img".to_string());
    assert_eq!(r.disk_images, vec!["/a.img".to_string(), "/b.img".to_string()]);
    assert!(r.iso_files.is_empty());
    r.add_iso("/x.iso".to_string());
    r.add_floppy_image("/f.img".to_string());
    assert_eq!(r.iso_files, vec!["/x.iso".to_string()]);
    assert_eq!(r.floppy_images, vec!["/f.img".to_string()]);
}

#[test]
fn recent_files_are_capped() {
    let mut r = RecentFiles::default();
    r.max_recent = 3;
    for name in ["1", "2", "3", "4", "5"] {
        r.add_iso(name.to_string());
    }
    assert_eq!(r.iso_files, vec!["5".to_string(), "4".to_string(), "3".to_string()]);
    r.max_recent = 0;
    r.add_iso("6".to_string());
    assert!(r.iso_files.is_empty());
}
