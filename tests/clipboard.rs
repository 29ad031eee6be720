use rising_sun_common::clipboard::{decode_utf16le, utf16le_units};

#[test]
fn test_decode_utf16le() {
    let bytes = [0x48, 0x00, 0x65, 0x00, 0x6C, 0x00, 0x6C, 0x00, 0x6F, 0x00, 0x00, 0x00];
    assert_eq!(decode_utf16le(&bytes), "Hello");
}

#[test]
fn test_decode_utf16le_unicode() {
    let bytes = [0xE5, 0x65, 0x2C, 0x67, 0x00, 0x00];
    assert_eq!(decode_utf16le(&bytes), "日本");
}

#[test]
fn utf16_edges() {
    assert_eq!(decode_utf16le(&[]), "");
    assert_eq!(decode_utf16le(&[0x41]), "");
    // An odd trailing byte is ignored; no terminator is needed.
    assert_eq!(decode_utf16le(&[0x41, 0x00, 0x42]), "A");
    // A lone surrogate decodes to the replacement character.
    assert_eq!(decode_utf16le(&[0x00, 0xD8, 0x41, 0x00]), "\u{FFFD}A");
    assert_eq!(utf16le_units(&[0x41, 0x00, 0x00, 0x00, 0x42, 0x00]), vec![0x41]);
    assert_eq!(utf16le_units(&[0x34, 0x12, 0x78, 0x56]), vec![0x1234, 0x5678]);
}

use rising_sun_common::clipboard::{
    clipboard_from_units, guest_clipboard_text, trim_trailing_nuls, unicode_clipboard, ClipboardSync,
    MAX_CLIPBOARD_UNITS,
};
use rising_sun_common::ioctl::{Clipboard, CLIPBOARD_TEXT, CLIPBOARD_UNICODE};

#[test]
fn unicode_payload_for_guest() {
    let clip = unicode_clipboard("Hi");
    assert_eq!(clip.format, CLIPBOARD_UNICODE);
    assert_eq!(clip.length, 6);
    assert_eq!(&clip.data[..6], &[0x48, 0, 0x69, 0, 0, 0]);
    let clip = unicode_clipboard("日本");
    assert_eq!(&clip.data[..4], &[0xE5, 0x65, 0x2C, 0x67]);
    let long = vec![0x41u16; 5000];
    let clip = clipboard_from_units(&long);
    assert_eq!(clip.length as usize, 2 * MAX_CLIPBOARD_UNITS + 2);
    assert_eq!(&clip.data[4092..4096], &[0x41, 0, 0, 0]);
}

#[test]
fn guest_payload_text() {
    let clip = unicode_clipboard("Hello");
    assert_eq!(guest_clipboard_text(&clip), Some("Hello".to_string()));
    let mut text = Clipboard::from_text("abc");
    text.length = 5;
    assert_eq!(text.format, CLIPBOARD_TEXT);
    assert_eq!(guest_clipboard_text(&text), Some("abc".to_string()));
    let empty = Clipboard::default();
    assert_eq!(guest_clipboard_text(&empty), None);
    let mut bad = Clipboard::default();
    bad.length = 9999;
    assert_eq!(guest_clipboard_text(&bad), None);
    assert_eq!(trim_trailing_nuls("ab\0\0"), "ab");
    assert_eq!(trim_trailing_nuls("a\0b"), "a\0b");
    assert_eq!(trim_trailing_nuls("\0"), "");
}

#[test]
fn sync_decisions() {
    let mut sync = ClipboardSync::new();
    assert!(sync.host_text_changed(7, false));
    assert!(!sync.host_text_changed(7, false));
    assert!(!sync.host_text_changed(8, true));
    sync.host_text_sent();
    assert_eq!(sync.host_to_guest_count, 1);
    // The guest echoing the host text back is not passed on.
    assert!(!sync.guest_text_polled(7, false));
    assert!(sync.guest_text_polled(9, false));
    assert!(!sync.guest_text_polled(9, false));
    assert_eq!(sync.guest_to_host_count, 1);
    assert!(sync.set_direction("hostToGuest"));
    assert!(sync.host_to_guest && !sync.guest_to_host);
    assert!(!sync.wants_guest_text());
    assert!(!sync.guest_text_polled(10, false));
    assert!(!sync.set_direction("sideways"));
    assert!(sync.set_direction("both"));
    assert!(sync.guest_to_host);
    sync.set_enabled(false);
    assert!(!sync.host_text_changed(11, false));
}

use rising_sun_common::clipboard::hash_text;

#[test]
fn test_hash_text() {
    let h1 = hash_text("hello");
    let h2 = hash_text("hello");
    let h3 = hash_text("world");
    assert_eq!(h1, h2);
    assert_ne!(h1, h3);
}
