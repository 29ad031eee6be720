use rising_sun_common::network::{format_mac_address, parse_mac_address};

#[test]
fn test_parse_mac_address() {
    assert_eq!(parse_mac_address("00:11:22:33:44:55"), Some([0x00, 0x11, 0x22, 0x33, 0x44, 0x55]));
    assert_eq!(parse_mac_address("AA:BB:CC:DD:EE:FF"), Some([0xAA, 0xBB, 0xCC, 0xDD, 0xEE, 0xFF]));
    assert_eq!(parse_mac_address("invalid"), None);
    assert_eq!(parse_mac_address("00:11:22"), None);
}

#[test]
fn test_format_mac_address() {
    assert_eq!(format_mac_address(&[0x00, 0x11, 0x22, 0x33, 0x44, 0x55]), "00:11:22:33:44:55");
}

#[test]
fn mac_fields_follow_hex_byte_rules() {
    assert_eq!(parse_mac_address("a:b:c:d:e:f"), Some([0xA, 0xB, 0xC, 0xD, 0xE, 0xF]));
    assert_eq!(parse_mac_address("+1:02:003:4:5:6"), Some([1, 2, 3, 4, 5, 6]));
    assert_eq!(parse_mac_address("100:11:22:33:44:55"), None);
    assert_eq!(parse_mac_address("00:11:22:33:44:"), None);
    assert_eq!(parse_mac_address("00:11:22:33:44:55:66"), None);
    assert_eq!(parse_mac_address("00:11:22:33:44:5g"), None);
    assert_eq!(parse_mac_address("+:11:22:33:44:55"), None);
    assert_eq!(parse_mac_address(""), None);
}

#[test]
fn formatted_mac_parses_back() {
    let mac = [0xDE, 0xAD, 0xBE, 0xEF, 0x0A, 0x01];
    let text = format_mac_address(&mac);
    assert_eq!(text, "DE:AD:BE:EF:0A:01");
    assert_eq!(parse_mac_address(&text), Some(mac));
}

use rising_sun_common::ioctl::NetworkConfig;

#[test]
fn pending_network_config_edits() {
    let mut cfg = NetworkConfig::default();
    cfg.flags = 2;
    cfg.set_enabled(true);
    assert_eq!(cfg.flags, 3);
    cfg.set_enabled(false);
    assert_eq!(cfg.flags, 2);
    cfg.set_interface("eth0");
    assert_eq!(&cfg.interface[..5], b"eth0\0");
    cfg.set_interface(&"n".repeat(40));
    assert_eq!(cfg.interface[31], 0);
    assert!(cfg.set_mac("00:11:22:33:44:55"));
    assert_eq!(cfg.mac_address, [0, 0x11, 0x22, 0x33, 0x44, 0x55]);
    assert!(!cfg.set_mac("bogus"));
    assert_eq!(cfg.mac_address, [0, 0x11, 0x22, 0x33, 0x44, 0x55]);
    assert!(cfg.set_mac(""));
    assert_eq!(cfg.mac_address, [0; 6]);
}

use rising_sun_common::network::interface_type;

#[test]
fn interface_kinds() {
    assert_eq!(interface_type("wlp3s0", true, Some(1)), "Wireless");
    assert_eq!(interface_type("virbr0", false, Some(1)), "Bridge");
    assert_eq!(interface_type("docker0", false, Some(1)), "Virtual");
    assert_eq!(interface_type("tun0", false, Some(1)), "TAP/TUN");
    assert_eq!(interface_type("enp0s3", false, Some(1)), "Ethernet");
    assert_eq!(interface_type("foo", false, Some(772)), "Loopback");
    assert_eq!(interface_type("eth1", false, None), "Ethernet");
    assert_eq!(interface_type("wlan0", false, Some(801)), "Wireless");
    assert_eq!(interface_type("br-lan", false, None), "Bridge");
    assert_eq!(interface_type("veth9", false, None), "Virtual");
    assert_eq!(interface_type("xyz", false, None), "Unknown");
}
