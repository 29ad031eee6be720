use rising_sun_common::drive_map::{drive_letter_of, is_valid_drive_letter, parse_drive_letter};

#[test]
fn test_parse_drive_letter() {
    assert_eq!(parse_drive_letter("F:"), Some('F'));
    assert_eq!(parse_drive_letter("F"), Some('F'));
    assert_eq!(parse_drive_letter("f:"), Some('F'));
    assert_eq!(parse_drive_letter("Z:"), Some('Z'));
    assert_eq!(parse_drive_letter("E:"), Some('E'));

    assert_eq!(parse_drive_letter("A:"), None);
    assert_eq!(parse_drive_letter("C:"), None);
    assert_eq!(parse_drive_letter("D:"), None);

    assert_eq!(parse_drive_letter("1:"), None);
    assert_eq!(parse_drive_letter(""), None);
}

#[test]
fn drive_letters_are_trimmed() {
    assert_eq!(parse_drive_letter("  g:  "), Some('G'));
    assert_eq!(parse_drive_letter("   "), None);
    assert!(is_valid_drive_letter("y"));
    assert!(!is_valid_drive_letter("b:"));
}

#[test]
fn drive_letter_of_uppercased_text() {
    assert_eq!(drive_letter_of("Q:"), Some('Q'));
    assert_eq!(drive_letter_of("q:"), None);
    assert_eq!(drive_letter_of(""), None);
    assert_eq!(drive_letter_of("[:"), None);
}

use rising_sun_common::drive_map::{expand_home, DriveMappings};

#[test]
fn home_expansion() {
    assert_eq!(expand_home("~/work", Some("/home/u")), "/home/u/work");
    assert_eq!(expand_home("~", Some("/home/u")), "/home/u");
    assert_eq!(expand_home("~/work", None), "~/work");
    assert_eq!(expand_home("/opt", Some("/home/u")), "/opt");
}

#[test]
fn mapping_table() {
    let mut maps = DriveMappings::new();
    assert_eq!(maps.count(), 0);
    assert_eq!(maps.available_letters().len(), 22);
    assert!(maps.add_mapping("f:", "/opt/SUNWspci", true, None));
    assert!(maps.add_mapping("H", "~", false, Some("/home/u")));
    assert!(!maps.add_mapping("C:", "/x", false, None));
    assert_eq!(maps.count(), 2);
    let free = maps.available_letters();
    assert_eq!(free.len(), 20);
    assert_eq!(&free[..3], &['E', 'G', 'I']);
    let reqs = maps.requests();
    assert_eq!(reqs.len(), 2);
    assert_eq!((reqs[0].letter, reqs[0].flags), (b'F', 1));
    assert_eq!(&reqs[0].path[..14], b"/opt/SUNWspci\0");
    assert_eq!((reqs[1].letter, reqs[1].flags), (b'H', 0));
    assert_eq!(&reqs[1].path[..8], b"/home/u\0");
    assert!(maps.remove_mapping("F:"));
    assert!(!maps.remove_mapping("F:"));
    assert_eq!(maps.count(), 1);
    maps.clear();
    assert_eq!(maps.count(), 0);
}

use rising_sun_common::drive_map::extract_json_string;

#[test]
fn test_extract_json_string() {
    let json = r#"{"driveLetter":"F:","hostPath":"/opt/SUNWspci"}"#;
    assert_eq!(extract_json_string(json, "driveLetter"), Some("F:".to_string()));
    assert_eq!(extract_json_string(json, "hostPath"), Some("/opt/SUNWspci".to_string()));
}

#[test]
fn json_string_edges() {
    assert_eq!(extract_json_string(r#"{"a" : "x\"y"}"#, "a"), Some(r#"x\"y"#.to_string()));
    assert_eq!(extract_json_string(r#"{"a":"unterminated"#, "a"), Some(String::new()));
    assert_eq!(extract_json_string(r#"{"a":1}"#, "b"), None);
    assert_eq!(extract_json_string(r#"{"a" 1}"#, "a"), None);
    assert_eq!(extract_json_string(r#"{"a":1}"#, "a"), None);
    assert_eq!(extract_json_string(r#"{"p":"Grüße"}"#, "p"), Some("Grüße".to_string()));
}
