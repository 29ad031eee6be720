use rising_sun_common::cdrom::{CdromAction, CdromUnit};
use rising_sun_common::scsi::{ScsiResult, SenseData};

fn sense_of(a: &CdromAction) -> (u8, u8, u8) {
    match a {
        CdromAction::Respond(ScsiResult::CheckCondition(s)) => (s.sense_key, s.asc, s.ascq),
        other => panic!("expected CHECK CONDITION, got {:?}", other),
    }
}

fn data_of(a: CdromAction) -> Vec<u8> {
    match a {
        CdromAction::Respond(ScsiResult::Good(v)) => v,
        other => panic!("expected data, got {:?}", other),
    }
}

fn loaded(total: u32) -> CdromUnit {
    let mut unit = CdromUnit::new();
    unit.insert_medium(total);
    // Consume the medium-change report.
    unit.execute(&[0x00, 0, 0, 0, 0, 0]);
    unit
}

#[test]
fn test_unit_ready_without_medium() {
    let mut unit = CdromUnit::new();
    assert_eq!(sense_of(&unit.execute(&[0x00, 0, 0, 0, 0, 0])), (0x02, 0x3A, 0x01));
    let sense = data_of(unit.execute(&[0x03, 0, 0, 0, 18, 0]));
    assert_eq!((sense[2], sense[12], sense[13]), (0x02, 0x3A, 0x01));
    let sense = data_of(unit.execute(&[0x03, 0, 0, 0, 18, 0]));
    assert_eq!((sense[2], sense[12]), (0, 0));
}

#[test]
fn medium_change_is_reported_once() {
    let mut unit = CdromUnit::new();
    unit.insert_medium(1000);
    assert_eq!(sense_of(&unit.execute(&[0x00, 0, 0, 0, 0, 0])), (0x06, 0x28, 0x00));
    assert!(matches!(unit.execute(&[0x00, 0, 0, 0, 0, 0]), CdromAction::Respond(ScsiResult::GoodNoData)));
}

#[test]
fn inquiry_ignores_pending_attention() {
    let mut unit = CdromUnit::new();
    unit.insert_medium(10);
    let inq = data_of(unit.execute(&[0x12, 0, 0, 0, 36, 0]));
    assert_eq!(inq.len(), 36);
    assert_eq!((inq[0], inq[1], inq[4]), (0x05, 0x80, 31));
    assert!(unit.unit_attention);
    assert_eq!(data_of(unit.execute(&[0x12, 0, 0, 0, 5, 0])).len(), 5);
}

#[test]
fn reads_past_the_end_are_out_of_range() {
    let mut unit = loaded(100);
    assert!(matches!(
        unit.execute(&[0x28, 0, 0, 0, 0, 90, 0, 0, 10, 0]),
        CdromAction::ReadBlocks { lba: 90, blocks: 10 }
    ));
    assert_eq!(sense_of(&unit.execute(&[0x28, 0, 0, 0, 0, 91, 0, 0, 10, 0])), (0x05, 0x21, 0x00));
    assert!(matches!(
        unit.execute(&[0x28, 0, 0, 0, 0, 5, 0, 0, 0, 0]),
        CdromAction::Respond(ScsiResult::GoodNoData)
    ));
    assert!(matches!(
        unit.execute(&[0xA8, 0, 0, 0, 0, 1, 0, 0, 0, 2, 0, 0]),
        CdromAction::ReadBlocks { lba: 1, blocks: 2 }
    ));
    assert_eq!(sense_of(&unit.execute(&[0xA8, 0, 0, 0, 0, 1, 0, 0, 0, 100, 0, 0])), (0x05, 0x21, 0x00));
    assert_eq!(sense_of(&unit.execute(&[0x2B, 0, 0, 0, 0, 100, 0, 0, 0, 0])), (0x05, 0x21, 0x00));
    assert!(matches!(
        unit.execute(&[0x2B, 0, 0, 0, 0, 99, 0, 0, 0, 0]),
        CdromAction::Respond(ScsiResult::GoodNoData)
    ));
}

#[test]
fn capacity_and_toc() {
    let mut unit = loaded(333000);
    let cap = data_of(unit.execute(&[0x25, 0, 0, 0, 0, 0, 0, 0, 0, 0]));
    assert_eq!(cap, vec![0x00, 0x05, 0x14, 0xC7, 0x00, 0x00, 0x08, 0x00]);
    let toc = data_of(unit.execute(&[0x43, 0, 0, 0, 0, 0, 0, 0, 20, 0]));
    assert_eq!(toc.len(), 20);
    assert_eq!(toc[14], 0xAA);
    let short = data_of(unit.execute(&[0x43, 0, 0, 0, 0, 0, 0, 0, 4, 0]));
    assert_eq!(short, vec![0, 18, 1, 1]);
}

#[test]
fn unsupported_commands_and_fields() {
    let mut unit = loaded(10);
    assert_eq!(sense_of(&unit.execute(&[0xFF, 0, 0, 0, 0, 0])), (0x05, 0x20, 0x00));
    assert_eq!(sense_of(&unit.execute(&[])), (0x05, 0x20, 0x00));
    assert_eq!(sense_of(&unit.execute(&[0x1A, 0, 0x2A, 0, 0xFF, 0])), (0x05, 0x24, 0x00));
    assert_eq!(data_of(unit.execute(&[0x1A, 0, 0x3F, 0, 0xFF, 0])), vec![3, 0, 0, 0]);
    assert_eq!(sense_of(&unit.execute(&[0x28, 0, 0, 0])), (0x05, 0x24, 0x00));
    assert!(matches!(
        unit.execute(&[0x1E, 0, 0, 0, 1, 0]),
        CdromAction::Respond(ScsiResult::GoodNoData)
    ));
}

#[test]
fn ejected_drive_has_no_medium() {
    let mut unit = loaded(10);
    unit.eject();
    assert_eq!(sense_of(&unit.execute(&[0x25, 0, 0, 0, 0, 0, 0, 0, 0, 0])), (0x02, 0x3A, 0x01));
    let stored = SenseData::medium_not_present();
    assert_eq!(unit.sense.asc, stored.asc);
}
