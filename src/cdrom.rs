//! Command handling of the virtual CD-ROM drive.
//!
//! A `CdromUnit` answers SCSI commands for an ISO image of whole 2048-byte
//! sectors. It decides every outcome; reading the sectors of a READ command
//! is left to the caller, which gets the block range to read.
use vstd::prelude::*;
use crate::scsi::{
    be32_value, InquiryData, ReadCapacityData, ScsiResult, SenseData, SimpleToc, ASCQ_NONE,
    ASCQ_MEDIUM_NOT_PRESENT_TRAY_CLOSED, ASC_INVALID_COMMAND, ASC_INVALID_FIELD_IN_CDB,
    ASC_LBA_OUT_OF_RANGE, ASC_MEDIUM_MAY_HAVE_CHANGED, ASC_MEDIUM_NOT_PRESENT, ASC_NO_ADDITIONAL_SENSE,
    OP_INQUIRY, OP_MODE_SENSE_6, OP_PREVENT_ALLOW_MEDIUM_REMOVAL, OP_READ_10, OP_READ_12,
    OP_READ_CAPACITY, OP_READ_TOC, OP_REQUEST_SENSE, OP_SEEK_10, OP_TEST_UNIT_READY, PAGE_ALL_PAGES,
    SECTOR_SIZE_CDROM, SENSE_ILLEGAL_REQUEST, SENSE_NOT_READY, SENSE_NO_SENSE, SENSE_UNIT_ATTENTION,
    be_to_u32, cdb10_get_lba, cdb10_get_length, mode_sense_get_page_code,
};

verus! {

/// What the drive does with a command.
#[derive(Debug, Clone)]
pub enum CdromAction {
    /// Complete the command with this outcome.
    Respond(ScsiResult),
    /// Read `blocks` sectors from `lba` on and return them with GOOD status.
    ReadBlocks { lba: u32, blocks: u32 },
}

/// State of the virtual drive.
#[derive(Debug, Clone)]
pub struct CdromUnit {
    /// Sectors of the mounted image; `None` when the tray is empty.
    pub total_sectors: Option<u32>,
    /// The medium changed and no command has been told yet.
    pub unit_attention: bool,
    /// Sense data of the last failed command, for REQUEST SENSE.
    pub sense: SenseData,
}

/// The outcome is CHECK CONDITION with the given sense triple.
pub open spec fn is_check(a: CdromAction, key: u8, asc: u8, ascq: u8) -> bool {
    a matches CdromAction::Respond(ScsiResult::CheckCondition(s)) && s.is_record(key, asc, ascq)
}

/// The outcome is GOOD with exactly these bytes.
pub open spec fn is_good_data(a: CdromAction, data: Seq<u8>) -> bool {
    a matches CdromAction::Respond(ScsiResult::Good(v)) && v@ == data
}

/// The first `n` bytes of `data`, or all of them when there are fewer.
pub open spec fn clipped(data: Seq<u8>, n: int) -> Seq<u8> {
    if n < data.len() {
        data.subrange(0, n)
    } else {
        data
    }
}

/// Copies at most `n` bytes of `data`.
fn clip(data: &[u8], n: usize) -> (r: Vec<u8>)
    ensures
        r@ == clipped(data@, n as int),
{
    let m: usize = if n < data.len() { n } else { data.len() };
    let mut r: Vec<u8> = Vec::new();
    let mut i: usize = 0;
    while i < m
        invariant
            m <= data@.len(),
            m == (if n < data@.len() { n as int } else { data@.len() as int }),
            0 <= i <= m,
            r@ == data@.subrange(0, i as int),
        decreases m - i,
    {
        r.push(data[i]);
        i = i + 1;
        assert(r@ =~= data@.subrange(0, i as int));
    }
    assert(data@.subrange(0, data@.len() as int) =~= data@);
    r
}

/// The blocks a read names lie on a medium of `total` sectors.
pub open spec fn in_range(lba: int, blocks: int, total: int) -> bool {
    lba + blocks <= total
}

/// Whether an opcode is answered when the medium changed without telling.
pub open spec fn reports_attention(op: u8) -> bool {
    op != OP_INQUIRY && op != OP_REQUEST_SENSE
}

/// Opcodes this drive carries out.
pub open spec fn is_supported(op: u8) -> bool {
    op == OP_TEST_UNIT_READY || op == OP_REQUEST_SENSE || op == OP_INQUIRY || op == OP_MODE_SENSE_6
        || op == OP_PREVENT_ALLOW_MEDIUM_REMOVAL || op == OP_READ_CAPACITY || op == OP_READ_10
        || op == OP_READ_12 || op == OP_SEEK_10 || op == OP_READ_TOC
}

/// Opcodes that need a medium.
pub open spec fn needs_medium(op: u8) -> bool {
    op == OP_TEST_UNIT_READY || op == OP_READ_CAPACITY || op == OP_READ_10 || op == OP_READ_12
        || op == OP_SEEK_10 || op == OP_READ_TOC
}

/// Bytes a CDB of each opcode must hold for its fields to be read.
pub open spec fn cdb_min_len(op: u8) -> int {
    if op == OP_READ_10 || op == OP_SEEK_10 || op == OP_READ_TOC {
        10
    } else if op == OP_READ_12 {
        12
    } else {
        6
    }
}

impl CdromUnit {
    /// An empty drive with nothing to report.
    pub fn new() -> (r: Self)
        ensures
            r.total_sectors is None,
            !r.unit_attention,
            r.sense.is_record(SENSE_NO_SENSE, ASC_NO_ADDITIONAL_SENSE, ASCQ_NONE),
    {
        CdromUnit { total_sectors: None, unit_attention: false, sense: SenseData::no_sense() }
    }

    /// Loads an image of `total_sectors` sectors; the next command that
    /// needs attention reported learns that the medium changed.
    pub fn insert_medium(&mut self, total_sectors: u32)
        ensures
            final(self).total_sectors == Some(total_sectors),
            final(self).unit_attention,
            final(self).sense == old(self).sense,
    {
        self.total_sectors = Some(total_sectors);
        self.unit_attention = true;
    }

    /// Empties the tray.
    pub fn eject(&mut self)
        ensures
            final(self).total_sectors is None,
            !final(self).unit_attention,
            final(self).sense == old(self).sense,
    {
        self.total_sectors = None;
        self.unit_attention = false;
    }

    /// Carries out one command.
    ///
    /// INQUIRY and REQUEST SENSE are always answered. Any other command first
    /// reports a pending medium change, once. Then an unsupported opcode is an
    /// invalid command, a CDB too short for its fields an invalid field, a
    /// command that needs a medium fails without one, a read or seek past the
    /// last sector is out of range (never a short read), and MODE SENSE
    /// accepts only the all-pages code. Every CHECK CONDITION also becomes
    /// the sense that the next REQUEST SENSE returns.
    pub fn execute(&mut self, cdb: &[u8]) -> (r: CdromAction)
        ensures
            cdb@.len() == 0 ==> is_check(r, SENSE_ILLEGAL_REQUEST, ASC_INVALID_COMMAND, ASCQ_NONE),
            cdb@.len() > 0 ==> ({
                let op = cdb@[0];
                if op == OP_INQUIRY {
                    is_good_data(r, clipped(InquiryData::new_bytes(), cdb_alloc6(cdb@)))
                } else if op == OP_REQUEST_SENSE {
                    &&& is_good_data(r, clipped(old(self).sense.spec_bytes(), cdb_alloc6(cdb@)))
                    &&& final(self).sense.is_record(SENSE_NO_SENSE, ASC_NO_ADDITIONAL_SENSE, ASCQ_NONE)
                } else if old(self).unit_attention {
                    &&& is_check(r, SENSE_UNIT_ATTENTION, ASC_MEDIUM_MAY_HAVE_CHANGED, ASCQ_NONE)
                    &&& !final(self).unit_attention
                } else if !is_supported(op) {
                    is_check(r, SENSE_ILLEGAL_REQUEST, ASC_INVALID_COMMAND, ASCQ_NONE)
                } else if cdb@.len() < cdb_min_len(op) {
                    is_check(r, SENSE_ILLEGAL_REQUEST, ASC_INVALID_FIELD_IN_CDB, ASCQ_NONE)
                } else if needs_medium(op) && old(self).total_sectors is None {
                    is_check(r, SENSE_NOT_READY, ASC_MEDIUM_NOT_PRESENT, ASCQ_MEDIUM_NOT_PRESENT_TRAY_CLOSED)
                } else {
                    command_outcome(r, op, cdb@, old(self).total_sectors->Some_0)
                }
            }),
            final(self).total_sectors == old(self).total_sectors,
            cdb@.len() > 0 && !reports_attention(cdb@[0]) ==> final(self).unit_attention == old(self).unit_attention,
            r matches CdromAction::Respond(ScsiResult::CheckCondition(s)) ==> final(self).sense == s,
    {
        let r = self.decide(cdb);
        match &r {
            CdromAction::Respond(ScsiResult::CheckCondition(s)) => {
                self.sense = *s;
            },
            _ => {},
        }
        r
    }

    /// The outcome of a command, with the changes to the attention flag and
    /// the stored sense that answering it makes (but not the sense that a
    /// failure stores).
    fn decide(&mut self, cdb: &[u8]) -> (r: CdromAction)
        ensures
            cdb@.len() == 0 ==> is_check(r, SENSE_ILLEGAL_REQUEST, ASC_INVALID_COMMAND, ASCQ_NONE),
            cdb@.len() > 0 ==> ({
                let op = cdb@[0];
                if op == OP_INQUIRY {
                    is_good_data(r, clipped(InquiryData::new_bytes(), cdb_alloc6(cdb@)))
                        && final(self).sense == old(self).sense
                } else if op == OP_REQUEST_SENSE {
                    &&& is_good_data(r, clipped(old(self).sense.spec_bytes(), cdb_alloc6(cdb@)))
                    &&& final(self).sense.is_record(SENSE_NO_SENSE, ASC_NO_ADDITIONAL_SENSE, ASCQ_NONE)
                } else if old(self).unit_attention {
                    &&& is_check(r, SENSE_UNIT_ATTENTION, ASC_MEDIUM_MAY_HAVE_CHANGED, ASCQ_NONE)
                    &&& !final(self).unit_attention
                } else if !is_supported(op) {
                    is_check(r, SENSE_ILLEGAL_REQUEST, ASC_INVALID_COMMAND, ASCQ_NONE)
                } else if cdb@.len() < cdb_min_len(op) {
                    is_check(r, SENSE_ILLEGAL_REQUEST, ASC_INVALID_FIELD_IN_CDB, ASCQ_NONE)
                } else if needs_medium(op) && old(self).total_sectors is None {
                    is_check(r, SENSE_NOT_READY, ASC_MEDIUM_NOT_PRESENT, ASCQ_MEDIUM_NOT_PRESENT_TRAY_CLOSED)
                } else {
                    command_outcome(r, op, cdb@, old(self).total_sectors->Some_0)
                }
            }),
            final(self).total_sectors == old(self).total_sectors,
            cdb@.len() > 0 && !reports_attention(cdb@[0]) ==> final(self).unit_attention == old(self).unit_attention,
    {
        if cdb.len() == 0 {
            return CdromAction::Respond(ScsiResult::CheckCondition(SenseData::invalid_command()));
        }
        let op = cdb[0];
        if op == OP_INQUIRY {
            let alloc: usize = if cdb.len() >= 5 { cdb[4] as usize } else { 0 };
            let inquiry = InquiryData::new();
            let bytes = inquiry.to_bytes();
            assert(inquiry.flags@ =~= seq![0u8, 0u8, 0u8]);
            assert(bytes@ =~= InquiryData::new_bytes());
            return CdromAction::Respond(ScsiResult::Good(clip(bytes.as_slice(), alloc)));
        }
        if op == OP_REQUEST_SENSE {
            let alloc: usize = if cdb.len() >= 5 { cdb[4] as usize } else { 0 };
            let bytes = self.sense.to_bytes();
            self.sense = SenseData::no_sense();
            return CdromAction::Respond(ScsiResult::Good(clip(bytes.as_slice(), alloc)));
        }
        if self.unit_attention {
            self.unit_attention = false;
            return CdromAction::Respond(ScsiResult::CheckCondition(SenseData::medium_changed()));
        }
        let supported = op == OP_TEST_UNIT_READY || op == OP_REQUEST_SENSE || op == OP_INQUIRY
            || op == OP_MODE_SENSE_6 || op == OP_PREVENT_ALLOW_MEDIUM_REMOVAL || op == OP_READ_CAPACITY
            || op == OP_READ_10 || op == OP_READ_12 || op == OP_SEEK_10 || op == OP_READ_TOC;
        if !supported {
            return CdromAction::Respond(ScsiResult::CheckCondition(SenseData::invalid_command()));
        }
        let min_len: usize = if op == OP_READ_10 || op == OP_SEEK_10 || op == OP_READ_TOC {
            10
        } else if op == OP_READ_12 {
            12
        } else {
            6
        };
        if cdb.len() < min_len {
            return CdromAction::Respond(ScsiResult::CheckCondition(SenseData::invalid_field()));
        }
        let needs = op == OP_TEST_UNIT_READY || op == OP_READ_CAPACITY || op == OP_READ_10
            || op == OP_READ_12 || op == OP_SEEK_10 || op == OP_READ_TOC;
        let total: u32 = match self.total_sectors {
            Some(t) => t,
            None => {
                if needs {
                    return CdromAction::Respond(
                        ScsiResult::CheckCondition(SenseData::medium_not_present()),
                    );
                }
                0
            },
        };
        respond(op, cdb, total)
    }
}

/// Allocation length of a 6-byte CDB (byte 4), 0 when absent.
pub open spec fn cdb_alloc6(cdb: Seq<u8>) -> int {
    if cdb.len() >= 5 {
        cdb[4] as int
    } else {
        0
    }
}

/// Logical block address of a READ(12) CDB: bytes 2 to 5, big-endian.
pub open spec fn read12_lba(cdb: Seq<u8>) -> u32 {
    be32_value(cdb[2], cdb[3], cdb[4], cdb[5])
}

/// Transfer length of a READ(12) CDB: bytes 6 to 9, big-endian.
pub open spec fn read12_length(cdb: Seq<u8>) -> u32 {
    be32_value(cdb[6], cdb[7], cdb[8], cdb[9])
}

/// READ(10) and SEEK(10) address: bytes 2 to 5, big-endian.
pub open spec fn read10_lba(cdb: Seq<u8>) -> u32 {
    be32_value(cdb[2], cdb[3], cdb[4], cdb[5])
}

/// READ(10) transfer length: bytes 7 and 8, big-endian.
pub open spec fn read10_length(cdb: Seq<u8>) -> u32 {
    (cdb[7] as int * 256 + cdb[8] as int) as u32
}

/// What a supported command that passed the common checks does on a medium
/// of `total` sectors (0 when none is needed and none is loaded).
pub open spec fn command_outcome(r: CdromAction, op: u8, cdb: Seq<u8>, total: u32) -> bool {
    if op == OP_TEST_UNIT_READY || op == OP_PREVENT_ALLOW_MEDIUM_REMOVAL {
        r matches CdromAction::Respond(ScsiResult::GoodNoData)
    } else if op == OP_READ_CAPACITY {
        is_good_data(
            r,
            crate::scsi::be32(if total > 0 { (total - 1) as u32 } else { 0u32 }) + crate::scsi::be32(
                SECTOR_SIZE_CDROM,
            ),
        )
    } else if op == OP_READ_TOC {
        is_good_data(r, clipped(crate::scsi::simple_toc_bytes(total), cdb[7] as int * 256 + cdb[8] as int))
    } else if op == OP_MODE_SENSE_6 {
        if cdb[2] & 0x3F == PAGE_ALL_PAGES {
            is_good_data(r, clipped(seq![3u8, 0u8, 0u8, 0u8], cdb[4] as int))
        } else {
            is_check(r, SENSE_ILLEGAL_REQUEST, ASC_INVALID_FIELD_IN_CDB, ASCQ_NONE)
        }
    } else {
        let (lba, blocks) = if op == OP_READ_12 {
            (read12_lba(cdb), read12_length(cdb))
        } else if op == OP_READ_10 {
            (read10_lba(cdb), read10_length(cdb))
        } else {
            (read10_lba(cdb), 0u32)
        };
        if op == OP_SEEK_10 {
            if lba < total {
                r matches CdromAction::Respond(ScsiResult::GoodNoData)
            } else {
                is_check(r, SENSE_ILLEGAL_REQUEST, ASC_LBA_OUT_OF_RANGE, ASCQ_NONE)
            }
        } else if !in_range(lba as int, blocks as int, total as int) {
            is_check(r, SENSE_ILLEGAL_REQUEST, ASC_LBA_OUT_OF_RANGE, ASCQ_NONE)
        } else if blocks == 0 {
            r matches CdromAction::Respond(ScsiResult::GoodNoData)
        } else {
            r == CdromAction::ReadBlocks { lba, blocks }
        }
    }
}

/// Answers a supported command whose CDB is long enough, given the sectors
/// of the loaded medium (0 when none is needed and none is loaded).
fn respond(op: u8, cdb: &[u8], total: u32) -> (r: CdromAction)
    requires
        is_supported(op),
        op != OP_INQUIRY,
        op != OP_REQUEST_SENSE,
        cdb@.len() >= cdb_min_len(op),
        cdb@.len() > 0,
    ensures
        command_outcome(r, op, cdb@, total),
{
    if op == OP_TEST_UNIT_READY || op == OP_PREVENT_ALLOW_MEDIUM_REMOVAL {
        return CdromAction::Respond(ScsiResult::GoodNoData);
    }
    if op == OP_READ_CAPACITY {
        let cap = ReadCapacityData::new(total, SECTOR_SIZE_CDROM).to_bytes();
        let v = clip(cap.as_slice(), 8);
        return CdromAction::Respond(ScsiResult::Good(v));
    }
    if op == OP_READ_TOC {
        let toc = SimpleToc::new(total).to_bytes();
        let alloc: usize = cdb10_get_length(cdb) as usize;
        return CdromAction::Respond(ScsiResult::Good(clip(toc.as_slice(), alloc)));
    }
    if op == OP_MODE_SENSE_6 {
        if mode_sense_get_page_code(cdb) == PAGE_ALL_PAGES {
            let header: [u8; 4] = [3, 0, 0, 0];
            let v = clip(header.as_slice(), cdb[4] as usize);
            assert(header@ =~= seq![3u8, 0u8, 0u8, 0u8]);
            return CdromAction::Respond(ScsiResult::Good(v));
        }
        return CdromAction::Respond(ScsiResult::CheckCondition(SenseData::invalid_field()));
    }
    let lba = cdb10_get_lba(cdb);
    let blocks: u32 = if op == OP_READ_12 {
        be_to_u32(cdb[6], cdb[7], cdb[8], cdb[9])
    } else if op == OP_READ_10 {
        cdb10_get_length(cdb) as u32
    } else {
        0
    };
    if op == OP_SEEK_10 {
        if lba < total {
            return CdromAction::Respond(ScsiResult::GoodNoData);
        }
        return CdromAction::Respond(ScsiResult::CheckCondition(SenseData::lba_out_of_range()));
    }
    if lba as u64 + blocks as u64 > total as u64 {
        return CdromAction::Respond(ScsiResult::CheckCondition(SenseData::lba_out_of_range()));
    }
    if blocks == 0 {
        return CdromAction::Respond(ScsiResult::GoodNoData);
    }
    CdromAction::ReadBlocks { lba, blocks }
}

} // verus!
