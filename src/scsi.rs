//! SCSI-2/MMC-2 vocabulary and response builders for a file-backed CD-ROM.
//!
//! Multi-byte fields in CDBs and responses are big-endian, as SCSI requires.
use vstd::prelude::*;
use vstd::string::StringSliceAdditionalSpecFns;

verus! {

// Command opcodes.
pub const OP_TEST_UNIT_READY: u8 = 0x00;
pub const OP_REQUEST_SENSE: u8 = 0x03;
pub const OP_INQUIRY: u8 = 0x12;
pub const OP_MODE_SENSE_6: u8 = 0x1A;
pub const OP_PREVENT_ALLOW_MEDIUM_REMOVAL: u8 = 0x1E;
pub const OP_READ_CAPACITY: u8 = 0x25;
pub const OP_READ_10: u8 = 0x28;
pub const OP_SEEK_10: u8 = 0x2B;
pub const OP_READ_TOC: u8 = 0x43;
pub const OP_GET_CONFIGURATION: u8 = 0x46;
pub const OP_GET_EVENT_STATUS_NOTIFICATION: u8 = 0x4A;
pub const OP_READ_DISC_INFORMATION: u8 = 0x51;
pub const OP_MODE_SENSE_10: u8 = 0x5A;
pub const OP_READ_12: u8 = 0xA8;
pub const OP_REPORT_KEY: u8 = 0xA4;
pub const OP_MECHANISM_STATUS: u8 = 0xBD;
pub const OP_READ_CD: u8 = 0xBE;

// Status codes.
pub const STATUS_GOOD: u8 = 0x00;
pub const STATUS_CHECK_CONDITION: u8 = 0x02;
pub const STATUS_CONDITION_MET: u8 = 0x04;
pub const STATUS_BUSY: u8 = 0x08;
pub const STATUS_RESERVATION_CONFLICT: u8 = 0x18;
pub const STATUS_TASK_SET_FULL: u8 = 0x28;
pub const STATUS_ACA_ACTIVE: u8 = 0x30;
pub const STATUS_TASK_ABORTED: u8 = 0x40;

// Sense keys.
pub const SENSE_NO_SENSE: u8 = 0x00;
pub const SENSE_RECOVERED_ERROR: u8 = 0x01;
pub const SENSE_NOT_READY: u8 = 0x02;
pub const SENSE_MEDIUM_ERROR: u8 = 0x03;
pub const SENSE_HARDWARE_ERROR: u8 = 0x04;
pub const SENSE_ILLEGAL_REQUEST: u8 = 0x05;
pub const SENSE_UNIT_ATTENTION: u8 = 0x06;
pub const SENSE_DATA_PROTECT: u8 = 0x07;
pub const SENSE_BLANK_CHECK: u8 = 0x08;
pub const SENSE_ABORTED_COMMAND: u8 = 0x0B;

// Additional sense codes.
pub const ASC_NO_ADDITIONAL_SENSE: u8 = 0x00;
pub const ASC_LUN_NOT_READY: u8 = 0x04;
pub const ASC_MEDIUM_NOT_PRESENT: u8 = 0x3A;
pub const ASC_INVALID_COMMAND: u8 = 0x20;
pub const ASC_LBA_OUT_OF_RANGE: u8 = 0x21;
pub const ASC_INVALID_FIELD_IN_CDB: u8 = 0x24;
pub const ASC_POWER_ON_RESET: u8 = 0x29;
pub const ASC_PARAMETERS_CHANGED: u8 = 0x2A;
pub const ASC_MEDIUM_MAY_HAVE_CHANGED: u8 = 0x28;

// Additional sense code qualifiers.
pub const ASCQ_NONE: u8 = 0x00;
pub const ASCQ_BECOMING_READY: u8 = 0x01;
pub const ASCQ_MEDIUM_NOT_PRESENT_TRAY_CLOSED: u8 = 0x01;
pub const ASCQ_MEDIUM_NOT_PRESENT_TRAY_OPEN: u8 = 0x02;
pub const ASCQ_POWER_ON_OCCURRED: u8 = 0x00;
pub const ASCQ_BUS_RESET_OCCURRED: u8 = 0x02;

// Peripheral device types.
pub const DEVICE_DISK: u8 = 0x00;
pub const DEVICE_TAPE: u8 = 0x01;
pub const DEVICE_CDROM: u8 = 0x05;
pub const DEVICE_OPTICAL: u8 = 0x07;
pub const DEVICE_CHANGER: u8 = 0x08;

// Mode page codes.
pub const PAGE_RW_ERROR_RECOVERY: u8 = 0x01;
pub const PAGE_CD_DEVICE_PARAMETERS: u8 = 0x0D;
pub const PAGE_CD_AUDIO_CONTROL: u8 = 0x0E;
pub const PAGE_POWER_CONDITION: u8 = 0x1A;
pub const PAGE_CAPABILITIES: u8 = 0x2A;
pub const PAGE_ALL_PAGES: u8 = 0x3F;

/// Mode 1 data sector size.
pub const SECTOR_SIZE_CDROM: u32 = 2048;

/// Raw Mode 1 sector size, EDC/ECC included.
pub const SECTOR_SIZE_CDROM_RAW: u32 = 2352;

/// The big-endian encoding of a 32-bit value.
pub open spec fn be32(v: u32) -> Seq<u8> {
    seq![
        (v / 0x100_0000) as u8,
        (v / 0x1_0000 % 0x100) as u8,
        (v / 0x100 % 0x100) as u8,
        (v % 0x100) as u8,
    ]
}

/// The value of four big-endian bytes.
pub open spec fn be32_value(b0: u8, b1: u8, b2: u8, b3: u8) -> u32 {
    (b0 as int * 0x100_0000 + b1 as int * 0x1_0000 + b2 as int * 0x100 + b3 as int) as u32
}

/// The value of two big-endian bytes.
pub open spec fn be16_value(b0: u8, b1: u8) -> u16 {
    (b0 as int * 0x100 + b1 as int) as u16
}

/// Encodes a 32-bit value as four big-endian bytes.
pub fn u32_to_be(v: u32) -> (r: [u8; 4])
    ensures
        r@ == be32(v),
        be32_value(r@[0], r@[1], r@[2], r@[3]) == v,
{
    let r = [(v >> 24u32) as u8, (v >> 16u32) as u8, (v >> 8u32) as u8, v as u8];
    assert((v >> 24u32) as u8 == (v / 0x100_0000) as u8) by (bit_vector);
    assert((v >> 16u32) as u8 == (v / 0x1_0000 % 0x100) as u8) by (bit_vector);
    assert((v >> 8u32) as u8 == (v / 0x100 % 0x100) as u8) by (bit_vector);
    assert(v as u8 == (v % 0x100) as u8) by (bit_vector);
    assert(r@ =~= be32(v));
    assert(((v / 0x100_0000) as u8) as int * 0x100_0000 + ((v / 0x1_0000 % 0x100) as u8) as int
        * 0x1_0000 + ((v / 0x100 % 0x100) as u8) as int * 0x100 + ((v % 0x100) as u8) as int
        == v as int) by (nonlinear_arith);
    r
}

/// Decodes four big-endian bytes.
pub fn be_to_u32(b0: u8, b1: u8, b2: u8, b3: u8) -> (r: u32)
    ensures
        r == be32_value(b0, b1, b2, b3),
        r as int == b0 as int * 0x100_0000 + b1 as int * 0x1_0000 + b2 as int * 0x100 + b3 as int,
{
    let r = ((b0 as u32) << 24u32) | ((b1 as u32) << 16u32) | ((b2 as u32) << 8u32) | (b3 as u32);
    assert(((b0 as u32) << 24u32) | ((b1 as u32) << 16u32) | ((b2 as u32) << 8u32) | (b3 as u32)
        == b0 as u32 * 0x100_0000u32 + b1 as u32 * 0x1_0000u32 + b2 as u32 * 0x100u32 + b3 as u32)
        by (bit_vector);
    r
}

/// Fixed-format sense data (18 bytes).
#[derive(Debug, Clone, Copy, Default)]
pub struct SenseData {
    /// 0x70 current, 0x71 deferred.
    pub response_code: u8,
    pub obsolete: u8,
    /// Sense key, with flags in the high nibble.
    pub sense_key: u8,
    pub information: [u8; 4],
    /// Always 10 in fixed format.
    pub additional_length: u8,
    pub command_specific: [u8; 4],
    pub asc: u8,
    pub ascq: u8,
    /// Field replaceable unit code.
    pub fruc: u8,
    pub sense_key_specific: [u8; 3],
}

impl SenseData {
    /// Size of fixed-format sense data.
    pub const SIZE: usize = 18;

    /// A current, fixed-format record with the given triple and every
    /// optional byte zero.
    pub open spec fn is_record(self, key: u8, asc: u8, ascq: u8) -> bool {
        &&& self.response_code == 0x70
        &&& self.obsolete == 0
        &&& self.sense_key == key
        &&& self.information@ == seq![0u8, 0u8, 0u8, 0u8]
        &&& self.additional_length == 10
        &&& self.command_specific@ == seq![0u8, 0u8, 0u8, 0u8]
        &&& self.asc == asc
        &&& self.ascq == ascq
        &&& self.fruc == 0
        &&& self.sense_key_specific@ == seq![0u8, 0u8, 0u8]
    }

    /// The 18 bytes of a record, in wire order.
    pub open spec fn spec_bytes(self) -> Seq<u8> {
        seq![self.response_code, self.obsolete, self.sense_key] + self.information@ + seq![
            self.additional_length,
        ] + self.command_specific@ + seq![self.asc, self.ascq, self.fruc]
            + self.sense_key_specific@
    }

    /// Sense data for the given (sense key, ASC, ASCQ) triple.
    pub fn new(sense_key: u8, asc: u8, ascq: u8) -> (r: Self)
        ensures
            r.is_record(sense_key, asc, ascq),
    {
        let r = SenseData {
            response_code: 0x70,
            obsolete: 0,
            sense_key,
            information: [0u8; 4],
            additional_length: 10,
            command_specific: [0u8; 4],
            asc,
            ascq,
            fruc: 0,
            sense_key_specific: [0u8; 3],
        };
        assert(r.information@ =~= seq![0u8, 0u8, 0u8, 0u8]);
        assert(r.command_specific@ =~= seq![0u8, 0u8, 0u8, 0u8]);
        assert(r.sense_key_specific@ =~= seq![0u8, 0u8, 0u8]);
        r
    }

    /// Sense data reporting no error.
    pub fn no_sense() -> (r: Self)
        ensures
            r.is_record(SENSE_NO_SENSE, ASC_NO_ADDITIONAL_SENSE, ASCQ_NONE),
    {
        SenseData::new(SENSE_NO_SENSE, ASC_NO_ADDITIONAL_SENSE, ASCQ_NONE)
    }

    /// NOT READY, medium not present (tray closed).
    pub fn medium_not_present() -> (r: Self)
        ensures
            r.is_record(SENSE_NOT_READY, ASC_MEDIUM_NOT_PRESENT, ASCQ_MEDIUM_NOT_PRESENT_TRAY_CLOSED),
    {
        SenseData::new(SENSE_NOT_READY, ASC_MEDIUM_NOT_PRESENT, ASCQ_MEDIUM_NOT_PRESENT_TRAY_CLOSED)
    }

    /// UNIT ATTENTION, medium may have changed.
    pub fn medium_changed() -> (r: Self)
        ensures
            r.is_record(SENSE_UNIT_ATTENTION, ASC_MEDIUM_MAY_HAVE_CHANGED, ASCQ_NONE),
    {
        SenseData::new(SENSE_UNIT_ATTENTION, ASC_MEDIUM_MAY_HAVE_CHANGED, ASCQ_NONE)
    }

    /// ILLEGAL REQUEST, invalid command operation code.
    pub fn invalid_command() -> (r: Self)
        ensures
            r.is_record(SENSE_ILLEGAL_REQUEST, ASC_INVALID_COMMAND, ASCQ_NONE),
    {
        SenseData::new(SENSE_ILLEGAL_REQUEST, ASC_INVALID_COMMAND, ASCQ_NONE)
    }

    /// ILLEGAL REQUEST, invalid field in CDB.
    pub fn invalid_field() -> (r: Self)
        ensures
            r.is_record(SENSE_ILLEGAL_REQUEST, ASC_INVALID_FIELD_IN_CDB, ASCQ_NONE),
    {
        SenseData::new(SENSE_ILLEGAL_REQUEST, ASC_INVALID_FIELD_IN_CDB, ASCQ_NONE)
    }

    /// ILLEGAL REQUEST, logical block address out of range.
    pub fn lba_out_of_range() -> (r: Self)
        ensures
            r.is_record(SENSE_ILLEGAL_REQUEST, ASC_LBA_OUT_OF_RANGE, ASCQ_NONE),
    {
        SenseData::new(SENSE_ILLEGAL_REQUEST, ASC_LBA_OUT_OF_RANGE, ASCQ_NONE)
    }

    /// The record in wire order.
    pub fn to_bytes(&self) -> (r: [u8; 18])
        ensures
            r@ == self.spec_bytes(),
    {
        let r = [
            self.response_code,
            self.obsolete,
            self.sense_key,
            self.information[0],
            self.information[1],
            self.information[2],
            self.information[3],
            self.additional_length,
            self.command_specific[0],
            self.command_specific[1],
            self.command_specific[2],
            self.command_specific[3],
            self.asc,
            self.ascq,
            self.fruc,
            self.sense_key_specific[0],
            self.sense_key_specific[1],
            self.sense_key_specific[2],
        ];
        assert(r@ =~= self.spec_bytes());
        r
    }
}


/// `src` cut or padded with spaces to exactly `n` bytes.
pub open spec fn space_padded(src: Seq<u8>, n: int) -> Seq<u8> {
    Seq::new(n as nat, |i: int| if i < src.len() { src[i] } else { 0x20u8 })
}

/// Copies `src` into an `N`-byte field, truncating it or padding it with spaces.
pub fn pad_field<const N: usize>(src: &[u8]) -> (r: [u8; N])
    ensures
        r@ == space_padded(src@, N as int),
{
    let mut r = [0x20u8; N];
    let n: usize = if src.len() < N { src.len() } else { N };
    let mut i: usize = 0;
    while i < n
        invariant
            n as int == (if src@.len() < N { src@.len() as int } else { N as int }),
            0 <= i <= n,
            r@.len() == N,
            forall|j: int| 0 <= j < i ==> r@[j] == src@[j],
            forall|j: int| i <= j < N ==> r@[j] == 0x20u8,
        decreases n - i,
    {
        r[i] = src[i];
        i = i + 1;
    }
    assert(r@ =~= space_padded(src@, N as int));
    r
}

/// Standard 36-byte INQUIRY response.
#[derive(Debug, Clone, Copy)]
pub struct InquiryData {
    /// Peripheral qualifier and device type.
    pub peripheral: u8,
    /// Removable-media bit (0x80).
    pub rmb: u8,
    pub version: u8,
    pub response_format: u8,
    /// 31 for a 36-byte response.
    pub additional_length: u8,
    pub flags: [u8; 3],
    /// Space-padded vendor identification.
    pub vendor: [u8; 8],
    /// Space-padded product identification.
    pub product: [u8; 16],
    /// Space-padded product revision.
    pub revision: [u8; 4],
}

impl Default for InquiryData {
    fn default() -> (r: Self)
        ensures
            r.is_cdrom_header(),
            r.vendor@ == space_padded(seq![0x53u8, 0x55u8, 0x4Eu8], 8),
            r.product@ == space_padded(
                seq![0x56u8, 0x69u8, 0x72u8, 0x74u8, 0x75u8, 0x61u8, 0x6Cu8, 0x20u8, 0x43u8, 0x44u8, 0x52u8, 0x4Fu8, 0x4Du8],
                16,
            ),
            r.revision@ == space_padded(seq![0x31u8, 0x2Eu8, 0x30u8], 4),
    {
        InquiryData::new()
    }
}

impl InquiryData {
    /// Standard size of an INQUIRY response.
    pub const SIZE: usize = 36;

    /// The fixed leading bytes of a removable SCSI-2 CD-ROM.
    pub open spec fn is_cdrom_header(self) -> bool {
        &&& self.peripheral == DEVICE_CDROM
        &&& self.rmb == 0x80
        &&& self.version == 0x02
        &&& self.response_format == 0x02
        &&& self.additional_length == 31
        &&& self.flags@ == seq![0u8, 0u8, 0u8]
    }

    /// The 36 bytes of a response, in wire order.
    pub open spec fn spec_bytes(self) -> Seq<u8> {
        seq![
            self.peripheral,
            self.rmb,
            self.version,
            self.response_format,
            self.additional_length,
        ] + self.flags@ + self.vendor@ + self.product@ + self.revision@
    }

    /// The INQUIRY response of the virtual drive, in wire order.
    pub open spec fn new_bytes() -> Seq<u8> {
        seq![0x05u8, 0x80u8, 0x02u8, 0x02u8, 31u8, 0u8, 0u8, 0u8] + space_padded(
            seq![0x53u8, 0x55u8, 0x4Eu8],
            8,
        ) + space_padded(
            seq![0x56u8, 0x69u8, 0x72u8, 0x74u8, 0x75u8, 0x61u8, 0x6Cu8, 0x20u8, 0x43u8, 0x44u8, 0x52u8, 0x4Fu8, 0x4Du8],
            16,
        ) + space_padded(seq![0x31u8, 0x2Eu8, 0x30u8], 4)
    }

    /// The response of the virtual drive: vendor "SUN", product
    /// "Virtual CDROM", revision "1.0".
    pub fn new() -> (r: Self)
        ensures
            r.is_cdrom_header(),
            r.vendor@ == space_padded(seq![0x53u8, 0x55u8, 0x4Eu8], 8),
            r.product@ == space_padded(
                seq![0x56u8, 0x69u8, 0x72u8, 0x74u8, 0x75u8, 0x61u8, 0x6Cu8, 0x20u8, 0x43u8, 0x44u8, 0x52u8, 0x4Fu8, 0x4Du8],
                16,
            ),
            r.revision@ == space_padded(seq![0x31u8, 0x2Eu8, 0x30u8], 4),
    {
        let vendor: [u8; 3] = [0x53, 0x55, 0x4E];
        let product: [u8; 13] = [0x56, 0x69, 0x72, 0x74, 0x75, 0x61, 0x6C, 0x20, 0x43, 0x44, 0x52, 0x4F, 0x4D];
        let revision: [u8; 3] = [0x31, 0x2E, 0x30];
        let r = InquiryData {
            peripheral: DEVICE_CDROM,
            rmb: 0x80,
            version: 0x02,
            response_format: 0x02,
            additional_length: 31,
            flags: [0u8; 3],
            vendor: pad_field(vendor.as_slice()),
            product: pad_field(product.as_slice()),
            revision: pad_field(revision.as_slice()),
        };
        assert(r.flags@ =~= seq![0u8, 0u8, 0u8]);
        assert(vendor@ =~= seq![0x53u8, 0x55u8, 0x4Eu8]);
        assert(product@ =~= seq![0x56u8, 0x69u8, 0x72u8, 0x74u8, 0x75u8, 0x61u8, 0x6Cu8, 0x20u8, 0x43u8, 0x44u8, 0x52u8, 0x4Fu8, 0x4Du8]);
        assert(revision@ =~= seq![0x31u8, 0x2Eu8, 0x30u8]);
        r
    }

    /// The virtual drive's response with its own identity strings, each cut
    /// or space-padded to its field (8, 16 and 4 bytes).
    pub fn with_identity(vendor: &str, product: &str, revision: &str) -> (r: Self)
        ensures
            r.is_cdrom_header(),
            r.vendor@ == space_padded(vendor.spec_bytes(), 8),
            r.product@ == space_padded(product.spec_bytes(), 16),
            r.revision@ == space_padded(revision.spec_bytes(), 4),
    {
        let mut data = InquiryData::new();
        data.vendor = pad_field(vendor.as_bytes());
        data.product = pad_field(product.as_bytes());
        data.revision = pad_field(revision.as_bytes());
        data
    }

    /// The response in wire order.
    pub fn to_bytes(&self) -> (r: [u8; 36])
        ensures
            r@ == self.spec_bytes(),
    {
        let mut r = [0u8; 36];
        r[0] = self.peripheral;
        r[1] = self.rmb;
        r[2] = self.version;
        r[3] = self.response_format;
        r[4] = self.additional_length;
        let mut i: usize = 0;
        while i < 3
            invariant
                0 <= i <= 3,
                r@.len() == 36,
                r@.subrange(0, 5) == self.spec_bytes().subrange(0, 5),
                forall|j: int| 0 <= j < i ==> r@[5 + j] == self.flags@[j],
            decreases 3 - i,
        {
            r[5 + i] = self.flags[i];
            i = i + 1;
        }
        let mut i: usize = 0;
        while i < 8
            invariant
                0 <= i <= 8,
                r@.len() == 36,
                r@.subrange(0, 5) == self.spec_bytes().subrange(0, 5),
                forall|j: int| 0 <= j < 3 ==> r@[5 + j] == self.flags@[j],
                forall|j: int| 0 <= j < i ==> r@[8 + j] == self.vendor@[j],
            decreases 8 - i,
        {
            r[8 + i] = self.vendor[i];
            i = i + 1;
        }
        let mut i: usize = 0;
        while i < 16
            invariant
                0 <= i <= 16,
                r@.len() == 36,
                r@.subrange(0, 5) == self.spec_bytes().subrange(0, 5),
                forall|j: int| 0 <= j < 3 ==> r@[5 + j] == self.flags@[j],
                forall|j: int| 0 <= j < 8 ==> r@[8 + j] == self.vendor@[j],
                forall|j: int| 0 <= j < i ==> r@[16 + j] == self.product@[j],
            decreases 16 - i,
        {
            r[16 + i] = self.product[i];
            i = i + 1;
        }
        let mut i: usize = 0;
        while i < 4
            invariant
                0 <= i <= 4,
                r@.len() == 36,
                r@.subrange(0, 5) == self.spec_bytes().subrange(0, 5),
                forall|j: int| 0 <= j < 3 ==> r@[5 + j] == self.flags@[j],
                forall|j: int| 0 <= j < 8 ==> r@[8 + j] == self.vendor@[j],
                forall|j: int| 0 <= j < 16 ==> r@[16 + j] == self.product@[j],
                forall|j: int| 0 <= j < i ==> r@[32 + j] == self.revision@[j],
            decreases 4 - i,
        {
            r[32 + i] = self.revision[i];
            i = i + 1;
        }
        assert forall|k: int| 0 <= k < 36 implies r@[k] == self.spec_bytes()[k] by {
            if k < 5 {
                assert(r@[k] == r@.subrange(0, 5)[k]);
            }
        }
        assert(r@ =~= self.spec_bytes());
        r
    }
}

/// READ CAPACITY response (8 bytes).
#[derive(Debug, Clone, Copy, Default)]
pub struct ReadCapacityData {
    /// Last logical block address, big-endian.
    pub last_lba: [u8; 4],
    /// Block length in bytes, big-endian.
    pub block_length: [u8; 4],
}

impl ReadCapacityData {
    /// Size of a READ CAPACITY response.
    pub const SIZE: usize = 8;

    /// The response for a medium of `total_sectors` blocks of `sector_size`
    /// bytes; an empty medium reports last LBA 0.
    pub fn new(total_sectors: u32, sector_size: u32) -> (r: Self)
        ensures
            r.last_lba@ == be32(if total_sectors > 0 { (total_sectors - 1) as u32 } else { 0u32 }),
            r.block_length@ == be32(sector_size),
    {
        let last_lba = if total_sectors > 0 { total_sectors - 1 } else { 0 };
        ReadCapacityData { last_lba: u32_to_be(last_lba), block_length: u32_to_be(sector_size) }
    }

    /// The response in wire order.
    pub fn to_bytes(&self) -> (r: [u8; 8])
        ensures
            r@ == self.last_lba@ + self.block_length@,
    {
        let r = [
            self.last_lba[0],
            self.last_lba[1],
            self.last_lba[2],
            self.last_lba[3],
            self.block_length[0],
            self.block_length[1],
            self.block_length[2],
            self.block_length[3],
        ];
        assert(r@ =~= self.last_lba@ + self.block_length@);
        r
    }
}

/// One entry of a READ TOC response.
#[derive(Debug, Clone, Copy, Default)]
pub struct TocEntry {
    pub reserved1: u8,
    /// ADR and control nibbles.
    pub adr_control: u8,
    pub track_number: u8,
    pub reserved2: u8,
    /// Track start address (LBA), big-endian.
    pub start_address: [u8; 4],
}

impl TocEntry {
    /// The bytes of an entry, in wire order.
    pub open spec fn spec_bytes(self) -> Seq<u8> {
        seq![self.reserved1, self.adr_control, self.track_number, self.reserved2]
            + self.start_address@
    }

    /// A data-track entry (ADR 1, control 4).
    pub fn data_track(track_number: u8, start_lba: u32) -> (r: Self)
        ensures
            r.spec_bytes() == seq![0u8, 0x14u8, track_number, 0u8] + be32(start_lba),
    {
        TocEntry {
            reserved1: 0,
            adr_control: 0x14,
            track_number,
            reserved2: 0,
            start_address: u32_to_be(start_lba),
        }
    }

    /// The lead-out entry (track 0xAA), starting after the last sector.
    pub fn lead_out(total_sectors: u32) -> (r: Self)
        ensures
            r.spec_bytes() == seq![0u8, 0x14u8, 0xAAu8, 0u8] + be32(total_sectors),
    {
        TocEntry {
            reserved1: 0,
            adr_control: 0x14,
            track_number: 0xAA,
            reserved2: 0,
            start_address: u32_to_be(total_sectors),
        }
    }
}

/// READ TOC response header.
#[derive(Debug, Clone, Copy, Default)]
pub struct TocHeader {
    /// Length of the data after this field, big-endian.
    pub data_length: [u8; 2],
    pub first_track: u8,
    pub last_track: u8,
}

/// The READ TOC response of a single-track data disc of `total_sectors`
/// sectors: data length 18, first and last track 1, track 1 (a data track)
/// at LBA 0, lead-out (track 0xAA) at `total_sectors`.
pub open spec fn simple_toc_bytes(total_sectors: u32) -> Seq<u8> {
    seq![0u8, 18u8, 1u8, 1u8] + seq![0u8, 0x14u8, 1u8, 0u8] + be32(0) + seq![0u8, 0x14u8, 0xAAu8, 0u8]
        + be32(total_sectors)
}

/// Big-endian encoding and decoding of 32-bit values are inverse.
pub proof fn lemma_be32_round_trip(v: u32)
    ensures
        be32(v).len() == 4,
        be32_value(be32(v)[0], be32(v)[1], be32(v)[2], be32(v)[3]) == v,
{
    assert(((v / 0x100_0000) as u8) as int * 0x100_0000 + ((v / 0x1_0000 % 0x100) as u8) as int
        * 0x1_0000 + ((v / 0x100 % 0x100) as u8) as int * 0x100 + ((v % 0x100) as u8) as int
        == v as int) by (nonlinear_arith);
}

/// The simple TOC of a disc of `n` sectors is 20 bytes with first and last
/// track 1 at bytes 2 and 3, track number 1 at byte 6, the lead-out track
/// number 0xAA at byte 14, and `n` big-endian in bytes 16 to 19.
pub proof fn lemma_simple_toc_fields(n: u32)
    ensures
        simple_toc_bytes(n).len() == 20,
        simple_toc_bytes(n)[2] == 1,
        simple_toc_bytes(n)[3] == 1,
        simple_toc_bytes(n)[6] == 1,
        simple_toc_bytes(n)[14] == 0xAA,
        be32_value(
            simple_toc_bytes(n)[16],
            simple_toc_bytes(n)[17],
            simple_toc_bytes(n)[18],
            simple_toc_bytes(n)[19],
        ) == n,
{
    lemma_be32_round_trip(n);
    let b = simple_toc_bytes(n);
    let e = be32(n);
    assert(b[16] == e[0] && b[17] == e[1] && b[18] == e[2] && b[19] == e[3]);
}

/// Table of contents of a single-track data disc.
#[derive(Debug, Clone, Copy, Default)]
pub struct SimpleToc {
    pub header: TocHeader,
    pub track1: TocEntry,
    pub lead_out: TocEntry,
}

impl SimpleToc {
    /// Size of a simple TOC response: a header and two entries.
    pub const SIZE: usize = 20;

    /// The bytes of the response, in wire order.
    pub open spec fn spec_bytes(self) -> Seq<u8> {
        self.header.data_length@ + seq![self.header.first_track, self.header.last_track]
            + self.track1.spec_bytes() + self.lead_out.spec_bytes()
    }

    /// The TOC of a data disc of `total_sectors` sectors: data length 18,
    /// track 1 starting at LBA 0, lead-out at `total_sectors`.
    pub fn new(total_sectors: u32) -> (r: Self)
        ensures
            r.spec_bytes() == simple_toc_bytes(total_sectors),
    {
        let r = SimpleToc {
            header: TocHeader { data_length: [0, 18], first_track: 1, last_track: 1 },
            track1: TocEntry::data_track(1, 0),
            lead_out: TocEntry::lead_out(total_sectors),
        };
        assert(r.header.data_length@ =~= seq![0u8, 18u8]);
        assert(r.spec_bytes() =~= simple_toc_bytes(total_sectors));
        r
    }

    /// The response in wire order.
    pub fn to_bytes(&self) -> (r: [u8; 20])
        ensures
            r@ == self.spec_bytes(),
    {
        let r = [
            self.header.data_length[0],
            self.header.data_length[1],
            self.header.first_track,
            self.header.last_track,
            self.track1.reserved1,
            self.track1.adr_control,
            self.track1.track_number,
            self.track1.reserved2,
            self.track1.start_address[0],
            self.track1.start_address[1],
            self.track1.start_address[2],
            self.track1.start_address[3],
            self.lead_out.reserved1,
            self.lead_out.adr_control,
            self.lead_out.track_number,
            self.lead_out.reserved2,
            self.lead_out.start_address[0],
            self.lead_out.start_address[1],
            self.lead_out.start_address[2],
            self.lead_out.start_address[3],
        ];
        assert(r@ =~= self.spec_bytes());
        r
    }
}

/// Outcome of one SCSI command.
#[derive(Debug, Clone)]
pub enum ScsiResult {
    /// Completed, with data to return.
    Good(Vec<u8>),
    /// Completed, no data transfer.
    GoodNoData,
    /// Failed; the sense record says why.
    CheckCondition(SenseData),
}

impl ScsiResult {
    /// The status byte that each outcome maps to.
    pub open spec fn spec_status(&self) -> u8 {
        match self {
            ScsiResult::CheckCondition(_) => STATUS_CHECK_CONDITION,
            _ => STATUS_GOOD,
        }
    }

    /// The SCSI status byte of this outcome.
    pub fn status(&self) -> (r: u8)
        ensures
            r == self.spec_status(),
    {
        match self {
            ScsiResult::Good(_) | ScsiResult::GoodNoData => STATUS_GOOD,
            ScsiResult::CheckCondition(_) => STATUS_CHECK_CONDITION,
        }
    }
}

/// Logical block address of a READ(10) CDB: bytes 2 to 5, big-endian;
/// 0 when the CDB is too short.
pub fn cdb10_get_lba(cdb: &[u8]) -> (r: u32)
    ensures
        r == (if cdb@.len() >= 6 { be32_value(cdb@[2], cdb@[3], cdb@[4], cdb@[5]) } else { 0u32 }),
{
    if cdb.len() < 6 {
        return 0;
    }
    be_to_u32(cdb[2], cdb[3], cdb[4], cdb[5])
}

/// Transfer length of a READ(10) CDB: bytes 7 and 8, big-endian; 0 when
/// the CDB is too short.
pub fn cdb10_get_length(cdb: &[u8]) -> (r: u16)
    ensures
        r == (if cdb@.len() >= 9 { be16_value(cdb@[7], cdb@[8]) } else { 0u16 }),
{
    if cdb.len() < 9 {
        return 0;
    }
    let r = ((cdb[7] as u16) << 8u16) | (cdb[8] as u16);
    let b0 = cdb[7];
    let b1 = cdb[8];
    assert(((b0 as u16) << 8u16) | (b1 as u16) == b0 as u16 * 0x100u16 + b1 as u16) by (bit_vector);
    r
}

/// Allocation length of an INQUIRY CDB (byte 4); 0 when the CDB is too short.
pub fn inquiry_get_alloc_length(cdb: &[u8]) -> (r: u8)
    ensures
        r == (if cdb@.len() >= 5 { cdb@[4] } else { 0u8 }),
{
    if cdb.len() < 5 {
        return 0;
    }
    cdb[4]
}

/// Allocation length of a MODE SENSE(6) CDB (byte 4); 0 when the CDB is too short.
pub fn mode_sense6_get_alloc_length(cdb: &[u8]) -> (r: u8)
    ensures
        r == (if cdb@.len() >= 5 { cdb@[4] } else { 0u8 }),
{
    if cdb.len() < 5 {
        return 0;
    }
    cdb[4]
}

/// Page code of a MODE SENSE CDB (low six bits of byte 2); 0 when the CDB
/// is too short.
pub fn mode_sense_get_page_code(cdb: &[u8]) -> (r: u8)
    ensures
        r == (if cdb@.len() >= 3 { cdb@[2] & 0x3F } else { 0u8 }),
        r < 64,
{
    if cdb.len() < 3 {
        return 0;
    }
    let b = cdb[2];
    assert(b & 0x3F < 64) by (bit_vector);
    b & 0x3F
}

} // verus!
