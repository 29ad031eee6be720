//! Fixed-layout records exchanged with the SunPCi kernel driver.
//!
//! Every record is a plain aggregate of fixed-width fields. Quantities wider
//! than 32 bits are carried as two adjacent 32-bit halves (low, high) so that
//! the layout is the same on 32-bit and 64-bit hosts; the accessors below join
//! them. Path and text fields are fixed-size byte buffers that are always
//! truncated and NUL-terminated when written.
use vstd::prelude::*;
use vstd::string::StringSliceAdditionalSpecFns;

verus! {

/// Magic number of the driver's ioctl namespace.
pub const SUNPCI_IOC_MAGIC: u8 = 0x53;

/// Capacity of a path buffer, terminator included.
pub const SUNPCI_MAX_PATH: usize = 256;

/// Capacity of a clipboard payload buffer.
pub const SUNPCI_MAX_CLIPBOARD: usize = 4096;

/// Capacity of one audio read.
pub const SUNPCI_AUDIO_MAX_BUFFER: usize = 16384;

// Command identifiers, grouped by subsystem in ranges of ten.
pub const CMD_GET_VERSION: u8 = 0;
pub const CMD_GET_STATUS: u8 = 1;
pub const CMD_START_SESSION: u8 = 2;
pub const CMD_STOP_SESSION: u8 = 3;
pub const CMD_RESET_SESSION: u8 = 4;
pub const CMD_GET_DISPLAY: u8 = 10;
pub const CMD_SET_DISPLAY: u8 = 11;
pub const CMD_GET_FRAMEBUFFER: u8 = 12;
pub const CMD_MOUNT_DISK: u8 = 20;
pub const CMD_UNMOUNT_DISK: u8 = 21;
pub const CMD_MOUNT_CDROM: u8 = 22;
pub const CMD_EJECT_CDROM: u8 = 23;
pub const CMD_MOUNT_FLOPPY: u8 = 24;
pub const CMD_EJECT_FLOPPY: u8 = 25;
pub const CMD_KEYBOARD_EVENT: u8 = 30;
pub const CMD_MOUSE_EVENT: u8 = 31;
pub const CMD_SET_CLIPBOARD: u8 = 40;
pub const CMD_GET_CLIPBOARD: u8 = 41;
pub const CMD_ADD_DRIVE_MAP: u8 = 50;
pub const CMD_REMOVE_DRIVE_MAP: u8 = 51;
pub const CMD_SET_NETWORK: u8 = 60;
pub const CMD_GET_NETWORK: u8 = 61;
pub const CMD_GET_AUDIO_FORMAT: u8 = 70;
pub const CMD_SET_AUDIO_VOLUME: u8 = 71;
pub const CMD_GET_AUDIO_VOLUME: u8 = 72;
pub const CMD_GET_AUDIO_STATUS: u8 = 73;
pub const CMD_READ_AUDIO: u8 = 74;

// Session configuration flag bits.
pub const FLAG_NETWORK_ENABLED: u32 = 1;
pub const FLAG_CLIPBOARD_ENABLED: u32 = 2;
pub const FLAG_CLIPBOARD_TO_HOST: u32 = 4;
pub const FLAG_CLIPBOARD_TO_GUEST: u32 = 8;

// Display configuration flag bits.
pub const DISPLAY_MAINTAIN_ASPECT: u32 = 1;
pub const DISPLAY_SCANLINES: u32 = 2;

// Disk mount flag bits.
pub const DISK_READONLY: u32 = 1;
pub const DISK_CREATE: u32 = 2;

// SCSI pass-through constants.
pub const SCSI_CDB_MAX_LEN: usize = 16;
pub const SCSI_SENSE_MAX_LEN: usize = 18;
pub const SCSI_DIRECTION_NONE: u32 = 0;
pub const SCSI_DIRECTION_READ: u32 = 1;
pub const SCSI_DIRECTION_WRITE: u32 = 2;
pub const SCSI_STATUS_GOOD: u8 = 0x00;
pub const SCSI_STATUS_CHECK_CONDITION: u8 = 0x02;
pub const SCSI_STATUS_BUSY: u8 = 0x08;

// Key event flag bits.
pub const KEY_PRESSED: u32 = 1;
pub const KEY_EXTENDED: u32 = 2;

// Mouse button bits.
pub const MOUSE_LEFT: u32 = 1;
pub const MOUSE_RIGHT: u32 = 2;
pub const MOUSE_MIDDLE: u32 = 4;

// Clipboard payload formats.
pub const CLIPBOARD_TEXT: u32 = 0;
pub const CLIPBOARD_UNICODE: u32 = 1;

// Drive mapping flag bits.
pub const DRIVE_READONLY: u8 = 1;
pub const DRIVE_HIDDEN: u8 = 2;

// Network flag bits.
pub const NET_ENABLED: u32 = 1;
pub const NET_PROMISCUOUS: u32 = 2;

// Audio format flag bits.
pub const AUDIO_FMT_16BIT: u32 = 1;
pub const AUDIO_FMT_STEREO: u32 = 2;
pub const AUDIO_FMT_SIGNED: u32 = 4;

// Audio status flag bits.
pub const AUDIO_PLAYING: u32 = 1;
pub const AUDIO_AVAILABLE: u32 = 2;
pub const AUDIO_MUTED: u32 = 4;

/// The 64-bit value that a (low, high) pair of 32-bit halves encodes.
pub open spec fn combined_u64(lo: u32, hi: u32) -> u64 {
    (hi as int * 0x1_0000_0000 + lo as int) as u64
}

/// Joins the two halves of a split 64-bit field: `(hi << 32) | lo`.
pub fn combine_u32(lo: u32, hi: u32) -> (r: u64)
    ensures
        r == combined_u64(lo, hi),
        r as int == hi as int * 0x1_0000_0000 + lo as int,
{
    let r = ((hi as u64) << 32u64) | (lo as u64);
    assert(((hi as u64) << 32u64) | (lo as u64) == hi as u64 * 0x1_0000_0000u64 + lo as u64)
        by (bit_vector);
    r
}

/// Whether any of the bits of `mask` is set in `flags`.
pub open spec fn has_flag(flags: u32, mask: u32) -> bool {
    flags & mask != 0
}

/// Driver version information.
#[derive(Debug, Clone, Copy, Default)]
pub struct DriverVersion {
    pub major: u32,
    pub minor: u32,
    pub patch: u32,
}

/// State of the guest session.
#[derive(Debug, Clone, Copy, PartialEq, Eq, Structural)]
pub enum SessionState {
    Stopped,
    Starting,
    Running,
    Stopping,
    Error,
}

impl SessionState {
    /// The wire code of each state.
    pub open spec fn spec_code(self) -> u32 {
        match self {
            SessionState::Stopped => 0,
            SessionState::Starting => 1,
            SessionState::Running => 2,
            SessionState::Stopping => 3,
            SessionState::Error => 4,
        }
    }

    /// The wire code of this state.
    pub fn code(&self) -> (r: u32)
        ensures
            r == self.spec_code(),
    {
        match self {
            SessionState::Stopped => 0,
            SessionState::Starting => 1,
            SessionState::Running => 2,
            SessionState::Stopping => 3,
            SessionState::Error => 4,
        }
    }

    /// The state that a wire code stands for, if any.
    pub fn from_code(code: u32) -> (r: Option<SessionState>)
        ensures
            code <= 4 <==> r is Some,
            r matches Some(s) ==> s.spec_code() == code,
    {
        match code {
            0 => Some(SessionState::Stopped),
            1 => Some(SessionState::Starting),
            2 => Some(SessionState::Running),
            3 => Some(SessionState::Stopping),
            4 => Some(SessionState::Error),
            _ => None,
        }
    }
}

impl Default for SessionState {
    fn default() -> (r: Self)
        ensures
            r == SessionState::Stopped,
    {
        SessionState::Stopped
    }
}

/// Session status. 64-bit counters are split into low and high halves.
#[derive(Debug, Clone, Copy, Default)]
pub struct SessionStatus {
    pub state: u32,
    /// Percent times 100 (0 to 10000).
    pub cpu_usage: u32,
    pub memory_used_lo: u32,
    pub memory_used_hi: u32,
    pub uptime_ns_lo: u32,
    pub uptime_ns_hi: u32,
    /// Bitmap of active drives.
    pub disk_activity: u32,
    pub network_rx_packets: u32,
    pub network_tx_packets: u32,
    pub _pad: u32,
}

impl SessionStatus {
    /// Memory used by the guest, in bytes.
    pub fn memory_used(&self) -> (r: u64)
        ensures
            r == combined_u64(self.memory_used_lo, self.memory_used_hi),
    {
        combine_u32(self.memory_used_lo, self.memory_used_hi)
    }

    /// Session uptime, in nanoseconds.
    pub fn uptime_ns(&self) -> (r: u64)
        ensures
            r == combined_u64(self.uptime_ns_lo, self.uptime_ns_hi),
    {
        combine_u32(self.uptime_ns_lo, self.uptime_ns_hi)
    }
}


/// How many bytes of a source of `len` bytes fit in a buffer of `cap` bytes
/// that must keep room for a terminating NUL.
pub open spec fn fitted_len(len: int, cap: int) -> int {
    if len < cap - 1 { len } else { cap - 1 }
}

/// The contents of a `cap`-byte buffer holding `old` after `src` has been
/// written into it: the bytes that fit, then a NUL, then the untouched rest.
pub open spec fn terminated_write(src: Seq<u8>, old: Seq<u8>, cap: int) -> Seq<u8> {
    let n = fitted_len(src.len() as int, cap);
    src.subrange(0, n) + seq![0u8] + old.subrange(n + 1, cap)
}

/// The text held in a NUL-terminated buffer: every byte before the first NUL,
/// or the whole buffer when it holds none.
pub open spec fn is_text_of(text: Seq<u8>, buf: Seq<u8>) -> bool {
    &&& text.len() <= buf.len()
    &&& text == buf.subrange(0, text.len() as int)
    &&& forall|i: int| 0 <= i < text.len() ==> text[i] != 0
    &&& (text.len() == buf.len() || buf[text.len() as int] == 0)
}

/// Writes `src` into `dest`, truncated so that a terminating NUL always fits.
pub fn write_terminated<const N: usize>(dest: &mut [u8; N], src: &[u8])
    requires
        N >= 1,
    ensures
        final(dest)@ == terminated_write(src@, old(dest)@, N as int),
{
    let n: usize = if src.len() < N - 1 { src.len() } else { N - 1 };
    let mut i: usize = 0;
    while i < n
        invariant
            n == fitted_len(src@.len() as int, N as int),
            0 <= i <= n < N,
            dest@.len() == N,
            forall|j: int| 0 <= j < i ==> dest@[j] == src@[j],
            forall|j: int| i <= j < N ==> dest@[j] == old(dest)@[j],
        decreases n - i,
    {
        dest[i] = src[i];
        i = i + 1;
    }
    dest[n] = 0;
    assert(dest@ =~= terminated_write(src@, old(dest)@, N as int));
}

/// Reads the text of a NUL-terminated buffer.
pub fn read_terminated(buf: &[u8]) -> (r: Vec<u8>)
    ensures
        is_text_of(r@, buf@),
{
    let mut r: Vec<u8> = Vec::new();
    let mut i: usize = 0;
    while i < buf.len() && buf[i] != 0
        invariant
            0 <= i <= buf@.len(),
            r@ == buf@.subrange(0, i as int),
            forall|j: int| 0 <= j < i ==> buf@[j] != 0,
        decreases buf@.len() - i,
    {
        r.push(buf[i]);
        i = i + 1;
        assert(r@ =~= buf@.subrange(0, i as int));
    }
    r
}

/// Session configuration handed to the driver when a session starts.
#[derive(Debug, Clone, Copy)]
pub struct IoctlSessionConfig {
    pub memory_mb: u32,
    pub flags: u32,
    pub primary_disk: [u8; SUNPCI_MAX_PATH],
    pub secondary_disk: [u8; SUNPCI_MAX_PATH],
    pub bios_path: [u8; SUNPCI_MAX_PATH],
}

impl Default for IoctlSessionConfig {
    fn default() -> (r: Self)
        ensures
            r.memory_mb == 64,
            r.flags == 0,
            forall|i: int| 0 <= i < SUNPCI_MAX_PATH ==> r.primary_disk@[i] == 0,
            forall|i: int| 0 <= i < SUNPCI_MAX_PATH ==> r.secondary_disk@[i] == 0,
            forall|i: int| 0 <= i < SUNPCI_MAX_PATH ==> r.bios_path@[i] == 0,
    {
        IoctlSessionConfig {
            memory_mb: 64,
            flags: 0,
            primary_disk: [0u8; SUNPCI_MAX_PATH],
            secondary_disk: [0u8; SUNPCI_MAX_PATH],
            bios_path: [0u8; SUNPCI_MAX_PATH],
        }
    }
}

impl IoctlSessionConfig {
    /// Writes a path into a path field, truncated to 255 bytes and NUL-terminated.
    pub fn set_path(dest: &mut [u8; SUNPCI_MAX_PATH], src: &str)
        ensures
            final(dest)@ == terminated_write(src.spec_bytes(), old(dest)@, SUNPCI_MAX_PATH as int),
    {
        write_terminated(dest, src.as_bytes());
    }
}


/// Display information reported by the guest.
#[derive(Debug, Clone, Copy, Default)]
pub struct DisplayInfo {
    pub width: u32,
    pub height: u32,
    /// 1, 2, 4, 8, 15, 16, 24 or 32.
    pub color_depth: u32,
    /// 0 for text, 1 for graphics.
    pub mode: u32,
    pub text_cols: u32,
    pub text_rows: u32,
}

impl DisplayInfo {
    /// Whether the guest shows a text mode.
    pub fn is_text_mode(&self) -> (r: bool)
        ensures
            r == (self.mode == 0),
    {
        self.mode == 0
    }
}

/// Host presentation settings for the guest display.
#[derive(Debug, Clone, Copy, Default)]
pub struct DisplayConfig {
    /// 0 none, 1 fit, 2 integer.
    pub scale_mode: u32,
    pub scale_factor: u32,
    pub flags: u32,
}

/// Pixel format of the guest framebuffer.
#[derive(Debug, Clone, Copy, PartialEq, Eq, Structural)]
pub enum PixelFormat {
    Indexed8,
    Rgb565,
    Rgb888,
    Xrgb8888,
}

impl PixelFormat {
    /// The wire code of each format.
    pub open spec fn spec_code(self) -> u32 {
        match self {
            PixelFormat::Indexed8 => 0,
            PixelFormat::Rgb565 => 1,
            PixelFormat::Rgb888 => 2,
            PixelFormat::Xrgb8888 => 3,
        }
    }

    /// The wire code of this format.
    pub fn code(&self) -> (r: u32)
        ensures
            r == self.spec_code(),
    {
        match self {
            PixelFormat::Indexed8 => 0,
            PixelFormat::Rgb565 => 1,
            PixelFormat::Rgb888 => 2,
            PixelFormat::Xrgb8888 => 3,
        }
    }

    /// The format that a wire code stands for, if any.
    pub fn from_code(code: u32) -> (r: Option<PixelFormat>)
        ensures
            code <= 3 <==> r is Some,
            r matches Some(f) ==> f.spec_code() == code,
    {
        match code {
            0 => Some(PixelFormat::Indexed8),
            1 => Some(PixelFormat::Rgb565),
            2 => Some(PixelFormat::Rgb888),
            3 => Some(PixelFormat::Xrgb8888),
            _ => None,
        }
    }
}

impl Default for PixelFormat {
    fn default() -> (r: Self)
        ensures
            r == PixelFormat::Indexed8,
    {
        PixelFormat::Indexed8
    }
}

/// Framebuffer description. 64-bit quantities are split into halves.
#[derive(Debug, Clone, Copy, Default)]
pub struct FramebufferInfo {
    pub phys_addr_lo: u32,
    pub phys_addr_hi: u32,
    pub size_lo: u32,
    pub size_hi: u32,
    /// Bytes per row.
    pub stride: u32,
    /// A `PixelFormat` code.
    pub format: u32,
}

impl FramebufferInfo {
    /// Physical address of the framebuffer.
    pub fn phys_addr(&self) -> (r: u64)
        ensures
            r == combined_u64(self.phys_addr_lo, self.phys_addr_hi),
    {
        combine_u32(self.phys_addr_lo, self.phys_addr_hi)
    }

    /// Size of the framebuffer in bytes.
    pub fn size(&self) -> (r: u64)
        ensures
            r == combined_u64(self.size_lo, self.size_hi),
    {
        combine_u32(self.size_lo, self.size_hi)
    }
}

/// Request to mount a hard-disk image in a slot (0 primary, 1 secondary).
#[derive(Debug, Clone, Copy)]
pub struct DiskMount {
    pub slot: u32,
    pub flags: u32,
    pub path: [u8; SUNPCI_MAX_PATH],
}

impl Default for DiskMount {
    fn default() -> (r: Self)
        ensures
            r.slot == 0,
            r.flags == 0,
            forall|i: int| 0 <= i < SUNPCI_MAX_PATH ==> r.path@[i] == 0,
    {
        DiskMount { slot: 0, flags: 0, path: [0u8; SUNPCI_MAX_PATH] }
    }
}

/// Disk slot identifier.
#[derive(Debug, Clone, Copy, Default)]
pub struct DiskSlot {
    pub slot: u32,
}

/// Path of a CD-ROM image.
#[derive(Debug, Clone, Copy)]
pub struct Path {
    pub path: [u8; SUNPCI_MAX_PATH],
}

impl Default for Path {
    fn default() -> (r: Self)
        ensures
            forall|i: int| 0 <= i < SUNPCI_MAX_PATH ==> r.path@[i] == 0,
    {
        Path { path: [0u8; SUNPCI_MAX_PATH] }
    }
}

/// Request to mount a floppy image in a drive (0 A:, 1 B:).
#[derive(Debug, Clone, Copy)]
pub struct FloppyMount {
    pub drive: u32,
    pub flags: u32,
    pub path: [u8; SUNPCI_MAX_PATH],
}

impl Default for FloppyMount {
    fn default() -> (r: Self)
        ensures
            r.drive == 0,
            r.flags == 0,
            forall|i: int| 0 <= i < SUNPCI_MAX_PATH ==> r.path@[i] == 0,
    {
        FloppyMount { drive: 0, flags: 0, path: [0u8; SUNPCI_MAX_PATH] }
    }
}

/// Floppy drive identifier.
#[derive(Debug, Clone, Copy, Default)]
pub struct FloppySlot {
    pub drive: u32,
}


/// SCSI command request for CD-ROM pass-through.
#[derive(Debug, Clone, Copy)]
pub struct ScsiRequest {
    /// Command descriptor block.
    pub cdb: [u8; SCSI_CDB_MAX_LEN],
    /// Length of the CDB actually used (6, 10, 12 or 16).
    pub cdb_len: u32,
    /// One of the `SCSI_DIRECTION_*` values.
    pub data_direction: u32,
    /// Expected data transfer length.
    pub data_len: u32,
}

impl Default for ScsiRequest {
    fn default() -> (r: Self)
        ensures
            forall|i: int| 0 <= i < SCSI_CDB_MAX_LEN ==> r.cdb@[i] == 0,
            r.cdb_len == 0,
            r.data_direction == SCSI_DIRECTION_NONE,
            r.data_len == 0,
    {
        ScsiRequest {
            cdb: [0u8; SCSI_CDB_MAX_LEN],
            cdb_len: 0,
            data_direction: SCSI_DIRECTION_NONE,
            data_len: 0,
        }
    }
}

impl ScsiRequest {
    /// A request whose CDB starts with `cdb` and is zero after it.
    fn with_cdb(cdb: &[u8]) -> (r: Self)
        requires
            cdb@.len() <= SCSI_CDB_MAX_LEN,
        ensures
            r.cdb@.subrange(0, cdb@.len() as int) == cdb@,
            forall|i: int| cdb@.len() <= i < SCSI_CDB_MAX_LEN ==> r.cdb@[i] == 0,
            r.cdb_len == cdb@.len(),
            r.data_direction == SCSI_DIRECTION_NONE,
            r.data_len == 0,
    {
        let mut req = ScsiRequest::default();
        let mut i: usize = 0;
        while i < cdb.len()
            invariant
                cdb@.len() <= SCSI_CDB_MAX_LEN,
                0 <= i <= cdb@.len(),
                req.cdb@.len() == SCSI_CDB_MAX_LEN,
                forall|j: int| 0 <= j < i ==> req.cdb@[j] == cdb@[j],
                forall|j: int| i <= j < SCSI_CDB_MAX_LEN ==> req.cdb@[j] == 0,
                req.cdb_len == 0,
                req.data_direction == SCSI_DIRECTION_NONE,
                req.data_len == 0,
            decreases cdb@.len() - i,
        {
            req.cdb[i] = cdb[i];
            i = i + 1;
        }
        req.cdb_len = cdb.len() as u32;
        assert(req.cdb@.subrange(0, cdb@.len() as int) =~= cdb@);
        req
    }

    /// A request carrying a 6-byte CDB.
    pub fn new_cdb6(cdb: [u8; 6]) -> (r: Self)
        ensures
            r.cdb@.subrange(0, 6) == cdb@,
            forall|i: int| 6 <= i < SCSI_CDB_MAX_LEN ==> r.cdb@[i] == 0,
            r.cdb_len == 6,
            r.data_direction == SCSI_DIRECTION_NONE,
            r.data_len == 0,
    {
        ScsiRequest::with_cdb(cdb.as_slice())
    }

    /// A request carrying a 10-byte CDB.
    pub fn new_cdb10(cdb: [u8; 10]) -> (r: Self)
        ensures
            r.cdb@.subrange(0, 10) == cdb@,
            forall|i: int| 10 <= i < SCSI_CDB_MAX_LEN ==> r.cdb@[i] == 0,
            r.cdb_len == 10,
            r.data_direction == SCSI_DIRECTION_NONE,
            r.data_len == 0,
    {
        ScsiRequest::with_cdb(cdb.as_slice())
    }

    /// The same request, set to read `len` bytes from the device.
    pub fn with_read(self, len: u32) -> (r: Self)
        ensures
            r.cdb == self.cdb,
            r.cdb_len == self.cdb_len,
            r.data_direction == SCSI_DIRECTION_READ,
            r.data_len == len,
    {
        let mut req = self;
        req.data_direction = SCSI_DIRECTION_READ;
        req.data_len = len;
        req
    }
}

/// SCSI command response.
#[derive(Debug, Clone, Copy)]
pub struct ScsiResponse {
    /// SCSI status byte.
    pub status: u8,
    /// Number of valid sense bytes.
    pub sense_len: u8,
    pub reserved: [u8; 2],
    /// Bytes actually transferred.
    pub data_len: u32,
    /// Sense data, meaningful after CHECK CONDITION.
    pub sense: [u8; SCSI_SENSE_MAX_LEN],
}

impl Default for ScsiResponse {
    fn default() -> (r: Self)
        ensures
            r.status == SCSI_STATUS_GOOD,
            r.sense_len == 0,
            r.reserved@ == seq![0u8, 0u8],
            r.data_len == 0,
            forall|i: int| 0 <= i < SCSI_SENSE_MAX_LEN ==> r.sense@[i] == 0,
    {
        let r = ScsiResponse {
            status: SCSI_STATUS_GOOD,
            sense_len: 0,
            reserved: [0u8; 2],
            data_len: 0,
            sense: [0u8; SCSI_SENSE_MAX_LEN],
        };
        assert(r.reserved@ =~= seq![0u8, 0u8]);
        r
    }
}

impl ScsiResponse {
    /// Whether the command completed with GOOD status.
    pub fn is_good(&self) -> (r: bool)
        ensures
            r == (self.status == SCSI_STATUS_GOOD),
    {
        self.status == SCSI_STATUS_GOOD
    }

    /// Whether the command ended in CHECK CONDITION.
    pub fn is_check_condition(&self) -> (r: bool)
        ensures
            r == (self.status == SCSI_STATUS_CHECK_CONDITION),
    {
        self.status == SCSI_STATUS_CHECK_CONDITION
    }

    /// The sense key (low nibble of sense byte 2), when that byte is present.
    pub fn sense_key(&self) -> (r: Option<u8>)
        ensures
            r == (if self.sense_len >= 3 { Some(self.sense@[2] & 0x0F) } else { None }),
    {
        if self.sense_len >= 3 {
            Some(self.sense[2] & 0x0F)
        } else {
            None
        }
    }

    /// The additional sense code (sense byte 12), when that byte is present.
    pub fn asc(&self) -> (r: Option<u8>)
        ensures
            r == (if self.sense_len >= 13 { Some(self.sense@[12]) } else { None }),
    {
        if self.sense_len >= 13 {
            Some(self.sense[12])
        } else {
            None
        }
    }
}

/// Keyboard event carrying an XT scancode.
#[derive(Debug, Clone, Copy, Default, PartialEq, Eq, Structural)]
pub struct KeyEvent {
    pub scancode: u32,
    /// `KEY_PRESSED` and `KEY_EXTENDED` bits.
    pub flags: u32,
}

/// Relative mouse event.
#[derive(Debug, Clone, Copy, Default, PartialEq, Eq, Structural)]
pub struct MouseEvent {
    pub dx: i32,
    pub dy: i32,
    /// Wheel movement.
    pub dz: i32,
    /// `MOUSE_*` button bitmap.
    pub buttons: u32,
}

/// Clipboard payload.
#[derive(Debug, Clone, Copy)]
pub struct Clipboard {
    pub length: u32,
    /// `CLIPBOARD_TEXT` or `CLIPBOARD_UNICODE`.
    pub format: u32,
    pub data: [u8; SUNPCI_MAX_CLIPBOARD],
}

impl Default for Clipboard {
    fn default() -> (r: Self)
        ensures
            r.length == 0,
            r.format == 0,
            forall|i: int| 0 <= i < SUNPCI_MAX_CLIPBOARD ==> r.data@[i] == 0,
    {
        Clipboard { length: 0, format: 0, data: [0u8; SUNPCI_MAX_CLIPBOARD] }
    }
}

impl Clipboard {
    /// A text payload holding `text`, truncated so that a NUL still fits.
    pub fn from_text(text: &str) -> (r: Self)
        ensures
            r.length as int == fitted_len(text.spec_bytes().len() as int, SUNPCI_MAX_CLIPBOARD as int),
            r.format == CLIPBOARD_TEXT,
            r.data@.subrange(0, r.length as int) == text.spec_bytes().subrange(0, r.length as int),
            forall|i: int| r.length <= i < SUNPCI_MAX_CLIPBOARD ==> r.data@[i] == 0,
    {
        let mut clip = Clipboard::default();
        let bytes = text.as_bytes();
        let ghost before = clip.data@;
        write_terminated(&mut clip.data, bytes);
        let n: usize = if bytes.len() < SUNPCI_MAX_CLIPBOARD - 1 {
            bytes.len()
        } else {
            SUNPCI_MAX_CLIPBOARD - 1
        };
        clip.length = n as u32;
        clip.format = CLIPBOARD_TEXT;
        assert(clip.data@.subrange(0, n as int) =~= bytes@.subrange(0, n as int));
        assert forall|i: int| n <= i < SUNPCI_MAX_CLIPBOARD implies clip.data@[i] == 0 by {
            if i > n {
                assert(clip.data@[i] == before[i]);
            }
        }
        clip
    }

    /// The payload bytes, or `None` when the length field exceeds the buffer.
    pub fn payload(&self) -> (r: Option<Vec<u8>>)
        ensures
            self.length > SUNPCI_MAX_CLIPBOARD <==> r is None,
            r matches Some(v) ==> v@ == self.data@.subrange(0, self.length as int),
    {
        if self.length as usize > SUNPCI_MAX_CLIPBOARD {
            return None;
        }
        Some(prefix_of(self.data.as_slice(), self.length as usize))
    }
}

/// The first `n` bytes of `buf`.
pub fn prefix_of(buf: &[u8], n: usize) -> (r: Vec<u8>)
    requires
        n <= buf@.len(),
    ensures
        r@ == buf@.subrange(0, n as int),
{
    let mut r: Vec<u8> = Vec::new();
    let mut i: usize = 0;
    while i < n
        invariant
            n <= buf@.len(),
            0 <= i <= n,
            r@ == buf@.subrange(0, i as int),
        decreases n - i,
    {
        r.push(buf[i]);
        i = i + 1;
        assert(r@ =~= buf@.subrange(0, i as int));
    }
    r
}

/// Mapping of a guest drive letter (E through Z) to a host directory.
#[derive(Debug, Clone, Copy)]
pub struct DriveMapping {
    pub letter: u8,
    /// `DRIVE_*` bits.
    pub flags: u8,
    pub reserved: u16,
    pub path: [u8; SUNPCI_MAX_PATH],
}

impl Default for DriveMapping {
    fn default() -> (r: Self)
        ensures
            r.letter == 0,
            r.flags == 0,
            r.reserved == 0,
            forall|i: int| 0 <= i < SUNPCI_MAX_PATH ==> r.path@[i] == 0,
    {
        DriveMapping { letter: 0, flags: 0, reserved: 0, path: [0u8; SUNPCI_MAX_PATH] }
    }
}

/// Drive letter of a mapping to remove.
#[derive(Debug, Clone, Copy, Default)]
pub struct DriveLetter {
    pub letter: u8,
    pub _pad: [u8; 3],
}

/// Network adapter configuration.
#[derive(Debug, Clone, Copy, Default)]
pub struct NetworkConfig {
    /// `NET_*` bits.
    pub flags: u32,
    /// Host interface name.
    pub interface: [u8; 32],
    pub mac_address: [u8; 6],
    pub reserved: u16,
}

/// Network adapter counters.
#[derive(Debug, Clone, Copy, Default)]
pub struct NetworkStatus {
    pub flags: u32,
    pub rx_packets: u32,
    pub tx_packets: u32,
    pub rx_bytes: u64,
    pub tx_bytes: u64,
}

/// Audio stream format.
#[derive(Debug, Clone, Copy, Default)]
pub struct AudioFormat {
    /// Samples per second.
    pub sample_rate: u32,
    /// `AUDIO_FMT_*` bits.
    pub format: u32,
    pub channels: u32,
    /// 8 or 16.
    pub bits_per_sample: u32,
}

impl AudioFormat {
    /// Bytes of one sample frame, all channels included.
    pub open spec fn spec_bytes_per_sample(self) -> int {
        (self.bits_per_sample / 8) as int * self.channels as int
    }

    /// Bytes of one sample frame, all channels included.
    pub fn bytes_per_sample(&self) -> (r: u32)
        requires
            self.spec_bytes_per_sample() <= u32::MAX,
        ensures
            r as int == self.spec_bytes_per_sample(),
    {
        (self.bits_per_sample / 8) * self.channels
    }

    /// Bytes of audio per second of playback.
    pub fn bytes_per_second(&self) -> (r: u32)
        requires
            self.spec_bytes_per_sample() <= u32::MAX,
            self.sample_rate as int * self.spec_bytes_per_sample() <= u32::MAX,
        ensures
            r as int == self.sample_rate as int * self.spec_bytes_per_sample(),
    {
        let per_sample = self.bytes_per_sample();
        self.sample_rate * per_sample
    }
}

/// Audio output levels.
#[derive(Debug, Clone, Copy, Default)]
pub struct AudioVolume {
    pub left: u8,
    pub right: u8,
    /// 1 when muted.
    pub muted: u8,
    pub reserved: u8,
}

impl AudioVolume {
    /// Both channels at `volume`, not muted.
    pub fn new(volume: u8) -> (r: Self)
        ensures
            r.left == volume,
            r.right == volume,
            r.muted == 0,
            r.reserved == 0,
    {
        AudioVolume { left: volume, right: volume, muted: 0, reserved: 0 }
    }

    /// Both channels silent, muted.
    pub fn muted() -> (r: Self)
        ensures
            r.left == 0,
            r.right == 0,
            r.muted == 1,
            r.reserved == 0,
    {
        AudioVolume { left: 0, right: 0, muted: 1, reserved: 0 }
    }

    /// Separate channel levels with a mute flag.
    pub fn levels(left: u8, right: u8, muted: bool) -> (r: Self)
        ensures
            r.left == left,
            r.right == right,
            r.muted == (if muted { 1u8 } else { 0u8 }),
            r.reserved == 0,
    {
        AudioVolume { left, right, muted: if muted { 1 } else { 0 }, reserved: 0 }
    }
}

/// Audio subsystem status.
#[derive(Debug, Clone, Copy, Default)]
pub struct AudioStatus {
    /// `AUDIO_PLAYING`, `AUDIO_AVAILABLE`, `AUDIO_MUTED` bits.
    pub flags: u32,
    pub sample_rate: u32,
    pub format: u32,
    /// Bytes of audio waiting in the driver.
    pub buffer_available: u32,
    pub samples_played_lo: u32,
    pub samples_played_hi: u32,
    pub underruns: u32,
    pub reserved: u32,
}

impl AudioStatus {
    /// Total samples played.
    pub fn samples_played(&self) -> (r: u64)
        ensures
            r == combined_u64(self.samples_played_lo, self.samples_played_hi),
    {
        combine_u32(self.samples_played_lo, self.samples_played_hi)
    }

    /// Whether playback is active.
    pub fn is_playing(&self) -> (r: bool)
        ensures
            r == has_flag(self.flags, AUDIO_PLAYING),
    {
        self.flags & AUDIO_PLAYING != 0
    }

    /// Whether audio hardware is present.
    pub fn is_available(&self) -> (r: bool)
        ensures
            r == has_flag(self.flags, AUDIO_AVAILABLE),
    {
        self.flags & AUDIO_AVAILABLE != 0
    }

    /// Whether output is muted.
    pub fn is_muted(&self) -> (r: bool)
        ensures
            r == has_flag(self.flags, AUDIO_MUTED),
    {
        self.flags & AUDIO_MUTED != 0
    }
}

/// Buffer for one audio read. `size` is the most bytes wanted on the way in
/// and the bytes delivered on the way out.
#[derive(Debug, Clone, Copy)]
pub struct AudioBuffer {
    pub size: u32,
    pub reserved: u32,
    pub data: [u8; SUNPCI_AUDIO_MAX_BUFFER],
}

impl Default for AudioBuffer {
    fn default() -> (r: Self)
        ensures
            r.size == SUNPCI_AUDIO_MAX_BUFFER,
            r.reserved == 0,
            forall|i: int| 0 <= i < SUNPCI_AUDIO_MAX_BUFFER ==> r.data@[i] == 0,
    {
        AudioBuffer {
            size: SUNPCI_AUDIO_MAX_BUFFER as u32,
            reserved: 0,
            data: [0u8; SUNPCI_AUDIO_MAX_BUFFER],
        }
    }
}

impl AudioBuffer {
    /// A read request for at most `max_bytes`, capped at the buffer capacity.
    pub fn request(max_bytes: usize) -> (r: Self)
        ensures
            r.size as int == (if max_bytes < SUNPCI_AUDIO_MAX_BUFFER { max_bytes as int } else { SUNPCI_AUDIO_MAX_BUFFER as int }),
            r.reserved == 0,
            forall|i: int| 0 <= i < SUNPCI_AUDIO_MAX_BUFFER ==> r.data@[i] == 0,
    {
        let mut buf = AudioBuffer::default();
        buf.size = if max_bytes < SUNPCI_AUDIO_MAX_BUFFER {
            max_bytes as u32
        } else {
            SUNPCI_AUDIO_MAX_BUFFER as u32
        };
        buf
    }

    /// The delivered bytes, or `None` when `size` exceeds the buffer.
    pub fn payload(&self) -> (r: Option<Vec<u8>>)
        ensures
            self.size > SUNPCI_AUDIO_MAX_BUFFER <==> r is None,
            r matches Some(v) ==> v@ == self.data@.subrange(0, self.size as int),
    {
        if self.size as usize > SUNPCI_AUDIO_MAX_BUFFER {
            return None;
        }
        Some(prefix_of(self.data.as_slice(), self.size as usize))
    }
}

} // verus!
