//! Client-side decisions of the device control calls: the request record each
//! call hands to the driver, the checks made before any call, and the mapping
//! of failures to `SunPciError`. The calls themselves are made by the host
//! application, which passes their outcomes in as plain values.
use vstd::prelude::*;
use vstd::string::StringSliceAdditionalSpecFns;
use crate::ioctl::{
    has_flag, terminated_write, Clipboard, DiskMount, DriveLetter, DriveMapping, FloppyMount,
    IoctlSessionConfig, Path, DISK_READONLY, DRIVE_READONLY, FLAG_CLIPBOARD_ENABLED,
    FLAG_CLIPBOARD_TO_GUEST, FLAG_CLIPBOARD_TO_HOST, FLAG_NETWORK_ENABLED, SUNPCI_MAX_PATH,
};
use crate::types::SunPciError;
use crate::disk_image::DiskInfo;
use crate::config::ClipboardDirection;
use crate::ioctl::{AudioBuffer, SUNPCI_AUDIO_MAX_BUFFER, SUNPCI_MAX_CLIPBOARD};

verus! {

/// Largest floppy image accepted: 3 MiB, above the 2.88 MB format.
pub const MAX_FLOPPY_IMAGE_BYTES: u64 = 3 * 1024 * 1024;

/// Why the device node could not be opened.
#[derive(Debug, Clone, Copy, PartialEq, Eq, Structural)]
pub enum OpenFailure {
    /// The node does not exist.
    NotFound,
    /// The caller lacks access rights.
    PermissionDenied,
    /// Any other OS error, with its code.
    Other(i32),
}

/// Maps a failure to open the device node at `node` to an error: a missing
/// node means the driver is not loaded, distinct from a denied access.
pub fn open_error(failure: OpenFailure, node: &str) -> (r: SunPciError)
    ensures
        failure == OpenFailure::NotFound ==> r is DriverNotLoaded,
        failure == OpenFailure::PermissionDenied ==> (r matches SunPciError::PermissionDenied(p)
            && p@ == node@),
        failure matches OpenFailure::Other(c) ==> r == SunPciError::Io(c),
{
    match failure {
        OpenFailure::NotFound => SunPciError::DriverNotLoaded,
        OpenFailure::PermissionDenied => SunPciError::PermissionDenied(node.to_owned()),
        OpenFailure::Other(c) => SunPciError::Io(c),
    }
}

/// Maps a failed driver call to an error that keeps its error number.
pub fn call_error(errno: i32) -> (r: SunPciError)
    ensures
        r == SunPciError::Ioctl(errno),
{
    SunPciError::Ioctl(errno)
}

/// Session flags for the given network and clipboard settings: the clipboard
/// direction bits are set only while the clipboard is enabled.
pub open spec fn spec_session_flags(network: bool, clipboard: bool, direction: ClipboardDirection) -> u32 {
    (if network { FLAG_NETWORK_ENABLED } else { 0u32 }) | (if clipboard {
        FLAG_CLIPBOARD_ENABLED
    } else {
        0u32
    }) | (if clipboard && direction != ClipboardDirection::GuestToHost {
        FLAG_CLIPBOARD_TO_GUEST
    } else {
        0u32
    }) | (if clipboard && direction != ClipboardDirection::HostToGuest {
        FLAG_CLIPBOARD_TO_HOST
    } else {
        0u32
    })
}

/// Session flags for the given network and clipboard settings.
pub fn session_flags(network: bool, clipboard: bool, direction: ClipboardDirection) -> (r: u32)
    ensures
        r == spec_session_flags(network, clipboard, direction),
        has_flag(r, FLAG_NETWORK_ENABLED) == network,
        has_flag(r, FLAG_CLIPBOARD_ENABLED) == clipboard,
        has_flag(r, FLAG_CLIPBOARD_TO_GUEST) == (clipboard && direction != ClipboardDirection::GuestToHost),
        has_flag(r, FLAG_CLIPBOARD_TO_HOST) == (clipboard && direction != ClipboardDirection::HostToGuest),
{
    let n: u32 = if network { FLAG_NETWORK_ENABLED } else { 0 };
    let c: u32 = if clipboard { FLAG_CLIPBOARD_ENABLED } else { 0 };
    let g: u32 = if clipboard && direction != ClipboardDirection::GuestToHost {
        FLAG_CLIPBOARD_TO_GUEST
    } else {
        0
    };
    let h: u32 = if clipboard && direction != ClipboardDirection::HostToGuest {
        FLAG_CLIPBOARD_TO_HOST
    } else {
        0
    };
    let flags = n | c | g | h;
    assert(flags & 1 != 0 <==> n == 1) by (bit_vector)
        requires
            flags == n | c | g | h,
            n == 0 || n == 1,
            c == 0 || c == 2,
            g == 0 || g == 8,
            h == 0 || h == 4,
    ;
    assert(flags & 2 != 0 <==> c == 2) by (bit_vector)
        requires
            flags == n | c | g | h,
            n == 0 || n == 1,
            c == 0 || c == 2,
            g == 0 || g == 8,
            h == 0 || h == 4,
    ;
    assert(flags & 8 != 0 <==> g == 8) by (bit_vector)
        requires
            flags == n | c | g | h,
            n == 0 || n == 1,
            c == 0 || c == 2,
            g == 0 || g == 8,
            h == 0 || h == 4,
    ;
    assert(flags & 4 != 0 <==> h == 4) by (bit_vector)
        requires
            flags == n | c | g | h,
            n == 0 || n == 1,
            c == 0 || c == 2,
            g == 0 || g == 8,
            h == 0 || h == 4,
    ;
    flags
}


/// An empty path field.
pub open spec fn blank_path() -> Seq<u8> {
    Seq::new(SUNPCI_MAX_PATH as nat, |i: int| 0u8)
}

/// A path field holding `src`, truncated and NUL-terminated.
pub open spec fn path_field(src: Seq<u8>) -> Seq<u8> {
    terminated_write(src, blank_path(), SUNPCI_MAX_PATH as int)
}

/// The configuration that starts a session with the given settings and
/// hard-disk images; an absent image leaves its field empty.
pub fn session_request(
    network: bool,
    clipboard: bool,
    direction: ClipboardDirection,
    primary: Option<&str>,
    secondary: Option<&str>,
) -> (r: IoctlSessionConfig)
    ensures
        r.memory_mb == 64,
        r.flags == spec_session_flags(network, clipboard, direction),
        r.primary_disk@ == (match primary {
            Some(p) => path_field(p.spec_bytes()),
            None => blank_path(),
        }),
        r.secondary_disk@ == (match secondary {
            Some(p) => path_field(p.spec_bytes()),
            None => blank_path(),
        }),
        r.bios_path@ == blank_path(),
{
    let mut config = IoctlSessionConfig::default();
    assert(config.primary_disk@ =~= blank_path());
    assert(config.secondary_disk@ =~= blank_path());
    assert(config.bios_path@ =~= blank_path());
    config.flags = session_flags(network, clipboard, direction);
    match primary {
        Some(p) => IoctlSessionConfig::set_path(&mut config.primary_disk, p),
        None => {},
    }
    match secondary {
        Some(p) => IoctlSessionConfig::set_path(&mut config.secondary_disk, p),
        None => {},
    }
    config
}

/// The request that mounts the image at `path` in disk slot `slot`.
pub fn mount_disk_request(slot: u32, path: &str, readonly: bool) -> (r: DiskMount)
    ensures
        r.slot == slot,
        r.flags == (if readonly { DISK_READONLY } else { 0u32 }),
        r.path@ == path_field(path.spec_bytes()),
{
    let mut mount = DiskMount::default();
    assert(mount.path@ =~= blank_path());
    mount.slot = slot;
    mount.flags = if readonly { DISK_READONLY } else { 0 };
    IoctlSessionConfig::set_path(&mut mount.path, path);
    mount
}

/// The request that mounts the ISO image at `path`.
pub fn mount_cdrom_request(path: &str) -> (r: Path)
    ensures
        r.path@ == path_field(path.spec_bytes()),
{
    let mut p = Path::default();
    assert(p.path@ =~= blank_path());
    IoctlSessionConfig::set_path(&mut p.path, path);
    p
}

/// The request that mounts the floppy image at `path` in drive `drive`.
pub fn mount_floppy_request(drive: u32, path: &str) -> (r: FloppyMount)
    ensures
        r.drive == drive,
        r.flags == 0,
        r.path@ == path_field(path.spec_bytes()),
{
    let mut mount = FloppyMount::default();
    assert(mount.path@ =~= blank_path());
    mount.drive = drive;
    IoctlSessionConfig::set_path(&mut mount.path, path);
    mount
}

/// Guest drive letters that may be mapped: E through Z.
pub open spec fn is_mappable_letter(letter: char) -> bool {
    'E' <= letter <= 'Z'
}

/// The request that maps guest drive `letter` to the host directory `path`;
/// only E through Z may be mapped.
pub fn drive_mapping_request(letter: char, path: &str, readonly: bool) -> (r: Result<DriveMapping, SunPciError>)
    ensures
        is_mappable_letter(letter) <==> r is Ok,
        r matches Ok(m) ==> m.letter == letter as u8 && m.flags == (if readonly {
            DRIVE_READONLY
        } else {
            0u8
        }) && m.reserved == 0 && m.path@ == path_field(path.spec_bytes()),
        r matches Err(e) ==> e is InvalidConfig,
{
    if letter < 'E' || letter > 'Z' {
        return Err(SunPciError::InvalidConfig("drive letter must be E through Z".to_owned()));
    }
    let mut mapping = DriveMapping::default();
    assert(mapping.path@ =~= blank_path());
    mapping.letter = letter as u8;
    mapping.flags = if readonly { DRIVE_READONLY } else { 0 };
    IoctlSessionConfig::set_path(&mut mapping.path, path);
    Ok(mapping)
}

/// The request that removes the mapping of guest drive `letter`.
pub fn drive_letter_request(letter: char) -> (r: Result<DriveLetter, SunPciError>)
    ensures
        is_mappable_letter(letter) <==> r is Ok,
        r matches Ok(d) ==> d.letter == letter as u8 && d._pad@ == seq![0u8, 0u8, 0u8],
        r matches Err(e) ==> e is InvalidConfig,
{
    if letter < 'E' || letter > 'Z' {
        return Err(SunPciError::InvalidConfig("drive letter must be E through Z".to_owned()));
    }
    let d = DriveLetter { letter: letter as u8, _pad: [0u8; 3] };
    assert(d._pad@ =~= seq![0u8, 0u8, 0u8]);
    Ok(d)
}

/// The text bytes of a clipboard record returned by the driver; a length
/// beyond the buffer is a protocol violation.
pub fn clipboard_text(clip: &Clipboard) -> (r: Result<Vec<u8>, SunPciError>)
    ensures
        clip.length <= SUNPCI_MAX_CLIPBOARD <==> r is Ok,
        r matches Ok(v) ==> v@ == clip.data@.subrange(0, clip.length as int),
        r matches Err(e) ==> e is ProtocolViolation,
{
    match clip.payload() {
        Some(v) => Ok(v),
        None => Err(SunPciError::ProtocolViolation),
    }
}

/// The audio bytes of a buffer filled by the driver; a size beyond the
/// buffer is a protocol violation.
pub fn audio_samples(buf: &AudioBuffer) -> (r: Result<Vec<u8>, SunPciError>)
    ensures
        buf.size <= SUNPCI_AUDIO_MAX_BUFFER <==> r is Ok,
        r matches Ok(v) ==> v@ == buf.data@.subrange(0, buf.size as int),
        r matches Err(e) ==> e is ProtocolViolation,
{
    match buf.payload() {
        Some(v) => Ok(v),
        None => Err(SunPciError::ProtocolViolation),
    }
}

/// The verdict on a floppy image of the given size (`None` when the file
/// could not be examined): it must exist and be at most 3 MiB.
pub open spec fn floppy_verdict(size: Option<u64>) -> Result<(), SunPciError> {
    match size {
        None => Err(SunPciError::ImageNotFound),
        Some(s) => if s > MAX_FLOPPY_IMAGE_BYTES {
            Err(SunPciError::ImageTooLarge(s))
        } else {
            Ok(())
        },
    }
}

/// Checks a floppy image given its size, `None` when the file could not be
/// examined.
pub fn check_floppy_image(size: Option<u64>) -> (r: Result<(), SunPciError>)
    ensures
        r == floppy_verdict(size),
{
    match size {
        None => Err(SunPciError::ImageNotFound),
        Some(s) => {
            if s > MAX_FLOPPY_IMAGE_BYTES {
                Err(SunPciError::ImageTooLarge(s))
            } else {
                Ok(())
            }
        },
    }
}

/// Decides a floppy mount: the request for drive `drive`, or the error that
/// stops it before any driver call.
pub fn plan_floppy_mount(drive: u32, path: &str, size: Option<u64>) -> (r: Result<FloppyMount, SunPciError>)
    ensures
        floppy_verdict(size) is Ok <==> r is Ok,
        r is Err ==> r->Err_0 == floppy_verdict(size)->Err_0,
        r matches Ok(m) ==> m.drive == drive && m.flags == 0 && m.path@ == path_field(
            path.spec_bytes(),
        ),
{
    match check_floppy_image(size) {
        Ok(()) => Ok(mount_floppy_request(drive, path)),
        Err(e) => Err(e),
    }
}

/// Decides a CD-ROM mount: a missing image fails before any driver call.
pub fn plan_cdrom_mount(path: &str, exists: bool) -> (r: Result<Path, SunPciError>)
    ensures
        exists <==> r is Ok,
        !exists ==> r matches Err(SunPciError::ImageNotFound),
        r matches Ok(p) ==> p.path@ == path_field(path.spec_bytes()),
{
    if !exists {
        return Err(SunPciError::ImageNotFound);
    }
    Ok(mount_cdrom_request(path))
}

/// Decides a hard-disk mount from what its header says (`None` when it could
/// not be read): only a SunPCi image is mounted, read-write.
pub fn plan_disk_mount(slot: u32, path: &str, header: Option<DiskInfo>) -> (r: Result<DiskMount, SunPciError>)
    ensures
        (header matches Some(h) && h.is_sunpci) <==> r is Ok,
        r matches Err(e) ==> e is InvalidImage,
        r matches Ok(m) ==> m.slot == slot && m.flags == 0 && m.path@ == path_field(
            path.spec_bytes(),
        ),
{
    match header {
        Some(h) => {
            if h.is_sunpci {
                Ok(mount_disk_request(slot, path, false))
            } else {
                Err(SunPciError::InvalidImage)
            }
        },
        None => Err(SunPciError::InvalidImage),
    }
}

/// Guest name of a hard-disk slot: C: for slot 0, D: otherwise.
pub fn disk_drive_name(slot: u32) -> (r: &'static str)
    ensures
        r@ == (if slot == 0 { "C:"@ } else { "D:"@ }),
{
    if slot == 0 { "C:" } else { "D:" }
}

/// Guest name of a floppy drive: A: for drive 0, B: otherwise.
pub fn floppy_drive_name(drive: u32) -> (r: &'static str)
    ensures
        r@ == (if drive == 0 { "A:"@ } else { "B:"@ }),
{
    if drive == 0 { "A:" } else { "B:" }
}

} // verus!
