//! Persistent user settings, as plain data handed to session start and to
//! the mount calls. Paths are held as text.
use vstd::prelude::*;
use vstd::string::StringExecFns;

verus! {

/// General application settings.
#[derive(Debug, Clone)]
pub struct GeneralConfig {
    /// Start a session when the application starts.
    pub auto_start: bool,
    pub save_state_on_exit: bool,
    /// Ask before closing while a session runs.
    pub confirm_on_close: bool,
    pub show_status_bar: bool,
    pub remember_window_geometry: bool,
    pub window_x: Option<i32>,
    pub window_y: Option<i32>,
    pub window_width: Option<u32>,
    pub window_height: Option<u32>,
}

impl Default for GeneralConfig {
    fn default() -> (r: Self)
        ensures
            !r.auto_start,
            r.save_state_on_exit,
            r.confirm_on_close,
            r.show_status_bar,
            r.remember_window_geometry,
            r.window_x is None && r.window_y is None,
            r.window_width is None && r.window_height is None,
    {
        GeneralConfig {
            auto_start: false,
            save_state_on_exit: true,
            confirm_on_close: true,
            show_status_bar: true,
            remember_window_geometry: true,
            window_x: None,
            window_y: None,
            window_width: None,
            window_height: None,
        }
    }
}

/// Scaling of the guest display.
#[derive(Debug, Clone, Copy, PartialEq, Eq, Structural)]
pub enum ScalingMode {
    /// One host pixel per guest pixel.
    Unscaled,
    /// Fit the window, keeping the aspect ratio.
    Fit,
    /// Fill the window.
    Stretch,
    /// A fixed factor.
    Fixed(u32),
}

impl Default for ScalingMode {
    fn default() -> (r: Self)
        ensures
            r == ScalingMode::Fit,
    {
        ScalingMode::Fit
    }
}

/// Keyboard settings.
#[derive(Debug, Clone)]
pub struct KeyboardConfig {
    /// Layout name ("us", "uk", "de").
    pub layout: String,
    /// DOS code page ("437", "850").
    pub code_page: String,
    /// Key that releases keyboard capture.
    pub release_key: String,
    pub auto_capture: bool,
    pub sync_caps_lock: bool,
    pub sync_num_lock: bool,
    pub sync_scroll_lock: bool,
}

impl Default for KeyboardConfig {
    fn default() -> (r: Self)
        ensures
            r.layout@ == "us"@,
            r.code_page@ == "437"@,
            r.release_key@ == "Right Ctrl"@,
            !r.auto_capture,
            r.sync_caps_lock && r.sync_num_lock && r.sync_scroll_lock,
    {
        KeyboardConfig {
            layout: String::from_str("us"),
            code_page: String::from_str("437"),
            release_key: String::from_str("Right Ctrl"),
            auto_capture: false,
            sync_caps_lock: true,
            sync_num_lock: true,
            sync_scroll_lock: true,
        }
    }
}

/// Mouse protocol presented to the guest.
#[derive(Debug, Clone, Copy, PartialEq, Eq, Structural)]
pub enum MouseProtocol {
    Ps2,
    Serial,
    Absolute,
}

impl Default for MouseProtocol {
    fn default() -> (r: Self)
        ensures
            r == MouseProtocol::Ps2,
    {
        MouseProtocol::Ps2
    }
}

/// When the mouse is captured.
#[derive(Debug, Clone, Copy, PartialEq, Eq, Structural)]
pub enum MouseCaptureMode {
    /// On a click inside the window.
    ClickToCapture,
    /// When the pointer enters the window.
    HoverToCapture,
    /// Never.
    Seamless,
}

impl Default for MouseCaptureMode {
    fn default() -> (r: Self)
        ensures
            r == MouseCaptureMode::ClickToCapture,
    {
        MouseCaptureMode::ClickToCapture
    }
}

/// Mouse settings.
#[derive(Debug, Clone, Copy)]
pub struct MouseConfig {
    pub protocol: MouseProtocol,
    pub capture_mode: MouseCaptureMode,
    pub swap_buttons: bool,
    /// Left and right together act as the middle button.
    pub simulate_middle_button: bool,
}

impl Default for MouseConfig {
    fn default() -> (r: Self)
        ensures
            r.protocol == MouseProtocol::Ps2,
            r.capture_mode == MouseCaptureMode::ClickToCapture,
            !r.swap_buttons,
            !r.simulate_middle_button,
    {
        MouseConfig {
            protocol: MouseProtocol::Ps2,
            capture_mode: MouseCaptureMode::ClickToCapture,
            swap_buttons: false,
            simulate_middle_button: false,
        }
    }
}

/// Which guest clipboard directions are synchronized.
#[derive(Debug, Clone, Copy, PartialEq, Eq, Structural)]
pub enum ClipboardDirection {
    Bidirectional,
    HostToGuest,
    GuestToHost,
}

impl Default for ClipboardDirection {
    fn default() -> (r: Self)
        ensures
            r == ClipboardDirection::Bidirectional,
    {
        ClipboardDirection::Bidirectional
    }
}

/// Clipboard sharing settings.
#[derive(Debug, Clone, Copy)]
pub struct ClipboardConfig {
    pub enabled: bool,
    pub direction: ClipboardDirection,
    pub share_text: bool,
    pub share_rich_text: bool,
    pub share_images: bool,
    pub share_files: bool,
}

impl Default for ClipboardConfig {
    fn default() -> (r: Self)
        ensures
            r.enabled,
            r.direction == ClipboardDirection::Bidirectional,
            r.share_text && r.share_rich_text && r.share_images,
            !r.share_files,
    {
        ClipboardConfig {
            enabled: true,
            direction: ClipboardDirection::Bidirectional,
            share_text: true,
            share_rich_text: true,
            share_images: true,
            share_files: false,
        }
    }
}

/// Network adapter settings.
#[derive(Debug, Clone)]
pub struct NetworkConfig {
    pub enabled: bool,
    /// Host interface to bridge.
    pub host_interface: String,
    /// MAC address text; empty for a generated one.
    pub mac_address: String,
    pub irq: u8,
    pub promiscuous: bool,
}

impl Default for NetworkConfig {
    fn default() -> (r: Self)
        ensures
            !r.enabled,
            r.host_interface@.len() == 0,
            r.mac_address@.len() == 0,
            r.irq == 10,
            !r.promiscuous,
    {
        NetworkConfig {
            enabled: false,
            host_interface: String::new(),
            mac_address: String::new(),
            irq: 10,
            promiscuous: false,
        }
    }
}

/// A hard-disk image.
#[derive(Debug, Clone)]
pub struct DiskConfig {
    pub path: String,
    pub bootable: bool,
}

/// CD-ROM drive settings.
#[derive(Debug, Clone)]
pub struct CdromConfig {
    /// The ISO image in the drive, if any.
    pub mounted_iso: Option<String>,
    /// Mount it when a session starts.
    pub auto_mount: bool,
    /// Boot from it (El Torito).
    pub boot_from_cd: bool,
}

impl Default for CdromConfig {
    fn default() -> (r: Self)
        ensures
            r.mounted_iso is None,
            r.auto_mount,
            !r.boot_from_cd,
    {
        CdromConfig { mounted_iso: None, auto_mount: true, boot_from_cd: false }
    }
}

/// Floppy drive settings.
#[derive(Debug, Clone)]
pub struct FloppyConfig {
    /// The image in the drive, if any.
    pub mounted_image: Option<String>,
    /// Mount it when a session starts.
    pub auto_mount: bool,
    pub write_protected: bool,
}

impl Default for FloppyConfig {
    fn default() -> (r: Self)
        ensures
            r.mounted_image is None,
            r.auto_mount,
            !r.write_protected,
    {
        FloppyConfig { mounted_image: None, auto_mount: true, write_protected: false }
    }
}

/// Storage devices.
#[derive(Debug, Clone)]
pub struct StorageConfig {
    /// Drive C:.
    pub primary_disk: Option<DiskConfig>,
    /// Drive D:.
    pub secondary_disk: Option<DiskConfig>,
    pub cdrom: CdromConfig,
    pub floppy_a: FloppyConfig,
    pub floppy_b: FloppyConfig,
}

impl Default for StorageConfig {
    fn default() -> (r: Self)
        ensures
            r.primary_disk is None,
            r.secondary_disk is None,
            r.cdrom.mounted_iso is None && r.cdrom.auto_mount,
            r.floppy_a.mounted_image is None && r.floppy_a.auto_mount,
            r.floppy_b.mounted_image is None && r.floppy_b.auto_mount,
    {
        StorageConfig {
            primary_disk: None,
            secondary_disk: None,
            cdrom: CdromConfig::default(),
            floppy_a: FloppyConfig::default(),
            floppy_b: FloppyConfig::default(),
        }
    }
}

/// A host directory shown to the guest as a drive letter.
#[derive(Debug, Clone)]
pub struct DriveMapping {
    /// Guest drive letter, such as "F:".
    pub drive_letter: String,
    pub host_path: String,
    pub description: String,
    pub enabled: bool,
}

impl Default for DriveMapping {
    fn default() -> (r: Self)
        ensures
            r.drive_letter@ == "F:"@,
            r.host_path@.len() == 0,
            r.description@.len() == 0,
            r.enabled,
    {
        DriveMapping {
            drive_letter: String::from_str("F:"),
            host_path: String::new(),
            description: String::new(),
            enabled: true,
        }
    }
}

/// Entries kept per list of recent files unless configured otherwise.
pub fn default_max_recent() -> (r: usize)
    ensures
        r == 10,
{
    10
}

/// The texts of a list of strings.
pub open spec fn texts(v: Seq<String>) -> Seq<Seq<char>> {
    v.map_values(|s: String| s@)
}

/// At most the first `n` entries.
pub open spec fn first_n(s: Seq<Seq<char>>, n: int) -> Seq<Seq<char>> {
    if n < s.len() {
        s.subrange(0, n)
    } else {
        s
    }
}

/// Holds of every text but `path`.
pub open spec fn other_than(path: Seq<char>) -> spec_fn(Seq<char>) -> bool {
    |p: Seq<char>| p != path
}

/// A recent-files list after `path` was used: `path` first, then the other
/// entries in their order without `path`, at most `max` in all.
pub open spec fn recent_after(list: Seq<Seq<char>>, path: Seq<char>, max: int) -> Seq<Seq<char>> {
    first_n(seq![path] + list.filter(other_than(path)), max)
}

/// Puts `path` at the front of `list`, drops its older entry, and keeps at
/// most `max` entries.
fn add_to_list(list: &mut Vec<String>, path: String, max: usize)
    ensures
        texts(final(list)@) == recent_after(texts(old(list)@), path@, max as int),
{
    let ghost p = path@;
    let mut out: Vec<String> = Vec::new();
    let mut i: usize = 0;
    let n = list.len();
    while i < n
        invariant
            n == old(list)@.len(),
            list@ == old(list)@,
            0 <= i <= n,
            p == path@,
            texts(out@) == texts(old(list)@).subrange(0, i as int).filter(other_than(p)),
        decreases n - i,
    {
        let ghost before = texts(old(list)@).subrange(0, i as int);
        let ghost after = texts(old(list)@).subrange(0, i + 1);
        assert(after.drop_last() =~= before);
        assert(after.last() == list@[i as int]@);
        proof {
            reveal(Seq::filter);
        }
        assert(after.filter(other_than(p)) == if other_than(p)(after.last()) {
            before.filter(other_than(p)).push(after.last())
        } else {
            before.filter(other_than(p))
        });
        if !list[i].eq(&path) {
            let item = list[i].clone();
            out.push(item);
            assert(texts(out@) =~= after.filter(other_than(p)));
        } else {
            assert(texts(out@) =~= after.filter(other_than(p)));
        }
        i = i + 1;
    }
    assert(texts(old(list)@).subrange(0, n as int) =~= texts(old(list)@));
    let mut result: Vec<String> = Vec::new();
    result.push(path);
    result.append(&mut out);
    assert(texts(result@) =~= seq![p] + texts(old(list)@).filter(other_than(p)));
    result.truncate(max);
    assert(texts(result@) =~= recent_after(texts(old(list)@), p, max as int));
    *list = result;
}

/// Recently used files, most recent first.
#[derive(Debug, Clone)]
pub struct RecentFiles {
    pub disk_images: Vec<String>,
    pub iso_files: Vec<String>,
    pub floppy_images: Vec<String>,
    /// Entries kept per list.
    pub max_recent: usize,
}

impl Default for RecentFiles {
    fn default() -> (r: Self)
        ensures
            r.disk_images@.len() == 0,
            r.iso_files@.len() == 0,
            r.floppy_images@.len() == 0,
            r.max_recent == 10,
    {
        RecentFiles {
            disk_images: Vec::new(),
            iso_files: Vec::new(),
            floppy_images: Vec::new(),
            max_recent: default_max_recent(),
        }
    }
}

impl RecentFiles {
    /// Records a use of the disk image at `path`.
    pub fn add_disk_image(&mut self, path: String)
        ensures
            texts(final(self).disk_images@) == recent_after(
                texts(old(self).disk_images@),
                path@,
                old(self).max_recent as int,
            ),
            final(self).iso_files == old(self).iso_files,
            final(self).floppy_images == old(self).floppy_images,
            final(self).max_recent == old(self).max_recent,
    {
        let max = self.max_recent;
        add_to_list(&mut self.disk_images, path, max);
    }

    /// Records a use of the ISO image at `path`.
    pub fn add_iso(&mut self, path: String)
        ensures
            texts(final(self).iso_files@) == recent_after(
                texts(old(self).iso_files@),
                path@,
                old(self).max_recent as int,
            ),
            final(self).disk_images == old(self).disk_images,
            final(self).floppy_images == old(self).floppy_images,
            final(self).max_recent == old(self).max_recent,
    {
        let max = self.max_recent;
        add_to_list(&mut self.iso_files, path, max);
    }

    /// Records a use of the floppy image at `path`.
    pub fn add_floppy_image(&mut self, path: String)
        ensures
            texts(final(self).floppy_images@) == recent_after(
                texts(old(self).floppy_images@),
                path@,
                old(self).max_recent as int,
            ),
            final(self).disk_images == old(self).disk_images,
            final(self).iso_files == old(self).iso_files,
            final(self).max_recent == old(self).max_recent,
    {
        let max = self.max_recent;
        add_to_list(&mut self.floppy_images, path, max);
    }
}

} // verus!
