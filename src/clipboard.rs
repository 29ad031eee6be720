//! Decoding of guest clipboard text.
use vstd::prelude::*;
use vstd::string::StrSliceExecFns;
use crate::ioctl::{Clipboard, CLIPBOARD_TEXT, CLIPBOARD_UNICODE, SUNPCI_MAX_CLIPBOARD};

verus! {

/// The 16-bit little-endian units of the complete byte pairs of `b`.
pub open spec fn le_units(b: Seq<u8>) -> Seq<u16> {
    Seq::new(b.len() / 2, |i: int| (b[2 * i] as int + b[2 * i + 1] as int * 256) as u16)
}

/// The units before the first NUL unit (all of them when there is none).
pub open spec fn before_nul(u: Seq<u16>) -> Seq<u16>
    decreases u.len(),
{
    if u.len() == 0 || u[0] == 0 {
        Seq::empty()
    } else {
        seq![u[0]] + before_nul(u.drop_first())
    }
}

/// What `String::from_utf16_lossy` makes of a sequence of UTF-16 units.
pub uninterp spec fn utf16_lossy_of(units: Seq<u16>) -> Seq<char>;

/// Relies on `String::from_utf16_lossy`: the text that the units encode,
/// with U+FFFD for each invalid unit; a function of the units alone, and
/// empty for no units.
#[verifier::external_body]
fn text_from_utf16(units: &[u16]) -> (r: String)
    ensures
        r@ == utf16_lossy_of(units@),
        units@.len() == 0 ==> r@.len() == 0,
{
    String::from_utf16_lossy(units)
}

/// The UTF-16LE units of a NUL-terminated guest clipboard payload: complete
/// byte pairs up to the first NUL unit.
pub fn utf16le_units(bytes: &[u8]) -> (r: Vec<u16>)
    ensures
        r@ == before_nul(le_units(bytes@)),
{
    let ghost u = le_units(bytes@);
    let len = bytes.len();
    let n: usize = len / 2;
    let mut r: Vec<u16> = Vec::new();
    let mut i: usize = 0;
    assert(u.subrange(0, n as int) =~= u);
    assert(r@ + before_nul(u) =~= before_nul(u));
    while i < n
        invariant
            n == bytes@.len() / 2,
            2 * n <= bytes@.len() <= usize::MAX,
            u == le_units(bytes@),
            u.len() == n,
            0 <= i <= n,
            r@ + before_nul(u.subrange(i as int, n as int)) == before_nul(u),
        decreases n - i,
    {
        let ghost rest = u.subrange(i as int, n as int);
        let lo = bytes[2 * i];
        let hi = bytes[2 * i + 1];
        let unit: u16 = (lo as u16) | ((hi as u16) << 8u16);
        assert(unit == lo as u16 + hi as u16 * 256u16) by (bit_vector)
            requires
                unit == (lo as u16) | ((hi as u16) << 8u16),
        ;
        assert(rest[0] == unit);
        if unit == 0 {
            assert(before_nul(rest) =~= Seq::<u16>::empty());
            assert(r@ =~= before_nul(u));
            return r;
        }
        assert(rest.drop_first() =~= u.subrange(i + 1, n as int));
        r.push(unit);
        i = i + 1;
        assert(r@ + before_nul(u.subrange(i as int, n as int)) =~= before_nul(u));
    }
    assert(before_nul(u.subrange(n as int, n as int)) =~= Seq::<u16>::empty());
    assert(r@ =~= before_nul(u));
    r
}

/// Decodes a UTF-16LE guest clipboard payload up to its first NUL unit;
/// empty for fewer than two bytes.
pub fn decode_utf16le(bytes: &[u8]) -> (r: String)
    ensures
        r@ == utf16_lossy_of(before_nul(le_units(bytes@))),
        bytes@.len() < 2 ==> r@.len() == 0,
{
    let units = utf16le_units(bytes);
    proof {
        if bytes@.len() < 2 {
            assert(le_units(bytes@).len() == 0);
        }
    }
    text_from_utf16(units.as_slice())
}


/// What `str::encode_utf16` yields for a text.
pub uninterp spec fn utf16_of(text: Seq<char>) -> Seq<u16>;

/// Relies on `str::encode_utf16`: the UTF-16 encoding of the text, a
/// function of the text alone; nothing for an empty text.
#[verifier::external_body]
fn encode_utf16(text: &str) -> (r: Vec<u16>)
    ensures
        r@ == utf16_of(text@),
        text@.len() == 0 ==> r@.len() == 0,
{
    text.encode_utf16().collect()
}

/// What `String::from_utf8_lossy` makes of bytes.
pub uninterp spec fn utf8_lossy_of(bytes: Seq<u8>) -> Seq<char>;

/// Relies on `String::from_utf8_lossy`: the text the bytes encode, with
/// U+FFFD for each invalid sequence; a function of the bytes alone.
#[verifier::external_body]
fn text_from_utf8_lossy(bytes: &[u8]) -> (r: String)
    ensures
        r@ == utf8_lossy_of(bytes@),
{
    String::from_utf8_lossy(bytes).into_owned()
}

/// UTF-16 units that fit a clipboard payload with a two-byte terminator.
pub const MAX_CLIPBOARD_UNITS: usize = 2047;

/// Little-endian bytes of UTF-16 units.
pub open spec fn le_bytes_of_units(u: Seq<u16>) -> Seq<u8>
    decreases u.len(),
{
    if u.len() == 0 {
        Seq::empty()
    } else {
        le_bytes_of_units(u.drop_last()) + seq![(u.last() % 256) as u8, (u.last() / 256) as u8]
    }
}

/// A UNICODE clipboard payload holding the first units of `units` that fit,
/// little-endian, followed by a two-byte NUL; the length counts the
/// terminator.
pub fn clipboard_from_units(units: &[u16]) -> (r: Clipboard)
    ensures
        ({
            let n = if units@.len() < MAX_CLIPBOARD_UNITS { units@.len() as int } else { MAX_CLIPBOARD_UNITS as int };
            let payload = le_bytes_of_units(units@.subrange(0, n));
            &&& r.format == CLIPBOARD_UNICODE
            &&& r.length as int == 2 * n + 2
            &&& r.data@.subrange(0, 2 * n) == payload
            &&& forall|i: int| 2 * n <= i < SUNPCI_MAX_CLIPBOARD ==> r.data@[i] == 0
        }),
{
    let mut clip = Clipboard::default();
    let n: usize = if units.len() < MAX_CLIPBOARD_UNITS { units.len() } else { MAX_CLIPBOARD_UNITS };
    let mut i: usize = 0;
    while i < n
        invariant
            n == (if units@.len() < MAX_CLIPBOARD_UNITS { units@.len() as int } else { MAX_CLIPBOARD_UNITS as int }),
            0 <= i <= n,
            clip.data@.len() == SUNPCI_MAX_CLIPBOARD,
            clip.data@.subrange(0, 2 * i as int) == le_bytes_of_units(units@.subrange(0, i as int)),
            forall|j: int| 2 * i <= j < SUNPCI_MAX_CLIPBOARD ==> clip.data@[j] == 0,
            clip.length == 0,
            clip.format == 0,
        decreases n - i,
    {
        let unit = units[i];
        let lo = (unit % 256) as u8;
        let hi = (unit / 256) as u8;
        let ghost before = clip.data@;
        clip.data[2 * i] = lo;
        clip.data[2 * i + 1] = hi;
        let ghost next = units@.subrange(0, i + 1);
        assert(next.drop_last() =~= units@.subrange(0, i as int));
        assert(clip.data@.subrange(0, 2 * i as int) =~= before.subrange(0, 2 * i as int));
        i = i + 1;
        assert(clip.data@.subrange(0, 2 * i as int) =~= le_bytes_of_units(units@.subrange(0, i as int)));
    }
    clip.length = (2 * n + 2) as u32;
    clip.format = CLIPBOARD_UNICODE;
    clip
}

/// The UNICODE clipboard payload that hands `text` to the guest.
pub fn unicode_clipboard(text: &str) -> (r: Clipboard)
    ensures
        ({
            let u = utf16_of(text@);
            let n = if u.len() < MAX_CLIPBOARD_UNITS { u.len() as int } else { MAX_CLIPBOARD_UNITS as int };
            &&& r.format == CLIPBOARD_UNICODE
            &&& r.length as int == 2 * n + 2
            &&& r.data@.subrange(0, 2 * n) == le_bytes_of_units(u.subrange(0, n))
            &&& forall|i: int| 2 * n <= i < SUNPCI_MAX_CLIPBOARD ==> r.data@[i] == 0
        }),
{
    let units = encode_utf16(text);
    clipboard_from_units(units.as_slice())
}

/// `text` without its trailing NUL characters.
pub open spec fn without_trailing_nuls(text: Seq<char>, r: Seq<char>) -> bool {
    &&& r.len() <= text.len()
    &&& r == text.subrange(0, r.len() as int)
    &&& forall|i: int| r.len() <= i < text.len() ==> text[i] == '\0'
    &&& (r.len() == 0 || r.last() != '\0')
}

/// Drops the trailing NUL characters of a text.
pub fn trim_trailing_nuls(text: &str) -> (r: String)
    ensures
        without_trailing_nuls(text@, r@),
{
    let mut k: usize = text.unicode_len();
    while k > 0 && text.get_char(k - 1) == '\0'
        invariant
            0 <= k <= text@.len(),
            forall|i: int| k <= i < text@.len() ==> text@[i] == '\0',
        decreases k,
    {
        k = k - 1;
    }
    let kept = text.substring_char(0, k);
    kept.to_owned()
}

/// The text of a clipboard payload fetched from the guest: `None` when it is
/// empty or its length exceeds the buffer; UNICODE payloads are decoded
/// from UTF-16LE up to their terminator, others as UTF-8 without trailing
/// NUL characters.
pub fn guest_clipboard_text(clip: &Clipboard) -> (r: Option<String>)
    ensures
        (clip.length == 0 || clip.length > SUNPCI_MAX_CLIPBOARD) <==> r is None,
        r matches Some(t) ==> ({
            let bytes = clip.data@.subrange(0, clip.length as int);
            if clip.format == CLIPBOARD_UNICODE {
                t@ == utf16_lossy_of(before_nul(le_units(bytes)))
            } else {
                without_trailing_nuls(utf8_lossy_of(bytes), t@)
            }
        }),
{
    if clip.length == 0 {
        return None;
    }
    let payload = match clip.payload() {
        Some(p) => p,
        None => {
            return None;
        },
    };
    if clip.format == CLIPBOARD_UNICODE {
        Some(decode_utf16le(payload.as_slice()))
    } else {
        let text = text_from_utf8_lossy(payload.as_slice());
        Some(trim_trailing_nuls(text.as_str()))
    }
}

/// What `DefaultHasher` makes of a text.
pub uninterp spec fn text_hash_of(text: Seq<char>) -> u64;

/// Relies on `std::collections::hash_map::DefaultHasher`: a hasher made by
/// `DefaultHasher::new` is unkeyed, so the hash of a text is a function of
/// the text alone. Used to notice clipboard changes without keeping texts.
#[verifier::external_body]
pub fn hash_text(text: &str) -> (r: u64)
    ensures
        r == text_hash_of(text@),
{
    let mut hasher = std::collections::hash_map::DefaultHasher::new();
    std::hash::Hash::hash(text, &mut hasher);
    std::hash::Hasher::finish(&hasher)
}

/// Clipboard synchronization between host and guest. Texts are compared by
/// hash; the hashes are computed by the caller.
#[derive(Debug, Clone, Copy)]
pub struct ClipboardSync {
    pub enabled: bool,
    pub host_to_guest: bool,
    pub guest_to_host: bool,
    /// Hash of the last host text sent to the guest.
    pub last_host_hash: u64,
    /// Hash of the last guest text passed to the host.
    pub last_guest_hash: u64,
    pub host_to_guest_count: u64,
    pub guest_to_host_count: u64,
}

/// A counter one step on, stopping at its largest value.
pub open spec fn bumped(c: u64) -> u64 {
    if c < u64::MAX {
        (c + 1) as u64
    } else {
        c
    }
}

fn bump(c: u64) -> (r: u64)
    ensures
        r == bumped(c),
{
    if c < u64::MAX {
        c + 1
    } else {
        c
    }
}

impl ClipboardSync {
    /// Enabled both ways, nothing seen yet.
    pub fn new() -> (r: Self)
        ensures
            r.enabled && r.host_to_guest && r.guest_to_host,
            r.last_host_hash == 0 && r.last_guest_hash == 0,
            r.host_to_guest_count == 0 && r.guest_to_host_count == 0,
    {
        ClipboardSync {
            enabled: true,
            host_to_guest: true,
            guest_to_host: true,
            last_host_hash: 0,
            last_guest_hash: 0,
            host_to_guest_count: 0,
            guest_to_host_count: 0,
        }
    }

    /// Turns synchronization on or off.
    pub fn set_enabled(&mut self, enabled: bool)
        ensures
            *final(self) == (ClipboardSync { enabled, ..*old(self) }),
    {
        self.enabled = enabled;
    }

    /// Sets the directions from their names ("bidirectional" or "both",
    /// "host_to_guest" or "hostToGuest", "guest_to_host" or "guestToHost");
    /// an unknown name changes nothing and returns false.
    pub fn set_direction(&mut self, direction: &str) -> (r: bool)
        ensures
            r == (direction@ == "bidirectional"@ || direction@ == "both"@ || direction@
                == "host_to_guest"@ || direction@ == "hostToGuest"@ || direction@ == "guest_to_host"@
                || direction@ == "guestToHost"@),
            (direction@ == "bidirectional"@ || direction@ == "both"@) ==> final(self).host_to_guest
                && final(self).guest_to_host,
            (direction@ == "host_to_guest"@ || direction@ == "hostToGuest"@) ==> final(self).host_to_guest && !final(self).guest_to_host,
            (direction@ == "guest_to_host"@ || direction@ == "guestToHost"@) ==> !final(self).host_to_guest && final(self).guest_to_host,
            !r ==> *final(self) == *old(self),
            final(self).enabled == old(self).enabled,
            final(self).last_host_hash == old(self).last_host_hash,
            final(self).last_guest_hash == old(self).last_guest_hash,
            final(self).host_to_guest_count == old(self).host_to_guest_count,
            final(self).guest_to_host_count == old(self).guest_to_host_count,
    {
        proof {
            reveal_strlit("bidirectional");
            reveal_strlit("both");
            reveal_strlit("host_to_guest");
            reveal_strlit("hostToGuest");
            reveal_strlit("guest_to_host");
            reveal_strlit("guestToHost");
            assert("host_to_guest"@[0] != "bidirectional"@[0]);
            assert("guest_to_host"@[0] != "bidirectional"@[0]);
            assert("guest_to_host"@[0] != "host_to_guest"@[0]);
            assert("guestToHost"@[0] != "hostToGuest"@[0]);
        }
        if text_equals(direction, "bidirectional") || text_equals(direction, "both") {
            self.host_to_guest = true;
            self.guest_to_host = true;
            true
        } else if text_equals(direction, "host_to_guest") || text_equals(direction, "hostToGuest") {
            self.host_to_guest = true;
            self.guest_to_host = false;
            true
        } else if text_equals(direction, "guest_to_host") || text_equals(direction, "guestToHost") {
            self.host_to_guest = false;
            self.guest_to_host = true;
            true
        } else {
            false
        }
    }

    /// Decides whether a new host text (by hash, and whether it is empty)
    /// goes to the guest: only while enabled host to guest, for a non-empty
    /// text that differs from the last one sent. A text that goes is
    /// remembered.
    pub fn host_text_changed(&mut self, hash: u64, empty: bool) -> (r: bool)
        ensures
            r == (old(self).enabled && old(self).host_to_guest && hash != old(self).last_host_hash
                && !empty),
            r ==> final(self).last_host_hash == hash,
            !r ==> *final(self) == *old(self),
            final(self).enabled == old(self).enabled,
            final(self).host_to_guest == old(self).host_to_guest,
            final(self).guest_to_host == old(self).guest_to_host,
            final(self).last_guest_hash == old(self).last_guest_hash,
            final(self).host_to_guest_count == old(self).host_to_guest_count,
            final(self).guest_to_host_count == old(self).guest_to_host_count,
    {
        if !self.enabled || !self.host_to_guest {
            return false;
        }
        if hash == self.last_host_hash || empty {
            return false;
        }
        self.last_host_hash = hash;
        true
    }

    /// Counts a host text that reached the guest.
    pub fn host_text_sent(&mut self)
        ensures
            *final(self) == (ClipboardSync {
                host_to_guest_count: bumped(old(self).host_to_guest_count),
                ..*old(self)
            }),
    {
        self.host_to_guest_count = bump(self.host_to_guest_count);
    }

    /// Whether the guest clipboard should be polled at all.
    pub fn wants_guest_text(&self) -> (r: bool)
        ensures
            r == (self.enabled && self.guest_to_host),
    {
        self.enabled && self.guest_to_host
    }

    /// Decides whether a guest text (by hash, and whether it is empty) goes
    /// to the host: only while enabled guest to host, for a non-empty text
    /// that is neither the last guest text nor the echo of the last host
    /// text. A text that goes is remembered and counted.
    pub fn guest_text_polled(&mut self, hash: u64, empty: bool) -> (r: bool)
        ensures
            r == (old(self).enabled && old(self).guest_to_host && !empty && hash
                != old(self).last_guest_hash && hash != old(self).last_host_hash),
            r ==> final(self).last_guest_hash == hash && final(self).guest_to_host_count == bumped(
                old(self).guest_to_host_count,
            ),
            !r ==> *final(self) == *old(self),
            final(self).enabled == old(self).enabled,
            final(self).host_to_guest == old(self).host_to_guest,
            final(self).guest_to_host == old(self).guest_to_host,
            final(self).last_host_hash == old(self).last_host_hash,
            final(self).host_to_guest_count == old(self).host_to_guest_count,
    {
        if !self.enabled || !self.guest_to_host || empty {
            return false;
        }
        if hash == self.last_guest_hash || hash == self.last_host_hash {
            return false;
        }
        self.last_guest_hash = hash;
        self.guest_to_host_count = bump(self.guest_to_host_count);
        true
    }
}

/// Whether two texts are the same characters.
fn text_equals(a: &str, b: &str) -> (r: bool)
    ensures
        r == (a@ == b@),
{
    let n = a.unicode_len();
    if n != b.unicode_len() {
        return false;
    }
    let mut i: usize = 0;
    while i < n
        invariant
            n == a@.len(),
            n == b@.len(),
            0 <= i <= n,
            forall|j: int| 0 <= j < i ==> a@[j] == b@[j],
        decreases n - i,
    {
        if a.get_char(i) != b.get_char(i) {
            return false;
        }
        i = i + 1;
    }
    assert(a@ =~= b@);
    true
}

} // verus!
