//! MAC address text for the guest network adapter.
use vstd::prelude::*;
use vstd::string::{StrSliceExecFns, StringExecFns, StringSliceAdditionalSpecFns};
use crate::ioctl::{terminated_write, write_terminated, NetworkConfig, NET_ENABLED};

verus! {

/// The fields of `s` between ':' separators, left to right; `s` with no
/// separator is one field, and an empty `s` one empty field.
pub open spec fn colon_fields(s: Seq<u8>) -> Seq<Seq<u8>>
    decreases s.len(),
{
    if s.len() == 0 {
        seq![Seq::empty()]
    } else {
        let f = colon_fields(s.drop_last());
        if s.last() == 0x3A {
            f.push(Seq::empty())
        } else {
            f.update(f.len() - 1, f.last().push(s.last()))
        }
    }
}

/// There is always at least one field.
proof fn lemma_colon_fields_nonempty(s: Seq<u8>)
    ensures
        colon_fields(s).len() >= 1,
    decreases s.len(),
{
    if s.len() > 0 {
        lemma_colon_fields_nonempty(s.drop_last());
    }
}

/// Value of an ASCII hex digit, or `None` for any other byte.
pub open spec fn hex_digit(b: u8) -> Option<nat> {
    if 0x30 <= b <= 0x39 {
        Some((b - 0x30) as nat)
    } else if 0x41 <= b <= 0x46 {
        Some((b - 0x41 + 10) as nat)
    } else if 0x61 <= b <= 0x66 {
        Some((b - 0x61 + 10) as nat)
    } else {
        None
    }
}

/// All bytes are hex digits.
pub open spec fn all_hex(d: Seq<u8>) -> bool {
    forall|i: int| 0 <= i < d.len() ==> (#[trigger] hex_digit(d[i])) is Some
}

/// The value of a string of hex digits.
pub open spec fn hex_value(d: Seq<u8>) -> nat
    decreases d.len(),
{
    if d.len() == 0 {
        0
    } else {
        hex_value(d.drop_last()) * 16 + match hex_digit(d.last()) {
            Some(v) => v,
            None => 0,
        }
    }
}

/// A byte written in hex: an optional '+', then one or more hex digits
/// whose value fits in a byte.
pub open spec fn hex_byte(f: Seq<u8>) -> Option<u8> {
    let digits = if f.len() > 0 && f[0] == 0x2B { f.drop_first() } else { f };
    if digits.len() > 0 && all_hex(digits) && hex_value(digits) <= 255 {
        Some(hex_value(digits) as u8)
    } else {
        None
    }
}

/// The address that `s` spells as six ':'-separated hex bytes, if it does.
pub open spec fn spec_parse_mac(s: Seq<u8>) -> Option<Seq<u8>> {
    let f = colon_fields(s);
    if f.len() == 6 && forall|i: int| 0 <= i < 6 ==> (#[trigger] hex_byte(f[i])) is Some {
        Some(Seq::new(6, |i: int| hex_byte(f[i])->Some_0))
    } else {
        None
    }
}

/// Parses one hex byte field.
fn parse_hex_byte(f: &Vec<u8>) -> (r: Option<u8>)
    ensures
        r == hex_byte(f@),
{
    let start: usize = if f.len() > 0 && f[0] == 0x2B { 1 } else { 0 };
    let ghost digits = if f@.len() > 0 && f@[0] == 0x2B { f@.drop_first() } else { f@ };
    assert(digits =~= f@.subrange(start as int, f@.len() as int));
    if start == f.len() {
        return None;
    }
    let mut acc: u32 = 0;
    let mut i: usize = start;
    while i < f.len()
        invariant
            start <= i <= f@.len(),
            digits == f@.subrange(start as int, f@.len() as int),
            digits == (if f@.len() > 0 && f@[0] == 0x2B { f@.drop_first() } else { f@ }),
            digits.len() > 0,
            all_hex(f@.subrange(start as int, i as int)),
            acc as nat == (if hex_value(f@.subrange(start as int, i as int)) < 256 {
                hex_value(f@.subrange(start as int, i as int))
            } else {
                256
            }),
        decreases f@.len() - i,
    {
        let b = f[i];
        let d: u32 = if 0x30 <= b && b <= 0x39 {
            (b - 0x30) as u32
        } else if 0x41 <= b && b <= 0x46 {
            (b - 0x41 + 10) as u32
        } else if 0x61 <= b && b <= 0x66 {
            (b - 0x61 + 10) as u32
        } else {
            assert(!all_hex(digits)) by {
                assert(digits[(i - start) as int] == f@[i as int]);
                assert(hex_digit(digits[(i - start) as int]) is None);
            }
            return None;
        };
        let ghost prev = f@.subrange(start as int, i as int);
        let ghost next = f@.subrange(start as int, i + 1);
        assert(next.drop_last() =~= prev);
        assert(next.last() == b);
        let wide: u32 = acc * 16 + d;
        acc = if wide < 256 { wide } else { 256 };
        i = i + 1;
        assert forall|j: int| 0 <= j < next.len() implies (#[trigger] hex_digit(next[j])) is Some by {
            if j < prev.len() {
                assert(next[j] == prev[j]);
            }
        }
    }
    assert(f@.subrange(start as int, f@.len() as int) == digits);
    if acc > 255 {
        return None;
    }
    Some(acc as u8)
}

/// Parses a MAC address written as six hex bytes separated by ':'
/// ("00:11:22:33:44:55"); `None` for anything else.
pub fn parse_mac_address(mac: &str) -> (r: Option<[u8; 6]>)
    ensures
        match spec_parse_mac(mac.spec_bytes()) {
            Some(m) => r matches Some(a) && a@ == m,
            None => r is None,
        },
{
    let bytes = mac.as_bytes();
    let mut done: Vec<Vec<u8>> = Vec::new();
    let mut cur: Vec<u8> = Vec::new();
    let mut i: usize = 0;
    while i < bytes.len()
        invariant
            0 <= i <= bytes@.len(),
            bytes@ == mac.spec_bytes(),
            done@.len() + 1 == colon_fields(bytes@.subrange(0, i as int)).len(),
            forall|k: int|
                0 <= k < done@.len() ==> #[trigger] done@[k]@ == colon_fields(
                    bytes@.subrange(0, i as int),
                )[k],
            cur@ == colon_fields(bytes@.subrange(0, i as int)).last(),
        decreases bytes@.len() - i,
    {
        let ghost prefix = bytes@.subrange(0, i as int);
        let ghost next = bytes@.subrange(0, i + 1);
        assert(next.drop_last() =~= prefix);
        proof {
            lemma_colon_fields_nonempty(prefix);
        }
        if bytes[i] == 0x3A {
            let finished = cur;
            done.push(finished);
            cur = Vec::new();
        } else {
            cur.push(bytes[i]);
        }
        i = i + 1;
        assert(cur@ =~= colon_fields(bytes@.subrange(0, i as int)).last());
    }
    assert(bytes@.subrange(0, bytes@.len() as int) =~= bytes@);
    if done.len() != 5 {
        return None;
    }
    let mut out = [0u8; 6];
    let mut k: usize = 0;
    while k < 6
        invariant
            0 <= k <= 6,
            done@.len() == 5,
            colon_fields(mac.spec_bytes()).len() == 6,
            forall|j: int| 0 <= j < 5 ==> #[trigger] done@[j]@ == colon_fields(mac.spec_bytes())[j],
            cur@ == colon_fields(mac.spec_bytes())[5],
            forall|j: int|
                0 <= j < k ==> (#[trigger] hex_byte(colon_fields(mac.spec_bytes())[j])) == Some(
                    out@[j],
                ),
        decreases 6 - k,
    {
        let field: &Vec<u8> = if k < 5 { &done[k] } else { &cur };
        match parse_hex_byte(field) {
            Some(v) => {
                out[k] = v;
            },
            None => {
                assert(hex_byte(colon_fields(mac.spec_bytes())[k as int]) is None);
                return None;
            },
        }
        k = k + 1;
    }
    assert(out@ =~= spec_parse_mac(mac.spec_bytes())->Some_0);
    Some(out)
}

/// The upper-case hex digit of a value below 16.
pub open spec fn hex_char(v: int) -> char {
    if v < 10 {
        ((v + 0x30) as u8) as char
    } else {
        ((v - 10 + 0x41) as u8) as char
    }
}

/// A byte as two upper-case hex digits.
pub open spec fn hex_pair(b: u8) -> Seq<char> {
    seq![hex_char(b as int / 16), hex_char(b as int % 16)]
}

/// Six bytes as "XX:XX:XX:XX:XX:XX", upper case.
pub open spec fn spec_format_mac(m: Seq<u8>) -> Seq<char> {
    hex_pair(m[0]) + seq![':'] + hex_pair(m[1]) + seq![':'] + hex_pair(m[2]) + seq![':'] + hex_pair(
        m[3],
    ) + seq![':'] + hex_pair(m[4]) + seq![':'] + hex_pair(m[5])
}

/// One upper-case hex digit as text.
fn hex_digit_text(v: u8) -> (r: &'static str)
    requires
        v < 16,
    ensures
        r@ == seq![hex_char(v as int)],
{
    let r = match v {
        0 => "0",
        1 => "1",
        2 => "2",
        3 => "3",
        4 => "4",
        5 => "5",
        6 => "6",
        7 => "7",
        8 => "8",
        9 => "9",
        10 => "A",
        11 => "B",
        12 => "C",
        13 => "D",
        14 => "E",
        _ => "F",
    };
    proof {
        reveal_strlit("0");
        reveal_strlit("1");
        reveal_strlit("2");
        reveal_strlit("3");
        reveal_strlit("4");
        reveal_strlit("5");
        reveal_strlit("6");
        reveal_strlit("7");
        reveal_strlit("8");
        reveal_strlit("9");
        reveal_strlit("A");
        reveal_strlit("B");
        reveal_strlit("C");
        reveal_strlit("D");
        reveal_strlit("E");
        reveal_strlit("F");
    }
    assert(r@ =~= seq![hex_char(v as int)]);
    r
}

/// Formats six bytes as an upper-case, ':'-separated MAC address.
pub fn format_mac_address(mac: &[u8; 6]) -> (r: String)
    ensures
        r@ == spec_format_mac(mac@),
{
    let mut s = String::new();
    let mut i: usize = 0;
    while i < 6
        invariant
            0 <= i <= 6,
            i == 0 ==> s@ == Seq::<char>::empty(),
            i > 0 ==> s@ == spec_format_prefix(mac@, i as int),
        decreases 6 - i,
    {
        if i > 0 {
            proof {
                reveal_strlit(":");
            }
            s.append(":");
        }
        let b = mac[i];
        s.append(hex_digit_text(b / 16));
        s.append(hex_digit_text(b % 16));
        i = i + 1;
        assert(s@ =~= spec_format_prefix(mac@, i as int));
    }
    proof {
        reveal_with_fuel(spec_format_prefix, 7);
    }
    assert(spec_format_prefix(mac@, 6) =~= spec_format_mac(mac@));
    s
}

/// The first `n` bytes of an address, formatted and separated by ':'.
pub open spec fn spec_format_prefix(m: Seq<u8>, n: int) -> Seq<char>
    decreases n,
{
    if n <= 1 {
        hex_pair(m[0])
    } else {
        spec_format_prefix(m, n - 1) + seq![':'] + hex_pair(m[n - 1])
    }
}


impl NetworkConfig {
    /// Sets or clears the enabled flag, keeping the other flags.
    pub fn set_enabled(&mut self, enabled: bool)
        ensures
            final(self).flags == (if enabled { old(self).flags | NET_ENABLED } else { old(self).flags
                & !NET_ENABLED }),
            final(self).interface == old(self).interface,
            final(self).mac_address == old(self).mac_address,
            final(self).reserved == old(self).reserved,
    {
        if enabled {
            self.flags = self.flags | NET_ENABLED;
        } else {
            self.flags = self.flags & !NET_ENABLED;
        }
    }

    /// Names the host interface to bridge, truncated to 31 bytes and
    /// NUL-terminated.
    pub fn set_interface(&mut self, name: &str)
        ensures
            final(self).interface@ == terminated_write(name.spec_bytes(), old(self).interface@, 32),
            final(self).flags == old(self).flags,
            final(self).mac_address == old(self).mac_address,
            final(self).reserved == old(self).reserved,
    {
        write_terminated(&mut self.interface, name.as_bytes());
    }

    /// Sets the MAC address from its text: six hex bytes, or empty for one
    /// the driver generates (all zero). Any other text is refused and
    /// changes nothing.
    pub fn set_mac(&mut self, mac: &str) -> (r: bool)
        ensures
            r == (spec_parse_mac(mac.spec_bytes()) is Some || mac@.len() == 0),
            spec_parse_mac(mac.spec_bytes()) matches Some(m) ==> final(self).mac_address@ == m,
            spec_parse_mac(mac.spec_bytes()) is None && mac@.len() == 0 ==> final(self).mac_address@ == seq![0u8, 0u8, 0u8, 0u8, 0u8, 0u8],
            !r ==> final(self).mac_address == old(self).mac_address,
            final(self).flags == old(self).flags,
            final(self).interface == old(self).interface,
            final(self).reserved == old(self).reserved,
    {
        match parse_mac_address(mac) {
            Some(bytes) => {
                self.mac_address = bytes;
                true
            },
            None => {
                if mac.unicode_len() == 0 {
                    self.mac_address = [0u8; 6];
                    assert(self.mac_address@ =~= seq![0u8, 0u8, 0u8, 0u8, 0u8, 0u8]);
                    true
                } else {
                    false
                }
            },
        }
    }
}


/// `p` is a prefix of `s`.
pub open spec fn has_prefix(s: Seq<u8>, p: Seq<u8>) -> bool {
    p.len() <= s.len() && s.subrange(0, p.len() as int) == p
}

/// Whether `s` starts with `p`.
fn starts_with(s: &[u8], p: &[u8]) -> (r: bool)
    ensures
        r == has_prefix(s@, p@),
{
    if p.len() > s.len() {
        return false;
    }
    let mut i: usize = 0;
    while i < p.len()
        invariant
            p@.len() <= s@.len(),
            0 <= i <= p@.len(),
            forall|j: int| 0 <= j < i ==> s@[j] == p@[j],
        decreases p@.len() - i,
    {
        if s[i] != p[i] {
            assert(s@.subrange(0, p@.len() as int)[i as int] != p@[i as int]);
            return false;
        }
        i = i + 1;
    }
    assert(s@.subrange(0, p@.len() as int) =~= p@);
    true
}

/// Kind of a host network interface, from its name, whether it is
/// wireless, and its ARPHRD device type when known (1 Ethernet, 772
/// loopback).
pub open spec fn spec_interface_type(name: Seq<u8>, wireless: bool, device_type: Option<u32>) -> Seq<char> {
    if wireless {
        "Wireless"@
    } else if device_type == Some(1u32) {
        if has_prefix(name, seq![0x62u8, 0x72u8]) || has_prefix(name, seq![0x76u8, 0x69u8, 0x72u8, 0x62u8, 0x72u8]) {
            "Bridge"@
        } else if has_prefix(name, seq![0x76u8, 0x65u8, 0x74u8, 0x68u8]) || has_prefix(name, seq![0x64u8, 0x6Fu8, 0x63u8, 0x6Bu8, 0x65u8, 0x72u8]) {
            "Virtual"@
        } else if has_prefix(name, seq![0x74u8, 0x61u8, 0x70u8]) || has_prefix(name, seq![0x74u8, 0x75u8, 0x6Eu8]) {
            "TAP/TUN"@
        } else {
            "Ethernet"@
        }
    } else if device_type == Some(772u32) {
        "Loopback"@
    } else if has_prefix(name, seq![0x65u8, 0x6Eu8]) || has_prefix(name, seq![0x65u8, 0x74u8, 0x68u8]) {
        "Ethernet"@
    } else if has_prefix(name, seq![0x77u8, 0x6Cu8]) || has_prefix(name, seq![0x77u8, 0x6Cu8, 0x61u8, 0x6Eu8]) {
        "Wireless"@
    } else if has_prefix(name, seq![0x62u8, 0x72u8]) {
        "Bridge"@
    } else if has_prefix(name, seq![0x64u8, 0x6Fu8, 0x63u8, 0x6Bu8, 0x65u8, 0x72u8]) || has_prefix(name, seq![0x76u8, 0x65u8, 0x74u8, 0x68u8]) {
        "Virtual"@
    } else {
        "Unknown"@
    }
}

/// Names the kind of a host network interface.
pub fn interface_type(name: &str, wireless: bool, device_type: Option<u32>) -> (r: &'static str)
    ensures
        r@ == spec_interface_type(name.spec_bytes(), wireless, device_type),
{
    let n = name.as_bytes();
    let br: [u8; 2] = [0x62, 0x72];
    let virbr: [u8; 5] = [0x76, 0x69, 0x72, 0x62, 0x72];
    let veth: [u8; 4] = [0x76, 0x65, 0x74, 0x68];
    let docker: [u8; 6] = [0x64, 0x6F, 0x63, 0x6B, 0x65, 0x72];
    let tap: [u8; 3] = [0x74, 0x61, 0x70];
    let tun: [u8; 3] = [0x74, 0x75, 0x6E];
    let en: [u8; 2] = [0x65, 0x6E];
    let eth: [u8; 3] = [0x65, 0x74, 0x68];
    let wl: [u8; 2] = [0x77, 0x6C];
    let wlan: [u8; 4] = [0x77, 0x6C, 0x61, 0x6E];
    assert(br@ =~= seq![0x62u8, 0x72u8]);
    assert(virbr@ =~= seq![0x76u8, 0x69u8, 0x72u8, 0x62u8, 0x72u8]);
    assert(veth@ =~= seq![0x76u8, 0x65u8, 0x74u8, 0x68u8]);
    assert(docker@ =~= seq![0x64u8, 0x6Fu8, 0x63u8, 0x6Bu8, 0x65u8, 0x72u8]);
    assert(tap@ =~= seq![0x74u8, 0x61u8, 0x70u8]);
    assert(tun@ =~= seq![0x74u8, 0x75u8, 0x6Eu8]);
    assert(en@ =~= seq![0x65u8, 0x6Eu8]);
    assert(eth@ =~= seq![0x65u8, 0x74u8, 0x68u8]);
    assert(wl@ =~= seq![0x77u8, 0x6Cu8]);
    assert(wlan@ =~= seq![0x77u8, 0x6Cu8, 0x61u8, 0x6Eu8]);
    if wireless {
        return "Wireless";
    }
    match device_type {
        Some(1) => {
            if starts_with(n, br.as_slice()) || starts_with(n, virbr.as_slice()) {
                return "Bridge";
            }
            if starts_with(n, veth.as_slice()) || starts_with(n, docker.as_slice()) {
                return "Virtual";
            }
            if starts_with(n, tap.as_slice()) || starts_with(n, tun.as_slice()) {
                return "TAP/TUN";
            }
            return "Ethernet";
        },
        Some(772) => {
            return "Loopback";
        },
        _ => {},
    }
    if starts_with(n, en.as_slice()) || starts_with(n, eth.as_slice()) {
        "Ethernet"
    } else if starts_with(n, wl.as_slice()) || starts_with(n, wlan.as_slice()) {
        "Wireless"
    } else if starts_with(n, br.as_slice()) {
        "Bridge"
    } else if starts_with(n, docker.as_slice()) || starts_with(n, veth.as_slice()) {
        "Virtual"
    } else {
        "Unknown"
    }
}

} // verus!
