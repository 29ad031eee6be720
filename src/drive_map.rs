//! Guest drive letters for host directory mappings.
use vstd::prelude::*;
use vstd::string::{StrSliceExecFns, StringExecFns};
use crate::client::drive_mapping_request;
use crate::ioctl::{DriveMapping as DriveMappingRequest, DRIVE_READONLY};

verus! {

/// What `str::trim` leaves of a text.
pub uninterp spec fn trim_of(s: Seq<char>) -> Seq<char>;

/// What `str::to_uppercase` makes of a text.
pub uninterp spec fn upper_of(s: Seq<char>) -> Seq<char>;

/// Relies on `str::trim`: the text without leading and trailing Unicode
/// white space, a function of the text alone; nothing is left of an empty
/// text.
#[verifier::external_body]
fn trim_text<'a>(s: &'a str) -> (r: &'a str)
    ensures
        r@ == trim_of(s@),
        s@.len() == 0 ==> r@.len() == 0,
{
    s.trim()
}

/// Relies on `str::to_uppercase`: the Unicode upper-case mapping of the
/// text, a function of the text alone; an empty text stays empty.
#[verifier::external_body]
fn uppercase_text(s: &str) -> (r: String)
    ensures
        r@ == upper_of(s@),
        s@.len() == 0 ==> r@.len() == 0,
{
    s.to_uppercase()
}

/// The drive letter at the start of an upper-cased text: its first
/// character, when that is one of E through Z (A and B are floppies, C and
/// D hard disks).
pub open spec fn spec_drive_letter(upper: Seq<char>) -> Option<char> {
    if upper.len() > 0 && 'E' <= upper[0] <= 'Z' {
        Some(upper[0])
    } else {
        None
    }
}

/// The mappable drive letter that an upper-cased, trimmed text starts with.
pub fn drive_letter_of(upper: &str) -> (r: Option<char>)
    ensures
        r == spec_drive_letter(upper@),
{
    if upper.unicode_len() == 0 {
        return None;
    }
    let c = upper.get_char(0);
    if 'E' <= c && c <= 'Z' {
        Some(c)
    } else {
        None
    }
}

/// Parses a drive letter as a user writes it ("F:", "F", " f: "): the first
/// character after trimming and upper-casing, when it is E through Z.
pub fn parse_drive_letter(s: &str) -> (r: Option<char>)
    ensures
        r == spec_drive_letter(upper_of(trim_of(s@))),
        s@.len() == 0 ==> r is None,
{
    let trimmed = trim_text(s);
    let upper = uppercase_text(trimmed);
    drive_letter_of(upper.as_str())
}

/// Whether a text names a mappable drive letter.
pub fn is_valid_drive_letter(s: &str) -> (r: bool)
    ensures
        r == spec_drive_letter(upper_of(trim_of(s@))) is Some,
{
    parse_drive_letter(s).is_some()
}


/// Number of mappable letters, E through Z.
pub const MAPPABLE_LETTERS: usize = 22;

/// The slot of a mappable letter.
pub open spec fn slot_of(letter: char) -> int {
    letter as int - 'E' as int
}

/// The letter of a slot.
pub open spec fn letter_of(slot: int) -> char {
    (slot + 'E' as int) as char
}

/// A host path with a leading '~' replaced by the home directory, when one
/// is known.
pub open spec fn expanded_path(path: Seq<char>, home: Option<Seq<char>>) -> Seq<char> {
    if path.len() > 0 && path[0] == '~' && home is Some {
        home->Some_0 + path.drop_first()
    } else {
        path
    }
}

/// Replaces a leading '~' of `path` by `home`.
pub fn expand_home(path: &str, home: Option<&str>) -> (r: String)
    ensures
        r@ == expanded_path(path@, match home {
            Some(h) => Some(h@),
            None => None,
        }),
{
    let n = path.unicode_len();
    match home {
        Some(h) => {
            if n > 0 && path.get_char(0) == '~' {
                let rest = path.substring_char(1, n);
                let r = String::from_str(h).concat(rest);
                assert(rest@ =~= path@.drop_first());
                return r;
            }
        },
        None => {},
    }
    path.to_owned()
}

/// One mapping of the table.
#[derive(Debug, Clone)]
pub struct DriveMapEntry {
    pub letter: char,
    pub host_path: String,
    pub readonly: bool,
    pub enabled: bool,
}

/// The mappings of the guest drive letters E through Z, at most one each.
pub struct DriveMappings {
    slots: Vec<Option<DriveMapEntry>>,
}

/// What a table holds for one letter: its path, read-only flag and enabled
/// flag.
pub type EntryView = (Seq<char>, bool, bool);

impl DriveMappings {
    /// Every slot holds the entry of its own letter.
    pub closed spec fn wf(&self) -> bool {
        &&& self.slots@.len() == MAPPABLE_LETTERS
        &&& forall|i: int|
            0 <= i < MAPPABLE_LETTERS ==> (#[trigger] self.slots@[i] matches Some(e) ==> e.letter
                == letter_of(i))
    }

    /// The mapping of each letter, E first.
    pub closed spec fn view(&self) -> Seq<Option<EntryView>> {
        Seq::new(
            MAPPABLE_LETTERS as nat,
            |i: int|
                match self.slots@[i] {
                    Some(e) => Some((e.host_path@, e.readonly, e.enabled)),
                    None => None,
                },
        )
    }

    /// No mappings.
    pub fn new() -> (r: Self)
        ensures
            r.wf(),
            r.view().len() == MAPPABLE_LETTERS,
            forall|i: int| 0 <= i < MAPPABLE_LETTERS ==> r.view()[i] is None,
    {
        let mut slots: Vec<Option<DriveMapEntry>> = Vec::new();
        let mut i: usize = 0;
        while i < MAPPABLE_LETTERS
            invariant
                0 <= i <= MAPPABLE_LETTERS,
                slots@.len() == i,
                forall|j: int| 0 <= j < i ==> slots@[j] is None,
            decreases MAPPABLE_LETTERS - i,
        {
            slots.push(None);
            i = i + 1;
        }
        DriveMappings { slots }
    }

    /// Maps `letter` to `host_path`, enabled, replacing an older mapping of
    /// it; false, changing nothing, for a letter outside E through Z.
    pub fn insert(&mut self, letter: char, host_path: String, readonly: bool) -> (r: bool)
        requires
            old(self).wf(),
        ensures
            final(self).wf(),
            r == is_mappable(letter),
            r ==> final(self).view() == old(self).view().update(
                slot_of(letter),
                Some((host_path@, readonly, true)),
            ),
            !r ==> final(self).view() == old(self).view(),
    {
        if letter < 'E' || letter > 'Z' {
            return false;
        }
        let slot: usize = (letter as u32 - 'E' as u32) as usize;
        let ghost path = host_path@;
        self.slots.set(slot, Some(DriveMapEntry { letter, host_path, readonly, enabled: true }));
        assert(self.view() =~= old(self).view().update(slot_of(letter), Some((path, readonly, true))));
        true
    }

    /// Adds a mapping as a user enters it: the letter as text ("F:", "f"),
    /// the host path with a leading '~' standing for `home`.
    pub fn add_mapping(&mut self, drive_letter: &str, host_path: &str, readonly: bool, home: Option<&str>) -> (r: bool)
        requires
            old(self).wf(),
        ensures
            final(self).wf(),
            r == spec_drive_letter(upper_of(trim_of(drive_letter@))) is Some,
            r ==> ({
                let letter = spec_drive_letter(upper_of(trim_of(drive_letter@)))->Some_0;
                final(self).view() == old(self).view().update(
                    slot_of(letter),
                    Some((
                        expanded_path(host_path@, match home {
                            Some(h) => Some(h@),
                            None => None,
                        }),
                        readonly,
                        true,
                    )),
                )
            }),
            !r ==> final(self).view() == old(self).view(),
    {
        match parse_drive_letter(drive_letter) {
            Some(letter) => {
                let path = expand_home(host_path, home);
                self.insert(letter, path, readonly)
            },
            None => false,
        }
    }

    /// Removes the mapping of a letter given as text; true when there was one.
    pub fn remove_mapping(&mut self, drive_letter: &str) -> (r: bool)
        requires
            old(self).wf(),
        ensures
            final(self).wf(),
            r == (spec_drive_letter(upper_of(trim_of(drive_letter@))) matches Some(l)
                && old(self).view()[slot_of(l)] is Some),
            r ==> final(self).view() == old(self).view().update(
                slot_of(spec_drive_letter(upper_of(trim_of(drive_letter@)))->Some_0),
                None,
            ),
            !r ==> final(self).view() == old(self).view(),
    {
        match parse_drive_letter(drive_letter) {
            Some(letter) => {
                let slot: usize = (letter as u32 - 'E' as u32) as usize;
                if self.slots[slot].is_none() {
                    return false;
                }
                self.slots.set(slot, None);
                assert(self.view() =~= old(self).view().update(slot_of(letter), None));
                true
            },
            None => false,
        }
    }

    /// Number of mapped letters.
    pub fn count(&self) -> (r: usize)
        requires
            self.wf(),
        ensures
            r == mapped_count(self.view(), MAPPABLE_LETTERS as int),
    {
        let mut n: usize = 0;
        let mut i: usize = 0;
        while i < MAPPABLE_LETTERS
            invariant
                self.wf(),
                0 <= i <= MAPPABLE_LETTERS,
                n == mapped_count(self.view(), i as int),
                n <= i,
            decreases MAPPABLE_LETTERS - i,
        {
            if self.slots[i].is_some() {
                n = n + 1;
            }
            i = i + 1;
        }
        n
    }

    /// The unmapped letters, in order.
    pub fn available_letters(&self) -> (r: Vec<char>)
        requires
            self.wf(),
        ensures
            r@ == free_letters(self.view(), MAPPABLE_LETTERS as int),
    {
        let mut out: Vec<char> = Vec::new();
        let mut i: usize = 0;
        while i < MAPPABLE_LETTERS
            invariant
                self.wf(),
                0 <= i <= MAPPABLE_LETTERS,
                out@ == free_letters(self.view(), i as int),
            decreases MAPPABLE_LETTERS - i,
        {
            if self.slots[i].is_none() {
                let c = char_of_slot(i);
                out.push(c);
            }
            i = i + 1;
        }
        out
    }

    /// The driver requests that apply every enabled mapping, E first: one
    /// per enabled letter, with that letter and its read-only flag.
    pub fn requests(&self) -> (r: Vec<DriveMappingRequest>)
        requires
            self.wf(),
        ensures
            r@.len() == enabled_slots(self.view(), MAPPABLE_LETTERS as int).len(),
            forall|k: int|
                0 <= k < r@.len() ==> {
                    let slot = #[trigger] enabled_slots(self.view(), MAPPABLE_LETTERS as int)[k];
                    &&& r@[k].letter == letter_of(slot) as u8
                    &&& r@[k].flags == (if self.view()[slot]->Some_0.1 { DRIVE_READONLY } else { 0u8 })
                },
    {
        let mut out: Vec<DriveMappingRequest> = Vec::new();
        let mut i: usize = 0;
        while i < MAPPABLE_LETTERS
            invariant
                self.wf(),
                0 <= i <= MAPPABLE_LETTERS,
                out@.len() == enabled_slots(self.view(), i as int).len(),
                forall|k: int|
                    0 <= k < out@.len() ==> {
                        let slot = #[trigger] enabled_slots(self.view(), i as int)[k];
                        &&& 0 <= slot < i
                        &&& out@[k].letter == letter_of(slot) as u8
                        &&& out@[k].flags == (if self.view()[slot]->Some_0.1 { DRIVE_READONLY } else { 0u8 })
                    },
            decreases MAPPABLE_LETTERS - i,
        {
            let ghost prev = enabled_slots(self.view(), i as int);
            let ghost next = enabled_slots(self.view(), i + 1);
            match &self.slots[i] {
                Some(e) => {
                    if e.enabled {
                        match drive_mapping_request(e.letter, e.host_path.as_str(), e.readonly) {
                            Ok(m) => out.push(m),
                            Err(_) => {},
                        }
                        assert(next == prev.push(i as int));
                        assert forall|k: int| 0 <= k < out@.len() implies {
                            let slot = #[trigger] next[k];
                            &&& 0 <= slot < i + 1
                            &&& out@[k].letter == letter_of(slot) as u8
                            &&& out@[k].flags == (if self.view()[slot]->Some_0.1 { DRIVE_READONLY } else { 0u8 })
                        } by {
                            if k < prev.len() {
                                assert(next[k] == prev[k]);
                            }
                        }
                    }
                },
                None => {},
            }
            i = i + 1;
        }
        out
    }

    /// Removes every mapping.
    pub fn clear(&mut self)
        requires
            old(self).wf(),
        ensures
            final(self).wf(),
            forall|i: int| 0 <= i < MAPPABLE_LETTERS ==> final(self).view()[i] is None,
    {
        *self = DriveMappings::new();
    }
}

/// The letter of a slot below 22.
fn char_of_slot(i: usize) -> (r: char)
    requires
        i < MAPPABLE_LETTERS,
    ensures
        r == letter_of(i as int),
{
    let letters: [char; 22] = [
        'E', 'F', 'G', 'H', 'I', 'J', 'K', 'L', 'M', 'N', 'O', 'P', 'Q', 'R', 'S', 'T', 'U',
        'V', 'W', 'X', 'Y', 'Z',
    ];
    letters[i]
}

/// Letters E through Z.
pub open spec fn is_mappable(letter: char) -> bool {
    'E' <= letter <= 'Z'
}

/// Mapped letters among the first `n` slots.
pub open spec fn mapped_count(v: Seq<Option<EntryView>>, n: int) -> int
    decreases n,
{
    if n <= 0 {
        0
    } else {
        mapped_count(v, n - 1) + if v[n - 1] is Some { 1int } else { 0int }
    }
}

/// Slots of the enabled mappings among the first `n` slots, in order.
pub open spec fn enabled_slots(v: Seq<Option<EntryView>>, n: int) -> Seq<int>
    decreases n,
{
    if n <= 0 {
        Seq::empty()
    } else {
        enabled_slots(v, n - 1) + if v[n - 1] matches Some(e) && e.2 {
            seq![n - 1]
        } else {
            Seq::empty()
        }
    }
}

/// Unmapped letters among the first `n` slots, in order.
pub open spec fn free_letters(v: Seq<Option<EntryView>>, n: int) -> Seq<char>
    decreases n,
{
    if n <= 0 {
        Seq::empty()
    } else {
        free_letters(v, n - 1) + if v[n - 1] is None { seq![letter_of(n - 1)] } else { Seq::empty() }
    }
}


/// `p` occurs in `s` at index `i`.
pub open spec fn matches_at(s: Seq<char>, p: Seq<char>, i: int) -> bool {
    0 <= i && i + p.len() <= s.len() && s.subrange(i, i + p.len()) == p
}

/// The first index from `from` on where `p` occurs in `s`.
pub open spec fn first_match(s: Seq<char>, p: Seq<char>, from: int) -> Option<int>
    decreases s.len() + 1 - from,
{
    if from < 0 || from + p.len() > s.len() {
        None
    } else if matches_at(s, p, from) {
        Some(from)
    } else {
        first_match(s, p, from + 1)
    }
}

/// The index of the first unescaped '"' from `i` on; a '\' escapes the
/// character after it.
pub open spec fn closing_quote(s: Seq<char>, i: int, escaped: bool) -> Option<int>
    decreases s.len() - i,
{
    if i < 0 || i >= s.len() {
        None
    } else if escaped {
        closing_quote(s, i + 1, false)
    } else if s[i] == '\\' {
        closing_quote(s, i + 1, true)
    } else if s[i] == '"' {
        Some(i)
    } else {
        closing_quote(s, i + 1, false)
    }
}

/// The raw text of the string value of `key` in a flat JSON object: the
/// first `"key"`, then the first ':' after it, then the first '"' after
/// that opens the value, which runs to the next unescaped '"' (empty when
/// there is none).
pub open spec fn spec_json_string(s: Seq<char>, key: Seq<char>) -> Option<Seq<char>> {
    let pattern = seq!['"'] + key + seq!['"'];
    match first_match(s, pattern, 0) {
        None => None,
        Some(k) => match first_match(s, seq![':'], k + pattern.len()) {
            None => None,
            Some(c) => match first_match(s, seq!['"'], c + 1) {
                None => None,
                Some(q) => match closing_quote(s, q + 1, false) {
                    Some(e) => Some(s.subrange(q + 1, e)),
                    None => Some(Seq::empty()),
                },
            },
        },
    }
}

/// The characters of a text.
fn chars_of(s: &str) -> (r: Vec<char>)
    ensures
        r@ == s@,
{
    let n = s.unicode_len();
    let mut out: Vec<char> = Vec::new();
    let mut i: usize = 0;
    while i < n
        invariant
            n == s@.len(),
            0 <= i <= n,
            out@ == s@.subrange(0, i as int),
        decreases n - i,
    {
        out.push(s.get_char(i));
        i = i + 1;
        assert(out@ =~= s@.subrange(0, i as int));
    }
    assert(s@.subrange(0, n as int) =~= s@);
    out
}

/// Whether `p` occurs in `s` at `i`.
fn occurs_at(s: &Vec<char>, p: &Vec<char>, i: usize) -> (r: bool)
    ensures
        r == matches_at(s@, p@, i as int),
{
    let len = s.len();
    if p.len() > len || i > len - p.len() {
        return false;
    }
    let mut k: usize = 0;
    while k < p.len()
        invariant
            i + p@.len() <= s@.len(),
            s@.len() <= usize::MAX,
            0 <= k <= p@.len(),
            forall|j: int| 0 <= j < k ==> s@[i + j] == p@[j],
        decreases p@.len() - k,
    {
        if s[i + k] != p[k] {
            assert(s@.subrange(i as int, i + p@.len())[k as int] != p@[k as int]);
            return false;
        }
        k = k + 1;
    }
    assert(s@.subrange(i as int, i + p@.len()) =~= p@);
    true
}

/// The first index from `from` on where `p` occurs in `s`.
fn find_from(s: &Vec<char>, p: &Vec<char>, from: usize) -> (r: Option<usize>)
    ensures
        r is None <==> first_match(s@, p@, from as int) is None,
        r matches Some(k) ==> first_match(s@, p@, from as int) == Some(k as int) && matches_at(
            s@,
            p@,
            k as int,
        ),
{
    let len = s.len();
    if from > len || p.len() > len - from {
        return None;
    }
    if p.len() == 0 {
        assert(s@.subrange(from as int, from as int) =~= p@);
        return Some(from);
    }
    let mut i: usize = from;
    while i <= len && p.len() <= len - i
        invariant
            len == s@.len(),
            p@.len() >= 1,
            from <= i,
            first_match(s@, p@, from as int) == first_match(s@, p@, i as int),
        decreases s@.len() + 1 - i,
    {
        if occurs_at(s, p, i) {
            return Some(i);
        }
        i = i + 1;
    }
    None
}

/// The index of the first unescaped '"' from `start` on.
fn find_closing_quote(s: &Vec<char>, start: usize) -> (r: Option<usize>)
    ensures
        r is None <==> closing_quote(s@, start as int, false) is None,
        r matches Some(k) ==> closing_quote(s@, start as int, false) == Some(k as int) && start
            <= k < s@.len(),
{
    let mut i: usize = start;
    let mut escaped = false;
    while i < s.len()
        invariant
            start <= i,
            closing_quote(s@, start as int, false) == closing_quote(s@, i as int, escaped),
        decreases s@.len() - i,
    {
        let c = s[i];
        if escaped {
            escaped = false;
        } else if c == '\\' {
            escaped = true;
        } else if c == '"' {
            return Some(i);
        }
        i = i + 1;
    }
    None
}

/// Extracts the raw string value of `key` from a flat JSON object, as
/// described by `spec_json_string`.
pub fn extract_json_string(s: &str, key: &str) -> (r: Option<String>)
    ensures
        match spec_json_string(s@, key@) {
            Some(v) => r matches Some(t) && t@ == v,
            None => r is None,
        },
{
    let text = chars_of(s);
    let _text_len = text.len();
    let mut pattern: Vec<char> = Vec::new();
    pattern.push('"');
    let key_chars = chars_of(key);
    let mut i: usize = 0;
    while i < key_chars.len()
        invariant
            0 <= i <= key_chars@.len(),
            pattern@ == seq!['"'] + key_chars@.subrange(0, i as int),
        decreases key_chars@.len() - i,
    {
        pattern.push(key_chars[i]);
        i = i + 1;
        assert(pattern@ =~= seq!['"'] + key_chars@.subrange(0, i as int));
    }
    pattern.push('"');
    assert(key_chars@.subrange(0, key_chars@.len() as int) =~= key_chars@);
    assert(pattern@ =~= seq!['"'] + key@ + seq!['"']);
    let colon: Vec<char> = vec![':'];
    let quote: Vec<char> = vec!['"'];
    assert(colon@ =~= seq![':']);
    assert(quote@ =~= seq!['"']);
    let k = match find_from(&text, &pattern, 0) {
        Some(k) => k,
        None => {
            return None;
        },
    };
    let c = match find_from(&text, &colon, k + pattern.len()) {
        Some(c) => c,
        None => {
            return None;
        },
    };
    let q = match find_from(&text, &quote, c + 1) {
        Some(q) => q,
        None => {
            return None;
        },
    };
    match find_closing_quote(&text, q + 1) {
        Some(e) => Some(s.substring_char(q + 1, e).to_owned()),
        None => Some(String::new()),
    }
}

} // verus!
