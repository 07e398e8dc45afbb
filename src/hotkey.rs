use vstd::prelude::*;
use crate::flags::{
    MASK_ALTERNATE, MASK_COMMAND, MASK_CONTROL, MASK_SHIFT, SIGNIFICANT_MODIFIERS,
};
use crate::keycode::{get_keycode, keycode_of, lemma_key_names_shape};

verus! {

/// A key combination: the exact set of significant modifiers and one key.
#[derive(Debug, Clone, Copy, PartialEq, Eq, Structural)]
pub struct HotKey {
    pub flags: u64,
    pub keycode: u16,
}

/// The older name of a hotkey.
pub type Shortcut = HotKey;

/// Why a hotkey notation was refused.
#[derive(Debug, Clone, Copy, PartialEq, Eq, Structural)]
pub enum ParseError {
    /// The notation is empty or ends after its modifier prefixes.
    MissingKeyName,
    /// The text after the modifier prefixes is no known key name.
    UnknownKey,
}

/// The modifier letters of the notation: `C` control, `S` shift, `M` command, `A` alt.
pub open spec fn is_modifier_char(c: char) -> bool {
    c == 'C' || c == 'S' || c == 'M' || c == 'A'
}

/// The modifier bit that a modifier letter stands for.
pub open spec fn modifier_bit(c: char) -> u64 {
    if c == 'C' {
        MASK_CONTROL
    } else if c == 'S' {
        MASK_SHIFT
    } else if c == 'M' {
        MASK_COMMAND
    } else if c == 'A' {
        MASK_ALTERNATE
    } else {
        0
    }
}

/// `s` begins with a two-character modifier prefix such as `C-`.
pub open spec fn starts_with_modifier(s: Seq<char>) -> bool {
    s.len() >= 2 && is_modifier_char(s[0]) && s[1] == '-'
}

/// The length of the run of modifier prefixes at the start of `s`.
pub open spec fn modifier_prefix_len(s: Seq<char>) -> nat
    decreases s.len(),
{
    if starts_with_modifier(s) {
        2 + modifier_prefix_len(s.subrange(2, s.len() as int))
    } else {
        0
    }
}

/// The union of the bits of the modifier prefixes at the start of `s`.
pub open spec fn modifier_prefix_mask(s: Seq<char>) -> u64
    decreases s.len(),
{
    if starts_with_modifier(s) {
        modifier_bit(s[0]) | modifier_prefix_mask(s.subrange(2, s.len() as int))
    } else {
        0
    }
}

/// What a notation denotes: its modifier prefixes, then a key name.
pub open spec fn parse_spec(s: Seq<char>) -> Result<HotKey, ParseError> {
    let p = modifier_prefix_len(s);
    if p >= s.len() {
        Err(ParseError::MissingKeyName)
    } else {
        match keycode_of(s.subrange(p as int, s.len() as int)) {
            Some(k) => Ok(HotKey { flags: modifier_prefix_mask(s), keycode: k }),
            None => Err(ParseError::UnknownKey),
        }
    }
}

/// A live event matches a hotkey when its significant modifiers are exactly the hotkey's
/// and its key code is the hotkey's.
pub open spec fn matches_spec(h: HotKey, flags: u64, code: u16) -> bool {
    (flags & SIGNIFICANT_MODIFIERS) == h.flags && code == h.keycode
}

fn modifier_bit_of(c: char) -> (r: Option<u64>)
    ensures
        r == (if is_modifier_char(c) { Some(modifier_bit(c)) } else { None::<u64> }),
{
    if c == 'C' {
        Some(MASK_CONTROL)
    } else if c == 'S' {
        Some(MASK_SHIFT)
    } else if c == 'M' {
        Some(MASK_COMMAND)
    } else if c == 'A' {
        Some(MASK_ALTERNATE)
    } else {
        None
    }
}

impl HotKey {
    /// Parses a notation such as `C-M-t`: zero or more modifier prefixes, then a key name.
    pub fn from_str(s: &str) -> (r: Result<HotKey, ParseError>)
        ensures
            r == parse_spec(s@),
    {
        let n = s.unicode_len();
        let mut start: usize = 0;
        let mut flags: u64 = 0;
        proof {
            assert(s@.subrange(0, n as int) =~= s@);
            let m = modifier_prefix_mask(s@);
            assert(0u64 | m == m) by (bit_vector);
        }
        while n - start >= 2
            invariant
                n == s@.len(),
                start <= n,
                modifier_prefix_len(s@) == start + modifier_prefix_len(s@.subrange(start as int, n as int)),
                modifier_prefix_mask(s@) == flags | modifier_prefix_mask(s@.subrange(start as int, n as int)),
            ensures
                start <= n,
                modifier_prefix_len(s@) == start + modifier_prefix_len(s@.subrange(start as int, n as int)),
                modifier_prefix_mask(s@) == flags | modifier_prefix_mask(s@.subrange(start as int, n as int)),
                !starts_with_modifier(s@.subrange(start as int, n as int)),
            decreases n - start,
        {
            let ghost rest = s@.subrange(start as int, n as int);
            let c = s.get_char(start);
            let d = s.get_char(start + 1);
            assert(rest[0] == c && rest[1] == d);
            if d != '-' {
                break;
            }
            match modifier_bit_of(c) {
                Some(bit) => {
                    let ghost tail = s@.subrange(start + 2, n as int);
                    proof {
                        assert(rest.subrange(2, rest.len() as int) =~= tail);
                        let m = modifier_prefix_mask(tail);
                        assert((flags | bit) | m == flags | (bit | m)) by (bit_vector);
                    }
                    flags = flags | bit;
                    start = start + 2;
                },
                None => {
                    break;
                },
            }
        }
        proof {
            assert(flags | 0u64 == flags) by (bit_vector);
        }
        if start >= n {
            Err(ParseError::MissingKeyName)
        } else {
            let keyname = s.substring_char(start, n);
            match get_keycode(keyname) {
                Some(keycode) => Ok(HotKey { flags, keycode }),
                None => Err(ParseError::UnknownKey),
            }
        }
    }

    /// Whether a live event with these modifier flags and key code triggers this hotkey.
    pub fn matches(&self, flags: u64, code: u16) -> (r: bool)
        ensures
            r == matches_spec(*self, flags, code),
    {
        (flags & SIGNIFICANT_MODIFIERS) == self.flags && code == self.keycode
    }

    /// Like `matches`, with the set of modifier bits that count given by the caller.
    pub fn matches_with_mask(&self, significant: u64, flags: u64, code: u16) -> (r: bool)
        ensures
            r == ((flags & significant) == self.flags && code == self.keycode),
    {
        (flags & significant) == self.flags && code == self.keycode
    }
}

impl Default for HotKey {
    /// Control-T.
    fn default() -> (r: HotKey)
        ensures
            r == (HotKey { flags: MASK_CONTROL, keycode: 17 }),
    {
        HotKey { flags: MASK_CONTROL, keycode: 17 }
    }
}

/// Parses a hotkey notation; see `HotKey::from_str`.
pub fn parse_hotkey(s: &str) -> (r: Result<HotKey, ParseError>)
    ensures
        r == parse_spec(s@),
{
    HotKey::from_str(s)
}

/// Parses a shortcut notation; see `HotKey::from_str`.
pub fn parse_shortcut(s: &str) -> (r: Result<Shortcut, ParseError>)
    ensures
        r == parse_spec(s@),
{
    HotKey::from_str(s)
}

/// Whether the live flags and key code trigger `shortcut`; see `HotKey::matches`.
pub fn matches_hotkey_string(flags: u64, code: u16, shortcut: &Shortcut) -> (r: bool)
    ensures
        r == matches_spec(*shortcut, flags, code),
{
    shortcut.matches(flags, code)
}

/// The notation that writes each modifier letter of `mods` as a prefix, in order, then `key`.
pub open spec fn notation(mods: Seq<char>, key: Seq<char>) -> Seq<char>
    decreases mods.len(),
{
    if mods.len() == 0 {
        key
    } else {
        seq![mods[0], '-'] + notation(mods.subrange(1, mods.len() as int), key)
    }
}

/// The union of the bits of the modifier letters `mods`.
pub open spec fn modifiers_mask(mods: Seq<char>) -> u64
    decreases mods.len(),
{
    if mods.len() == 0 {
        0
    } else {
        modifier_bit(mods[0]) | modifiers_mask(mods.subrange(1, mods.len() as int))
    }
}

proof fn lemma_notation_prefix(mods: Seq<char>, key: Seq<char>)
    requires
        forall|i: int| 0 <= i < mods.len() ==> is_modifier_char(#[trigger] mods[i]),
        keycode_of(key) is Some,
    ensures
        notation(mods, key).len() == 2 * mods.len() + key.len(),
        modifier_prefix_len(notation(mods, key)) == 2 * mods.len(),
        modifier_prefix_mask(notation(mods, key)) == modifiers_mask(mods),
        notation(mods, key).subrange(2 * mods.len() as int, notation(mods, key).len() as int) == key,
    decreases mods.len(),
{
    lemma_key_names_shape(key);
    let s = notation(mods, key);
    if mods.len() == 0 {
        assert(!starts_with_modifier(key));
        assert(key.subrange(0, key.len() as int) =~= key);
    } else {
        let tail = mods.subrange(1, mods.len() as int);
        assert forall|i: int| 0 <= i < tail.len() implies is_modifier_char(#[trigger] tail[i]) by {
            assert(tail[i] == mods[i + 1]);
        }
        lemma_notation_prefix(tail, key);
        let r = notation(tail, key);
        assert(s == seq![mods[0], '-'] + r);
        assert(starts_with_modifier(s));
        assert(s.subrange(2, s.len() as int) =~= r);
        assert(s.subrange(2 * mods.len() as int, s.len() as int) =~= r.subrange(
            2 * tail.len() as int,
            r.len() as int,
        ));
    }
}

/// Parsing a notation made of modifier prefixes for distinct modifier letters, in any order,
/// followed by a key name of the table, gives the union of those modifiers' bits and the
/// key's code.
pub proof fn lemma_parse_notation(mods: Seq<char>, key: Seq<char>)
    requires
        mods.len() <= 4,
        mods.no_duplicates(),
        forall|i: int| 0 <= i < mods.len() ==> is_modifier_char(#[trigger] mods[i]),
        keycode_of(key) is Some,
    ensures
        parse_spec(notation(mods, key)) == Ok::<HotKey, ParseError>(
            HotKey { flags: modifiers_mask(mods), keycode: keycode_of(key).unwrap() },
        ),
{
    lemma_notation_prefix(mods, key);
    lemma_key_names_shape(key);
}

} // verus!
