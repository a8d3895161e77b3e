//! Mapping of ASCII bytes to USB HID keyboard usage codes.
//!
//! Two fixed 64-entry tables map a usage code (the table index) to the
//! character that key produces, without and with shift held.
use vstd::prelude::*;

verus! {

/// Number of entries in each of the two lookup tables.
pub const TABLE_LEN: u8 = 64;

/// Modifier bit for the left shift key.
pub const LEFT_SHIFT: u8 = 2;

/// The character produced by usage code `i` without shift (0 where none).
pub open spec fn unshifted_ascii(i: u8) -> u8 {
    if 4 <= i <= 29 {
        (97u8 + (i - 4)) as u8  // 'a'
    } else if 30 <= i <= 38 {
        (49u8 + (i - 30)) as u8  // '1'
    } else {
        match i {
            39 => 48u8,  // '0'
            40 => 10u8,  // '\n'
            41 => 27u8,
            42 => 7u8,
            43 => 9u8,  // '\t'
            44 => 32u8,  // ' '
            45 => 45u8,  // '-'
            46 => 61u8,  // '='
            47 => 91u8,  // '['
            48 => 93u8,  // ']'
            49 => 92u8,  // '\\'
            51 => 59u8,  // ';'
            52 => 39u8,  // '\''
            53 => 96u8,  // '`'
            54 => 44u8,  // ','
            55 => 46u8,  // '.'
            56 => 47u8,  // '/'
            _ => 0u8,
        }
    }
}

/// The character produced by usage code `i` with shift held (0 where none).
pub open spec fn shifted_ascii(i: u8) -> u8 {
    if 4 <= i <= 29 {
        (65u8 + (i - 4)) as u8  // 'A'
    } else if 30 <= i <= 44 {
        unshifted_ascii(i)
    } else {
        match i {
            45 => 95u8,  // '_'
            46 => 43u8,  // '+'
            47 => 123u8,  // '{'
            48 => 125u8,  // '}'
            49 => 124u8,  // '|'
            51 => 58u8,  // ':'
            52 => 34u8,  // '"'
            53 => 126u8,  // '~'
            54 => 60u8,  // '<'
            55 => 62u8,  // '>'
            _ => 0u8,
        }
    }
}

/// Entry `i` of the shifted or the unshifted table.
pub open spec fn table_entry(shifted: bool, i: int) -> u8 {
    if !(0 <= i < TABLE_LEN) {
        0
    } else if shifted {
        shifted_ascii(i as u8)
    } else {
        unshifted_ascii(i as u8)
    }
}

/// The first index at or after `i` whose entry is `c`, or `TABLE_LEN` when
/// no such index exists.
pub open spec fn first_index(shifted: bool, c: u8, i: int) -> int
    decreases TABLE_LEN - i,
{
    if i >= TABLE_LEN {
        TABLE_LEN as int
    } else if table_entry(shifted, i) == c {
        i
    } else {
        first_index(shifted, c, i + 1)
    }
}

/// A key press: the modifier mask and the usage code of the key.
#[derive(Clone, Copy, Debug, PartialEq, Eq, Structural)]
pub struct Keycode {
    pub modifiers: u8,
    pub code: u8,
}

/// The key press that types `c`: the first unshifted entry that matches,
/// else the first shifted entry with the shift bit set, else no key.
pub open spec fn keycode_of(c: u8) -> Keycode {
    let u = first_index(false, c, 0);
    let s = first_index(true, c, 0);
    if u < TABLE_LEN {
        Keycode { modifiers: 0, code: u as u8 }
    } else if s < TABLE_LEN {
        Keycode { modifiers: LEFT_SHIFT, code: s as u8 }
    } else {
        Keycode { modifiers: 0, code: 0 }
    }
}

/// Entry `idx` of the table without shift.
fn usb_to_ascii(idx: u8) -> (r: u8)
    requires
        idx < TABLE_LEN,
    ensures
        r == unshifted_ascii(idx),
{
    if 4 <= idx && idx <= 29 {
        97u8 + (idx - 4)  // 'a'
    } else if 30 <= idx && idx <= 38 {
        49u8 + (idx - 30)  // '1'
    } else {
        match idx {
            39 => 48u8,  // '0'
            40 => 10u8,  // '\n'
            41 => 27u8,
            42 => 7u8,
            43 => 9u8,  // '\t'
            44 => 32u8,  // ' '
            45 => 45u8,  // '-'
            46 => 61u8,  // '='
            47 => 91u8,  // '['
            48 => 93u8,  // ']'
            49 => 92u8,  // '\\'
            51 => 59u8,  // ';'
            52 => 39u8,  // '\''
            53 => 96u8,  // '`'
            54 => 44u8,  // ','
            55 => 46u8,  // '.'
            56 => 47u8,  // '/'
            _ => 0u8,
        }
    }
}

/// Entry `idx` of the table with shift held.
fn usb_to_ascii_shifted(idx: u8) -> (r: u8)
    requires
        idx < TABLE_LEN,
    ensures
        r == shifted_ascii(idx),
{
    if 4 <= idx && idx <= 29 {
        65u8 + (idx - 4)  // 'A'
    } else if 30 <= idx && idx <= 44 {
        usb_to_ascii(idx)
    } else {
        match idx {
            45 => 95u8,  // '_'
            46 => 43u8,  // '+'
            47 => 123u8,  // '{'
            48 => 125u8,  // '}'
            49 => 124u8,  // '|'
            51 => 58u8,  // ':'
            52 => 34u8,  // '"'
            53 => 126u8,  // '~'
            54 => 60u8,  // '<'
            55 => 62u8,  // '>'
            _ => 0u8,
        }
    }
}

/// Scans one table for `c`, returning the first matching index or
/// `TABLE_LEN`.
fn scan_table(shifted: bool, c: u8) -> (r: u8)
    ensures
        r as int == first_index(shifted, c, 0),
{
    let mut idx: u8 = 0;
    while idx < TABLE_LEN
        invariant
            idx <= TABLE_LEN,
            first_index(shifted, c, 0) == first_index(shifted, c, idx as int),
        decreases TABLE_LEN - idx,
    {
        let entry = if shifted {
            usb_to_ascii_shifted(idx)
        } else {
            usb_to_ascii(idx)
        };
        if entry == c {
            return idx;
        }
        idx = idx + 1;
    }
    TABLE_LEN
}

impl Keycode {
    /// The key press that types the ASCII byte `character`; a byte that
    /// neither table holds gives modifier 0 and code 0 ("no key").
    pub fn from_ascii(character: u8) -> (r: Keycode)
        ensures
            r == keycode_of(character),
    {
        let plain = scan_table(false, character);
        if plain < TABLE_LEN {
            return Keycode { modifiers: 0, code: plain };
        }
        let with_shift = scan_table(true, character);
        if with_shift < TABLE_LEN {
            return Keycode { modifiers: LEFT_SHIFT, code: with_shift };
        }
        Keycode { modifiers: 0, code: 0 }
    }
}

/// When entry `k` is `c` and no entry in `[i, k)` is, the scan from `i`
/// stops at `k`.
proof fn lemma_first_index_at(shifted: bool, c: u8, i: int, k: int)
    requires
        0 <= i <= k < TABLE_LEN,
        table_entry(shifted, k) == c,
        forall|j: int| i <= j < k ==> table_entry(shifted, j) != c,
    ensures
        first_index(shifted, c, i) == k,
    decreases k - i,
{
    if i < k {
        lemma_first_index_at(shifted, c, i + 1, k);
    }
}

/// When no entry from `i` on is `c`, the scan from `i` finds nothing.
proof fn lemma_first_index_none(shifted: bool, c: u8, i: int)
    requires
        0 <= i <= TABLE_LEN,
        forall|j: int| i <= j < TABLE_LEN ==> table_entry(shifted, j) != c,
    ensures
        first_index(shifted, c, i) == TABLE_LEN,
    decreases TABLE_LEN - i,
{
    if i < TABLE_LEN {
        lemma_first_index_none(shifted, c, i + 1);
    }
}

/// A lowercase letter is typed without modifier, by the usage code equal to
/// its position in the alphabet (counting from 1) plus 3.
pub proof fn lemma_lowercase_keycode(c: u8)
    requires
        97u8 <= c <= 122u8,  // 'a', 'z'
    ensures
        keycode_of(c) == (Keycode { modifiers: 0, code: (c - 97u8 + 4) as u8 }),  // 'a'
{
    lemma_first_index_at(false, c, 0, c - 97u8 + 4);  // 'a'
}

/// An uppercase letter is typed with the shift modifier and the same usage
/// code as its lowercase counterpart.
pub proof fn lemma_uppercase_keycode(c: u8)
    requires
        65u8 <= c <= 90u8,  // 'A', 'Z'
    ensures
        keycode_of(c) == (Keycode { modifiers: LEFT_SHIFT, code: (c - 65u8 + 4) as u8 }),  // 'A'
        keycode_of(c).code == keycode_of((c + 32) as u8).code,
{
    lemma_first_index_none(false, c, 0);
    lemma_first_index_at(true, c, 0, c - 65u8 + 4);  // 'A'
    lemma_lowercase_keycode((c + 32) as u8);
}

/// A byte that neither table holds gives modifier 0 and code 0.
pub proof fn lemma_unmapped_keycode(c: u8)
    requires
        forall|i: u8| i < TABLE_LEN ==> unshifted_ascii(i) != c && shifted_ascii(i) != c,
    ensures
        keycode_of(c) == (Keycode { modifiers: 0, code: 0 }),
{
    lemma_first_index_none(false, c, 0);
    lemma_first_index_none(true, c, 0);
}

} // verus!
