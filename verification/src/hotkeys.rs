//! From a chord of the configuration to what the platform registers: a set
//! of modifier flags and a virtual-key code.

use crate::config::{ChordView, KeyChord};
use vstd::prelude::*;
use vstd::string::*;

verus! {

pub const MOD_ALT: u32 = 1;

pub const MOD_CONTROL: u32 = 2;

pub const MOD_SHIFT: u32 = 4;

/// Virtual-key code of `F1`; the other function keys follow it.
pub const VK_F1: u32 = 0x70;

/// The modifier flags of a chord, added up.
pub open spec fn modifiers_of(c: ChordView) -> u32 {
    ((if c.alt {
        MOD_ALT
    } else {
        0u32
    }) + (if c.ctrl {
        MOD_CONTROL
    } else {
        0u32
    }) + (if c.shift {
        MOD_SHIFT
    } else {
        0u32
    })) as u32
}

pub open spec fn is_digit(c: char) -> bool {
    '0' <= c <= '9'
}

/// The virtual-key code that a key name stands for: a letter (its upper-case
/// code, whatever its case), a digit, or `F1` to `F12`. Any other name has
/// none.
pub open spec fn virtual_key_of(key: Seq<char>) -> Option<u32> {
    if key.len() == 1 {
        let u = key[0] as u32;
        if is_digit(key[0]) || 'A' <= key[0] <= 'Z' {
            Some(u)
        } else if 'a' <= key[0] <= 'z' {
            Some((u - 0x20) as u32)
        } else {
            None
        }
    } else if key.len() == 2 && (key[0] == 'F' || key[0] == 'f') && '1' <= key[1] <= '9' {
        Some((VK_F1 + (key[1] as u32 - '1' as u32)) as u32)
    } else if key.len() == 3 && (key[0] == 'F' || key[0] == 'f') && key[1] == '1' && '0' <= key[2]
        <= '2' {
        Some((VK_F1 + 9 + (key[2] as u32 - '0' as u32)) as u32)
    } else {
        None
    }
}

/// The modifier flags to register a chord with.
pub fn modifiers(chord: &KeyChord) -> (r: u32)
    ensures
        r == modifiers_of(chord@),
{
    let mut flags: u32 = 0;
    if chord.alt {
        flags = flags + MOD_ALT;
    }
    if chord.ctrl {
        flags = flags + MOD_CONTROL;
    }
    if chord.shift {
        flags = flags + MOD_SHIFT;
    }
    flags
}

/// The virtual-key code to register a key name with, or `None` where the
/// name is none that can be registered.
pub fn virtual_key(key: &str) -> (r: Option<u32>)
    ensures
        r == virtual_key_of(key@),
{
    let n: usize = key.unicode_len();
    if n == 0 || n > 3 {
        return None;
    }
    let first: char = key.get_char(0);
    let u: u32 = first as u32;
    if n == 1 {
        if ('0' <= first && first <= '9') || ('A' <= first && first <= 'Z') {
            Some(u)
        } else if 'a' <= first && first <= 'z' {
            Some(u - 0x20)
        } else {
            None
        }
    } else if first == 'F' || first == 'f' {
        let second: char = key.get_char(1);
        if n == 2 {
            if '1' <= second && second <= '9' {
                Some(VK_F1 + (second as u32 - '1' as u32))
            } else {
                None
            }
        } else {
            let third: char = key.get_char(2);
            if second == '1' && '0' <= third && third <= '2' {
                Some(VK_F1 + 9 + (third as u32 - '0' as u32))
            } else {
                None
            }
        }
    } else {
        None
    }
}

/// Every code is that of a digit, an upper-case letter or a function key,
/// and the modifier flags never go beyond the three that exist.
pub proof fn lemma_registered_values_in_range(key: Seq<char>, chord: ChordView)
    ensures
        match virtual_key_of(key) {
            Some(code) => 0x30 <= code <= 0x39 || 0x41 <= code <= 0x5A || VK_F1 <= code <= VK_F1
                + 11,
            None => true,
        },
        modifiers_of(chord) <= MOD_ALT + MOD_CONTROL + MOD_SHIFT,
{
}

} // verus!
