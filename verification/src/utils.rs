//! String helpers shared by the platform-facing code.

use vstd::prelude::*;
use vstd::string::*;

verus! {

/// The UTF-16 code units of one Unicode scalar value: the value itself inside
/// the basic plane, a high and a low surrogate above it.
pub open spec fn utf16_units(c: char) -> Seq<u16> {
    let u = c as u32 as int;
    if u < 0x10000 {
        seq![u as u16]
    } else {
        seq![(0xD800 + (u - 0x10000) / 0x400) as u16, (0xDC00 + (u - 0x10000) % 0x400) as u16]
    }
}

/// The UTF-16 encoding of a sequence of scalar values.
pub open spec fn utf16_of(s: Seq<char>) -> Seq<u16>
    decreases s.len(),
{
    if s.len() == 0 {
        Seq::empty()
    } else {
        utf16_of(s.drop_last()) + utf16_units(s.last())
    }
}

/// Encoding a prefix one character longer appends that character's units.
pub proof fn lemma_utf16_of_take(s: Seq<char>, i: int)
    requires
        0 <= i < s.len(),
    ensures
        utf16_of(s.take(i + 1)) == utf16_of(s.take(i)) + utf16_units(s[i]),
{
    assert(s.take(i + 1).drop_last() =~= s.take(i));
    assert(s.take(i + 1).last() == s[i]);
}

/// Appends the UTF-16 code units of `c` to `out`.
pub fn push_utf16(out: &mut Vec<u16>, c: char)
    ensures
        final(out)@ == old(out)@ + utf16_units(c),
{
    let u: u32 = c as u32;
    if u < 0x10000 {
        out.push(u as u16);
        assert(out@ =~= old(out)@ + utf16_units(c));
    } else {
        let v: u32 = u - 0x10000;
        let hi: u32 = 0xD800 + v / 0x400;
        let lo: u32 = 0xDC00 + v % 0x400;
        out.push(hi as u16);
        out.push(lo as u16);
        assert(out@ =~= old(out)@ + utf16_units(c));
    }
}

/// Converts a string to a null-terminated UTF-16 vector, the form that wide
/// platform interfaces take.
pub fn to_utf16(s: &str) -> (r: Vec<u16>)
    ensures
        r@ == utf16_of(s@) + seq![0u16],
{
    let n: usize = s.unicode_len();
    let mut out: Vec<u16> = Vec::new();
    let mut i: usize = 0;
    while i < n
        invariant
            n == s@.len(),
            i <= n,
            out@ == utf16_of(s@.take(i as int)),
        decreases n - i,
    {
        let c = s.get_char(i);
        proof {
            lemma_utf16_of_take(s@, i as int);
        }
        push_utf16(&mut out, c);
        i += 1;
    }
    assert(s@.take(n as int) =~= s@);
    out.push(0u16);
    assert(out@ =~= utf16_of(s@) + seq![0u16]);
    out
}

} // verus!
