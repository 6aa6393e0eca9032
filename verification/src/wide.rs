//! Wide-character strings: the UTF-16 buffers that the system's calls take.

use vstd::prelude::*;

verus! {

/// The first code point that takes two UTF-16 units.
pub const SUPPLEMENTARY: u32 = 0x10000;

/// The first high (leading) surrogate.
pub const HIGH_SURROGATE: u32 = 0xD800;

/// The first low (trailing) surrogate.
pub const LOW_SURROGATE: u32 = 0xDC00;

/// The UTF-16 units of one character: the character itself where it fits in
/// 16 bits, else a high and a low surrogate that carry ten bits each of its
/// offset into the supplementary planes.
pub open spec fn units(c: char) -> Seq<u16> {
    let v = c as u32;
    if v < SUPPLEMENTARY {
        seq![v as u16]
    } else {
        seq![
            (HIGH_SURROGATE + (v - SUPPLEMENTARY) / 0x400) as u16,
            (LOW_SURROGATE + (v - SUPPLEMENTARY) % 0x400) as u16,
        ]
    }
}

/// The UTF-16 encoding of a text: the units of its characters, in order.
pub open spec fn utf16(s: Seq<char>) -> Seq<u16>
    decreases s.len(),
{
    if s.len() == 0 {
        Seq::empty()
    } else {
        utf16(s.drop_last()) + units(s.last())
    }
}

/// A text as the system takes it: its UTF-16 encoding and a terminating zero.
pub open spec fn wide(s: Seq<char>) -> Seq<u16> {
    utf16(s).push(0u16)
}

/// One character takes one unit that is no surrogate, or a high surrogate
/// followed by a low one; either way the units give the character back.
pub proof fn units_give_char_back(c: char)
    ensures
        c as u32 as char == c,
        units(c).len() == 1 || units(c).len() == 2,
        units(c).len() == 1 ==> {
            &&& !(HIGH_SURROGATE <= units(c)[0] < LOW_SURROGATE + 0x400)
            &&& c as u32 == units(c)[0]
        },
        units(c).len() == 2 ==> {
            &&& HIGH_SURROGATE <= units(c)[0] < LOW_SURROGATE
            &&& LOW_SURROGATE <= units(c)[1] < LOW_SURROGATE + 0x400
            &&& c as u32 == SUPPLEMENTARY + (units(c)[0] - HIGH_SURROGATE) * 0x400 + (units(c)[1]
                - LOW_SURROGATE)
        },
{
}

/// Two texts with the same UTF-16 encoding are the same text.
pub proof fn utf16_is_injective(a: Seq<char>, b: Seq<char>)
    requires
        utf16(a) == utf16(b),
    ensures
        a == b,
    decreases a.len(),
{
    if a.len() == 0 || b.len() == 0 {
        if a.len() > 0 {
            units_give_char_back(a.last());
        }
        if b.len() > 0 {
            units_give_char_back(b.last());
        }
        assert(a =~= b);
    } else {
        let whole = utf16(a);
        let (x, y) = (a.last(), b.last());
        units_give_char_back(x);
        units_give_char_back(y);
        let (before_x, before_y) = (utf16(a.drop_last()), utf16(b.drop_last()));
        assert(whole == before_x + units(x));
        assert(whole == before_y + units(y));
        assert(whole.last() == units(x).last());
        assert(whole.last() == units(y).last());
        assert(units(x).len() == units(y).len());
        if units(x).len() == 2 {
            assert(whole[whole.len() - 2] == units(x)[0]);
            assert(whole[whole.len() - 2] == units(y)[0]);
        }
        assert(x == y);
        assert(before_x =~= whole.take(whole.len() - units(x).len()));
        assert(before_y =~= whole.take(whole.len() - units(y).len()));
        utf16_is_injective(a.drop_last(), b.drop_last());
        assert(a =~= a.drop_last().push(x));
        assert(b =~= b.drop_last().push(y));
    }
}

/// Two texts that the system is handed in the same buffer are the same
/// text: what a process is created with says which command line and which
/// directory were configured.
pub proof fn wide_is_injective(a: Seq<char>, b: Seq<char>)
    requires
        wide(a) == wide(b),
    ensures
        a == b,
{
    assert(utf16(a) =~= wide(a).drop_last());
    assert(utf16(b) =~= wide(b).drop_last());
    utf16_is_injective(a, b);
}

/// Appends the UTF-16 units of `c` to `out`.
fn push_units(out: &mut Vec<u16>, c: char)
    ensures
        final(out)@ == old(out)@ + units(c),
{
    let v: u32 = c as u32;
    if v < SUPPLEMENTARY {
        out.push(v as u16);
        assert(out@ =~= old(out)@ + units(c));
    } else {
        let offset: u32 = v - SUPPLEMENTARY;
        let high: u32 = HIGH_SURROGATE + offset / 0x400;
        let low: u32 = LOW_SURROGATE + offset % 0x400;
        out.push(high as u16);
        out.push(low as u16);
        assert(out@ =~= old(out)@ + units(c));
    }
}

/// Encodes `s` into a fresh wide-character buffer that ends with a zero.
///
/// Nothing is checked of the text: a zero inside it is encoded like any other
/// character, and the system will read the buffer up to it.
pub fn encode_wide(s: &str) -> (out: Vec<u16>)
    ensures
        out@ == wide(s@),
{
    let mut out: Vec<u16> = Vec::new();
    for c in iter: s.chars()
        invariant
            iter.seq() == s@,
            out@ == utf16(s@.take(iter.index() as int)),
    {
        push_units(&mut out, c);
        proof {
            let next = s@.take(iter.index() + 1);
            assert(next.drop_last() =~= s@.take(iter.index() as int));
            assert(next.last() == c);
        }
    }
    assert(s@.take(s@.len() as int) =~= s@);
    out.push(0u16);
    out
}

} // verus!
