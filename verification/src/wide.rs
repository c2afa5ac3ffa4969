//! Text as the desktop shell wants it: UTF-16 code units with a closing zero.

use vstd::prelude::*;

verus! {

/// The UTF-16 code units of one character: itself below U+10000, else the
/// high and the low surrogate of what lies above U+10000.
pub open spec fn utf16_units(c: char) -> Seq<u16> {
    let code = c as int;
    if code < 0x10000 {
        seq![code as u16]
    } else {
        seq![(0xD800 + (code - 0x10000) / 0x400) as u16, (0xDC00 + (code - 0x10000) % 0x400) as u16]
    }
}

/// The UTF-16 code units of a text, character after character.
pub open spec fn utf16_encode(text: Seq<char>) -> Seq<u16>
    decreases text.len(),
{
    if text.len() == 0 {
        Seq::empty()
    } else {
        utf16_encode(text.drop_last()) + utf16_units(text.last())
    }
}

/// A text as a zero-terminated wide string.
pub open spec fn wide_null(text: Seq<char>) -> Seq<u16> {
    utf16_encode(text).push(0u16)
}

fn push_utf16(out: &mut Vec<u16>, c: char)
    ensures
        final(out)@ == old(out)@ + utf16_units(c),
{
    let code: u32 = c as u32;
    if code < 0x10000 {
        out.push(code as u16);
        assert(out@ =~= old(out)@ + utf16_units(c));
    } else {
        let above: u32 = code - 0x10000;
        out.push((0xD800 + above / 0x400) as u16);
        out.push((0xDC00 + above % 0x400) as u16);
        assert(out@ =~= old(out)@ + utf16_units(c));
    }
}

/// Encodes `text` as a zero-terminated wide string.
pub fn to_wide_null(text: &str) -> (wide: Vec<u16>)
    ensures
        wide@ == wide_null(text@),
{
    let mut wide: Vec<u16> = Vec::new();
    for c in it: text.chars()
        invariant
            it.seq() == text@,
            wide@ == utf16_encode(it.seq().take(it.index())),
    {
        proof {
            let done = it.seq().take(it.index() + 1);
            assert(done.drop_last() =~= it.seq().take(it.index()));
            assert(done.last() == c);
        }
        push_utf16(&mut wide, c);
    }
    assert(text@.take(text@.len() as int) =~= text@);
    wide.push(0u16);
    wide
}

} // verus!
