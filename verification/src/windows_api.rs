//! Conversions that calls into the windowing system need.

use vstd::prelude::*;

verus! {

/// The code units that write one character in UTF-16: the character itself
/// where 16 bits hold it, else a high and a low surrogate that carry ten
/// bits each of its offset from `0x10000`.
pub open spec fn utf16_units(c: char) -> Seq<u16> {
    let code = c as u32;
    if code < 0x1_0000 {
        seq![code as u16]
    } else {
        let offset = (code - 0x1_0000) as u32;
        seq![(0xD800 + (offset >> 10)) as u16, (0xDC00 + (offset & 0x3FF)) as u16]
    }
}

/// The code units that write a text in UTF-16.
pub open spec fn utf16_of(s: Seq<char>) -> Seq<u16>
    decreases s.len(),
{
    if s.len() == 0 {
        Seq::<u16>::empty()
    } else {
        utf16_of(s.drop_last()) + utf16_units(s.last())
    }
}

/// Helpers for calls into the windowing system.
pub struct WindowsApi {}

impl WindowsApi {
    /// The text in UTF-16, without a terminator.
    pub fn str_to_u16_slice(s: &str) -> (units: Vec<u16>)
        ensures
            units@ == utf16_of(s@),
    {
        let mut units: Vec<u16> = Vec::new();
        for c in it: s.chars()
            invariant
                it.seq() == s@,
                units@ == utf16_of(s@.take(it.index())),
        {
            let ghost k = it.index();
            assert(s@.take(k + 1).drop_last() =~= s@.take(k));
            assert(s@.take(k + 1).last() == c);
            let code: u32 = c as u32;
            if code < 0x1_0000 {
                units.push(code as u16);
            } else {
                proof {
                    vstd::utf8::char_is_scalar(c);
                }
                let offset: u32 = code - 0x1_0000;
                assert(offset >> 10 <= 0x3FF && offset & 0x3FF <= 0x3FF) by (bit_vector)
                    requires
                        offset <= 0xF_FFFF,
                ;
                units.push((0xD800 + (offset >> 10)) as u16);
                units.push((0xDC00 + (offset & 0x3FF)) as u16);
            }
            assert(units@ =~= utf16_of(s@.take(k)) + utf16_units(c));
        }
        assert(s@.take(s@.len() as int) =~= s@);
        units
    }
}

} // verus!
