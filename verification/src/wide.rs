//! Text as the Windows API takes and gives it: 16-bit units with a zero at the end.

use crate::text::to_chars;
use vstd::prelude::*;

verus! {

/// `char::from_u32` gives the character with a code, unless the code is a surrogate or beyond
/// the last character.
pub assume_specification[ char::from_u32 ](code: u32) -> (c: Option<char>)
    ensures
        match c {
            Some(found) => found as u32 == code,
            None => 0xD800 <= code <= 0xDFFF || code > 0x10FFFF,
        },
;

/// The units of a character: one, or a pair of surrogates beyond the first 65536 codes.
pub open spec fn char_units(c: char) -> Seq<u16> {
    let code = c as int;
    if code < 0x10000 {
        seq![code as u16]
    } else {
        seq![
            (0xD800 + (code - 0x10000) / 0x400) as u16,
            (0xDC00 + (code - 0x10000) % 0x400) as u16,
        ]
    }
}

/// The units of a text.
pub open spec fn text_units(s: Seq<char>) -> Seq<u16>
    decreases s.len(),
{
    if s.len() == 0 {
        Seq::empty()
    } else {
        text_units(s.drop_last()) + char_units(s.last())
    }
}

/// A character is given by its code.
proof fn lemma_char_code(c: char)
    ensures
        c as u32 == c as int,
        c as int <= 0x10FFFF,
        forall|code: u32| code == c as u32 ==> #[trigger] (code as char) == c,
        forall|unit: u16| unit == c as u32 ==> #[trigger] (unit as char) == c,
{
}

/// The units of a string, with a zero at the end.
pub fn to_utf16_null(value: &str) -> (units: Vec<u16>)
    ensures
        units@ == text_units(value@).push(0),
{
    let chars = to_chars(value);
    let mut units: Vec<u16> = Vec::new();
    let mut i: usize = 0;
    while i < chars.len()
        invariant
            i <= chars.len(),
            chars@ == value@,
            units@ == text_units(value@.take(i as int)),
        decreases chars.len() - i,
    {
        let c: char = chars[i];
        let code: u32 = c as u32;
        let ghost before = units@;
        proof {
            lemma_char_code(c);
        }
        assert(value@.take(i + 1).drop_last() =~= value@.take(i as int));
        assert(value@.take(i + 1).last() == value@[i as int]);
        if code < 0x10000 {
            units.push(code as u16);
        } else {
            units.push((0xD800 + (code - 0x10000) / 0x400) as u16);
            units.push((0xDC00 + (code - 0x10000) % 0x400) as u16);
        }
        assert(units@ =~= before + char_units(value@[i as int]));
        i = i + 1;
    }
    assert(value@.take(i as int) =~= value@);
    units.push(0);
    units
}

/// Whether a unit is the first of a pair.
pub open spec fn is_leading(unit: u16) -> bool {
    0xD800 <= unit <= 0xDBFF
}

/// Whether a unit is the second of a pair.
pub open spec fn is_trailing(unit: u16) -> bool {
    0xDC00 <= unit <= 0xDFFF
}

/// The text of units; a unit of a pair that lacks the other one becomes the replacement
/// character.
pub open spec fn units_text(units: Seq<u16>) -> Seq<char>
    decreases units.len(),
{
    if units.len() == 0 {
        Seq::empty()
    } else if units.len() >= 2 && is_leading(units[0]) && is_trailing(units[1]) {
        let code = 0x10000 + (units[0] - 0xD800) * 0x400 + (units[1] - 0xDC00);
        seq![code as char] + units_text(units.skip(2))
    } else if is_leading(units[0]) || is_trailing(units[0]) {
        seq!['\u{FFFD}'] + units_text(units.skip(1))
    } else {
        seq![units[0] as char] + units_text(units.skip(1))
    }
}

/// The text of units.
pub fn from_utf16(units: &Vec<u16>) -> (text: String)
    ensures
        text@ == units_text(units@),
{
    let mut text = String::new();
    let mut i: usize = 0;
    assert(units@.skip(0) =~= units@);
    while i < units.len()
        invariant
            i <= units.len(),
            units_text(units@) == text@ + units_text(units@.skip(i as int)),
        decreases units.len() - i,
    {
        let first: u16 = units[i];
        let ghost rest = units@.skip(i as int);
        let ghost before = text@;
        if i + 1 < units.len() && 0xD800 <= first && first <= 0xDBFF && 0xDC00 <= units[i + 1]
            && units[i + 1] <= 0xDFFF {
            let code: u32 = 0x10000 + (first as u32 - 0xD800) * 0x400 + (units[i + 1] as u32
                - 0xDC00);
            match char::from_u32(code) {
                Some(c) => {
                    text.push(c);
                    proof {
                        lemma_char_code(c);
                    }
                },
                None => {},
            }
            assert(rest.skip(2) =~= units@.skip(i + 2));
            assert(text@ + units_text(rest.skip(2)) =~= before + (seq![code as char]
                + units_text(rest.skip(2))));
            i = i + 2;
        } else {
            if 0xD800 <= first && first <= 0xDFFF {
                text.push('\u{FFFD}');
                assert(text@ + units_text(rest.skip(1)) =~= before + (seq!['\u{FFFD}']
                    + units_text(rest.skip(1))));
            } else {
                match char::from_u32(first as u32) {
                    Some(c) => {
                        text.push(c);
                        proof {
                            lemma_char_code(c);
                        }
                    },
                    None => {},
                }
                assert(text@ + units_text(rest.skip(1)) =~= before + (seq![first as char]
                    + units_text(rest.skip(1))));
            }
            assert(rest.skip(1) =~= units@.skip(i + 1));
            i = i + 1;
        }
    }
    assert(units_text(units@.skip(i as int)) =~= Seq::<char>::empty());
    text
}

/// Reading units that begin with those of a character gives the character first.
proof fn lemma_first_char(c: char, rest: Seq<u16>)
    ensures
        units_text(char_units(c) + rest) == seq![c] + units_text(rest),
{
    let units = char_units(c) + rest;
    let code = c as int;
    if code < 0x10000 {
        assert(units.skip(1) =~= rest);
        assert(units[0] == code);
        assert(!is_leading(units[0]) && !is_trailing(units[0]));
        assert(units[0] as char == c);
    } else {
        assert(units.skip(2) =~= rest);
        let high = (code - 0x10000) / 0x400;
        let low = (code - 0x10000) % 0x400;
        assert(0 <= high < 0x400 && 0 <= low < 0x400);
        assert(units[0] == 0xD800 + high);
        assert(units[1] == 0xDC00 + low);
        assert(high * 0x400 + low == code - 0x10000);
        assert(0x10000 + (units[0] - 0xD800) * 0x400 + (units[1] - 0xDC00) == code);
    }
}

/// Reading units that begin with those of a text gives the text first.
proof fn lemma_first_text(s: Seq<char>, rest: Seq<u16>)
    ensures
        units_text(text_units(s) + rest) == s + units_text(rest),
    decreases s.len(),
{
    if s.len() == 0 {
        assert(text_units(s) + rest =~= rest);
        assert(s + units_text(rest) =~= units_text(rest));
    } else {
        let front = s.drop_last();
        let last = char_units(s.last());
        assert(text_units(s) + rest =~= text_units(front) + (last + rest));
        lemma_first_text(front, last + rest);
        lemma_first_char(s.last(), rest);
        assert(front + (seq![s.last()] + units_text(rest)) =~= s + units_text(rest));
    }
}

/// The units of a text are read as the text.
pub proof fn units_read_back(s: Seq<char>)
    ensures
        units_text(text_units(s)) == s,
{
    lemma_first_text(s, Seq::empty());
    assert(text_units(s) + Seq::<u16>::empty() =~= text_units(s));
    assert(s + units_text(Seq::empty()) =~= s);
}

/// A character below 65536 is one unit, its code. Any other is a pair: a unit from 0xD800 on and one
/// from 0xDC00 on, which hold the upper and the lower ten bits of what its code is above 65536.
/// The units of joined texts are those of the texts.
pub proof fn characters_are_one_unit_or_a_pair(s: Seq<char>, c: char)
    ensures
        text_units(Seq::empty()).len() == 0,
        text_units(s.push(c)) == text_units(s) + char_units(c),
        (c as int) < 65536 ==> char_units(c).len() == 1 && char_units(c)[0] == c as int,
        c as int >= 65536 ==> {
            let units = char_units(c);
            &&& units.len() == 2
            &&& 0xD800 <= units[0] < 0xDC00
            &&& 0xDC00 <= units[1] < 0xE000
            &&& 65536 + 1024 * (units[0] - 0xD800) + (units[1] - 0xDC00) == c as int
        },
{
    assert(s.push(c).drop_last() =~= s);
    let code = c as int;
    if code >= 65536 {
        let (high, low) = ((code - 0x10000) / 0x400, (code - 0x10000) % 0x400);
        assert(0 <= high < 0x400 && 0 <= low < 0x400);
        assert(high * 0x400 + low == code - 0x10000);
    }
}

/// A unit of a pair that stands alone is read as the replacement character, and what follows it as
/// if it were not there.
pub proof fn lone_units_are_replaced(unit: u16, rest: Seq<u16>)
    requires
        0xD800 <= unit <= 0xDFFF,
        0xDC00 <= unit || rest.len() == 0 || !(0xDC00 <= rest[0] <= 0xDFFF),
    ensures
        units_text(seq![unit] + rest) == seq!['\u{FFFD}'] + units_text(rest),
{
    let all = seq![unit] + rest;
    assert(all.skip(1) =~= rest);
    if rest.len() > 0 {
        assert(all[1] == rest[0]);
    }
}

} // verus!
