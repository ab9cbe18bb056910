//! Text in UTF-16, as the window system takes and gives it.

use crate::text::{chars_of, code_point};
use vstd::prelude::*;

verus! {

/// The character of a number, where there is one: numbers above 0x10FFFF and the surrogates
/// from 0xD800 to 0xDFFF have none.
pub assume_specification[ char::from_u32 ](n: u32) -> (r: Option<char>)
    ensures
        r is Some <==> n < 0xD800 || 0xE000 <= n <= 0x10FFFF,
        r matches Some(c) ==> c as int == n,
;

/// One character in UTF-16: one unit, or a high and a low surrogate for the higher planes.
pub open spec fn units(c: char) -> Seq<u16> {
    let n = c as int;
    if n < 0x10000 {
        seq![n as u16]
    } else {
        seq![(0xD800 + (n - 0x10000) / 0x400) as u16, (0xDC00 + (n - 0x10000) % 0x400) as u16]
    }
}

/// A text in UTF-16.
pub open spec fn utf16(s: Seq<char>) -> Seq<u16>
    decreases s.len(),
{
    if s.len() == 0 {
        Seq::empty()
    } else {
        units(s[0]) + utf16(s.skip(1))
    }
}

pub open spec fn is_high(u: u16) -> bool {
    0xD800 <= u < 0xDC00
}

pub open spec fn is_low(u: u16) -> bool {
    0xDC00 <= u < 0xE000
}

/// The character of a surrogate pair.
pub open spec fn paired(high: u16, low: u16) -> char {
    (0x10000 + (high - 0xD800) * 0x400 + (low - 0xDC00)) as char
}

/// The text of UTF-16 units, with U+FFFD for each surrogate that stands alone.
pub open spec fn utf16_text(u: Seq<u16>) -> Seq<char>
    decreases u.len(),
{
    if u.len() == 0 {
        Seq::empty()
    } else if is_high(u[0]) && u.len() >= 2 && is_low(u[1]) {
        seq![paired(u[0], u[1])] + utf16_text(u.skip(2))
    } else if is_high(u[0]) || is_low(u[0]) {
        seq!['\u{FFFD}'] + utf16_text(u.skip(1))
    } else {
        seq![u[0] as char] + utf16_text(u.skip(1))
    }
}

/// A text in UTF-16 with a zero at its end.
pub fn to_wide(s: &str) -> (r: Vec<u16>)
    ensures
        r@ == utf16(s@).push(0),
{
    let chars = chars_of(s);
    let mut out: Vec<u16> = Vec::new();
    let mut i: usize = 0;
    assert(s@.skip(0) == s@);
    while i < chars.len()
        invariant
            i <= chars.len(),
            chars@ == s@,
            utf16(s@) == out@ + utf16(s@.skip(i as int)),
        decreases chars.len() - i,
    {
        let ghost before = out@;
        let c: char = chars[i];
        let n: u32 = code_point(c);
        if n < 0x10000 {
            out.push(n as u16);
        } else {
            let m: u32 = n - 0x10000;
            out.push((0xD800 + m / 0x400) as u16);
            out.push((0xDC00 + m % 0x400) as u16);
        }
        assert(out@ == before + units(c));
        assert(s@.skip(i as int).skip(1) == s@.skip(i + 1));
        i = i + 1;
        assert(before + (units(c) + utf16(s@.skip(i as int))) == out@ + utf16(
            s@.skip(i as int),
        ));
    }
    assert(utf16(s@) == out@);
    out.push(0);
    out
}

/// The text of the first `len` units, with U+FFFD for what is no text.
pub fn from_wide(buf: &Vec<u16>, len: usize) -> (r: String)
    requires
        len <= buf.len(),
    ensures
        r@ == utf16_text(buf@.take(len as int)),
{
    let ghost u = buf@.take(len as int);
    let mut out = String::new();
    let mut i: usize = 0;
    assert(u.skip(0) == u);
    while i < len
        invariant
            i <= len <= buf.len(),
            u == buf@.take(len as int),
            utf16_text(u) == out@ + utf16_text(u.skip(i as int)),
        decreases len - i,
    {
        let ghost before = out@;
        let ghost start = i;
        let ghost rest = u.skip(i as int);
        let a: u16 = buf[i];
        let mut c: char = '\u{FFFD}';
        let mut used: usize = 1;
        if 0xD800 <= a && a < 0xDC00 {
            if i + 1 < len && 0xDC00 <= buf[i + 1] && buf[i + 1] < 0xE000 {
                let n: u32 = 0x10000 + (a as u32 - 0xD800) * 0x400 + (buf[i + 1] as u32 - 0xDC00);
                if let Some(pair) = char::from_u32(n) {
                    c = pair;
                }
                used = 2;
            }
        } else if a < 0xD800 || 0xE000 <= a {
            if let Some(plain) = char::from_u32(a as u32) {
                c = plain;
            }
        }
        out.push(c);
        i = i + used;
        assert(rest.skip(used as int) == u.skip(i as int));
        assert(utf16_text(rest) == seq![c] + utf16_text(u.skip(i as int)));
        assert(before + (seq![c] + utf16_text(u.skip(i as int))) == out@ + utf16_text(
            u.skip(i as int),
        ));
    }
    assert(utf16_text(u) == out@);
    out
}

/// The units of one character tell it from all others.
proof fn lemma_units(c: char)
    ensures
        c as int >= 0x10000 ==> {
            &&& units(c).len() == 2
            &&& is_high(units(c)[0])
            &&& is_low(units(c)[1])
            &&& paired(units(c)[0], units(c)[1]) == c
        },
        (c as int) < 0x10000 ==> {
            &&& units(c).len() == 1
            &&& !is_high(units(c)[0])
            &&& !is_low(units(c)[0])
            &&& units(c)[0] as char == c
        },
{
}

/// A text without characters of the higher planes takes one unit per character.
pub proof fn lemma_narrow_len(s: Seq<char>)
    requires
        forall|i: int| 0 <= i < s.len() ==> (#[trigger] s[i] as int) < 0x10000,
    ensures
        utf16(s).len() == s.len(),
    decreases s.len(),
{
    if s.len() > 0 {
        assert((s[0] as int) < 0x10000);
        lemma_narrow_len(s.skip(1));
    }
}

/// Text comes back unchanged from UTF-16.
pub proof fn law_wide_round_trip(s: Seq<char>)
    ensures
        utf16_text(utf16(s)) == s,
    decreases s.len(),
{
    if s.len() > 0 {
        let c = s[0];
        let rest = utf16(s.skip(1));
        law_wide_round_trip(s.skip(1));
        let u = units(c) + rest;
        assert(u.skip(units(c).len() as int) == rest);
        assert(u[0] == units(c)[0]);
        lemma_units(c);
        if c as int >= 0x10000 {
            assert(u[1] == units(c)[1]);
        }
        assert(utf16_text(u) == seq![c] + s.skip(1));
        assert(s == seq![c] + s.skip(1));
    }
}

/// Text is turned into UTF-16 character by character: the number itself, or a high and a low
/// surrogate that together give it.
pub proof fn law_each_character_in_units(s: Seq<char>, c: char)
    ensures
        utf16(seq![c] + s) == units(c) + utf16(s),
        utf16(Seq::empty()).len() == 0,
        (c as int) < 0x10000 ==> units(c).len() == 1 && units(c)[0] == c as int,
        c as int >= 0x10000 ==> {
            &&& units(c).len() == 2
            &&& 0xD800 <= units(c)[0] <= 0xDBFF
            &&& 0xDC00 <= units(c)[1] <= 0xDFFF
            &&& 0x10000 + (units(c)[0] - 0xD800) * 0x400 + (units(c)[1] - 0xDC00) == c as int
        },
{
    assert((seq![c] + s).skip(1) == s);
    assert((seq![c] + s)[0] == c);
}

/// Units are read one by one: a surrogate that is not one of a pair gives U+FFFD, a pair gives
/// its character, and any other unit the character of its number.
pub proof fn law_units_are_read(u: u16, v: u16, rest: Seq<u16>)
    ensures
        !(0xD800 <= u <= 0xDFFF) ==> utf16_text(seq![u] + rest) == seq![u as char] + utf16_text(
            rest,
        ),
        0xDC00 <= u <= 0xDFFF ==> utf16_text(seq![u] + rest) == seq!['\u{FFFD}'] + utf16_text(rest),
        0xD800 <= u <= 0xDBFF && (rest.len() == 0 || !(0xDC00 <= rest[0] <= 0xDFFF))
            ==> utf16_text(seq![u] + rest) == seq!['\u{FFFD}'] + utf16_text(rest),
        0xD800 <= u <= 0xDBFF && 0xDC00 <= v <= 0xDFFF ==> utf16_text(seq![u, v] + rest) == seq![
            (0x10000 + (u - 0xD800) * 0x400 + (v - 0xDC00)) as char,
        ] + utf16_text(rest),
        utf16_text(Seq::empty()).len() == 0,
{
    let one = seq![u] + rest;
    let two = seq![u, v] + rest;
    assert(one[0] == u && one.skip(1) == rest);
    assert(two[0] == u && two[1] == v && two.skip(2) == rest);
    if rest.len() > 0 {
        assert(one[1] == rest[0]);
    }
}

} // verus!
