//! Characters and short strings as the scanner sees them.

use vstd::prelude::*;
use vstd::string::{StrSliceExecFns, StringSliceAdditionalSpecFns};
use vstd::utf8::{
    decode_utf8, decode_utf8_split, encode_utf8_decode_utf8, encode_utf8_first_scalar,
    encode_utf8_valid_utf8, is_char_boundary, length_of_first_scalar, pop_first_scalar,
    valid_first_scalar, valid_utf8, valid_utf8_split,
};

verus! {

/// `key` is the one character `c`.
pub open spec fn is_unit(key: Seq<char>, c: char) -> bool {
    key.len() == 1 && key[0] == c
}

/// `key` is the character `a` followed by the character `b`.
pub open spec fn is_pair(key: Seq<char>, a: char, b: char) -> bool {
    key.len() == 2 && key[0] == a && key[1] == b
}

/// What a key of at most two characters is made of.
#[derive(Clone, Copy, Debug, PartialEq, Eq, Structural)]
pub enum Glyph {
    /// Exactly one character.
    One(char),
    /// Exactly two characters.
    Two(char, char),
    /// No character, or more than two.
    Other,
}

/// The glyph that a sequence of characters forms.
pub open spec fn glyph_of(key: Seq<char>) -> Glyph {
    if key.len() == 1 {
        Glyph::One(key[0])
    } else if key.len() == 2 {
        Glyph::Two(key[0], key[1])
    } else {
        Glyph::Other
    }
}

/// Reads a key as a glyph.
pub fn glyph(key: &str) -> (g: Glyph)
    ensures
        g == glyph_of(key@),
{
    let n: usize = key.unicode_len();
    if n == 1 {
        Glyph::One(key.get_char(0))
    } else if n == 2 {
        Glyph::Two(key.get_char(0), key.get_char(1))
    } else {
        Glyph::Other
    }
}

/// Whether `c` is white space: one of the characters to which Unicode gives
/// the property `White_Space`.
pub open spec fn is_whitespace(c: char) -> bool {
    ||| '\u{0009}' <= c <= '\u{000D}'
    ||| c == '\u{0020}'
    ||| c == '\u{0085}'
    ||| c == '\u{00A0}'
    ||| c == '\u{1680}'
    ||| '\u{2000}' <= c <= '\u{200A}'
    ||| c == '\u{2028}'
    ||| c == '\u{2029}'
    ||| c == '\u{202F}'
    ||| c == '\u{205F}'
    ||| c == '\u{3000}'
}

/// `s` without the white space it begins with.
pub open spec fn trim_start(s: Seq<char>) -> Seq<char>
    decreases s.len(),
{
    if s.len() > 0 && is_whitespace(s.first()) {
        trim_start(s.drop_first())
    } else {
        s
    }
}

/// `s` without the white space it ends with.
pub open spec fn trim_end(s: Seq<char>) -> Seq<char>
    decreases s.len(),
{
    if s.len() > 0 && is_whitespace(s.last()) {
        trim_end(s.drop_last())
    } else {
        s
    }
}

/// `s` without the white space around it.
pub open spec fn trimmed(s: Seq<char>) -> Seq<char> {
    trim_end(trim_start(s))
}

/// Tells white space from other characters.
pub fn whitespace(c: char) -> (r: bool)
    ensures
        r == is_whitespace(c),
{
    match c {
        '\u{0009}'..='\u{000D}' => true,
        '\u{0020}' | '\u{0085}' | '\u{00A0}' | '\u{1680}' => true,
        '\u{2000}'..='\u{200A}' => true,
        '\u{2028}' | '\u{2029}' | '\u{202F}' | '\u{205F}' | '\u{3000}' => true,
        _ => false,
    }
}

/// Cuts the white space off both ends of `s`.
pub fn trim(s: &str) -> (t: &str)
    ensures
        t@ == trimmed(s@),
{
    let n: usize = s.unicode_len();
    let mut from: usize = 0;
    assert(s@.subrange(0, n as int) == s@);
    while from < n && whitespace(s.get_char(from))
        invariant
            from <= n,
            n == s@.len(),
            trim_start(s@) == trim_start(s@.subrange(from as int, n as int)),
        decreases n - from,
    {
        assert(s@.subrange(from as int, n as int).drop_first() == s@.subrange(
            from as int + 1,
            n as int,
        ));
        from = from + 1;
    }
    assert(trim_start(s@) == s@.subrange(from as int, n as int));
    let mut to: usize = n;
    while from < to && whitespace(s.get_char(to - 1))
        invariant
            from <= to <= n,
            n == s@.len(),
            trimmed(s@) == trim_end(s@.subrange(from as int, to as int)),
        decreases to - from,
    {
        assert(s@.subrange(from as int, to as int).drop_last() == s@.subrange(
            from as int,
            to as int - 1,
        ));
        to = to - 1;
    }
    s.substring_char(from, to)
}

/// Cuts the first character off a text: the character as a string of its
/// own, and what follows it. An empty text has none.
pub fn split_first(text: &str) -> (parts: Option<(&str, &str)>)
    ensures
        match parts {
            None => text@.len() == 0,
            Some((first, rest)) => {
                &&& text@.len() > 0
                &&& first@ == seq![text@.first()]
                &&& rest@ == text@.drop_first()
            },
        },
{
    if text.is_empty() {
        return None;
    }
    let ghost bytes = text.spec_bytes();
    let ghost width = length_of_first_scalar(bytes);
    proof {
        encode_utf8_valid_utf8(text@);
        encode_utf8_first_scalar(text@);
        reveal_with_fuel(is_char_boundary, 2);
    }
    let mut w: usize = 1;
    while !text.is_char_boundary(w)
        invariant
            bytes == text.spec_bytes(),
            valid_utf8(bytes),
            valid_first_scalar(bytes),
            width == length_of_first_scalar(bytes),
            1 <= w <= width <= 4,
            width <= bytes.len(),
        decreases width - w,
    {
        proof {
            reveal_with_fuel(is_char_boundary, 2);
        }
        w = w + 1;
    }
    proof {
        reveal_with_fuel(is_char_boundary, 2);
        assert(w == width);
    }
    let parts = text.split_at(w);
    proof {
        let head = bytes.subrange(0, width);
        let tail = bytes.subrange(width, bytes.len() as int);
        valid_utf8_split(bytes, width);
        decode_utf8_split(bytes, width);
        encode_utf8_decode_utf8(text@);
        encode_utf8_decode_utf8(parts.0@);
        encode_utf8_decode_utf8(parts.1@);
        assert(pop_first_scalar(head) =~= Seq::<u8>::empty());
        assert(decode_utf8(head).len() == 1) by {
            reveal_with_fuel(decode_utf8, 2);
            reveal_with_fuel(valid_utf8, 2);
        }
        assert(text@ =~= decode_utf8(head) + decode_utf8(tail));
        assert(parts.0@ =~= seq![text@.first()]);
        assert(parts.1@ =~= text@.drop_first());
    }
    Some(parts)
}

} // verus!
