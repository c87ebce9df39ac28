//! Parsing of `#RRGGBB` hex color strings into RGB triples.

use vstd::prelude::*;

verus! {

/// Is `c` an ASCII hexadecimal digit?
pub open spec fn spec_is_hex_digit(c: char) -> bool {
    ||| ('0' as int) <= (c as int) <= ('9' as int)
    ||| ('a' as int) <= (c as int) <= ('f' as int)
    ||| ('A' as int) <= (c as int) <= ('F' as int)
}

/// Numeric value of an ASCII hexadecimal digit.
pub open spec fn spec_hex_val(c: char) -> int {
    if ('0' as int) <= (c as int) <= ('9' as int) {
        c as int - ('0' as int)
    } else if ('a' as int) <= (c as int) <= ('f' as int) {
        c as int - ('a' as int) + 10
    } else if ('A' as int) <= (c as int) <= ('F' as int) {
        c as int - ('A' as int) + 10
    } else {
        0
    }
}

/// The string with every leading `#` removed.
pub open spec fn spec_strip_hash(s: Seq<char>) -> Seq<char>
    decreases s.len(),
{
    if s.len() > 0 && s[0] == '#' {
        spec_strip_hash(s.skip(1))
    } else {
        s
    }
}

/// A color string parses exactly when, after stripping leading `#`, six hex
/// digits remain; they are read as the three bytes `RRGGBB`.
pub open spec fn spec_parse_hex_color(s: Seq<char>) -> Option<(u8, u8, u8)> {
    let t = spec_strip_hash(s);
    if t.len() == 6 && (forall|j: int| 0 <= j < 6 ==> spec_is_hex_digit(#[trigger] t[j])) {
        Some(
            (
                (spec_hex_val(t[0]) * 16 + spec_hex_val(t[1])) as u8,
                (spec_hex_val(t[2]) * 16 + spec_hex_val(t[3])) as u8,
                (spec_hex_val(t[4]) * 16 + spec_hex_val(t[5])) as u8,
            ),
        )
    } else {
        None
    }
}

proof fn lemma_strip_hash_skip(s: Seq<char>, i: int)
    requires
        0 <= i <= s.len(),
        forall|j: int| 0 <= j < i ==> s[j] == '#',
        i == s.len() || s[i] != '#',
    ensures
        spec_strip_hash(s) == s.skip(i),
    decreases i,
{
    if i == 0 {
        assert(s.skip(0) =~= s);
    } else {
        assert(s[0] == '#');
        lemma_strip_hash_skip(s.skip(1), i - 1);
        assert(s.skip(1).skip(i - 1) =~= s.skip(i));
    }
}

fn hex_digit_val(c: char) -> (r: Option<u8>)
    ensures
        r is Some <==> spec_is_hex_digit(c),
        r matches Some(v) ==> v as int == spec_hex_val(c) && v < 16,
{
    let v = c as u32;
    if v >= '0' as u32 && v <= '9' as u32 {
        Some((v - '0' as u32) as u8)
    } else if v >= 'a' as u32 && v <= 'f' as u32 {
        Some((v - 'a' as u32 + 10) as u8)
    } else if v >= 'A' as u32 && v <= 'F' as u32 {
        Some((v - 'A' as u32 + 10) as u8)
    } else {
        None
    }
}

/// Parse a hex color string such as `#FF5733` or `FF5733` into its RGB bytes;
/// any other shape (wrong length, non-hex characters) yields `None`.
pub fn parse_hex_color(hex: &str) -> (r: Option<(u8, u8, u8)>)
    ensures
        r == spec_parse_hex_color(hex@),
{
    let n = hex.unicode_len();
    let mut i: usize = 0;
    while i < n && hex.get_char(i) == '#'
        invariant
            n == hex@.len(),
            0 <= i <= n,
            forall|j: int| 0 <= j < i ==> hex@[j] == '#',
        decreases n - i,
    {
        i = i + 1;
    }
    proof {
        lemma_strip_hash_skip(hex@, i as int);
    }
    if n - i != 6 {
        return None;
    }
    let v0 = hex_digit_val(hex.get_char(i));
    let v1 = hex_digit_val(hex.get_char(i + 1));
    let v2 = hex_digit_val(hex.get_char(i + 2));
    let v3 = hex_digit_val(hex.get_char(i + 3));
    let v4 = hex_digit_val(hex.get_char(i + 4));
    let v5 = hex_digit_val(hex.get_char(i + 5));
    if let (Some(a0), Some(a1), Some(a2), Some(a3), Some(a4), Some(a5)) = (v0, v1, v2, v3, v4, v5) {
        Some((a0 * 16 + a1, a2 * 16 + a3, a4 * 16 + a5))
    } else {
        None
    }
}

} // verus!
