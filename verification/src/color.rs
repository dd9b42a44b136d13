use vstd::prelude::*;
use vstd::string::*;
use vstd::utf8::{is_ascii_chars, is_ascii_chars_nat_bound};
use crate::constants::DEFAULT_COLOR;

verus! {

/// Value of a hexadecimal digit, capital or small; `None` for any other character.
pub open spec fn hex_digit_value(c: char) -> Option<int> {
    if '0' <= c && c <= '9' {
        Some(c as int - '0' as int)
    } else if 'a' <= c && c <= 'f' {
        Some(c as int - 'a' as int + 10)
    } else if 'A' <= c && c <= 'F' {
        Some(c as int - 'A' as int + 10)
    } else {
        None
    }
}

/// Whether `s` has the form `#rrggbb`: a hash sign and six hexadecimal digits.
pub open spec fn is_color_string(s: Seq<char>) -> bool {
    &&& s.len() == 7
    &&& s[0] == '#'
    &&& forall|i: int| 1 <= i < 7 ==> hex_digit_value(#[trigger] s[i]).is_some()
}

/// Number that the first `n` characters of `digits` spell in base 16.
pub open spec fn hex_number(digits: Seq<char>, n: nat) -> int
    decreases n,
{
    if n == 0 {
        0
    } else {
        16 * hex_number(digits, (n - 1) as nat) + hex_digit_value(digits[n - 1]).unwrap()
    }
}

/// Packed colour that a colour string stands for: `0xRRGGBB` for `#rrggbb`,
/// and the default colour for every other string.
pub open spec fn color_of(s: Seq<char>) -> int {
    if is_color_string(s) {
        hex_number(s.subrange(1, 7), 6)
    } else {
        DEFAULT_COLOR as int
    }
}

/// Up to six hexadecimal digits spell a number below the next power of 16.
proof fn lemma_hex_number_bound(digits: Seq<char>, n: nat)
    requires
        n <= digits.len(),
        n <= 6,
        forall|i: int| 0 <= i < n ==> hex_digit_value(#[trigger] digits[i]).is_some(),
    ensures
        0 <= hex_number(digits, n),
        n == 0 ==> hex_number(digits, n) < 0x1,
        n == 1 ==> hex_number(digits, n) < 0x10,
        n == 2 ==> hex_number(digits, n) < 0x100,
        n == 3 ==> hex_number(digits, n) < 0x1000,
        n == 4 ==> hex_number(digits, n) < 0x1_0000,
        n == 5 ==> hex_number(digits, n) < 0x10_0000,
        n == 6 ==> hex_number(digits, n) < 0x100_0000,
    decreases n,
{
    if n > 0 {
        lemma_hex_number_bound(digits, (n - 1) as nat);
        assert(hex_digit_value(digits[n - 1]).is_some());
    }
}

/// Value of one byte read as a hexadecimal digit.
fn hex_digit(b: u8) -> (r: Option<u8>)
    ensures
        match r {
            Some(v) => hex_digit_value(b as char) == Some(v as int) && v < 16,
            None => hex_digit_value(b as char).is_none(),
        },
{
    if b >= ('0' as u8) && b <= ('9' as u8) {
        Some(b - ('0' as u8))
    } else if b >= ('a' as u8) && b <= ('f' as u8) {
        Some(b - ('a' as u8) + 10)
    } else if b >= ('A' as u8) && b <= ('F' as u8) {
        Some(b - ('A' as u8) + 10)
    } else {
        None
    }
}

/// Parses a colour written as `#rrggbb` into its packed value `0xRRGGBB`.
/// Any other string gives the default colour.
pub fn parse_color(color_hex: &str) -> (color: u32)
    ensures
        color == color_of(color_hex@),
{
    if !color_hex.is_ascii() {
        proof {
            lemma_non_ascii_is_no_color(color_hex@);
        }
        return DEFAULT_COLOR;
    }
    proof {
        is_ascii_spec_bytes(color_hex);
    }
    let bytes = color_hex.as_bytes();
    if bytes.len() != 7 || bytes[0] != ('#' as u8) {
        return DEFAULT_COLOR;
    }
    let ghost digits = color_hex@.subrange(1, 7);
    let mut value: u32 = 0;
    let mut i: usize = 1;
    while i < 7
        invariant
            1 <= i <= 7,
            bytes@.len() == 7,
            color_hex@.len() == 7,
            color_hex@[0] == '#',
            is_ascii(color_hex),
            bytes@ == Seq::new(color_hex@.len(), |k: int| color_hex@[k] as u8),
            digits == color_hex@.subrange(1, 7),
            forall|k: int| 1 <= k < i ==> hex_digit_value(#[trigger] color_hex@[k]).is_some(),
            value == hex_number(digits, (i - 1) as nat),
        decreases 7 - i,
    {
        let b = bytes[i];
        proof {
            is_ascii_chars_nat_bound(color_hex@);
            assert(b == color_hex@[i as int] as u8);
            assert(b as char == color_hex@[i as int]);
            assert(digits[i - 1] == color_hex@[i as int]);
            assert forall|k: int| 0 <= k < i - 1 implies hex_digit_value(
                #[trigger] digits[k],
            ).is_some() by {
                assert(digits[k] == color_hex@[k + 1]);
            }
            lemma_hex_number_bound(digits, (i - 1) as nat);
        }
        match hex_digit(b) {
            Some(v) => {
                value = value * 16 + v as u32;
            },
            None => {
                return DEFAULT_COLOR;
            },
        }
        i += 1;
    }
    value
}

/// A string with a character outside ASCII is no colour string.
proof fn lemma_non_ascii_is_no_color(s: Seq<char>)
    requires
        !is_ascii_chars(s),
    ensures
        !is_color_string(s),
{
    if is_color_string(s) {
        assert forall|i: int| 0 <= i < s.len() implies '\0' <= #[trigger] s[i] <= '\u{7f}' by {
            if i >= 1 {
                assert(hex_digit_value(s[i]).is_some());
            }
        }
    }
}

} // verus!
