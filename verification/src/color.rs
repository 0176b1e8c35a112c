//! Hold-set colors, delivered by the service as `#RRGGBB` strings and held
//! here as plain byte triples.

use vstd::prelude::*;

verus! {

/// An RGB color with one byte per channel.
#[derive(PartialEq, Eq, Structural, Clone, Copy, Debug)]
pub struct Rgb {
    pub r: u8,
    pub g: u8,
    pub b: u8,
}

/// Whether a character is an ASCII hexadecimal digit.
pub open spec fn is_hex_digit(c: char) -> bool {
    (('0' as u32) <= (c as u32) && (c as u32) <= ('9' as u32)) || (('a' as u32) <= (c as u32) && (c
        as u32) <= ('f' as u32)) || (('A' as u32) <= (c as u32) && (c as u32) <= ('F' as u32))
}

/// The numeric value of an ASCII hexadecimal digit (zero for anything else).
pub open spec fn hex_digit_val(c: char) -> nat {
    if ('0' as u32) <= (c as u32) && (c as u32) <= ('9' as u32) {
        ((c as u32) - ('0' as u32)) as nat
    } else if ('a' as u32) <= (c as u32) && (c as u32) <= ('f' as u32) {
        ((c as u32) - ('a' as u32) + 10) as nat
    } else if ('A' as u32) <= (c as u32) && (c as u32) <= ('F' as u32) {
        ((c as u32) - ('A' as u32) + 10) as nat
    } else {
        0
    }
}

/// The byte a string denotes under the rules of `u8::from_str_radix` with
/// radix sixteen: an optional sign, then one or more hexadecimal digits,
/// rejected when the value falls outside the `u8` range (so a minus sign is
/// accepted only in front of zero).
pub open spec fn hex_byte(s: Seq<char>) -> Option<u8> {
    if s.len() == 0 {
        None
    } else {
        let neg = s[0] == '-';
        let digits = if s[0] == '-' || s[0] == '+' {
            s.skip(1)
        } else {
            s
        };
        if digits.len() == 0 || !all_hex_digits(digits) {
            None
        } else {
            let v = hex_seq_val(digits);
            if neg && v != 0 {
                None
            } else if v > 255 {
                None
            } else {
                Some(v as u8)
            }
        }
    }
}

/// Whether every character of a sequence is an ASCII hexadecimal digit.
pub open spec fn all_hex_digits(s: Seq<char>) -> bool {
    forall|i: int| 0 <= i < s.len() ==> is_hex_digit(s[i])
}

/// The value of a sequence of hexadecimal digits, most significant first.
pub open spec fn hex_seq_val(s: Seq<char>) -> nat
    decreases s.len(),
{
    if s.len() == 0 {
        0
    } else {
        hex_seq_val(s.drop_last()) * 16 + hex_digit_val(s.last())
    }
}

fn hex_digit_value(c: char) -> (r: Option<u8>)
    ensures
        r == if is_hex_digit(c) {
            Some(hex_digit_val(c) as u8)
        } else {
            None::<u8>
        },
{
    let u = c as u32;
    if '0' as u32 <= u && u <= '9' as u32 {
        Some((u - '0' as u32) as u8)
    } else if 'a' as u32 <= u && u <= 'f' as u32 {
        Some((u - 'a' as u32 + 10) as u8)
    } else if 'A' as u32 <= u && u <= 'F' as u32 {
        Some((u - 'A' as u32 + 10) as u8)
    } else {
        None
    }
}

/// The byte denoted by a two-character group, as `u8::from_str_radix` with
/// radix sixteen reads it.
fn hex_pair(c0: char, c1: char) -> (r: Option<u8>)
    ensures
        r == hex_byte(seq![c0, c1]),
{
    proof {
        let s = seq![c0, c1];
        assert(s.skip(1) =~= seq![c1]);
        assert(s.drop_last() =~= seq![c0]);
        assert(seq![c1].drop_last() =~= Seq::<char>::empty());
        assert(seq![c0].drop_last() =~= Seq::<char>::empty());
        assert(hex_seq_val(Seq::<char>::empty()) == 0);
        assert(hex_seq_val(seq![c1]) == hex_digit_val(c1));
        assert(hex_seq_val(seq![c0]) == hex_digit_val(c0));
        assert(hex_seq_val(s) == hex_digit_val(c0) * 16 + hex_digit_val(c1));
    }
    if c0 == '-' || c0 == '+' {
        match hex_digit_value(c1) {
            None => {
                proof {
                    assert(!is_hex_digit(seq![c1][0]));
                    assert(!all_hex_digits(seq![c1]));
                }
                None
            },
            Some(v) => {
                proof {
                    assert(forall|i: int| 0 <= i < 1 ==> is_hex_digit(seq![c1][i]));
                    assert(all_hex_digits(seq![c1]));
                }
                if c0 == '-' && v != 0 {
                    None
                } else {
                    Some(v)
                }
            },
        }
    } else {
        match (hex_digit_value(c0), hex_digit_value(c1)) {
            (Some(hi), Some(lo)) => {
                proof {
                    let s = seq![c0, c1];
                    assert(is_hex_digit(s[0]) && is_hex_digit(s[1]));
                    assert(forall|i: int| 0 <= i < 2 ==> is_hex_digit(s[i]));
                    assert(all_hex_digits(s));
                    assert(hex_digit_val(c0) <= 15 && hex_digit_val(c1) <= 15);
                }
                Some(16 * hi + lo)
            },
            (None, _) => {
                proof {
                    assert(!is_hex_digit(seq![c0, c1][0]));
                    assert(!all_hex_digits(seq![c0, c1]));
                }
                None
            },
            (_, None) => {
                proof {
                    assert(!is_hex_digit(seq![c0, c1][1]));
                    assert(!all_hex_digits(seq![c0, c1]));
                }
                None
            },
        }
    }
}

/// The color a string denotes: a hash sign followed by three two-character
/// hexadecimal groups, red then green then blue.
pub open spec fn html_color_spec(s: Seq<char>) -> Option<Rgb> {
    if s.len() == 7 && s[0] == '#' {
        match (hex_byte(s.subrange(1, 3)), hex_byte(s.subrange(3, 5)), hex_byte(
            s.subrange(5, 7),
        )) {
            (Some(r), Some(g), Some(b)) => Some(Rgb { r, g, b }),
            _ => None,
        }
    } else {
        None
    }
}

/// Parses a seven-character `#RRGGBB` color string.
pub fn parse_html_color(s: &str) -> (c: Option<Rgb>)
    ensures
        c == html_color_spec(s@),
{
    let n = s.unicode_len();
    if n != 7 {
        return None;
    }
    if s.get_char(0) != '#' {
        return None;
    }
    proof {
        assert(s@.subrange(1, 3) =~= seq![s@[1], s@[2]]);
        assert(s@.subrange(3, 5) =~= seq![s@[3], s@[4]]);
        assert(s@.subrange(5, 7) =~= seq![s@[5], s@[6]]);
    }
    let r = hex_pair(s.get_char(1), s.get_char(2));
    let g = hex_pair(s.get_char(3), s.get_char(4));
    let b = hex_pair(s.get_char(5), s.get_char(6));
    match (r, g, b) {
        (Some(r), Some(g), Some(b)) => Some(Rgb { r, g, b }),
        _ => None,
    }
}

} // verus!
