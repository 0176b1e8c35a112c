//! Decimal notation and character-level string utilities: formatting numbers
//! into request paths and filters, and parsing the numeric fields that the
//! service delivers as strings.

use vstd::prelude::*;

verus! {

/// The character for a single decimal digit value.
pub open spec fn dec_digit_char(d: int) -> char {
    if d == 0 {
        '0'
    } else if d == 1 {
        '1'
    } else if d == 2 {
        '2'
    } else if d == 3 {
        '3'
    } else if d == 4 {
        '4'
    } else if d == 5 {
        '5'
    } else if d == 6 {
        '6'
    } else if d == 7 {
        '7'
    } else if d == 8 {
        '8'
    } else {
        '9'
    }
}

/// Decimal notation of a natural number, most significant digit first,
/// without leading zeros.
pub open spec fn dec_str_nat(n: nat) -> Seq<char>
    decreases n,
{
    if n < 10 {
        seq![dec_digit_char(n as int)]
    } else {
        dec_str_nat(n / 10) + seq![dec_digit_char((n % 10) as int)]
    }
}

/// Decimal notation of a signed number: a minus sign followed by the
/// magnitude, or the bare magnitude.
pub open spec fn dec_str_i64(n: int) -> Seq<char> {
    if n < 0 {
        seq!['-'] + dec_str_nat((-n) as nat)
    } else {
        dec_str_nat(n as nat)
    }
}

fn digit_str(d: u64) -> (s: &'static str)
    requires
        d < 10,
    ensures
        s@ == seq![dec_digit_char(d as int)],
{
    proof {
        reveal_strlit("0");
        reveal_strlit("1");
        reveal_strlit("2");
        reveal_strlit("3");
        reveal_strlit("4");
        reveal_strlit("5");
        reveal_strlit("6");
        reveal_strlit("7");
        reveal_strlit("8");
        reveal_strlit("9");
        assert("0"@ =~= seq![dec_digit_char(0)]);
        assert("1"@ =~= seq![dec_digit_char(1)]);
        assert("2"@ =~= seq![dec_digit_char(2)]);
        assert("3"@ =~= seq![dec_digit_char(3)]);
        assert("4"@ =~= seq![dec_digit_char(4)]);
        assert("5"@ =~= seq![dec_digit_char(5)]);
        assert("6"@ =~= seq![dec_digit_char(6)]);
        assert("7"@ =~= seq![dec_digit_char(7)]);
        assert("8"@ =~= seq![dec_digit_char(8)]);
        assert("9"@ =~= seq![dec_digit_char(9)]);
    }
    match d {
        0 => "0",
        1 => "1",
        2 => "2",
        3 => "3",
        4 => "4",
        5 => "5",
        6 => "6",
        7 => "7",
        8 => "8",
        _ => "9",
    }
}

/// Decimal rendering of an unsigned number.
pub fn u64_to_string(n: u64) -> (s: String)
    ensures
        s@ == dec_str_nat(n as nat),
    decreases n,
{
    let d = n % 10;
    if n < 10 {
        let s = String::from_str(digit_str(d));
        s
    } else {
        let mut s = u64_to_string(n / 10);
        s.append(digit_str(d));
        s
    }
}

/// Decimal rendering of a signed number.
pub fn i64_to_string(n: i64) -> (s: String)
    ensures
        s@ == dec_str_i64(n as int),
{
    if n < 0 {
        let mag: u64 = if n == i64::MIN {
            9223372036854775808u64
        } else {
            (-n) as u64
        };
        proof {
            reveal_strlit("-");
            assert("-"@ =~= seq!['-']);
        }
        let mut s = String::from_str("-");
        let digits = u64_to_string(mag);
        s.append(digits.as_str());
        s
    } else {
        u64_to_string(n as u64)
    }
}

/// The characters of a string, in order.
pub fn str_chars(s: &str) -> (v: Vec<char>)
    ensures
        v@ == s@,
{
    let n = s.unicode_len();
    let mut v: Vec<char> = Vec::new();
    let mut i: usize = 0;
    while i < n
        invariant
            i <= n,
            n == s@.len(),
            v@ == s@.subrange(0, i as int),
        decreases n - i,
    {
        v.push(s.get_char(i));
        i = i + 1;
        proof {
            assert(v@ =~= s@.subrange(0, i as int));
        }
    }
    proof {
        assert(s@.subrange(0, n as int) =~= s@);
    }
    v
}

/// Whether the first character equals the second once ASCII uppercase is
/// folded to lowercase.
pub open spec fn char_lowers_to(a: char, b: char) -> bool {
    if ('A' as u32) <= (a as u32) && (a as u32) <= ('Z' as u32) {
        (a as u32) + 32 == (b as u32)
    } else {
        (a as u32) == (b as u32)
    }
}

/// Whether a string equals a lowercase target once its ASCII uppercase
/// characters are folded to lowercase.
pub open spec fn matches_lowercase(s: Seq<char>, t: Seq<char>) -> bool {
    s.len() == t.len() && (forall|i: int| 0 <= i < s.len() ==> char_lowers_to(s[i], t[i]))
}

/// Whether a string equals a lowercase target up to ASCII case.
pub fn eq_lowercased(s: &str, t: &str) -> (r: bool)
    ensures
        r == matches_lowercase(s@, t@),
{
    let n = s.unicode_len();
    if n != t.unicode_len() {
        return false;
    }
    let mut i: usize = 0;
    while i < n
        invariant
            i <= n,
            n == s@.len(),
            n == t@.len(),
            forall|j: int| 0 <= j < i ==> char_lowers_to(s@[j], t@[j]),
        decreases n - i,
    {
        let a = s.get_char(i) as u32;
        let b = t.get_char(i) as u32;
        let folded: u32 = if 'A' as u32 <= a && a <= 'Z' as u32 {
            a + 32
        } else {
            a
        };
        if folded != b {
            proof {
                assert(!char_lowers_to(s@[i as int], t@[i as int]));
            }
            return false;
        }
        i = i + 1;
    }
    true
}

/// The boolean a string denotes after ASCII lowercasing, as
/// `bool::from_str` reads it: exactly `true` or `false`.
pub open spec fn parsed_bool(s: Seq<char>) -> Option<bool> {
    if matches_lowercase(s, "true"@) {
        Some(true)
    } else if matches_lowercase(s, "false"@) {
        Some(false)
    } else {
        None
    }
}

/// Parses a boolean that the service delivers as a string in any ASCII
/// case.
pub fn parse_bool_str(s: &str) -> (r: Option<bool>)
    ensures
        r == parsed_bool(s@),
{
    if eq_lowercased(s, "true") {
        Some(true)
    } else if eq_lowercased(s, "false") {
        Some(false)
    } else {
        None
    }
}

/// Whether a character is an ASCII decimal digit.
pub open spec fn is_dec_digit(c: char) -> bool {
    ('0' as u32) <= (c as u32) && (c as u32) <= ('9' as u32)
}

/// The numeric value of an ASCII decimal digit (zero for anything else).
pub open spec fn dec_digit_val(c: char) -> nat {
    if is_dec_digit(c) {
        ((c as u32) - ('0' as u32)) as nat
    } else {
        0
    }
}

/// Whether every character of a sequence is an ASCII decimal digit.
pub open spec fn all_dec_digits(s: Seq<char>) -> bool {
    forall|i: int| 0 <= i < s.len() ==> is_dec_digit(s[i])
}

/// The value of a sequence of decimal digits, most significant first.
pub open spec fn dec_val(s: Seq<char>) -> nat
    decreases s.len(),
{
    if s.len() == 0 {
        0
    } else {
        dec_val(s.drop_last()) * 10 + dec_digit_val(s.last())
    }
}

/// The number a string denotes under the rules of `i64::from_str`: an
/// optional sign, then one or more decimal digits, rejected when the value
/// falls outside the `i64` range.
pub open spec fn parsed_i64(s: Seq<char>) -> Option<i64> {
    if s.len() == 0 {
        None
    } else {
        let neg = s[0] == '-';
        let digits = if s[0] == '-' || s[0] == '+' {
            s.skip(1)
        } else {
            s
        };
        if digits.len() == 0 || !all_dec_digits(digits) {
            None
        } else {
            let sv = if neg {
                -(dec_val(digits) as int)
            } else {
                dec_val(digits) as int
            };
            if i64::MIN <= sv <= i64::MAX {
                Some(sv as i64)
            } else {
                None
            }
        }
    }
}

/// Parses signed decimal notation, as `i64::from_str` does.
pub fn parse_i64_chars(v: &Vec<char>) -> (r: Option<i64>)
    ensures
        r == parsed_i64(v@),
{
    if v.len() == 0 {
        return None;
    }
    let first = v[0];
    let neg = first == '-';
    let start: usize = if first == '-' || first == '+' {
        1
    } else {
        0
    };
    if v.len() == start {
        return None;
    }
    let ghost digits = v@.skip(start as int);
    proof {
        assert(v@.skip(0) =~= v@);
    }
    // Magnitude, capped at 2^64 so that overflow of the true value is
    // still detected after the loop.
    let cap: u128 = 0x1_0000_0000_0000_0000;
    let mut acc: u128 = 0;
    let mut j: usize = start;
    while j < v.len()
        invariant
            start <= j <= v@.len(),
            digits == v@.skip(start as int),
            start < v@.len(),
            start == if v@[0] == '-' || v@[0] == '+' {
                1usize
            } else {
                0usize
            },
            neg == (v@[0] == '-'),
            digits == if v@[0] == '-' || v@[0] == '+' {
                v@.skip(1)
            } else {
                v@
            },
            cap == 0x1_0000_0000_0000_0000u128,
            all_dec_digits(v@.subrange(start as int, j as int)),
            acc == if dec_val(v@.subrange(start as int, j as int)) >= cap {
                cap as nat
            } else {
                dec_val(v@.subrange(start as int, j as int))
            },
        decreases v@.len() - j,
    {
        let c = v[j];
        let u = c as u32;
        if u < '0' as u32 || u > '9' as u32 {
            proof {
                let k = j - start;
                assert(digits[k as int] == v@[j as int]);
                assert(!is_dec_digit(v@[j as int]));
                assert(!all_dec_digits(digits));
            }
            return None;
        }
        let d: u128 = (u - '0' as u32) as u128;
        proof {
            assert(v@.subrange(start as int, j + 1 as int).drop_last() =~= v@.subrange(
                start as int,
                j as int,
            ));
        }
        acc = if acc >= cap {
            cap
        } else if acc * 10 + d >= cap {
            cap
        } else {
            acc * 10 + d
        };
        j = j + 1;
    }
    proof {
        assert(v@.subrange(start as int, v@.len() as int) =~= digits);
        assert(all_dec_digits(digits));
        assert(acc == if dec_val(digits) >= cap {
            cap as nat
        } else {
            dec_val(digits)
        });
    }
    if neg {
        if acc <= 0x8000_0000_0000_0000u128 {
            if acc == 0x8000_0000_0000_0000u128 {
                Some(i64::MIN)
            } else {
                Some(-(acc as i64))
            }
        } else {
            None
        }
    } else {
        if acc <= i64::MAX as u128 {
            Some(acc as i64)
        } else {
            None
        }
    }
}

/// Parses signed decimal notation from a string.
pub fn parse_i64_str(s: &str) -> (r: Option<i64>)
    ensures
        r == parsed_i64(s@),
{
    let v = str_chars(s);
    parse_i64_chars(&v)
}

/// The sequence with every leftmost, non-overlapping occurrence of a
/// pattern removed, as `str::replace` with an empty replacement leaves it.
pub open spec fn remove_all(s: Seq<char>, p: Seq<char>) -> Seq<char>
    decreases s.len(),
{
    if p.len() == 0 || s.len() < p.len() {
        s
    } else if s.subrange(0, p.len() as int) == p {
        remove_all(s.skip(p.len() as int), p)
    } else {
        seq![s[0]] + remove_all(s.skip(1), p)
    }
}

/// Whether the pattern occurs in the text at the given position.
fn has_prefix_at(v: &Vec<char>, i: usize, p: &Vec<char>) -> (r: bool)
    requires
        i <= v@.len(),
    ensures
        r == (i + p@.len() <= v@.len() && v@.subrange(i as int, i + p@.len()) == p@),
{
    let vlen = v.len();
    let plen = p.len();
    if plen > vlen - i {
        return false;
    }
    let mut k: usize = 0;
    while k < plen
        invariant
            k <= plen,
            plen == p@.len(),
            vlen == v@.len(),
            i + plen <= vlen,
            forall|m: int| 0 <= m < k ==> v@[i + m] == p@[m],
        decreases plen - k,
    {
        if v[i + k] != p[k] {
            proof {
                assert(v@.subrange(i as int, i + p@.len())[k as int] != p@[k as int]);
            }
            return false;
        }
        k = k + 1;
    }
    proof {
        assert(v@.subrange(i as int, i + p@.len()) =~= p@);
    }
    true
}

/// Removes every leftmost, non-overlapping occurrence of a pattern.
pub fn remove_all_chars(v: &Vec<char>, p: &Vec<char>) -> (out: Vec<char>)
    requires
        p@.len() > 0,
    ensures
        out@ == remove_all(v@, p@),
{
    let mut out: Vec<char> = Vec::new();
    let mut i: usize = 0;
    proof {
        assert(v@.skip(0) =~= v@);
        assert(Seq::<char>::empty() + remove_all(v@, p@) =~= remove_all(v@, p@));
    }
    while i < v.len()
        invariant
            i <= v@.len(),
            p@.len() > 0,
            remove_all(v@, p@) == out@ + remove_all(v@.skip(i as int), p@),
        decreases v@.len() - i,
    {
        if has_prefix_at(v, i, p) {
            proof {
                assert(v@.skip(i as int).subrange(0, p@.len() as int) =~= v@.subrange(
                    i as int,
                    i + p@.len(),
                ));
                assert(v@.skip(i as int).skip(p@.len() as int) =~= v@.skip(i + p@.len()));
            }
            i = i + p.len();
        } else {
            proof {
                let rest = v@.skip(i as int);
                assert(rest.skip(1) =~= v@.skip(i + 1));
                if rest.len() >= p@.len() {
                    assert(rest.subrange(0, p@.len() as int) =~= v@.subrange(
                        i as int,
                        i + p@.len(),
                    ));
                    assert(remove_all(rest, p@) == seq![rest[0]] + remove_all(
                        rest.skip(1),
                        p@,
                    ));
                } else {
                    assert(remove_all(rest, p@) == rest);
                    assert(remove_all(rest.skip(1), p@) == rest.skip(1));
                    assert(rest =~= seq![rest[0]] + rest.skip(1));
                }
                assert(out@ + remove_all(v@.skip(i as int), p@) =~= (out@ + seq![v@[i as int]])
                    + remove_all(v@.skip(i + 1), p@));
            }
            out.push(v[i]);
            i = i + 1;
        }
    }
    proof {
        assert(v@.skip(i as int).len() == 0);
        assert(v@.skip(i as int) =~= Seq::<char>::empty());
        assert(out@ + remove_all(v@.skip(i as int), p@) =~= out@);
    }
    out
}

/// Whether a character occurs in a sequence.
pub open spec fn seq_contains_char(s: Seq<char>, c: char) -> bool {
    exists|i: int| 0 <= i < s.len() && s[i] == c
}

/// Whether a character occurs in a string.
pub fn str_contains_char(s: &str, c: char) -> (r: bool)
    ensures
        r == seq_contains_char(s@, c),
{
    let n = s.unicode_len();
    let mut i: usize = 0;
    while i < n
        invariant
            i <= n,
            n == s@.len(),
            forall|j: int| 0 <= j < i ==> s@[j] != c,
        decreases n - i,
    {
        if s.get_char(i) == c {
            return true;
        }
        i = i + 1;
    }
    false
}

} // verus!
