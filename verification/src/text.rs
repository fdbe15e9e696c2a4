//! Verified text utilities: decimal rendering of integers, digit-string
//! parsing, and plain string comparison.
//!
//! The wire formats this crate produces embed integers as decimal text (SQL
//! fragments, vendor refund identifiers, vendor error codes), so the decimal
//! encoding is specified and proved here once.

use vstd::prelude::*;

verus! {

/// The decimal digit character for a value below ten.
pub open spec fn spec_digit_char(d: nat) -> char {
    if d == 0 {
        '0'
    } else if d == 1 {
        '1'
    } else if d == 2 {
        '2'
    } else if d == 3 {
        '3'
    } else if d == 4 {
        '4'
    } else if d == 5 {
        '5'
    } else if d == 6 {
        '6'
    } else if d == 7 {
        '7'
    } else if d == 8 {
        '8'
    } else {
        '9'
    }
}

/// The canonical decimal rendering of a natural number (no leading zeros,
/// except that zero itself renders as "0").
pub open spec fn spec_udec(n: nat) -> Seq<char>
    decreases n,
{
    if n < 10 {
        seq![spec_digit_char(n)]
    } else {
        spec_udec(n / 10) + seq![spec_digit_char(n % 10)]
    }
}

/// The canonical decimal rendering of an integer: a leading '-' for
/// negative values, then the rendering of the magnitude.
pub open spec fn spec_idec(n: int) -> Seq<char> {
    if n < 0 {
        seq!['-'] + spec_udec((-n) as nat)
    } else {
        spec_udec(n as nat)
    }
}

/// Returns the one-character string for a decimal digit.
fn digit_str(d: u8) -> (r: &'static str)
    requires
        d < 10,
    ensures
        r@ =~= seq![spec_digit_char(d as nat)],
{
    proof {
        reveal_strlit("0");
        reveal_strlit("1");
        reveal_strlit("2");
        reveal_strlit("3");
        reveal_strlit("4");
        reveal_strlit("5");
        reveal_strlit("6");
        reveal_strlit("7");
        reveal_strlit("8");
        reveal_strlit("9");
    }
    match d {
        0 => "0",
        1 => "1",
        2 => "2",
        3 => "3",
        4 => "4",
        5 => "5",
        6 => "6",
        7 => "7",
        8 => "8",
        _ => "9",
    }
}

/// The reversed digit sequence held in `v` (`v` stores low-order digits
/// first), read back in rendering order.
spec fn digits_rev(v: Seq<u8>) -> Seq<char> {
    Seq::new(v.len(), |i: int| spec_digit_char(v[v.len() - 1 - i] as nat))
}

/// Renders an unsigned 64-bit integer as decimal text.
pub fn u64_to_string(n: u64) -> (r: String)
    ensures
        r@ == spec_udec(n as nat),
{
    let mut digits: Vec<u8> = Vec::new();
    let mut m: u64 = n;
    if m == 0 {
        let mut s = String::new();
        s.append(digit_str(0));
        proof {
            assert(s@ =~= spec_udec(0));
        }
        return s;
    }
    while m > 0
        invariant
            forall|j: int| 0 <= j < digits@.len() ==> digits@[j] < 10,
            m > 0 ==> spec_udec(n as nat) =~= spec_udec(m as nat) + digits_rev(digits@),
            m == 0 ==> spec_udec(n as nat) =~= digits_rev(digits@),
        decreases m,
    {
        let ghost old_digits = digits@;
        let d: u8 = (m % 10) as u8;
        digits.push(d);
        proof {
            assert(digits_rev(digits@) =~= seq![spec_digit_char(d as nat)] + digits_rev(
                old_digits,
            ));
            if m >= 10 {
                assert(spec_udec(m as nat) == spec_udec((m as nat) / 10) + seq![
                    spec_digit_char((m as nat) % 10),
                ]);
                assert(spec_udec(m as nat) + digits_rev(old_digits) =~= spec_udec((m / 10) as nat)
                    + digits_rev(digits@));
            } else {
                assert(spec_udec(m as nat) =~= seq![spec_digit_char(d as nat)]);
                assert(spec_udec(m as nat) + digits_rev(old_digits) =~= digits_rev(digits@));
            }
        }
        m = m / 10;
    }
    let mut s = String::new();
    let mut i: usize = digits.len();
    while i > 0
        invariant
            i <= digits.len(),
            forall|j: int| 0 <= j < digits@.len() ==> digits@[j] < 10,
            s@ =~= digits_rev(digits@).subrange(0, digits.len() - i),
            spec_udec(n as nat) =~= digits_rev(digits@),
        decreases i,
    {
        i = i - 1;
        let d = digits[i];
        s.append(digit_str(d));
        proof {
            assert(digits_rev(digits@)[digits@.len() - 1 - i as int] == spec_digit_char(d as nat));
            assert(s@ =~= digits_rev(digits@).subrange(0, digits.len() - i as int));
        }
    }
    proof {
        assert(s@ =~= digits_rev(digits@));
    }
    s
}

/// Renders a signed 64-bit integer as decimal text with an optional sign.
pub fn i64_to_string(n: i64) -> (r: String)
    ensures
        r@ == spec_idec(n as int),
{
    if n >= 0 {
        u64_to_string(n as u64)
    } else {
        proof {
            reveal_strlit("-");
        }
        let mag: u64 = if n == i64::MIN {
            9223372036854775808u64
        } else {
            (-n) as u64
        };
        let mut s = String::new();
        s.append("-");
        let digits = u64_to_string(mag);
        s.append(digits.as_str());
        proof {
            assert(s@ =~= spec_idec(n as int));
        }
        s
    }
}

/// Renders a signed 32-bit integer as decimal text.
pub fn i32_to_string(n: i32) -> (r: String)
    ensures
        r@ == spec_idec(n as int),
{
    i64_to_string(n as i64)
}

/// Renders an unsigned 8-bit integer as decimal text.
pub fn u8_to_string(n: u8) -> (r: String)
    ensures
        r@ == spec_udec(n as nat),
{
    u64_to_string(n as u64)
}

/// Whether `c` is a decimal digit character.
pub open spec fn spec_is_digit(c: char) -> bool {
    48 <= c as u32 <= 57
}

/// Whether every character of `s` is a decimal digit.
pub open spec fn spec_all_digits(s: Seq<char>) -> bool {
    forall|i: int| 0 <= i < s.len() ==> spec_is_digit(#[trigger] s[i])
}

/// The numeric value of a digit string, read most significant first.
pub open spec fn spec_digits_value(s: Seq<char>) -> nat
    decreases s.len(),
{
    if s.len() == 0 {
        0
    } else {
        spec_digits_value(s.drop_last()) * 10 + (s.last() as u32 - 48) as nat
    }
}

/// A digit string's value only grows as more digits are appended.
proof fn lemma_digits_value_prefix_le(s: Seq<char>, n: int)
    requires
        0 <= n <= s.len(),
    ensures
        spec_digits_value(s.subrange(0, n)) <= spec_digits_value(s),
    decreases s.len() - n,
{
    if n == s.len() {
        assert(s.subrange(0, n) =~= s);
    } else {
        lemma_digits_value_prefix_le(s, n + 1);
        let t = s.subrange(0, n + 1);
        assert(t.drop_last() =~= s.subrange(0, n));
        assert(spec_digits_value(s.subrange(0, n)) <= spec_digits_value(t));
    }
}

/// The value of a digit string, when it is non-empty, all digits, and fits
/// in an `i32`; otherwise zero. This is the lenient parse the card-expiry
/// encoding uses.
pub open spec fn spec_parse_i32_or_zero(s: Seq<char>) -> i32 {
    if s.len() > 0 && spec_all_digits(s) && spec_digits_value(s) <= i32::MAX {
        spec_digits_value(s) as i32
    } else {
        0
    }
}

/// Parses a string of decimal digits into an `i32`, yielding zero when the
/// string is empty, holds a non-digit, or overflows.
pub fn parse_i32_digits_or_zero(s: &str) -> (r: i32)
    ensures
        r == spec_parse_i32_or_zero(s@),
{
    let n = s.unicode_len();
    let mut acc: u64 = 0;
    let mut i: usize = 0;
    while i < n
        invariant
            n == s@.len(),
            0 <= i <= n,
            spec_all_digits(s@.subrange(0, i as int)),
            acc == spec_digits_value(s@.subrange(0, i as int)),
            acc <= i32::MAX,
        decreases n - i,
    {
        let c = s.get_char(i);
        let u = c as u32;
        if u < 48 || u > 57 {
            assert(!spec_is_digit(s@[i as int]));
            return 0;
        }
        let d: u64 = (u - 48) as u64;
        let next: u64 = acc * 10 + d;
        proof {
            let t = s@.subrange(0, i + 1);
            assert(t.drop_last() =~= s@.subrange(0, i as int));
            assert(t.last() == s@[i as int]);
            assert(spec_digits_value(t) == acc * 10 + d);
        }
        if next > 2147483647u64 {
            proof {
                lemma_digits_value_prefix_le(s@, i + 1);
                assert(s@.subrange(0, s@.len() as int) =~= s@);
            }
            return 0;
        }
        acc = next;
        i = i + 1;
    }
    proof {
        assert(s@.subrange(0, n as int) =~= s@);
    }
    if n == 0 {
        0
    } else {
        acc as i32
    }
}

/// Whether two strings hold the same characters.
pub fn str_eq(a: &str, b: &str) -> (r: bool)
    ensures
        r == (a@ == b@),
{
    let na = a.unicode_len();
    let nb = b.unicode_len();
    if na != nb {
        return false;
    }
    let mut i: usize = 0;
    while i < na
        invariant
            na == a@.len(),
            nb == b@.len(),
            na == nb,
            0 <= i <= na,
            forall|j: int| 0 <= j < i ==> a@[j] == b@[j],
        decreases na - i,
    {
        if a.get_char(i) != b.get_char(i) {
            return false;
        }
        i = i + 1;
    }
    proof {
        assert(a@ =~= b@);
    }
    true
}

/// The final `n` characters of `s`, or all of `s` when it is shorter.
pub open spec fn spec_suffix_chars(s: Seq<char>, n: int) -> Seq<char> {
    if s.len() <= n {
        s
    } else {
        s.subrange(s.len() - n, s.len() as int)
    }
}

/// Returns the final two characters of `s`, or `s` itself when shorter.
/// Vendor card-expiry encoding keeps only the final two digits of a year.
pub fn last_two_chars(s: &str) -> (r: &str)
    ensures
        r@ == spec_suffix_chars(s@, 2),
{
    let n = s.unicode_len();
    if n <= 2 {
        s
    } else {
        s.substring_char(n - 2, n)
    }
}

} // verus!
