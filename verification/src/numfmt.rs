//! Decimal rendering of integers and the short human-readable duration
//! format used by the status and debug views.

use vstd::prelude::*;

verus! {

/// The character for one decimal digit.
pub open spec fn spec_digit_char(d: int) -> char {
    ((48 + d) as u8) as char
}

/// Decimal digits of a non-negative integer, most significant first
/// (empty for zero).
pub open spec fn spec_dec_digits(n: int) -> Seq<char>
    decreases n,
{
    if n <= 0 {
        seq![]
    } else {
        spec_dec_digits(n / 10) + seq![spec_digit_char(n % 10)]
    }
}

/// Decimal rendering of an integer, `'-'`-prefixed when negative.
pub open spec fn spec_dec_str(n: int) -> Seq<char> {
    if n == 0 {
        seq!['0']
    } else if n < 0 {
        seq!['-'] + spec_dec_digits(-n)
    } else {
        spec_dec_digits(n)
    }
}

/// Seconds rendered as a short duration: `"42s"`, `"3m 5s"`, `"2h 10m"`
/// or `"4d 7h"`.
pub open spec fn spec_format_duration(seconds: int) -> Seq<char> {
    if seconds < 60 {
        spec_dec_str(seconds) + "s"@
    } else if seconds < 3600 {
        spec_dec_str(seconds / 60) + "m "@ + spec_dec_str(seconds % 60) + "s"@
    } else if seconds < 86400 {
        spec_dec_str(seconds / 3600) + "h "@ + spec_dec_str((seconds % 3600) / 60) + "m"@
    } else {
        spec_dec_str(seconds / 86400) + "d "@ + spec_dec_str((seconds % 86400) / 3600) + "h"@
    }
}

/// Decimal digits of `n`, least significant last, as characters.
fn dec_digits_of(n: u64) -> (r: Vec<char>)
    ensures
        r@ == spec_dec_digits(n as int),
{
    let mut digits: Vec<char> = Vec::new();
    let mut m = n;
    while m > 0
        invariant
            spec_dec_digits(n as int) == spec_dec_digits(m as int) + digits@,
        decreases m,
    {
        let d: u8 = (m % 10) as u8;
        let c: char = (48 + d) as char;
        assert(c == spec_digit_char(m as int % 10));
        let ghost prev = digits@;
        digits.insert(0, c);
        proof {
            assert(digits@ =~= seq![c] + prev);
            assert(spec_dec_digits(m as int) == spec_dec_digits(m as int / 10) + seq![
                spec_digit_char(m as int % 10),
            ]);
            assert(spec_dec_digits(m as int / 10) + (seq![c] + prev) =~= spec_dec_digits(m as int)
                + prev);
        }
        m = m / 10;
    }
    digits
}

/// The decimal rendering of an unsigned integer.
pub fn u64_to_string(n: u64) -> (r: String)
    ensures
        r@ == spec_dec_str(n as int),
{
    let mut r = String::new();
    if n == 0 {
        crate::bridge::string_push(&mut r, '0');
        return r;
    }
    let digits = dec_digits_of(n);
    let mut i: usize = 0;
    while i < digits.len()
        invariant
            r@ == digits@.take(i as int),
            i <= digits@.len(),
        decreases digits@.len() - i,
    {
        crate::bridge::string_push(&mut r, digits[i]);
        assert(digits@.take(i as int).push(digits@[i as int]) =~= digits@.take(i + 1));
        i = i + 1;
    }
    assert(digits@.take(digits@.len() as int) =~= digits@);
    r
}

/// The decimal rendering of a signed integer.
pub fn i64_to_string(n: i64) -> (r: String)
    ensures
        r@ == spec_dec_str(n as int),
{
    if n >= 0 {
        u64_to_string(n as u64)
    } else {
        let mag: u64 = if n == i64::MIN {
            9223372036854775808u64
        } else {
            (-n) as u64
        };
        assert(mag as int == -(n as int));
        let mut r = String::new();
        crate::bridge::string_push(&mut r, '-');
        let digits = dec_digits_of(mag);
        let mut i: usize = 0;
        while i < digits.len()
            invariant
                r@ == seq!['-'] + digits@.take(i as int),
                i <= digits@.len(),
            decreases digits@.len() - i,
        {
            crate::bridge::string_push(&mut r, digits[i]);
            assert(digits@.take(i as int).push(digits@[i as int]) =~= digits@.take(i + 1));
            assert((seq!['-'] + digits@.take(i as int)).push(digits@[i as int]) =~= seq!['-']
                + digits@.take(i + 1));
            i = i + 1;
        }
        assert(digits@.take(digits@.len() as int) =~= digits@);
        r
    }
}

/// Renders a number of seconds as a short human-readable duration.
pub fn format_duration(seconds: i64) -> (r: String)
    ensures
        r@ == spec_format_duration(seconds as int),
{
    let mut r = String::new();
    if seconds < 60 {
        let d = i64_to_string(seconds);
        crate::bridge::string_push_str(&mut r, d.as_str());
        crate::bridge::string_push_str(&mut r, "s");
    } else if seconds < 3600 {
        let m = i64_to_string(seconds / 60);
        let s = i64_to_string(seconds % 60);
        crate::bridge::string_push_str(&mut r, m.as_str());
        crate::bridge::string_push_str(&mut r, "m ");
        crate::bridge::string_push_str(&mut r, s.as_str());
        crate::bridge::string_push_str(&mut r, "s");
    } else if seconds < 86400 {
        let h = i64_to_string(seconds / 3600);
        let m = i64_to_string((seconds % 3600) / 60);
        crate::bridge::string_push_str(&mut r, h.as_str());
        crate::bridge::string_push_str(&mut r, "h ");
        crate::bridge::string_push_str(&mut r, m.as_str());
        crate::bridge::string_push_str(&mut r, "m");
    } else {
        let d = i64_to_string(seconds / 86400);
        let h = i64_to_string((seconds % 86400) / 3600);
        crate::bridge::string_push_str(&mut r, d.as_str());
        crate::bridge::string_push_str(&mut r, "d ");
        crate::bridge::string_push_str(&mut r, h.as_str());
        crate::bridge::string_push_str(&mut r, "h");
    }
    r
}

} // verus!
