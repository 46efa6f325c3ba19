//! Text building blocks shared by the query builder and the forwarder:
//! decimal rendering of integers and the grammar of plain decimal numbers.

use vstd::prelude::*;

verus! {

/// Relies on std's `String::push`: appends one character at the end of the
/// string.
#[verifier::external_body]
pub(crate) fn push_char(s: &mut String, c: char)
    ensures
        final(s)@ == old(s)@.push(c),
{
    s.push(c)
}

/// The decimal digit character for a value below ten.
pub open spec fn digit_char(d: int) -> char {
    if d == 0 {
        '0'
    } else if d == 1 {
        '1'
    } else if d == 2 {
        '2'
    } else if d == 3 {
        '3'
    } else if d == 4 {
        '4'
    } else if d == 5 {
        '5'
    } else if d == 6 {
        '6'
    } else if d == 7 {
        '7'
    } else if d == 8 {
        '8'
    } else {
        '9'
    }
}

/// The decimal digit string of a number, without leading zeros (a single
/// zero for zero itself).
pub open spec fn dec_digits(n: nat) -> Seq<char>
    decreases n,
{
    if n < 10 {
        seq![digit_char(n as int)]
    } else {
        dec_digits(n / 10) + seq![digit_char((n % 10) as int)]
    }
}

fn digit_to_char(d: u64) -> (c: char)
    requires
        d < 10,
    ensures
        c == digit_char(d as int),
{
    if d == 0 {
        '0'
    } else if d == 1 {
        '1'
    } else if d == 2 {
        '2'
    } else if d == 3 {
        '3'
    } else if d == 4 {
        '4'
    } else if d == 5 {
        '5'
    } else if d == 6 {
        '6'
    } else if d == 7 {
        '7'
    } else if d == 8 {
        '8'
    } else {
        '9'
    }
}

/// Appends the decimal digits of `n` to `s`.
pub fn push_u64(s: &mut String, n: u64)
    ensures
        final(s)@ == old(s)@ + dec_digits(n as nat),
    decreases n,
{
    if n < 10 {
        push_char(s, digit_to_char(n));
    } else {
        push_u64(s, n / 10);
        push_char(s, digit_to_char(n % 10));
        assert(old(s)@ + dec_digits((n / 10) as nat) + seq![digit_char((n % 10) as int)]
            =~= old(s)@ + dec_digits(n as nat));
    }
}

/// The decimal digits of `n`, as a string.
pub fn u64_to_string(n: u64) -> (r: String)
    ensures
        r@ == dec_digits(n as nat),
{
    let mut s = String::new();
    push_u64(&mut s, n);
    assert(Seq::<char>::empty() + dec_digits(n as nat) =~= dec_digits(n as nat));
    s
}

/// The two-digit, zero-padded decimal string of a number below one hundred.
pub open spec fn dec2(n: nat) -> Seq<char> {
    seq![digit_char((n / 10) as int % 10), digit_char(n as int % 10)]
}

/// The four-digit, zero-padded decimal string of a number below ten
/// thousand.
pub open spec fn dec4(n: nat) -> Seq<char> {
    seq![
        digit_char((n / 1000) as int % 10),
        digit_char((n / 100) as int % 10),
        digit_char((n / 10) as int % 10),
        digit_char(n as int % 10),
    ]
}

/// Appends the two-digit, zero-padded rendering of `n` to `s`.
pub fn push_2digits(s: &mut String, n: u64)
    requires
        n < 100,
    ensures
        final(s)@ == old(s)@ + dec2(n as nat),
{
    push_char(s, digit_to_char(n / 10));
    push_char(s, digit_to_char(n % 10));
    assert(old(s)@.push(digit_char((n / 10) as int)).push(digit_char(n as int % 10))
        =~= old(s)@ + dec2(n as nat));
}

/// Appends the four-digit, zero-padded rendering of `n` to `s`.
pub fn push_4digits(s: &mut String, n: u64)
    requires
        n < 10000,
    ensures
        final(s)@ == old(s)@ + dec4(n as nat),
{
    push_char(s, digit_to_char(n / 1000));
    push_char(s, digit_to_char((n / 100) % 10));
    push_char(s, digit_to_char((n / 10) % 10));
    push_char(s, digit_to_char(n % 10));
    assert(old(s)@.push(digit_char((n / 1000) as int)).push(digit_char((n / 100) as int % 10)).push(
        digit_char((n / 10) as int % 10),
    ).push(digit_char(n as int % 10)) =~= old(s)@ + dec4(n as nat));
}

/// Whether a character is a decimal digit.
pub open spec fn is_digit(c: char) -> bool {
    '0' <= c <= '9'
}

/// The first position at or after `i` that does not hold a digit.
pub open spec fn digits_end(s: Seq<char>, i: int) -> int
    decreases s.len() - i,
{
    if 0 <= i < s.len() && is_digit(s[i]) {
        digits_end(s, i + 1)
    } else {
        i
    }
}

/// Where the integer part ends when one starts at `i`: a single zero, or a
/// run of digits that does not start with zero. `None` when no integer part
/// starts there.
pub open spec fn int_part_end(s: Seq<char>, i: int) -> Option<int> {
    if i < s.len() && is_digit(s[i]) {
        if s[i] == '0' {
            Some(i + 1)
        } else {
            Some(digits_end(s, i))
        }
    } else {
        None
    }
}

/// Where the optional fraction part ends when one starts at `i`: a point
/// followed by at least one digit, or nothing at all. `None` when a point
/// stands there without a digit after it.
pub open spec fn frac_part_end(s: Seq<char>, i: int) -> Option<int> {
    if i < s.len() && s[i] == '.' {
        if i + 1 < s.len() && is_digit(s[i + 1]) {
            Some(digits_end(s, i + 1))
        } else {
            None
        }
    } else {
        Some(i)
    }
}

/// Where the optional exponent part ends when one starts at `i`: an `e` or
/// `E`, an optional sign, and at least one digit; or nothing at all. `None`
/// when an exponent marker stands there without digits.
pub open spec fn exp_part_end(s: Seq<char>, i: int) -> Option<int> {
    if i < s.len() && (s[i] == 'e' || s[i] == 'E') {
        let j = if i + 1 < s.len() && (s[i + 1] == '+' || s[i + 1] == '-') {
            i + 2
        } else {
            i + 1
        };
        if j < s.len() && is_digit(s[j]) {
            Some(digits_end(s, j))
        } else {
            None
        }
    } else {
        Some(i)
    }
}

fn char_is_digit(c: char) -> (b: bool)
    ensures
        b == is_digit(c),
{
    c >= '0' && c <= '9'
}

/// The first position at or after `i` that does not hold a digit, found by
/// scanning.
fn scan_digits(s: &str, len: usize, i: usize) -> (j: usize)
    requires
        len == s@.len(),
        i <= len,
    ensures
        j == digits_end(s@, i as int),
        i <= j <= len,
{
    let mut j = i;
    while j < len && char_is_digit(s.get_char(j))
        invariant
            i <= j <= len,
            len == s@.len(),
            digits_end(s@, i as int) == digits_end(s@, j as int),
        decreases len - j,
    {
        j += 1;
    }
    j
}

/// The grammar of a plain decimal number: an optional minus sign, an integer
/// part without spurious leading zeros, an optional fraction, an optional
/// exponent. Every such text is a well-formed number in the forwarded
/// payload.
pub open spec fn is_decimal_text(s: Seq<char>) -> bool {
    let i0: int = if s.len() > 0 && s[0] == '-' {
        1
    } else {
        0
    };
    match int_part_end(s, i0) {
        None => false,
        Some(i1) => match frac_part_end(s, i1) {
            None => false,
            Some(i2) => match exp_part_end(s, i2) {
                None => false,
                Some(i3) => i3 == s.len(),
            },
        },
    }
}

/// Decides whether a text is a plain decimal number.
pub fn check_decimal(s: &str) -> (b: bool)
    ensures
        b == is_decimal_text(s@),
{
    let len = s.unicode_len();
    let i0: usize = if len > 0 && s.get_char(0) == '-' {
        1
    } else {
        0
    };
    if !(i0 < len && char_is_digit(s.get_char(i0))) {
        return false;
    }
    let i1: usize = if s.get_char(i0) == '0' {
        i0 + 1
    } else {
        scan_digits(s, len, i0)
    };
    let i2: usize;
    if i1 < len && s.get_char(i1) == '.' {
        if i1 + 1 < len && char_is_digit(s.get_char(i1 + 1)) {
            i2 = scan_digits(s, len, i1 + 1);
        } else {
            return false;
        }
    } else {
        i2 = i1;
    }
    let i3: usize;
    if i2 < len && (s.get_char(i2) == 'e' || s.get_char(i2) == 'E') {
        let j: usize = if i2 + 1 < len && (s.get_char(i2 + 1) == '+' || s.get_char(i2 + 1) == '-') {
            i2 + 2
        } else {
            i2 + 1
        };
        if j < len && char_is_digit(s.get_char(j)) {
            i3 = scan_digits(s, len, j);
        } else {
            return false;
        }
    } else {
        i3 = i2;
    }
    i3 == len
}

} // verus!
