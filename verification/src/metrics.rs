//! Lengths in hundredths of a pixel: how a decimal number in a directive is
//! read, and how a length is written into markup.

use vstd::prelude::*;
use crate::scan::{extend_chars, slice_chars, split_once_text};
use crate::text::split_once_at;

verus! {

/// One pixel.
pub const PIXEL: i64 = 100;

/// The largest whole number of pixels that a directive may name.
pub const WHOLE_LIMIT: i64 = 1000000;

/// The largest length a font attribute can hold.
pub const METRIC_LIMIT: i64 = 100000000;

/// `c` is one of `0` to `9`.
pub open spec fn is_digit(c: char) -> bool {
    0x30 <= c as u32 <= 0x39
}

/// The number that the digit `c` stands for.
pub open spec fn digit_value(c: char) -> int {
    c as u32 - 0x30
}

/// Every character of `s` is a digit.
pub open spec fn all_digits(s: Seq<char>) -> bool {
    forall|i: int| 0 <= i < s.len() ==> is_digit(#[trigger] s[i])
}

/// The number that the digits `s` spell in base ten; the empty text spells 0.
pub open spec fn digits_value(s: Seq<char>) -> int
    decreases s.len(),
{
    if s.len() == 0 {
        0
    } else {
        digits_value(s.subrange(0, s.len() - 1)) * 10 + digit_value(s[s.len() - 1])
    }
}

/// The first two digits after the point, as hundredths; what follows them is
/// dropped.
pub open spec fn fraction_hundredths(f: Seq<char>) -> int {
    (if f.len() >= 1 {
        digit_value(f[0]) * 10
    } else {
        0
    }) + (if f.len() >= 2 {
        digit_value(f[1])
    } else {
        0
    })
}

/// The hundredths that the decimal number `s` names: digits, optionally a
/// point and more digits, with at least one digit in all and a whole part of
/// at most `WHOLE_LIMIT`. Any other text names nothing.
pub open spec fn decimal_hundredths(s: Seq<char>) -> Option<int> {
    match split_once_at(s, seq!['.']) {
        Some((whole, fraction)) => {
            if all_digits(whole) && all_digits(fraction) && whole.len() + fraction.len() > 0
                && digits_value(whole) <= WHOLE_LIMIT {
                Some(digits_value(whole) * 100 + fraction_hundredths(fraction))
            } else {
                None
            }
        },
        None => {
            if all_digits(s) && s.len() > 0 && digits_value(s) <= WHOLE_LIMIT {
                Some(digits_value(s) * 100)
            } else {
                None
            }
        },
    }
}

/// The hundredths that the signed decimal number `s` names: a decimal
/// number, or a plus or minus sign and a decimal number behind it.
pub open spec fn signed_hundredths(s: Seq<char>) -> Option<int> {
    if s.len() > 0 && s[0] == '-' {
        match decimal_hundredths(s.subrange(1, s.len() as int)) {
            Some(v) => Some(-v),
            None => None,
        }
    } else if s.len() > 0 && s[0] == '+' {
        decimal_hundredths(s.subrange(1, s.len() as int))
    } else {
        decimal_hundredths(s)
    }
}

/// The size change that `s` names, in hundredths of a pixel: zero where `s`
/// is no signed decimal number. A number is read in plain notation only:
/// one written with an exponent, one whose whole part is above
/// `WHOLE_LIMIT`, and the words for infinity and for no number all count as
/// zero, and digits behind the second after the point are dropped.
pub open spec fn size_delta(s: Seq<char>) -> int {
    match signed_hundredths(s) {
        Some(v) => v,
        None => 0,
    }
}

/// Digits spell a number that is never negative and never below what a
/// prefix of them spells.
pub proof fn lemma_digits_prefix(s: Seq<char>, k: int)
    requires
        all_digits(s),
        0 <= k <= s.len(),
    ensures
        0 <= digits_value(s.subrange(0, k)) <= digits_value(s),
    decreases s.len(),
{
    if s.len() == 0 {
        assert(s.subrange(0, k) =~= s);
    } else {
        let front = s.subrange(0, s.len() - 1);
        assert(is_digit(s[s.len() - 1]));
        assert forall|i: int| 0 <= i < front.len() implies is_digit(#[trigger] front[i]) by {
            assert(front[i] == s[i]);
        }
        if k == s.len() {
            assert(s.subrange(0, k) =~= s);
            lemma_digits_prefix(front, front.len() as int);
            assert(front.subrange(0, front.len() as int) =~= front);
        } else {
            lemma_digits_prefix(front, k);
            assert(front.subrange(0, k) =~= s.subrange(0, k));
        }
    }
}

/// The number that the digits `s` spell, where they are digits and spell at
/// most `WHOLE_LIMIT`.
pub fn parse_digits(s: &Vec<char>) -> (r: Option<i64>)
    ensures
        r is Some <==> all_digits(s@) && digits_value(s@) <= WHOLE_LIMIT,
        r matches Some(v) ==> v == digits_value(s@) && 0 <= v,
{
    let mut v: i64 = 0;
    let mut i: usize = 0;
    assert(s@.subrange(0, 0) =~= Seq::<char>::empty());
    while i < s.len()
        invariant
            i <= s.len(),
            all_digits(s@.subrange(0, i as int)),
            v == digits_value(s@.subrange(0, i as int)),
            0 <= v <= WHOLE_LIMIT,
        decreases s.len() - i,
    {
        let c: char = s[i];
        let n: u32 = c as u32;
        let ghost next = s@.subrange(0, i + 1);
        assert(next.subrange(0, next.len() - 1) =~= s@.subrange(0, i as int));
        assert(next[next.len() - 1] == c);
        if n < 0x30 || n > 0x39 {
            assert(!is_digit(s@[i as int]));
            return None;
        }
        let d: i64 = (n - 0x30) as i64;
        if v * 10 + d > WHOLE_LIMIT {
            proof {
                if all_digits(s@) {
                    lemma_digits_prefix(s@, i + 1);
                }
            }
            return None;
        }
        v = v * 10 + d;
        i = i + 1;
        assert forall|k: int| 0 <= k < next.len() implies is_digit(#[trigger] next[k]) by {
            if k < i - 1 {
                assert(s@.subrange(0, i - 1)[k] == next[k]);
            }
        }
    }
    assert(s@.subrange(0, s.len() as int) =~= s@);
    Some(v)
}

/// The hundredths that the decimal number `s` names, if it names any.
pub fn parse_hundredths(s: &Vec<char>) -> (r: Option<i64>)
    ensures
        r is Some <==> decimal_hundredths(s@) is Some,
        r matches Some(v) ==> v == decimal_hundredths(s@)->0 && 0 <= v <= METRIC_LIMIT + 99,
{
    let mut point: Vec<char> = Vec::new();
    point.push('.');
    assert(point@ =~= seq!['.']);
    match split_once_text(s, &point) {
        Some((whole, fraction)) => {
            if whole.len() == 0 && fraction.len() == 0 {
                return None;
            }
            let w = parse_digits(&whole);
            let f = parse_digits_unbounded(&fraction);
            match w {
                Some(wv) => {
                    if f {
                        let mut h: i64 = 0;
                        if fraction.len() >= 1 {
                            h = h + ((fraction[0] as u32 - 0x30) as i64) * 10;
                        }
                        if fraction.len() >= 2 {
                            h = h + (fraction[1] as u32 - 0x30) as i64;
                        }
                        Some(wv * 100 + h)
                    } else {
                        None
                    }
                },
                None => None,
            }
        },
        None => {
            if s.len() == 0 {
                return None;
            }
            match parse_digits(s) {
                Some(v) => Some(v * 100),
                None => None,
            }
        },
    }
}

/// Whether every character of `s` is a digit.
pub fn parse_digits_unbounded(s: &Vec<char>) -> (r: bool)
    ensures
        r == all_digits(s@),
{
    let mut i: usize = 0;
    while i < s.len()
        invariant
            i <= s.len(),
            forall|k: int| 0 <= k < i ==> is_digit(#[trigger] s@[k]),
        decreases s.len() - i,
    {
        let n: u32 = s[i] as u32;
        if n < 0x30 || n > 0x39 {
            assert(!is_digit(s@[i as int]));
            return false;
        }
        i = i + 1;
    }
    true
}

/// The size change that `s` names: zero where `s` is no signed decimal
/// number in plain notation.
pub fn parse_size_delta(s: &Vec<char>) -> (r: i64)
    ensures
        r == size_delta(s@),
        -METRIC_LIMIT - 99 <= r <= METRIC_LIMIT + 99,
{
    if s.len() > 0 && (s[0] == '-' || s[0] == '+') {
        let number = slice_chars(s, 1, s.len());
        match parse_hundredths(&number) {
            Some(v) => if s[0] == '-' {
                -v
            } else {
                v
            },
            None => 0,
        }
    } else {
        match parse_hundredths(s) {
            Some(v) => v,
            None => 0,
        }
    }
}

/// The whole number that `s` names: an optional sign and at least one
/// digit, of at most `WHOLE_LIMIT` either way. Any other text names nothing.
pub open spec fn integer_value(s: Seq<char>) -> Option<int> {
    if s.len() > 0 && (s[0] == '-' || s[0] == '+') {
        let digits = s.subrange(1, s.len() as int);
        if digits.len() > 0 && all_digits(digits) && digits_value(digits) <= WHOLE_LIMIT {
            Some(
                if s[0] == '-' {
                    -digits_value(digits)
                } else {
                    digits_value(digits)
                },
            )
        } else {
            None
        }
    } else if s.len() > 0 && all_digits(s) && digits_value(s) <= WHOLE_LIMIT {
        Some(digits_value(s))
    } else {
        None
    }
}

/// The whole number that `s` names: zero where it names none.
pub open spec fn integer_or_zero(s: Seq<char>) -> int {
    match integer_value(s) {
        Some(v) => v,
        None => 0,
    }
}

/// The whole number that `s` names: zero where it names none.
pub fn parse_integer(s: &Vec<char>) -> (r: i64)
    ensures
        r == integer_or_zero(s@),
        -WHOLE_LIMIT <= r <= WHOLE_LIMIT,
{
    if s.len() == 0 {
        return 0;
    }
    if s[0] == '-' || s[0] == '+' {
        let digits = slice_chars(s, 1, s.len());
        if digits.len() == 0 {
            return 0;
        }
        match parse_digits(&digits) {
            Some(v) => if s[0] == '-' {
                -v
            } else {
                v
            },
            None => 0,
        }
    } else {
        match parse_digits(s) {
            Some(v) => v,
            None => 0,
        }
    }
}

/// The character for the digit `d`.
pub open spec fn digit_char(d: int) -> char {
    (0x30 + d) as u8 as char
}

/// The digits of `n` in base ten, without leading zeros.
pub open spec fn natural_text(n: nat) -> Seq<char>
    decreases n,
{
    if n < 10 {
        seq![digit_char(n as int)]
    } else {
        natural_text(n / 10).push(digit_char((n % 10) as int))
    }
}

/// How a length of `v` hundredths is written, in pixels: the whole part,
/// then a point and one or two digits where the length is no whole number of
/// pixels, with a minus sign in front below zero.
pub open spec fn metric_text(v: int) -> Seq<char> {
    let m = if v < 0 {
        -v
    } else {
        v
    };
    let sign = if v < 0 {
        seq!['-']
    } else {
        Seq::<char>::empty()
    };
    let f = m % 100;
    let fraction = if f == 0 {
        Seq::<char>::empty()
    } else if f % 10 == 0 {
        seq!['.', digit_char(f / 10)]
    } else {
        seq!['.', digit_char(f / 10), digit_char(f % 10)]
    };
    sign + natural_text((m / 100) as nat) + fraction
}

/// The character for the digit `d`.
pub fn make_digit(d: u8) -> (c: char)
    requires
        d < 10,
    ensures
        c == digit_char(d as int),
{
    (0x30 + d) as char
}

/// The digits of `n` in base ten.
pub fn format_natural(n: u64) -> (r: Vec<char>)
    ensures
        r@ == natural_text(n as nat),
    decreases n,
{
    if n < 10 {
        let mut r: Vec<char> = Vec::new();
        r.push(make_digit(n as u8));
        assert(r@ =~= seq![digit_char(n as int)]);
        r
    } else {
        let mut r = format_natural(n / 10);
        r.push(make_digit((n % 10) as u8));
        r
    }
}

/// How a length of `v` hundredths is written, in pixels.
pub fn format_metric(v: i64) -> (r: Vec<char>)
    ensures
        r@ == metric_text(v as int),
{
    let mut r: Vec<char> = Vec::new();
    let m: u64 = if v < 0 {
        r.push('-');
        if v == i64::MIN {
            9223372036854775808u64
        } else {
            (-v) as u64
        }
    } else {
        v as u64
    };
    assert(r@ =~= if v < 0 {
        seq!['-']
    } else {
        Seq::<char>::empty()
    });
    let whole = format_natural(m / 100);
    extend_chars(&mut r, &whole);
    let f: u64 = m % 100;
    if f != 0 {
        r.push('.');
        r.push(make_digit((f / 10) as u8));
        if f % 10 != 0 {
            r.push(make_digit((f % 10) as u8));
        }
    }
    assert(r@ =~= metric_text(v as int));
    r
}

/// How a length of `v` hundredths is written with two decimals, in pixels.
pub open spec fn fixed_text(v: int) -> Seq<char> {
    let m = if v < 0 {
        -v
    } else {
        v
    };
    let sign = if v < 0 {
        seq!['-']
    } else {
        Seq::<char>::empty()
    };
    sign + natural_text((m / 100) as nat) + seq![
        '.',
        digit_char((m % 100) / 10),
        digit_char((m % 100) % 10),
    ]
}

/// How a length of `v` hundredths is written with two decimals, in pixels.
pub fn format_fixed(v: i64) -> (r: Vec<char>)
    ensures
        r@ == fixed_text(v as int),
{
    let mut r: Vec<char> = Vec::new();
    let m: u64 = if v < 0 {
        r.push('-');
        if v == i64::MIN {
            9223372036854775808u64
        } else {
            (-v) as u64
        }
    } else {
        v as u64
    };
    let whole = format_natural(m / 100);
    extend_chars(&mut r, &whole);
    let f: u64 = m % 100;
    r.push('.');
    r.push(make_digit((f / 10) as u8));
    r.push(make_digit((f % 10) as u8));
    assert(r@ =~= fixed_text(v as int));
    r
}

} // verus!
