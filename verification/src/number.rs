//! The syntax of decimal floating-point numbers that numeric settings accept.
//!
//! A setting value is accepted when, with ASCII letters lower-cased, it is an
//! optional sign followed by `inf`, `infinity`, `nan`, or digits with at most
//! one decimal point (and at least one digit) and an optional exponent `e`,
//! optional sign, digits. This is the grammar that `str::parse` documents for
//! floating-point types.
use vstd::prelude::*;

use crate::text::{ascii_lower_char, chars_of};

verus! {

/// Whether a character is an ASCII decimal digit.
pub open spec fn is_digit(c: char) -> bool {
    '0' <= c && c <= '9'
}

/// Whether every character is an ASCII decimal digit.
pub open spec fn all_digits(s: Seq<char>) -> bool {
    forall|i: int| 0 <= i < s.len() ==> is_digit(#[trigger] s[i])
}

/// The text with ASCII letters lower-cased.
pub open spec fn lower_ascii(s: Seq<char>) -> Seq<char> {
    s.map_values(|c: char| ascii_lower_char(c))
}

/// The text without one leading `+` or `-`.
pub open spec fn without_sign(s: Seq<char>) -> Seq<char> {
    if s.len() > 0 && (s[0] == '+' || s[0] == '-') {
        s.drop_first()
    } else {
        s
    }
}

/// Digits with at most one decimal point, holding at least one digit.
pub open spec fn is_mantissa(m: Seq<char>) -> bool {
    match m.index_of_first('.') {
        Some(d) => m.len() >= 2 && all_digits(m.take(d)) && all_digits(m.skip(d + 1)),
        None => m.len() > 0 && all_digits(m),
    }
}

/// An optional sign followed by at least one digit.
pub open spec fn is_exponent(x: Seq<char>) -> bool {
    let u = without_sign(x);
    u.len() > 0 && all_digits(u)
}

/// A mantissa, optionally followed by `e` and an exponent (lower-cased text).
pub open spec fn is_decimal(b: Seq<char>) -> bool {
    match b.index_of_first('e') {
        Some(k) => is_mantissa(b.take(k)) && is_exponent(b.skip(k + 1)),
        None => is_mantissa(b),
    }
}

/// Whether the text is a floating-point number.
pub open spec fn is_number_text(s: Seq<char>) -> bool {
    let b = without_sign(lower_ascii(s));
    b == "inf"@ || b == "infinity"@ || b == "nan"@ || is_decimal(b)
}

fn lower_char(c: char) -> (r: char)
    ensures
        r == ascii_lower_char(c),
{
    if 'A' <= c && c <= 'Z' {
        let b = c as u8;
        (b + 32) as char
    } else {
        c
    }
}

fn lowered(s: &str) -> (v: Vec<char>)
    ensures
        v@ == lower_ascii(s@),
{
    let chars = chars_of(s);
    let mut v: Vec<char> = Vec::new();
    let mut i: usize = 0;
    while i < chars.len()
        invariant
            chars@ == s@,
            i <= chars.len(),
            v@ == lower_ascii(s@).take(i as int),
        decreases chars.len() - i,
    {
        v.push(lower_char(chars[i]));
        i = i + 1;
        assert(v@ =~= lower_ascii(s@).take(i as int));
    }
    assert(v@ =~= lower_ascii(s@));
    v
}

fn digits_only(v: &Vec<char>, a: usize, b: usize) -> (r: bool)
    requires
        a <= b <= v.len(),
    ensures
        r == all_digits(v@.subrange(a as int, b as int)),
{
    let mut i = a;
    while i < b
        invariant
            a <= i <= b <= v.len(),
            forall|j: int| a <= j < i ==> is_digit(#[trigger] v@[j]),
        decreases b - i,
    {
        if !('0' <= v[i] && v[i] <= '9') {
            assert(v@.subrange(a as int, b as int)[i - a] == v@[i as int]);
            return false;
        }
        i = i + 1;
    }
    assert forall|j: int| 0 <= j < b - a implies is_digit(#[trigger] v@.subrange(a as int, b as int)[j]) by {
        assert(v@.subrange(a as int, b as int)[j] == v@[j + a]);
    }
    true
}

fn find_in(v: &Vec<char>, c: char, a: usize, b: usize) -> (r: Option<usize>)
    requires
        a <= b <= v.len(),
    ensures
        match r {
            Some(i) => a <= i < b && v@.subrange(a as int, b as int).index_of_first(c) == Some(i - a),
            None => v@.subrange(a as int, b as int).index_of_first(c) is None,
        },
{
    let ghost s = v@.subrange(a as int, b as int);
    let mut i = a;
    while i < b
        invariant
            a <= i <= b <= v.len(),
            s == v@.subrange(a as int, b as int),
            forall|j: int| a <= j < i ==> v@[j] != c,
        decreases b - i,
    {
        if v[i] == c {
            proof {
                s.index_of_first_ensures(c);
                assert(s[i - a] == c);
                let k = s.index_of_first(c).unwrap();
                if k < i - a {
                    assert(s[k] == v@[k + a]);
                }
            }
            return Some(i);
        }
        i = i + 1;
    }
    proof {
        s.index_of_first_ensures(c);
        if s.contains(c) {
            let k = choose|k: int| 0 <= k < s.len() && s[k] == c;
            assert(s[k] == v@[k + a]);
        }
    }
    None
}

fn mantissa_at(v: &Vec<char>, a: usize, b: usize) -> (r: bool)
    requires
        a <= b <= v.len(),
    ensures
        r == is_mantissa(v@.subrange(a as int, b as int)),
{
    let ghost m = v@.subrange(a as int, b as int);
    match find_in(v, '.', a, b) {
        Some(d) => {
            assert(m.take(d - a) =~= v@.subrange(a as int, d as int));
            assert(m.skip(d - a + 1) =~= v@.subrange(d + 1, b as int));
            b - a >= 2 && digits_only(v, a, d) && digits_only(v, d + 1, b)
        },
        None => b > a && digits_only(v, a, b),
    }
}

fn sign_skipped(v: &Vec<char>, a: usize, b: usize) -> (r: usize)
    requires
        a <= b <= v.len(),
    ensures
        a <= r <= b,
        without_sign(v@.subrange(a as int, b as int)) == v@.subrange(r as int, b as int),
{
    if a < b && (v[a] == '+' || v[a] == '-') {
        assert(v@.subrange(a as int, b as int).drop_first() =~= v@.subrange(a + 1, b as int));
        a + 1
    } else {
        a
    }
}

fn exponent_at(v: &Vec<char>, a: usize, b: usize) -> (r: bool)
    requires
        a <= b <= v.len(),
    ensures
        r == is_exponent(v@.subrange(a as int, b as int)),
{
    let u = sign_skipped(v, a, b);
    b > u && digits_only(v, u, b)
}

fn same_at(v: &Vec<char>, a: usize, b: usize, w: &Vec<char>) -> (r: bool)
    requires
        a <= b <= v.len(),
    ensures
        r == (v@.subrange(a as int, b as int) == w@),
{
    if b - a != w.len() {
        return false;
    }
    let mut i: usize = 0;
    while i < w.len()
        invariant
            b - a == w.len(),
            a <= b <= v.len(),
            i <= w.len(),
            forall|j: int| 0 <= j < i ==> v@[a + j] == w@[j],
        decreases w.len() - i,
    {
        if v[a + i] != w[i] {
            assert(v@.subrange(a as int, b as int)[i as int] != w@[i as int]);
            return false;
        }
        i = i + 1;
    }
    assert(v@.subrange(a as int, b as int) =~= w@);
    true
}

/// Whether `s` is a floating-point number.
pub fn is_number(s: &str) -> (r: bool)
    ensures
        r == is_number_text(s@),
{
    let v = lowered(s);
    let n = v.len();
    let a = sign_skipped(&v, 0, n);
    assert(v@.subrange(0, n as int) =~= v@);
    let ghost b = v@.subrange(a as int, n as int);
    if same_at(&v, a, n, &chars_of("inf")) || same_at(&v, a, n, &chars_of("infinity")) || same_at(
        &v,
        a,
        n,
        &chars_of("nan"),
    ) {
        return true;
    }
    match find_in(&v, 'e', a, n) {
        Some(k) => {
            assert(b.take(k - a) =~= v@.subrange(a as int, k as int));
            assert(b.skip(k - a + 1) =~= v@.subrange(k + 1, n as int));
            mantissa_at(&v, a, k) && exponent_at(&v, k + 1, n)
        },
        None => mantissa_at(&v, a, n),
    }
}

} // verus!
