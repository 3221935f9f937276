//! Text helpers: decimal rendering of numbers and the grammar of numeric
//! attribute values.
//!
//! Native identifiers embed 1-based ordinals in decimal, so the library
//! renders numbers itself and proves the rendering injective; that is what
//! makes identifier uniqueness arguments possible.  Attribute values arrive
//! as free-form strings and are accepted as numeric only when they match the
//! decimal grammar `[+-]? (digits [. digits?] | . digits) ([eE] [+-]? digits)?`.

use vstd::prelude::*;

verus! {

pub open spec fn is_digit_char(c: char) -> bool {
    '0' <= c && c <= '9'
}

/// The decimal digit character for a value below ten.
pub open spec fn digit_char(d: nat) -> char {
    if d == 0 { '0' }
    else if d == 1 { '1' }
    else if d == 2 { '2' }
    else if d == 3 { '3' }
    else if d == 4 { '4' }
    else if d == 5 { '5' }
    else if d == 6 { '6' }
    else if d == 7 { '7' }
    else if d == 8 { '8' }
    else { '9' }
}

/// The decimal rendering of a natural number, most significant digit first.
pub open spec fn dec_spec(n: nat) -> Seq<char>
    decreases n,
{
    if n < 10 {
        seq![digit_char(n)]
    } else {
        dec_spec(n / 10).push(digit_char(n % 10))
    }
}

pub proof fn lemma_dec_spec_len(n: nat)
    ensures
        dec_spec(n).len() >= 1,
        n >= 10 ==> dec_spec(n).len() >= 2,
    decreases n,
{
    if n >= 10 {
        lemma_dec_spec_len(n / 10);
    }
}

pub proof fn lemma_dec_spec_digits(n: nat)
    ensures
        forall|i: int| 0 <= i < dec_spec(n).len() ==> is_digit_char(#[trigger] dec_spec(n)[i]),
    decreases n,
{
    if n < 10 {
        assert(dec_spec(n)[0] == digit_char(n));
    } else {
        lemma_dec_spec_digits(n / 10);
        let prefix = dec_spec(n / 10);
        assert forall|i: int| 0 <= i < dec_spec(n).len()
            implies is_digit_char(#[trigger] dec_spec(n)[i]) by {
            if i < prefix.len() {
                assert(dec_spec(n)[i] == prefix[i]);
            } else {
                assert(dec_spec(n)[i] == digit_char(n % 10));
            }
        }
    }
}

/// Distinct numbers render to distinct digit strings.
pub proof fn lemma_dec_spec_injective(a: nat, b: nat)
    requires
        dec_spec(a) == dec_spec(b),
    ensures
        a == b,
    decreases a + b,
{
    lemma_dec_spec_len(a);
    lemma_dec_spec_len(b);
    if a < 10 && b < 10 {
        assert(dec_spec(a)[0] == digit_char(a));
        assert(dec_spec(b)[0] == digit_char(b));
    } else if a < 10 {
        assert(dec_spec(b).len() >= 2);
    } else if b < 10 {
        assert(dec_spec(a).len() >= 2);
    } else {
        let sa = dec_spec(a / 10);
        let sb = dec_spec(b / 10);
        assert(dec_spec(a).last() == digit_char(a % 10));
        assert(dec_spec(b).last() == digit_char(b % 10));
        assert(sa =~= dec_spec(a).drop_last());
        assert(sb =~= dec_spec(b).drop_last());
        lemma_dec_spec_injective(a / 10, b / 10);
        assert(a % 10 == b % 10);
        assert(a == 10 * (a / 10) + a % 10);
        assert(b == 10 * (b / 10) + b % 10);
    }
}

/// A digit string followed by a non-digit determines its own length: if two
/// digit strings are each followed by text opening with a non-digit character
/// and the concatenations agree, the digit strings agree.
pub proof fn lemma_digit_prefix_determined(d1: Seq<char>, t1: Seq<char>, d2: Seq<char>, t2: Seq<char>)
    requires
        d1 + t1 == d2 + t2,
        forall|i: int| 0 <= i < d1.len() ==> is_digit_char(#[trigger] d1[i]),
        forall|i: int| 0 <= i < d2.len() ==> is_digit_char(#[trigger] d2[i]),
        t1.len() >= 1 && !is_digit_char(t1[0]),
        t2.len() >= 1 && !is_digit_char(t2[0]),
    ensures
        d1 == d2,
        t1 == t2,
{
    let s = d1 + t1;
    assert(s.len() == d1.len() + t1.len());
    assert((d2 + t2).len() == d2.len() + t2.len());
    if d1.len() < d2.len() {
        assert(s[d1.len() as int] == t1[0]);
        assert((d2 + t2)[d1.len() as int] == d2[d1.len() as int]);
        assert(false);
    } else if d2.len() < d1.len() {
        assert(s[d2.len() as int] == d1[d2.len() as int]);
        assert((d2 + t2)[d2.len() as int] == t2[0]);
        assert(false);
    } else {
        assert(d1.len() == d2.len());
        assert(t1.len() == t2.len());
        assert forall|i: int| 0 <= i < d1.len() implies d1[i] == d2[i] by {
            assert(s[i] == d1[i]);
            assert((d2 + t2)[i] == d2[i]);
        }
        assert(d1 =~= d2);
        assert forall|i: int| 0 <= i < t1.len() implies t1[i] == t2[i] by {
            assert(s[d1.len() + i] == t1[i]);
            assert((d2 + t2)[d1.len() + i] == t2[i]);
        }
        assert(t1 =~= t2);
    }
}

fn digit_str(d: u64) -> (s: &'static str)
    requires
        d < 10,
    ensures
        s@ =~= seq![digit_char(d as nat)],
{
    proof {
        reveal_strlit("0");
        reveal_strlit("1");
        reveal_strlit("2");
        reveal_strlit("3");
        reveal_strlit("4");
        reveal_strlit("5");
        reveal_strlit("6");
        reveal_strlit("7");
        reveal_strlit("8");
        reveal_strlit("9");
    }
    if d == 0 { "0" }
    else if d == 1 { "1" }
    else if d == 2 { "2" }
    else if d == 3 { "3" }
    else if d == 4 { "4" }
    else if d == 5 { "5" }
    else if d == 6 { "6" }
    else if d == 7 { "7" }
    else if d == 8 { "8" }
    else { "9" }
}

/// Renders a number in decimal.
pub fn render_u64(n: u64) -> (s: String)
    ensures
        s@ == dec_spec(n as nat),
    decreases n,
{
    if n < 10 {
        String::from_str(digit_str(n))
    } else {
        let prefix = render_u64(n / 10);
        prefix.concat(digit_str(n % 10))
    }
}

/// Every character in the range is a decimal digit.
pub open spec fn spec_all_digits(s: Seq<char>) -> bool {
    forall|i: int| 0 <= i < s.len() ==> is_digit_char(#[trigger] s[i])
}

/// A mantissa: digits, optionally split once by a decimal point, with at
/// least one digit overall.
pub open spec fn spec_mantissa(s: Seq<char>) -> bool {
    ||| (s.len() >= 1 && spec_all_digits(s))
    ||| (s.len() >= 2 && exists|i: int|
            0 <= i < s.len() && #[trigger] s[i] == '.'
            && spec_all_digits(s.take(i)) && spec_all_digits(s.skip(i + 1)))
}

/// An exponent: an optional sign followed by at least one digit.
pub open spec fn spec_exponent(s: Seq<char>) -> bool {
    if s.len() >= 1 && (s[0] == '+' || s[0] == '-') {
        s.len() >= 2 && spec_all_digits(s.skip(1))
    } else {
        s.len() >= 1 && spec_all_digits(s)
    }
}

/// An unsigned numeric value: a mantissa with an optional exponent
/// introduced by `e` or `E`.
pub open spec fn spec_unsigned_numeric(t: Seq<char>) -> bool {
    ||| spec_mantissa(t)
    ||| (exists|i: int| 0 <= i < t.len() && (#[trigger] t[i] == 'e' || #[trigger] t[i] == 'E')
            && spec_mantissa(t.take(i)) && spec_exponent(t.skip(i + 1)))
}

/// A numeric attribute value: an optional sign, a mantissa, and an optional
/// exponent introduced by `e` or `E`.
pub open spec fn spec_numeric(s: Seq<char>) -> bool {
    if s.len() >= 1 && (s[0] == '+' || s[0] == '-') {
        spec_unsigned_numeric(s.skip(1))
    } else {
        spec_unsigned_numeric(s)
    }
}

fn is_digit(c: char) -> (b: bool)
    ensures
        b == is_digit_char(c),
{
    '0' <= c && c <= '9'
}

/// Checks that every character of `s` in `[lo, hi)` is a digit.
fn check_all_digits(s: &str, lo: usize, hi: usize) -> (b: bool)
    requires
        lo <= hi <= s@.len(),
    ensures
        b == spec_all_digits(s@.subrange(lo as int, hi as int)),
{
    let ghost sub = s@.subrange(lo as int, hi as int);
    let mut i: usize = lo;
    while i < hi
        invariant
            lo <= i <= hi <= s@.len(),
            sub == s@.subrange(lo as int, hi as int),
            forall|j: int| lo <= j < i ==> is_digit_char(#[trigger] s@[j]),
        decreases hi - i,
    {
        if !is_digit(s.get_char(i)) {
            proof {
                assert(sub[i - lo] == s@[i as int]);
            }
            return false;
        }
        i += 1;
    }
    proof {
        assert forall|k: int| 0 <= k < sub.len() implies is_digit_char(#[trigger] sub[k]) by {
            assert(sub[k] == s@[lo + k]);
        }
    }
    true
}

/// Checks the mantissa grammar on `s` in `[lo, hi)`.
fn check_mantissa(s: &str, lo: usize, hi: usize) -> (b: bool)
    requires
        lo <= hi <= s@.len(),
    ensures
        b == spec_mantissa(s@.subrange(lo as int, hi as int)),
{
    let ghost sub = s@.subrange(lo as int, hi as int);
    // find the first '.'
    let mut i: usize = lo;
    let mut dot: Option<usize> = None;
    while i < hi && dot.is_none()
        invariant
            lo <= i <= hi <= s@.len(),
            sub == s@.subrange(lo as int, hi as int),
            match dot {
                Some(d) => lo <= d < i && i == d + 1 && s@[d as int] == '.'
                    && (forall|j: int| lo <= j < d ==> #[trigger] s@[j] != '.'),
                None => forall|j: int| lo <= j < i ==> #[trigger] s@[j] != '.',
            },
        decreases hi - i,
    {
        if s.get_char(i) == '.' {
            dot = Some(i);
        }
        i += 1;
    }
    match dot {
        None => {
            let r = hi > lo && check_all_digits(s, lo, hi);
            proof {
                if r {
                    assert(spec_mantissa(sub));
                } else {
                    // no dot anywhere, so the second disjunct cannot hold
                    assert forall|k: int| 0 <= k < sub.len() implies #[trigger] sub[k] != '.' by {
                        assert(sub[k] == s@[lo + k]);
                    }
                    assert(!spec_mantissa(sub));
                }
            }
            r
        }
        Some(d) => {
            let r = hi - lo >= 2 && check_all_digits(s, lo, d) && check_all_digits(s, d + 1, hi);
            proof {
                let di = d - lo;
                assert(sub[di] == s@[d as int]);
                assert(sub.take(di) =~= s@.subrange(lo as int, d as int));
                assert(sub.skip(di + 1) =~= s@.subrange(d + 1, hi as int));
                if r {
                    assert(spec_mantissa(sub));
                } else {
                    // the first disjunct fails because the dot is not a digit;
                    // any other dot position also fails, since the region on
                    // one of its sides contains this dot.
                    assert(!is_digit_char(sub[di]));
                    if sub.len() >= 2 {
                        assert forall|k: int|
                            0 <= k < sub.len() && #[trigger] sub[k] == '.'
                                && spec_all_digits(sub.take(k)) && spec_all_digits(sub.skip(k + 1))
                            implies false by {
                            if k < di {
                                assert(sub[k] == s@[lo + k]);
                                assert(s@[lo + k] != '.');
                            } else if k > di {
                                assert(sub.take(k)[di] == sub[di]);
                                assert(is_digit_char(sub.take(k)[di]));
                            }
                        }
                    }
                    assert(!spec_mantissa(sub));
                }
            }
            r
        }
    }
}

/// Checks the exponent grammar on `s` in `[lo, hi)`.
fn check_exponent(s: &str, lo: usize, hi: usize) -> (b: bool)
    requires
        lo <= hi <= s@.len(),
    ensures
        b == spec_exponent(s@.subrange(lo as int, hi as int)),
{
    let ghost sub = s@.subrange(lo as int, hi as int);
    if lo == hi {
        return false;
    }
    let c0 = s.get_char(lo);
    proof {
        assert(sub[0] == s@[lo as int]);
    }
    if c0 == '+' || c0 == '-' {
        let r = hi - lo >= 2 && check_all_digits(s, lo + 1, hi);
        proof {
            assert(sub.skip(1) =~= s@.subrange(lo + 1, hi as int));
        }
        r
    } else {
        check_all_digits(s, lo, hi)
    }
}

/// Decides whether the whole string is a numeric value under the grammar
/// `spec_numeric`.
pub fn is_numeric_str(s: &str) -> (b: bool)
    ensures
        b == spec_numeric(s@),
{
    let n = s.unicode_len();
    let start: usize = if n > 0 {
        let c0 = s.get_char(0);
        if c0 == '+' || c0 == '-' { 1 } else { 0 }
    } else {
        0
    };
    let ghost t = if s@.len() >= 1 && (s@[0] == '+' || s@[0] == '-') { s@.skip(1) } else { s@ };
    proof {
        assert(t =~= s@.subrange(start as int, n as int));
        assert(spec_numeric(s@) == spec_unsigned_numeric(t));
    }
    // find the first 'e' or 'E' after the sign
    let mut i: usize = start;
    let mut epos: Option<usize> = None;
    while i < n && epos.is_none()
        invariant
            start <= i <= n == s@.len(),
            match epos {
                Some(e) => start <= e < i && i == e + 1
                    && (s@[e as int] == 'e' || s@[e as int] == 'E')
                    && (forall|j: int| start <= j < e ==> #[trigger] s@[j] != 'e' && s@[j] != 'E'),
                None => forall|j: int| start <= j < i ==> #[trigger] s@[j] != 'e' && s@[j] != 'E',
            },
        decreases n - i,
    {
        let c = s.get_char(i);
        if c == 'e' || c == 'E' {
            epos = Some(i);
        }
        i += 1;
    }
    match epos {
        None => {
            let r = check_mantissa(s, start, n);
            proof {
                if !r {
                    // no exponent marker occurs anywhere in t, so the split
                    // disjunct cannot hold either
                    assert forall|k: int| 0 <= k < t.len() implies #[trigger] t[k] != 'e' && t[k] != 'E' by {
                        assert(t[k] == s@[start + k]);
                    }
                }
            }
            r
        }
        Some(e) => {
            let r = check_mantissa(s, start, e) && check_exponent(s, e + 1, n);
            proof {
                let ei = e - start;
                assert(t.len() == n - start);
                assert(t[ei] == s@[e as int]);
                assert(t.take(ei) =~= s@.subrange(start as int, e as int));
                assert(t.skip(ei + 1) =~= s@.subrange(e + 1, n as int));
                if r {
                    assert(0 <= ei < t.len() && (t[ei] == 'e' || t[ei] == 'E')
                        && spec_mantissa(t.take(ei)) && spec_exponent(t.skip(ei + 1)));
                    assert(spec_unsigned_numeric(t));
                } else {
                    // a mantissa never contains an exponent marker, so only
                    // the first marker can give a valid split; and the whole
                    // of t contains that marker, so t is not a plain mantissa.
                    assert forall|k: int|
                        0 <= k < t.len() && (#[trigger] t[k] == 'e' || #[trigger] t[k] == 'E')
                            && spec_mantissa(t.take(k)) && spec_exponent(t.skip(k + 1))
                        implies false by {
                        if k < ei {
                            assert(t[k] == s@[start + k]);
                        } else if k > ei {
                            lemma_mantissa_no_marker(t.take(k), ei);
                        } else {
                            assert(t.take(ei) =~= s@.subrange(start as int, e as int));
                            assert(t.skip(ei + 1) =~= s@.subrange(e + 1, n as int));
                        }
                    }
                    if spec_mantissa(t) {
                        lemma_mantissa_no_marker(t, ei);
                    }
                    assert(!spec_unsigned_numeric(t));
                }
            }
            r
        }
    }
}

/// A mantissa contains no exponent marker.
proof fn lemma_mantissa_no_marker(s: Seq<char>, i: int)
    requires
        0 <= i < s.len(),
        s[i] == 'e' || s[i] == 'E',
    ensures
        !spec_mantissa(s),
{
    assert(!is_digit_char(s[i]));
    assert forall|d: int|
        0 <= d < s.len() && #[trigger] s[d] == '.'
            && spec_all_digits(s.take(d)) && spec_all_digits(s.skip(d + 1))
        implies false by {
        if i < d {
            assert(s.take(d)[i] == s[i]);
            assert(is_digit_char(s.take(d)[i]));
        } else if i > d {
            assert(s.skip(d + 1)[i - d - 1] == s[i]);
            assert(is_digit_char(s.skip(d + 1)[i - d - 1]));
        }
    }
}

/// Parses a range of digit characters as a number, most significant first.
pub open spec fn digits_value(s: Seq<char>) -> nat
    decreases s.len(),
{
    if s.len() == 0 {
        0
    } else {
        digits_value(s.drop_last()) * 10 + digit_value(s.last())
    }
}

pub open spec fn digit_value(c: char) -> nat {
    if c == '1' { 1 }
    else if c == '2' { 2 }
    else if c == '3' { 3 }
    else if c == '4' { 4 }
    else if c == '5' { 5 }
    else if c == '6' { 6 }
    else if c == '7' { 7 }
    else if c == '8' { 8 }
    else if c == '9' { 9 }
    else { 0 }
}

/// Parses the digits of `s` in `[lo, hi)` as a `usize`, returning `None` when
/// the value does not fit.
pub fn parse_digits(s: &str, lo: usize, hi: usize) -> (r: Option<usize>)
    requires
        lo <= hi <= s@.len(),
        spec_all_digits(s@.subrange(lo as int, hi as int)),
    ensures
        match r {
            Some(v) => v == digits_value(s@.subrange(lo as int, hi as int)),
            None => digits_value(s@.subrange(lo as int, hi as int)) > usize::MAX,
        },
{
    let ghost sub = s@.subrange(lo as int, hi as int);
    let mut acc: usize = 0;
    let mut i: usize = lo;
    while i < hi
        invariant
            lo <= i <= hi <= s@.len(),
            sub == s@.subrange(lo as int, hi as int),
            spec_all_digits(sub),
            acc == digits_value(s@.subrange(lo as int, i as int)),
        decreases hi - i,
    {
        let c = s.get_char(i);
        proof {
            assert(sub[i - lo] == s@[i as int]);
        }
        let d: usize = digit_to_value(c);
        proof {
            assert(s@.subrange(lo as int, i + 1).drop_last() =~= s@.subrange(lo as int, i as int));
            assert(s@.subrange(lo as int, i + 1).last() == s@[i as int]);
        }
        if acc > (usize::MAX - d) / 10 {
            proof {
                vstd::arithmetic::div_mod::lemma_fundamental_div_mod((usize::MAX - d) as int, 10);
                vstd::arithmetic::div_mod::lemma_mod_bound((usize::MAX - d) as int, 10);
                assert(acc * 10 + d > usize::MAX);
                assert(digits_value(s@.subrange(lo as int, i + 1)) > usize::MAX);
                lemma_digits_value_grows(s@, lo as int, i + 1, hi as int);
            }
            return None;
        }
        acc = acc * 10 + d;
        i += 1;
    }
    Some(acc)
}

fn digit_to_value(c: char) -> (d: usize)
    ensures
        d == digit_value(c),
        d < 10,
{
    if c == '1' { 1 }
    else if c == '2' { 2 }
    else if c == '3' { 3 }
    else if c == '4' { 4 }
    else if c == '5' { 5 }
    else if c == '6' { 6 }
    else if c == '7' { 7 }
    else if c == '8' { 8 }
    else if c == '9' { 9 }
    else { 0 }
}

/// Extending a digit range never shrinks its value.
proof fn lemma_digits_value_grows(s: Seq<char>, lo: int, mid: int, hi: int)
    requires
        0 <= lo <= mid <= hi <= s.len(),
    ensures
        digits_value(s.subrange(lo, hi)) >= digits_value(s.subrange(lo, mid)),
    decreases hi - mid,
{
    if mid < hi {
        lemma_digits_value_grows(s, lo, mid, hi - 1);
        assert(s.subrange(lo, hi).drop_last() =~= s.subrange(lo, hi - 1));
    }
}

/// The lower-case form of an ASCII letter; other characters are unchanged.
pub open spec fn lower_char(c: char) -> char {
    if c == 'A' { 'a' }
    else if c == 'B' { 'b' }
    else if c == 'C' { 'c' }
    else if c == 'D' { 'd' }
    else if c == 'E' { 'e' }
    else if c == 'F' { 'f' }
    else if c == 'G' { 'g' }
    else if c == 'H' { 'h' }
    else if c == 'I' { 'i' }
    else if c == 'J' { 'j' }
    else if c == 'K' { 'k' }
    else if c == 'L' { 'l' }
    else if c == 'M' { 'm' }
    else if c == 'N' { 'n' }
    else if c == 'O' { 'o' }
    else if c == 'P' { 'p' }
    else if c == 'Q' { 'q' }
    else if c == 'R' { 'r' }
    else if c == 'S' { 's' }
    else if c == 'T' { 't' }
    else if c == 'U' { 'u' }
    else if c == 'V' { 'v' }
    else if c == 'W' { 'w' }
    else if c == 'X' { 'x' }
    else if c == 'Y' { 'y' }
    else if c == 'Z' { 'z' }
    else { c }
}

pub fn to_lower_char(c: char) -> (r: char)
    ensures
        r == lower_char(c),
{
    if c == 'A' { 'a' }
    else if c == 'B' { 'b' }
    else if c == 'C' { 'c' }
    else if c == 'D' { 'd' }
    else if c == 'E' { 'e' }
    else if c == 'F' { 'f' }
    else if c == 'G' { 'g' }
    else if c == 'H' { 'h' }
    else if c == 'I' { 'i' }
    else if c == 'J' { 'j' }
    else if c == 'K' { 'k' }
    else if c == 'L' { 'l' }
    else if c == 'M' { 'm' }
    else if c == 'N' { 'n' }
    else if c == 'O' { 'o' }
    else if c == 'P' { 'p' }
    else if c == 'Q' { 'q' }
    else if c == 'R' { 'r' }
    else if c == 'S' { 's' }
    else if c == 'T' { 't' }
    else if c == 'U' { 'u' }
    else if c == 'V' { 'v' }
    else if c == 'W' { 'w' }
    else if c == 'X' { 'x' }
    else if c == 'Y' { 'y' }
    else if c == 'Z' { 'z' }
    else { c }
}

} // verus!
