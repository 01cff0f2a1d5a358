//! Verified rendering of integers as decimal text.
//!
//! [`spec_digits`] and [`spec_decimal`] define the decimal form of a number
//! at the specification level; the executable renderers are proved to
//! produce exactly that character sequence. The [`DecimalText`] trait makes
//! the renderer available uniformly on every primitive integer width.

use vstd::prelude::*;
use crate::strutil::chars_to_string;

verus! {

/// The character for a single decimal digit.
pub open spec fn spec_digit_char(d: nat) -> char {
    if d == 0 {
        '0'
    } else if d == 1 {
        '1'
    } else if d == 2 {
        '2'
    } else if d == 3 {
        '3'
    } else if d == 4 {
        '4'
    } else if d == 5 {
        '5'
    } else if d == 6 {
        '6'
    } else if d == 7 {
        '7'
    } else if d == 8 {
        '8'
    } else {
        '9'
    }
}

/// The decimal digits of `n`, most significant first, with no leading
/// zeros (a single `'0'` for zero itself).
pub open spec fn spec_digits(n: nat) -> Seq<char>
    decreases n,
{
    if n < 10 {
        seq![spec_digit_char(n)]
    } else {
        spec_digits(n / 10).push(spec_digit_char(n % 10))
    }
}

/// The decimal form of a signed number: a leading `'-'` for negative
/// values, then the digits of the magnitude.
pub open spec fn spec_decimal(n: int) -> Seq<char> {
    if n < 0 {
        seq!['-'] + spec_digits((-n) as nat)
    } else {
        spec_digits(n as nat)
    }
}

fn digit_char(d: u128) -> (c: char)
    requires
        d < 10,
    ensures
        c == spec_digit_char(d as nat),
{
    if d == 0 {
        '0'
    } else if d == 1 {
        '1'
    } else if d == 2 {
        '2'
    } else if d == 3 {
        '3'
    } else if d == 4 {
        '4'
    } else if d == 5 {
        '5'
    } else if d == 6 {
        '6'
    } else if d == 7 {
        '7'
    } else if d == 8 {
        '8'
    } else {
        '9'
    }
}

fn push_digits(n: u128, out: &mut Vec<char>)
    ensures
        final(out)@ == old(out)@ + spec_digits(n as nat),
    decreases n,
{
    if n >= 10 {
        push_digits(n / 10, out);
    }
    let d = digit_char(n % 10);
    out.push(d);
    proof {
        assert(final(out)@ =~= old(out)@ + spec_digits(n as nat));
    }
}

/// Renders an unsigned number as decimal text.
pub fn u128_to_decimal(n: u128) -> (s: String)
    ensures
        s@ == spec_digits(n as nat),
{
    let mut chars: Vec<char> = Vec::new();
    push_digits(n, &mut chars);
    let s = chars_to_string(&chars);
    proof {
        assert(chars@ =~= spec_digits(n as nat));
    }
    s
}

/// Renders a signed number as decimal text, with a `'-'` sign when
/// negative.
pub fn i128_to_decimal(n: i128) -> (s: String)
    ensures
        s@ == spec_decimal(n as int),
{
    if n >= 0 {
        let s = u128_to_decimal(n as u128);
        s
    } else {
        // `-(n + 1)` stays inside the signed range even for the smallest
        // value, so the magnitude is computed without overflow.
        let mag: u128 = ((-(n + 1)) as u128) + 1;
        assert(mag == -(n as int));
        let mut chars: Vec<char> = Vec::new();
        chars.push('-');
        push_digits(mag, &mut chars);
        let s = chars_to_string(&chars);
        proof {
            assert(chars@ =~= spec_decimal(n as int));
        }
        s
    }
}

/// Whether `c` is a decimal digit.
pub open spec fn is_digit_char(c: char) -> bool {
    c == '0' || c == '1' || c == '2' || c == '3' || c == '4' || c == '5' || c == '6' || c == '7'
        || c == '8' || c == '9'
}

/// The numeric value of a decimal digit (zero on any other character).
pub open spec fn spec_digit_value(c: char) -> nat {
    if c == '1' {
        1
    } else if c == '2' {
        2
    } else if c == '3' {
        3
    } else if c == '4' {
        4
    } else if c == '5' {
        5
    } else if c == '6' {
        6
    } else if c == '7' {
        7
    } else if c == '8' {
        8
    } else if c == '9' {
        9
    } else {
        0
    }
}

/// Whether every character of `s` is a decimal digit.
pub open spec fn all_digits(s: Seq<char>) -> bool {
    forall|k: int| 0 <= k < s.len() ==> is_digit_char(s[k])
}

/// The number that a sequence of decimal digits denotes.
pub open spec fn spec_digits_value(s: Seq<char>) -> nat
    decreases s.len(),
{
    if s.len() == 0 {
        0
    } else {
        spec_digits_value(s.drop_last()) * 10 + spec_digit_value(s.last())
    }
}

/// What unsigned decimal text denotes: the value of its digits, or
/// nothing when the text is empty or holds a non-digit.
pub open spec fn spec_parse_digits(s: Seq<char>) -> Option<nat> {
    if s.len() > 0 && all_digits(s) {
        Some(spec_digits_value(s))
    } else {
        None
    }
}

/// What signed decimal text denotes: the value of its digits, negated
/// after a leading `'-'`; nothing for any other shape.
pub open spec fn spec_parse_decimal(s: Seq<char>) -> Option<int> {
    if s.len() > 0 && s[0] == '-' {
        match spec_parse_digits(s.drop_first()) {
            Some(m) => Some(-(m as int)),
            None => None,
        }
    } else {
        match spec_parse_digits(s) {
            Some(m) => Some(m as int),
            None => None,
        }
    }
}

/// Ten to the `k`.
pub open spec fn pow10(k: nat) -> nat
    decreases k,
{
    if k == 0 {
        1
    } else {
        10 * pow10((k - 1) as nat)
    }
}

proof fn lemma_pow10_pos(k: nat)
    ensures
        pow10(k) >= 1,
    decreases k,
{
    if k > 0 {
        lemma_pow10_pos((k - 1) as nat);
    }
}

/// Reading back the character of a digit gives the digit.
proof fn lemma_digit_char_value(d: nat)
    requires
        d < 10,
    ensures
        spec_digit_value(spec_digit_char(d)) == d,
{
    if d == 0 {
        assert(spec_digit_value('0') == 0);
    } else if d == 1 {
        assert(spec_digit_value('1') == 1);
    } else if d == 2 {
        assert(spec_digit_value('2') == 2);
    } else if d == 3 {
        assert(spec_digit_value('3') == 3);
    } else if d == 4 {
        assert(spec_digit_value('4') == 4);
    } else if d == 5 {
        assert(spec_digit_value('5') == 5);
    } else if d == 6 {
        assert(spec_digit_value('6') == 6);
    } else if d == 7 {
        assert(spec_digit_value('7') == 7);
    } else if d == 8 {
        assert(spec_digit_value('8') == 8);
    } else {
        assert(spec_digit_value('9') == 9);
    }
}

/// The digits of `n` are digits, at least one of them, and they denote
/// exactly `n`.
pub proof fn lemma_digits_value_inverse(n: nat)
    ensures
        all_digits(spec_digits(n)),
        spec_digits(n).len() > 0,
        spec_digits_value(spec_digits(n)) == n,
    decreases n,
{
    if n < 10 {
        lemma_digit_char_value(n);
        assert(seq![spec_digit_char(n)].drop_last() =~= Seq::<char>::empty());
        assert(seq![spec_digit_char(n)].last() == spec_digit_char(n));
        assert(spec_digits_value(Seq::<char>::empty()) == 0);
    } else {
        lemma_digits_value_inverse(n / 10);
        lemma_digit_char_value(n % 10);
        vstd::arithmetic::div_mod::lemma_fundamental_div_mod(n as int, 10);
        assert(spec_digits(n).drop_last() =~= spec_digits(n / 10));
        assert(spec_digits(n).last() == spec_digit_char(n % 10));
    }
}

/// Concatenating digit runs multiplies the left value by ten to the
/// length of the right run.
proof fn lemma_value_concat(a: Seq<char>, b: Seq<char>)
    ensures
        spec_digits_value(a + b) == spec_digits_value(a) * pow10(b.len()) + spec_digits_value(b),
    decreases b.len(),
{
    if b.len() == 0 {
        assert(a + b =~= a);
        assert(pow10(b.len()) == 1);
        assert(spec_digits_value(b) == 0);
        assert(spec_digits_value(a + b) == spec_digits_value(a));
    } else {
        let b0 = b.drop_last();
        lemma_value_concat(a, b0);
        assert((a + b).drop_last() =~= a + b0);
        assert((a + b).last() == b.last());
        let va = spec_digits_value(a);
        let vb0 = spec_digits_value(b0);
        let d = spec_digit_value(b.last());
        let p0 = pow10(b0.len());
        assert(spec_digits_value(a + b) == spec_digits_value(a + b0) * 10 + d);
        assert(spec_digits_value(a + b0) == va * p0 + vb0);
        assert((va * p0 + vb0) * 10 + d == (va * p0) * 10 + (vb0 * 10 + d));
        assert((va * p0) * 10 == va * (p0 * 10)) by (nonlinear_arith);
        assert(pow10(b.len()) == 10 * p0);
        assert(vb0 * 10 + d == spec_digits_value(b));
        assert(spec_digits_value(a + b) == va * pow10(b.len()) + spec_digits_value(b));
    }
}

/// A digit run denotes at least as much as any of its prefixes.
proof fn lemma_value_prefix(s: Seq<char>, j: int)
    requires
        0 <= j <= s.len(),
    ensures
        spec_digits_value(s) >= spec_digits_value(s.take(j)),
{
    let vt = spec_digits_value(s.take(j));
    let vs = spec_digits_value(s.skip(j));
    let p = pow10((s.len() - j) as nat);
    assert(s.take(j) + s.skip(j) =~= s);
    lemma_value_concat(s.take(j), s.skip(j));
    assert(spec_digits_value(s) == vt * p + vs);
    lemma_pow10_pos((s.len() - j) as nat);
    vstd::arithmetic::mul::lemma_mul_inequality(1, p as int, vt as int);
    assert(1 * (vt as int) <= (p as int) * (vt as int));
    assert(vt * p >= vt) by (nonlinear_arith)
        requires
            p >= 1,
    ;
}

/// Serialization symmetry for unsigned decimal text: rendering a number
/// and reading the text back yields the number.
pub proof fn lemma_digits_round_trip(n: nat)
    ensures
        spec_parse_digits(spec_digits(n)) == Some(n),
{
    lemma_digits_value_inverse(n);
}

/// Serialization symmetry for signed decimal text: rendering any
/// integer and reading the text back yields the integer.
pub proof fn lemma_decimal_round_trip(v: int)
    ensures
        spec_parse_decimal(spec_decimal(v)) == Some(v),
{
    if v < 0 {
        lemma_digits_value_inverse((-v) as nat);
        let s = spec_decimal(v);
        assert(s.drop_first() =~= spec_digits((-v) as nat));
    } else {
        lemma_digits_value_inverse(v as nat);
        let s = spec_decimal(v);
        assert(is_digit_char(s[0]));
    }
}

fn char_digit(c: char) -> (r: Option<u8>)
    ensures
        match r {
            Some(d) => is_digit_char(c) && d as nat == spec_digit_value(c),
            None => !is_digit_char(c),
        },
{
    if c == '0' {
        Some(0)
    } else if c == '1' {
        Some(1)
    } else if c == '2' {
        Some(2)
    } else if c == '3' {
        Some(3)
    } else if c == '4' {
        Some(4)
    } else if c == '5' {
        Some(5)
    } else if c == '6' {
        Some(6)
    } else if c == '7' {
        Some(7)
    } else if c == '8' {
        Some(8)
    } else if c == '9' {
        Some(9)
    } else {
        None
    }
}

/// Reads the tail of `s` from `start` on as a run of decimal digits.
/// Returns the denoted value; nothing when the tail is empty, holds a
/// non-digit, or denotes more than `u128::MAX`.
fn parse_digits_u128(s: &str, start: usize) -> (r: Option<u128>)
    requires
        start as int <= s@.len(),
    ensures
        ({
            let t = s@.skip(start as int);
            match r {
                Some(u) => t.len() > 0 && all_digits(t) && u as nat == spec_digits_value(t),
                None => t.len() == 0 || !all_digits(t) || spec_digits_value(t) > u128::MAX,
            }
        }),
{
    let n = s.unicode_len();
    if start >= n {
        return None;
    }
    let ghost t = s@.skip(start as int);
    let mut val: u128 = 0;
    let mut i: usize = start;
    while i < n
        invariant
            n == s@.len(),
            start < n,
            start <= i <= n,
            t == s@.skip(start as int),
            all_digits(s@.subrange(start as int, i as int)),
            val as nat == spec_digits_value(s@.subrange(start as int, i as int)),
        decreases n - i,
    {
        let c = s.get_char(i);
        match char_digit(c) {
            None => {
                proof {
                    assert(t[i - start] == s@[i as int]);
                }
                return None;
            },
            Some(d) => {
                let ghost prefix = s@.subrange(start as int, i as int);
                let ghost longer = s@.subrange(start as int, i as int + 1);
                proof {
                    assert(longer.drop_last() =~= prefix);
                    assert(longer.last() == s@[i as int]);
                    assert(longer =~= t.take(i - start + 1));
                }
                match val.checked_mul(10) {
                    None => {
                        proof {
                            lemma_value_prefix(t, i - start + 1);
                        }
                        return None;
                    },
                    Some(v10) => {
                        match v10.checked_add(d as u128) {
                            None => {
                                proof {
                                    lemma_value_prefix(t, i - start + 1);
                                }
                                return None;
                            },
                            Some(v2) => {
                                val = v2;
                            },
                        }
                    },
                }
            },
        }
        i += 1;
    }
    proof {
        assert(s@.subrange(start as int, n as int) =~= t);
    }
    Some(val)
}

/// Reads unsigned decimal text, rejecting anything but a non-empty run
/// of digits whose value fits in a `u128`.
pub fn u128_from_decimal(s: &str) -> (r: Option<u128>)
    ensures
        match spec_parse_digits(s@) {
            Some(v) => if v <= u128::MAX {
                r matches Some(u) && u as nat == v
            } else {
                r is None
            },
            None => r is None,
        },
{
    proof {
        assert(s@.skip(0) =~= s@);
    }
    parse_digits_u128(s, 0)
}

/// Reads signed decimal text: an optional leading `'-'`, then digits,
/// rejecting anything else and any value outside the `i128` range.
pub fn i128_from_decimal(s: &str) -> (r: Option<i128>)
    ensures
        match spec_parse_decimal(s@) {
            Some(v) => if i128::MIN <= v <= i128::MAX {
                r matches Some(u) && u as int == v
            } else {
                r is None
            },
            None => r is None,
        },
{
    let n = s.unicode_len();
    if n == 0 {
        return None;
    }
    let first = s.get_char(0);
    if first == '-' {
        proof {
            assert(s@.drop_first() =~= s@.skip(1));
        }
        match parse_digits_u128(s, 1) {
            None => {
                proof {
                    if s@.skip(1).len() > 0 && all_digits(s@.skip(1)) {
                        assert(spec_digits_value(s@.skip(1)) > u128::MAX);
                    }
                }
                None
            },
            Some(m) => {
                // The magnitude of the smallest signed value.
                let neg_cap: u128 = (i128::MAX as u128) + 1;
                if m > neg_cap {
                    None
                } else if m == neg_cap {
                    Some(i128::MIN)
                } else {
                    Some(-(m as i128))
                }
            },
        }
    } else {
        match parse_digits_u128(s, 0) {
            None => {
                proof {
                    assert(s@.skip(0) =~= s@);
                    if s@.len() > 0 && all_digits(s@) {
                        assert(spec_digits_value(s@) > u128::MAX);
                    }
                }
                None
            },
            Some(m) => {
                proof {
                    assert(s@.skip(0) =~= s@);
                }
                if m > (i128::MAX as u128) {
                    None
                } else {
                    Some(m as i128)
                }
            },
        }
    }
}


/// An integer that can render itself as decimal text, with the exact
/// character sequence pinned down by [`spec_decimal`].
pub trait DecimalText: Sized {
    /// The decimal text of this value.
    spec fn spec_text(&self) -> Seq<char>;

    /// Renders this value as decimal text.
    fn to_text(&self) -> (r: String)
        ensures
            r@ == self.spec_text(),
    ;
}

impl DecimalText for i8 {
    open spec fn spec_text(&self) -> Seq<char> {
        spec_decimal(*self as int)
    }

    fn to_text(&self) -> (r: String) {
        i128_to_decimal(*self as i128)
    }
}

impl DecimalText for i16 {
    open spec fn spec_text(&self) -> Seq<char> {
        spec_decimal(*self as int)
    }

    fn to_text(&self) -> (r: String) {
        i128_to_decimal(*self as i128)
    }
}

impl DecimalText for i32 {
    open spec fn spec_text(&self) -> Seq<char> {
        spec_decimal(*self as int)
    }

    fn to_text(&self) -> (r: String) {
        i128_to_decimal(*self as i128)
    }
}

impl DecimalText for i64 {
    open spec fn spec_text(&self) -> Seq<char> {
        spec_decimal(*self as int)
    }

    fn to_text(&self) -> (r: String) {
        i128_to_decimal(*self as i128)
    }
}

impl DecimalText for i128 {
    open spec fn spec_text(&self) -> Seq<char> {
        spec_decimal(*self as int)
    }

    fn to_text(&self) -> (r: String) {
        i128_to_decimal(*self)
    }
}

impl DecimalText for isize {
    open spec fn spec_text(&self) -> Seq<char> {
        spec_decimal(*self as int)
    }

    fn to_text(&self) -> (r: String) {
        i128_to_decimal(*self as i128)
    }
}

impl DecimalText for u8 {
    open spec fn spec_text(&self) -> Seq<char> {
        spec_decimal(*self as int)
    }

    fn to_text(&self) -> (r: String) {
        u128_to_decimal(*self as u128)
    }
}

impl DecimalText for u16 {
    open spec fn spec_text(&self) -> Seq<char> {
        spec_decimal(*self as int)
    }

    fn to_text(&self) -> (r: String) {
        u128_to_decimal(*self as u128)
    }
}

impl DecimalText for u32 {
    open spec fn spec_text(&self) -> Seq<char> {
        spec_decimal(*self as int)
    }

    fn to_text(&self) -> (r: String) {
        u128_to_decimal(*self as u128)
    }
}

impl DecimalText for u64 {
    open spec fn spec_text(&self) -> Seq<char> {
        spec_decimal(*self as int)
    }

    fn to_text(&self) -> (r: String) {
        u128_to_decimal(*self as u128)
    }
}

impl DecimalText for u128 {
    open spec fn spec_text(&self) -> Seq<char> {
        spec_decimal(*self as int)
    }

    fn to_text(&self) -> (r: String) {
        u128_to_decimal(*self)
    }
}

impl DecimalText for usize {
    open spec fn spec_text(&self) -> Seq<char> {
        spec_decimal(*self as int)
    }

    fn to_text(&self) -> (r: String) {
        u128_to_decimal(*self as u128)
    }
}

} // verus!
