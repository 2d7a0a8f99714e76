//! Exact decimal values, held as a mantissa and a scale, and their text.

use crate::digits::{
    all_digits, char_digit, digits_value, is_digit, lemma_leading_zeros, lemma_nat_digits,
    nat_digits,
};
use vstd::prelude::*;

verus! {

/// The largest magnitude of a mantissa: 2^96 - 1.
pub const MAX_MANTISSA: i128 = 79228162514264337593543950335;

/// The largest scale, the number of digits after the decimal point.
pub const MAX_SCALE: u32 = 28;

/// The number `mantissa / 10^scale`, kept with its scale so that trailing
/// fractional zeros are kept too.
#[derive(Clone, Copy, Debug, PartialEq, Eq)]
pub struct DecimalValue {
    pub mantissa: i128,
    pub scale: u32,
}

impl DecimalValue {
    pub open spec fn wf(self) -> bool {
        -MAX_MANTISSA <= self.mantissa <= MAX_MANTISSA && self.scale <= MAX_SCALE
    }

    pub fn is_wf(&self) -> (r: bool)
        ensures
            r == self.wf(),
    {
        -MAX_MANTISSA <= self.mantissa && self.mantissa <= MAX_MANTISSA && self.scale <= MAX_SCALE
    }

    pub open spec fn text(self) -> Seq<char> {
        decimal_text(self.mantissa as int, self.scale as nat)
    }

    /// The value `mantissa / 10^scale`, or `None` where either part is out of range.
    pub fn new(mantissa: i128, scale: u32) -> (r: Option<DecimalValue>)
        ensures
            r is Some <==> (-MAX_MANTISSA <= mantissa <= MAX_MANTISSA && scale <= MAX_SCALE),
            r matches Some(d) ==> d.mantissa == mantissa && d.scale == scale && d.wf(),
    {
        if -MAX_MANTISSA <= mantissa && mantissa <= MAX_MANTISSA && scale <= MAX_SCALE {
            Some(DecimalValue { mantissa, scale })
        } else {
            None
        }
    }

    /// The full-precision text of the value.
    pub fn to_text(&self) -> (r: String)
        requires
            self.wf(),
        ensures
            r@ == self.text(),
    {
        decimal_display(self.mantissa, self.scale)
    }
}

pub open spec fn abs(m: int) -> nat {
    if m < 0 {
        (-m) as nat
    } else {
        m as nat
    }
}

/// The digits of `n`, with leading zeros up to a length of `width` at least.
pub open spec fn padded_digits(n: nat, width: nat) -> Seq<char> {
    let d = nat_digits(n);
    if d.len() < width {
        Seq::new((width - d.len()) as nat, |i: int| '0') + d
    } else {
        d
    }
}

/// The text of `m / 10^s`: a minus sign for a negative `m`, the whole part
/// without leading zeros ("0" when it is zero), and, when `s > 0`, a point
/// followed by exactly `s` fractional digits.
pub open spec fn decimal_text(m: int, s: nat) -> Seq<char> {
    let p = padded_digits(abs(m), s + 1);
    let unsigned = if s == 0 {
        p
    } else {
        p.subrange(0, p.len() - s) + seq!['.'] + p.subrange(p.len() - s, p.len() as int)
    };
    if m < 0 {
        seq!['-'] + unsigned
    } else {
        unsigned
    }
}

/// Reads an unsigned decimal text: the value of its digits, the number of
/// digits after the point, and whether a point was seen.
pub open spec fn read_unsigned(t: Seq<char>) -> (nat, nat, bool)
    decreases t.len(),
{
    if t.len() == 0 {
        (0, 0, false)
    } else {
        let (v, s, point) = read_unsigned(t.drop_last());
        if t.last() == '.' {
            (v, s, true)
        } else {
            (v * 10 + char_digit(t.last()), if point {
                s + 1
            } else {
                s
            }, point)
        }
    }
}

/// Reads a decimal text back into its mantissa and scale.
pub open spec fn parse_decimal_text(t: Seq<char>) -> (int, nat) {
    if t.len() > 0 && t[0] == '-' {
        let (v, s, _) = read_unsigned(t.drop_first());
        (-v, s)
    } else {
        let (v, s, _) = read_unsigned(t);
        (v as int, s)
    }
}

/// Relies on rust_decimal: `Decimal::from_i128_with_scale` makes the value
/// `mantissa / 10^scale` (it panics where `requires` does not hold), and its
/// `Display` writes the sign, the whole part and then all `scale` fractional
/// digits, trailing zeros included.
#[verifier::external_body]
fn decimal_display(mantissa: i128, scale: u32) -> (r: String)
    requires
        -MAX_MANTISSA <= mantissa <= MAX_MANTISSA,
        scale <= MAX_SCALE,
    ensures
        r@ == decimal_text(mantissa as int, scale as nat),
{
    rust_decimal::Decimal::from_i128_with_scale(mantissa, scale).to_string()
}

proof fn lemma_read_digits(x: Seq<char>)
    requires
        all_digits(x),
    ensures
        read_unsigned(x) == (digits_value(x), 0nat, false),
    decreases x.len(),
{
    if x.len() > 0 {
        lemma_read_digits(x.drop_last());
        assert(is_digit(x[x.len() - 1]));
    }
}

proof fn lemma_read_point(x: Seq<char>, y: Seq<char>)
    requires
        all_digits(x),
        all_digits(y),
    ensures
        read_unsigned(x + seq!['.'] + y) == (digits_value(x + y), y.len(), true),
    decreases y.len(),
{
    let t = x + seq!['.'] + y;
    if y.len() == 0 {
        assert(t.drop_last() =~= x);
        assert(x + y =~= x);
        lemma_read_digits(x);
    } else {
        assert(t.drop_last() =~= x + seq!['.'] + y.drop_last());
        assert((x + y).drop_last() =~= x + y.drop_last());
        assert(is_digit(y[y.len() - 1]));
        lemma_read_point(x, y.drop_last());
    }
}

proof fn lemma_padded_digits(n: nat, width: nat)
    ensures
        all_digits(padded_digits(n, width)),
        digits_value(padded_digits(n, width)) == n,
        padded_digits(n, width).len() >= width,
{
    lemma_nat_digits(n);
    let d = nat_digits(n);
    if d.len() < width {
        let k = (width - d.len()) as nat;
        lemma_leading_zeros(k, d);
        let p = Seq::new(k, |i: int| '0') + d;
        assert forall|i: int| 0 <= i < p.len() implies is_digit(#[trigger] p[i]) by {
            if i >= k {
                assert(p[i] == d[i - k]);
            }
        }
    }
}

/// The text of a decimal value loses nothing: reading it back gives the
/// same mantissa and the same scale.
pub proof fn decimal_text_round_trip(d: DecimalValue)
    requires
        d.wf(),
    ensures
        parse_decimal_text(d.text()) == (d.mantissa as int, d.scale as nat),
{
    let m = d.mantissa as int;
    let s = d.scale as nat;
    let p = padded_digits(abs(m), s + 1);
    lemma_padded_digits(abs(m), s + 1);
    let unsigned = if s == 0 {
        p
    } else {
        p.subrange(0, p.len() - s) + seq!['.'] + p.subrange(p.len() - s, p.len() as int)
    };
    if s == 0 {
        lemma_read_digits(p);
    } else {
        let x = p.subrange(0, p.len() - s);
        let y = p.subrange(p.len() - s, p.len() as int);
        assert(x + y =~= p);
        assert(all_digits(x));
        assert(all_digits(y));
        lemma_read_point(x, y);
    }
    assert(read_unsigned(unsigned) == (abs(m), s, s > 0));
    if m < 0 {
        assert((seq!['-'] + unsigned).drop_first() =~= unsigned);
    } else {
        assert(is_digit(unsigned[0]));
    }
}

} // verus!
