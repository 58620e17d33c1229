//! Floating-point literals held as the decimal numerals they print as.
//!
//! `Display` writes a float with the fewest digits that read back as the same
//! value, without a trailing zero after the point and without a point for a
//! whole number (`3.0f32` prints `3`). A `Decimal` holds such a numeral as
//! plain integers, so the text can be built and proved without floating point.

use vstd::prelude::*;
use crate::text::{digits, padded_digits, push_char, push_digits, push_padded_digits};

verus! {

/// `10` raised to `n`.
pub open spec fn pow10(n: nat) -> nat
    decreases n,
{
    if n == 0 {
        1
    } else {
        10 * pow10((n - 1) as nat)
    }
}

/// A decimal numeral: a sign, a whole part, and a fractional part of
/// `frac_digits` digits whose value is `frac`.
#[derive(Clone, Copy, Debug, PartialEq, Eq)]
pub struct Decimal {
    pub negative: bool,
    pub whole: u64,
    pub frac: u64,
    pub frac_digits: u32,
}

impl Decimal {
    /// The fractional part fits its digits and, when there is one, ends in a
    /// non-zero digit: the numeral is written as `Display` writes a float.
    pub open spec fn wf(&self) -> bool {
        &&& (self.frac as nat) < pow10(self.frac_digits as nat)
        &&& self.frac_digits > 0 ==> self.frac % 10 != 0
    }

    /// The text of the numeral: an optional minus sign, the whole part, and,
    /// when there are fractional digits, a point followed by exactly
    /// `frac_digits` digits.
    pub open spec fn text(&self) -> Seq<char> {
        let sign: Seq<char> = if self.negative {
            seq!['-']
        } else {
            Seq::empty()
        };
        let fraction: Seq<char> = if self.frac_digits == 0 {
            Seq::empty()
        } else {
            seq!['.'] + padded_digits(self.frac as nat, self.frac_digits as nat)
        };
        sign + digits(self.whole as nat) + fraction
    }

    /// Appends the text of the numeral.
    pub fn push_text(&self, s: &mut String)
        ensures
            final(s)@ == old(s)@ + self.text(),
    {
        if self.negative {
            push_char(s, '-');
        }
        push_digits(s, self.whole);
        if self.frac_digits > 0 {
            push_char(s, '.');
            push_padded_digits(s, self.frac, self.frac_digits);
        }
        assert(final(s)@ =~= old(s)@ + self.text());
    }

    /// The text of the numeral.
    pub fn to_text(&self) -> (r: String)
        ensures
            r@ == self.text(),
    {
        let mut s = String::new();
        self.push_text(&mut s);
        assert(s@ =~= self.text());
        s
    }
}

} // verus!
