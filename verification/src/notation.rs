//! Knuth's up-arrow notation for an expression: `3 ↑↑ 4`, or `3 × 4` where
//! there is no arrow.

use crate::eval::Hyperoperation;
use crate::num::NumForKnuth;
use vstd::prelude::*;
use vstd::string::StringExecFns;

verus! {

/// The character for the digit `d`, for `d` below ten.
pub open spec fn digit(d: nat) -> char {
    seq!['0', '1', '2', '3', '4', '5', '6', '7', '8', '9'][d as int]
}

/// The decimal numeral of `n`: its digits from the most significant one down,
/// none of them a leading zero, and the single digit `0` for zero.
pub open spec fn decimal(n: nat) -> Seq<char>
    decreases n,
{
    if n < 10 {
        seq![digit(n)]
    } else {
        decimal(n / 10).push(digit(n % 10))
    }
}

/// What stands between the two numbers: the multiplication sign where there
/// is no arrow, else as many up-arrows as there are.
pub open spec fn arrow_glyphs(arrows: nat) -> Seq<char> {
    if arrows == 0 {
        seq!['×']
    } else {
        Seq::new(arrows, |i: int| '↑')
    }
}

/// The notation of `a ↑ⁿ b`: the two numerals with the arrows between them,
/// set off by one space on either side.
pub open spec fn notation(a: nat, b: nat, arrows: nat) -> Seq<char> {
    decimal(a) + seq![' '] + arrow_glyphs(arrows) + seq![' '] + decimal(b)
}

/// A number that can be written out in decimal.
pub trait ToDecimal: NumForKnuth {
    /// The decimal numeral of the number.
    fn to_decimal(&self) -> (text: String)
        ensures
            text@ == decimal(self.value()),
    ;
}

/// Appends the decimal numeral of `n` to `text`.
pub fn push_decimal(text: &mut String, n: u128)
    ensures
        final(text)@ == old(text)@ + decimal(n as nat),
    decreases n,
{
    if n >= 10 {
        push_decimal(text, n / 10);
    }
    let d: usize = (n % 10) as usize;
    let digits = "0123456789";
    proof {
        reveal_strlit("0123456789");
    }
    let one_digit = digits.substring_ascii(d, d + 1);
    assert(one_digit@ =~= seq![digit(d as nat)]);
    text.append(one_digit);
    assert(text@ =~= old(text)@ + decimal(n as nat));
}

impl ToDecimal for u8 {
    fn to_decimal(&self) -> (text: String) {
        let mut text = String::new();
        push_decimal(&mut text, *self as u128);
        text
    }
}

impl ToDecimal for u16 {
    fn to_decimal(&self) -> (text: String) {
        let mut text = String::new();
        push_decimal(&mut text, *self as u128);
        text
    }
}

impl ToDecimal for u32 {
    fn to_decimal(&self) -> (text: String) {
        let mut text = String::new();
        push_decimal(&mut text, *self as u128);
        text
    }
}

impl ToDecimal for u64 {
    fn to_decimal(&self) -> (text: String) {
        let mut text = String::new();
        push_decimal(&mut text, *self as u128);
        text
    }
}

impl ToDecimal for u128 {
    fn to_decimal(&self) -> (text: String) {
        let mut text = String::new();
        push_decimal(&mut text, *self);
        text
    }
}

impl ToDecimal for usize {
    fn to_decimal(&self) -> (text: String) {
        let mut text = String::new();
        push_decimal(&mut text, *self as u128);
        text
    }
}

impl<Num: ToDecimal> Hyperoperation<Num> {
    /// Writes the expression in Knuth's up-arrow notation.
    ///
    /// The text depends on the two numbers and the count of arrows alone.
    pub fn to_string(&self) -> (text: String)
        ensures
            text@ == notation(self.num_a.value(), self.num_b.value(), self.arrows as nat),
    {
        let mut text = self.num_a.to_decimal();
        text.append(" ");
        let ghost head = text@;
        if self.arrows == 0 {
            text.append("×");
        } else {
            let mut drawn: u8 = 0;
            while drawn < self.arrows
                invariant
                    drawn <= self.arrows,
                    text@ == head + Seq::new(drawn as nat, |i: int| '↑'),
                decreases self.arrows - drawn,
            {
                text.append("↑");
                drawn = drawn + 1;
                proof {
                    reveal_strlit("↑");
                }
                assert(text@ =~= head + Seq::new(drawn as nat, |i: int| '↑'));
            }
        }
        text.append(" ");
        let tail = self.num_b.to_decimal();
        text.append(tail.as_str());
        proof {
            reveal_strlit(" ");
            reveal_strlit("×");
        }
        assert(text@ =~= notation(
            self.num_a.value(),
            self.num_b.value(),
            self.arrows as nat,
        ));
        text
    }
}

} // verus!
