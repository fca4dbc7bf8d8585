//! Evaluation of a hyperoperation, and the expression type that holds one.

use crate::arrows::{evaluable, lemma_next_round, lemma_second_operand_one, up_arrow};
use crate::num::{fits, NumForKnuth};
use vstd::prelude::*;

verus! {

/// Calculates `num_a ↑ⁿ num_b`, where `n = arrows` is the number of arrows in
/// Knuth's up-arrow notation; `hyperoperation(&4, 3, 2)` is `4 ↑↑ 3`.
///
/// No arrow is the product. With arrows, the result is built up from
/// `num_a ↑ⁿ 1 = num_a` by applying the operation with one arrow less
/// `num_b - 1` times. The operands must be ones on which that can be done
/// ([`evaluable`]), and the result must be a number that `Num` can hold: every
/// intermediate result then is one too.
pub fn hyperoperation<Num: NumForKnuth>(num_a: &Num, num_b: Num, arrows: u8) -> (result: Num)
    requires
        evaluable(num_a.value(), num_b.value(), arrows as nat),
        fits::<Num>(up_arrow(num_a.value(), num_b.value(), arrows as nat)),
    ensures
        result.value() == up_arrow(num_a.value(), num_b.value(), arrows as nat),
        arrows == 0 ==> result.value() == num_a.value() * num_b.value(),
        num_b.value() == 1 ==> result.value() == num_a.value(),
    decreases arrows,
{
    let ghost a = num_a.value();
    let ghost b = num_b.value();
    let ghost n = arrows as nat;
    proof {
        lemma_second_operand_one(a, n);
    }
    if arrows == 0 {
        assert(b * a == a * b) by (nonlinear_arith);
        num_b.times(num_a)
    } else {
        proof {
            num_b.lemma_within_limit();
        }
        let mut res = num_a.clone();
        proof {
            num_a.lemma_clone_keeps_value(&res);
        }
        let max = num_b.minus(Num::one());
        let mut round = Num::one();
        while round.at_most(&max)
            invariant
                n == arrows >= 1,
                a == num_a.value(),
                max.value() + 1 == b,
                evaluable(a, b, n),
                fits::<Num>(b),
                fits::<Num>(up_arrow(a, b, n)),
                1 <= round.value() <= b,
                res.value() == up_arrow(a, round.value(), n),
            decreases b - round.value(),
        {
            proof {
                lemma_next_round(a, b, n, round.value());
            }
            res = hyperoperation(num_a, res, arrows - 1);
            round = round.plus(Num::one());
        }
        res
    }
}

/// A hyperoperation `num_a ↑ⁿ num_b` that has not been evaluated yet.
///
/// It can be evaluated with [`evaluate`](Self::evaluate) and written in
/// Knuth's up-arrow notation with [`to_string`](Self::to_string).
pub struct Hyperoperation<Num: NumForKnuth> {
    /// The first number, before the arrows.
    pub num_a: Num,
    /// The second number, after the arrows.
    pub num_b: Num,
    /// The number of arrows.
    pub arrows: u8,
}

impl<Num: NumForKnuth> Clone for Hyperoperation<Num> {
    /// A copy of the expression: the same two numbers and the same arrows.
    fn clone(&self) -> (copy: Self)
        ensures
            copy.num_a.value() == self.num_a.value(),
            copy.num_b.value() == self.num_b.value(),
            copy.arrows == self.arrows,
    {
        let num_a = self.num_a.clone();
        let num_b = self.num_b.clone();
        proof {
            self.num_a.lemma_clone_keeps_value(&num_a);
            self.num_b.lemma_clone_keeps_value(&num_b);
        }
        Self { num_a, num_b, arrows: self.arrows }
    }
}

impl<Num: NumForKnuth> Hyperoperation<Num> {
    /// The number that the expression stands for.
    pub open spec fn value(&self) -> nat {
        up_arrow(self.num_a.value(), self.num_b.value(), self.arrows as nat)
    }

    /// Whether the expression can be evaluated: its operands are ones on which
    /// the evaluation is defined, and `Num` can hold its value.
    pub open spec fn can_evaluate(&self) -> bool {
        &&& evaluable(self.num_a.value(), self.num_b.value(), self.arrows as nat)
        &&& fits::<Num>(self.value())
    }

    /// The expression `num_a ↑ⁿ num_b` with `n = arrows`.
    pub fn new(num_a: Num, num_b: Num, arrows: u8) -> (expr: Self)
        ensures
            expr.num_a == num_a,
            expr.num_b == num_b,
            expr.arrows == arrows,
    {
        Self { num_a, num_b, arrows }
    }

    /// Calculates the value of the expression, as [`hyperoperation`] does for
    /// its two numbers and its arrows.
    pub fn evaluate(self) -> (result: Num)
        requires
            self.can_evaluate(),
        ensures
            result.value() == self.value(),
    {
        hyperoperation(&self.num_a, self.num_b, self.arrows)
    }
}

} // verus!
