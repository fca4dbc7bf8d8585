//! The mathematics of the up-arrow: what `a ↑ⁿ b` is, on which operands it can
//! be evaluated by counting up from `a ↑ⁿ 1`, and the laws that hold of it.

use vstd::arithmetic::power::pow;
use vstd::prelude::*;

verus! {

/// The value of `a ↑ⁿ b` with `n = arrows`, as Knuth defines it.
///
/// No arrow is the product, one arrow the power, two arrows the power tower,
/// and so on: with at least one arrow, `a ↑ⁿ 0 = 1` and
/// `a ↑ⁿ b = a ↑ⁿ⁻¹ (a ↑ⁿ (b - 1))`.
pub open spec fn up_arrow(a: nat, b: nat, arrows: nat) -> nat
    decreases arrows, b,
{
    if arrows == 0 {
        a * b
    } else if b == 0 {
        1
    } else {
        up_arrow(a, up_arrow(a, (b - 1) as nat, arrows), (arrows - 1) as nat)
    }
}

/// The operands on which `a ↑ⁿ b` can be evaluated by starting from
/// `a ↑ⁿ 1 = a` and applying the operation one level down `b - 1` times,
/// without ever decrementing a number that is zero.
///
/// A product always can. With arrows, `b` itself is decremented, so `b >= 1`;
/// and every intermediate result is the second operand one level down, so it
/// must not be zero where that level still has arrows. Results are positive
/// when `a >= 1`. When `a = 0` they are zero, which does no harm only if the
/// level below is the product (`arrows = 1`) or nothing is applied at all
/// (`b = 1`).
pub open spec fn evaluable(a: nat, b: nat, arrows: nat) -> bool {
    arrows == 0 || (b >= 1 && (a >= 1 || arrows == 1 || b == 1))
}

/// With no arrow the operation is multiplication.
pub proof fn lemma_no_arrow_is_product(a: nat, b: nat)
    ensures
        up_arrow(a, b, 0) == a * b,
{
}

/// Every operation of the family leaves `a` unchanged when `b` is one.
pub proof fn lemma_second_operand_one(a: nat, arrows: nat)
    ensures
        up_arrow(a, 1, arrows) == a,
    decreases arrows,
{
    if arrows == 0 {
        assert(a * 1 == a) by (nonlinear_arith);
    } else {
        lemma_second_operand_one(a, (arrows - 1) as nat);
        assert(up_arrow(a, 0, arrows) == 1);
    }
}

/// With one arrow the operation is exponentiation: `a ↑ b = a^b`.
pub proof fn lemma_one_arrow_is_power(a: nat, b: nat)
    ensures
        up_arrow(a, b, 1) == pow(a as int, b),
    decreases b,
{
    reveal(pow);
    if b > 0 {
        let below = (b - 1) as nat;
        lemma_one_arrow_is_power(a, below);
        assert(up_arrow(a, b, 1) == up_arrow(a, up_arrow(a, below, 1), 0));
    }
}

/// Each operation is the one a level down, applied to the result for `b - 1`.
pub proof fn lemma_recursion(a: nat, b: nat, arrows: nat)
    requires
        arrows >= 1,
        b >= 1,
    ensures
        up_arrow(a, b, arrows) == up_arrow(
            a,
            up_arrow(a, (b - 1) as nat, arrows),
            (arrows - 1) as nat,
        ),
{
}

/// With a positive base every result is positive.
pub proof fn lemma_positive(a: nat, b: nat, arrows: nat)
    requires
        a >= 1,
        b >= 1,
    ensures
        up_arrow(a, b, arrows) >= 1,
    decreases arrows, b,
{
    if arrows == 0 {
        assert(a * b >= 1) by (nonlinear_arith)
            requires
                a >= 1,
                b >= 1,
        ;
    } else {
        let inner = up_arrow(a, (b - 1) as nat, arrows);
        if b >= 2 {
            lemma_positive(a, (b - 1) as nat, arrows);
        }
        lemma_positive(a, inner, (arrows - 1) as nat);
    }
}

/// Zero to any power of at least one is zero.
pub proof fn lemma_base_zero(b: nat)
    requires
        b >= 1,
    ensures
        up_arrow(0, b, 1) == 0,
{
    let inner = up_arrow(0, (b - 1) as nat, 1);
    assert(up_arrow(0, b, 1) == up_arrow(0, inner, 0));
    assert(0 * inner == 0) by (nonlinear_arith);
}

/// With base one and at least one arrow every result is one.
pub proof fn lemma_base_one(b: nat, arrows: nat)
    requires
        arrows >= 1,
    ensures
        up_arrow(1, b, arrows) == 1,
    decreases arrows, b,
{
    if b >= 1 {
        lemma_base_one((b - 1) as nat, arrows);
        lemma_second_operand_one(1, (arrows - 1) as nat);
    }
}

/// With a base of at least two every result exceeds the second operand.
pub proof fn lemma_exceeds_second_operand(a: nat, b: nat, arrows: nat)
    requires
        a >= 2,
        b >= 1,
    ensures
        up_arrow(a, b, arrows) > b,
    decreases arrows, b,
{
    if arrows == 0 {
        assert(a * b > b) by (nonlinear_arith)
            requires
                a >= 2,
                b >= 1,
        ;
    } else {
        let inner = up_arrow(a, (b - 1) as nat, arrows);
        if b >= 2 {
            lemma_exceeds_second_operand(a, (b - 1) as nat, arrows);
        }
        lemma_exceeds_second_operand(a, inner, (arrows - 1) as nat);
    }
}

/// With a positive base the result does not shrink when the second operand
/// grows.
pub proof fn lemma_monotone(a: nat, b1: nat, b2: nat, arrows: nat)
    requires
        a >= 1,
        1 <= b1 <= b2,
    ensures
        up_arrow(a, b1, arrows) <= up_arrow(a, b2, arrows),
    decreases b2,
{
    if arrows == 0 {
        assert(a * b1 <= a * b2) by (nonlinear_arith)
            requires
                b1 <= b2,
        ;
    } else if a == 1 {
        lemma_base_one(b1, arrows);
        lemma_base_one(b2, arrows);
    } else if b1 < b2 {
        let inner = up_arrow(a, (b2 - 1) as nat, arrows);
        lemma_monotone(a, b1, (b2 - 1) as nat, arrows);
        lemma_positive(a, (b2 - 1) as nat, arrows);
        lemma_exceeds_second_operand(a, inner, (arrows - 1) as nat);
    }
}

/// One round of the evaluation: having reached `a ↑ⁿ i` for some `i < b`, the
/// operation one level down can be applied to it, gives `a ↑ⁿ (i + 1)`, and
/// that is no larger than the final result `a ↑ⁿ b`.
pub proof fn lemma_next_round(a: nat, b: nat, arrows: nat, i: nat)
    requires
        arrows >= 1,
        evaluable(a, b, arrows),
        1 <= i < b,
    ensures
        evaluable(a, up_arrow(a, i, arrows), (arrows - 1) as nat),
        up_arrow(a, up_arrow(a, i, arrows), (arrows - 1) as nat) == up_arrow(a, i + 1, arrows),
        up_arrow(a, i + 1, arrows) <= up_arrow(a, b, arrows),
{
    if a >= 1 {
        lemma_positive(a, i, arrows);
        lemma_monotone(a, i + 1, b, arrows);
    } else {
        lemma_base_zero(i + 1);
        lemma_base_zero(b);
    }
}

} // verus!
