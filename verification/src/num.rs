//! What a number type must offer to be an operand of a hyperoperation.

use vstd::prelude::*;

verus! {

/// A number that can stand on either side of the arrows.
///
/// Such a type holds natural numbers: each value stands for one ([`value`]),
/// and the type can hold every number up to its [`limit`], or every number if
/// it has none. It can be duplicated, it has a one, and it can multiply, add,
/// subtract and compare, each operation with the result that arithmetic on the
/// natural numbers gives, as long as that result is one the type can hold.
///
/// [`value`]: NumForKnuth::value
/// [`limit`]: NumForKnuth::limit
pub trait NumForKnuth: Sized + Clone {
    /// The natural number that this value stands for.
    spec fn value(&self) -> nat;

    /// The largest number that the type can hold, if there is one.
    spec fn limit() -> Option<nat>;

    /// No value is above the type's limit.
    proof fn lemma_within_limit(&self)
        ensures
            Self::limit() matches Some(max) ==> self.value() <= max,
    ;

    /// A duplicate stands for the same number.
    proof fn lemma_clone_keeps_value(&self, copy: &Self)
        requires
            cloned(*self, *copy),
        ensures
            copy.value() == self.value(),
    ;

    /// The multiplicative identity.
    fn one() -> (r: Self)
        ensures
            r.value() == 1,
    ;

    /// The product `self * rhs`.
    fn times(self, rhs: &Self) -> (r: Self)
        requires
            Self::limit() matches Some(max) ==> self.value() * rhs.value() <= max,
        ensures
            r.value() == self.value() * rhs.value(),
    ;

    /// The sum `self + rhs`.
    fn plus(self, rhs: Self) -> (r: Self)
        requires
            Self::limit() matches Some(max) ==> self.value() + rhs.value() <= max,
        ensures
            r.value() == self.value() + rhs.value(),
    ;

    /// The difference `self - rhs`, for `rhs` no larger than `self`.
    fn minus(self, rhs: Self) -> (r: Self)
        requires
            rhs.value() <= self.value(),
        ensures
            r.value() == self.value() - rhs.value(),
    ;

    /// Whether `self <= rhs`.
    fn at_most(&self, rhs: &Self) -> (r: bool)
        ensures
            r == (self.value() <= rhs.value()),
    ;
}

/// Whether the type `Num` can hold the number `n`.
pub open spec fn fits<Num: NumForKnuth>(n: nat) -> bool {
    match Num::limit() {
        Some(max) => n <= max,
        None => true,
    }
}

impl NumForKnuth for u8 {
    open spec fn value(&self) -> nat {
        *self as nat
    }

    open spec fn limit() -> Option<nat> {
        Some(u8::MAX as nat)
    }

    proof fn lemma_within_limit(&self) {
    }

    proof fn lemma_clone_keeps_value(&self, copy: &Self) {
    }

    fn one() -> (r: Self) {
        1
    }

    fn times(self, rhs: &Self) -> (r: Self) {
        self * *rhs
    }

    fn plus(self, rhs: Self) -> (r: Self) {
        self + rhs
    }

    fn minus(self, rhs: Self) -> (r: Self) {
        self - rhs
    }

    fn at_most(&self, rhs: &Self) -> (r: bool) {
        *self <= *rhs
    }
}

impl NumForKnuth for u16 {
    open spec fn value(&self) -> nat {
        *self as nat
    }

    open spec fn limit() -> Option<nat> {
        Some(u16::MAX as nat)
    }

    proof fn lemma_within_limit(&self) {
    }

    proof fn lemma_clone_keeps_value(&self, copy: &Self) {
    }

    fn one() -> (r: Self) {
        1
    }

    fn times(self, rhs: &Self) -> (r: Self) {
        self * *rhs
    }

    fn plus(self, rhs: Self) -> (r: Self) {
        self + rhs
    }

    fn minus(self, rhs: Self) -> (r: Self) {
        self - rhs
    }

    fn at_most(&self, rhs: &Self) -> (r: bool) {
        *self <= *rhs
    }
}

impl NumForKnuth for u32 {
    open spec fn value(&self) -> nat {
        *self as nat
    }

    open spec fn limit() -> Option<nat> {
        Some(u32::MAX as nat)
    }

    proof fn lemma_within_limit(&self) {
    }

    proof fn lemma_clone_keeps_value(&self, copy: &Self) {
    }

    fn one() -> (r: Self) {
        1
    }

    fn times(self, rhs: &Self) -> (r: Self) {
        self * *rhs
    }

    fn plus(self, rhs: Self) -> (r: Self) {
        self + rhs
    }

    fn minus(self, rhs: Self) -> (r: Self) {
        self - rhs
    }

    fn at_most(&self, rhs: &Self) -> (r: bool) {
        *self <= *rhs
    }
}

impl NumForKnuth for u64 {
    open spec fn value(&self) -> nat {
        *self as nat
    }

    open spec fn limit() -> Option<nat> {
        Some(u64::MAX as nat)
    }

    proof fn lemma_within_limit(&self) {
    }

    proof fn lemma_clone_keeps_value(&self, copy: &Self) {
    }

    fn one() -> (r: Self) {
        1
    }

    fn times(self, rhs: &Self) -> (r: Self) {
        self * *rhs
    }

    fn plus(self, rhs: Self) -> (r: Self) {
        self + rhs
    }

    fn minus(self, rhs: Self) -> (r: Self) {
        self - rhs
    }

    fn at_most(&self, rhs: &Self) -> (r: bool) {
        *self <= *rhs
    }
}

impl NumForKnuth for u128 {
    open spec fn value(&self) -> nat {
        *self as nat
    }

    open spec fn limit() -> Option<nat> {
        Some(u128::MAX as nat)
    }

    proof fn lemma_within_limit(&self) {
    }

    proof fn lemma_clone_keeps_value(&self, copy: &Self) {
    }

    fn one() -> (r: Self) {
        1
    }

    fn times(self, rhs: &Self) -> (r: Self) {
        self * *rhs
    }

    fn plus(self, rhs: Self) -> (r: Self) {
        self + rhs
    }

    fn minus(self, rhs: Self) -> (r: Self) {
        self - rhs
    }

    fn at_most(&self, rhs: &Self) -> (r: bool) {
        *self <= *rhs
    }
}

impl NumForKnuth for usize {
    open spec fn value(&self) -> nat {
        *self as nat
    }

    open spec fn limit() -> Option<nat> {
        Some(usize::MAX as nat)
    }

    proof fn lemma_within_limit(&self) {
    }

    proof fn lemma_clone_keeps_value(&self, copy: &Self) {
    }

    fn one() -> (r: Self) {
        1
    }

    fn times(self, rhs: &Self) -> (r: Self) {
        self * *rhs
    }

    fn plus(self, rhs: Self) -> (r: Self) {
        self + rhs
    }

    fn minus(self, rhs: Self) -> (r: Self) {
        self - rhs
    }

    fn at_most(&self, rhs: &Self) -> (r: bool) {
        *self <= *rhs
    }
}

} // verus!
