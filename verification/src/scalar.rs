use vstd::prelude::*;

verus! {

/// The numbers that coefficients, constants and bounds are made of.
///
/// Each operation is a total function of its operands. The `_spec`
/// functions give the operations a name in contracts. Few laws are asked of
/// them, and only of finite values, so that rounding arithmetic fits as well
/// as exact arithmetic does: an infinite bound stays what it is when a finite
/// value is added or taken off, the reciprocal of zero is not finite, and a
/// sum of two finite values does not depend on their order.
///
/// An implementation outside verified code, such as one for floating-point
/// numbers, writes each `_spec` function as the operation that it names.
pub trait Scalar: Copy {
    /// The neutral element of addition: what unused entries hold.
    spec fn zero_spec() -> Self;

    /// The coefficient of a bare variable.
    spec fn one_spec() -> Self;

    /// The factor by which a squared form is scaled.
    spec fn two_spec() -> Self;

    /// The upper bound that leaves a row unbounded above.
    spec fn infinity_spec() -> Self;

    /// The lower bound that leaves a row unbounded below.
    spec fn neg_infinity_spec() -> Self;

    spec fn plus_spec(self, rhs: Self) -> Self;

    spec fn minus_spec(self, rhs: Self) -> Self;

    spec fn times_spec(self, rhs: Self) -> Self;

    /// One divided by `self`.
    spec fn recip_spec(self) -> Self;

    /// Whether `self` is an ordinary number: neither an infinite bound nor
    /// what an operation gives where no number is the result.
    spec fn is_finite_spec(self) -> bool;

    /// Zero is finite, and the two infinite bounds are not.
    proof fn lemma_finite_and_infinite()
        ensures
            Self::zero_spec().is_finite_spec(),
            !Self::infinity_spec().is_finite_spec(),
            !Self::neg_infinity_spec().is_finite_spec(),
    ;

    /// A finite value added to an infinite bound, or taken off it, leaves
    /// the bound unbounded on its side.
    proof fn lemma_infinite_bounds_absorb(c: Self)
        requires
            c.is_finite_spec(),
        ensures
            Self::infinity_spec().minus_spec(c) == Self::infinity_spec(),
            Self::neg_infinity_spec().minus_spec(c) == Self::neg_infinity_spec(),
            Self::infinity_spec().plus_spec(c) == Self::infinity_spec(),
            Self::neg_infinity_spec().plus_spec(c) == Self::neg_infinity_spec(),
    ;

    /// Division by zero gives no finite value.
    proof fn lemma_reciprocal_of_zero()
        ensures
            !Self::zero_spec().recip_spec().is_finite_spec(),
    ;

    /// The sum of two finite values does not depend on their order.
    proof fn lemma_plus_commutes(x: Self, y: Self)
        requires
            x.is_finite_spec(),
            y.is_finite_spec(),
        ensures
            x.plus_spec(y) == y.plus_spec(x),
    ;

    fn zero() -> (r: Self)
        ensures
            r == Self::zero_spec(),
    ;

    fn one() -> (r: Self)
        ensures
            r == Self::one_spec(),
    ;

    fn two() -> (r: Self)
        ensures
            r == Self::two_spec(),
    ;

    fn infinity() -> (r: Self)
        ensures
            r == Self::infinity_spec(),
    ;

    fn neg_infinity() -> (r: Self)
        ensures
            r == Self::neg_infinity_spec(),
    ;

    fn plus(self, rhs: Self) -> (r: Self)
        ensures
            r == self.plus_spec(rhs),
    ;

    fn minus(self, rhs: Self) -> (r: Self)
        ensures
            r == self.minus_spec(rhs),
    ;

    fn times(self, rhs: Self) -> (r: Self)
        ensures
            r == self.times_spec(rhs),
    ;

    fn recip(self) -> (r: Self)
        ensures
            r == self.recip_spec(),
    ;
}

/// Exact integers in two's complement. The greatest and the least value
/// stand for the infinite bounds; every value between them is finite. Sums
/// and differences of finite values wrap; with an infinite operand they are
/// infinite: the left operand if it is infinite, else the right one with the
/// sign that the operation gives it. Products wrap. The reciprocal is the
/// quotient of one by the value, rounded towards zero, and infinite for zero.
impl Scalar for i64 {
    open spec fn zero_spec() -> i64 {
        0
    }

    open spec fn one_spec() -> i64 {
        1
    }

    open spec fn two_spec() -> i64 {
        2
    }

    open spec fn infinity_spec() -> i64 {
        i64::MAX
    }

    open spec fn neg_infinity_spec() -> i64 {
        i64::MIN
    }

    open spec fn plus_spec(self, rhs: i64) -> i64 {
        if self == i64::MAX || self == i64::MIN {
            self
        } else if rhs == i64::MAX || rhs == i64::MIN {
            rhs
        } else {
            self.wrapping_add(rhs)
        }
    }

    open spec fn minus_spec(self, rhs: i64) -> i64 {
        if self == i64::MAX || self == i64::MIN {
            self
        } else if rhs == i64::MAX {
            i64::MIN
        } else if rhs == i64::MIN {
            i64::MAX
        } else {
            self.wrapping_sub(rhs)
        }
    }

    open spec fn times_spec(self, rhs: i64) -> i64 {
        self.wrapping_mul(rhs)
    }

    open spec fn recip_spec(self) -> i64 {
        if self == 0 {
            i64::MAX
        } else if self == 1 || self == -1 {
            self
        } else {
            0
        }
    }

    open spec fn is_finite_spec(self) -> bool {
        i64::MIN < self < i64::MAX
    }

    proof fn lemma_finite_and_infinite() {
    }

    proof fn lemma_infinite_bounds_absorb(c: i64) {
    }

    proof fn lemma_reciprocal_of_zero() {
    }

    proof fn lemma_plus_commutes(x: i64, y: i64) {
    }

    fn zero() -> (r: i64) {
        0
    }

    fn one() -> (r: i64) {
        1
    }

    fn two() -> (r: i64) {
        2
    }

    fn infinity() -> (r: i64) {
        i64::MAX
    }

    fn neg_infinity() -> (r: i64) {
        i64::MIN
    }

    fn plus(self, rhs: i64) -> (r: i64) {
        if self == i64::MAX || self == i64::MIN {
            self
        } else if rhs == i64::MAX || rhs == i64::MIN {
            rhs
        } else {
            self.wrapping_add(rhs)
        }
    }

    fn minus(self, rhs: i64) -> (r: i64) {
        if self == i64::MAX || self == i64::MIN {
            self
        } else if rhs == i64::MAX {
            i64::MIN
        } else if rhs == i64::MIN {
            i64::MAX
        } else {
            self.wrapping_sub(rhs)
        }
    }

    fn times(self, rhs: i64) -> (r: i64) {
        self.wrapping_mul(rhs)
    }

    fn recip(self) -> (r: i64) {
        if self == 0 {
            i64::MAX
        } else if self == 1 || self == -1 {
            self
        } else {
            0
        }
    }
}

} // verus!
