use vstd::prelude::*;
use crate::lin::{LinExpr, LinModel};
use crate::row::{row_unit, unit_row};
use crate::scalar::Scalar;
use crate::var::Var;

verus! {

/// The row `l <= a . x + c <= u`.
///
/// The constant `c` stays beside the bounds until the row is registered with
/// a builder, which takes it off both. That `l <= u` is the caller's affair:
/// it is not looked at.
#[derive(Clone, Copy)]
pub struct LinearConstraint<S: Scalar, const N: usize> {
    pub a: [S; N],
    pub l: S,
    pub u: S,
    pub c: S,
}

/// What a constraint is, as mathematics.
pub struct ConstraintModel<S> {
    pub a: Seq<S>,
    pub l: S,
    pub u: S,
    pub c: S,
}

impl<S: Scalar, const N: usize> View for LinearConstraint<S, N> {
    type V = ConstraintModel<S>;

    open spec fn view(&self) -> ConstraintModel<S> {
        ConstraintModel { a: self.a@, l: self.l, u: self.u, c: self.c }
    }
}

impl<S: Scalar> LinModel<S> {
    /// `self >= rhs`: bounded below by `rhs`, unbounded above.
    pub open spec fn at_least(self, rhs: S) -> ConstraintModel<S> {
        ConstraintModel { a: self.coeffs, l: rhs, u: S::infinity_spec(), c: self.constant }
    }

    /// `self <= rhs`: unbounded below, bounded above by `rhs`.
    pub open spec fn at_most(self, rhs: S) -> ConstraintModel<S> {
        ConstraintModel { a: self.coeffs, l: S::neg_infinity_spec(), u: rhs, c: self.constant }
    }

    /// `self == rhs`: both bounds are `rhs`.
    pub open spec fn equal_to(self, rhs: S) -> ConstraintModel<S> {
        ConstraintModel { a: self.coeffs, l: rhs, u: rhs, c: self.constant }
    }
}

impl<const N: usize> Var<N> {
    /// `self >= v`: one at the variable's slot and zero elsewhere, `l = v`,
    /// `u` infinite.
    pub fn ge<S: Scalar>(self, v: S) -> (r: LinearConstraint<S, N>)
        ensures
            r@ == (ConstraintModel {
                a: row_unit::<S>(N as nat, self.slot()),
                l: v,
                u: S::infinity_spec(),
                c: S::zero_spec(),
            }),
    {
        LinearConstraint { a: unit_row(self.index()), l: v, u: S::infinity(), c: S::zero() }
    }

    /// `self <= v`: one at the variable's slot and zero elsewhere, `l`
    /// infinite below, `u = v`.
    pub fn le<S: Scalar>(self, v: S) -> (r: LinearConstraint<S, N>)
        ensures
            r@ == (ConstraintModel {
                a: row_unit::<S>(N as nat, self.slot()),
                l: S::neg_infinity_spec(),
                u: v,
                c: S::zero_spec(),
            }),
    {
        LinearConstraint { a: unit_row(self.index()), l: S::neg_infinity(), u: v, c: S::zero() }
    }

    /// `self == v`: one at the variable's slot and zero elsewhere,
    /// `l = u = v`.
    pub fn eq<S: Scalar>(self, v: S) -> (r: LinearConstraint<S, N>)
        ensures
            r@ == (ConstraintModel {
                a: row_unit::<S>(N as nat, self.slot()),
                l: v,
                u: v,
                c: S::zero_spec(),
            }),
    {
        LinearConstraint { a: unit_row(self.index()), l: v, u: v, c: S::zero() }
    }

    /// `lo <= self <= hi`, as the pair `self >= lo` and `self <= hi`.
    pub fn between<S: Scalar>(self, lo: S, hi: S) -> (r: (
        LinearConstraint<S, N>,
        LinearConstraint<S, N>,
    ))
        ensures
            r.0@ == (ConstraintModel {
                a: row_unit::<S>(N as nat, self.slot()),
                l: lo,
                u: S::infinity_spec(),
                c: S::zero_spec(),
            }),
            r.1@ == (ConstraintModel {
                a: row_unit::<S>(N as nat, self.slot()),
                l: S::neg_infinity_spec(),
                u: hi,
                c: S::zero_spec(),
            }),
    {
        (self.ge(lo), self.le(hi))
    }
}

impl<S: Scalar, const N: usize> LinExpr<S, N> {
    /// `self <= rhs`, with the expression's constant kept in `c`.
    pub fn le(self, rhs: S) -> (r: LinearConstraint<S, N>)
        ensures
            r@ == self@.at_most(rhs),
    {
        LinearConstraint { a: self.coeffs, l: S::neg_infinity(), u: rhs, c: self.constant }
    }

    /// `self >= rhs`, with the expression's constant kept in `c`.
    pub fn ge(self, rhs: S) -> (r: LinearConstraint<S, N>)
        ensures
            r@ == self@.at_least(rhs),
    {
        LinearConstraint { a: self.coeffs, l: rhs, u: S::infinity(), c: self.constant }
    }

    /// `self == rhs`, with the expression's constant kept in `c`.
    pub fn eq(self, rhs: S) -> (r: LinearConstraint<S, N>)
        ensures
            r@ == self@.equal_to(rhs),
    {
        LinearConstraint { a: self.coeffs, l: rhs, u: rhs, c: self.constant }
    }

    /// `lo <= self <= hi`, as the pair `self >= lo` and `self <= hi`.
    pub fn between(self, lo: S, hi: S) -> (r: (LinearConstraint<S, N>, LinearConstraint<S, N>))
        ensures
            r.0@ == self@.at_least(lo),
            r.1@ == self@.at_most(hi),
    {
        (self.ge(lo), self.le(hi))
    }
}

} // verus!
