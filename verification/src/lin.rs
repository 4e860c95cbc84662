use vstd::prelude::*;
use crate::row::{
    add_rows, row_minus, row_plus, row_scaled, row_unit, row_zero, scale_row, sub_rows, unit_row,
    zero_row,
};
use crate::scalar::Scalar;
use crate::var::Var;

verus! {

/// The affine function `sum of coeffs[i] * x_i, plus constant`.
#[derive(Clone, Copy)]
pub struct LinExpr<S: Scalar, const N: usize> {
    pub coeffs: [S; N],
    pub constant: S,
}

/// What a linear expression is, as mathematics: its coefficients in slot
/// order, and its constant.
pub struct LinModel<S> {
    pub coeffs: Seq<S>,
    pub constant: S,
}

impl<S: Scalar> LinModel<S> {
    /// Coefficient by coefficient, and constant by constant, `self + rhs`.
    pub open spec fn plus(self, rhs: LinModel<S>) -> LinModel<S> {
        LinModel {
            coeffs: row_plus(self.coeffs, rhs.coeffs),
            constant: self.constant.plus_spec(rhs.constant),
        }
    }

    /// Coefficient by coefficient, and constant by constant, `self - rhs`.
    pub open spec fn minus(self, rhs: LinModel<S>) -> LinModel<S> {
        LinModel {
            coeffs: row_minus(self.coeffs, rhs.coeffs),
            constant: self.constant.minus_spec(rhs.constant),
        }
    }

    /// Every coefficient, and the constant, times `k`.
    pub open spec fn scaled(self, k: S) -> LinModel<S> {
        LinModel {
            coeffs: row_scaled(self.coeffs, k),
            constant: self.constant.times_spec(k),
        }
    }

    /// The constant less `c`; the coefficients as they are.
    pub open spec fn shifted(self, c: S) -> LinModel<S> {
        LinModel { coeffs: self.coeffs, constant: self.constant.minus_spec(c) }
    }
}

impl<S: Scalar, const N: usize> View for LinExpr<S, N> {
    type V = LinModel<S>;

    open spec fn view(&self) -> LinModel<S> {
        LinModel { coeffs: self.coeffs@, constant: self.constant }
    }
}

impl<S: Scalar, const N: usize> LinExpr<S, N> {
    /// The expression that is zero everywhere.
    pub open spec fn zero_model() -> LinModel<S> {
        LinModel { coeffs: row_zero::<S>(N as nat), constant: S::zero_spec() }
    }

    /// The variable of slot `k` as an expression: one at `k`, zero elsewhere,
    /// constant zero.
    pub open spec fn var_model(k: int) -> LinModel<S> {
        LinModel { coeffs: row_unit::<S>(N as nat, k), constant: S::zero_spec() }
    }

    /// The expression that is zero everywhere.
    pub fn zero() -> (r: Self)
        ensures
            r@ == Self::zero_model(),
    {
        LinExpr { coeffs: zero_row(), constant: S::zero() }
    }

    /// The variable `v` as an expression.
    pub fn from_var(v: Var<N>) -> (r: Self)
        ensures
            r@ == Self::var_model(v.slot()),
    {
        LinExpr { coeffs: unit_row(v.index()), constant: S::zero() }
    }

    /// `self + rhs`.
    pub fn add(self, rhs: Self) -> (r: Self)
        ensures
            r@ == self@.plus(rhs@),
    {
        LinExpr {
            coeffs: add_rows(self.coeffs, rhs.coeffs),
            constant: self.constant.plus(rhs.constant),
        }
    }

    /// `self - rhs`.
    pub fn sub(self, rhs: Self) -> (r: Self)
        ensures
            r@ == self@.minus(rhs@),
    {
        LinExpr {
            coeffs: sub_rows(self.coeffs, rhs.coeffs),
            constant: self.constant.minus(rhs.constant),
        }
    }

    /// `self * k`, which is also `k * self`: each entry is the left operand
    /// of the product, `k` the right one.
    pub fn scale(self, k: S) -> (r: Self)
        ensures
            r@ == self@.scaled(k),
    {
        LinExpr { coeffs: scale_row(self.coeffs, k), constant: self.constant.times(k) }
    }

    /// `self - c`, for a scalar `c`: only the constant moves.
    pub fn shift(self, c: S) -> (r: Self)
        ensures
            r@ == self@.shifted(c),
    {
        LinExpr { coeffs: self.coeffs, constant: self.constant.minus(c) }
    }
}

} // verus!
