use vstd::prelude::*;
use crate::lin::{LinExpr, LinModel};
use crate::row::{
    add_mats, add_rows, doubled_row, mat_plus, mat_scaled, mat_view, mat_zero, row_doubled,
    row_plus, row_scaled, row_zero, scale_mat, scale_row, zero_mat, zero_row,
};
use crate::scalar::Scalar;

verus! {

/// The quadratic form `sum of H[i][j] * x_i * x_j, plus sum of f[i] * x_i`.
/// It has no constant: a constant does not move the minimiser.
///
/// `H` is scaled for a solver that evaluates the objective as
/// `x' H x / 2 + f' x`: the square of an affine form stores twice the products
/// of its coefficients.
#[derive(Clone, Copy)]
pub struct QuadExpr<S: Scalar, const N: usize> {
    pub H: [[S; N]; N],
    pub f: [S; N],
}

/// What a quadratic expression is, as mathematics: the rows of `H`, and `f`.
pub struct QuadModel<S> {
    pub h: Seq<Seq<S>>,
    pub f: Seq<S>,
}

impl<S: Scalar> QuadModel<S> {
    /// `h` is `n` by `n`, and `f` has `n` entries.
    pub open spec fn has_size(self, n: nat) -> bool {
        &&& self.h.len() == n
        &&& forall|i: int| 0 <= i < n ==> (#[trigger] self.h[i]).len() == n
        &&& self.f.len() == n
    }

    /// `h[i][j] == h[j][i]` throughout.
    pub open spec fn is_symmetric(self) -> bool {
        forall|i: int, j: int|
            0 <= i < self.h.len() && 0 <= j < self.h.len() ==> self.h[i][j] == self.h[j][i]
    }

    /// Entry by entry, `self + rhs`.
    pub open spec fn plus(self, rhs: QuadModel<S>) -> QuadModel<S> {
        QuadModel { h: mat_plus(self.h, rhs.h), f: row_plus(self.f, rhs.f) }
    }

    /// Every entry of `h` and of `f`, times `k`.
    pub open spec fn scaled(self, k: S) -> QuadModel<S> {
        QuadModel { h: mat_scaled(self.h, k), f: row_scaled(self.f, k) }
    }
}

impl<S: Scalar> LinModel<S> {
    /// The square of the affine form `a . x + c`, less its constant `c * c`:
    /// `h[i][j]` is `0 + (2 * a[i]) * a[j]`, and `f[i]` is `0 + (2 * c) * a[i]`.
    pub open spec fn squared(self) -> QuadModel<S> {
        QuadModel {
            h: Seq::new(self.coeffs.len(), |i: int| row_doubled(self.coeffs, self.coeffs[i])),
            f: row_doubled(self.coeffs, self.constant),
        }
    }
}

impl<S: Scalar, const N: usize> View for QuadExpr<S, N> {
    type V = QuadModel<S>;

    open spec fn view(&self) -> QuadModel<S> {
        QuadModel { h: mat_view(self.H), f: self.f@ }
    }
}

impl<S: Scalar, const N: usize> QuadExpr<S, N> {
    /// The form that is zero everywhere.
    pub open spec fn zero_model() -> QuadModel<S> {
        QuadModel { h: mat_zero::<S>(N as nat, N as nat), f: row_zero::<S>(N as nat) }
    }

    /// The form that is zero everywhere.
    pub fn zero() -> (r: Self)
        ensures
            r@ == Self::zero_model(),
    {
        QuadExpr { H: zero_mat(), f: zero_row() }
    }

    /// `self + rhs`: this is how the terms of an objective are put together.
    pub fn add(self, rhs: Self) -> (r: Self)
        ensures
            r@ == self@.plus(rhs@),
    {
        QuadExpr { H: add_mats(self.H, rhs.H), f: add_rows(self.f, rhs.f) }
    }

    /// `k * self`, which is also `self * k`: the weight of one term among
    /// others. Each entry is the left operand of the product.
    pub fn scale(self, k: S) -> (r: Self)
        ensures
            r@ == self@.scaled(k),
    {
        QuadExpr { H: scale_mat(self.H, k), f: scale_row(self.f, k) }
    }
}

impl<S: Scalar, const N: usize> LinExpr<S, N> {
    /// `(a . x + c)^2`, less the constant `c * c`.
    pub fn square(self) -> (q: QuadExpr<S, N>)
        ensures
            q@ == self@.squared(),
    {
        let mut h: [[S; N]; N] = zero_mat();
        let mut i: usize = 0;
        while i < N
            invariant
                i <= N,
                forall|k: int| 0 <= k < i ==> h[k]@ == row_doubled(self.coeffs@, self.coeffs[k]),
            decreases N - i,
        {
            h[i] = doubled_row(self.coeffs, self.coeffs[i]);
            i += 1;
        }
        let q = QuadExpr { H: h, f: doubled_row(self.coeffs, self.constant) };
        assert(q@.h =~= self@.squared().h);
        q
    }
}

} // verus!
