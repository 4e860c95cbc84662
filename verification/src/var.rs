use vstd::prelude::*;
use crate::lin::LinExpr;
use crate::scalar::Scalar;

verus! {

/// A decision variable: the handle of one of the `N` slots of a problem.
/// It marks a position and carries no value.
#[derive(Clone, Copy)]
pub struct Var<const N: usize> {
    pub(crate) idx: usize,
}

impl<const N: usize> Var<N> {
    /// A handle always names a slot below `N`.
    #[verifier::type_invariant]
    pub closed spec fn in_range(self) -> bool {
        self.idx < N
    }

    /// The slot that the handle names.
    pub closed spec fn slot(self) -> int {
        self.idx as int
    }

    /// The handle of slot `k`. Only a builder hands out variables.
    pub(crate) fn at(k: usize) -> (v: Self)
        requires
            k < N,
        ensures
            v.slot() == k,
    {
        Var { idx: k }
    }

    /// The slot that the handle names, below `N`.
    pub fn index(self) -> (k: usize)
        ensures
            k == self.slot(),
            k < N,
    {
        proof {
            use_type_invariant(&self);
        }
        self.idx
    }

    /// `self + rhs`: the sum of the two injections.
    pub fn add<S: Scalar>(self, rhs: Var<N>) -> (r: LinExpr<S, N>)
        ensures
            r@ == LinExpr::<S, N>::var_model(self.slot()).plus(
                LinExpr::<S, N>::var_model(rhs.slot()),
            ),
    {
        LinExpr::from_var(self).add(LinExpr::from_var(rhs))
    }

    /// `self - rhs`: the difference of the two injections.
    pub fn sub<S: Scalar>(self, rhs: Var<N>) -> (r: LinExpr<S, N>)
        ensures
            r@ == LinExpr::<S, N>::var_model(self.slot()).minus(
                LinExpr::<S, N>::var_model(rhs.slot()),
            ),
    {
        LinExpr::from_var(self).sub(LinExpr::from_var(rhs))
    }

    /// `k * self`: the injection, scaled by `k`.
    pub fn scale<S: Scalar>(self, k: S) -> (r: LinExpr<S, N>)
        ensures
            r@ == LinExpr::<S, N>::var_model(self.slot()).scaled(k),
    {
        LinExpr::from_var(self).scale(k)
    }

    /// `self / k`: the injection, scaled by the reciprocal of `k`. Nothing is
    /// asked of `k`: what the reciprocal of zero is, the scalar says.
    pub fn div<S: Scalar>(self, k: S) -> (r: LinExpr<S, N>)
        ensures
            r@ == LinExpr::<S, N>::var_model(self.slot()).scaled(k.recip_spec()),
    {
        LinExpr::from_var(self).scale(k.recip())
    }
}

} // verus!
