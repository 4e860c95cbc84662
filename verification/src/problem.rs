use vstd::prelude::*;
use crate::constraint::{ConstraintModel, LinearConstraint};
use crate::quad::{QuadExpr, QuadModel};
use crate::row::{add_mats, add_rows, mat_view, mat_zero, row_zero, zero_mat, zero_row};
use crate::scalar::Scalar;
use crate::var::Var;

verus! {

/// The failure of asking for one variable more than `N`, or for one
/// constraint row more than `M`.
#[derive(Clone, Copy, Debug, PartialEq, Eq)]
pub struct CapacityExceeded;

/// The accumulator of one problem with `N` variables and at most `M`
/// constraint rows. It owns the matrices while they are put together, and
/// gives them up in [`ProblemBuilder::build`], which ends its life.
pub struct ProblemBuilder<S: Scalar, const N: usize, const M: usize> {
    H: [[S; N]; N],
    f: [S; N],
    A: [[S; N]; M],
    l: [S; M],
    u: [S; M],
    var_cnt: usize,
    constr_cnt: usize,
}

/// What a builder holds, as mathematics.
pub struct ProblemModel<S> {
    /// The objective put together so far.
    pub objective: QuadModel<S>,
    /// The constraint matrix, row by row; rows not yet registered are zero.
    pub a: Seq<Seq<S>>,
    /// The lower bound of each row.
    pub l: Seq<S>,
    /// The upper bound of each row.
    pub u: Seq<S>,
    /// How many variables were handed out.
    pub var_count: nat,
    /// How many rows were registered.
    pub constraint_count: nat,
}

impl<S: Scalar> ProblemModel<S> {
    /// A problem of `n` variables and `m` rows in which nothing was
    /// registered: every entry zero.
    pub open spec fn empty(n: nat, m: nat) -> ProblemModel<S> {
        ProblemModel {
            objective: QuadModel { h: mat_zero::<S>(n, n), f: row_zero::<S>(n) },
            a: mat_zero::<S>(m, n),
            l: row_zero::<S>(m),
            u: row_zero::<S>(m),
            var_count: 0,
            constraint_count: 0,
        }
    }

    /// The problem has `n` variables and `m` rows.
    pub open spec fn has_size(self, n: nat, m: nat) -> bool {
        &&& self.objective.has_size(n)
        &&& self.a.len() == m
        &&& forall|r: int| 0 <= r < m ==> (#[trigger] self.a[r]).len() == n
        &&& self.l.len() == m
        &&& self.u.len() == m
    }

    /// One variable more.
    pub open spec fn with_var(self) -> ProblemModel<S> {
        ProblemModel { var_count: self.var_count + 1, ..self }
    }

    /// `q` added to the objective.
    pub open spec fn minimized(self, q: QuadModel<S>) -> ProblemModel<S> {
        ProblemModel { objective: self.objective.plus(q), ..self }
    }

    /// `c` in the next free row: its coefficients as they are, its bounds
    /// less its constant.
    pub open spec fn constrained(self, c: ConstraintModel<S>) -> ProblemModel<S> {
        let r = self.constraint_count as int;
        ProblemModel {
            a: self.a.update(r, c.a),
            l: self.l.update(r, c.l.minus_spec(c.c)),
            u: self.u.update(r, c.u.minus_spec(c.c)),
            constraint_count: self.constraint_count + 1,
            ..self
        }
    }
}

impl<S: Scalar, const N: usize, const M: usize> ProblemBuilder<S, N, M> {
    /// No more variables than `N`, no more rows than `M`.
    #[verifier::type_invariant]
    spec fn within_capacity(self) -> bool {
        self.var_cnt <= N && self.constr_cnt <= M
    }

    /// What the builder holds.
    pub closed spec fn view(&self) -> ProblemModel<S> {
        ProblemModel {
            objective: QuadModel { h: mat_view(self.H), f: self.f@ },
            a: mat_view(self.A),
            l: self.l@,
            u: self.u@,
            var_count: self.var_cnt as nat,
            constraint_count: self.constr_cnt as nat,
        }
    }

    /// A builder of `N` variables and `M` rows holds a problem of that
    /// size, with no more variables and rows in use than it has.
    pub proof fn lemma_view_has_size(self)
        ensures
            self@.has_size(N as nat, M as nat),
    {
    }

    /// A builder in which nothing is registered.
    pub fn new() -> (r: Self)
        ensures
            r@ == ProblemModel::<S>::empty(N as nat, M as nat),
    {
        ProblemBuilder {
            H: zero_mat(),
            f: zero_row(),
            A: zero_mat(),
            l: zero_row(),
            u: zero_row(),
            var_cnt: 0,
            constr_cnt: 0,
        }
    }

    /// How many variables were handed out: at most `N`.
    pub fn var_count(&self) -> (n: usize)
        ensures
            n == self@.var_count,
            n <= N,
    {
        proof {
            use_type_invariant(self);
        }
        self.var_cnt
    }

    /// How many rows were registered: at most `M`.
    pub fn constraint_count(&self) -> (n: usize)
        ensures
            n == self@.constraint_count,
            n <= M,
    {
        proof {
            use_type_invariant(self);
        }
        self.constr_cnt
    }

    /// The next variable: its slot is the number of variables handed out
    /// before it. There must be one left.
    pub fn var(&mut self) -> (v: Var<N>)
        requires
            old(self)@.var_count < N,
        ensures
            v.slot() == old(self)@.var_count,
            final(self)@ == old(self)@.with_var(),
    {
        proof {
            use_type_invariant(&*self);
        }
        let v = Var::at(self.var_cnt);
        self.var_cnt = self.var_cnt + 1;
        v
    }

    /// The next variable, or `CapacityExceeded` where all `N` were handed
    /// out; the builder is then as it was.
    pub fn try_var(&mut self) -> (r: Result<Var<N>, CapacityExceeded>)
        ensures
            r is Ok <==> old(self)@.var_count < N,
            r matches Ok(v) ==> v.slot() == old(self)@.var_count,
            r is Ok ==> final(self)@ == old(self)@.with_var(),
            r is Err ==> final(self)@ == old(self)@,
    {
        if self.var_count() < N {
            Ok(self.var())
        } else {
            Err(CapacityExceeded)
        }
    }

    /// Adds `q` to the objective. What was there stays: each entry becomes
    /// what it was, plus the entry of `q`.
    pub fn minimize(&mut self, q: QuadExpr<S, N>)
        ensures
            final(self)@ == old(self)@.minimized(q@),
    {
        proof {
            use_type_invariant(&*self);
        }
        self.H = add_mats(self.H, q.H);
        self.f = add_rows(self.f, q.f);
    }

    /// Registers `c` in the next free row: the row of `A` is `c.a`, and the
    /// bounds are `c.l - c.c` and `c.u - c.c`. There must be a row left.
    pub fn constrain(&mut self, c: LinearConstraint<S, N>)
        requires
            old(self)@.constraint_count < M,
        ensures
            final(self)@ == old(self)@.constrained(c@),
    {
        proof {
            use_type_invariant(&*self);
        }
        let r: usize = self.constr_cnt;
        self.A[r] = c.a;
        self.l[r] = c.l.minus(c.c);
        self.u[r] = c.u.minus(c.c);
        self.constr_cnt = r + 1;
        assert(final(self)@.a =~= old(self)@.constrained(c@).a);
    }

    /// Registers `c` in the next free row, or gives `CapacityExceeded` where
    /// all `M` rows are taken; the builder is then as it was.
    pub fn try_constrain(&mut self, c: LinearConstraint<S, N>) -> (r: Result<(), CapacityExceeded>)
        ensures
            r is Ok <==> old(self)@.constraint_count < M,
            r is Ok ==> final(self)@ == old(self)@.constrained(c@),
            r is Err ==> final(self)@ == old(self)@,
    {
        if self.constraint_count() < M {
            self.constrain(c);
            Ok(())
        } else {
            Err(CapacityExceeded)
        }
    }

    /// Ends the builder and gives out `(H, f, A, l, u)` as they stand. Rows
    /// and variables that were never written are zero.
    pub fn build(self) -> (r: ([[S; N]; N], [S; N], [[S; N]; M], [S; M], [S; M]))
        ensures
            mat_view(r.0) == self@.objective.h,
            r.1@ == self@.objective.f,
            mat_view(r.2) == self@.a,
            r.3@ == self@.l,
            r.4@ == self@.u,
    {
        (self.H, self.f, self.A, self.l, self.u)
    }
}

} // verus!
