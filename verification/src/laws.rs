use vstd::prelude::*;
use vstd::arithmetic::div_mod::lemma_mul_mod_noop_left;
use crate::lin::{LinExpr, LinModel};
use crate::problem::ProblemModel;
use crate::quad::{QuadExpr, QuadModel};
use crate::scalar::Scalar;

verus! {

/// Zero and one do to `x` what neutral elements do: zero added on either
/// side leaves it, zero as either factor gives zero, and one as the left
/// factor leaves it.
pub open spec fn acts_neutrally<S: Scalar>(x: S) -> bool {
    &&& S::zero_spec().plus_spec(x) == x
    &&& x.plus_spec(S::zero_spec()) == x
    &&& S::zero_spec().times_spec(x) == S::zero_spec()
    &&& x.times_spec(S::zero_spec()) == S::zero_spec()
    &&& S::one_spec().times_spec(x) == x
}

/// Every entry of the `n` by `n` form `q` is finite.
pub open spec fn all_finite<S: Scalar>(q: QuadModel<S>, n: nat) -> bool {
    &&& forall|i: int, j: int| 0 <= i < n && 0 <= j < n ==> (#[trigger] q.h[i][j]).is_finite_spec()
    &&& forall|i: int| 0 <= i < n ==> (#[trigger] q.f[i]).is_finite_spec()
}

/// Zero added on the left leaves every entry of the `n` by `n` form `q` as
/// it is.
pub open spec fn zero_leaves<S: Scalar>(q: QuadModel<S>, n: nat) -> bool {
    &&& forall|i: int, j: int|
        0 <= i < n && 0 <= j < n ==> S::zero_spec().plus_spec(#[trigger] q.h[i][j]) == q.h[i][j]
    &&& forall|i: int| 0 <= i < n ==> S::zero_spec().plus_spec(#[trigger] q.f[i]) == q.f[i]
}

/// Entry by entry, the sum of `a`, `b` and `c` does not depend on how it is
/// grouped.
pub open spec fn sums_regroup<S: Scalar>(
    a: QuadModel<S>,
    b: QuadModel<S>,
    c: QuadModel<S>,
    n: nat,
) -> bool {
    &&& forall|i: int, j: int|
        0 <= i < n && 0 <= j < n ==> (#[trigger] a.h[i][j]).plus_spec(b.h[i][j]).plus_spec(
            c.h[i][j],
        ) == a.h[i][j].plus_spec(b.h[i][j].plus_spec(c.h[i][j]))
    &&& forall|i: int|
        0 <= i < n ==> (#[trigger] a.f[i]).plus_spec(b.f[i]).plus_spec(c.f[i]) == a.f[i].plus_spec(
            b.f[i].plus_spec(c.f[i]),
        )
}

/// The doubled products of the entries of `a` do not depend on the order of
/// the two entries: `(2 * a[i]) * a[j] == (2 * a[j]) * a[i]`.
pub open spec fn doubled_products_commute<S: Scalar>(a: Seq<S>) -> bool {
    forall|i: int, j: int|
        0 <= i < a.len() && 0 <= j < a.len() ==> #[trigger] S::two_spec().times_spec(
            a[i],
        ).times_spec(a[j]) == S::two_spec().times_spec(a[j]).times_spec(a[i])
}

/// `alpha * x_i + beta * x_j - gamma` over `N` variables.
pub open spec fn two_terms<S: Scalar, const N: usize>(
    i: int,
    j: int,
    alpha: S,
    beta: S,
    gamma: S,
) -> LinModel<S> {
    LinExpr::<S, N>::var_model(i).scaled(alpha).plus(
        LinExpr::<S, N>::var_model(j).scaled(beta),
    ).shifted(gamma)
}

/// A quadratic expression over `N` variables is `N` by `N`.
pub proof fn lemma_quad_view_has_size<S: Scalar, const N: usize>(q: QuadExpr<S, N>)
    ensures
        q@.has_size(N as nat),
{
}

/// The sum of two quadratic forms with finite entries does not depend on
/// their order.
pub proof fn lemma_quad_plus_commutes<S: Scalar>(q1: QuadModel<S>, q2: QuadModel<S>, n: nat)
    requires
        q1.has_size(n),
        q2.has_size(n),
        all_finite(q1, n),
        all_finite(q2, n),
    ensures
        q1.plus(q2) == q2.plus(q1),
{
    assert forall|i: int, j: int| 0 <= i < n && 0 <= j < n implies q1.h[i][j].plus_spec(
        q2.h[i][j],
    ) == q2.h[i][j].plus_spec(q1.h[i][j]) by {
        S::lemma_plus_commutes(q1.h[i][j], q2.h[i][j]);
    }
    assert forall|i: int| 0 <= i < n implies q1.f[i].plus_spec(q2.f[i]) == q2.f[i].plus_spec(
        q1.f[i],
    ) by {
        S::lemma_plus_commutes(q1.f[i], q2.f[i]);
    }
    assert(q1.plus(q2).h =~~= q2.plus(q1).h);
    assert(q1.plus(q2).f =~= q2.plus(q1).f);
}

/// The sum of three quadratic forms does not depend on the grouping, where
/// the sums of their entries do not.
pub proof fn lemma_quad_plus_associates<S: Scalar>(
    q1: QuadModel<S>,
    q2: QuadModel<S>,
    q3: QuadModel<S>,
    n: nat,
)
    requires
        q1.has_size(n),
        q2.has_size(n),
        q3.has_size(n),
        sums_regroup(q1, q2, q3, n),
    ensures
        q1.plus(q2).plus(q3) == q1.plus(q2.plus(q3)),
{
    assert(q1.plus(q2).plus(q3).h =~~= q1.plus(q2.plus(q3)).h);
    assert(q1.plus(q2).plus(q3).f =~= q1.plus(q2.plus(q3)).f);
}

/// To minimise `q1` and then `q2` is to minimise `q1 + q2`, where the sums
/// of the entries of the objective, of `q1` and of `q2` do not depend on the
/// grouping.
pub proof fn lemma_minimize_twice<S: Scalar>(
    p: ProblemModel<S>,
    q1: QuadModel<S>,
    q2: QuadModel<S>,
    n: nat,
)
    requires
        p.objective.has_size(n),
        q1.has_size(n),
        q2.has_size(n),
        sums_regroup(p.objective, q1, q2, n),
    ensures
        p.minimized(q1).minimized(q2) == p.minimized(q1.plus(q2)),
{
    lemma_quad_plus_associates(p.objective, q1, q2, n);
}

/// In a builder in which no objective was registered yet, to minimise `q1`
/// and then `q2` is to minimise `q1 + q2`, where zero added on the left
/// leaves the entries of `q1` and of `q1 + q2` as they are. Nothing is asked
/// of how sums are grouped.
pub proof fn lemma_minimize_twice_from_empty<S: Scalar>(
    q1: QuadModel<S>,
    q2: QuadModel<S>,
    n: nat,
    m: nat,
)
    requires
        q1.has_size(n),
        q2.has_size(n),
        zero_leaves(q1, n),
        zero_leaves(q1.plus(q2), n),
    ensures
        ProblemModel::<S>::empty(n, m).minimized(q1).minimized(q2) == ProblemModel::<S>::empty(
            n,
            m,
        ).minimized(q1.plus(q2)),
{
    let p = ProblemModel::<S>::empty(n, m);
    let s = q1.plus(q2);
    assert forall|i: int| 0 <= i < n implies p.objective.plus(q1).h[i] =~= q1.h[i] by {
        assert forall|j: int| 0 <= j < n implies p.objective.plus(q1).h[i][j] == q1.h[i][j] by {
            assert(S::zero_spec().plus_spec(q1.h[i][j]) == q1.h[i][j]);
        }
    }
    assert(p.objective.plus(q1).h =~= q1.h);
    assert(p.objective.plus(q1).f =~= q1.f);
    assert forall|i: int| 0 <= i < n implies p.objective.plus(s).h[i] =~= s.h[i] by {
        assert forall|j: int| 0 <= j < n implies p.objective.plus(s).h[i][j] == s.h[i][j] by {
            assert(S::zero_spec().plus_spec(s.h[i][j]) == s.h[i][j]);
        }
    }
    assert(p.objective.plus(s).h =~= s.h);
    assert(p.objective.plus(s).f =~= s.f);
}

/// The square of an affine form is as large as the form is long, and
/// symmetric where the doubled products of its coefficients do not depend on
/// the order of the two coefficients.
pub proof fn lemma_square_symmetric<S: Scalar>(e: LinModel<S>)
    requires
        doubled_products_commute(e.coeffs),
    ensures
        e.squared().has_size(e.coeffs.len()),
        e.squared().is_symmetric(),
{
    let q = e.squared();
    assert forall|i: int, j: int|
        0 <= i < q.h.len() && 0 <= j < q.h.len() implies q.h[i][j] == q.h[j][i] by {
        assert(S::two_spec().times_spec(e.coeffs[i]).times_spec(e.coeffs[j])
            == S::two_spec().times_spec(e.coeffs[j]).times_spec(e.coeffs[i]));
    }
}

/// The sum of two symmetric forms is symmetric.
pub proof fn lemma_plus_symmetric<S: Scalar>(q1: QuadModel<S>, q2: QuadModel<S>, n: nat)
    requires
        q1.has_size(n),
        q2.has_size(n),
        q1.is_symmetric(),
        q2.is_symmetric(),
    ensures
        q1.plus(q2).has_size(n),
        q1.plus(q2).is_symmetric(),
{
}

/// A symmetric form, scaled, is symmetric.
pub proof fn lemma_scaled_symmetric<S: Scalar>(q: QuadModel<S>, k: S, n: nat)
    requires
        q.has_size(n),
        q.is_symmetric(),
    ensures
        q.scaled(k).has_size(n),
        q.scaled(k).is_symmetric(),
{
}

/// A squared form plus a weighted squared form, the shape of an objective
/// with two terms, is symmetric where each form's doubled products do not
/// depend on the order of its two coefficients; and it stays symmetric when
/// it is minimised in a builder that holds no objective yet.
pub proof fn lemma_weighted_squares_symmetric<S: Scalar>(
    w: LinModel<S>,
    v: LinModel<S>,
    lambda: S,
    n: nat,
    m: nat,
)
    requires
        w.coeffs.len() == n,
        v.coeffs.len() == n,
        doubled_products_commute(w.coeffs),
        doubled_products_commute(v.coeffs),
    ensures
        ({
            let objective = w.squared().plus(v.squared().scaled(lambda));
            let after = ProblemModel::<S>::empty(n, m).minimized(objective);
            &&& objective.has_size(n)
            &&& objective.is_symmetric()
            &&& after.objective.has_size(n)
            &&& after.objective.is_symmetric()
        }),
{
    lemma_square_symmetric(w);
    lemma_square_symmetric(v);
    lemma_scaled_symmetric(v.squared(), lambda, n);
    lemma_plus_symmetric(w.squared(), v.squared().scaled(lambda), n);
    let objective = w.squared().plus(v.squared().scaled(lambda));
    lemma_plus_symmetric(ProblemModel::<S>::empty(n, m).objective, objective, n);
}

/// The sum of two different variables holds one at both slots and zero
/// elsewhere, with constant zero, where zero is neutral in the sums of zero
/// and one.
pub proof fn lemma_sum_of_two_variables<S: Scalar, const N: usize>(i: int, j: int)
    requires
        0 <= i < N,
        0 <= j < N,
        i != j,
        acts_neutrally(S::one_spec()),
        acts_neutrally(S::zero_spec()),
    ensures
        ({
            let e = LinExpr::<S, N>::var_model(i).plus(LinExpr::<S, N>::var_model(j));
            &&& e.coeffs.len() == N
            &&& e.coeffs[i] == S::one_spec()
            &&& e.coeffs[j] == S::one_spec()
            &&& forall|r: int| 0 <= r < N && r != i && r != j ==> #[trigger] e.coeffs[r] == S::zero_spec()
            &&& e.constant == S::zero_spec()
        }),
{
}

/// The square of `alpha * x_i + beta * x_j - gamma`, for two different
/// variables: the four entries of `H` at `i` and `j` are the doubled products
/// of `alpha` and `beta`, the two entries of `f` are the doubled products
/// with `0 - gamma`, and every other entry is zero. This is asked of the
/// values that occur on the way, and of no others: that zero and one act on
/// them as neutral elements.
pub proof fn lemma_square_of_two_terms<S: Scalar, const N: usize>(
    i: int,
    j: int,
    alpha: S,
    beta: S,
    gamma: S,
)
    requires
        0 <= i < N,
        0 <= j < N,
        i != j,
        acts_neutrally(alpha),
        acts_neutrally(beta),
        acts_neutrally(S::zero_spec()),
        acts_neutrally(S::two_spec()),
        acts_neutrally(S::two_spec().times_spec(alpha)),
        acts_neutrally(S::two_spec().times_spec(beta)),
        acts_neutrally(S::two_spec().times_spec(S::zero_spec().minus_spec(gamma))),
        acts_neutrally(S::two_spec().times_spec(alpha).times_spec(alpha)),
        acts_neutrally(S::two_spec().times_spec(alpha).times_spec(beta)),
        acts_neutrally(S::two_spec().times_spec(beta).times_spec(alpha)),
        acts_neutrally(S::two_spec().times_spec(beta).times_spec(beta)),
        acts_neutrally(
            S::two_spec().times_spec(S::zero_spec().minus_spec(gamma)).times_spec(alpha),
        ),
        acts_neutrally(S::two_spec().times_spec(S::zero_spec().minus_spec(gamma)).times_spec(beta)),
    ensures
        ({
            let e = two_terms::<S, N>(i, j, alpha, beta, gamma);
            let q = e.squared();
            let two = S::two_spec();
            let c = S::zero_spec().minus_spec(gamma);
            &&& e.coeffs.len() == N
            &&& e.coeffs[i] == alpha
            &&& e.coeffs[j] == beta
            &&& forall|r: int| 0 <= r < N && r != i && r != j ==> #[trigger] e.coeffs[r] == S::zero_spec()
            &&& e.constant == c
            &&& q.has_size(N as nat)
            &&& q.h[i][i] == two.times_spec(alpha).times_spec(alpha)
            &&& q.h[i][j] == two.times_spec(alpha).times_spec(beta)
            &&& q.h[j][i] == two.times_spec(beta).times_spec(alpha)
            &&& q.h[j][j] == two.times_spec(beta).times_spec(beta)
            &&& q.f[i] == two.times_spec(c).times_spec(alpha)
            &&& q.f[j] == two.times_spec(c).times_spec(beta)
            &&& forall|r: int, s: int|
                0 <= r < N && 0 <= s < N && (r != i && r != j || s != i && s != j)
                    ==> #[trigger] q.h[r][s] == S::zero_spec()
            &&& forall|r: int| 0 <= r < N && r != i && r != j ==> #[trigger] q.f[r] == S::zero_spec()
        }),
{
    let e = two_terms::<S, N>(i, j, alpha, beta, gamma);
    assert(e.coeffs.len() == N);
    assert(e.coeffs[i] == alpha);
    assert(e.coeffs[j] == beta);
    assert(e.constant == S::zero_spec().minus_spec(gamma));
    assert forall|r: int| 0 <= r < N && r != i && r != j implies e.coeffs[r] == S::zero_spec() by {}
}

/// With the doubled products of `alpha` and `beta` in either order equal,
/// the square of `alpha * x_i + beta * x_j - gamma` is symmetric.
pub proof fn lemma_square_of_two_terms_symmetric<S: Scalar, const N: usize>(
    i: int,
    j: int,
    alpha: S,
    beta: S,
    gamma: S,
)
    requires
        0 <= i < N,
        0 <= j < N,
        i != j,
        acts_neutrally(alpha),
        acts_neutrally(beta),
        acts_neutrally(S::zero_spec()),
        acts_neutrally(S::two_spec()),
        acts_neutrally(S::two_spec().times_spec(alpha)),
        acts_neutrally(S::two_spec().times_spec(beta)),
        S::two_spec().times_spec(alpha).times_spec(beta) == S::two_spec().times_spec(
            beta,
        ).times_spec(alpha),
    ensures
        two_terms::<S, N>(i, j, alpha, beta, gamma).squared().is_symmetric(),
{
    let e = two_terms::<S, N>(i, j, alpha, beta, gamma);
    assert(e.coeffs.len() == N);
    assert(e.coeffs[i] == alpha);
    assert(e.coeffs[j] == beta);
    assert forall|r: int| 0 <= r < N && r != i && r != j implies e.coeffs[r] == S::zero_spec() by {}
    assert forall|r: int, s: int| 0 <= r < N && 0 <= s < N implies S::two_spec().times_spec(
        e.coeffs[r],
    ).times_spec(e.coeffs[s]) == S::two_spec().times_spec(e.coeffs[s]).times_spec(e.coeffs[r]) by {}
    lemma_square_symmetric(e);
}

/// Registering `e <= rhs` writes the coefficients of `e` into the next free
/// row and the bounds less the constant of `e` beside it: the constant is
/// taken off once, and is not part of the row.
pub proof fn lemma_constrain_at_most<S: Scalar>(
    p: ProblemModel<S>,
    e: LinModel<S>,
    rhs: S,
    n: nat,
    m: nat,
)
    requires
        p.has_size(n, m),
        p.constraint_count < m,
    ensures
        ({
            let row = p.constraint_count as int;
            let after = p.constrained(e.at_most(rhs));
            &&& after.a[row] == e.coeffs
            &&& after.u[row] == rhs.minus_spec(e.constant)
            &&& after.l[row] == S::neg_infinity_spec().minus_spec(e.constant)
            &&& after.constraint_count == p.constraint_count + 1
            &&& after.objective == p.objective
            &&& forall|r: int|
                0 <= r < m && r != row ==> after.a[r] == p.a[r] && after.l[r] == p.l[r]
                    && after.u[r] == p.u[r]
        }),
{
}

/// A row that is unbounded on one side stays so when it is registered: with
/// a finite constant, `e <= rhs` has the infinite lower bound in the builder,
/// and `e >= rhs` the infinite upper bound.
pub proof fn lemma_constrain_keeps_infinite_bound<S: Scalar>(
    p: ProblemModel<S>,
    e: LinModel<S>,
    rhs: S,
    n: nat,
    m: nat,
)
    requires
        p.has_size(n, m),
        p.constraint_count < m,
        e.constant.is_finite_spec(),
    ensures
        p.constrained(e.at_most(rhs)).l[p.constraint_count as int] == S::neg_infinity_spec(),
        p.constrained(e.at_least(rhs)).u[p.constraint_count as int] == S::infinity_spec(),
{
    S::lemma_infinite_bounds_absorb(e.constant);
}

/// Shifting an expression by a constant moves the bounds of its row and
/// leaves the row's coefficients alone.
pub proof fn lemma_constrain_shifted<S: Scalar>(
    p: ProblemModel<S>,
    e: LinModel<S>,
    c: S,
    rhs: S,
    n: nat,
    m: nat,
)
    requires
        p.has_size(n, m),
        p.constraint_count < m,
    ensures
        ({
            let row = p.constraint_count as int;
            let after = p.constrained(e.shifted(c).at_most(rhs));
            &&& after.a[row] == e.coeffs
            &&& after.u[row] == rhs.minus_spec(e.constant.minus_spec(c))
        }),
{
}

/// The box `lo <= x_k <= hi`, registered as its two rows: both rows hold one
/// at `k` and zero elsewhere; the first is bounded by `lo - 0` below and
/// unbounded above, the second unbounded below and bounded by `hi - 0` above.
/// The rows before them, and the objective, stay as they were.
pub proof fn lemma_box_rows<S: Scalar, const N: usize>(
    p: ProblemModel<S>,
    k: int,
    lo: S,
    hi: S,
    m: nat,
)
    requires
        p.has_size(N as nat, m),
        p.constraint_count + 2 <= m,
        0 <= k < N,
    ensures
        ({
            let x = LinExpr::<S, N>::var_model(k);
            let row = p.constraint_count as int;
            let after = p.constrained(x.at_least(lo)).constrained(x.at_most(hi));
            &&& after.has_size(N as nat, m)
            &&& after.constraint_count == p.constraint_count + 2
            &&& after.a[row] == x.coeffs
            &&& after.a[row + 1] == x.coeffs
            &&& forall|c: int| 0 <= c < N ==> #[trigger] x.coeffs[c] == (if c == k {
                S::one_spec()
            } else {
                S::zero_spec()
            })
            &&& after.l[row] == lo.minus_spec(S::zero_spec())
            &&& after.u[row] == S::infinity_spec()
            &&& after.l[row + 1] == S::neg_infinity_spec()
            &&& after.u[row + 1] == hi.minus_spec(S::zero_spec())
            &&& after.objective == p.objective
            &&& forall|r: int|
                0 <= r < row ==> after.a[r] == p.a[r] && after.l[r] == p.l[r] && after.u[r]
                    == p.u[r]
        }),
{
    S::lemma_finite_and_infinite();
    S::lemma_infinite_bounds_absorb(S::zero_spec());
}

/// A variable divided by zero has, at its slot, one times the reciprocal of
/// zero, which is not finite: the division is not trapped, and what it gives
/// is carried on.
pub proof fn lemma_division_by_zero<S: Scalar, const N: usize>(k: int)
    requires
        0 <= k < N,
    ensures
        !S::zero_spec().recip_spec().is_finite_spec(),
        LinExpr::<S, N>::var_model(k).scaled(S::zero_spec().recip_spec()).coeffs[k]
            == S::one_spec().times_spec(S::zero_spec().recip_spec()),
{
    S::lemma_reciprocal_of_zero();
}

/// Over the integers a doubled product does not depend on the order of its
/// factors, whatever the factors are.
pub proof fn lemma_integer_doubled_product(x: i64, y: i64)
    ensures
        2i64.times_spec(x).times_spec(y) == 2i64.times_spec(y).times_spec(x),
{
    let r: int = 0x1_0000_0000_0000_0000;
    let a: int = 2i64.times_spec(x) as int;
    let b: int = 2i64.times_spec(y) as int;
    assert(a % r == (2 * x) % r);
    assert(b % r == (2 * y) % r);
    lemma_mul_mod_noop_left(a, y as int, r);
    lemma_mul_mod_noop_left(2 * x, y as int, r);
    lemma_mul_mod_noop_left(b, x as int, r);
    lemma_mul_mod_noop_left(2 * y, x as int, r);
    assert((2 * x) * y == (2 * y) * x) by (nonlinear_arith);
}

/// Over the integers zero and one act as neutral elements on every value,
/// the infinite ones too.
pub proof fn lemma_integers_act_neutrally(x: i64)
    ensures
        acts_neutrally(x),
{
    assert(x * 0 == 0);
    assert(0 * x == 0);
    assert(1 * x == x);
}

/// Over the integers a sum of three finite values does not depend on the
/// grouping, as long as the two partial sums are finite.
pub proof fn lemma_integer_sum_regroups(x: i64, y: i64, z: i64)
    requires
        x.is_finite_spec(),
        y.is_finite_spec(),
        z.is_finite_spec(),
        x.plus_spec(y).is_finite_spec(),
        y.plus_spec(z).is_finite_spec(),
    ensures
        x.plus_spec(y).plus_spec(z) == x.plus_spec(y.plus_spec(z)),
{
}

} // verus!
