use micro_qp_dsl::{LinExpr, ProblemBuilder, QuadExpr, Scalar, Var};

#[test]
fn integer_scalars_wrap() {
    assert_eq!(<i64 as Scalar>::zero(), 0);
    assert_eq!(<i64 as Scalar>::one(), 1);
    assert_eq!(<i64 as Scalar>::two(), 2);
    assert_eq!(<i64 as Scalar>::infinity(), i64::MAX);
    assert_eq!(<i64 as Scalar>::neg_infinity(), i64::MIN);
    assert_eq!(Scalar::plus(i64::MAX - 1, 2), i64::MIN);
    assert_eq!(Scalar::minus(i64::MIN + 1, 2), i64::MAX);
    assert_eq!(Scalar::times(i64::MAX, 2), -2);
    assert_eq!(Scalar::plus(20i64, 22), 42);
    assert_eq!(Scalar::minus(20i64, 22), -2);
    assert_eq!(Scalar::times(-6i64, 7), -42);
}

#[test]
fn integer_reciprocal_rounds_towards_zero() {
    assert_eq!(Scalar::recip(1i64), 1);
    assert_eq!(Scalar::recip(-1i64), -1);
    assert_eq!(Scalar::recip(0i64), i64::MAX);
    assert_eq!(Scalar::recip(5i64), 0);
    assert_eq!(Scalar::recip(-7i64), 0);
    assert_eq!(Scalar::recip(i64::MIN), 0);
}

#[test]
fn integer_square_of_two_terms() {
    let mut pb = ProblemBuilder::<i64, 4, 0>::new();
    let _ = pb.var();
    let x = pb.var();
    let _ = pb.var();
    let y = pb.var();
    let e: LinExpr<i64, 4> = x.scale(5i64).add(y.scale(-3i64)).shift(7);
    assert_eq!(e.coeffs, [0, 5, 0, -3]);
    assert_eq!(e.constant, -7);
    let q = e.square();
    assert_eq!(q.H, [[0, 0, 0, 0], [0, 50, 0, -30], [0, 0, 0, 0], [0, -30, 0, 18]]);
    assert_eq!(q.f, [0, -70, 0, 42]);
}

#[test]
fn integer_quadratic_sum_is_exact() {
    let q1 = QuadExpr { H: [[i64::MAX - 1, 2], [2, 3]], f: [5, -1] };
    let q2 = QuadExpr { H: [[3, -9], [-9, 8]], f: [i64::MIN + 10, 2] };
    let q3 = QuadExpr { H: [[7, 7], [7, 7]], f: [-1, i64::MAX - 5] };
    let left = q1.add(q2).add(q3);
    let right = q1.add(q2.add(q3));
    assert_eq!(left.H, right.H);
    assert_eq!(left.f, right.f);
    assert_eq!(left.H, [[i64::MIN + 8, 0], [0, 18]]);
    assert_eq!(left.f, [i64::MIN + 14, i64::MAX - 4]);
    assert_eq!(q1.add(q2).H, q2.add(q1).H);
    assert_eq!(q1.add(q2).f, q2.add(q1).f);
}

#[test]
fn integer_problem_end_to_end() {
    let mut pb = ProblemBuilder::<i64, 2, 3>::new();
    let x = pb.var();
    let y = pb.var();
    let e: LinExpr<i64, 2> = x.sub::<i64>(y).scale(3).shift(1);
    pb.minimize(e.square());
    pb.minimize(QuadExpr::<i64, 2>::zero().scale(9));
    pb.constrain(x.ge(5i64));
    pb.constrain(e.le(10));
    let (h, f, a, l, u) = pb.build();
    assert_eq!(h, [[18, -18], [-18, 18]]);
    assert_eq!(f, [-6, 6]);
    assert_eq!(a, [[1, 0], [3, -3], [0, 0]]);
    assert_eq!(l, [5, i64::MIN, 0]);
    assert_eq!(u, [i64::MAX, 11, 0]);
}

#[test]
fn integer_infinite_bounds_absorb_finite_values() {
    assert_eq!(Scalar::plus(i64::MAX, 1), i64::MAX);
    assert_eq!(Scalar::plus(i64::MAX, -1), i64::MAX);
    assert_eq!(Scalar::plus(i64::MIN, 7), i64::MIN);
    assert_eq!(Scalar::plus(-7i64, i64::MIN), i64::MIN);
    assert_eq!(Scalar::minus(i64::MAX, 4), i64::MAX);
    assert_eq!(Scalar::minus(i64::MIN, 4), i64::MIN);
    assert_eq!(Scalar::minus(i64::MIN, -4), i64::MIN);
    assert_eq!(Scalar::minus(4i64, i64::MAX), i64::MIN);
    assert_eq!(Scalar::minus(4i64, i64::MIN), i64::MAX);
}

#[test]
fn integer_row_unbounded_below_stays_unbounded() {
    let mut pb = ProblemBuilder::<i64, 2, 1>::new();
    let _ = pb.var();
    let _ = pb.var();
    let e = LinExpr { coeffs: [2i64, 3], constant: 4 };
    pb.constrain(e.le(10));
    let (_, _, a, l, u) = pb.build();
    assert_eq!(a, [[2, 3]]);
    assert_eq!(u, [6]);
    assert_eq!(l, [i64::MIN]);
    assert!(l[0] <= u[0]);
}

#[test]
fn integer_row_unbounded_above_stays_unbounded() {
    let mut pb = ProblemBuilder::<i64, 2, 1>::new();
    let e = LinExpr { coeffs: [2i64, 3], constant: -4 };
    pb.constrain(e.ge(10));
    let (_, _, a, l, u) = pb.build();
    assert_eq!(a, [[2, 3]]);
    assert_eq!(l, [14]);
    assert_eq!(u, [i64::MAX]);
}

#[test]
fn integer_division_by_zero_is_not_finite() {
    let mut pb = ProblemBuilder::<i64, 2, 0>::new();
    let _ = pb.var();
    let y: Var<2> = pb.var();
    let d: LinExpr<i64, 2> = y.div(0i64);
    assert_eq!(d.coeffs, [0, i64::MAX]);
    assert_eq!(d.constant, 0);
    let one: LinExpr<i64, 2> = y.div(-1i64);
    assert_eq!(one.coeffs, [0, -1]);
}
