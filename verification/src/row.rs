use vstd::prelude::*;
use crate::scalar::Scalar;

verus! {

/// Entry by entry, `a[i] + b[i]`, as long as `a`.
pub open spec fn row_plus<S: Scalar>(a: Seq<S>, b: Seq<S>) -> Seq<S> {
    Seq::new(a.len(), |i: int| a[i].plus_spec(b[i]))
}

/// Entry by entry, `a[i] - b[i]`, as long as `a`.
pub open spec fn row_minus<S: Scalar>(a: Seq<S>, b: Seq<S>) -> Seq<S> {
    Seq::new(a.len(), |i: int| a[i].minus_spec(b[i]))
}

/// Entry by entry, `a[i] * k`.
pub open spec fn row_scaled<S: Scalar>(a: Seq<S>, k: S) -> Seq<S> {
    Seq::new(a.len(), |i: int| a[i].times_spec(k))
}

/// `n` entries, all zero.
pub open spec fn row_zero<S: Scalar>(n: nat) -> Seq<S> {
    Seq::new(n, |i: int| S::zero_spec())
}

/// `n` entries: one at `k`, zero elsewhere.
pub open spec fn row_unit<S: Scalar>(n: nat, k: int) -> Seq<S> {
    Seq::new(
        n,
        |i: int|
            if i == k {
                S::one_spec()
            } else {
                S::zero_spec()
            },
    )
}

/// Entry by entry, `0 + (2 * x) * a[j]`: a row of the doubled products that
/// squaring an affine form gives, laid onto zeros.
pub open spec fn row_doubled<S: Scalar>(a: Seq<S>, x: S) -> Seq<S> {
    Seq::new(
        a.len(),
        |j: int| S::zero_spec().plus_spec(S::two_spec().times_spec(x).times_spec(a[j])),
    )
}

/// Row by row, the sum of two matrices, with the rows of `a`.
pub open spec fn mat_plus<S: Scalar>(a: Seq<Seq<S>>, b: Seq<Seq<S>>) -> Seq<Seq<S>> {
    Seq::new(a.len(), |i: int| row_plus(a[i], b[i]))
}

/// Every entry of `a`, times `k`.
pub open spec fn mat_scaled<S: Scalar>(a: Seq<Seq<S>>, k: S) -> Seq<Seq<S>> {
    Seq::new(a.len(), |i: int| row_scaled(a[i], k))
}

/// `rows` rows of `cols` zeros.
pub open spec fn mat_zero<S: Scalar>(rows: nat, cols: nat) -> Seq<Seq<S>> {
    Seq::new(rows, |i: int| row_zero::<S>(cols))
}

/// The rows of a matrix, each as a sequence.
pub open spec fn mat_view<S, const R: usize, const C: usize>(m: [[S; C]; R]) -> Seq<Seq<S>> {
    Seq::new(R as nat, |i: int| m@[i]@)
}

/// A row of zeros.
pub fn zero_row<S: Scalar, const N: usize>() -> (r: [S; N])
    ensures
        r@ == row_zero::<S>(N as nat),
{
    let r: [S; N] = [S::zero();N];
    assert(r@ =~= row_zero::<S>(N as nat));
    r
}

/// The row that holds one at `k` and zero elsewhere.
pub fn unit_row<S: Scalar, const N: usize>(k: usize) -> (r: [S; N])
    requires
        k < N,
    ensures
        r@ == row_unit::<S>(N as nat, k as int),
{
    let mut r: [S; N] = [S::zero();N];
    r[k] = S::one();
    assert(r@ =~= row_unit::<S>(N as nat, k as int));
    r
}

/// `a + b`, entry by entry.
pub fn add_rows<S: Scalar, const N: usize>(a: [S; N], b: [S; N]) -> (r: [S; N])
    ensures
        r@ == row_plus(a@, b@),
{
    let mut r: [S; N] = a;
    let mut i: usize = 0;
    while i < N
        invariant
            i <= N,
            forall|k: int| 0 <= k < i ==> r[k] == a[k].plus_spec(b[k]),
            forall|k: int| i <= k < N ==> r[k] == a[k],
        decreases N - i,
    {
        r[i] = r[i].plus(b[i]);
        i += 1;
    }
    assert(r@ =~= row_plus(a@, b@));
    r
}

/// `a - b`, entry by entry.
pub fn sub_rows<S: Scalar, const N: usize>(a: [S; N], b: [S; N]) -> (r: [S; N])
    ensures
        r@ == row_minus(a@, b@),
{
    let mut r: [S; N] = a;
    let mut i: usize = 0;
    while i < N
        invariant
            i <= N,
            forall|k: int| 0 <= k < i ==> r[k] == a[k].minus_spec(b[k]),
            forall|k: int| i <= k < N ==> r[k] == a[k],
        decreases N - i,
    {
        r[i] = r[i].minus(b[i]);
        i += 1;
    }
    assert(r@ =~= row_minus(a@, b@));
    r
}

/// `a * k`, entry by entry.
pub fn scale_row<S: Scalar, const N: usize>(a: [S; N], k: S) -> (r: [S; N])
    ensures
        r@ == row_scaled(a@, k),
{
    let mut r: [S; N] = a;
    let mut i: usize = 0;
    while i < N
        invariant
            i <= N,
            forall|j: int| 0 <= j < i ==> r[j] == a[j].times_spec(k),
            forall|j: int| i <= j < N ==> r[j] == a[j],
        decreases N - i,
    {
        r[i] = r[i].times(k);
        i += 1;
    }
    assert(r@ =~= row_scaled(a@, k));
    r
}

/// `0 + (2 * x) * a[j]`, entry by entry.
pub fn doubled_row<S: Scalar, const N: usize>(a: [S; N], x: S) -> (r: [S; N])
    ensures
        r@ == row_doubled(a@, x),
{
    let mut r: [S; N] = [S::zero();N];
    let mut j: usize = 0;
    while j < N
        invariant
            j <= N,
            forall|k: int|
                0 <= k < j ==> r[k] == S::zero_spec().plus_spec(
                    S::two_spec().times_spec(x).times_spec(a[k]),
                ),
            forall|k: int| j <= k < N ==> r[k] == S::zero_spec(),
        decreases N - j,
    {
        r[j] = r[j].plus(S::two().times(x).times(a[j]));
        j += 1;
    }
    assert(r@ =~= row_doubled(a@, x));
    r
}

/// `a + b`, row by row.
pub fn add_mats<S: Scalar, const R: usize, const C: usize>(a: [[S; C]; R], b: [[S; C]; R]) -> (r:
    [[S; C]; R])
    ensures
        mat_view(r) == mat_plus(mat_view(a), mat_view(b)),
{
    let mut r: [[S; C]; R] = a;
    let mut i: usize = 0;
    while i < R
        invariant
            i <= R,
            forall|k: int| 0 <= k < i ==> r[k]@ == row_plus(a[k]@, b[k]@),
            forall|k: int| i <= k < R ==> r[k] == a[k],
        decreases R - i,
    {
        r[i] = add_rows(r[i], b[i]);
        i += 1;
    }
    assert(mat_view(r) =~= mat_plus(mat_view(a), mat_view(b)));
    r
}

/// `a * k`, row by row.
pub fn scale_mat<S: Scalar, const R: usize, const C: usize>(a: [[S; C]; R], k: S) -> (r: [[S; C]; R])
    ensures
        mat_view(r) == mat_scaled(mat_view(a), k),
{
    let mut r: [[S; C]; R] = a;
    let mut i: usize = 0;
    while i < R
        invariant
            i <= R,
            forall|j: int| 0 <= j < i ==> r[j]@ == row_scaled(a[j]@, k),
            forall|j: int| i <= j < R ==> r[j] == a[j],
        decreases R - i,
    {
        r[i] = scale_row(r[i], k);
        i += 1;
    }
    assert(mat_view(r) =~= mat_scaled(mat_view(a), k));
    r
}

/// A matrix of zeros.
pub fn zero_mat<S: Scalar, const R: usize, const C: usize>() -> (r: [[S; C]; R])
    ensures
        mat_view(r) == mat_zero::<S>(R as nat, C as nat),
{
    let r: [[S; C]; R] = [zero_row::<S, C>();R];
    assert(mat_view(r) =~= mat_zero::<S>(R as nat, C as nat));
    r
}

} // verus!
