use vstd::prelude::*;
use crate::arithmetic::{difference_of, exact, product_of, quotient_of, sum_of, Arithmetic};
use crate::scalar::Scalar;
use crate::tuples::{Point, Quad, Tuple, Vector};

verus! {

/// A grid of numbers with `ROWS` rows and `COLS` columns.
#[derive(Debug, Clone, Copy)]
pub struct Matrix<const ROWS: usize, const COLS: usize> {
    pub data: [[Scalar; COLS]; ROWS],
}

impl<const ROWS: usize, const COLS: usize> Matrix<ROWS, COLS> {
    /// The entry in row `row` and column `col`.
    pub open spec fn at(self, row: int, col: int) -> Scalar {
        self.data[row][col]
    }

    /// Whether `row` and `col` name an entry.
    pub open spec fn inside(row: int, col: int) -> bool {
        0 <= row < ROWS && 0 <= col < COLS
    }

    pub fn new(data: [[Scalar; COLS]; ROWS]) -> (m: Self)
        ensures
            m.data == data,
    {
        Matrix { data }
    }

    /// The matrix that holds `value` everywhere.
    pub fn init(value: Scalar) -> (m: Self)
        ensures
            forall|r: int, c: int| 0 <= r < ROWS && 0 <= c < COLS ==> #[trigger] m.at(r, c) == value,
    {
        // The array comes filled; each entry is written once more, and it
        // is on these writes that the proof rests.
        let mut m = Matrix { data: [[value; COLS]; ROWS] };
        let mut row: usize = 0;
        while row < ROWS
            invariant
                row <= ROWS,
                forall|r: int, c: int| 0 <= r < row && 0 <= c < COLS ==> #[trigger] m.at(r, c) == value,
            decreases ROWS - row,
        {
            let mut col: usize = 0;
            while col < COLS
                invariant
                    row < ROWS,
                    col <= COLS,
                    forall|r: int, c: int|
                        0 <= r < row && 0 <= c < COLS ==> #[trigger] m.at(r, c) == value,
                    forall|c: int| 0 <= c < col ==> #[trigger] m.at(row as int, c) == value,
                decreases COLS - col,
            {
                m.set(row, col, value);
                col += 1;
            }
            row += 1;
        }
        m
    }

    /// The matrix with ones on the diagonal and positive zeros elsewhere.
    pub fn identity() -> (m: Self)
        requires
            ROWS <= COLS,
        ensures
            forall|r: int, c: int|
                Self::inside(r, c) ==> (#[trigger] m.at(r, c)).bits == if r == c {
                    0x3f80_0000u32
                } else {
                    0u32
                },
    {
        let mut result = Self::init(Scalar::zero());
        let mut row: usize = 0;
        while row < ROWS
            invariant
                row <= ROWS <= COLS,
                forall|r: int, c: int|
                    Self::inside(r, c) ==> (#[trigger] result.at(r, c)).bits == if r == c && r < row {
                        0x3f80_0000u32
                    } else {
                        0u32
                    },
            decreases ROWS - row,
        {
            result.set(row, row, Scalar::one());
            row += 1;
        }
        result
    }

    pub fn get(&self, row: usize, col: usize) -> (v: Scalar)
        requires
            row < ROWS,
            col < COLS,
        ensures
            v == self.at(row as int, col as int),
    {
        self.data[row][col]
    }

    pub fn set(&mut self, row: usize, col: usize, value: Scalar)
        requires
            row < ROWS,
            col < COLS,
        ensures
            final(self).at(row as int, col as int) == value,
            forall|r: int, c: int|
                Self::inside(r, c) && (r != row || c != col) ==> #[trigger] final(self).at(r, c)
                    == old(self).at(r, c),
    {
        self.data[row][col] = value;
    }

    /// Whether every entry of `self` equals that of `other`, as numbers
    /// compare: a NaN equals nothing, and the two zeros are equal.
    pub open spec fn matches(self, other: Self) -> bool {
        forall|r: int, c: int| Self::inside(r, c) ==> (#[trigger] self.at(r, c)).same(other.at(r, c))
    }

    /// Whether `self` and `other` hold equal numbers in every place.
    pub fn equals(&self, other: &Self) -> (b: bool)
        ensures
            b == self.matches(*other),
    {
        let mut row: usize = 0;
        while row < ROWS
            invariant
                row <= ROWS,
                forall|r: int, c: int|
                    0 <= r < row && 0 <= c < COLS ==> (#[trigger] self.at(r, c)).same(other.at(r, c)),
            decreases ROWS - row,
        {
            let mut col: usize = 0;
            while col < COLS
                invariant
                    row < ROWS,
                    col <= COLS,
                    forall|r: int, c: int|
                        0 <= r < row && 0 <= c < COLS ==> (#[trigger] self.at(r, c)).same(
                            other.at(r, c),
                        ),
                    forall|c: int|
                        0 <= c < col ==> (#[trigger] self.at(row as int, c)).same(
                            other.at(row as int, c),
                        ),
                decreases COLS - col,
            {
                if !self.data[row][col].equals(other.data[row][col]) {
                    assert(!self.at(row as int, col as int).same(other.at(row as int, col as int)));
                    return false;
                }
                col += 1;
            }
            row += 1;
        }
        true
    }
}

/// Whether `m` holds ones on its diagonal and positive zeros elsewhere.
pub open spec fn is_identity(m: Matrix<4, 4>) -> bool {
    forall|r: int, c: int|
        0 <= r < 4 && 0 <= c < 4 ==> (#[trigger] m.at(r, c)).bits == if r == c {
            0x3f80_0000u32
        } else {
            0u32
        }
}

/// The matrix whose rows are the columns of `a`.
pub fn transpose<const ROWS: usize, const COLS: usize>(a: &Matrix<ROWS, COLS>) -> (t: Matrix<
    COLS,
    ROWS,
>)
    ensures
        forall|r: int, c: int|
            0 <= r < ROWS && 0 <= c < COLS ==> #[trigger] t.at(c, r) == a.at(r, c),
{
    let mut result: Matrix<COLS, ROWS> = Matrix::init(Scalar::zero());
    let mut row: usize = 0;
    while row < ROWS
        invariant
            row <= ROWS,
            forall|r: int, c: int|
                0 <= r < row && 0 <= c < COLS ==> #[trigger] result.at(c, r) == a.at(r, c),
        decreases ROWS - row,
    {
        let mut col: usize = 0;
        while col < COLS
            invariant
                row < ROWS,
                col <= COLS,
                forall|r: int, c: int|
                    0 <= r < row && 0 <= c < COLS ==> #[trigger] result.at(c, r) == a.at(r, c),
                forall|c: int| 0 <= c < col ==> #[trigger] result.at(c, row as int) == a.at(row as int, c),
            decreases COLS - col,
        {
            result.set(col, row, a.get(row, col));
            col += 1;
        }
        row += 1;
    }
    result
}

/// Where the entry `index` of a matrix with one row (or column) removed
/// comes from in the full matrix.
pub open spec fn skipping(index: int, removed: int) -> int {
    if index < removed {
        index
    } else {
        index + 1
    }
}

/// `a` without its row `row` and its column `col`.
pub fn submatrix<const N: usize, const M: usize>(a: &Matrix<N, N>, row: usize, col: usize) -> (s:
    Matrix<M, M>)
    requires
        M + 1 == N,
        row < N,
        col < N,
    ensures
        forall|i: int, j: int|
            0 <= i < M && 0 <= j < M ==> #[trigger] s.at(i, j) == a.at(
                skipping(i, row as int),
                skipping(j, col as int),
            ),
{
    let mut result: Matrix<M, M> = Matrix::init(Scalar::zero());
    let mut i: usize = 0;
    let mut y: usize = 0;
    while y < N
        invariant
            M + 1 == N,
            row < N,
            col < N,
            y <= N,
            i == if y <= row { y as int } else { y - 1 },
            forall|p: int, q: int|
                0 <= p < i && 0 <= q < M ==> #[trigger] result.at(p, q) == a.at(
                    skipping(p, row as int),
                    skipping(q, col as int),
                ),
        decreases N - y,
    {
        if y != row {
            let mut j: usize = 0;
            let mut x: usize = 0;
            while x < N
                invariant
                    M + 1 == N,
                    row < N,
                    col < N,
                    y < N,
                    y != row,
                    x <= N,
                    i == if y <= row { y as int } else { y - 1 },
                    i < M,
                    y == skipping(i as int, row as int),
                    j == if x <= col { x as int } else { x - 1 },
                    forall|p: int, q: int|
                        0 <= p < i && 0 <= q < M ==> #[trigger] result.at(p, q) == a.at(
                            skipping(p, row as int),
                            skipping(q, col as int),
                        ),
                    forall|q: int|
                        0 <= q < j ==> #[trigger] result.at(i as int, q) == a.at(
                            y as int,
                            skipping(q, col as int),
                        ),
                decreases N - x,
            {
                if x != col {
                    result.set(i, j, a.get(y, x));
                    j += 1;
                }
                x += 1;
            }
            i += 1;
        }
        y += 1;
    }
    result
}

/// The entries of a matrix as a function of row and column.
pub type Entries = spec_fn(int, int) -> Scalar;

impl<const ROWS: usize, const COLS: usize> Matrix<ROWS, COLS> {
    /// The entries of the matrix.
    pub open spec fn entries(self) -> Entries {
        |r: int, c: int| self.at(r, c)
    }
}

/// The entries of a matrix without its row `row` and its column `col`.
pub open spec fn without(e: Entries, row: int, col: int) -> Entries {
    |i: int, j: int| e(skipping(i, row), skipping(j, col))
}

/// `minor` with the sign that belongs to the place `(row, col)`: kept where
/// `row + col` is even, flipped where it is odd.
pub open spec fn signed(minor: Scalar, row: int, col: int) -> Scalar {
    if (row + col) % 2 == 0 {
        minor
    } else {
        minor.negated()
    }
}

/// The minor `minor` with the sign that belongs to its place.
pub fn signed_minor(minor: Scalar, row: usize, col: usize) -> (c: Scalar)
    ensures
        c == signed(minor, row as int, col as int),
{
    if (row % 2 == 0) == (col % 2 == 0) {
        minor
    } else {
        minor.neg()
    }
}

/// The determinant of two rows: `e00 * e11 - e01 * e10`.
pub open spec fn det2_of<A: Arithmetic>(e: Entries, ar: &A) -> Scalar {
    difference_of(ar, product_of(ar, e(0, 0), e(1, 1)), product_of(ar, e(0, 1), e(1, 0)))
}

/// The cofactor at `(row, col)` of three rows: the determinant of what is
/// left without that row and column, with the sign of the place.
pub open spec fn cofactor3_of<A: Arithmetic>(e: Entries, row: int, col: int, ar: &A) -> Scalar {
    signed(det2_of(without(e, row, col), ar), row, col)
}

/// The first `n` terms of the determinant of three rows, summed from the
/// left and starting at zero: each the cofactor of an entry of the first
/// row times that entry.
pub open spec fn det3_terms<A: Arithmetic>(e: Entries, n: nat, ar: &A) -> Scalar
    decreases n,
{
    if n == 0 {
        Scalar { bits: 0 }
    } else {
        sum_of(
            ar,
            det3_terms(e, (n - 1) as nat, ar),
            product_of(ar, cofactor3_of(e, 0, n - 1, ar), e(0, n - 1)),
        )
    }
}

/// The determinant of three rows.
pub open spec fn det3_of<A: Arithmetic>(e: Entries, ar: &A) -> Scalar {
    det3_terms(e, 3, ar)
}

/// The cofactor at `(row, col)` of four rows.
pub open spec fn cofactor4_of<A: Arithmetic>(e: Entries, row: int, col: int, ar: &A) -> Scalar {
    signed(det3_of(without(e, row, col), ar), row, col)
}

/// The first `n` terms of the determinant of four rows.
pub open spec fn det4_terms<A: Arithmetic>(e: Entries, n: nat, ar: &A) -> Scalar
    decreases n,
{
    if n == 0 {
        Scalar { bits: 0 }
    } else {
        sum_of(
            ar,
            det4_terms(e, (n - 1) as nat, ar),
            product_of(ar, cofactor4_of(e, 0, n - 1, ar), e(0, n - 1)),
        )
    }
}

/// The determinant of four rows.
pub open spec fn det4_of<A: Arithmetic>(e: Entries, ar: &A) -> Scalar {
    det4_terms(e, 4, ar)
}

/// Whether `inverse` is what inverting `a` gives: nothing where the
/// determinant equals zero, and else the matrix that holds at `(col, row)`
/// the cofactor of `a` at `(row, col)` over the determinant.
pub open spec fn is_inverse_of<A: Arithmetic>(
    inverse: Option<Matrix<4, 4>>,
    a: Matrix<4, 4>,
    ar: &A,
) -> bool {
    let det = det4_of(a.entries(), ar);
    match inverse {
        None => det.magnitude() == 0,
        Some(m) => {
            &&& det.magnitude() != 0
            &&& forall|r: int, c: int|
                0 <= r < 4 && 0 <= c < 4 ==> #[trigger] m.at(c, r) == quotient_of(
                    ar,
                    cofactor4_of(a.entries(), r, c, ar),
                    det,
                )
        },
    }
}

/// A matrix has one inverse at most: two results of inverting `a` are the
/// same.
pub proof fn lemma_inverse_is_determined<A: Arithmetic>(
    x: Option<Matrix<4, 4>>,
    y: Option<Matrix<4, 4>>,
    a: Matrix<4, 4>,
    ar: &A,
)
    requires
        is_inverse_of(x, a, ar),
        is_inverse_of(y, a, ar),
    ensures
        x == y,
{
    if x is Some {
        let m = x->0;
        let n = y->0;
        assert forall|r: int| 0 <= r < 4 implies m.data[r] == n.data[r] by {
            assert forall|c: int| 0 <= c < 4 implies m.data[r][c] == n.data[r][c] by {
                assert(m.at(r, c) == n.at(r, c));
            }
            assert(m.data[r] =~= n.data[r]);
        }
        assert(m.data =~= n.data);
    }
}

/// The determinant of a matrix of two rows.
pub fn determinant2<A: Arithmetic>(a: &Matrix<2, 2>, ar: &A) -> (d: Scalar)
    ensures
        exact(ar) ==> d == det2_of(a.entries(), ar),
{
    ar.difference(ar.product(a.get(0, 0), a.get(1, 1)), ar.product(a.get(0, 1), a.get(1, 0)))
}

/// The determinant of `a` without its row `row` and its column `col`.
pub fn minor3<A: Arithmetic>(a: &Matrix<3, 3>, row: usize, col: usize, ar: &A) -> (m: Scalar)
    requires
        row < 3,
        col < 3,
    ensures
        exact(ar) ==> m == det2_of(without(a.entries(), row as int, col as int), ar),
{
    let sub: Matrix<2, 2> = submatrix(a, row, col);
    proof {
        assert(sub.at(0, 0) == a.at(skipping(0, row as int), skipping(0, col as int)));
        assert(sub.at(1, 1) == a.at(skipping(1, row as int), skipping(1, col as int)));
        assert(sub.at(0, 1) == a.at(skipping(0, row as int), skipping(1, col as int)));
        assert(sub.at(1, 0) == a.at(skipping(1, row as int), skipping(0, col as int)));
    }
    determinant2(&sub, ar)
}

/// The minor at `row` and `col`, with its sign flipped where `row + col` is odd.
pub fn cofactor3<A: Arithmetic>(a: &Matrix<3, 3>, row: usize, col: usize, ar: &A) -> (c: Scalar)
    requires
        row < 3,
        col < 3,
    ensures
        exact(ar) ==> c == cofactor3_of(a.entries(), row as int, col as int, ar),
{
    signed_minor(minor3(a, row, col, ar), row, col)
}

/// The determinant of a matrix of three rows: the entries of the first row,
/// each multiplied by its cofactor, summed from the left.
pub fn determinant3<A: Arithmetic>(a: &Matrix<3, 3>, ar: &A) -> (d: Scalar)
    ensures
        exact(ar) ==> d == det3_of(a.entries(), ar),
{
    let mut result = Scalar::zero();
    let mut n: usize = 0;
    while n < 3
        invariant
            n <= 3,
            exact(ar) ==> result == det3_terms(a.entries(), n as nat, ar),
        decreases 3 - n,
    {
        result = ar.sum(result, ar.product(cofactor3(a, 0, n, ar), a.get(0, n)));
        n += 1;
    }
    result
}

/// The determinant of three rows is the same for the same entries.
proof fn lemma_det3_same<A: Arithmetic>(e: Entries, g: Entries, ar: &A)
    requires
        forall|i: int, j: int| 0 <= i < 3 && 0 <= j < 3 ==> #[trigger] e(i, j) == g(i, j),
    ensures
        det3_of(e, ar) == det3_of(g, ar),
{
    assert forall|n: int| 0 <= n < 3 implies #[trigger] cofactor3_of(e, 0, n, ar) == cofactor3_of(
        g,
        0,
        n,
        ar,
    ) by {
        assert(without(e, 0, n)(0, 0) == without(g, 0, n)(0, 0));
        assert(without(e, 0, n)(1, 1) == without(g, 0, n)(1, 1));
        assert(without(e, 0, n)(0, 1) == without(g, 0, n)(0, 1));
        assert(without(e, 0, n)(1, 0) == without(g, 0, n)(1, 0));
    }
    assert(e(0, 0) == g(0, 0) && e(0, 1) == g(0, 1) && e(0, 2) == g(0, 2));
    assert(det3_terms(e, 1, ar) == det3_terms(g, 1, ar)) by {
        assert(det3_terms(e, 0, ar) == det3_terms(g, 0, ar));
        assert(cofactor3_of(e, 0, 0, ar) == cofactor3_of(g, 0, 0, ar));
    }
    assert(det3_terms(e, 2, ar) == det3_terms(g, 2, ar)) by {
        assert(cofactor3_of(e, 0, 1, ar) == cofactor3_of(g, 0, 1, ar));
    }
    assert(det3_terms(e, 3, ar) == det3_terms(g, 3, ar)) by {
        assert(cofactor3_of(e, 0, 2, ar) == cofactor3_of(g, 0, 2, ar));
    }
}

/// The determinant of `a` without its row `row` and its column `col`.
pub fn minor<A: Arithmetic>(a: &Matrix<4, 4>, row: usize, col: usize, ar: &A) -> (m: Scalar)
    requires
        row < 4,
        col < 4,
    ensures
        exact(ar) ==> m == det3_of(without(a.entries(), row as int, col as int), ar),
{
    let sub: Matrix<3, 3> = submatrix(a, row, col);
    proof {
        assert forall|i: int, j: int| 0 <= i < 3 && 0 <= j < 3 implies #[trigger] sub.entries()(i, j)
            == without(a.entries(), row as int, col as int)(i, j) by {
            assert(sub.at(i, j) == a.at(skipping(i, row as int), skipping(j, col as int)));
        }
        lemma_det3_same(sub.entries(), without(a.entries(), row as int, col as int), ar);
    }
    determinant3(&sub, ar)
}

/// The minor at `row` and `col`, with its sign flipped where `row + col` is odd.
pub fn cofactor<A: Arithmetic>(a: &Matrix<4, 4>, row: usize, col: usize, ar: &A) -> (c: Scalar)
    requires
        row < 4,
        col < 4,
    ensures
        exact(ar) ==> c == cofactor4_of(a.entries(), row as int, col as int, ar),
{
    signed_minor(minor(a, row, col, ar), row, col)
}

/// The determinant of a matrix of four rows: the entries of the first row,
/// each multiplied by its cofactor, summed from the left.
pub fn determinant<A: Arithmetic>(a: &Matrix<4, 4>, ar: &A) -> (d: Scalar)
    ensures
        exact(ar) ==> d == det4_of(a.entries(), ar),
{
    let mut result = Scalar::zero();
    let mut n: usize = 0;
    while n < 4
        invariant
            n <= 4,
            exact(ar) ==> result == det4_terms(a.entries(), n as nat, ar),
        decreases 4 - n,
    {
        result = ar.sum(result, ar.product(cofactor(a, 0, n, ar), a.get(0, n)));
        n += 1;
    }
    result
}

/// The inverse of `a`: the transposed matrix of cofactors, each divided by
/// the determinant. There is none where the determinant equals zero.
pub fn inverse<A: Arithmetic>(a: &Matrix<4, 4>, ar: &A) -> (inv: Option<Matrix<4, 4>>)
    ensures
        exact(ar) ==> is_inverse_of(inv, *a, ar),
{
    let det = determinant(a, ar);
    if det.is_zero() {
        return None;
    }
    let mut result: Matrix<4, 4> = Matrix::init(Scalar::zero());
    let mut row: usize = 0;
    while row < 4
        invariant
            row <= 4,
            exact(ar) ==> det == det4_of(a.entries(), ar),
            exact(ar) ==> forall|r: int, c: int|
                0 <= r < row && 0 <= c < 4 ==> #[trigger] result.at(c, r) == quotient_of(
                    ar,
                    cofactor4_of(a.entries(), r, c, ar),
                    det,
                ),
        decreases 4 - row,
    {
        let mut col: usize = 0;
        while col < 4
            invariant
                row < 4,
                col <= 4,
                exact(ar) ==> det == det4_of(a.entries(), ar),
                exact(ar) ==> forall|r: int, c: int|
                    0 <= r < row && 0 <= c < 4 ==> #[trigger] result.at(c, r) == quotient_of(
                        ar,
                        cofactor4_of(a.entries(), r, c, ar),
                        det,
                    ),
                exact(ar) ==> forall|c: int|
                    0 <= c < col ==> #[trigger] result.at(c, row as int) == quotient_of(
                        ar,
                        cofactor4_of(a.entries(), row as int, c, ar),
                        det,
                    ),
            decreases 4 - col,
        {
            let c = cofactor(a, row, col, ar);
            result.set(col, row, ar.quotient(c, det));
            col += 1;
        }
        row += 1;
    }
    Some(result)
}

/// The first `k` terms of the entry `(row, col)` of the product `a * b`,
/// summed from the left and starting at zero.
pub open spec fn product_terms<A: Arithmetic>(
    a: Entries,
    b: Entries,
    row: int,
    col: int,
    k: nat,
    ar: &A,
) -> Scalar
    decreases k,
{
    if k == 0 {
        Scalar { bits: 0 }
    } else {
        sum_of(
            ar,
            product_terms(a, b, row, col, (k - 1) as nat, ar),
            product_of(ar, a(row, k - 1), b(k - 1, col)),
        )
    }
}

/// Row `row` of the entries `e` times the column `(x, y, z, w)`, summed
/// from the left and starting at zero.
pub open spec fn row_of<A: Arithmetic>(
    e: Entries,
    row: int,
    x: Scalar,
    y: Scalar,
    z: Scalar,
    w: Scalar,
    ar: &A,
) -> Scalar {
    let first = sum_of(ar, Scalar { bits: 0 }, product_of(ar, e(row, 0), x));
    let second = sum_of(ar, first, product_of(ar, e(row, 1), y));
    let third = sum_of(ar, second, product_of(ar, e(row, 2), z));
    sum_of(ar, third, product_of(ar, e(row, 3), w))
}

/// The first three rows of `e` times the column of `p`, whose fourth entry
/// is one.
pub open spec fn apply_to_point<A: Arithmetic>(e: Entries, p: Point, ar: &A) -> Point {
    let w = Scalar { bits: 0x3f80_0000 };
    Point {
        x: row_of(e, 0, p.x, p.y, p.z, w, ar),
        y: row_of(e, 1, p.x, p.y, p.z, w, ar),
        z: row_of(e, 2, p.x, p.y, p.z, w, ar),
    }
}

/// The first three rows of `e` times the column of `v`, whose fourth entry
/// is zero.
pub open spec fn apply_to_vector<A: Arithmetic>(e: Entries, v: Vector, ar: &A) -> Vector {
    let w = Scalar { bits: 0 };
    Vector {
        x: row_of(e, 0, v.x, v.y, v.z, w, ar),
        y: row_of(e, 1, v.x, v.y, v.z, w, ar),
        z: row_of(e, 2, v.x, v.y, v.z, w, ar),
    }
}

/// The entries of the identity: ones on the diagonal, positive zeros
/// elsewhere.
pub open spec fn identity_entries() -> Entries {
    |r: int, c: int|
        if r == c {
            Scalar { bits: 0x3f80_0000 }
        } else {
            Scalar { bits: 0 }
        }
}

/// The entries `e` with rows and columns exchanged.
pub open spec fn transposed(e: Entries) -> Entries {
    |r: int, c: int| e(c, r)
}

impl<const N: usize> Matrix<N, N> {
    /// The product `self * other`: each entry the sum, from the left and
    /// starting at zero, of a row of `self` times a column of `other`.
    pub fn times<A: Arithmetic>(self, other: Matrix<N, N>, ar: &A) -> (m: Matrix<N, N>)
        ensures
            exact(ar) ==> forall|r: int, c: int|
                0 <= r < N && 0 <= c < N ==> #[trigger] m.at(r, c) == product_terms(
                    self.entries(),
                    other.entries(),
                    r,
                    c,
                    N as nat,
                    ar,
                ),
    {
        let mut result: Matrix<N, N> = Matrix::init(Scalar::zero());
        let mut row: usize = 0;
        while row < N
            invariant
                row <= N,
                exact(ar) ==> forall|r: int, c: int|
                    0 <= r < row && 0 <= c < N ==> #[trigger] result.at(r, c) == product_terms(
                        self.entries(),
                        other.entries(),
                        r,
                        c,
                        N as nat,
                        ar,
                    ),
                forall|r: int, c: int| row <= r < N && 0 <= c < N ==> (#[trigger] result.at(r, c)).bits == 0,
            decreases N - row,
        {
            let mut col: usize = 0;
            while col < N
                invariant
                    row < N,
                    col <= N,
                    exact(ar) ==> forall|r: int, c: int|
                        0 <= r < row && 0 <= c < N ==> #[trigger] result.at(r, c) == product_terms(
                            self.entries(),
                            other.entries(),
                            r,
                            c,
                            N as nat,
                            ar,
                        ),
                    exact(ar) ==> forall|c: int|
                        0 <= c < col ==> #[trigger] result.at(row as int, c) == product_terms(
                            self.entries(),
                            other.entries(),
                            row as int,
                            c,
                            N as nat,
                            ar,
                        ),
                    forall|c: int| col <= c < N ==> (#[trigger] result.at(row as int, c)).bits == 0,
                    forall|r: int, c: int|
                        row < r < N && 0 <= c < N ==> (#[trigger] result.at(r, c)).bits == 0,
                decreases N - col,
            {
                let mut k: usize = 0;
                while k < N
                    invariant
                        row < N,
                        col < N,
                        k <= N,
                        exact(ar) ==> forall|r: int, c: int|
                            0 <= r < row && 0 <= c < N ==> #[trigger] result.at(r, c)
                                == product_terms(self.entries(), other.entries(), r, c, N as nat, ar),
                        exact(ar) ==> forall|c: int|
                            0 <= c < col ==> #[trigger] result.at(row as int, c) == product_terms(
                                self.entries(),
                                other.entries(),
                                row as int,
                                c,
                                N as nat,
                                ar,
                            ),
                        exact(ar) ==> result.at(row as int, col as int) == product_terms(
                            self.entries(),
                            other.entries(),
                            row as int,
                            col as int,
                            k as nat,
                            ar,
                        ),
                        forall|c: int| col < c < N ==> (#[trigger] result.at(row as int, c)).bits == 0,
                        forall|r: int, c: int|
                            row < r < N && 0 <= c < N ==> (#[trigger] result.at(r, c)).bits == 0,
                    decreases N - k,
                {
                    let term = ar.product(self.get(row, k), other.get(k, col));
                    result.set(row, col, ar.sum(result.get(row, col), term));
                    k += 1;
                }
                col += 1;
            }
            row += 1;
        }
        result
    }
}

impl Matrix<4, 4> {
    /// Row `row` times the column `(x, y, z, w)`, summed from the left and
    /// starting at zero.
    pub open spec fn row_times_of<A: Arithmetic>(
        self,
        row: int,
        x: Scalar,
        y: Scalar,
        z: Scalar,
        w: Scalar,
        ar: &A,
    ) -> Scalar {
        row_of(self.entries(), row, x, y, z, w, ar)
    }

    /// Row `row` of `self` times the column `(x, y, z, w)`.
    pub fn row_times<A: Arithmetic>(
        &self,
        row: usize,
        x: Scalar,
        y: Scalar,
        z: Scalar,
        w: Scalar,
        ar: &A,
    ) -> (cel: Scalar)
        requires
            row < 4,
        ensures
            exact(ar) ==> cel == self.row_times_of(row as int, x, y, z, w, ar),
    {
        let mut cel = Scalar::zero();
        cel = ar.sum(cel, ar.product(self.get(row, 0), x));
        cel = ar.sum(cel, ar.product(self.get(row, 1), y));
        cel = ar.sum(cel, ar.product(self.get(row, 2), z));
        cel = ar.sum(cel, ar.product(self.get(row, 3), w));
        cel
    }

    /// The four rows of `self` times the column `q`.
    pub open spec fn times_quad_of<A: Arithmetic>(self, q: Quad, ar: &A) -> Quad {
        (
            self.row_times_of(0, q.0, q.1, q.2, q.3, ar),
            self.row_times_of(1, q.0, q.1, q.2, q.3, ar),
            self.row_times_of(2, q.0, q.1, q.2, q.3, ar),
            self.row_times_of(3, q.0, q.1, q.2, q.3, ar),
        )
    }

    /// `self` applied to the four numbers of `t`.
    pub fn times_tuple<A: Arithmetic>(&self, t: Tuple, ar: &A) -> (u: Tuple)
        ensures
            exact(ar) ==> u.quad() == self.times_quad_of(t.quad(), ar),
    {
        Tuple::new(
            self.row_times(0, t.x(), t.y(), t.z(), t.w(), ar),
            self.row_times(1, t.x(), t.y(), t.z(), t.w(), ar),
            self.row_times(2, t.x(), t.y(), t.z(), t.w(), ar),
            self.row_times(3, t.x(), t.y(), t.z(), t.w(), ar),
        )
    }

    /// The first three rows of `self` times the column of `p`, whose fourth
    /// entry is one.
    pub open spec fn times_point_of<A: Arithmetic>(self, p: Point, ar: &A) -> Point {
        apply_to_point(self.entries(), p, ar)
    }

    /// `self` applied to a point: the point is moved by the last column.
    pub fn times_point<A: Arithmetic>(&self, p: Point, ar: &A) -> (q: Point)
        ensures
            exact(ar) ==> q == self.times_point_of(p, ar),
    {
        let w = Scalar::one();
        Point {
            x: self.row_times(0, p.x, p.y, p.z, w, ar),
            y: self.row_times(1, p.x, p.y, p.z, w, ar),
            z: self.row_times(2, p.x, p.y, p.z, w, ar),
        }
    }

    /// The first three rows of `self` times the column of `v`, whose fourth
    /// entry is zero.
    pub open spec fn times_vector_of<A: Arithmetic>(self, v: Vector, ar: &A) -> Vector {
        apply_to_vector(self.entries(), v, ar)
    }

    /// `self` applied to a direction: the last column is multiplied by zero.
    /// What the fourth row would yield is dropped.
    pub fn times_vector<A: Arithmetic>(&self, v: Vector, ar: &A) -> (u: Vector)
        ensures
            exact(ar) ==> u == self.times_vector_of(v, ar),
    {
        let w = Scalar::zero();
        Vector {
            x: self.row_times(0, v.x, v.y, v.z, w, ar),
            y: self.row_times(1, v.x, v.y, v.z, w, ar),
            z: self.row_times(2, v.x, v.y, v.z, w, ar),
        }
    }
}

} // verus!
