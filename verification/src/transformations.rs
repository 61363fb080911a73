use vstd::prelude::*;
use crate::matrices::Matrix;
use crate::scalar::Scalar;

verus! {

/// The matrix that moves a point by `(x, y, z)`: the identity with the
/// three numbers in its last column.
pub fn translation(x: Scalar, y: Scalar, z: Scalar) -> (m: Matrix<4, 4>)
    ensures
        m.at(0, 3) == x,
        m.at(1, 3) == y,
        m.at(2, 3) == z,
        forall|r: int, c: int|
            0 <= r < 4 && 0 <= c < 4 && !(c == 3 && r < 3) ==> (#[trigger] m.at(r, c)).bits == if r
                == c {
                0x3f80_0000u32
            } else {
                0u32
            },
{
    let mut m: Matrix<4, 4> = Matrix::identity();
    m.set(0, 3, x);
    m.set(1, 3, y);
    m.set(2, 3, z);
    m
}

/// The matrix that stretches by `x`, `y` and `z` along the three axes:
/// zeros with the three numbers and a one on the diagonal.
pub fn scaling(x: Scalar, y: Scalar, z: Scalar) -> (m: Matrix<4, 4>)
    ensures
        m.at(0, 0) == x,
        m.at(1, 1) == y,
        m.at(2, 2) == z,
        m.at(3, 3).bits == 0x3f80_0000,
        forall|r: int, c: int| 0 <= r < 4 && 0 <= c < 4 && r != c ==> (#[trigger] m.at(r, c)).bits == 0,
{
    let mut m: Matrix<4, 4> = Matrix::init(Scalar::zero());
    m.set(0, 0, x);
    m.set(1, 1, y);
    m.set(2, 2, z);
    m.set(3, 3, Scalar::one());
    m
}

} // verus!
