use vstd::prelude::*;
use crate::scalar::Scalar;

verus! {

/// The binary32 arithmetic that the engine leaves to its caller.
///
/// No method promises anything of its result, so nothing the engine
/// guarantees rests on how a sum is rounded. Where an implementation is
/// `exact`, which is to say that each result is determined by the arguments,
/// the engine's results are determined too, and its contracts say by which
/// formula. The intended implementation maps each method to the IEEE 754
/// operation of the same name.
pub trait Arithmetic {
    /// `a + b`.
    fn sum(&self, a: Scalar, b: Scalar) -> Scalar;

    /// `a - b`.
    fn difference(&self, a: Scalar, b: Scalar) -> Scalar;

    /// `a * b`.
    fn product(&self, a: Scalar, b: Scalar) -> Scalar;

    /// `a / b`.
    fn quotient(&self, a: Scalar, b: Scalar) -> Scalar;

    /// The remainder of `a / b`, with the sign of `a`.
    fn remainder(&self, a: Scalar, b: Scalar) -> Scalar;

    /// The square root of `a`.
    fn sqrt(&self, a: Scalar) -> Scalar;

    /// `a` raised to the integer power `n`.
    fn powi(&self, a: Scalar, n: i32) -> Scalar;

    /// `a` raised to the power `b`.
    fn powf(&self, a: Scalar, b: Scalar) -> Scalar;

    /// The tangent of `a`, an angle in radians.
    fn tan(&self, a: Scalar) -> Scalar;

    /// The largest whole number that is at most `a`.
    fn floor(&self, a: Scalar) -> Scalar;

    /// The whole number nearest to `a`, halves away from zero.
    fn round(&self, a: Scalar) -> Scalar;

    /// The number nearest to the count `n`.
    fn from_usize(&self, n: usize) -> Scalar;

    /// `a` without its fraction, held to the range of a byte; 0 for a NaN.
    fn to_u8(&self, a: Scalar) -> u8;
}

/// A sum that `ar` may give for `a` and `b`.
pub open spec fn sum_of<A: Arithmetic>(ar: &A, a: Scalar, b: Scalar) -> Scalar {
    choose|r: Scalar| call_ensures(A::sum, (ar, a, b), r)
}

/// A difference that `ar` may give for `a` and `b`.
pub open spec fn difference_of<A: Arithmetic>(ar: &A, a: Scalar, b: Scalar) -> Scalar {
    choose|r: Scalar| call_ensures(A::difference, (ar, a, b), r)
}

/// A product that `ar` may give for `a` and `b`.
pub open spec fn product_of<A: Arithmetic>(ar: &A, a: Scalar, b: Scalar) -> Scalar {
    choose|r: Scalar| call_ensures(A::product, (ar, a, b), r)
}

/// A quotient that `ar` may give for `a` and `b`.
pub open spec fn quotient_of<A: Arithmetic>(ar: &A, a: Scalar, b: Scalar) -> Scalar {
    choose|r: Scalar| call_ensures(A::quotient, (ar, a, b), r)
}

/// A remainder that `ar` may give for `a` and `b`.
pub open spec fn remainder_of<A: Arithmetic>(ar: &A, a: Scalar, b: Scalar) -> Scalar {
    choose|r: Scalar| call_ensures(A::remainder, (ar, a, b), r)
}

/// A square root that `ar` may give for `a`.
pub open spec fn sqrt_of<A: Arithmetic>(ar: &A, a: Scalar) -> Scalar {
    choose|r: Scalar| call_ensures(A::sqrt, (ar, a), r)
}

/// A power that `ar` may give for `a` and the whole exponent `n`.
pub open spec fn powi_of<A: Arithmetic>(ar: &A, a: Scalar, n: i32) -> Scalar {
    choose|r: Scalar| call_ensures(A::powi, (ar, a, n), r)
}

/// A power that `ar` may give for `a` and the exponent `b`.
pub open spec fn powf_of<A: Arithmetic>(ar: &A, a: Scalar, b: Scalar) -> Scalar {
    choose|r: Scalar| call_ensures(A::powf, (ar, a, b), r)
}

/// A tangent that `ar` may give for `a`.
pub open spec fn tan_of<A: Arithmetic>(ar: &A, a: Scalar) -> Scalar {
    choose|r: Scalar| call_ensures(A::tan, (ar, a), r)
}

/// A floor that `ar` may give for `a`.
pub open spec fn floor_of<A: Arithmetic>(ar: &A, a: Scalar) -> Scalar {
    choose|r: Scalar| call_ensures(A::floor, (ar, a), r)
}

/// A rounding that `ar` may give for `a`.
pub open spec fn round_of<A: Arithmetic>(ar: &A, a: Scalar) -> Scalar {
    choose|r: Scalar| call_ensures(A::round, (ar, a), r)
}

/// A number that `ar` may give for the count `n`.
pub open spec fn from_usize_of<A: Arithmetic>(ar: &A, n: usize) -> Scalar {
    choose|r: Scalar| call_ensures(A::from_usize, (ar, n), r)
}

/// A byte that `ar` may give for `a`.
pub open spec fn to_u8_of<A: Arithmetic>(ar: &A, a: Scalar) -> u8 {
    choose|r: u8| call_ensures(A::to_u8, (ar, a), r)
}

/// Whether the arithmetic `ar` is a function of its arguments: whatever a
/// method may give for some arguments is the one result named above. Every
/// contract that states a formula states it of such an arithmetic.
pub open spec fn exact<A: Arithmetic>(ar: &A) -> bool {
    &&& forall|a: Scalar, b: Scalar, r: Scalar| #[trigger]
        call_ensures(A::sum, (ar, a, b), r) ==> r == sum_of(ar, a, b)
    &&& forall|a: Scalar, b: Scalar, r: Scalar| #[trigger]
        call_ensures(A::difference, (ar, a, b), r) ==> r == difference_of(ar, a, b)
    &&& forall|a: Scalar, b: Scalar, r: Scalar| #[trigger]
        call_ensures(A::product, (ar, a, b), r) ==> r == product_of(ar, a, b)
    &&& forall|a: Scalar, b: Scalar, r: Scalar| #[trigger]
        call_ensures(A::quotient, (ar, a, b), r) ==> r == quotient_of(ar, a, b)
    &&& forall|a: Scalar, b: Scalar, r: Scalar| #[trigger]
        call_ensures(A::remainder, (ar, a, b), r) ==> r == remainder_of(ar, a, b)
    &&& forall|a: Scalar, r: Scalar| #[trigger]
        call_ensures(A::sqrt, (ar, a), r) ==> r == sqrt_of(ar, a)
    &&& forall|a: Scalar, n: i32, r: Scalar| #[trigger]
        call_ensures(A::powi, (ar, a, n), r) ==> r == powi_of(ar, a, n)
    &&& forall|a: Scalar, b: Scalar, r: Scalar| #[trigger]
        call_ensures(A::powf, (ar, a, b), r) ==> r == powf_of(ar, a, b)
    &&& forall|a: Scalar, r: Scalar| #[trigger]
        call_ensures(A::tan, (ar, a), r) ==> r == tan_of(ar, a)
    &&& forall|a: Scalar, r: Scalar| #[trigger]
        call_ensures(A::floor, (ar, a), r) ==> r == floor_of(ar, a)
    &&& forall|a: Scalar, r: Scalar| #[trigger]
        call_ensures(A::round, (ar, a), r) ==> r == round_of(ar, a)
    &&& forall|n: usize, r: Scalar| #[trigger]
        call_ensures(A::from_usize, (ar, n), r) ==> r == from_usize_of(ar, n)
    &&& forall|a: Scalar, r: u8| #[trigger]
        call_ensures(A::to_u8, (ar, a), r) ==> r == to_u8_of(ar, a)
}

} // verus!
