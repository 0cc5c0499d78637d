//! Basic numerical helpers, generic over the number type.
//!
//! The helpers work on any type with the arithmetic operators they use.
//! What they return is stated over the operators' own specifications
//! (`mul_spec`, `div_spec`), for the types that follow them exactly.

use std::ops::{Add, Div, Mul};
use vstd::prelude::*;
use vstd::arithmetic::power::{lemma_pow0, lemma_pow1, lemma_pow_adds, lemma_pow_multiplies, pow};
use vstd::std_specs::ops::{AddSpec, DivSpec, MulSpec};

verus! {

/// Whether the products and quotients of `T` are exactly those that its
/// specification gives.
pub open spec fn exact_mul_div<T: Mul<Output = T> + Div<Output = T>>() -> bool {
    T::obeys_mul_spec() && T::obeys_div_spec()
}

/// Whether any two values of `T` can be multiplied and divided: no product
/// or quotient is left undefined.
pub open spec fn total_mul_div<T: Mul<Output = T> + Div<Output = T>>() -> bool {
    &&& forall|a: T, b: T| #[trigger] a.mul_req(b)
    &&& forall|a: T, b: T| #[trigger] a.div_req(b)
}

/// Whether the sums and products of `T` are exactly those that its
/// specification gives.
pub open spec fn exact_add_mul<T: Add<Output = T> + Mul<Output = T>>() -> bool {
    T::obeys_add_spec() && T::obeys_mul_spec()
}

/// Whether any two values of `T` can be added and multiplied: no sum or
/// product is left undefined.
pub open spec fn total_add_mul<T: Add<Output = T> + Mul<Output = T>>() -> bool {
    &&& forall|a: T, b: T| #[trigger] a.add_req(b)
    &&& forall|a: T, b: T| #[trigger] a.mul_req(b)
}

/// The size of an exponent, by which raising to a power proceeds.
pub open spec fn exponent_size(n: int) -> int {
    if n < 0 {
        1 - n
    } else {
        n
    }
}

/// The value of `x` raised to the power `n` by repeated squaring, `one`
/// being the unit of `T`. The products are taken in this order: the power
/// of the lowest bit of `n` times the power of the square for the higher
/// bits. A negative power is the unit divided by the positive one.
pub open spec fn powi_spec<T: Mul<Output = T> + Div<Output = T>>(x: T, n: int, one: T) -> T
    decreases exponent_size(n),
{
    if n == 0 {
        one
    } else if n == 1 {
        x
    } else if n >= 2 {
        powi_spec(x, n % 2, one).mul_spec(powi_spec(x.mul_spec(x), n / 2, one))
    } else {
        one.div_spec(powi_spec(x, -n, one))
    }
}

/// Whether every product and quotient taken on the way to `powi_spec(x, n,
/// one)` is defined.
pub open spec fn powi_defined<T: Mul<Output = T> + Div<Output = T>>(x: T, n: int, one: T) -> bool
    decreases exponent_size(n),
{
    if n == 0 || n == 1 {
        true
    } else if n >= 2 {
        &&& x.mul_req(x)
        &&& powi_defined(x.mul_spec(x), n / 2, one)
        &&& powi_spec(x, n % 2, one).mul_req(powi_spec(x.mul_spec(x), n / 2, one))
    } else {
        &&& powi_defined(x, -n, one)
        &&& one.div_req(powi_spec(x, -n, one))
    }
}

/// Computes the square of a number.
pub fn sqr<T>(x: T) -> (r: T) where T: Mul<Output = T> + Copy
    requires
        x.mul_req(x),
    ensures
        T::obeys_mul_spec() ==> r == x.mul_spec(x),
{
    x * x
}

/// Raises a number to an integer power, given the unit of its type.
pub fn powi<T>(x: T, n: i32, one: T) -> (r: T) where
    T: Mul<Output = T> + Div<Output = T> + Copy,

    requires
        n > i32::MIN,
        total_mul_div::<T>() || (exact_mul_div::<T>() && powi_defined(x, n as int, one)),
    ensures
        exact_mul_div::<T>() ==> r == powi_spec(x, n as int, one),
    decreases exponent_size(n as int),
{
    if n == 0 {
        one
    } else if n == 1 {
        x
    } else if n >= 2 {
        let low = powi(x, n % 2, one);
        let high = powi(sqr(x), n / 2, one);
        low * high
    } else {
        one / powi(x, -n, one)
    }
}

/// In integer arithmetic, raising to a power that is not negative gives the
/// power of mathematics, as long as nothing on the way overflows.
pub proof fn lemma_powi_is_power(x: i64, n: nat)
    requires
        powi_defined::<i64>(x, n as int, 1),
    ensures
        powi_spec::<i64>(x, n as int, 1) == pow(x as int, n),
    decreases n,
{
    if n == 0 {
        lemma_pow0(x as int);
    } else if n == 1 {
        lemma_pow1(x as int);
    } else {
        let square: i64 = x.mul_spec(x);
        let low: nat = n % 2;
        let high: nat = n / 2;
        assert(square == x * x);
        lemma_powi_is_power(x, low);
        lemma_powi_is_power(square, high);
        lemma_pow_multiplies(x as int, 2, high);
        assert(pow(x as int, 2) == x * x) by {
            reveal_with_fuel(pow, 3);
        }
        lemma_pow_adds(x as int, low, 2 * high);
        assert(low + 2 * high == n);
    }
}

} // verus!
