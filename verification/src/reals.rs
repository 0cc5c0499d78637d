//! What the derivations ask of the real numbers.
//!
//! The crate is generic over the type `R` of its real numbers. Sums,
//! differences, products and quotients come from the operators of `R`. The
//! rest is handed over by the caller in a `RealTools`: the number pi, the
//! conversion of a count, the square root and the absolute value.
//!
//! A derivation asks that the arithmetic of `R` is total, so that it can be
//! carried out whatever the numbers are. It states its result for the types
//! whose arithmetic is exact, that is, whose operators and tools return
//! what their specifications say and nothing else.

use std::ops::{Add, Div, Mul, Neg, Sub};
use vstd::prelude::*;
use vstd::std_specs::ops::{AddSpec, DivSpec, MulSpec, NegSpec, SubSpec};

verus! {

/// Whether any two values of `R` can be added, subtracted, multiplied and
/// divided, and any value negated: no result is left undefined.
pub open spec fn total_arithmetic<
    R: Add<Output = R> + Sub<Output = R> + Mul<Output = R> + Div<Output = R> + Neg<Output = R>,
>() -> bool {
    &&& forall|a: R, b: R| #[trigger] a.add_req(b)
    &&& forall|a: R, b: R| #[trigger] a.sub_req(b)
    &&& forall|a: R, b: R| #[trigger] a.mul_req(b)
    &&& forall|a: R, b: R| #[trigger] a.div_req(b)
    &&& forall|a: R| #[trigger] a.neg_req()
}

/// Whether the operators of `R` return exactly what their specifications
/// give.
pub open spec fn exact_arithmetic<
    R: Add<Output = R> + Sub<Output = R> + Mul<Output = R> + Div<Output = R> + Neg<Output = R>,
>() -> bool {
    &&& R::obeys_add_spec()
    &&& R::obeys_sub_spec()
    &&& R::obeys_mul_spec()
    &&& R::obeys_div_spec()
    &&& R::obeys_neg_spec()
}

/// Whether `f` can be called on every argument.
pub open spec fn callable<A, B, F: Fn(A) -> B>(f: F) -> bool {
    forall|x: A| call_requires(f, (x,))
}

/// Whether `f` can return one value only for each argument.
pub open spec fn single_valued<A, B, F: Fn(A) -> B>(f: F) -> bool {
    forall|x: A, y1: B, y2: B|
        #[trigger] call_ensures(f, (x,), y1) && #[trigger] call_ensures(f, (x,), y2) ==> y1 == y2
}

/// What `f` returns for `x`.
pub open spec fn result_of<A, B, F: Fn(A) -> B>(f: F, x: A) -> B {
    choose|y: B| call_ensures(f, (x,), y)
}

/// The number pi and the functions of the real numbers that no operator
/// gives.
pub struct RealTools<R, C, S, M> {
    /// The number pi.
    pub pi: R,
    /// The real number equal to a count.
    pub from_count: C,
    /// The square root.
    pub sqrt: S,
    /// The absolute value.
    pub abs: M,
}

impl<R, C: Fn(usize) -> R, S: Fn(R) -> R, M: Fn(R) -> R> RealTools<R, C, S, M> {
    /// Whether each of the functions can be called on every argument.
    pub open spec fn usable(&self) -> bool {
        &&& callable(self.from_count)
        &&& callable(self.sqrt)
        &&& callable(self.abs)
    }

    /// Whether each of the functions can return one value only for each
    /// argument.
    pub open spec fn exact(&self) -> bool {
        &&& single_valued(self.from_count)
        &&& single_valued(self.sqrt)
        &&& single_valued(self.abs)
    }

    /// The real number equal to the count `n`.
    pub open spec fn spec_number(&self, n: usize) -> R {
        result_of(self.from_count, n)
    }

    /// The square root of `x`.
    pub open spec fn spec_square_root(&self, x: R) -> R {
        result_of(self.sqrt, x)
    }

    /// The absolute value of `x`.
    pub open spec fn spec_absolute(&self, x: R) -> R {
        result_of(self.abs, x)
    }

    /// The real number equal to the count `n`.
    #[verifier::when_used_as_spec(spec_number)]
    pub fn number(&self, n: usize) -> (r: R)
        requires
            self.usable(),
        ensures
            call_ensures(self.from_count, (n,), r),
            self.exact() ==> r == self.spec_number(n),
    {
        (self.from_count)(n)
    }

    /// The square root of `x`.
    #[verifier::when_used_as_spec(spec_square_root)]
    pub fn square_root(&self, x: R) -> (r: R)
        requires
            self.usable(),
        ensures
            call_ensures(self.sqrt, (x,), r),
            self.exact() ==> r == self.spec_square_root(x),
    {
        (self.sqrt)(x)
    }

    /// The absolute value of `x`.
    #[verifier::when_used_as_spec(spec_absolute)]
    pub fn absolute(&self, x: R) -> (r: R)
        requires
            self.usable(),
        ensures
            call_ensures(self.abs, (x,), r),
            self.exact() ==> r == self.spec_absolute(x),
    {
        (self.abs)(x)
    }
}

} // verus!
