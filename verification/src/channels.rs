//! Vectors that hold one value for each result channel.
//!
//! The squared matrix element of an event is split into five
//! contributions, the result channels. Their number and order are fixed.

use std::ops::{Add, Mul};
use vstd::prelude::*;
use vstd::std_specs::ops::{AddSpec, MulSpec};
use crate::numeric::{exact_add_mul, sqr, total_add_mul};

verus! {

/// Number of result channels.
pub const NUM_MAT_ELEMS: usize = 5;

/// Channel of the purely electromagnetic contribution.
pub const A: usize = 0;

/// Channel of the anomalous contribution in beta plus.
pub const B_P: usize = 1;

/// Channel of the anomalous contribution in beta minus.
pub const B_M: usize = 2;

/// Channel of the real part of the mixed contribution.
pub const R_MX: usize = 3;

/// Channel of the imaginary part of the mixed contribution.
pub const I_MX: usize = 4;

/// One value per result channel.
#[derive(Clone, Copy, Debug)]
pub struct FixedChannelVector<T> {
    pub values: [T; 5],
}

impl<T> View for FixedChannelVector<T> {
    type V = Seq<T>;

    open spec fn view(&self) -> Seq<T> {
        self.values@
    }
}

/// The channel by channel sums of `a` and `b`.
pub open spec fn sums<T: Add<Output = T>>(a: Seq<T>, b: Seq<T>) -> Seq<T> {
    Seq::new(5, |i: int| a[i].add_spec(b[i]))
}

/// The channel by channel squares of `a`.
pub open spec fn squares<T: Mul<Output = T>>(a: Seq<T>) -> Seq<T> {
    Seq::new(5, |i: int| a[i].mul_spec(a[i]))
}

/// The product of channel `i` of `a` and `w`.
pub open spec fn term<T: Mul<Output = T>>(a: Seq<T>, w: Seq<T>, i: int) -> T {
    a[i].mul_spec(w[i])
}

/// The sum of the products of the first `n` channels of `a` and `w`, for
/// `n` from one to five, taken from the first channel on.
pub open spec fn partial_dot<T: Add<Output = T> + Mul<Output = T>>(
    a: Seq<T>,
    w: Seq<T>,
    n: int,
) -> T
    decreases n,
{
    if n <= 1 {
        term(a, w, 0)
    } else {
        partial_dot(a, w, n - 1).add_spec(term(a, w, n - 1))
    }
}

/// The dot product of `a` and `w`: the sum over the channels of their
/// products.
pub open spec fn dot<T: Add<Output = T> + Mul<Output = T>>(a: Seq<T>, w: Seq<T>) -> T {
    partial_dot(a, w, 5)
}

/// Whether `a` and `b` can be added in every channel.
pub open spec fn can_sum<T: Add<Output = T>>(a: Seq<T>, b: Seq<T>) -> bool {
    &&& a[0].add_req(b[0])
    &&& a[1].add_req(b[1])
    &&& a[2].add_req(b[2])
    &&& a[3].add_req(b[3])
    &&& a[4].add_req(b[4])
}

/// Whether every channel of `a` can be squared.
pub open spec fn can_square<T: Mul<Output = T>>(a: Seq<T>) -> bool {
    &&& a[0].mul_req(a[0])
    &&& a[1].mul_req(a[1])
    &&& a[2].mul_req(a[2])
    &&& a[3].mul_req(a[3])
    &&& a[4].mul_req(a[4])
}

/// Whether every product and sum of the dot product of `a` and `w` is
/// defined.
pub open spec fn can_dot<T: Add<Output = T> + Mul<Output = T>>(a: Seq<T>, w: Seq<T>) -> bool {
    &&& a[0].mul_req(w[0])
    &&& a[1].mul_req(w[1])
    &&& a[2].mul_req(w[2])
    &&& a[3].mul_req(w[3])
    &&& a[4].mul_req(w[4])
    &&& partial_dot(a, w, 1).add_req(term(a, w, 1))
    &&& partial_dot(a, w, 2).add_req(term(a, w, 2))
    &&& partial_dot(a, w, 3).add_req(term(a, w, 3))
    &&& partial_dot(a, w, 4).add_req(term(a, w, 4))
}

impl<T: Copy> FixedChannelVector<T> {
    /// The vector of the given values.
    pub fn new(values: [T; 5]) -> (r: Self)
        ensures
            r@ == values@,
    {
        FixedChannelVector { values }
    }

    /// The vector that holds `value` in every channel.
    pub fn splat(value: T) -> (r: Self)
        ensures
            r@ == Seq::new(5, |i: int| value),
    {
        let r = FixedChannelVector { values: [value, value, value, value, value] };
        assert(r@ =~= Seq::new(5, |i: int| value));
        r
    }

    /// The value of a channel.
    pub fn get(&self, channel: usize) -> (r: T)
        requires
            channel < 5,
        ensures
            r == self@[channel as int],
    {
        self.values[channel]
    }

    /// Applies `f` to the value of every channel.
    pub fn map<F: Fn(T) -> T>(&self, f: &F) -> (r: Self)
        requires
            forall|i: int| 0 <= i < 5 ==> call_requires(*f, (#[trigger] self@[i],)),
        ensures
            forall|i: int| 0 <= i < 5 ==> call_ensures(*f, (self@[i],), #[trigger] r@[i]),
    {
        let v = &self.values;
        assert(call_requires(*f, (self@[0],)) && call_requires(*f, (self@[1],)) && call_requires(
            *f,
            (self@[2],),
        ) && call_requires(*f, (self@[3],)) && call_requires(*f, (self@[4],)));
        FixedChannelVector { values: [f(v[0]), f(v[1]), f(v[2]), f(v[3]), f(v[4])] }
    }

    /// Adds two vectors channel by channel.
    pub fn plus(&self, other: &Self) -> (r: Self) where T: Add<Output = T>
        requires
            can_sum(self@, other@),
        ensures
            T::obeys_add_spec() ==> r@ == sums(self@, other@),
    {
        let a = &self.values;
        let b = &other.values;
        let r = FixedChannelVector {
            values: [a[0] + b[0], a[1] + b[1], a[2] + b[2], a[3] + b[3], a[4] + b[4]],
        };
        assert(T::obeys_add_spec() ==> r@ =~= sums(self@, other@));
        r
    }

    /// Squares the value of every channel.
    pub fn squared(&self) -> (r: Self) where T: Mul<Output = T>
        requires
            can_square(self@),
        ensures
            T::obeys_mul_spec() ==> r@ == squares(self@),
    {
        let a = &self.values;
        let r = FixedChannelVector {
            values: [sqr(a[0]), sqr(a[1]), sqr(a[2]), sqr(a[3]), sqr(a[4])],
        };
        assert(T::obeys_mul_spec() ==> r@ =~= squares(self@));
        r
    }

    /// The dot product with a vector of weights.
    pub fn dot(&self, weights: &Self) -> (r: T) where T: Add<Output = T> + Mul<Output = T>
        requires
            total_add_mul::<T>() || (exact_add_mul::<T>() && can_dot(self@, weights@)),
        ensures
            exact_add_mul::<T>() ==> r == dot(self@, weights@),
    {
        let a = &self.values;
        let w = &weights.values;
        proof {
            reveal_with_fuel(partial_dot, 5);
        }
        let s1 = a[0] * w[0];
        let s2 = s1 + a[1] * w[1];
        let s3 = s2 + a[2] * w[2];
        let s4 = s3 + a[3] * w[3];
        s4 + a[4] * w[4]
    }
}

} // verus!
