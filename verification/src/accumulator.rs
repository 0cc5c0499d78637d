//! The running sums of a simulation.
//!
//! One contribution is integrated per simulated event. The accumulator
//! keeps the sum and the sum of squares of each result channel, and the sum
//! and the sum of squares of the weighted cross-section. Partial
//! accumulators can be merged. The sums are never reset.

use std::ops::{Add, Div, Mul, Neg, Sub};
use vstd::prelude::*;
use vstd::std_specs::ops::{AddSpec, DivSpec, MulSpec, NegSpec, SubSpec};
use crate::channels::{
    can_dot, can_square, can_sum, dot, partial_dot, squares, sums, term, FixedChannelVector,
};
use crate::config::Configuration;
use crate::numeric::{exact_add_mul, powi, powi_spec, sqr, total_add_mul};
use crate::reals::{exact_arithmetic, total_arithmetic, RealTools};

verus! {

/// Factors derived once from the configuration and the weight of an event.
#[derive(Clone, Copy, Debug)]
pub struct PhysicsCoefficients<T> {
    /// How much each result channel adds to the cross-section.
    pub channel_weights: FixedChannelVector<T>,
    /// Value of the Z propagator.
    pub propag: T,
    /// Dimensionless distance from the Z peak.
    pub ecart_pic: T,
    /// Combinatorial factor, with the conversion to pb.
    pub fact_com: T,
    /// Weight of an event, normalised over the phase space.
    pub norm_weight: T,
}

/// Number of particles that leave the collision.
pub const OUTGOING_COUNT: i32 = 3;

impl<R> PhysicsCoefficients<R> where
    R: Copy + Add<Output = R> + Sub<Output = R> + Mul<Output = R> + Div<Output = R> + Neg<
        Output = R,
    >,
 {
    /// The factors that follow from a configuration and the weight of an
    /// event.
    ///
    /// The combinatorial factor is a sixth of the conversion factor. The
    /// distance from the peak is `((E/M)^2 - 1) / (G/M)` and the propagator
    /// `1 / (1 + distance^2)`, for the total energy `E`, the mass `M` and
    /// the width `G` of the Z. The weight of an event is normalised by
    /// `(2 pi)^(4 - 3 n) / N` for `n` outgoing particles and `N` events.
    /// The sums over polarisations are `2`, `1 - 4 s` and `1 - 4 s + 8 s^2`
    /// for the square sine `s` of the Weinberg angle. From these and the
    /// anomalous couplings follow the weights of the five channels.
    pub open spec fn derived<C: Fn(usize) -> R, S: Fn(R) -> R, M: Fn(R) -> R>(
        cfg: &Configuration<R>,
        raw_event_weight: R,
        tools: &RealTools<R, C, S, M>,
    ) -> Self {
        let one = tools.number(1);
        let two = tools.number(2);
        let four = tools.number(4);
        let fact_com = one.div_spec(tools.number(6)).mul_spec(cfg.gev2_to_picobarn);
        let gzr = cfg.g_z0.div_spec(cfg.m_z0);
        let sin2 = cfg.sin2_weinberg;
        let p_aa = two;
        let p_ab = one.sub_spec(four.mul_spec(sin2));
        let p_bb = p_ab.add_spec(tools.number(8).mul_spec(sin2.mul_spec(sin2)));
        let c_aa = fact_com.mul_spec(p_aa);
        let c_ab = fact_com.mul_spec(p_ab).div_spec(cfg.m_z0.mul_spec(cfg.m_z0));
        let c_bb = fact_com.mul_spec(p_bb).div_spec(powi_spec(cfg.m_z0, 4, one));
        let ratio = cfg.e_total.div_spec(cfg.m_z0);
        let ecart_pic = ratio.mul_spec(ratio).sub_spec(one).div_spec(gzr);
        let propag = one.div_spec(one.add_spec(ecart_pic.mul_spec(ecart_pic)));
        let norm = powi_spec(two.mul_spec(tools.pi), 4 - 3 * OUTGOING_COUNT, one).div_spec(
            tools.number(cfg.num_events),
        );
        let norm_weight = raw_event_weight.mul_spec(norm);
        let com = norm_weight.div_spec(four);
        let bb = com.mul_spec(c_bb).mul_spec(propag).div_spec(gzr.mul_spec(gzr));
        let ab = com.mul_spec(c_ab).mul_spec(two).mul_spec(cfg.beta_plus).mul_spec(propag).div_spec(
            gzr,
        );
        PhysicsCoefficients {
            channel_weights: FixedChannelVector {
                values: [
                    com.mul_spec(c_aa),
                    bb.mul_spec(cfg.beta_plus.mul_spec(cfg.beta_plus)),
                    bb.mul_spec(cfg.beta_minus.mul_spec(cfg.beta_minus)),
                    ab.mul_spec(ecart_pic),
                    ab.neg_spec(),
                ],
            },
            propag,
            ecart_pic,
            fact_com,
            norm_weight,
        }
    }

    /// Derives the factors from a configuration and the weight of an event.
    pub fn new<C: Fn(usize) -> R, S: Fn(R) -> R, M: Fn(R) -> R>(
        cfg: &Configuration<R>,
        raw_event_weight: R,
        tools: &RealTools<R, C, S, M>,
    ) -> (r: Self)
        requires
            total_arithmetic::<R>(),
            tools.usable(),
        ensures
            exact_arithmetic::<R>() && tools.exact() ==> r == Self::derived(
                cfg,
                raw_event_weight,
                tools,
            ),
    {
        let one = tools.number(1);
        let two = tools.number(2);
        let four = tools.number(4);
        let fact_com = one / tools.number(6) * cfg.gev2_to_picobarn;
        let gzr = cfg.g_z0 / cfg.m_z0;
        let sin2 = cfg.sin2_weinberg;
        let p_aa = two;
        let p_ab = one - four * sin2;
        let p_bb = p_ab + tools.number(8) * sqr(sin2);
        let c_aa = fact_com * p_aa;
        let c_ab = fact_com * p_ab / sqr(cfg.m_z0);
        let c_bb = fact_com * p_bb / powi(cfg.m_z0, 4, one);
        let ecart_pic = (sqr(cfg.e_total / cfg.m_z0) - one) / gzr;
        let propag = one / (one + sqr(ecart_pic));
        let norm = powi(two * tools.pi, 4 - 3 * OUTGOING_COUNT, one) / tools.number(cfg.num_events);
        let norm_weight = raw_event_weight * norm;
        let com = norm_weight / four;
        let bb = com * c_bb * propag / sqr(gzr);
        let ab = com * c_ab * two * cfg.beta_plus * propag / gzr;
        let r = PhysicsCoefficients {
            channel_weights: FixedChannelVector::new(
                [
                    com * c_aa,
                    bb * sqr(cfg.beta_plus),
                    bb * sqr(cfg.beta_minus),
                    ab * ecart_pic,
                    ab.neg(),
                ],
            ),
            propag,
            ecart_pic,
            fact_com,
            norm_weight,
        };
        proof {
            if exact_arithmetic::<R>() && tools.exact() {
                let d = Self::derived(cfg, raw_event_weight, tools);
                assert(r.channel_weights.values =~= d.channel_weights.values);
            }
        }
        r
    }
}

/// The state of an accumulator, as mathematics sees it.
pub struct RunningSums<T> {
    /// Number of contributions integrated so far.
    pub events: nat,
    /// Sum of the contributions, per channel.
    pub sum: Seq<T>,
    /// Sum of the squared contributions, per channel.
    pub sum_sq: Seq<T>,
    /// Sum of the weighted cross-sections.
    pub sigma_sum: T,
    /// Sum of the squared weighted cross-sections.
    pub sigma_sum_sq: T,
    /// The factors that the accumulator was made with.
    pub coefficients: PhysicsCoefficients<T>,
}

impl<T: Add<Output = T> + Mul<Output = T>> RunningSums<T> {
    /// The state before any contribution, every sum being `zero`.
    pub open spec fn fresh(coefficients: PhysicsCoefficients<T>, zero: T) -> Self {
        RunningSums {
            events: 0,
            sum: Seq::new(5, |i: int| zero),
            sum_sq: Seq::new(5, |i: int| zero),
            sigma_sum: zero,
            sigma_sum_sq: zero,
            coefficients,
        }
    }

    /// Whether the state holds one sum per channel.
    pub open spec fn well_formed(self) -> bool {
        self.sum.len() == 5 && self.sum_sq.len() == 5
    }

    /// The weighted cross-section of a contribution: its dot product with
    /// the channel weights.
    pub open spec fn weight(self, c: Seq<T>) -> T {
        dot(c, self.coefficients.channel_weights@)
    }

    /// The state after one more contribution `c`.
    pub open spec fn integrated(self, c: Seq<T>) -> Self {
        RunningSums {
            events: self.events + 1,
            sum: sums(self.sum, c),
            sum_sq: sums(self.sum_sq, squares(c)),
            sigma_sum: self.sigma_sum.add_spec(self.weight(c)),
            sigma_sum_sq: self.sigma_sum_sq.add_spec(self.weight(c).mul_spec(self.weight(c))),
            coefficients: self.coefficients,
        }
    }

    /// Whether every sum and product taken to integrate `c` is defined.
    pub open spec fn can_integrate(self, c: Seq<T>) -> bool {
        &&& can_sum(self.sum, c)
        &&& can_square(c)
        &&& can_sum(self.sum_sq, squares(c))
        &&& can_dot(c, self.coefficients.channel_weights@)
        &&& self.sigma_sum.add_req(self.weight(c))
        &&& self.weight(c).mul_req(self.weight(c))
        &&& self.sigma_sum_sq.add_req(self.weight(c).mul_spec(self.weight(c)))
    }

    /// The state after the contributions `cs`, integrated in order.
    pub open spec fn integrated_all(self, cs: Seq<Seq<T>>) -> Self
        decreases cs.len(),
    {
        if cs.len() == 0 {
            self
        } else {
            self.integrated_all(cs.drop_last()).integrated(cs.last())
        }
    }

    /// The state that holds the events of two partial states: the sum of
    /// their counts and of each of their sums.
    pub open spec fn merged(self, other: Self) -> Self {
        RunningSums {
            events: self.events + other.events,
            sum: sums(self.sum, other.sum),
            sum_sq: sums(self.sum_sq, other.sum_sq),
            sigma_sum: self.sigma_sum.add_spec(other.sigma_sum),
            sigma_sum_sq: self.sigma_sum_sq.add_spec(other.sigma_sum_sq),
            coefficients: self.coefficients,
        }
    }

    /// Whether every sum taken to merge two states is defined.
    pub open spec fn can_merge(self, other: Self) -> bool {
        &&& can_sum(self.sum, other.sum)
        &&& can_sum(self.sum_sq, other.sum_sq)
        &&& self.sigma_sum.add_req(other.sigma_sum)
        &&& self.sigma_sum_sq.add_req(other.sigma_sum_sq)
    }
}

/// Accumulates the contributions of the simulated events.
pub struct ResultAccumulator<T> {
    events_integrated: usize,
    sum: FixedChannelVector<T>,
    sum_sq: FixedChannelVector<T>,
    sigma_sum: T,
    sigma_sum_sq: T,
    coefficients: PhysicsCoefficients<T>,
}

impl<T> View for ResultAccumulator<T> {
    type V = RunningSums<T>;

    closed spec fn view(&self) -> RunningSums<T> {
        RunningSums {
            events: self.events_integrated as nat,
            sum: self.sum@,
            sum_sq: self.sum_sq@,
            sigma_sum: self.sigma_sum,
            sigma_sum_sq: self.sigma_sum_sq,
            coefficients: self.coefficients,
        }
    }
}

impl<R> ResultAccumulator<R> where
    R: Copy + Add<Output = R> + Sub<Output = R> + Mul<Output = R> + Div<Output = R> + Neg<
        Output = R,
    >,
 {
    /// An accumulator that has seen no event, with the factors that follow
    /// from a configuration and the weight of an event.
    pub fn new<C: Fn(usize) -> R, S: Fn(R) -> R, M: Fn(R) -> R>(
        cfg: &Configuration<R>,
        raw_event_weight: R,
        tools: &RealTools<R, C, S, M>,
    ) -> (r: Self)
        requires
            total_arithmetic::<R>(),
            tools.usable(),
        ensures
            r@.events == 0,
            r@.well_formed(),
            exact_arithmetic::<R>() && tools.exact() ==> r@ == RunningSums::fresh(
                PhysicsCoefficients::derived(cfg, raw_event_weight, tools),
                tools.number(0),
            ),
    {
        let coefficients = PhysicsCoefficients::new(cfg, raw_event_weight, tools);
        ResultAccumulator::with_coefficients(coefficients, tools.number(0))
    }
}

impl<T: Copy + Add<Output = T> + Mul<Output = T>> ResultAccumulator<T> {
    /// An accumulator that has seen no event, with the given factors. Its
    /// sums start at `zero`.
    pub fn with_coefficients(coefficients: PhysicsCoefficients<T>, zero: T) -> (r: Self)
        ensures
            r@ == RunningSums::fresh(coefficients, zero),
    {
        ResultAccumulator {
            events_integrated: 0,
            sum: FixedChannelVector::splat(zero),
            sum_sq: FixedChannelVector::splat(zero),
            sigma_sum: zero,
            sigma_sum_sq: zero,
            coefficients,
        }
    }

    /// Integrates the contribution of one event: counts it, adds it to the
    /// sums and its square to the sums of squares, and does the same with
    /// its weighted cross-section.
    pub fn integrate(&mut self, contribution: FixedChannelVector<T>)
        requires
            old(self)@.events < usize::MAX,
            total_add_mul::<T>() || (exact_add_mul::<T>() && old(self)@.can_integrate(
                contribution@,
            )),
        ensures
            final(self)@.events == old(self)@.events + 1,
            final(self)@.coefficients == old(self)@.coefficients,
            final(self)@.well_formed(),
            exact_add_mul::<T>() ==> final(self)@ == old(self)@.integrated(contribution@),
    {
        let sum = self.sum.plus(&contribution);
        let squared = contribution.squared();
        let sum_sq = self.sum_sq.plus(&squared);
        let weight = contribution.dot(&self.coefficients.channel_weights);
        let sigma_sum = self.sigma_sum + weight;
        let sigma_sum_sq = self.sigma_sum_sq + weight * weight;
        self.events_integrated = self.events_integrated + 1;
        self.sum = sum;
        self.sum_sq = sum_sq;
        self.sigma_sum = sigma_sum;
        self.sigma_sum_sq = sigma_sum_sq;
    }

    /// Merges two partial accumulators into one that holds the events of
    /// both. Both are meant to stem from the same coefficients; those of
    /// `self` are kept.
    pub fn merge(self, other: Self) -> (r: Self)
        requires
            self@.events + other@.events <= usize::MAX,
            self@.can_merge(other@),
        ensures
            r@.events == self@.events + other@.events,
            r@.coefficients == self@.coefficients,
            r@.well_formed(),
            T::obeys_add_spec() ==> r@ == self@.merged(other@),
    {
        ResultAccumulator {
            events_integrated: self.events_integrated + other.events_integrated,
            sum: self.sum.plus(&other.sum),
            sum_sq: self.sum_sq.plus(&other.sum_sq),
            sigma_sum: self.sigma_sum + other.sigma_sum,
            sigma_sum_sq: self.sigma_sum_sq + other.sigma_sum_sq,
            coefficients: self.coefficients,
        }
    }

    /// Number of events integrated so far.
    pub fn events_integrated(&self) -> (r: usize)
        ensures
            r == self@.events,
    {
        self.events_integrated
    }

    /// Sum of the contributions, per channel.
    pub fn sum(&self) -> (r: FixedChannelVector<T>)
        ensures
            r@ == self@.sum,
    {
        self.sum
    }

    /// Sum of the squared contributions, per channel.
    pub fn sum_sq(&self) -> (r: FixedChannelVector<T>)
        ensures
            r@ == self@.sum_sq,
    {
        self.sum_sq
    }

    /// Sum of the weighted cross-sections of the events.
    pub fn sigma_sum(&self) -> (r: T)
        ensures
            r == self@.sigma_sum,
    {
        self.sigma_sum
    }

    /// Sum of the squared weighted cross-sections of the events.
    pub fn sigma_sum_sq(&self) -> (r: T)
        ensures
            r == self@.sigma_sum_sq,
    {
        self.sigma_sum_sq
    }

    /// The factors that the accumulator was made with.
    pub fn coefficients(&self) -> (r: PhysicsCoefficients<T>)
        ensures
            r == self@.coefficients,
    {
        self.coefficients
    }
}

/// Whether the addition of `T` is that of exact arithmetic: it is
/// associative, and adding `zero` changes nothing.
pub open spec fn adds_exactly<T: Add<Output = T>>(zero: T) -> bool {
    &&& forall|a: T, b: T, c: T| #[trigger] a.add_spec(b).add_spec(c) == a.add_spec(b.add_spec(c))
    &&& forall|a: T| #[trigger] a.add_spec(zero) == a
}

/// The contribution whose every channel is `zero`.
pub open spec fn null_contribution<T>(zero: T) -> Seq<T> {
    Seq::new(5, |i: int| zero)
}

/// The number of events integrated is exactly the number of contributions
/// integrated: each one counts once, whatever it holds. The coefficients
/// stay as they were.
pub proof fn lemma_events_count<T: Add<Output = T> + Mul<Output = T>>(
    start: RunningSums<T>,
    cs: Seq<Seq<T>>,
)
    ensures
        start.integrated_all(cs).events == start.events + cs.len(),
        start.integrated_all(cs).coefficients == start.coefficients,
        cs.len() > 0 || start.well_formed() ==> start.integrated_all(cs).well_formed(),
    decreases cs.len(),
{
    if cs.len() > 0 {
        lemma_events_count(start, cs.drop_last());
    }
}

/// Merging a state with one that integrated a further contribution is the
/// same as merging first and integrating the contribution then, where
/// addition is associative and both states weigh contributions alike.
pub proof fn lemma_merge_then_integrate<T: Add<Output = T> + Mul<Output = T>>(
    a: RunningSums<T>,
    b: RunningSums<T>,
    c: Seq<T>,
    zero: T,
)
    requires
        adds_exactly(zero),
        a.coefficients == b.coefficients,
    ensures
        a.merged(b.integrated(c)) == a.merged(b).integrated(c),
{
    let x = a.merged(b.integrated(c));
    let y = a.merged(b).integrated(c);
    assert(x.sum =~= y.sum);
    assert(x.sum_sq =~= y.sum_sq);
}

/// Additivity. Two accumulators are made from the same coefficients, one
/// integrates the contributions `first`, the other the contributions
/// `second`. Merging them gives the state of a single accumulator that
/// integrated `first` and then `second`, where addition is associative and
/// starts from a `zero` that changes nothing. (Floating-point addition is
/// not associative: there the two states agree up to rounding only.)
pub proof fn lemma_merge_is_sequential<T: Add<Output = T> + Mul<Output = T>>(
    coefficients: PhysicsCoefficients<T>,
    zero: T,
    first: Seq<Seq<T>>,
    second: Seq<Seq<T>>,
)
    requires
        adds_exactly(zero),
    ensures
        RunningSums::fresh(coefficients, zero).integrated_all(first).merged(
            RunningSums::fresh(coefficients, zero).integrated_all(second),
        ) == RunningSums::fresh(coefficients, zero).integrated_all(first + second),
    decreases second.len(),
{
    let start = RunningSums::fresh(coefficients, zero);
    let a = start.integrated_all(first);
    lemma_events_count(start, first);
    if second.len() == 0 {
        assert(first + second =~= first);
        let m = a.merged(start);
        assert(m.sum =~= a.sum);
        assert(m.sum_sq =~= a.sum_sq);
    } else {
        let head = second.drop_last();
        lemma_merge_is_sequential(coefficients, zero, first, head);
        lemma_events_count(start, head);
        lemma_merge_then_integrate(a, start.integrated_all(head), second.last(), zero);
        assert((first + second).drop_last() =~= first + head);
    }
}

/// Integrating contributions that are zero in every channel leaves every
/// sum at zero, however many of them there are, where zero times a weight
/// is zero and zero plus zero is zero.
pub proof fn lemma_zero_contributions<T: Add<Output = T> + Mul<Output = T>>(
    coefficients: PhysicsCoefficients<T>,
    zero: T,
    n: nat,
)
    requires
        zero.add_spec(zero) == zero,
        zero.mul_spec(zero) == zero,
        forall|i: int| 0 <= i < 5 ==> zero.mul_spec(#[trigger] coefficients.channel_weights@[i]) == zero,
    ensures
        RunningSums::fresh(coefficients, zero).integrated_all(
            Seq::new(n, |k: int| null_contribution(zero)),
        ) == (RunningSums { events: n, ..RunningSums::fresh(coefficients, zero) }),
    decreases n,
{
    let start = RunningSums::fresh(coefficients, zero);
    let cs = Seq::new(n, |k: int| null_contribution(zero));
    if n > 0 {
        let head = Seq::new((n - 1) as nat, |k: int| null_contribution(zero));
        assert(cs.drop_last() =~= head);
        lemma_zero_contributions(coefficients, zero, (n - 1) as nat);
        let before = start.integrated_all(head);
        let c = null_contribution(zero);
        let w = coefficients.channel_weights@;
        assert(cs.last() == c);
        reveal_with_fuel(partial_dot, 5);
        assert(term(c, w, 0) == zero && term(c, w, 1) == zero && term(c, w, 2) == zero && term(
            c,
            w,
            3,
        ) == zero && term(c, w, 4) == zero);
        assert(before.weight(c) == zero);
        let after = before.integrated(c);
        assert(after.sum =~= start.sum);
        assert(after.sum_sq =~= start.sum_sq);
    }
}

} // verus!
