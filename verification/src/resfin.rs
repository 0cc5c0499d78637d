//! The final results of a simulation: the cross-section, its variance and
//! what is derived from them.

use std::ops::{Add, Div, Mul, Neg, Sub};
use vstd::prelude::*;
use vstd::std_specs::ops::{AddSpec, DivSpec, MulSpec, NegSpec, SubSpec};
use crate::accumulator::{PhysicsCoefficients, ResultAccumulator, RunningSums};
use crate::channels::{FixedChannelVector, A, B_M, B_P, I_MX, R_MX};
use crate::config::Configuration;
use crate::numeric::sqr;
use crate::reals::{exact_arithmetic, total_arithmetic, RealTools};

verus! {

/// Number of spin states.
pub const NUM_SPINS: usize = 2;

/// Index of the data for negative spin.
pub const SP_M: usize = 0;

/// Index of the data for positive spin.
pub const SP_P: usize = 1;

/// Result contributions per spin: one vector of channels for each spin.
pub type PerSpinMEs<R> = [FixedChannelVector<R>; 2];

/// Final results of the simulation.
pub struct FinalResults<'cfg, R> {
    /// Number of integrated events.
    pub selected_events: usize,
    /// Cross-section for each spin and channel.
    pub spm2: PerSpinMEs<R>,
    /// Relative uncertainty for each spin and channel.
    pub vars: PerSpinMEs<R>,
    /// Total cross-section.
    pub sigma: R,
    /// Relative precision.
    pub prec: R,
    /// Total variance.
    pub variance: R,
    /// Beta minimum.
    pub beta_min: R,
    /// Statistical significance B+ (pb-1/2).
    pub ss_p: R,
    /// Uncertainty of `ss_p`.
    pub inc_ss_p: R,
    /// Statistical significance B- (pb-1/2).
    pub ss_m: R,
    /// Uncertainty of `ss_m`.
    pub inc_ss_m: R,
    /// Configuration of the simulation.
    pub cfg: &'cfg Configuration<R>,
}

impl<'cfg, R: Copy> FinalResults<'cfg, R> {
    /// The cross-section of a channel for a spin.
    pub fn value(&self, spin: usize, channel: usize) -> (r: R)
        requires
            spin < 2,
            channel < 5,
        ensures
            r == self.spm2@[spin as int]@[channel as int],
    {
        self.spm2[spin].get(channel)
    }

    /// The relative uncertainty of a channel for a spin.
    pub fn uncertainty(&self, spin: usize, channel: usize) -> (r: R)
        requires
            spin < 2,
            channel < 5,
        ensures
            r == self.vars@[spin as int]@[channel as int],
    {
        self.vars[spin].get(channel)
    }

    /// The cross-section of a channel summed over the spins, the negative
    /// spin first.
    pub fn spin_sum(&self, channel: usize) -> (r: R) where R: Add<Output = R>
        requires
            channel < 5,
            self.spm2@[0]@[channel as int].add_req(self.spm2@[1]@[channel as int]),
        ensures
            R::obeys_add_spec() ==> r == self.spm2@[0]@[channel as int].add_spec(
                self.spm2@[1]@[channel as int],
            ),
    {
        self.spm2[SP_M].get(channel) + self.spm2[SP_P].get(channel)
    }
}

/// The observables of a simulation, as mathematics sees them.
pub struct Observables<R> {
    /// Number of integrated events.
    pub selected_events: nat,
    /// Cross-section for each spin and channel.
    pub spm2: Seq<Seq<R>>,
    /// Relative uncertainty for each spin and channel.
    pub vars: Seq<Seq<R>>,
    /// Total cross-section.
    pub sigma: R,
    /// Relative precision.
    pub prec: R,
    /// Total variance.
    pub variance: R,
    /// Beta minimum.
    pub beta_min: R,
    /// Statistical significance B+.
    pub ss_p: R,
    /// Uncertainty of `ss_p`.
    pub inc_ss_p: R,
    /// Statistical significance B-.
    pub ss_m: R,
    /// Uncertainty of `ss_m`.
    pub inc_ss_m: R,
}

impl<'cfg, R> View for FinalResults<'cfg, R> {
    type V = Observables<R>;

    open spec fn view(&self) -> Observables<R> {
        Observables {
            selected_events: self.selected_events as nat,
            spm2: seq![self.spm2@[0]@, self.spm2@[1]@],
            vars: seq![self.vars@[0]@, self.vars@[1]@],
            sigma: self.sigma,
            prec: self.prec,
            variance: self.variance,
            beta_min: self.beta_min,
            ss_p: self.ss_p,
            inc_ss_p: self.inc_ss_p,
            ss_m: self.ss_m,
            inc_ss_m: self.inc_ss_m,
        }
    }
}

/// The variance of `n` samples with sum `sum` and sum of squares `sum_sq`,
/// by the two-pass formula `(sum_sq - sum^2 / n) / (n - 1)`.
pub open spec fn variance_of<R: Copy + Add<Output = R> + Sub<Output = R> + Mul<Output = R> + Div<Output = R> + Neg<Output = R>>(sum: R, sum_sq: R, n: R, one: R) -> R {
    sum_sq.sub_spec(sum.mul_spec(sum).div_spec(n)).div_spec(n.sub_spec(one))
}

/// The relative uncertainty of the mean of `n` samples with sum `sum` and
/// variance `variance`: `sqrt(variance / n) / |sum / n|`.
pub open spec fn relative_uncertainty<R: Copy + Add<Output = R> + Sub<Output = R> + Mul<Output = R> + Div<Output = R> + Neg<Output = R>, C: Fn(usize) -> R, S: Fn(R) -> R, M: Fn(R) -> R>(
    variance: R,
    sum: R,
    n: R,
    tools: &RealTools<R, C, S, M>,
) -> R {
    tools.square_root(variance.div_spec(n)).div_spec(tools.absolute(sum.div_spec(n)))
}

/// The relative uncertainty of each channel of the sums `sum`, given the
/// sums of squares `sum_sq` of `n` samples.
pub open spec fn channel_uncertainties<R: Copy + Add<Output = R> + Sub<Output = R> + Mul<Output = R> + Div<Output = R> + Neg<Output = R>, C: Fn(usize) -> R, S: Fn(R) -> R, M: Fn(R) -> R>(
    sum: Seq<R>,
    sum_sq: Seq<R>,
    n: R,
    tools: &RealTools<R, C, S, M>,
) -> Seq<R> {
    Seq::new(
        5,
        |i: int|
            relative_uncertainty(variance_of(sum[i], sum_sq[i], n, tools.number(1)), sum[i], n, tools),
    )
}

/// The cross-sections of one spin. Each channel of the sums is multiplied
/// by the polarisation factor `pol` of the spin (squared for the channels
/// in beta plus and beta minus, plain for the mixed channels, absent for
/// the first channel), then by the factor `common`, then by its own
/// scaling: the propagator over `gm^2` for the channels in beta, the
/// propagator times the distance from the peak over `gm` for the real mixed
/// channel, the propagator over `gm` for the imaginary one.
pub open spec fn spin_cross_sections<R: Copy + Add<Output = R> + Sub<Output = R> + Mul<Output = R> + Div<Output = R> + Neg<Output = R>>(
    sum: Seq<R>,
    pol: R,
    common: R,
    k: PhysicsCoefficients<R>,
    gm: R,
) -> Seq<R> {
    let pol2 = pol.mul_spec(pol);
    let bb = k.propag.div_spec(gm.mul_spec(gm));
    let rx = k.propag.mul_spec(k.ecart_pic).div_spec(gm);
    let ix = k.propag.div_spec(gm);
    seq![
        sum[0].mul_spec(common),
        sum[1].mul_spec(pol2).mul_spec(common).mul_spec(bb),
        sum[2].mul_spec(pol2).mul_spec(common).mul_spec(bb),
        sum[3].mul_spec(pol).mul_spec(common).mul_spec(rx),
        sum[4].mul_spec(pol).mul_spec(common).mul_spec(ix),
    ]
}

/// The absolute uncertainty of the sum of two values `a` and `b` with the
/// relative uncertainties `va` and `vb`: `sqrt((a va)^2 + (b vb)^2)`.
pub open spec fn quadrature<R: Copy + Add<Output = R> + Sub<Output = R> + Mul<Output = R> + Div<Output = R> + Neg<Output = R>, C: Fn(usize) -> R, S: Fn(R) -> R, M: Fn(R) -> R>(
    a: R,
    va: R,
    b: R,
    vb: R,
    tools: &RealTools<R, C, S, M>,
) -> R {
    let x = a.mul_spec(va);
    let y = b.mul_spec(vb);
    tools.square_root(x.mul_spec(x).add_spec(y.mul_spec(y)))
}

/// The flux factor `1 / (2 E^2)` of two massless incoming particles, for
/// the total energy `E`.
pub open spec fn flux_factor<R: Copy + Add<Output = R> + Sub<Output = R> + Mul<Output = R> + Div<Output = R> + Neg<Output = R>, C: Fn(usize) -> R, S: Fn(R) -> R, M: Fn(R) -> R>(
    cfg: &Configuration<R>,
    tools: &RealTools<R, C, S, M>,
) -> R {
    tools.number(1).div_spec(tools.number(2).mul_spec(cfg.e_total.mul_spec(cfg.e_total)))
}

/// The observables that follow from the running sums of a simulation.
///
/// The relative uncertainty of each channel comes from the two-pass
/// variance of its sums and holds for both spins. The polarisation factors
/// are `1 - 2 s` for the negative and `-2 s` for the positive spin, `s`
/// being the square sine of the Weinberg angle. All cross-sections carry
/// the flux factor `1 / (2 E^2)`, the combinatorial factor and the weight
/// of an event. Beta minimum is the square root of the first channel over
/// the channel in beta plus, both summed over the spins; the significances
/// are the channels in beta summed over the spins, over twice the square
/// root of the first channel summed over the spins.
pub open spec fn derive<R: Copy + Add<Output = R> + Sub<Output = R> + Mul<Output = R> + Div<Output = R> + Neg<Output = R>, C: Fn(usize) -> R, S: Fn(R) -> R, M: Fn(R) -> R>(
    sums: RunningSums<R>,
    cfg: &Configuration<R>,
    tools: &RealTools<R, C, S, M>,
) -> Observables<R> {
    let one = tools.number(1);
    let two = tools.number(2);
    let n = tools.number(sums.events as usize);
    let k = sums.coefficients;
    let u = channel_uncertainties(sums.sum, sums.sum_sq, n, tools);
    let pol_p = two.neg_spec().mul_spec(cfg.sin2_weinberg);
    let pol_m = one.add_spec(pol_p);
    let flux = flux_factor(cfg, tools);
    let common = k.fact_com.mul_spec(flux).mul_spec(k.norm_weight);
    let gm = cfg.g_z0.mul_spec(cfg.m_z0);
    let minus = spin_cross_sections(sums.sum, pol_m, common, k, gm);
    let plus = spin_cross_sections(sums.sum, pol_p, common, k, gm);
    let a = minus[0].add_spec(plus[0]);
    let bp = minus[1].add_spec(plus[1]);
    let bm = minus[2].add_spec(plus[2]);
    let denom = two.mul_spec(tools.square_root(a));
    let inc_common = quadrature(minus[0], u[0], plus[0], u[0], tools).div_spec(
        two.mul_spec(tools.absolute(a)),
    );
    let variance = variance_of(sums.sigma_sum, sums.sigma_sum_sq, n, one);
    Observables {
        selected_events: sums.events,
        spm2: seq![minus, plus],
        vars: seq![u, u],
        sigma: sums.sigma_sum.mul_spec(flux),
        prec: relative_uncertainty(variance, sums.sigma_sum, n, tools),
        variance,
        beta_min: tools.square_root(a.div_spec(bp)),
        ss_p: bp.div_spec(denom),
        inc_ss_p: quadrature(minus[1], u[1], plus[1], u[1], tools).div_spec(
            tools.absolute(bp),
        ).add_spec(inc_common),
        ss_m: bm.div_spec(denom),
        inc_ss_m: quadrature(minus[2], u[2], plus[2], u[2], tools).div_spec(
            tools.absolute(bm),
        ).add_spec(inc_common),
    }
}

/// Computes the two-pass variance.
pub fn two_pass_variance<R>(sum: R, sum_sq: R, n: R, one: R) -> (r: R) where R: Copy + Add<Output = R> + Sub<Output = R> + Mul<Output = R> + Div<Output = R> + Neg<Output = R>,
    requires
        total_arithmetic::<R>(),
    ensures
        exact_arithmetic::<R>() ==> r == variance_of(sum, sum_sq, n, one),
{
    (sum_sq - sqr(sum) / n) / (n - one)
}

/// Computes the relative uncertainty of a mean.
pub fn relative_precision<R, C: Fn(usize) -> R, S: Fn(R) -> R, M: Fn(R) -> R>(
    variance: R,
    sum: R,
    n: R,
    tools: &RealTools<R, C, S, M>,
) -> (r: R) where R: Copy + Add<Output = R> + Sub<Output = R> + Mul<Output = R> + Div<Output = R> + Neg<Output = R>,
    requires
        total_arithmetic::<R>(),
        tools.usable(),
    ensures
        exact_arithmetic::<R>() && tools.exact() ==> r == relative_uncertainty(
            variance,
            sum,
            n,
            tools,
        ),
{
    tools.square_root(variance / n) / tools.absolute(sum / n)
}

fn uncertainty_of<R, C: Fn(usize) -> R, S: Fn(R) -> R, M: Fn(R) -> R>(sum: R, sum_sq: R, n: R, tools: &RealTools<R, C, S, M>) -> (r: R) where
    R: Copy + Add<Output = R> + Sub<Output = R> + Mul<Output = R> + Div<Output = R> + Neg<Output = R>,

    requires
        total_arithmetic::<R>(),
        tools.usable(),
    ensures
        exact_arithmetic::<R>() && tools.exact() ==> r == relative_uncertainty(
            variance_of(sum, sum_sq, n, tools.number(1)),
            sum,
            n,
            tools,
        ),
{
    let variance = two_pass_variance(sum, sum_sq, n, tools.number(1));
    relative_precision(variance, sum, n, tools)
}

fn cross_sections_of<R>(
    sum: &FixedChannelVector<R>,
    pol: R,
    common: R,
    k: &PhysicsCoefficients<R>,
    gm: R,
) -> (r: FixedChannelVector<R>) where R: Copy + Add<Output = R> + Sub<Output = R> + Mul<Output = R> + Div<Output = R> + Neg<Output = R>,
    requires
        total_arithmetic::<R>(),
    ensures
        exact_arithmetic::<R>() ==> r@ == spin_cross_sections(sum@, pol, common, *k, gm),
{
    let pol2 = sqr(pol);
    let bb = k.propag / sqr(gm);
    let rx = k.propag * k.ecart_pic / gm;
    let ix = k.propag / gm;
    let r = FixedChannelVector::new(
        [
            sum.get(A) * common,
            sum.get(B_P) * pol2 * common * bb,
            sum.get(B_M) * pol2 * common * bb,
            sum.get(R_MX) * pol * common * rx,
            sum.get(I_MX) * pol * common * ix,
        ],
    );
    assert(exact_arithmetic::<R>() ==> r@ =~= spin_cross_sections(sum@, pol, common, *k, gm));
    r
}

fn quadrature_of<R, C: Fn(usize) -> R, S: Fn(R) -> R, M: Fn(R) -> R>(a: R, va: R, b: R, vb: R, tools: &RealTools<R, C, S, M>) -> (r: R) where
    R: Copy + Add<Output = R> + Sub<Output = R> + Mul<Output = R> + Div<Output = R> + Neg<Output = R>,

    requires
        total_arithmetic::<R>(),
        tools.usable(),
    ensures
        exact_arithmetic::<R>() && tools.exact() ==> r == quadrature(a, va, b, vb, tools),
{
    tools.square_root(sqr(a * va) + sqr(b * vb))
}

/// Derives the final results from an accumulator, which is used up.
pub fn finalize<'cfg, R, C: Fn(usize) -> R, S: Fn(R) -> R, M: Fn(R) -> R>(
    accumulator: ResultAccumulator<R>,
    cfg: &'cfg Configuration<R>,
    tools: &RealTools<R, C, S, M>,
) -> (r: FinalResults<'cfg, R>) where R: Copy + Add<Output = R> + Sub<Output = R> + Mul<Output = R> + Div<Output = R> + Neg<Output = R>,
    requires
        total_arithmetic::<R>(),
        tools.usable(),
    ensures
        r.selected_events == accumulator@.events,
        r.cfg == cfg,
        exact_arithmetic::<R>() && tools.exact() ==> r@ == derive(accumulator@, cfg, tools),
{
    let one = tools.number(1);
    let two = tools.number(2);
    let events = accumulator.events_integrated();
    let n = tools.number(events);
    let k = accumulator.coefficients();
    let sum = accumulator.sum();
    let sum_sq = accumulator.sum_sq();
    let sigma_sum = accumulator.sigma_sum();
    let sigma_sum_sq = accumulator.sigma_sum_sq();
    let u = FixedChannelVector::new(
        [
            uncertainty_of(sum.get(A), sum_sq.get(A), n, tools),
            uncertainty_of(sum.get(B_P), sum_sq.get(B_P), n, tools),
            uncertainty_of(sum.get(B_M), sum_sq.get(B_M), n, tools),
            uncertainty_of(sum.get(R_MX), sum_sq.get(R_MX), n, tools),
            uncertainty_of(sum.get(I_MX), sum_sq.get(I_MX), n, tools),
        ],
    );
    let pol_p = two.neg() * cfg.sin2_weinberg;
    let pol_m = one + pol_p;
    let flux = one / (two * sqr(cfg.e_total));
    let common = k.fact_com * flux * k.norm_weight;
    let gm = cfg.g_z0 * cfg.m_z0;
    let minus = cross_sections_of(&sum, pol_m, common, &k, gm);
    let plus = cross_sections_of(&sum, pol_p, common, &k, gm);
    let a = minus.get(A) + plus.get(A);
    let bp = minus.get(B_P) + plus.get(B_P);
    let bm = minus.get(B_M) + plus.get(B_M);
    let denom = two * tools.square_root(a);
    let inc_common = quadrature_of(minus.get(A), u.get(A), plus.get(A), u.get(A), tools) / (two
        * tools.absolute(a));
    let inc_ss_p = quadrature_of(minus.get(B_P), u.get(B_P), plus.get(B_P), u.get(B_P), tools)
        / tools.absolute(bp) + inc_common;
    let inc_ss_m = quadrature_of(minus.get(B_M), u.get(B_M), plus.get(B_M), u.get(B_M), tools)
        / tools.absolute(bm) + inc_common;
    let variance = two_pass_variance(sigma_sum, sigma_sum_sq, n, one);
    let prec = relative_precision(variance, sigma_sum, n, tools);
    let r = FinalResults {
        selected_events: events,
        spm2: [minus, plus],
        vars: [u, u],
        sigma: sigma_sum * flux,
        prec,
        variance,
        beta_min: tools.square_root(a / bp),
        ss_p: bp / denom,
        inc_ss_p,
        ss_m: bm / denom,
        inc_ss_m,
        cfg,
    };
    proof {
        if exact_arithmetic::<R>() && tools.exact() {
            let d = derive(accumulator@, cfg, tools);
            assert(u@ =~= channel_uncertainties(accumulator@.sum, accumulator@.sum_sq, n, tools));
            assert(r@.spm2 =~= d.spm2);
            assert(r@.vars =~= d.vars);
        }
    }
    r
}

/// Where the sums of the weighted cross-sections are zero, so are the
/// total cross-section and its variance, as long as zero times zero, zero
/// less zero and zero times the flux factor are zero, and so is zero
/// divided by the number of events and by that number less one. (With a
/// single event the last quotient is zero by zero, which no arithmetic
/// makes zero.)
pub proof fn lemma_zero_sums_give_zero_results<R: Copy + Add<Output = R> + Sub<Output = R> + Mul<Output = R> + Div<Output = R> + Neg<Output = R>, C: Fn(usize) -> R, S: Fn(R) -> R, M: Fn(R) -> R>(
    sums: RunningSums<R>,
    cfg: &Configuration<R>,
    tools: &RealTools<R, C, S, M>,
    zero: R,
)
    requires
        sums.sigma_sum == zero,
        sums.sigma_sum_sq == zero,
        zero.mul_spec(zero) == zero,
        zero.sub_spec(zero) == zero,
        zero.mul_spec(flux_factor(cfg, tools)) == zero,
        zero.div_spec(tools.number(sums.events as usize)) == zero,
        zero.div_spec(tools.number(sums.events as usize).sub_spec(tools.number(1))) == zero,
    ensures
        derive(sums, cfg, tools).sigma == zero,
        derive(sums, cfg, tools).variance == zero,
{
}

/// Where the two channels in beta hold the same sums, the two
/// significances are the same, and so are their uncertainties.
pub proof fn lemma_equal_channels_give_equal_significances<R: Copy + Add<Output = R> + Sub<Output = R> + Mul<Output = R> + Div<Output = R> + Neg<Output = R>, C: Fn(usize) -> R, S: Fn(R) -> R, M: Fn(R) -> R>(
    sums: RunningSums<R>,
    cfg: &Configuration<R>,
    tools: &RealTools<R, C, S, M>,
)
    requires
        sums.sum[1] == sums.sum[2],
        sums.sum_sq[1] == sums.sum_sq[2],
    ensures
        derive(sums, cfg, tools).ss_p == derive(sums, cfg, tools).ss_m,
        derive(sums, cfg, tools).inc_ss_p == derive(sums, cfg, tools).inc_ss_m,
{
}

} // verus!
