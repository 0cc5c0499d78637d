//! Two analytic parametrisations, set against the results of a simulation.
//!
//! Each report is a set of numbers for display. The formulas are closed
//! forms in the configuration and its cuts. The squared modulus of the Z
//! propagator, a complex number, is handed in by the caller.

use std::ops::{Add, Div, Mul, Neg, Sub};
use vstd::prelude::*;
use vstd::std_specs::ops::{AddSpec, DivSpec, MulSpec, NegSpec, SubSpec};
use crate::channels::{A, B_M, B_P, I_MX, R_MX};
use crate::config::Configuration;
use crate::numeric::{powi, powi_spec};
use crate::reals::{exact_arithmetic, total_arithmetic, RealTools};
use crate::resfin::{FinalResults, SP_M, SP_P};

verus! {

/// The parameters of the first parametrisation for one spin.
pub struct SpinParameters<R> {
    pub sigma0: R,
    pub alpha0: R,
    pub beta0: R,
    pub lambda0: R,
    pub mu0: R,
    /// The ratio of `mu0` to `lambda0`.
    pub mu_over_lambda: R,
}

/// The report of the first parametrisation.
pub struct EricReport<R> {
    /// The parameters for negative spin.
    pub minus: SpinParameters<R>,
    /// The parameters for positive spin.
    pub plus: SpinParameters<R>,
    /// The simulated value of mu.
    pub mu_num: R,
    /// The ratio of the simulated value of mu to the analytic one.
    pub rapport: R,
    /// The analytic value of mu.
    pub mu_th: R,
}

/// The analytic cross-section of one coupling, set against the simulated
/// one.
pub struct CouplingComparison<R> {
    /// Analytic cross-section with cuts (pb).
    pub sig_cut_th: R,
    /// Analytic cross-section without cuts (pb).
    pub sig_th: R,
    /// Ratio of the two.
    pub rapport: R,
    /// Simulated cross-section (pb).
    pub sig_num: R,
    /// Relative deviation of the simulated from the analytic cross-section.
    pub ecart_relatif: R,
    /// Relative uncertainty of the simulated cross-section.
    pub incertitude: R,
    /// The deviation in units of the uncertainty.
    pub ecart_sur_incertitude: R,
}

/// The report of the second parametrisation.
pub struct FawziReport<R> {
    /// The comparison for the coupling beta plus.
    pub plus: CouplingComparison<R>,
    /// The comparison for the coupling beta minus.
    pub minus: CouplingComparison<R>,
}

/// The polynomial `f1` of the analytic cross-section, in the fourth power
/// `eps_4` of the energy cut and the powers of the angular cut `del`.
pub open spec fn fawzi_f1_spec<R: Copy + Add<Output = R> + Sub<Output = R> + Mul<Output = R> +
    Div<Output = R> + Neg<Output = R>, C: Fn(usize) -> R, S: Fn(R) -> R, M: Fn(R) -> R>(eps_4: R,
    del: R, del_2: R, del_3: R, tools: &RealTools<R, C, S, M>) -> R {
    tools.number(1).sub_spec(tools.number(15).mul_spec(eps_4)).sub_spec(tools.number(9)
        .div_spec(tools.number(7)).mul_spec(tools.number(1).sub_spec(tools.number(70)
        .mul_spec(eps_4))).mul_spec(del_2)).add_spec(tools.number(6).div_spec(tools.number(7))
        .mul_spec(tools.number(1).add_spec(tools.number(70).mul_spec(eps_4))).mul_spec(del_3))
}

/// Evaluates the polynomial `f1`.
pub fn fawzi_f1<R, C: Fn(usize) -> R, S: Fn(R) -> R, M: Fn(R) -> R>(eps_4: R, del: R, del_2: R,
    del_3: R, tools: &RealTools<R, C, S, M>) -> (r: R) where R: Copy + Add<Output = R> +
    Sub<Output = R> + Mul<Output = R> + Div<Output = R> + Neg<Output = R>,
    requires
        total_arithmetic::<R>(),
        tools.usable(),
    ensures
        exact_arithmetic::<R>() && tools.exact() ==> r == fawzi_f1_spec(eps_4, del, del_2, del_3,
            tools),
{
    tools.number(1) - tools.number(15) * eps_4 - tools.number(9) / tools.number(7) *
        (tools.number(1) - tools.number(70) * eps_4) * del_2 + tools.number(6) / tools.number(7) *
        (tools.number(1) + tools.number(70) * eps_4) * del_3
}

/// The polynomial `g1` of the analytic cross-section.
pub open spec fn fawzi_g1_spec<R: Copy + Add<Output = R> + Sub<Output = R> + Mul<Output = R> +
    Div<Output = R> + Neg<Output = R>, C: Fn(usize) -> R, S: Fn(R) -> R, M: Fn(R) -> R>(eps_4: R,
    del: R, del_2: R, del_3: R, tools: &RealTools<R, C, S, M>) -> R {
    tools.number(1).sub_spec(tools.number(30).mul_spec(eps_4)).sub_spec(tools.number(9)
        .div_spec(tools.number(7)).mul_spec(tools.number(1).sub_spec(tools.number(70)
        .mul_spec(eps_4))).mul_spec(del)).sub_spec(tools.number(90).mul_spec(eps_4).mul_spec(del_2))
        .sub_spec(tools.number(1).div_spec(tools.number(7)).mul_spec(tools.number(1)
        .sub_spec(tools.number(420).mul_spec(eps_4))).mul_spec(del_3))
}

/// Evaluates the polynomial `g1`.
pub fn fawzi_g1<R, C: Fn(usize) -> R, S: Fn(R) -> R, M: Fn(R) -> R>(eps_4: R, del: R, del_2: R,
    del_3: R, tools: &RealTools<R, C, S, M>) -> (r: R) where R: Copy + Add<Output = R> +
    Sub<Output = R> + Mul<Output = R> + Div<Output = R> + Neg<Output = R>,
    requires
        total_arithmetic::<R>(),
        tools.usable(),
    ensures
        exact_arithmetic::<R>() && tools.exact() ==> r == fawzi_g1_spec(eps_4, del, del_2, del_3,
            tools),
{
    tools.number(1) - tools.number(30) * eps_4 - tools.number(9) / tools.number(7) *
        (tools.number(1) - tools.number(70) * eps_4) * del - tools.number(90) * eps_4 * del_2 -
        tools.number(1) / tools.number(7) * (tools.number(1) - tools.number(420) * eps_4) * del_3
}

/// The polynomial `g2` of the analytic cross-section.
pub open spec fn fawzi_g2_spec<R: Copy + Add<Output = R> + Sub<Output = R> + Mul<Output = R> +
    Div<Output = R> + Neg<Output = R>, C: Fn(usize) -> R, S: Fn(R) -> R, M: Fn(R) -> R>(eps_4: R,
    del: R, del_2: R, del_3: R, tools: &RealTools<R, C, S, M>) -> R {
    tools.number(1).sub_spec(tools.number(25).mul_spec(eps_4)).sub_spec(tools.number(6)
        .div_spec(tools.number(7)).mul_spec(tools.number(1).sub_spec(tools.number(70)
        .mul_spec(eps_4))).mul_spec(del)).sub_spec(tools.number(3).div_spec(tools.number(7))
        .mul_spec(tools.number(1).add_spec(tools.number(210).mul_spec(eps_4))).mul_spec(del_2))
        .sub_spec(tools.number(8).div_spec(tools.number(21)).mul_spec(tools.number(1)
        .sub_spec(tools.number(105).div_spec(tools.number(2)).mul_spec(eps_4))).mul_spec(del_3))
}

/// Evaluates the polynomial `g2`.
pub fn fawzi_g2<R, C: Fn(usize) -> R, S: Fn(R) -> R, M: Fn(R) -> R>(eps_4: R, del: R, del_2: R,
    del_3: R, tools: &RealTools<R, C, S, M>) -> (r: R) where R: Copy + Add<Output = R> +
    Sub<Output = R> + Mul<Output = R> + Div<Output = R> + Neg<Output = R>,
    requires
        total_arithmetic::<R>(),
        tools.usable(),
    ensures
        exact_arithmetic::<R>() && tools.exact() ==> r == fawzi_g2_spec(eps_4, del, del_2, del_3,
            tools),
{
    tools.number(1) - tools.number(25) * eps_4 - tools.number(6) / tools.number(7) *
        (tools.number(1) - tools.number(70) * eps_4) * del - tools.number(3) / tools.number(7) *
        (tools.number(1) + tools.number(210) * eps_4) * del_2 - tools.number(8) /
        tools.number(21) * (tools.number(1) - tools.number(105) / tools.number(2) * eps_4) * del_3
}

/// The polynomial `g3` of the analytic cross-section.
pub open spec fn fawzi_g3_spec<R: Copy + Add<Output = R> + Sub<Output = R> + Mul<Output = R> +
    Div<Output = R> + Neg<Output = R>, C: Fn(usize) -> R, S: Fn(R) -> R, M: Fn(R) -> R>(eps_4: R,
    del: R, del_2: R, del_3: R, tools: &RealTools<R, C, S, M>) -> R {
    tools.number(1).sub_spec(tools.number(195).div_spec(tools.number(11)).mul_spec(eps_4))
        .sub_spec(tools.number(18).div_spec(tools.number(77)).mul_spec(tools.number(1)
        .sub_spec(tools.number(7).mul_spec(eps_4))).mul_spec(del)).sub_spec(tools.number(9)
        .div_spec(tools.number(11)).mul_spec(tools.number(9).div_spec(tools.number(7))
        .sub_spec(tools.number(70).mul_spec(eps_4))).mul_spec(del_2)).sub_spec(tools.number(8)
        .div_spec(tools.number(11)).mul_spec(tools.number(1).sub_spec(tools.number(105)
        .div_spec(tools.number(11)).mul_spec(eps_4))).mul_spec(del_3))
}

/// Evaluates the polynomial `g3`.
pub fn fawzi_g3<R, C: Fn(usize) -> R, S: Fn(R) -> R, M: Fn(R) -> R>(eps_4: R, del: R, del_2: R,
    del_3: R, tools: &RealTools<R, C, S, M>) -> (r: R) where R: Copy + Add<Output = R> +
    Sub<Output = R> + Mul<Output = R> + Div<Output = R> + Neg<Output = R>,
    requires
        total_arithmetic::<R>(),
        tools.usable(),
    ensures
        exact_arithmetic::<R>() && tools.exact() ==> r == fawzi_g3_spec(eps_4, del, del_2, del_3,
            tools),
{
    tools.number(1) - tools.number(195) / tools.number(11) * eps_4 - tools.number(18) /
        tools.number(77) * (tools.number(1) - tools.number(7) * eps_4) * del - tools.number(9) /
        tools.number(11) * (tools.number(9) / tools.number(7) - tools.number(70) * eps_4) * del_2 -
        tools.number(8) / tools.number(11) * (tools.number(1) - tools.number(105) /
        tools.number(11) * eps_4) * del_3
}

/// The real part `x = 1 - (M/E)^2` and the size `G M / E^2` of the imaginary
/// part of the denominator of the Z propagator, for the mass `M`, the width
/// `G` and the total energy `E`.
pub open spec fn resonance_shape_spec<R: Copy + Add<Output = R> + Sub<Output = R> +
    Mul<Output = R> + Div<Output = R> + Neg<Output = R>, C: Fn(usize) -> R, S: Fn(R) -> R,
    M: Fn(R) -> R>(cfg: &Configuration<R>, tools: &RealTools<R, C, S, M>) -> (R, R) {
    let mre = cfg.m_z0.div_spec(cfg.e_total);
    let gre = cfg.g_z0.mul_spec(cfg.m_z0).div_spec(cfg.e_total.mul_spec(cfg.e_total));
    (tools.number(1).sub_spec(mre.mul_spec(mre)), gre)
}

/// Computes the two parts of the denominator of the Z propagator.
pub fn resonance_shape<R, C: Fn(usize) -> R, S: Fn(R) -> R, M: Fn(R) -> R>(cfg: &Configuration<R>,
    tools: &RealTools<R, C, S, M>) -> (r: (R, R)) where R: Copy + Add<Output = R> +
    Sub<Output = R> + Mul<Output = R> + Div<Output = R> + Neg<Output = R>,
    requires
        total_arithmetic::<R>(),
        tools.usable(),
    ensures
        exact_arithmetic::<R>() && tools.exact() ==> r == resonance_shape_spec(cfg, tools),
{
    let mre = cfg.m_z0 / cfg.e_total;
    let gre = cfg.g_z0 * cfg.m_z0 / (cfg.e_total * cfg.e_total);
    (tools.number(1) - mre * mre, gre)
}

/// The analytic cross-section without cuts, up to the factor three or five
/// of each coupling, given the squared modulus `sdz_norm_sqr` of the Z
/// propagator.
pub open spec fn fawzi_sigma_spec<R: Copy + Add<Output = R> + Sub<Output = R> + Mul<Output = R> +
    Div<Output = R> + Neg<Output = R>, C: Fn(usize) -> R, S: Fn(R) -> R,
    M: Fn(R) -> R>(cfg: &Configuration<R>, sdz_norm_sqr: R, tools: &RealTools<R, C, S, M>) -> R {
    let bra = cfg.m_z0.div_spec(tools.number(3).mul_spec(tools.number(6))
        .mul_spec(powi_spec(tools.pi, 3, tools.number(1))).mul_spec(tools.number(16))
        .mul_spec(tools.number(120)));
    tools.number(12).mul_spec(tools.pi).div_spec(cfg.m_z0.mul_spec(cfg.m_z0))
        .mul_spec(cfg.branching_ep_em).mul_spec(cfg.g_z0).mul_spec(bra).div_spec(cfg.e_total
        .mul_spec(cfg.e_total)).mul_spec(powi_spec(cfg.e_total.div_spec(cfg.m_z0), 8,
        tools.number(1))).mul_spec(sdz_norm_sqr).mul_spec(cfg.gev2_to_picobarn)
}

/// Computes the analytic cross-section without cuts.
pub fn fawzi_sigma<R, C: Fn(usize) -> R, S: Fn(R) -> R, M: Fn(R) -> R>(cfg: &Configuration<R>,
    sdz_norm_sqr: R, tools: &RealTools<R, C, S, M>) -> (r: R) where R: Copy + Add<Output = R> +
    Sub<Output = R> + Mul<Output = R> + Div<Output = R> + Neg<Output = R>,
    requires
        total_arithmetic::<R>(),
        tools.usable(),
    ensures
        exact_arithmetic::<R>() && tools.exact() ==> r == fawzi_sigma_spec(cfg, sdz_norm_sqr,
            tools),
{
    let bra = cfg.m_z0 / (tools.number(3) * tools.number(6) * powi(tools.pi, 3, tools.number(1)) *
        tools.number(16) * tools.number(120));
    tools.number(12) * tools.pi / (cfg.m_z0 * cfg.m_z0) * cfg.branching_ep_em * cfg.g_z0 * bra /
        (cfg.e_total * cfg.e_total) * powi(cfg.e_total / cfg.m_z0, 8, tools.number(1)) *
        sdz_norm_sqr * cfg.gev2_to_picobarn
}

/// The factors `ff` and `gg` by which the cuts of a configuration reduce the
/// analytic cross-section.
pub open spec fn fawzi_cut_factors_spec<R: Copy + Add<Output = R> + Sub<Output = R> +
    Mul<Output = R> + Div<Output = R> + Neg<Output = R>, C: Fn(usize) -> R, S: Fn(R) -> R,
    M: Fn(R) -> R>(cfg: &Configuration<R>, tools: &RealTools<R, C, S, M>) -> (R, R) {
    let del = tools.number(1).sub_spec(cfg.event_cut.photon_photon_cut).div_spec(tools.number(2));
    let eps = tools.number(2).mul_spec(cfg.event_cut.e_min).div_spec(cfg.e_total);
    let eps_4 = powi_spec(eps, 4, tools.number(1));
    let del_2 = powi_spec(del, 2, tools.number(1));
    let del_3 = powi_spec(del, 3, tools.number(1));
    let sincut_3 = powi_spec(cfg.event_cut.beam_photon_plane_cut, 3, tools.number(1));
    let f1 = fawzi_f1_spec(eps_4, del, del_2, del_3, tools);
    let g1 = fawzi_g1_spec(eps_4, del, del_2, del_3, tools);
    let g2 = fawzi_g2_spec(eps_4, del, del_2, del_3, tools);
    let g3 = fawzi_g3_spec(eps_4, del, del_2, del_3, tools);
    (f1.mul_spec(tools.number(1).sub_spec(sincut_3)), g1.sub_spec(tools.number(27)
        .div_spec(tools.number(16)).mul_spec(g2).mul_spec(cfg.event_cut.beam_photon_plane_cut))
        .add_spec(tools.number(11).div_spec(tools.number(16)).mul_spec(g3).mul_spec(sincut_3)))
}

/// Computes the factors by which the cuts reduce the analytic cross-section.
pub fn fawzi_cut_factors<R, C: Fn(usize) -> R, S: Fn(R) -> R,
    M: Fn(R) -> R>(cfg: &Configuration<R>, tools: &RealTools<R, C, S, M>) -> (r: (R,
    R)) where R: Copy + Add<Output = R> + Sub<Output = R> + Mul<Output = R> + Div<Output = R> +
    Neg<Output = R>,
    requires
        total_arithmetic::<R>(),
        tools.usable(),
    ensures
        exact_arithmetic::<R>() && tools.exact() ==> r == fawzi_cut_factors_spec(cfg, tools),
{
    let del = (tools.number(1) - cfg.event_cut.photon_photon_cut) / tools.number(2);
    let eps = tools.number(2) * cfg.event_cut.e_min / cfg.e_total;
    let eps_4 = powi(eps, 4, tools.number(1));
    let del_2 = powi(del, 2, tools.number(1));
    let del_3 = powi(del, 3, tools.number(1));
    let sincut_3 = powi(cfg.event_cut.beam_photon_plane_cut, 3, tools.number(1));
    let f1 = fawzi_f1(eps_4, del, del_2, del_3, tools);
    let g1 = fawzi_g1(eps_4, del, del_2, del_3, tools);
    let g2 = fawzi_g2(eps_4, del, del_2, del_3, tools);
    let g3 = fawzi_g3(eps_4, del, del_2, del_3, tools);
    (f1 * (tools.number(1) - sincut_3), g1 - tools.number(27) / tools.number(16) * g2 *
        cfg.event_cut.beam_photon_plane_cut + tools.number(11) / tools.number(16) * g3 * sincut_3)
}

/// The comparison of the analytic cross-section of one coupling with the
/// simulated one. `sig_cut` is the analytic cross-section with cuts, `sig`
/// the one without cuts up to `factor`; `a` and `b` are the simulated
/// cross-sections of the two spins, `va` and `vb` their relative
/// uncertainties.
pub open spec fn compare_coupling_spec<R: Copy + Add<Output = R> + Sub<Output = R> +
    Mul<Output = R> + Div<Output = R> + Neg<Output = R>, C: Fn(usize) -> R, S: Fn(R) -> R,
    M: Fn(R) -> R>(sig_cut: R, sig: R, factor: R, a: R, va: R, b: R, vb: R, tools: &RealTools<R, C,
    S, M>) -> CouplingComparison<R> {
    let mc = a.add_spec(b).div_spec(tools.number(4));
    let ecart = mc.div_spec(sig_cut).sub_spec(tools.number(1));
    let incr = tools.square_root(a.mul_spec(va).mul_spec(a.mul_spec(va)).add_spec(b.mul_spec(vb)
        .mul_spec(b.mul_spec(vb)))).div_spec(tools.absolute(a.add_spec(b)));
    CouplingComparison {
        sig_cut_th: sig_cut,
        sig_th: sig.mul_spec(factor),
        rapport: sig_cut.div_spec(factor.mul_spec(sig)),
        sig_num: mc,
        ecart_relatif: ecart,
        incertitude: incr,
        ecart_sur_incertitude: ecart.div_spec(incr),
    }
}

/// Compares the analytic cross-section of one coupling with the simulated
/// one.
pub fn compare_coupling<R, C: Fn(usize) -> R, S: Fn(R) -> R, M: Fn(R) -> R>(sig_cut: R, sig: R,
    factor: R, a: R, va: R, b: R, vb: R, tools: &RealTools<R, C, S,
    M>) -> (r: CouplingComparison<R>) where R: Copy + Add<Output = R> + Sub<Output = R> +
    Mul<Output = R> + Div<Output = R> + Neg<Output = R>,
    requires
        total_arithmetic::<R>(),
        tools.usable(),
    ensures
        exact_arithmetic::<R>() && tools.exact() ==> r == compare_coupling_spec(sig_cut, sig,
            factor, a, va, b, vb, tools),
{
    let mc = (a + b) / tools.number(4);
    let ecart = mc / sig_cut - tools.number(1);
    let incr = tools.square_root(a * va * (a * va) + b * vb * (b * vb)) / tools.absolute(a + b);
    CouplingComparison {
        sig_cut_th: sig_cut,
        sig_th: sig * factor,
        rapport: sig_cut / (factor * sig),
        sig_num: mc,
        ecart_relatif: ecart,
        incertitude: incr,
        ecart_sur_incertitude: ecart / incr,
    }
}

/// The parameters of the first parametrisation for one spin, from the
/// cross-sections of its five channels.
pub open spec fn spin_parameters_spec<R: Copy + Add<Output = R> + Sub<Output = R> +
    Mul<Output = R> + Div<Output = R> + Neg<Output = R>, C: Fn(usize) -> R, S: Fn(R) -> R,
    M: Fn(R) -> R>(a: R, bp: R, bm: R, rx: R, ix: R, tools: &RealTools<R, C, S,
    M>) -> SpinParameters<R> {
    let lambda0 = bm.sub_spec(bp).div_spec(tools.number(2));
    let mu0 = bm.add_spec(bp).div_spec(tools.number(2));
    SpinParameters {
        sigma0: a.div_spec(tools.number(2)),
        alpha0: ix.div_spec(tools.number(2)),
        beta0: rx.neg_spec().div_spec(tools.number(2)),
        lambda0: lambda0,
        mu0: mu0,
        mu_over_lambda: mu0.div_spec(lambda0),
    }
}

/// Computes the parameters of the first parametrisation for one spin.
pub fn spin_parameters<R, C: Fn(usize) -> R, S: Fn(R) -> R, M: Fn(R) -> R>(a: R, bp: R, bm: R,
    rx: R, ix: R, tools: &RealTools<R, C, S, M>) -> (r: SpinParameters<R>) where R: Copy +
    Add<Output = R> + Sub<Output = R> + Mul<Output = R> + Div<Output = R> + Neg<Output = R>,
    requires
        total_arithmetic::<R>(),
        tools.usable(),
    ensures
        exact_arithmetic::<R>() && tools.exact() ==> r == spin_parameters_spec(a, bp, bm, rx, ix,
            tools),
{
    let lambda0 = (bm - bp) / tools.number(2);
    let mu0 = (bm + bp) / tools.number(2);
    SpinParameters {
        sigma0: a / tools.number(2),
        alpha0: ix / tools.number(2),
        beta0: rx.neg() / tools.number(2),
        lambda0: lambda0,
        mu0: mu0,
        mu_over_lambda: mu0 / lambda0,
    }
}

/// The analytic value of the parameter mu:
/// `BR conv / (8 * 9 * 5 * pi^2 * M * G)`.
pub open spec fn mu_theory_spec<R: Copy + Add<Output = R> + Sub<Output = R> + Mul<Output = R> +
    Div<Output = R> + Neg<Output = R>, C: Fn(usize) -> R, S: Fn(R) -> R,
    M: Fn(R) -> R>(cfg: &Configuration<R>, tools: &RealTools<R, C, S, M>) -> R {
    cfg.branching_ep_em.mul_spec(cfg.gev2_to_picobarn).div_spec(tools.number(8)
        .mul_spec(tools.number(9)).mul_spec(tools.number(5)).mul_spec(tools.pi.mul_spec(tools.pi))
        .mul_spec(cfg.m_z0).mul_spec(cfg.g_z0))
}

/// Computes the analytic value of the parameter mu.
pub fn mu_theory<R, C: Fn(usize) -> R, S: Fn(R) -> R, M: Fn(R) -> R>(cfg: &Configuration<R>,
    tools: &RealTools<R, C, S, M>) -> (r: R) where R: Copy + Add<Output = R> + Sub<Output = R> +
    Mul<Output = R> + Div<Output = R> + Neg<Output = R>,
    requires
        total_arithmetic::<R>(),
        tools.usable(),
    ensures
        exact_arithmetic::<R>() && tools.exact() ==> r == mu_theory_spec(cfg, tools),
{
    cfg.branching_ep_em * cfg.gev2_to_picobarn / (tools.number(8) * tools.number(9) *
        tools.number(5) * (tools.pi * tools.pi) * cfg.m_z0 * cfg.g_z0)
}

impl<'cfg, R> FinalResults<'cfg, R> where
    R: Copy + Add<Output = R> + Sub<Output = R> + Mul<Output = R> + Div<Output = R> +
        Neg<Output = R>,
 {
    /// The report of the first parametrisation: the parameters of each
    /// spin, and the parameter mu from the channels in beta of both spins,
    /// set against its analytic value.
    pub open spec fn eric_spec<C: Fn(usize) -> R, S: Fn(R) -> R, M: Fn(R) -> R>(
        &self,
        tools: &RealTools<R, C, S, M>,
    ) -> EricReport<R> {
        let m = self.spm2@[0]@;
        let p = self.spm2@[1]@;
        let mu_num = m[1].add_spec(p[1]).add_spec(m[2]).add_spec(p[2]).div_spec(tools.number(4));
        let mu_th = mu_theory_spec(self.cfg, tools);
        EricReport {
            minus: spin_parameters_spec(m[0], m[1], m[2], m[3], m[4], tools),
            plus: spin_parameters_spec(p[0], p[1], p[2], p[3], p[4], tools),
            mu_num,
            rapport: mu_num.div_spec(mu_th),
            mu_th,
        }
    }

    /// Computes the report of the first parametrisation.
    pub fn eric<C: Fn(usize) -> R, S: Fn(R) -> R, M: Fn(R) -> R>(
        &self,
        tools: &RealTools<R, C, S, M>,
    ) -> (r: EricReport<R>)
        requires
            total_arithmetic::<R>(),
            tools.usable(),
        ensures
            exact_arithmetic::<R>() && tools.exact() ==> r == self.eric_spec(tools),
    {
        let m = &self.spm2[SP_M];
        let p = &self.spm2[SP_P];
        let mu_num = (m.get(B_P) + p.get(B_P) + m.get(B_M) + p.get(B_M)) / tools.number(4);
        let mu_th = mu_theory(self.cfg, tools);
        EricReport {
            minus: spin_parameters(m.get(A), m.get(B_P), m.get(B_M), m.get(R_MX), m.get(I_MX),
                tools),
            plus: spin_parameters(p.get(A), p.get(B_P), p.get(B_M), p.get(R_MX), p.get(I_MX),
                tools),
            mu_num,
            rapport: mu_num / mu_th,
            mu_th,
        }
    }

    /// The report of the second parametrisation, given the squared modulus
    /// `sdz_norm_sqr` of the Z propagator. The analytic cross-section with
    /// cuts is `sig (ff + 2 gg)` for beta plus and `2 sig gg` more for beta
    /// minus; without cuts it is three and five times `sig`.
    pub open spec fn fawzi_spec<C: Fn(usize) -> R, S: Fn(R) -> R, M: Fn(R) -> R>(
        &self,
        sdz_norm_sqr: R,
        tools: &RealTools<R, C, S, M>,
    ) -> FawziReport<R> {
        let m = self.spm2@[0]@;
        let p = self.spm2@[1]@;
        let vm = self.vars@[0]@;
        let vp = self.vars@[1]@;
        let two = tools.number(2);
        let sig = fawzi_sigma_spec(self.cfg, sdz_norm_sqr, tools);
        let (ff, gg) = fawzi_cut_factors_spec(self.cfg, tools);
        let sig_p = sig.mul_spec(ff.add_spec(two.mul_spec(gg)));
        let sig_m = sig_p.add_spec(two.mul_spec(sig).mul_spec(gg));
        FawziReport {
            plus: compare_coupling_spec(sig_p, sig, tools.number(3), m[1], vm[1], p[1], vp[1],
                tools),
            minus: compare_coupling_spec(sig_m, sig, tools.number(5), m[2], vm[2], p[2], vp[2],
                tools),
        }
    }

    /// Computes the report of the second parametrisation.
    pub fn fawzi<C: Fn(usize) -> R, S: Fn(R) -> R, M: Fn(R) -> R>(
        &self,
        sdz_norm_sqr: R,
        tools: &RealTools<R, C, S, M>,
    ) -> (r: FawziReport<R>)
        requires
            total_arithmetic::<R>(),
            tools.usable(),
        ensures
            exact_arithmetic::<R>() && tools.exact() ==> r == self.fawzi_spec(sdz_norm_sqr, tools),
    {
        let m = &self.spm2[SP_M];
        let p = &self.spm2[SP_P];
        let vm = &self.vars[SP_M];
        let vp = &self.vars[SP_P];
        let two = tools.number(2);
        let sig = fawzi_sigma(self.cfg, sdz_norm_sqr, tools);
        let (ff, gg) = fawzi_cut_factors(self.cfg, tools);
        let sig_p = sig * (ff + two * gg);
        let sig_m = sig_p + two * sig * gg;
        FawziReport {
            plus: compare_coupling(
                sig_p,
                sig,
                tools.number(3),
                m.get(B_P),
                vm.get(B_P),
                p.get(B_P),
                vp.get(B_P),
                tools,
            ),
            minus: compare_coupling(
                sig_m,
                sig,
                tools.number(5),
                m.get(B_M),
                vm.get(B_M),
                p.get(B_M),
                vp.get(B_M),
                tools,
            ),
        }
    }
}

} // verus!
