use cross_section::accumulator::{PhysicsCoefficients, ResultAccumulator};
use cross_section::channels::{FixedChannelVector, A, B_M, B_P, I_MX, NUM_MAT_ELEMS, R_MX};

fn coefficients() -> PhysicsCoefficients<f64> {
    PhysicsCoefficients {
        channel_weights: FixedChannelVector::new([0.5, 2.0, -1.0, 4.0, 0.25]),
        propag: 0.75,
        ecart_pic: 1.5,
        fact_com: 3.0,
        norm_weight: 0.125,
    }
}

#[test]
fn channels_are_five_in_a_fixed_order() {
    assert_eq!(NUM_MAT_ELEMS, 5);
    assert_eq!([A, B_P, B_M, R_MX, I_MX], [0, 1, 2, 3, 4]);
}

#[test]
fn vectors_add_channel_by_channel() {
    let a = FixedChannelVector::new([1.0, 2.0, 3.0, 4.0, 5.0]);
    let b = FixedChannelVector::new([10.0, 20.0, 30.0, 40.0, 50.0]);
    assert_eq!(a.plus(&b).values, [11.0, 22.0, 33.0, 44.0, 55.0]);
    assert_eq!(b.plus(&a).values, [11.0, 22.0, 33.0, 44.0, 55.0]);
}

#[test]
fn vectors_square_channel_by_channel() {
    let a = FixedChannelVector::new([1.0, -2.0, 3.0, 0.5, 0.0]);
    assert_eq!(a.squared().values, [1.0, 4.0, 9.0, 0.25, 0.0]);
}

#[test]
fn vectors_map_channel_by_channel() {
    let a = FixedChannelVector::new([1i64, 2, 3, 4, 5]);
    assert_eq!(a.map(&|x: i64| 10 * x + 1).values, [11, 21, 31, 41, 51]);
}

#[test]
fn dot_product_sums_the_products() {
    let a = FixedChannelVector::new([1.0, 2.0, 3.0, 4.0, 5.0]);
    let w = FixedChannelVector::new([0.5, 2.0, -1.0, 4.0, 0.25]);
    assert_eq!(a.dot(&w), 0.5 + 4.0 - 3.0 + 16.0 + 1.25);
    let i = FixedChannelVector::new([1i64, 1, 1, 1, 2]);
    let j = FixedChannelVector::new([1i64, 2, 3, 4, 5]);
    assert_eq!(i.dot(&j), 20);
}

#[test]
fn splat_and_get() {
    let v = FixedChannelVector::splat(7u32);
    assert_eq!(v.values, [7, 7, 7, 7, 7]);
    let w = FixedChannelVector::new([5, 6, 7, 8, 9]);
    assert_eq!(w.get(A), 5);
    assert_eq!(w.get(B_P), 6);
    assert_eq!(w.get(B_M), 7);
    assert_eq!(w.get(R_MX), 8);
    assert_eq!(w.get(I_MX), 9);
}

#[test]
fn a_new_accumulator_has_seen_nothing() {
    let acc = ResultAccumulator::with_coefficients(coefficients(), 0.0);
    assert_eq!(acc.events_integrated(), 0);
    assert_eq!(acc.sum().values, [0.0; 5]);
    assert_eq!(acc.sum_sq().values, [0.0; 5]);
    assert_eq!(acc.sigma_sum(), 0.0);
    assert_eq!(acc.sigma_sum_sq(), 0.0);
    assert_eq!(acc.coefficients().propag, 0.75);
    assert_eq!(acc.coefficients().channel_weights.values, [0.5, 2.0, -1.0, 4.0, 0.25]);
}

#[test]
fn integrate_adds_the_contribution_and_its_square() {
    let mut acc = ResultAccumulator::with_coefficients(coefficients(), 0.0);
    acc.integrate(FixedChannelVector::new([1.0, 2.0, 3.0, 4.0, 8.0]));
    assert_eq!(acc.events_integrated(), 1);
    assert_eq!(acc.sum().values, [1.0, 2.0, 3.0, 4.0, 8.0]);
    assert_eq!(acc.sum_sq().values, [1.0, 4.0, 9.0, 16.0, 64.0]);
    let weight = 0.5 + 4.0 - 3.0 + 16.0 + 2.0;
    assert_eq!(acc.sigma_sum(), weight);
    assert_eq!(acc.sigma_sum_sq(), weight * weight);
    acc.integrate(FixedChannelVector::new([2.0, 0.0, 1.0, 0.0, 4.0]));
    assert_eq!(acc.events_integrated(), 2);
    assert_eq!(acc.sum().values, [3.0, 2.0, 4.0, 4.0, 12.0]);
    assert_eq!(acc.sum_sq().values, [5.0, 4.0, 10.0, 16.0, 80.0]);
    let second = 1.0 + 0.0 - 1.0 + 0.0 + 1.0;
    assert_eq!(acc.sigma_sum(), weight + second);
    assert_eq!(acc.sigma_sum_sq(), weight * weight + second * second);
}

#[test]
fn every_call_of_integrate_counts_once() {
    let mut acc = ResultAccumulator::with_coefficients(coefficients(), 0.0);
    for n in 0..1000usize {
        assert_eq!(acc.events_integrated(), n);
        acc.integrate(FixedChannelVector::new([n as f64, 1.0, -1.0, 0.5, 0.0]));
    }
    assert_eq!(acc.events_integrated(), 1000);
}

#[test]
fn zero_contributions_leave_the_sums_at_zero() {
    let mut acc = ResultAccumulator::with_coefficients(coefficients(), 0.0);
    for _ in 0..100 {
        acc.integrate(FixedChannelVector::splat(0.0));
    }
    assert_eq!(acc.events_integrated(), 100);
    assert_eq!(acc.sigma_sum(), 0.0);
    assert_eq!(acc.sigma_sum_sq(), 0.0);
    assert_eq!(acc.sum().values, [0.0; 5]);
    assert_eq!(acc.sum_sq().values, [0.0; 5]);
}

#[test]
fn merging_equals_integrating_in_sequence() {
    let first = [[1.0, 2.0, 3.0, 4.0, 5.0], [0.5, 0.25, 8.0, 2.0, 1.0], [3.0, 1.0, 4.0, 1.0, 5.0]];
    let second = [[2.0, 7.0, 1.0, 8.0, 2.0], [16.0, 0.0, 0.5, 4.0, 32.0]];
    let mut a = ResultAccumulator::with_coefficients(coefficients(), 0.0);
    let mut b = ResultAccumulator::with_coefficients(coefficients(), 0.0);
    let mut whole = ResultAccumulator::with_coefficients(coefficients(), 0.0);
    for c in first {
        a.integrate(FixedChannelVector::new(c));
        whole.integrate(FixedChannelVector::new(c));
    }
    for c in second {
        b.integrate(FixedChannelVector::new(c));
        whole.integrate(FixedChannelVector::new(c));
    }
    let merged = a.merge(b);
    assert_eq!(merged.events_integrated(), 5);
    assert_eq!(merged.events_integrated(), whole.events_integrated());
    assert_eq!(merged.sum().values, whole.sum().values);
    assert_eq!(merged.sum_sq().values, whole.sum_sq().values);
    assert_eq!(merged.sigma_sum(), whole.sigma_sum());
    assert_eq!(merged.sigma_sum_sq(), whole.sigma_sum_sq());
    assert_eq!(merged.coefficients().norm_weight, 0.125);
}

#[test]
fn merging_is_close_to_sequence_for_any_reals() {
    let mut a = ResultAccumulator::with_coefficients(coefficients(), 0.0);
    let mut b = ResultAccumulator::with_coefficients(coefficients(), 0.0);
    let mut whole = ResultAccumulator::with_coefficients(coefficients(), 0.0);
    for k in 0..500 {
        let x = 0.1 + (k as f64) * 0.37;
        let c = FixedChannelVector::new([x, 1.0 / x, x * 0.3, 0.7, x * x * 1e-3]);
        if k % 2 == 0 {
            a.integrate(c);
        } else {
            b.integrate(c);
        }
        whole.integrate(c);
    }
    let merged = a.merge(b);
    assert_eq!(merged.events_integrated(), 500);
    let close = |x: f64, y: f64| (x - y).abs() <= 1e-9 * y.abs();
    assert!(close(merged.sigma_sum(), whole.sigma_sum()));
    assert!(close(merged.sigma_sum_sq(), whole.sigma_sum_sq()));
    for i in 0..5 {
        assert!(close(merged.sum().values[i], whole.sum().values[i]));
        assert!(close(merged.sum_sq().values[i], whole.sum_sq().values[i]));
    }
}

#[test]
fn integer_accumulators_are_exact() {
    let k = PhysicsCoefficients {
        channel_weights: FixedChannelVector::new([1i64, 2, 3, 4, 5]),
        propag: 0,
        ecart_pic: 0,
        fact_com: 0,
        norm_weight: 0,
    };
    let mut acc = ResultAccumulator::with_coefficients(k, 0);
    acc.integrate(FixedChannelVector::new([1, 1, 1, 1, 2]));
    assert_eq!(acc.sigma_sum(), 20);
    assert_eq!(acc.sigma_sum_sq(), 400);
    assert_eq!(acc.sum().values, [1, 1, 1, 1, 2]);
    assert_eq!(acc.sum_sq().values, [1, 1, 1, 1, 4]);
}
