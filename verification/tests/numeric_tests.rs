use cross_section::numeric::{powi, sqr};

#[test]
fn sqr_multiplies_a_number_by_itself() {
    assert_eq!(sqr(3i32), 9);
    assert_eq!(sqr(-4i64), 16);
    assert_eq!(sqr(0u8), 0);
    assert_eq!(sqr(1.5f64), 2.25);
    assert_eq!(sqr(-0.5f32), 0.25);
}

#[test]
fn powi_of_zero_and_one() {
    assert_eq!(powi(7i64, 0, 1), 1);
    assert_eq!(powi(7i64, 1, 1), 7);
    assert_eq!(powi(0.0f64, 0, 1.0), 1.0);
    assert_eq!(powi(2.5f64, 1, 1.0), 2.5);
}

#[test]
fn powi_of_integers() {
    assert_eq!(powi(2i64, 10, 1), 1024);
    assert_eq!(powi(3i64, 4, 1), 81);
    assert_eq!(powi(3i64, 5, 1), 243);
    assert_eq!(powi(-2i64, 3, 1), -8);
    assert_eq!(powi(-2i64, 4, 1), 16);
    assert_eq!(powi(10u64, 19, 1), 10_000_000_000_000_000_000);
    assert_eq!(powi(1i32, -5, 1), 1);
    assert_eq!(powi(2i32, -1, 1), 0);
    assert_eq!(powi(-1i32, -3, 1), -1);
}

#[test]
fn powi_of_reals() {
    assert_eq!(powi(2.0f64, 10, 1.0), 1024.0);
    assert_eq!(powi(2.0f64, -2, 1.0), 0.25);
    assert_eq!(powi(0.5f64, 3, 1.0), 0.125);
    assert_eq!(powi(-3.0f64, 3, 1.0), -27.0);
    assert_eq!(powi(10.0f64, -1, 1.0), 0.1);
    assert_eq!(powi(4.0f64, 8, 1.0), 65536.0);
}

#[test]
fn powi_proceeds_by_squaring() {
    let x = 1.1f64;
    let x2 = x * x;
    let x4 = x2 * x2;
    assert_eq!(powi(x, 2, 1.0), 1.0 * x2);
    assert_eq!(powi(x, 3, 1.0), x * x2);
    assert_eq!(powi(x, 4, 1.0), 1.0 * (1.0 * x4));
    assert_eq!(powi(x, 5, 1.0), x * (1.0 * x4));
    assert_eq!(powi(x, 6, 1.0), 1.0 * (x2 * x4));
    assert_eq!(powi(x, -3, 1.0), 1.0 / (x * x2));
}

#[test]
fn powi_is_close_to_the_power_of_std() {
    for n in -12i32..=12 {
        for x in [0.3f64, 1.7, -2.2, 9.5] {
            let got = powi(x, n, 1.0);
            let want = x.powi(n);
            assert!((got - want).abs() <= 1e-12 * want.abs(), "{} to the {}", x, n);
        }
    }
}
