use wave_plotter::fixed::FP_ONE;
use wave_plotter::fixed::FP_PI;
use wave_plotter::fixed::sin_fp;

#[test]
fn sine_hits_the_cardinal_angles() {
    assert_eq!(sin_fp(0), 0);
    assert_eq!(sin_fp(FP_PI / 2), FP_ONE);
    assert_eq!(sin_fp(FP_PI), 0);
    assert_eq!(sin_fp(FP_PI + FP_PI / 2), -FP_ONE);
    assert_eq!(sin_fp(2 * FP_PI), 0);
}

#[test]
fn sine_tracks_the_real_function() {
    // Reference points of the rational approximation.
    assert_eq!(sin_fp(7854), 7058);
    assert_eq!(sin_fp(40000), -7554);
    assert_eq!(sin_fp(100000), -5436);
    // Compare against the real sine within the approximation's error.
    for angle in (0..200_000_i64).step_by(997) {
        let approx = sin_fp(angle) as f64 / FP_ONE as f64;
        let exact = ((angle as f64) / FP_ONE as f64).sin();
        assert!((approx - exact).abs() < 0.005, "angle {angle}");
    }
}

#[test]
fn sine_stays_within_one_unit() {
    for angle in (0..1_000_000_i64).step_by(1013) {
        let y = sin_fp(angle);
        assert!(-FP_ONE <= y && y <= FP_ONE);
    }
}
