use raytracer::source::AccretionDisk;

#[test]
fn presets() {
    let c = AccretionDisk::corona();
    assert_eq!(c.corona_scale, 1);
    assert!(c.keplerian);
    assert_eq!(c.tau_boost, 1);

    let f = AccretionDisk::flat();
    assert_eq!(f.corona_scale, 0);
    assert!(!f.keplerian);
    assert_eq!(f.tau_boost, 1);

    let t = AccretionDisk::thick();
    assert_eq!(t.corona_scale, 0);
    assert!(t.keplerian);
    assert_eq!(t.tau_boost, 100);

    let n = AccretionDisk::thin();
    assert_eq!(n.corona_scale, 0);
    assert!(n.keplerian);
    assert_eq!(n.tau_boost, 1);
}

#[test]
fn corona_prob_exact_values() {
    let d = AccretionDisk::corona();
    // r = 1.0: s = 22.5, poly = 1 + 22.5 + 253.125 = 276.625,
    // prob = 2.592e-5 * 276.625 = 7.17012e-3.
    assert_eq!(d.corona_prob(1_000_000), 7_170_120_000);
    // r = 2.0: s = 11.25, poly = 1 + 11.25 + 63.28125 = 75.53125,
    // prob = 2.592e-5 * 75.53125 = 1.95777e-3.
    assert_eq!(d.corona_prob(2_000_000), 1_957_770_000);
}

#[test]
fn corona_prob_zero_without_corona() {
    assert_eq!(AccretionDisk::flat().corona_prob(1_000_000), 0);
    assert_eq!(AccretionDisk::thin().corona_prob(1_000_000), 0);
    assert_eq!(AccretionDisk::thick().corona_prob(123_456_789), 0);
}

#[test]
fn corona_prob_positive_and_falling_with_radius() {
    let d = AccretionDisk::corona();
    let mut last = d.corona_prob(600_000);
    assert!(last > 0);
    for r in [1_000_000i64, 2_000_000, 5_000_000, 20_000_000, 100_000_000] {
        let p = d.corona_prob(r);
        assert!(p > 0);
        assert!(p <= last);
        last = p;
    }
}
