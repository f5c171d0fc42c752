use raytracer::metrics::{isqrt, Kerr, Metric, Minkowski, MorrisThorne, Pos4, Schwarzschild, State};

fn pos(t: i64, r: i64) -> Pos4 {
    Pos4 { t, r, theta: 1_570_796, phi: 0 }
}

#[test]
fn isqrt_small_values() {
    assert_eq!(isqrt(0), 0);
    assert_eq!(isqrt(1), 1);
    assert_eq!(isqrt(3), 1);
    assert_eq!(isqrt(4), 2);
    assert_eq!(isqrt(15), 3);
    assert_eq!(isqrt(16), 4);
    assert_eq!(isqrt(999_999), 999);
}

#[test]
fn isqrt_large_values() {
    assert_eq!(isqrt(1_000_000_000_000), 1_000_000);
    assert_eq!(isqrt(999_999_999_999), 999_999);
    assert_eq!(isqrt(360_000_000_000), 600_000);
}

#[test]
fn schwarzschild_states() {
    let m = Metric::Schwarzschild(Schwarzschild::new());
    assert_eq!(m.get_state(pos(0, 500_000)), State::Dead);
    assert_eq!(m.get_state(pos(0, 50_000_000)), State::Running);
    assert_eq!(m.get_state(pos(0, 101_000_000)), State::Escape);
    assert_eq!(m.get_state(pos(1_000_000_000_001, 50_000_000)), State::Dead);
    assert_eq!(m.get_state(pos(-1_000_000_000_001, 50_000_000)), State::Dead);
    assert_eq!(m.get_horizon(), 1_000_000);
}

#[test]
fn boundaries_are_strict() {
    let m = Metric::Schwarzschild(Schwarzschild::new());
    // Exactly on the spacetime edge: still running.
    assert_eq!(m.get_state(pos(0, 100_000_000)), State::Running);
    // Exactly on the horizon: not inside, still running.
    assert_eq!(m.get_state(pos(0, 1_000_000)), State::Running);
    // Exactly on the time bound: still running.
    assert_eq!(m.get_state(pos(1_000_000_000_000, 50_000_000)), State::Running);
}

#[test]
fn minkowski_states() {
    let free = Metric::Minkowski(Minkowski::new(0));
    assert_eq!(free.get_state(pos(0, 0)), State::Running);
    assert_eq!(free.get_state(pos(0, 10_000_000)), State::Running);
    assert_eq!(free.get_horizon(), 0);

    let ball = Metric::Minkowski(Minkowski::new(1_000_000));
    assert_eq!(ball.get_state(pos(0, 500_000)), State::Dead);
    assert_eq!(ball.get_state(pos(0, 2_000_000)), State::Running);
}

#[test]
fn morris_thorne_states() {
    let m = Metric::MorrisThorne(MorrisThorne::new(500_000));
    // The radial coordinate runs through the throat to negative values;
    // there is no horizon on either side.
    assert_eq!(m.get_state(pos(0, -5_000_000)), State::Running);
    assert_eq!(m.get_state(pos(0, 100_000)), State::Running);
    assert_eq!(m.get_state(pos(0, -101_000_000)), State::Escape);
    assert_eq!(m.get_horizon(), 500_000);
}

#[test]
fn kerr_horizon_from_spin() {
    // a = 0.8: 1 - a^2 = 0.36, sqrt = 0.6, horizon = (1 + 0.6) / 2.
    let k = Kerr::new(800_000);
    assert_eq!(k.horizon, 800_000);
    // a = 0: the Schwarzschild limit.
    assert_eq!(Kerr::new(0).horizon, 1_000_000);
    // a = 0.6: 1 - a^2 = 0.64, sqrt = 0.8, horizon = 0.9.
    assert_eq!(Kerr::new(600_000).horizon, 900_000);
    // a = 1: the extremal limit.
    assert_eq!(Kerr::new(1_000_000).horizon, 500_000);

    let m = Metric::Kerr(k);
    assert_eq!(m.get_state(pos(0, 700_000)), State::Dead);
    assert_eq!(m.get_state(pos(0, 900_000)), State::Running);
    // get_horizon reports the step-sizing radius, not the spin horizon.
    assert_eq!(m.get_horizon(), 1_000_000);
}
