use raytracer::metrics::{Metric, Pos4, Schwarzschild, State};
use raytracer::photon::{
    accept_batch, admits, crossed_disk, renorm_due, step_scale, trace_stops, PhotonState,
    HALF_PI_MICRO, TEMP_RECORD,
};

fn pos(t: i64, r: i64) -> Pos4 {
    Pos4 { t, r, theta: 1_000_000, phi: 0 }
}

#[test]
fn sample_ring_fills_at_capacity() {
    let mut p = PhotonState::new(3, 7);
    assert_eq!(p.pixel_row, 3);
    assert_eq!(p.pixel_col, 7);
    assert_eq!(p.samples, 0);
    assert!(!p.scattered);
    for i in 1..TEMP_RECORD {
        assert!(!p.record_crossing());
        assert_eq!(p.samples, i);
    }
    assert!(p.record_crossing());
    assert_eq!(p.samples, TEMP_RECORD);
}

#[test]
fn scattering_discards_samples() {
    let mut p = PhotonState::new(0, 0);
    p.record_crossing();
    p.record_crossing();
    assert_eq!(p.samples, 2);
    p.scatter();
    assert_eq!(p.samples, 0);
    assert!(p.scattered);
}

#[test]
fn corona_checks_every_eighth_iteration() {
    let p = PhotonState::new(0, 0);
    assert!(p.corona_check_due(0));
    assert!(!p.corona_check_due(4));
    assert!(p.corona_check_due(8));
    assert!(p.corona_check_due(16));
    let mut s = PhotonState::new(0, 0);
    s.scatter();
    assert!(!s.corona_check_due(8));
}

#[test]
fn renormalization_cadence() {
    // Far out: every sixteenth iteration.
    assert!(renorm_due(0, 4_000_000));
    assert!(!renorm_due(8, 4_000_000));
    assert!(renorm_due(16, 4_000_000));
    // Near the horizon: every iteration.
    assert!(renorm_due(7, 2_000_000));
    assert!(renorm_due(8, 2_000_000));
}

#[test]
fn disk_crossing_detection() {
    assert!(crossed_disk(HALF_PI_MICRO - 1_000, HALF_PI_MICRO + 1_000));
    assert!(crossed_disk(HALF_PI_MICRO + 1_000, HALF_PI_MICRO - 1_000));
    assert!(!crossed_disk(HALF_PI_MICRO - 2_000, HALF_PI_MICRO - 1_000));
    assert!(!crossed_disk(HALF_PI_MICRO + 2_000, HALF_PI_MICRO + 1_000));
}

#[test]
fn step_scale_shrinks_at_horizon_and_pole() {
    // On the equator, two units from a unit horizon: the horizon term wins.
    assert_eq!(step_scale(2_000_000, HALF_PI_MICRO, 1_000_000), 1_001_000);
    // At the pole the step collapses to the epsilon guard.
    assert_eq!(step_scale(2_000_000, 0, 1_000_000), 1_000);
    // Far from both: the pole term wins.
    assert_eq!(
        step_scale(50_000_000, HALF_PI_MICRO, 1_000_000),
        3 * HALF_PI_MICRO + 1_000
    );
}

#[test]
fn trace_stop_conditions() {
    assert!(!trace_stops(State::Running, 10, 100));
    assert!(trace_stops(State::Running, 100, 100));
    assert!(trace_stops(State::Dead, 0, 100));
    assert!(trace_stops(State::Escape, 0, 100));
}

#[test]
fn dead_seeds_are_never_dispatched() {
    let m = Metric::Schwarzschild(Schwarzschild::new());
    let inside = pos(0, 500_000);
    let outside = pos(0, 10_000_000);
    let escaped = pos(0, 200_000_000);
    let overflowed = pos(2_000_000_000_000, 10_000_000);
    assert!(!admits(&m, inside));
    assert!(admits(&m, outside));
    assert!(admits(&m, escaped));
    assert!(!admits(&m, overflowed));

    let seeds = vec![inside, outside, escaped, overflowed, outside];
    let kept = accept_batch(&m, &seeds);
    assert_eq!(kept.len(), 3);
    assert_eq!(kept[0].r, outside.r);
    assert_eq!(kept[1].r, escaped.r);
    assert_eq!(kept[2].r, outside.r);
}
