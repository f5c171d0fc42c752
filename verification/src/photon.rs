//! Per-photon bookkeeping and step decisions of the geodesic integrator.
//!
//! The integrator advances a photon's floating-point 4-position and
//! 4-velocity outside this crate; every decision it takes along the way
//! is made here in exact arithmetic: whether a seed photon may be
//! dispatched at all, how far the adaptive step may reach, whether the
//! step crossed the disk plane, when the corona is probed, when the
//! 4-velocity is renormalized, how many disk samples have been recorded,
//! and when the trace stops.
use vstd::prelude::*;

verus! {

use crate::metrics::{classify_spec, Metric, Pos4, State, SPACETIME_EDGE};

/// Capacity of the per-photon ring of recorded (temperature, luminosity)
/// disk samples; the trace ends when it fills.
pub const TEMP_RECORD: usize = 8;

/// Corona scattering is probed once every this many iterations.
pub const CORONA_INTERACTION: usize = 8;

/// Far from the horizon the 4-velocity is renormalized once every this
/// many iterations; within `NEAR_HORIZON_RADIUS` it is renormalized on
/// every iteration.
pub const OFFSET_CHECK: usize = 16;

/// Radial coordinate (micro-units) below which renormalization runs on
/// every iteration.
pub const NEAR_HORIZON_RADIUS: i64 = 3_000_000;

/// The disk plane theta = pi/2 in micro-units, rounded down.
pub const HALF_PI_MICRO: i64 = 1_570_796;

/// Additive guard (micro-units) that keeps the adaptive step positive
/// right at the horizon and at the poles.
pub const STEP_EPSILON: i64 = 1_000;

/// Weight of the pole distance in the adaptive step bound.
pub const POLE_PROTECTION: i64 = 3;

/// Discrete state of one photon's trace: the originating pixel, how many
/// disk crossings have been recorded, and whether the photon has been
/// Compton-scattered into the X-ray band.  The floating-point position,
/// velocity, sample values and optical depth live with the renderer.
pub struct PhotonState {
    pub pixel_row: usize,
    pub pixel_col: usize,
    pub samples: usize,
    pub scattered: bool,
}

impl PhotonState {
    pub open spec fn wf(self) -> bool {
        self.samples <= TEMP_RECORD
    }

    pub fn new(pixel_row: usize, pixel_col: usize) -> (p: PhotonState)
        ensures
            p.pixel_row == pixel_row,
            p.pixel_col == pixel_col,
            p.samples == 0,
            !p.scattered,
            p.wf(),
    {
        PhotonState { pixel_row, pixel_col, samples: 0, scattered: false }
    }

    /// Record one disk crossing; returns whether the sample ring is now
    /// full, which ends the trace.
    pub fn record_crossing(&mut self) -> (full: bool)
        requires
            old(self).wf(),
            old(self).samples < TEMP_RECORD,
        ensures
            final(self).samples == old(self).samples + 1,
            full <==> final(self).samples == TEMP_RECORD,
            final(self).pixel_row == old(self).pixel_row,
            final(self).pixel_col == old(self).pixel_col,
            final(self).scattered == old(self).scattered,
            final(self).wf(),
    {
        self.samples = self.samples + 1;
        self.samples >= TEMP_RECORD
    }

    /// A corona scattering event: all disk samples recorded so far are
    /// discarded and the photon is marked Compton-scattered.
    pub fn scatter(&mut self)
        ensures
            final(self).samples == 0,
            final(self).scattered,
            final(self).pixel_row == old(self).pixel_row,
            final(self).pixel_col == old(self).pixel_col,
            final(self).wf(),
    {
        self.samples = 0;
        self.scattered = true;
    }

    /// Whether this iteration probes the corona: once every
    /// `CORONA_INTERACTION` iterations, and only while the photon has not
    /// scattered yet.
    pub fn corona_check_due(&self, iteration: usize) -> (due: bool)
        ensures
            due <==> iteration % CORONA_INTERACTION == 0 && !self.scattered,
    {
        iteration % CORONA_INTERACTION == 0 && !self.scattered
    }
}

/// Whether this iteration renormalizes the 4-velocity: every iteration
/// within `NEAR_HORIZON_RADIUS` of the centre, once every `OFFSET_CHECK`
/// iterations further out.
pub fn renorm_due(iteration: usize, r: i64) -> (due: bool)
    ensures
        due <==> (r > NEAR_HORIZON_RADIUS ==> iteration % OFFSET_CHECK == 0),
{
    if r > NEAR_HORIZON_RADIUS {
        iteration % OFFSET_CHECK == 0
    } else {
        true
    }
}

/// Whether a step crossed the disk plane: the side of theta = pi/2
/// changed between the two positions.
pub fn crossed_disk(theta_before: i64, theta_after: i64) -> (crossed: bool)
    ensures
        crossed <==> ((theta_before < HALF_PI_MICRO) != (theta_after < HALF_PI_MICRO)),
{
    (theta_before < HALF_PI_MICRO) != (theta_after < HALF_PI_MICRO)
}

/// The adaptive step bound (micro-units): the step shrinks both towards
/// the horizon and towards the poles, where the Christoffel symbols
/// diverge.  The renderer multiplies the base step by this value.
pub open spec fn step_scale_spec(r: int, theta: int, horizon: int) -> int {
    let pole_dist = (HALF_PI_MICRO as int) - vstd::math::abs(HALF_PI_MICRO - theta);
    vstd::math::min(r - horizon + STEP_EPSILON, POLE_PROTECTION * pole_dist + STEP_EPSILON)
}

pub fn step_scale(r: i64, theta: i64, horizon: i64) -> (scale: i64)
    requires
        -0x4000_0000_0000_0000 < r < 0x4000_0000_0000_0000,
        -0x1000_0000_0000_0000 < theta < 0x1000_0000_0000_0000,
        0 <= horizon <= 1_000_000_000_000,
    ensures
        scale == step_scale_spec(r as int, theta as int, horizon as int),
{
    let pole_gap: i64 = if theta > HALF_PI_MICRO {
        theta - HALF_PI_MICRO
    } else {
        HALF_PI_MICRO - theta
    };
    let pole_term: i64 = POLE_PROTECTION * (HALF_PI_MICRO - pole_gap) + STEP_EPSILON;
    let horizon_term: i64 = r - horizon + STEP_EPSILON;
    if horizon_term < pole_term {
        horizon_term
    } else {
        pole_term
    }
}

/// Whether the trace stops after this iteration: the position is no
/// longer classified `Running`, or the iteration budget is exhausted.
pub fn trace_stops(state: State, iteration: usize, max_iterations: usize) -> (stop: bool)
    ensures
        stop <==> !(state is Running) || iteration >= max_iterations,
{
    match state {
        State::Running => iteration >= max_iterations,
        State::Dead => true,
        State::Escape => true,
    }
}

/// Whether a seed photon's starting position is dispatchable for this
/// metric: it must not already classify as `Dead`.
pub open spec fn seed_alive(metric: Metric, p: Pos4) -> bool {
    !(classify_spec(p.t as int, p.r as int, metric.inner_radius(), SPACETIME_EDGE as int)
        is Dead)
}

/// The seeds of a batch that are dispatchable, in their original order.
pub open spec fn alive_seeds(metric: Metric, seeds: Seq<Pos4>) -> Seq<Pos4> {
    seeds.filter(|p: Pos4| seed_alive(metric, p))
}

/// Whether a seed photon may be dispatched: its starting position must
/// not already classify as `Dead` for the chosen metric.
pub fn admits(metric: &Metric, pos: Pos4) -> (ok: bool)
    requires
        metric.wf(),
    ensures
        ok == seed_alive(*metric, pos),
{
    let s = metric.get_state(pos);
    match s {
        State::Dead => false,
        State::Escape => true,
        State::Running => true,
    }
}

/// The batch-acceptance boundary: of a batch of seed positions, keep
/// exactly those that `admits` accepts, in order.  No photon whose start
/// already classifies as `Dead` is ever dispatched for stepping.
pub fn accept_batch(metric: &Metric, seeds: &Vec<Pos4>) -> (kept: Vec<Pos4>)
    requires
        metric.wf(),
    ensures
        kept@ == alive_seeds(*metric, seeds@),
        forall|k: int| 0 <= k < kept@.len() ==> seed_alive(*metric, #[trigger] kept@[k]),
{
    let mut kept: Vec<Pos4> = Vec::new();
    let mut i: usize = 0;
    proof {
        reveal(Seq::filter);
        assert(seeds@.subrange(0, 0) =~= Seq::<Pos4>::empty());
        assert(alive_seeds(*metric, seeds@.subrange(0, 0)) =~= Seq::<Pos4>::empty());
    }
    while i < seeds.len()
        invariant
            metric.wf(),
            i <= seeds@.len(),
            kept@ == alive_seeds(*metric, seeds@.subrange(0, i as int)),
            forall|k: int| 0 <= k < kept@.len() ==> seed_alive(*metric, #[trigger] kept@[k]),
        decreases seeds@.len() - i,
    {
        let p = seeds[i];
        let keep = admits(metric, p);
        proof {
            reveal(Seq::filter);
            let sub1 = seeds@.subrange(0, i + 1);
            let sub0 = seeds@.subrange(0, i as int);
            assert(sub1.drop_last() =~= sub0);
            assert(sub1.last() == seeds@[i as int]);
            if seed_alive(*metric, seeds@[i as int]) {
                assert(alive_seeds(*metric, sub1) == alive_seeds(*metric, sub0).push(
                    seeds@[i as int]));
            } else {
                assert(alive_seeds(*metric, sub1) == alive_seeds(*metric, sub0));
            }
        }
        if keep {
            kept.push(p);
        }
        i = i + 1;
    }
    proof {
        assert(seeds@.subrange(0, seeds@.len() as int) =~= seeds@);
    }
    kept
}

} // verus!
