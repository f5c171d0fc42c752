//! Reduced metric families for flat two-dimensional slices.
//!
//! These are the planar (theta frozen) counterparts of the full metric
//! families, used by the line-and-plane views: the Schwarzschild radius
//! is 0.2 coordinate units and the spacetime edge sits at 20.  Their
//! Christoffel symbols and metric tensors are evaluated by the
//! unverified renderer; classification is exact and verified here.
use vstd::prelude::*;

verus! {

use crate::metrics::{classify, classify_spec, isqrt, sqrt_floor, State};

/// Schwarzschild radius of the slice families, in micro-units (0.2).
pub const SLICE_RS: i64 = 200_000;

/// Spacetime edge of the slice families, in micro-units (20).
pub const SLICE_EDGE: i64 = 20_000_000;

/// Flat slice: no horizon, edge at 20.
#[derive(Clone, Copy, Debug, PartialEq, Eq, Structural)]
pub struct Minkowski3 {
}

impl Minkowski3 {
    pub fn new() -> (m: Self) {
        Minkowski3 {  }
    }

    /// Classify a position: dead past the time bound, escaped past the
    /// slice edge, otherwise running.
    pub fn get_state(&self, t: i64, r: i64) -> (s: State)
        ensures
            s == classify_spec(t as int, r as int, 0, SLICE_EDGE as int),
    {
        classify(t, r, 0, SLICE_EDGE)
    }
}

/// Schwarzschild slice: horizon at `SLICE_RS`, edge at 20.
#[derive(Clone, Copy, Debug, PartialEq, Eq, Structural)]
pub struct Schwarzschild3 {
}

impl Schwarzschild3 {
    pub fn new() -> (m: Self) {
        Schwarzschild3 {  }
    }

    /// Classify a position: dead past the time bound or inside the
    /// slice's Schwarzschild radius, escaped past the slice edge,
    /// otherwise running.
    pub fn get_state(&self, t: i64, r: i64) -> (s: State)
        ensures
            s == classify_spec(t as int, r as int, SLICE_RS as int, SLICE_EDGE as int),
    {
        classify(t, r, SLICE_RS, SLICE_EDGE)
    }
}

/// Number of photons a line view traces: one per radial pixel out to
/// the image's half-diagonal, plus two guard slots for interpolation.
pub fn line_view_length(width: u32, height: u32) -> (n: u64)
    requires
        width * width + height * height <= u32::MAX,
    ensures
        n == sqrt_floor((width * width + height * height) as nat) / 2 + 2,
{
    let w: u64 = width as u64;
    let h: u64 = height as u64;
    isqrt(w * w + h * h) / 2 + 2
}

/// Whether a whole slice of photons has finished: true exactly when no
/// photon in it is still classified `Running`.
pub fn batch_finished(states: &Vec<State>) -> (done: bool)
    ensures
        done <==> forall|i: int| 0 <= i < states@.len() ==> !((#[trigger] states@[i]) is Running),
{
    let mut i: usize = 0;
    while i < states.len()
        invariant
            i <= states@.len(),
            forall|j: int| 0 <= j < i ==> !((#[trigger] states@[j]) is Running),
        decreases states@.len() - i,
    {
        let running = match states[i] {
            State::Running => true,
            State::Dead => false,
            State::Escape => false,
        };
        if running {
            return false;
        }
        i = i + 1;
    }
    true
}

} // verus!
