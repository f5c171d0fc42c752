//! Accretion disk and corona source model.
//!
//! The disk's blackbody temperature, luminosity and optical depth at a
//! crossing involve square roots and exponentials and are evaluated by
//! the unverified renderer.  What is exact, and verified here, is the
//! preset parameter bundle and the corona collision probability density:
//! with the Schwarzschild radius fixed at 1, the model constants combine
//! into the closed form
//! `scale * 2.592e-5 * (1 + h/r + (h/r)^2 / 2)` with scale height
//! `h = 22.5`, which this module computes in fixed point (radius in
//! micro-units, result in pico-units) with no rounding beyond the three
//! stated integer divisions.
use vstd::prelude::*;

verus! {

use vstd::arithmetic::div_mod::{
    lemma_div_is_ordered,
    lemma_div_is_ordered_by_denominator,
    lemma_div_multiples_vanish,
    lemma_div_pos_is_pos,
};

/// Corona density scale height (22.5 coordinate units), premultiplied
/// by MICRO^2 so that dividing by a radius in micro-units yields the
/// ratio h/r in micro-units.
pub const CORONA_HEIGHT_SCALED: u64 = 22_500_000_000_000;

/// Number of pico-units in 1.0.
pub const PICO: u64 = 1_000_000_000_000;

/// The combined density prefactor (2.16e8 * mass * density scale =
/// 2.592e-5) in pico-units.
pub const CORONA_PREFACTOR_PICO: u64 = 25_920_000;

/// Immutable accretion-disk parameter bundle.  The renderer derives its
/// floating-point temperature, angular-velocity, optical-depth and
/// luminosity scales from these discrete preset switches; the corona
/// probability density is computed here exactly.
#[derive(Clone, Copy, Debug)]
pub struct AccretionDisk {
    /// 1 for the corona preset, 0 otherwise.
    pub corona_scale: u64,
    /// Whether the disk rotates (Keplerian angular velocity at the
    /// horizon); false only for the flat preset.
    pub keplerian: bool,
    /// Multiplier on the optical-depth scale; 100 for the thick preset.
    pub tau_boost: u64,
}

/// The polynomial part `1 + s + s^2/2` of the corona density, in
/// pico-units, where `s = h/r` is computed in micro-units.
pub open spec fn corona_poly_pico(r_micro: int) -> int {
    let s = (CORONA_HEIGHT_SCALED as int) / r_micro;
    PICO + s * 1_000_000 + (s * s) / 2
}

/// The corona collision probability density per unit distance, in
/// pico-units.
pub open spec fn corona_prob_spec(scale: int, r_micro: int) -> int {
    scale * (((CORONA_PREFACTOR_PICO as int) * corona_poly_pico(r_micro)) / (PICO as int))
}

impl AccretionDisk {
    pub open spec fn wf(self) -> bool {
        self.corona_scale <= 1 && (self.tau_boost == 1 || self.tau_boost == 100)
    }

    /// Rotating disk with a hot scattering corona.
    pub fn corona() -> (d: AccretionDisk)
        ensures
            d.corona_scale == 1,
            d.keplerian,
            d.tau_boost == 1,
            d.wf(),
    {
        AccretionDisk { corona_scale: 1, keplerian: true, tau_boost: 1 }
    }

    /// Non-rotating disk, no corona.
    pub fn flat() -> (d: AccretionDisk)
        ensures
            d.corona_scale == 0,
            !d.keplerian,
            d.tau_boost == 1,
            d.wf(),
    {
        AccretionDisk { corona_scale: 0, keplerian: false, tau_boost: 1 }
    }

    /// Rotating disk with a hundredfold optical depth, no corona.
    pub fn thick() -> (d: AccretionDisk)
        ensures
            d.corona_scale == 0,
            d.keplerian,
            d.tau_boost == 100,
            d.wf(),
    {
        AccretionDisk { corona_scale: 0, keplerian: true, tau_boost: 100 }
    }

    /// Rotating disk, no corona.
    pub fn thin() -> (d: AccretionDisk)
        ensures
            d.corona_scale == 0,
            d.keplerian,
            d.tau_boost == 1,
            d.wf(),
    {
        AccretionDisk { corona_scale: 0, keplerian: true, tau_boost: 1 }
    }

    /// The corona collision probability density per unit distance at
    /// radius `r_micro` (micro-units), in pico-units.
    pub fn corona_prob(&self, r_micro: i64) -> (p: u128)
        requires
            self.wf(),
            1 <= r_micro,
        ensures
            p == corona_prob_spec(self.corona_scale as int, r_micro as int),
    {
        let r: u128 = r_micro as u128;
        let s: u128 = (CORONA_HEIGHT_SCALED as u128) / r;
        proof {
            lemma_div_pos_is_pos(CORONA_HEIGHT_SCALED as int, r as int);
            lemma_div_is_ordered_by_denominator(CORONA_HEIGHT_SCALED as int, 1, r as int);
            assert(CORONA_HEIGHT_SCALED as int / 1int == CORONA_HEIGHT_SCALED as int);
            assert(s <= CORONA_HEIGHT_SCALED);
            assert(s * s <= (CORONA_HEIGHT_SCALED as int) * (CORONA_HEIGHT_SCALED as int)) by {
                vstd::arithmetic::mul::lemma_mul_upper_bound(s as int,
                    CORONA_HEIGHT_SCALED as int, s as int, CORONA_HEIGHT_SCALED as int);
            }
        }
        let poly: u128 = (PICO as u128) + s * 1_000_000 + (s * s) / 2;
        proof {
            assert(poly <= (PICO as int) + (CORONA_HEIGHT_SCALED as int) * 1_000_000 + ((
            CORONA_HEIGHT_SCALED as int) * (CORONA_HEIGHT_SCALED as int)) / 2);
            assert((CORONA_PREFACTOR_PICO as int) * (poly as int) <= (
            CORONA_PREFACTOR_PICO as int) * 300_000_000_000_000_000_000_000_000int) by (
            nonlinear_arith)
                requires
                    0 <= poly as int <= 300_000_000_000_000_000_000_000_000int,
            ;
        }
        let base: u128 = ((CORONA_PREFACTOR_PICO as u128) * poly) / (PICO as u128);
        if self.corona_scale == 0 {
            proof {
                assert(corona_prob_spec(0, r_micro as int) == 0);
            }
            0
        } else {
            proof {
                assert(self.corona_scale == 1);
                assert(corona_prob_spec(1, r_micro as int) == 1int * (((
                CORONA_PREFACTOR_PICO as int) * corona_poly_pico(r_micro as int)) / (
                PICO as int)));
            }
            base
        }
    }
}

/// Law: the corona collision probability density is strictly positive
/// at every radius for the corona preset (`scale == 1`).
pub proof fn lemma_corona_prob_positive(r_micro: int)
    requires
        1 <= r_micro,
    ensures
        corona_prob_spec(1, r_micro) > 0,
{
    let s = (CORONA_HEIGHT_SCALED as int) / r_micro;
    lemma_div_pos_is_pos(CORONA_HEIGHT_SCALED as int, r_micro);
    assert(s * s >= 0) by (nonlinear_arith)
        requires
            s >= 0,
    ;
    lemma_div_pos_is_pos(s * s, 2);
    let poly = corona_poly_pico(r_micro);
    assert(poly >= PICO);
    assert(CORONA_PREFACTOR_PICO * poly >= CORONA_PREFACTOR_PICO * (PICO as int));
    lemma_div_is_ordered(CORONA_PREFACTOR_PICO * (PICO as int), CORONA_PREFACTOR_PICO * poly,
        PICO as int);
    lemma_div_multiples_vanish(CORONA_PREFACTOR_PICO as int, PICO as int);
    assert((PICO as int) * (CORONA_PREFACTOR_PICO as int) == (CORONA_PREFACTOR_PICO as int) * (
    PICO as int)) by (nonlinear_arith);
    assert((CORONA_PREFACTOR_PICO * poly) / (PICO as int) >= CORONA_PREFACTOR_PICO);
}

/// Law: the corona collision probability density is identically zero
/// for the presets without a corona (`scale == 0`).
pub proof fn lemma_corona_prob_zero(r_micro: int)
    requires
        1 <= r_micro,
    ensures
        corona_prob_spec(0, r_micro) == 0,
{
}

/// Law: the corona collision probability density is monotonically
/// non-increasing in the radius.
pub proof fn lemma_corona_prob_antitone(scale: int, r1: int, r2: int)
    requires
        0 <= scale,
        1 <= r1 <= r2,
    ensures
        corona_prob_spec(scale, r1) >= corona_prob_spec(scale, r2),
{
    let c = CORONA_HEIGHT_SCALED as int;
    let s1 = c / r1;
    let s2 = c / r2;
    lemma_div_is_ordered_by_denominator(c, r1, r2);
    lemma_div_pos_is_pos(c, r2);
    assert(s1 * s1 >= s2 * s2) by (nonlinear_arith)
        requires
            0 <= s2 <= s1,
    ;
    lemma_div_is_ordered(s2 * s2, s1 * s1, 2);
    let poly1 = corona_poly_pico(r1);
    let poly2 = corona_poly_pico(r2);
    assert(poly1 >= poly2);
    assert(CORONA_PREFACTOR_PICO * poly1 >= CORONA_PREFACTOR_PICO * poly2);
    lemma_div_is_ordered(CORONA_PREFACTOR_PICO * poly2, CORONA_PREFACTOR_PICO * poly1,
        PICO as int);
    let base1 = (CORONA_PREFACTOR_PICO * poly1) / (PICO as int);
    let base2 = (CORONA_PREFACTOR_PICO * poly2) / (PICO as int);
    assert(scale * base1 >= scale * base2) by (nonlinear_arith)
        requires
            0 <= scale,
            base1 >= base2,
    ;
}

} // verus!
