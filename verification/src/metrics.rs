//! Spacetime metric models and position classification.
//!
//! Coordinates are held in a fixed-point encoding: one stored unit is a
//! millionth of a coordinate unit (`MICRO` stored units equal 1.0).  The
//! Christoffel symbols and metric tensors of these families are
//! transcendental and are evaluated by the unverified renderer; what each
//! family contributes here is its exact classification of a 4-position
//! (running, escaped past the spacetime edge, or dead inside the horizon
//! or past the time bound) and its horizon radius.
use vstd::prelude::*;

verus! {

/// Classification of a photon's 4-position: still propagating, escaped
/// past the spacetime edge, or absorbed/overflowed (terminal).
#[derive(Clone, Copy, Debug, PartialEq, Eq, Structural)]
pub enum State {
    Dead,
    Escape,
    Running,
}

/// Number of stored fixed-point units in one coordinate unit.
pub const MICRO: i64 = 1_000_000;

/// Absolute time-coordinate bound (micro-units); beyond it a trajectory
/// counts as numerical runaway and is classified `Dead`.
pub const TIME_BOUND: i64 = 1_000_000_000_000;

/// Radial coordinate (micro-units) past which a photon has escaped.
pub const SPACETIME_EDGE: i64 = 100_000_000;

/// A spacetime position `(t, r, theta, phi)` in micro-units.
#[derive(Clone, Copy, Debug, PartialEq, Eq, Structural)]
pub struct Pos4 {
    pub t: i64,
    pub r: i64,
    pub theta: i64,
    pub phi: i64,
}

/// Classification rule shared by every metric family: dead past the time
/// bound, dead strictly inside `inner`, escaped strictly past `edge`,
/// otherwise running.  Checks apply in that order.
pub open spec fn classify_spec(t: int, r: int, inner: int, edge: int) -> State {
    if vstd::math::abs(t) > TIME_BOUND {
        State::Dead
    } else if vstd::math::abs(r) < inner {
        State::Dead
    } else if vstd::math::abs(r) > edge {
        State::Escape
    } else {
        State::Running
    }
}

/// Shared executable classification; `inner` and `edge` are nonnegative
/// radii in micro-units.
pub fn classify(t: i64, r: i64, inner: i64, edge: i64) -> (s: State)
    requires
        0 <= inner,
        0 <= edge,
    ensures
        s == classify_spec(t as int, r as int, inner as int, edge as int),
{
    if t > TIME_BOUND || t < -TIME_BOUND {
        State::Dead
    } else if -inner < r && r < inner {
        State::Dead
    } else if r > edge || r < -edge {
        State::Escape
    } else {
        State::Running
    }
}

/// Flat spacetime with an optional opaque ball of radius `radius`
/// (micro-units) around the origin.
#[derive(Clone, Copy, Debug, PartialEq, Eq, Structural)]
pub struct Minkowski {
    pub radius: i64,
}

impl Minkowski {
    pub fn new(radius: i64) -> (m: Self)
        requires
            0 <= radius,
        ensures
            m.radius == radius,
    {
        Minkowski { radius }
    }
}

/// Schwarzschild black hole; the Schwarzschild radius is fixed at one
/// coordinate unit.
#[derive(Clone, Copy, Debug, PartialEq, Eq, Structural)]
pub struct Schwarzschild {
}

impl Schwarzschild {
    pub fn new() -> (m: Self) {
        Schwarzschild {  }
    }
}

/// Morris-Thorne wormhole with throat parameter `b0` (micro-units).
#[derive(Clone, Copy, Debug, PartialEq, Eq, Structural)]
pub struct MorrisThorne {
    pub b0: i64,
}

impl MorrisThorne {
    pub fn new(b0: i64) -> (m: Self)
        requires
            0 <= b0,
        ensures
            m.b0 == b0,
    {
        MorrisThorne { b0 }
    }
}

/// Kerr black hole with spin `a` in `[0, 1]` (micro-units); the outer
/// event horizon `(1 + sqrt(1 - a^2)) / 2` is precomputed on
/// construction in exact integer arithmetic.
#[derive(Clone, Copy, Debug, PartialEq, Eq, Structural)]
pub struct Kerr {
    pub a: i64,
    pub horizon: i64,
}

/// Integer square root, rounded down, by the classic base-4 digit
/// recurrence.
pub open spec fn sqrt_floor(n: nat) -> nat
    decreases n,
{
    if n == 0 {
        0
    } else {
        let r = 2 * sqrt_floor(n / 4);
        if (r + 1) * (r + 1) <= n {
            r + 1
        } else {
            r
        }
    }
}

/// `sqrt_floor` really is the rounded-down square root.
pub proof fn lemma_sqrt_floor(n: nat)
    ensures
        sqrt_floor(n) * sqrt_floor(n) <= n,
        n < (sqrt_floor(n) + 1) * (sqrt_floor(n) + 1),
    decreases n,
{
    if n == 0 {
        assert(sqrt_floor(n) * sqrt_floor(n) == 0 && (sqrt_floor(n) + 1) * (sqrt_floor(n) + 1)
            == 1) by (nonlinear_arith)
            requires
                sqrt_floor(n) == 0,
        ;
    } else {
        lemma_sqrt_floor(n / 4);
        let s = sqrt_floor(n / 4);
        let r = 2 * s;
        assert(4 * (n / 4) <= n < 4 * (n / 4) + 4);
        assert(r * r == 4 * (s * s)) by (nonlinear_arith)
            requires
                r == 2 * s,
        ;
        assert((r + 2) * (r + 2) == 4 * ((s + 1) * (s + 1))) by (nonlinear_arith)
            requires
                r == 2 * s,
        ;
        assert(r * r <= 4 * (n / 4));
        assert(4 * ((n / 4) + 1) <= 4 * ((s + 1) * (s + 1)));
        assert(r * r <= n);
        assert(n < (r + 2) * (r + 2));
        if (r + 1) * (r + 1) <= n {
            assert(sqrt_floor(n) == r + 1);
        } else {
            assert(sqrt_floor(n) == r);
        }
        assert(sqrt_floor(n) * sqrt_floor(n) <= n);
        assert(n < (sqrt_floor(n) + 1) * (sqrt_floor(n) + 1));
    }
}

/// Executable integer square root.
pub fn isqrt(n: u64) -> (r: u64)
    ensures
        r == sqrt_floor(n as nat),
    decreases n,
{
    if n == 0 {
        0
    } else {
        let s = isqrt(n / 4);
        proof {
            lemma_sqrt_floor((n / 4) as nat);
            assert(s * s <= n / 4);
            assert(s <= 0x8000_0000) by (nonlinear_arith)
                requires
                    s * s <= n / 4,
                    n <= u64::MAX,
            ;
        }
        let c: u64 = 2 * s + 1;
        if c <= 0xFFFF_FFFF {
            proof {
                assert(c * c <= u64::MAX) by (nonlinear_arith)
                    requires
                        c <= 0xFFFF_FFFFu64,
                ;
            }
            if c * c <= n {
                c
            } else {
                2 * s
            }
        } else {
            proof {
                assert((c as int) * (c as int) > u64::MAX as int) by (nonlinear_arith)
                    requires
                        c > 0xFFFF_FFFFu64,
                ;
            }
            2 * s
        }
    }
}

impl Kerr {
    pub fn new(a: i64) -> (k: Self)
        requires
            0 <= a <= MICRO,
        ensures
            k.a == a,
            k.horizon == (MICRO + sqrt_floor((MICRO * MICRO - a * a) as nat)) / 2,
            0 <= k.horizon <= MICRO,
    {
        proof {
            assert(a * a <= MICRO * MICRO) by (nonlinear_arith)
                requires
                    0 <= a <= MICRO,
            ;
        }
        let square: u64 = (MICRO * MICRO - a * a) as u64;
        let root: u64 = isqrt(square);
        proof {
            lemma_sqrt_floor(square as nat);
            assert(sqrt_floor(square as nat) <= MICRO) by (nonlinear_arith)
                requires
                    sqrt_floor(square as nat) * sqrt_floor(square as nat) <= square as nat,
                    square as nat <= (MICRO * MICRO) as nat,
            ;
        }
        Kerr { a, horizon: (MICRO + root as i64) / 2 }
    }
}

/// The closed set of metric families, dispatched as a tagged union; each
/// variant is immutable after construction and shared read-only across
/// worker threads.
#[derive(Clone, Copy, Debug, PartialEq, Eq, Structural)]
pub enum Metric {
    Minkowski(Minkowski),
    Schwarzschild(Schwarzschild),
    MorrisThorne(MorrisThorne),
    Kerr(Kerr),
}

impl Metric {
    /// Parameter ranges every constructed metric satisfies.
    pub open spec fn wf(self) -> bool {
        match self {
            Metric::Minkowski(m) => 0 <= m.radius,
            Metric::Schwarzschild(_) => true,
            Metric::MorrisThorne(m) => 0 <= m.b0,
            Metric::Kerr(k) => 0 <= k.a <= MICRO && 0 <= k.horizon <= MICRO,
        }
    }

    /// Radius (micro-units) strictly inside which a photon is absorbed.
    pub open spec fn inner_radius(self) -> int {
        match self {
            Metric::Minkowski(m) => m.radius as int,
            Metric::Schwarzschild(_) => MICRO as int,
            Metric::MorrisThorne(_) => 0,
            Metric::Kerr(k) => k.horizon as int,
        }
    }

    /// Horizon radius (micro-units) reported for adaptive step sizing.
    pub open spec fn horizon_spec(self) -> int {
        match self {
            Metric::Minkowski(_) => 0,
            Metric::Schwarzschild(_) => MICRO as int,
            Metric::MorrisThorne(m) => m.b0 as int,
            Metric::Kerr(_) => MICRO as int,
        }
    }

    /// Classify a 4-position for this metric family.
    pub fn get_state(&self, pos: Pos4) -> (s: State)
        requires
            self.wf(),
        ensures
            s == classify_spec(pos.t as int, pos.r as int, self.inner_radius(), SPACETIME_EDGE as int),
    {
        match self {
            Metric::Minkowski(m) => classify(pos.t, pos.r, m.radius, SPACETIME_EDGE),
            Metric::Schwarzschild(_) => classify(pos.t, pos.r, MICRO, SPACETIME_EDGE),
            Metric::MorrisThorne(_) => classify(pos.t, pos.r, 0, SPACETIME_EDGE),
            Metric::Kerr(k) => classify(pos.t, pos.r, k.horizon, SPACETIME_EDGE),
        }
    }

    /// Horizon radius (micro-units) used for adaptive step sizing near
    /// the horizon.
    pub fn get_horizon(&self) -> (h: i64)
        ensures
            h == self.horizon_spec(),
    {
        match self {
            Metric::Minkowski(_) => 0,
            Metric::Schwarzschild(_) => MICRO,
            Metric::MorrisThorne(m) => m.b0,
            Metric::Kerr(_) => MICRO,
        }
    }
}

} // verus!
