//! Closed-form damped harmonic motion, used to animate size transitions.
//!
//! A spring converts a "set target" call plus elapsed wall-clock time into a
//! continuously evaluated position and velocity; no fixed-timestep simulator
//! runs behind it.  Values are fixed-point numbers in thousandths (see
//! [`crate::fixed`]), and every time-dependent method takes the current time
//! in milliseconds, so tests and callers control elapsed time exactly.
//!
//! The critical invariant: every setter re-samples the current position and
//! velocity from the old parameters *before* applying the new parameter and
//! resets the start time, so changing the target mid-flight never teleports
//! the body.

use vstd::prelude::*;
use crate::fixed::EXP_CUT;
use crate::fixed::FX_CAP;
use crate::fixed::lemma_decay_bounds;
use crate::fixed::lemma_decay_product_monotone;
use crate::fixed::lemma_fx_mul_monotone;
use crate::fixed::lemma_tdiv_mul_cancel;
use crate::fixed::spec_decay;
use crate::fixed::exp_neg;
use crate::fixed::cos_fx;
use crate::fixed::sin_fx;
use crate::fixed::fx_add;
use crate::fixed::fx_div;
use crate::fixed::fx_mul;
use crate::fixed::fx_sub;
use crate::fixed::isqrt_u64;
use crate::fixed::lemma_cos_zero;
use crate::fixed::lemma_exp_neg_bounds;
use crate::fixed::lemma_fx_mul_nonneg;
use crate::fixed::lemma_fx_mul_one;
use crate::fixed::lemma_fx_mul_zero;
use crate::fixed::lemma_sin_bounds;
use crate::fixed::round_div;
use crate::fixed::spec_clamp;
use crate::fixed::spec_cos;
use crate::fixed::spec_exp_neg;
use crate::fixed::spec_fx_add;
use crate::fixed::spec_fx_div;
use crate::fixed::spec_fx_mul;
use crate::fixed::spec_fx_sub;
use crate::fixed::spec_isqrt;
use crate::fixed::spec_round_div;
use crate::fixed::spec_sin;
use crate::fixed::tdiv;

verus! {

/// The magnitude bound of a spring's position, velocity and target, in milli
/// units.  Samples are clamped back into this range when stored.
pub const P_CAP: i64 = 1_000_000_000_000_000;

/// The largest damper ratio the model accepts (`100.0`).
pub const DAMPER_CAP: i64 = 100_000;

/// The largest angular rate the model accepts (`1000.0` per second).
pub const SPEED_CAP: i64 = 1_000_000;

/// A one-dimensional damped harmonic motion model.
///
/// `damper == 0` oscillates undamped, `0 < damper < 1000` oscillates with
/// decay, `damper >= 1000` (one and above) converges monotonically.
/// `speed == 0` freezes motion.  All values are fixed-point thousandths.
#[derive(Clone, Copy)]
pub struct Spring {
    /// The time (milliseconds) the current motion segment started; reset by
    /// every setter and every caching query.
    pub start_time: u64,
    /// The damper ratio, in `[0, DAMPER_CAP]`.
    pub damper: i64,
    /// The velocity last sampled, milli units per second.
    pub velocity: i64,
    /// The angular rate, in `[0, SPEED_CAP]`.
    pub speed: i64,
    /// The position the spring is pulled toward.
    pub target: i64,
    /// The position last sampled.
    pub position: i64,
}

impl Spring {
    /// Well-formedness: every field within the model's fixed-point range.
    pub open spec fn inv(self) -> bool {
        &&& -P_CAP <= self.position <= P_CAP
        &&& -P_CAP <= self.velocity <= P_CAP
        &&& -P_CAP <= self.target <= P_CAP
        &&& 0 <= self.damper <= DAMPER_CAP
        &&& 0 <= self.speed <= SPEED_CAP
    }

    /// Milliseconds elapsed since the segment started, zero if the clock ran
    /// backwards, capped at the fixed-point range bound.
    pub open spec fn spec_elapsed(self, now: u64) -> int {
        if now >= self.start_time {
            if now - self.start_time > FX_CAP as int {
                FX_CAP as int
            } else {
                now - self.start_time
            }
        } else {
            0
        }
    }

    /// The oscillation rate factor `sqrt(1 - damper^2)` of an underdamped
    /// spring, in fixed point.
    pub open spec fn spec_c(self) -> int {
        spec_isqrt((1_000_000 - self.damper * self.damper) as nat) as int
    }

    /// The closed-form solution evaluated after `x` milli seconds: the
    /// `(position, velocity)` the spring has reached.  This is the whole
    /// behaviour of the spring; every query and setter is defined over it.
    pub open spec fn spec_sample_at(self, x: int) -> (int, int) {
        let c0 = spec_fx_sub(self.position as int, self.target as int);
        if self.speed == 0 {
            (self.position as int, 0)
        } else if self.damper < 1000 {
            let sx = spec_fx_mul(self.speed as int, x);
            let c = self.spec_c();
            let c1 = spec_fx_div(
                spec_fx_add(
                    spec_fx_div(self.velocity as int, self.speed as int),
                    spec_fx_mul(self.damper as int, c0),
                ),
                c,
            );
            let arg = spec_fx_mul(c, sx);
            let co = spec_cos(arg);
            let si = spec_sin(arg);
            let en = spec_exp_neg(spec_fx_mul(self.damper as int, sx));
            let pos = spec_fx_add(
                self.target as int,
                spec_fx_mul(spec_fx_add(spec_fx_mul(c0, co), spec_fx_mul(c1, si)), en),
            );
            let vel = spec_fx_mul(
                self.speed as int,
                spec_fx_mul(
                    spec_fx_sub(
                        spec_fx_mul(spec_fx_sub(spec_fx_mul(c, c1), spec_fx_mul(self.damper as int, c0)), co),
                        spec_fx_mul(spec_fx_add(spec_fx_mul(c, c0), spec_fx_mul(self.damper as int, c1)), si),
                    ),
                    en,
                ),
            );
            (pos, vel)
        } else {
            // Critically and over-damped: the remainder `(c0 + c1 x) e^{-x}`
            // is computed fused — one product over the micro-precision decay,
            // one division — so truncation cannot break its monotone fall.
            let sx = spec_fx_mul(self.speed as int, x);
            let c1 = spec_fx_add(spec_fx_div(self.velocity as int, self.speed as int), c0);
            let d = spec_decay(sx);
            let pos = spec_fx_add(
                self.target as int,
                spec_clamp(tdiv((c0 * 1000 + c1 * sx) * d, 1_000_000_000)),
            );
            let vel = spec_clamp(
                tdiv((self.speed as int) * ((c1 - c0) * 1000 - c1 * sx) * d, 1_000_000_000_000),
            );
            (pos, vel)
        }
    }

    /// The closed-form solution evaluated at wall-clock time `now`.
    pub open spec fn spec_sample(self, now: u64) -> (int, int) {
        self.spec_sample_at(self.spec_elapsed(now))
    }

    /// A sample clamped back into the field range for storage.
    pub open spec fn spec_clamp_p(v: int) -> int {
        if v > P_CAP as int {
            P_CAP as int
        } else if v < -(P_CAP as int) {
            -(P_CAP as int)
        } else {
            v
        }
    }

    /// The spring after a caching query at `now`: position and velocity hold
    /// the sample and the segment restarts at `now`.  Every query and setter
    /// produces this state (setters override one field afterwards).  The
    /// re-based motion continues from the sampled state, and because the
    /// discretized decay does not compose exactly, it is not sample-for-sample
    /// the untouched motion: a read that must not influence the trajectory
    /// uses [`Spring::sample`] or [`Spring::arrived`] instead.
    pub open spec fn spec_sampled(self, now: u64) -> Spring {
        Spring {
            start_time: now,
            position: Self::spec_clamp_p(self.spec_sample(now).0) as i64,
            velocity: Self::spec_clamp_p(self.spec_sample(now).1) as i64,
            ..self
        }
    }

    /// Whether position and velocity both round to the target and to zero at
    /// one-decimal precision.
    pub open spec fn spec_arrived(self, now: u64) -> bool {
        &&& spec_round_div(self.spec_sample(now).0, 100) == spec_round_div(self.target as int, 100)
        &&& spec_round_div(self.spec_sample(now).1, 100) == 0
    }

    /// A spring resting at `start_position`: target equal to the position,
    /// velocity zero, damper and speed one.
    pub fn new(start_position: i64, now: u64) -> (r: Spring)
        requires
            -P_CAP <= start_position <= P_CAP,
        ensures
            r.inv(),
            r.start_time == now,
            r.position == start_position,
            r.target == start_position,
            r.velocity == 0,
            r.damper == 1000,
            r.speed == 1000,
    {
        Spring {
            start_time: now,
            position: start_position,
            damper: 1000,
            velocity: 0,
            speed: 1000,
            target: start_position,
        }
    }

    /// Evaluates the closed-form solution at `now` without mutating anything.
    pub fn sample(&self, now: u64) -> (r: (i64, i64))
        requires
            self.inv(),
        ensures
            r.0 == self.spec_sample(now).0,
            r.1 == self.spec_sample(now).1,
            -FX_CAP <= r.0 <= FX_CAP,
            -FX_CAP <= r.1 <= FX_CAP,
    {
        let x: i64 = if now >= self.start_time {
            let e: u64 = now - self.start_time;
            if e > FX_CAP as u64 {
                FX_CAP
            } else {
                e as i64
            }
        } else {
            0
        };
        proof {
            assert(x == self.spec_elapsed(now));
        }
        let c0 = fx_sub(self.position, self.target);
        if self.speed == 0 {
            (self.position, 0)
        } else if self.damper < 1000 {
            proof {
                assert(self.damper * self.damper <= 999 * 999) by (nonlinear_arith)
                    requires 0 <= self.damper <= 999;
            }
            let d2 = self.damper * self.damper;
            let cw = isqrt_u64((1_000_000 - d2) as u64);
            proof {
                if cw == 0 {
                    assert((cw + 1) * (cw + 1) == 1) by (nonlinear_arith)
                        requires cw == 0;
                    assert(false);
                }
                assert(cw * cw <= 1_000_000);
                assert(cw <= 1000) by (nonlinear_arith)
                    requires cw * cw <= 1_000_000;
            }
            let c = cw as i64;
            proof {
                assert(c == self.spec_c());
            }
            let sx = fx_mul(self.speed, x);
            proof {
                lemma_fx_mul_nonneg(self.speed as int, x as int);
                lemma_fx_mul_nonneg(c as int, sx as int);
                lemma_fx_mul_nonneg(self.damper as int, sx as int);
            }
            let c1 = fx_div(fx_add(fx_div(self.velocity, self.speed), fx_mul(self.damper, c0)), c);
            let arg = fx_mul(c, sx);
            let co = cos_fx(arg);
            let si = sin_fx(arg);
            let en = exp_neg(fx_mul(self.damper, sx));
            let pos = fx_add(
                self.target,
                fx_mul(fx_add(fx_mul(c0, co), fx_mul(c1, si)), en),
            );
            let vel = fx_mul(
                self.speed,
                fx_mul(
                    fx_sub(
                        fx_mul(fx_sub(fx_mul(c, c1), fx_mul(self.damper, c0)), co),
                        fx_mul(fx_add(fx_mul(c, c0), fx_mul(self.damper, c1)), si),
                    ),
                    en,
                ),
            );
            (pos, vel)
        } else {
            let sx = fx_mul(self.speed, x);
            let c1 = fx_add(fx_div(self.velocity, self.speed), c0);
            proof {
                lemma_fx_mul_nonneg(self.speed as int, x as int);
            }
            if sx >= EXP_CUT {
                // The decay has died out entirely: the body sits on the
                // target at rest.
                proof {
                    assert(spec_decay(sx as int) == 0);
                    assert(((c0 as int) * 1000 + (c1 as int) * (sx as int)) * 0 == 0)
                        by (nonlinear_arith);
                    assert(tdiv(0, 1_000_000_000) == 0);
                    assert(spec_clamp(0) == 0);
                    assert((self.speed as int) * (((c1 as int) - (c0 as int)) * 1000
                        - (c1 as int) * (sx as int)) * 0 == 0) by (nonlinear_arith);
                    assert(tdiv(0, 1_000_000_000_000) == 0);
                }
                let pos = fx_add(self.target, 0);
                (pos, 0)
            } else {
                let d = crate::fixed::decay_micro(sx);
                proof {
                    assert(c0 == self.position - self.target);
                    assert((c1 as int) * (sx as int) <= 15_000_000_000_000_000_000_000
                        && (c1 as int) * (sx as int) >= -15_000_000_000_000_000_000_000)
                        by (nonlinear_arith)
                        requires
                            -1_000_000_000_000_000_000 <= (c1 as int)
                                <= 1_000_000_000_000_000_000,
                            0 <= (sx as int) <= 15_000,
                    ;
                }
                let inner_p: i128 = (c0 as i128) * 1000 + (c1 as i128) * (sx as i128);
                proof {
                    assert((inner_p as int) * (d as int)
                        <= 17_000_000_000_000_000_000_000_000_000
                        && (inner_p as int) * (d as int)
                            >= -17_000_000_000_000_000_000_000_000_000) by (nonlinear_arith)
                        requires
                            -17_000_000_000_000_000_000_000 <= (inner_p as int)
                                <= 17_000_000_000_000_000_000_000,
                            0 <= (d as int) <= 1_000_000,
                    ;
                }
                let mp = crate::fixed::fxi_tdiv(inner_p * (d as i128), 1_000_000_000);
                let pos = fx_add(self.target, crate::fixed::fxi_clamp(mp));
                let inner_v: i128 = ((c1 as i128) - (c0 as i128)) * 1000
                    - (c1 as i128) * (sx as i128);
                proof {
                    assert((self.speed as int) * (inner_v as int)
                        <= 18_000_000_000_000_000_000_000_000_000
                        && (self.speed as int) * (inner_v as int)
                            >= -18_000_000_000_000_000_000_000_000_000) by (nonlinear_arith)
                        requires
                            -18_000_000_000_000_000_000_000 <= (inner_v as int)
                                <= 18_000_000_000_000_000_000_000,
                            0 <= (self.speed as int) <= 1_000_000,
                    ;
                }
                let sv: i128 = (self.speed as i128) * inner_v;
                proof {
                    assert((sv as int) * (d as int)
                        <= 18_000_000_000_000_000_000_000_000_000_000_000
                        && (sv as int) * (d as int)
                            >= -18_000_000_000_000_000_000_000_000_000_000_000)
                        by (nonlinear_arith)
                        requires
                            -18_000_000_000_000_000_000_000_000_000 <= (sv as int)
                                <= 18_000_000_000_000_000_000_000_000_000,
                            0 <= (d as int) <= 1_000_000,
                    ;
                }
                let mv = crate::fixed::fxi_tdiv(sv * (d as i128), 1_000_000_000_000);
                let vel = crate::fixed::fxi_clamp(mv);
                (pos, vel)
            }
        }
    }

    /// Clamps a sample into the storable field range.
    fn clamp_p(v: i64) -> (r: i64)
        ensures
            r == Self::spec_clamp_p(v as int),
            -P_CAP <= r <= P_CAP,
    {
        if v > P_CAP {
            P_CAP
        } else if v < -P_CAP {
            -P_CAP
        } else {
            v
        }
    }

    /// Samples at `now`, stores the result, and restarts the segment there.
    fn resample(&mut self, now: u64)
        requires
            old(self).inv(),
        ensures
            *final(self) == old(self).spec_sampled(now),
            final(self).inv(),
    {
        let (p, v) = self.sample(now);
        self.position = Self::clamp_p(p);
        self.velocity = Self::clamp_p(v);
        self.start_time = now;
    }

    /// The current position.  Caches the sample and restarts the segment, so
    /// later queries continue from here (see [`Spring::spec_sampled`] on what
    /// re-basing means for later samples); [`Spring::sample`] reads without
    /// touching the trajectory.
    pub fn position(&mut self, now: u64) -> (r: i64)
        requires
            old(self).inv(),
        ensures
            *final(self) == old(self).spec_sampled(now),
            final(self).inv(),
            r == final(self).position,
    {
        self.resample(now);
        self.position
    }

    /// The current position rounded to whole units (a plain unit count, not a
    /// fixed-point value); caches the sample like [`Spring::position`].
    pub fn position_rounded(&mut self, now: u64) -> (r: i64)
        requires
            old(self).inv(),
        ensures
            *final(self) == old(self).spec_sampled(now),
            final(self).inv(),
            r == spec_round_div(final(self).position as int, 1000),
    {
        self.resample(now);
        round_div(self.position, 1000)
    }

    /// The current velocity; caches the sample like [`Spring::position`].
    pub fn velocity(&mut self, now: u64) -> (r: i64)
        requires
            old(self).inv(),
        ensures
            *final(self) == old(self).spec_sampled(now),
            final(self).inv(),
            r == final(self).velocity,
    {
        self.resample(now);
        self.velocity
    }

    /// Whether position and velocity have come to rest on the target at
    /// one-decimal precision.
    pub fn arrived(&self, now: u64) -> (r: bool)
        requires
            self.inv(),
        ensures
            r == self.spec_arrived(now),
    {
        let (p, v) = self.sample(now);
        round_div(p, 100) == round_div(self.target, 100) && round_div(v, 100) == 0
    }

    /// Re-samples from the old parameters, then overrides the position.
    pub fn set_position(&mut self, value: i64, now: u64)
        requires
            old(self).inv(),
            -P_CAP <= value <= P_CAP,
        ensures
            *final(self) == (Spring { position: value, ..old(self).spec_sampled(now) }),
            final(self).inv(),
    {
        self.resample(now);
        self.position = value;
    }

    /// Re-samples from the old parameters, then overrides the velocity.
    pub fn set_velocity(&mut self, value: i64, now: u64)
        requires
            old(self).inv(),
            -P_CAP <= value <= P_CAP,
        ensures
            *final(self) == (Spring { velocity: value, ..old(self).spec_sampled(now) }),
            final(self).inv(),
    {
        self.resample(now);
        self.velocity = value;
    }

    /// Re-samples from the old parameters, then applies the new damper ratio.
    pub fn set_damper(&mut self, value: i64, now: u64)
        requires
            old(self).inv(),
            0 <= value <= DAMPER_CAP,
        ensures
            *final(self) == (Spring { damper: value, ..old(self).spec_sampled(now) }),
            final(self).inv(),
    {
        self.resample(now);
        self.damper = value;
    }

    /// Re-samples from the old parameters, then applies the new angular rate.
    pub fn set_speed(&mut self, value: i64, now: u64)
        requires
            old(self).inv(),
            0 <= value <= SPEED_CAP,
        ensures
            *final(self) == (Spring { speed: value, ..old(self).spec_sampled(now) }),
            final(self).inv(),
    {
        self.resample(now);
        self.speed = value;
    }

    /// Re-samples from the old parameters, then applies the new target.  The
    /// body continues smoothly from its current interpolated state.
    pub fn set_target(&mut self, value: i64, now: u64)
        requires
            old(self).inv(),
            -P_CAP <= value <= P_CAP,
        ensures
            *final(self) == (Spring { target: value, ..old(self).spec_sampled(now) }),
            final(self).inv(),
    {
        self.resample(now);
        self.target = value;
    }
}

/// At the instant a segment starts, the sampled position is exactly the
/// stored position: a query at the segment's own start time reads the stored
/// state back.
pub proof fn lemma_sample_at_start(s: Spring)
    requires
        s.inv(),
    ensures
        s.spec_sample(s.start_time).0 == s.position,
        s.spec_sampled(s.start_time).position == s.position,
{
    let c0 = spec_fx_sub(s.position as int, s.target as int);
    assert(c0 == s.position - s.target);
    assert(s.spec_elapsed(s.start_time) == 0);
    lemma_exp_neg_bounds(0);
    lemma_cos_zero();
    lemma_sin_bounds(0);
    lemma_fx_mul_zero(s.speed as int);
    lemma_fx_mul_zero(s.spec_c());
    lemma_fx_mul_zero(s.damper as int);
    if s.speed == 0 {
        assert(s.spec_sample(s.start_time).0 == s.position);
    } else if s.damper < 1000 {
        let c = s.spec_c();
        let c1 = spec_fx_div(
            spec_fx_add(
                spec_fx_div(s.velocity as int, s.speed as int),
                spec_fx_mul(s.damper as int, c0),
            ),
            c,
        );
        assert(spec_fx_mul(s.speed as int, 0) == 0);
        assert(spec_fx_mul(c, 0) == 0);
        assert(spec_cos(0) == 1000);
        assert(spec_sin(0) == 0);
        assert(spec_fx_mul(s.damper as int, 0) == 0);
        assert(spec_exp_neg(0) == 1000);
        lemma_fx_mul_zero(c1);
        lemma_fx_mul_one(c0);
        assert(spec_fx_add(spec_fx_mul(c0, 1000), spec_fx_mul(c1, 0)) == c0);
        assert(spec_fx_mul(c0, 1000) == c0);
        assert(s.spec_sample(s.start_time).0 == spec_fx_add(s.target as int, c0));
        assert(spec_fx_add(s.target as int, c0) == s.position);
    } else {
        let c1 = spec_fx_add(spec_fx_div(s.velocity as int, s.speed as int), c0);
        assert(spec_fx_mul(s.speed as int, 0) == 0);
        lemma_decay_bounds(0);
        assert(spec_decay(0) == 1_000_000);
        assert(c1 * 0 == 0) by (nonlinear_arith);
        assert((c0 * 1000 + c1 * 0) * 1_000_000 == c0 * 1_000_000_000) by (nonlinear_arith);
        lemma_tdiv_mul_cancel(c0, 1_000_000_000);
        assert(spec_clamp(c0) == c0);
        assert(s.spec_sample(s.start_time).0 == spec_fx_add(s.target as int, c0));
        assert(spec_fx_add(s.target as int, c0) == s.position);
    }
    assert(Spring::spec_clamp_p(s.position as int) == s.position);
}

/// Law: changing the target mid-flight never teleports the body.  For any
/// valid spring and any sequence ending in a position query, a `set_target`
/// call, and another position query, all at the same instant, the two queries
/// read the same position.
pub proof fn lemma_set_target_no_teleport(s: Spring, value: i64, now: u64)
    requires
        s.inv(),
        -P_CAP <= value <= P_CAP,
    ensures
        ({
            // The state after a position query at `now` ...
            let queried = s.spec_sampled(now);
            // ... then mutated by `set_target(value)` at `now` ...
            let set = (Spring { target: value, ..queried.spec_sampled(now) });
            // ... reads back exactly the position the first query returned.
            set.spec_sampled(now).position == queried.position
        }),
{
    let queried = s.spec_sampled(now);
    assert(queried.inv());
    assert(queried.start_time == now);
    lemma_sample_at_start(queried);
    let mid = queried.spec_sampled(now);
    assert(mid.position == queried.position);
    let set = (Spring { target: value, ..mid });
    assert(set.inv());
    assert(set.start_time == now);
    lemma_sample_at_start(set);
    assert(set.spec_sampled(now).position == set.position);
    assert(set.position == queried.position);
}

/// Law: a spring with damper at least one converges.  Once enough time has
/// elapsed that the decay has fully died out (`speed * elapsed` past the
/// exponential cutoff), the sampled position is exactly the target, the
/// sampled velocity is exactly zero, and `arrived` holds.
pub proof fn lemma_damped_convergence(s: Spring, now: u64)
    requires
        s.inv(),
        s.damper >= 1000,
        s.speed >= 1,
        s.spec_elapsed(now) * s.speed >= 1000 * (EXP_CUT as int),
    ensures
        s.spec_sample(now).0 == s.target,
        s.spec_sample(now).1 == 0,
        s.spec_arrived(now),
{
    let x = s.spec_elapsed(now);
    let sx = spec_fx_mul(s.speed as int, x);
    assert(s.speed * x == x * s.speed) by (nonlinear_arith);
    assert((s.speed * x) / 1000 >= 15_000) by (nonlinear_arith)
        requires s.speed * x >= 15_000_000;
    assert(s.speed * x >= 0);
    assert(tdiv(s.speed * x, 1000) == (s.speed * x) / 1000);
    assert(sx >= EXP_CUT as int);
    assert(spec_decay(sx) == 0);
    let c0 = spec_fx_sub(s.position as int, s.target as int);
    let c1 = spec_fx_add(spec_fx_div(s.velocity as int, s.speed as int), c0);
    assert((c0 * 1000 + c1 * sx) * 0 == 0) by (nonlinear_arith);
    assert((s.speed as int) * ((c1 - c0) * 1000 - c1 * sx) * 0 == 0) by (nonlinear_arith);
    assert(tdiv(0, 1_000_000_000) == 0);
    assert(tdiv(0, 1_000_000_000_000) == 0);
    assert(spec_clamp(0) == 0);
    assert(s.spec_sample(now).0 == spec_fx_add(s.target as int, 0));
    assert(spec_fx_add(s.target as int, 0) == s.target);
    assert(s.spec_sample(now).1 == 0);
    assert(spec_round_div(0, 100) == 0);
}

/// Law: motion damped at one and above is monotone and never overshoots.
/// From rest, the sampled position always lies between the starting position
/// and the target, and as elapsed time grows it only moves toward the
/// target — never back, never past either end.
pub proof fn lemma_damped_motion_bounded(s: Spring, x1: int, x2: int)
    requires
        s.inv(),
        s.damper >= 1000,
        s.speed >= 1,
        s.velocity == 0,
        0 <= x1 <= x2,
    ensures
        s.position >= s.target ==> s.target <= s.spec_sample_at(x2).0 <= s.spec_sample_at(x1).0
            <= s.position,
        s.position <= s.target ==> s.position <= s.spec_sample_at(x1).0 <= s.spec_sample_at(x2).0
            <= s.target,
{
    let c0 = spec_fx_sub(s.position as int, s.target as int);
    assert(c0 == s.position - s.target);
    // At rest, both coefficients are the displacement itself.
    assert(0 * 1000 == 0) by (nonlinear_arith);
    assert(tdiv(0, s.speed as int) == 0);
    let c1 = spec_fx_add(spec_fx_div(s.velocity as int, s.speed as int), c0);
    assert(c1 == c0);
    let sx1 = spec_fx_mul(s.speed as int, x1);
    let sx2 = spec_fx_mul(s.speed as int, x2);
    lemma_fx_mul_monotone(s.speed as int, x1, x2);
    assert(0 <= sx1 <= sx2);
    let d1 = spec_decay(sx1);
    let d2 = spec_decay(sx2);
    lemma_decay_bounds(sx1);
    lemma_decay_bounds(sx2);
    lemma_decay_product_monotone(sx1, sx2);
    // The remainder is the displacement scaled by the falling product.
    let q1 = (1000 + sx1) * d1;
    let q2 = (1000 + sx2) * d2;
    assert(0 <= q1 <= 1_000_000_000 && 0 <= q2 <= q1) by (nonlinear_arith)
        requires
            (1000 + sx1) * d1 <= 1_000_000_000,
            (1000 + sx2) * d2 <= (1000 + sx1) * d1,
            q1 == (1000 + sx1) * d1,
            q2 == (1000 + sx2) * d2,
            sx1 >= 0,
            sx2 >= 0,
            d1 >= 0,
            d2 >= 0,
    ;
    assert((c0 * 1000 + c0 * sx1) * d1 == c0 * q1) by (nonlinear_arith)
        requires q1 == (1000 + sx1) * d1;
    assert((c0 * 1000 + c0 * sx2) * d2 == c0 * q2) by (nonlinear_arith)
        requires q2 == (1000 + sx2) * d2;
    let m1 = tdiv(c0 * q1, 1_000_000_000);
    let m2 = tdiv(c0 * q2, 1_000_000_000);
    lemma_tdiv_mul_cancel(c0, 1_000_000_000);
    if c0 >= 0 {
        assert(0 <= c0 * q2 <= c0 * q1 <= c0 * 1_000_000_000) by (nonlinear_arith)
            requires c0 >= 0 && 0 <= q2 <= q1 <= 1_000_000_000;
        assert(0 <= m2 && m2 <= m1) by (nonlinear_arith)
            requires
                0 <= c0 * q2 <= c0 * q1,
                m1 == (c0 * q1) / 1_000_000_000,
                m2 == (c0 * q2) / 1_000_000_000,
        ;
        assert(m1 <= tdiv(c0 * 1_000_000_000, 1_000_000_000)) by (nonlinear_arith)
            requires
                0 <= c0 * q1 <= c0 * 1_000_000_000,
                m1 == (c0 * q1) / 1_000_000_000,
        ;
        assert(0 <= m2 <= m1 <= c0);
    } else {
        let k = -c0;
        assert(0 <= k * q2 <= k * q1 <= k * 1_000_000_000) by (nonlinear_arith)
            requires k >= 0 && 0 <= q2 <= q1 <= 1_000_000_000;
        assert(c0 * q1 == -(k * q1) && c0 * q2 == -(k * q2)
            && c0 * 1_000_000_000 == -(k * 1_000_000_000)) by (nonlinear_arith)
            requires k == -c0;
        assert(m1 == -tdiv(k * q1, 1_000_000_000) && m2 == -tdiv(k * q2, 1_000_000_000));
        assert(tdiv(k * q2, 1_000_000_000) <= tdiv(k * q1, 1_000_000_000)) by (nonlinear_arith)
            requires 0 <= k * q2 <= k * q1;
        assert(tdiv(k * q1, 1_000_000_000) <= tdiv(k * 1_000_000_000, 1_000_000_000))
            by (nonlinear_arith)
            requires 0 <= k * q1 <= k * 1_000_000_000;
        lemma_tdiv_mul_cancel(k, 1_000_000_000);
        assert(c0 <= m1 <= m2 <= 0);
    }
    assert(spec_clamp(m1) == m1 && spec_clamp(m2) == m2);
    assert(s.spec_sample_at(x1).0 == spec_fx_add(s.target as int, m1));
    assert(s.spec_sample_at(x2).0 == spec_fx_add(s.target as int, m2));
    assert(spec_fx_add(s.target as int, m1) == s.target + m1);
    assert(spec_fx_add(s.target as int, m2) == s.target + m2);
}

/// Two independent springs, one per axis, sharing the damper ratio and the
/// angular rate but with independent positions and targets.
#[derive(Clone, Copy)]
pub struct Spring2D {
    /// The horizontal axis.
    pub sx: Spring,
    /// The vertical axis.
    pub sy: Spring,
}

impl Spring2D {
    /// Well-formedness of both axes.
    pub open spec fn inv(self) -> bool {
        self.sx.inv() && self.sy.inv()
    }

    /// A pair of springs resting at `start_pos`.
    pub fn new(start_pos: (i64, i64), now: u64) -> (r: Spring2D)
        requires
            -P_CAP <= start_pos.0 <= P_CAP,
            -P_CAP <= start_pos.1 <= P_CAP,
        ensures
            r.inv(),
            r.sx.start_time == now && r.sy.start_time == now,
            r.sx.position == start_pos.0 && r.sx.target == start_pos.0,
            r.sy.position == start_pos.1 && r.sy.target == start_pos.1,
            r.sx.velocity == 0 && r.sy.velocity == 0,
            r.sx.damper == 1000 && r.sy.damper == 1000,
            r.sx.speed == 1000 && r.sy.speed == 1000,
    {
        Spring2D { sx: Spring::new(start_pos.0, now), sy: Spring::new(start_pos.1, now) }
    }

    /// The current position of both axes; caches both samples.
    pub fn position(&mut self, now: u64) -> (r: (i64, i64))
        requires
            old(self).inv(),
        ensures
            final(self).sx == old(self).sx.spec_sampled(now),
            final(self).sy == old(self).sy.spec_sampled(now),
            final(self).inv(),
            r.0 == final(self).sx.position,
            r.1 == final(self).sy.position,
    {
        (self.sx.position(now), self.sy.position(now))
    }

    /// The current position of both axes rounded to whole units.
    pub fn position_rounded(&mut self, now: u64) -> (r: (i64, i64))
        requires
            old(self).inv(),
        ensures
            final(self).sx == old(self).sx.spec_sampled(now),
            final(self).sy == old(self).sy.spec_sampled(now),
            final(self).inv(),
            r.0 == spec_round_div(final(self).sx.position as int, 1000),
            r.1 == spec_round_div(final(self).sy.position as int, 1000),
    {
        (self.sx.position_rounded(now), self.sy.position_rounded(now))
    }

    /// The current velocity of both axes; caches both samples.
    pub fn velocity(&mut self, now: u64) -> (r: (i64, i64))
        requires
            old(self).inv(),
        ensures
            final(self).sx == old(self).sx.spec_sampled(now),
            final(self).sy == old(self).sy.spec_sampled(now),
            final(self).inv(),
            r.0 == final(self).sx.velocity,
            r.1 == final(self).sy.velocity,
    {
        (self.sx.velocity(now), self.sy.velocity(now))
    }

    /// The shared damper ratio (the horizontal axis holds it).
    pub fn damper(&self) -> (r: i64)
        ensures
            r == self.sx.damper,
    {
        self.sx.damper
    }

    /// The shared angular rate.
    pub fn speed(&self) -> (r: i64)
        ensures
            r == self.sx.speed,
    {
        self.sx.speed
    }

    /// The targets of both axes.
    pub fn target(&self) -> (r: (i64, i64))
        ensures
            r.0 == self.sx.target,
            r.1 == self.sy.target,
    {
        (self.sx.target, self.sy.target)
    }

    /// Re-samples both axes, then overrides their positions.
    pub fn set_position(&mut self, value: (i64, i64), now: u64)
        requires
            old(self).inv(),
            -P_CAP <= value.0 <= P_CAP,
            -P_CAP <= value.1 <= P_CAP,
        ensures
            final(self).sx == (Spring { position: value.0, ..old(self).sx.spec_sampled(now) }),
            final(self).sy == (Spring { position: value.1, ..old(self).sy.spec_sampled(now) }),
            final(self).inv(),
    {
        self.sx.set_position(value.0, now);
        self.sy.set_position(value.1, now);
    }

    /// Re-samples both axes, then overrides their velocities.
    pub fn set_velocity(&mut self, value: (i64, i64), now: u64)
        requires
            old(self).inv(),
            -P_CAP <= value.0 <= P_CAP,
            -P_CAP <= value.1 <= P_CAP,
        ensures
            final(self).sx == (Spring { velocity: value.0, ..old(self).sx.spec_sampled(now) }),
            final(self).sy == (Spring { velocity: value.1, ..old(self).sy.spec_sampled(now) }),
            final(self).inv(),
    {
        self.sx.set_velocity(value.0, now);
        self.sy.set_velocity(value.1, now);
    }

    /// Applies one damper ratio to both axes, re-sampling each first.
    pub fn set_damper(&mut self, value: i64, now: u64)
        requires
            old(self).inv(),
            0 <= value <= DAMPER_CAP,
        ensures
            final(self).sx == (Spring { damper: value, ..old(self).sx.spec_sampled(now) }),
            final(self).sy == (Spring { damper: value, ..old(self).sy.spec_sampled(now) }),
            final(self).inv(),
    {
        self.sx.set_damper(value, now);
        self.sy.set_damper(value, now);
    }

    /// Applies one angular rate to both axes, re-sampling each first.
    pub fn set_speed(&mut self, value: i64, now: u64)
        requires
            old(self).inv(),
            0 <= value <= SPEED_CAP,
        ensures
            final(self).sx == (Spring { speed: value, ..old(self).sx.spec_sampled(now) }),
            final(self).sy == (Spring { speed: value, ..old(self).sy.spec_sampled(now) }),
            final(self).inv(),
    {
        self.sx.set_speed(value, now);
        self.sy.set_speed(value, now);
    }

    /// Sets a target per axis, re-sampling each first so neither axis
    /// teleports.
    pub fn set_target(&mut self, value: (i64, i64), now: u64)
        requires
            old(self).inv(),
            -P_CAP <= value.0 <= P_CAP,
            -P_CAP <= value.1 <= P_CAP,
        ensures
            final(self).sx == (Spring { target: value.0, ..old(self).sx.spec_sampled(now) }),
            final(self).sy == (Spring { target: value.1, ..old(self).sy.spec_sampled(now) }),
            final(self).inv(),
    {
        self.sx.set_target(value.0, now);
        self.sy.set_target(value.1, now);
    }

    /// Whether both axes have come to rest on their targets.
    pub fn arrived(&self, now: u64) -> (r: bool)
        requires
            self.inv(),
        ensures
            r == (self.sx.spec_arrived(now) && self.sy.spec_arrived(now)),
    {
        self.sx.arrived(now) && self.sy.arrived(now)
    }
}

} // verus!
