//! Conversion from a commanded angle to a pulse width and a duty count.

use vstd::arithmetic::div_mod::{
    lemma_div_is_ordered, lemma_div_multiples_vanish, lemma_div_pos_is_pos,
    lemma_fundamental_div_mod, lemma_fundamental_div_mod_converse, lemma_mod_bound,
};
use vstd::arithmetic::mul::{lemma_mul_inequality, lemma_mul_is_commutative};
use vstd::prelude::*;

verus! {

/// Microseconds in one second.
pub const US_PER_SECOND: u64 = 1_000_000;

/// Thousandths of a degree in one degree.
pub const MILLIDEG_PER_DEG: i32 = 1000;

/// The pulse widths at the two ends of a servo's travel, and the travel itself.
///
/// `max_angle` is in thousandths of a degree.
#[derive(Clone, Copy, Debug, PartialEq, Eq, Structural)]
pub struct Calibration {
    pub min_pulse_us: u64,
    pub max_pulse_us: u64,
    pub max_angle: i32,
}

/// `angle` saturated into `[0, max_angle]`.
pub open spec fn clamp_angle(angle: int, max_angle: int) -> int {
    if angle < 0 {
        0
    } else if angle > max_angle {
        max_angle
    } else {
        angle
    }
}

/// `value` saturated at `limit`.
pub open spec fn saturate(value: int, limit: int) -> int {
    if value > limit {
        limit
    } else {
        value
    }
}

impl Calibration {
    /// The pulse range is not empty and the travel is positive.
    pub open spec fn wf(&self) -> bool {
        self.min_pulse_us < self.max_pulse_us && self.max_angle > 0
    }

    /// The pulse width at `angle`, in microseconds times `max_angle`: the
    /// linear interpolation between the two ends, before any division.
    pub open spec fn pulse_scaled(&self, angle: int) -> int {
        self.min_pulse_us * self.max_angle + (self.max_pulse_us - self.min_pulse_us) * angle
    }

    /// The pulse width at `angle` in whole microseconds.
    pub open spec fn pulse_at(&self, angle: int) -> int {
        self.min_pulse_us + ((self.max_pulse_us - self.min_pulse_us) * angle) / (
        self.max_angle as int)
    }

    /// The number of whole ticks of a counter running at `tick_hz` that fit
    /// in the exact pulse width at `angle`.
    pub open spec fn ticks_at(&self, angle: int, tick_hz: int) -> int {
        (self.pulse_scaled(angle) * tick_hz) / (self.max_angle * US_PER_SECOND)
    }

    /// Builds a calibration, or nothing where the pulse range is empty or the
    /// travel is not positive.
    pub fn new(min_pulse_us: u64, max_pulse_us: u64, max_angle: i32) -> (r: Option<Calibration>)
        ensures
            r.is_some() <==> (min_pulse_us < max_pulse_us && max_angle > 0),
            r.is_some() ==> r.unwrap() == (Calibration { min_pulse_us, max_pulse_us, max_angle }),
            r.is_some() ==> r.unwrap().wf(),
    {
        if min_pulse_us < max_pulse_us && max_angle > 0 {
            Some(Calibration { min_pulse_us, max_pulse_us, max_angle })
        } else {
            None
        }
    }

    /// Saturates a commanded angle into the servo's travel.
    pub fn clamp(&self, angle: i32) -> (r: i32)
        requires
            self.wf(),
        ensures
            r == clamp_angle(angle as int, self.max_angle as int),
            0 <= r <= self.max_angle,
    {
        if angle < 0 {
            0
        } else if angle > self.max_angle {
            self.max_angle
        } else {
            angle
        }
    }

    /// The pulse width, in whole microseconds, that encodes `angle` once it
    /// is saturated into the travel.
    pub fn pulse_us(&self, angle: i32) -> (r: u64)
        requires
            self.wf(),
        ensures
            r == self.pulse_at(clamp_angle(angle as int, self.max_angle as int)),
            self.min_pulse_us <= r <= self.max_pulse_us,
    {
        let a: i32 = self.clamp(angle);
        let span: u64 = self.max_pulse_us - self.min_pulse_us;
        proof {
            self.lemma_pulse_bounds(a as int);
            lemma_span_product_bound(span as int, a as int, self.max_angle as int);
        }
        let offset: u128 = (span as u128 * a as u128) / (self.max_angle as u128);
        self.min_pulse_us + offset as u64
    }

    /// The duty count for `angle`, saturated into the travel, on a counter
    /// running at `tick_hz`: the exact pulse width divided by the tick
    /// length, truncated.
    pub fn ticks(&self, angle: i32, tick_hz: u32) -> (r: u128)
        requires
            self.wf(),
        ensures
            r == self.ticks_at(clamp_angle(angle as int, self.max_angle as int), tick_hz as int),
    {
        let a: i32 = self.clamp(angle);
        let span: u64 = self.max_pulse_us - self.min_pulse_us;
        proof {
            self.lemma_scaled_bounds(a as int);
            lemma_span_product_bound(span as int, a as int, self.max_angle as int);
            lemma_product_fits(
                self.pulse_scaled(a as int),
                tick_hz as int,
                self.max_pulse_us as int,
                self.max_angle as int,
            );
            assert(0 <= self.min_pulse_us * self.max_angle) by (nonlinear_arith)
                requires
                    0 <= self.min_pulse_us,
                    0 <= self.max_angle,
            ;
            assert(0 < self.max_angle * US_PER_SECOND < 0x1_0000_0000_0000_0000) by (nonlinear_arith)
                requires
                    0 < self.max_angle < 0x8000_0000,
                    US_PER_SECOND == 1_000_000,
            ;
        }
        let scaled: u128 = self.min_pulse_us as u128 * self.max_angle as u128 + span as u128
            * a as u128;
        let denominator: u128 = self.max_angle as u128 * US_PER_SECOND as u128;
        (scaled * tick_hz as u128) / denominator
    }

    /// Within the travel the scaled pulse lies between the two ends.
    pub proof fn lemma_scaled_bounds(&self, angle: int)
        requires
            self.wf(),
            0 <= angle <= self.max_angle,
        ensures
            self.min_pulse_us * self.max_angle <= self.pulse_scaled(angle),
            self.pulse_scaled(angle) <= self.max_pulse_us * self.max_angle,
    {
        let span = self.max_pulse_us - self.min_pulse_us;
        assert(0 <= span * angle <= span * self.max_angle) by (nonlinear_arith)
            requires
                0 <= span,
                0 <= angle <= self.max_angle,
        ;
        assert(self.min_pulse_us * self.max_angle + span * self.max_angle == self.max_pulse_us
            * self.max_angle) by (nonlinear_arith)
            requires
                span == self.max_pulse_us - self.min_pulse_us,
        ;
    }

    /// Within the travel the pulse width lies between the two ends.
    pub proof fn lemma_pulse_bounds(&self, angle: int)
        requires
            self.wf(),
            0 <= angle <= self.max_angle,
        ensures
            self.min_pulse_us <= self.pulse_at(angle) <= self.max_pulse_us,
    {
        self.lemma_pulse_endpoints();
        self.lemma_pulse_monotonic(0, angle);
        self.lemma_pulse_monotonic(angle, self.max_angle as int);
    }

    /// The pulse width is exactly `min_pulse_us` at zero and exactly
    /// `max_pulse_us` at the end of the travel.
    pub proof fn lemma_pulse_endpoints(&self)
        requires
            self.wf(),
        ensures
            self.pulse_at(0) == self.min_pulse_us,
            self.pulse_at(self.max_angle as int) == self.max_pulse_us,
    {
        let span = self.max_pulse_us - self.min_pulse_us;
        let m = self.max_angle as int;
        assert(span * 0 == 0) by (nonlinear_arith);
        assert(0int / m == 0) by (nonlinear_arith)
            requires
                m > 0,
        ;
        lemma_div_multiples_vanish(span, m);
        lemma_mul_is_commutative(span, m);
    }

    /// The pulse width never decreases as the angle grows.
    pub proof fn lemma_pulse_monotonic(&self, low: int, high: int)
        requires
            self.wf(),
            0 <= low <= high <= self.max_angle,
        ensures
            self.pulse_at(low) <= self.pulse_at(high),
    {
        let span = self.max_pulse_us - self.min_pulse_us;
        lemma_mul_inequality(low, high, span);
        lemma_mul_is_commutative(low, span);
        lemma_mul_is_commutative(high, span);
        lemma_div_is_ordered(span * low, span * high, self.max_angle as int);
    }

    /// The duty count never decreases as the angle grows, whatever the tick
    /// rate.
    pub proof fn lemma_ticks_monotonic(&self, low: int, high: int, tick_hz: int)
        requires
            self.wf(),
            0 <= low <= high <= self.max_angle,
            0 <= tick_hz,
        ensures
            0 <= self.ticks_at(low, tick_hz) <= self.ticks_at(high, tick_hz),
    {
        let span = self.max_pulse_us - self.min_pulse_us;
        let d = self.max_angle * US_PER_SECOND;
        assert(0 < d) by (nonlinear_arith)
            requires
                d == self.max_angle * US_PER_SECOND,
                self.max_angle > 0,
                US_PER_SECOND > 0,
        ;
        self.lemma_scaled_bounds(low);
        assert(self.pulse_scaled(low) <= self.pulse_scaled(high)) by (nonlinear_arith)
            requires
                self.pulse_scaled(low) == self.min_pulse_us * self.max_angle + span * low,
                self.pulse_scaled(high) == self.min_pulse_us * self.max_angle + span * high,
                0 <= span,
                low <= high,
        ;
        assert(0 <= self.min_pulse_us * self.max_angle) by (nonlinear_arith)
            requires
                0 <= self.min_pulse_us,
                0 <= self.max_angle,
        ;
        lemma_mul_inequality(self.pulse_scaled(low), self.pulse_scaled(high), tick_hz);
        lemma_mul_inequality(0, self.pulse_scaled(low), tick_hz);
        lemma_div_is_ordered(
            self.pulse_scaled(low) * tick_hz,
            self.pulse_scaled(high) * tick_hz,
            d,
        );
        lemma_div_pos_is_pos(self.pulse_scaled(low) * tick_hz, d);
    }

    /// Truncation makes the duty count fall short of the exact pulse width
    /// by less than one tick, and never exceed it.
    pub proof fn lemma_ticks_undershoot(&self, angle: int, tick_hz: int)
        requires
            self.wf(),
            0 <= angle <= self.max_angle,
            0 <= tick_hz,
        ensures
            self.ticks_at(angle, tick_hz) * (self.max_angle * US_PER_SECOND) <= self.pulse_scaled(
                angle,
            ) * tick_hz,
            self.pulse_scaled(angle) * tick_hz < (self.ticks_at(angle, tick_hz) + 1) * (
            self.max_angle * US_PER_SECOND),
    {
        let d = self.max_angle * US_PER_SECOND;
        let x = self.pulse_scaled(angle) * tick_hz;
        assert(0 < d) by (nonlinear_arith)
            requires
                d == self.max_angle * US_PER_SECOND,
                self.max_angle > 0,
                US_PER_SECOND > 0,
        ;
        lemma_fundamental_div_mod(x, d);
        lemma_mod_bound(x, d);
        assert((x / d) * d <= x < (x / d + 1) * d) by (nonlinear_arith)
            requires
                x == d * (x / d) + (x % d),
                0 <= x % d < d,
        ;
    }

    /// On a counter of one tick per microsecond the duty count is the pulse
    /// width in whole microseconds.
    pub proof fn lemma_ticks_at_one_mhz(&self, angle: int)
        requires
            self.wf(),
            0 <= angle <= self.max_angle,
        ensures
            self.ticks_at(angle, US_PER_SECOND as int) == self.pulse_at(angle),
    {
        let m = self.max_angle as int;
        let span = self.max_pulse_us - self.min_pulse_us;
        let q = (span * angle) / m;
        let r = (span * angle) % m;
        lemma_fundamental_div_mod(span * angle, m);
        lemma_mod_bound(span * angle, m);
        assert(self.pulse_scaled(angle) * 1_000_000 == (self.min_pulse_us + q) * (m * 1_000_000) + r
            * 1_000_000 && 0 <= r * 1_000_000 < m * 1_000_000) by (nonlinear_arith)
            requires
                self.pulse_scaled(angle) == self.min_pulse_us * m + span * angle,
                span * angle == m * q + r,
                0 <= r < m,
        ;
        lemma_fundamental_div_mod_converse(
            self.pulse_scaled(angle) * 1_000_000,
            m * 1_000_000,
            self.min_pulse_us + q,
            r * 1_000_000,
        );
    }
}

/// A pulse span times an angle within the travel fits in 96 bits, and the
/// quotient by the travel is no more than the span.
proof fn lemma_span_product_bound(span: int, angle: int, max_angle: int)
    requires
        0 <= span < 0x1_0000_0000_0000_0000,
        0 <= angle <= max_angle,
        0 < max_angle < 0x8000_0000,
    ensures
        0 <= span * angle < 0x8000_0000_0000_0000_0000_0000,
        0 <= (span * angle) / max_angle <= span,
{
    assert(0 <= span * angle <= span * max_angle) by (nonlinear_arith)
        requires
            0 <= span,
            0 <= angle <= max_angle,
    ;
    assert(span * max_angle < 0x8000_0000_0000_0000_0000_0000) by (nonlinear_arith)
        requires
            0 <= span < 0x1_0000_0000_0000_0000,
            0 < max_angle < 0x8000_0000,
    ;
    lemma_div_pos_is_pos(span * angle, max_angle);
    lemma_div_is_ordered(span * angle, span * max_angle, max_angle);
    lemma_div_multiples_vanish(span, max_angle);
    lemma_mul_is_commutative(span, max_angle);
}

/// A scaled pulse times a 32-bit tick rate fits in 128 bits.
proof fn lemma_product_fits(scaled: int, tick_hz: int, max_pulse: int, max_angle: int)
    requires
        0 <= scaled <= max_pulse * max_angle,
        0 <= max_pulse < 0x1_0000_0000_0000_0000,
        0 < max_angle < 0x8000_0000,
        0 <= tick_hz < 0x1_0000_0000,
    ensures
        0 <= scaled * tick_hz < 0x8000_0000_0000_0000_0000_0000_0000_0000,
        scaled < 0x8000_0000_0000_0000_0000_0000,
{
    assert(max_pulse * max_angle < 0x8000_0000_0000_0000_0000_0000) by (nonlinear_arith)
        requires
            0 <= max_pulse < 0x1_0000_0000_0000_0000,
            0 < max_angle < 0x8000_0000,
    ;
    assert(0 <= scaled * tick_hz < 0x8000_0000_0000_0000_0000_0000_0000_0000) by (nonlinear_arith)
        requires
            0 <= scaled < 0x8000_0000_0000_0000_0000_0000,
            0 <= tick_hz < 0x1_0000_0000,
    ;
}

} // verus!
