//! A servo driven by a hardware counter channel, whose tick rate is fixed by
//! the divider the timer was configured with.

use crate::motion::SmoothMotion;
use crate::pulse::{clamp_angle, saturate, Calibration};
use vstd::prelude::*;

verus! {

/// Pulse width at zero degrees of the usual hardware-counter servo, in
/// microseconds.
pub const PWM_STD_MIN_US: u64 = 570;

/// Pulse width at full travel of the usual hardware-counter servo, in
/// microseconds.
pub const PWM_STD_MAX_US: u64 = 2620;

/// Travel of the usual servo: 180 degrees, in thousandths of a degree.
pub const PWM_STD_MAX_ANGLE: i32 = 180_000;

/// The divider the timers are configured with.
pub const PWM_DIVIDER: u8 = 64;

/// The counter's wrap value: with the divider, fifty frames a second.
pub const PWM_TOP: u16 = 39062;

/// Ticks per second of a counter behind the divider: a 125 MHz system clock
/// divided by 64, or 1.953125 ticks per microsecond.
pub const PWM_TICK_HZ: u32 = 1_953_125;

/// The compare value set on the channel for `angle` at a counter rate of
/// `tick_hz`: the duty count in counter ticks, saturated at 16 bits.
pub open spec fn pwm_compare(cal: Calibration, angle: int, tick_hz: int) -> int {
    saturate(cal.ticks_at(angle, tick_hz), u16::MAX as int)
}

/// Calibration and state of one hardware-counter servo.
#[derive(Clone, Copy, Debug, PartialEq, Eq, Structural)]
pub struct ServoFromPWM {
    cal: Calibration,
    angle: i32,
    tick_hz: u32,
}

impl ServoFromPWM {
    /// The servo's calibration.
    pub closed spec fn spec_calibration(&self) -> Calibration {
        self.cal
    }

    /// The last commanded angle.
    pub closed spec fn spec_get_angle(&self) -> i32 {
        self.angle
    }

    /// Ticks per second of the counter, fixed when the servo was created.
    pub closed spec fn spec_tick_hz(&self) -> u32 {
        self.tick_hz
    }

    /// The calibration is well formed and the commanded angle lies within
    /// the travel.
    pub open spec fn wf(&self) -> bool {
        &&& self.spec_calibration().wf()
        &&& 0 <= self.spec_get_angle() <= self.spec_calibration().max_angle
    }

    /// Creates a servo at zero degrees on a counter running at `PWM_TICK_HZ`.
    pub fn new(min_us: u64, max_us: u64, max_angle: i32) -> (s: ServoFromPWM)
        requires
            min_us < max_us,
            max_angle > 0,
        ensures
            s.wf(),
            s.spec_calibration() == (Calibration {
                min_pulse_us: min_us,
                max_pulse_us: max_us,
                max_angle,
            }),
            s.spec_get_angle() == 0,
            s.spec_tick_hz() == PWM_TICK_HZ,
    {
        let cal = Calibration { min_pulse_us: min_us, max_pulse_us: max_us, max_angle };
        ServoFromPWM { cal, angle: 0, tick_hz: PWM_TICK_HZ }
    }

    /// Creates the usual 180 degree servo, at zero.
    pub fn new_standard_180() -> (s: ServoFromPWM)
        ensures
            s.wf(),
            s.spec_calibration() == (Calibration {
                min_pulse_us: PWM_STD_MIN_US,
                max_pulse_us: PWM_STD_MAX_US,
                max_angle: PWM_STD_MAX_ANGLE,
            }),
            s.spec_get_angle() == 0,
            s.spec_tick_hz() == PWM_TICK_HZ,
    {
        ServoFromPWM::new(PWM_STD_MIN_US, PWM_STD_MAX_US, PWM_STD_MAX_ANGLE)
    }

    /// Commands `angle_deg`: stores the angle saturated into the travel and
    /// returns the compare value to set on the channel.
    pub fn write(&mut self, angle_deg: i32) -> (compare: u16)
        requires
            old(self).wf(),
        ensures
            final(self).wf(),
            final(self).spec_calibration() == old(self).spec_calibration(),
            final(self).spec_tick_hz() == old(self).spec_tick_hz(),
            final(self).spec_get_angle() == clamp_angle(
                angle_deg as int,
                old(self).spec_calibration().max_angle as int,
            ),
            compare == pwm_compare(
                old(self).spec_calibration(),
                final(self).spec_get_angle() as int,
                old(self).spec_tick_hz() as int,
            ),
    {
        self.angle = self.cal.clamp(angle_deg);
        let ticks: u128 = self.cal.ticks(angle_deg, self.tick_hz);
        if ticks > u16::MAX as u128 {
            u16::MAX
        } else {
            ticks as u16
        }
    }

    /// Plans a rate-limited move from the commanded angle to `target_angle`.
    /// The caller writes each angle that the plan hands out.
    pub fn write_smooth(&self, target_angle: i32) -> (m: SmoothMotion)
        ensures
            m.wf(),
            m.start() == self.spec_get_angle(),
            m.target() == target_angle,
            m.issued() == 0,
    {
        SmoothMotion::new(self.angle, target_angle)
    }

    /// Commands zero degrees.
    pub fn to_min(&mut self) -> (compare: u16)
        requires
            old(self).wf(),
        ensures
            final(self).wf(),
            final(self).spec_calibration() == old(self).spec_calibration(),
            final(self).spec_tick_hz() == old(self).spec_tick_hz(),
            final(self).spec_get_angle() == 0,
            compare == pwm_compare(
                old(self).spec_calibration(),
                0,
                old(self).spec_tick_hz() as int,
            ),
    {
        self.write(0)
    }

    /// Commands half the travel.
    pub fn center(&mut self) -> (compare: u16)
        requires
            old(self).wf(),
        ensures
            final(self).wf(),
            final(self).spec_calibration() == old(self).spec_calibration(),
            final(self).spec_tick_hz() == old(self).spec_tick_hz(),
            final(self).spec_get_angle() == old(self).spec_calibration().max_angle / 2,
            compare == pwm_compare(
                old(self).spec_calibration(),
                old(self).spec_calibration().max_angle as int / 2,
                old(self).spec_tick_hz() as int,
            ),
    {
        self.write(self.cal.max_angle / 2)
    }

    /// Commands the full travel.
    pub fn to_max(&mut self) -> (compare: u16)
        requires
            old(self).wf(),
        ensures
            final(self).wf(),
            final(self).spec_calibration() == old(self).spec_calibration(),
            final(self).spec_tick_hz() == old(self).spec_tick_hz(),
            final(self).spec_get_angle() == old(self).spec_calibration().max_angle,
            compare == pwm_compare(
                old(self).spec_calibration(),
                old(self).spec_calibration().max_angle as int,
                old(self).spec_tick_hz() as int,
            ),
    {
        self.write(self.cal.max_angle)
    }

    /// The last commanded angle, saturated into the travel.
    #[verifier::when_used_as_spec(spec_get_angle)]
    pub fn get_angle(&self) -> (a: i32)
        ensures
            a == self.spec_get_angle(),
    {
        self.angle
    }

    /// The servo's calibration.
    #[verifier::when_used_as_spec(spec_calibration)]
    pub fn calibration(&self) -> (c: Calibration)
        ensures
            c == self.spec_calibration(),
    {
        self.cal
    }

    /// Ticks per second of the counter.
    #[verifier::when_used_as_spec(spec_tick_hz)]
    pub fn tick_hz(&self) -> (hz: u32)
        ensures
            hz == self.spec_tick_hz(),
    {
        self.tick_hz
    }
}

} // verus!
