//! A servo driven by the software-sequenced generator, whose tick is one
//! cycle of the system clock.

use crate::clock::system_clock_hz;
use crate::motion::SmoothMotion;
use crate::pulse::{clamp_angle, saturate, Calibration};
use vstd::prelude::*;

verus! {

/// Pulse width at zero degrees of the usual software-sequenced servo, in
/// microseconds.
pub const STD_MIN_US: u64 = 190;

/// Pulse width at full travel of the usual software-sequenced servo, in
/// microseconds.
pub const STD_MAX_US: u64 = 870;

/// Travel of the usual servo: 180 degrees, in thousandths of a degree.
pub const STD_MAX_ANGLE: i32 = 180_000;

/// Length of one output frame, in milliseconds: fifty frames a second.
pub const FRAME_PERIOD_MS: u64 = 20;

/// The level pushed to the generator for `angle` at a system clock of
/// `sys_hz`: the duty count in clock cycles, saturated at 32 bits.
pub open spec fn pio_level(cal: Calibration, angle: int, sys_hz: int) -> int {
    saturate(cal.ticks_at(angle, sys_hz), u32::MAX as int)
}

/// Calibration and state of one software-sequenced servo.
#[derive(Clone, Copy, Debug, PartialEq, Eq, Structural)]
pub struct ServoFromPIO {
    cal: Calibration,
    angle: i32,
    running: bool,
}

impl ServoFromPIO {
    /// The servo's calibration.
    pub closed spec fn spec_calibration(&self) -> Calibration {
        self.cal
    }

    /// The last commanded angle.
    pub closed spec fn spec_get_angle(&self) -> i32 {
        self.angle
    }

    /// Whether waveform generation has been started.
    pub closed spec fn spec_is_running(&self) -> bool {
        self.running
    }

    /// The calibration is well formed and the commanded angle lies within
    /// the travel.
    pub open spec fn wf(&self) -> bool {
        &&& self.spec_calibration().wf()
        &&& 0 <= self.spec_get_angle() <= self.spec_calibration().max_angle
    }

    /// Creates a servo that has not been started, holding `angle` saturated
    /// into its travel.
    pub fn new(min_us: u64, max_us: u64, max_angle: i32, angle: i32) -> (s: ServoFromPIO)
        requires
            min_us < max_us,
            max_angle > 0,
        ensures
            s.wf(),
            s.spec_calibration() == (Calibration {
                min_pulse_us: min_us,
                max_pulse_us: max_us,
                max_angle,
            }),
            s.spec_get_angle() == clamp_angle(angle as int, max_angle as int),
            !s.spec_is_running(),
    {
        let cal = Calibration { min_pulse_us: min_us, max_pulse_us: max_us, max_angle };
        ServoFromPIO { cal, angle: cal.clamp(angle), running: false }
    }

    /// Creates the usual 180 degree servo, at zero and not started.
    pub fn new_standard_180() -> (s: ServoFromPIO)
        ensures
            s.wf(),
            s.spec_calibration() == (Calibration {
                min_pulse_us: STD_MIN_US,
                max_pulse_us: STD_MAX_US,
                max_angle: STD_MAX_ANGLE,
            }),
            s.spec_get_angle() == 0,
            !s.spec_is_running(),
    {
        ServoFromPIO::new(STD_MIN_US, STD_MAX_US, STD_MAX_ANGLE, 0)
    }

    /// Marks the servo as running and returns the frame period, in
    /// milliseconds, that the generator is to be set to before it is
    /// enabled.
    pub fn start(&mut self) -> (period_ms: u64)
        ensures
            period_ms == FRAME_PERIOD_MS,
            final(self).spec_is_running(),
            final(self).spec_calibration() == old(self).spec_calibration(),
            final(self).spec_get_angle() == old(self).spec_get_angle(),
    {
        self.running = true;
        FRAME_PERIOD_MS
    }

    /// Commands `angle_deg` with the system clock running at `sys_hz`: stores
    /// the angle saturated into the travel and returns the level to push.
    pub fn write_at(&mut self, angle_deg: i32, sys_hz: u32) -> (level: u32)
        requires
            old(self).wf(),
        ensures
            final(self).wf(),
            final(self).spec_calibration() == old(self).spec_calibration(),
            final(self).spec_is_running() == old(self).spec_is_running(),
            final(self).spec_get_angle() == clamp_angle(
                angle_deg as int,
                old(self).spec_calibration().max_angle as int,
            ),
            level == pio_level(
                old(self).spec_calibration(),
                final(self).spec_get_angle() as int,
                sys_hz as int,
            ),
    {
        self.angle = self.cal.clamp(angle_deg);
        let ticks: u128 = self.cal.ticks(angle_deg, sys_hz);
        if ticks > u32::MAX as u128 {
            u32::MAX
        } else {
            ticks as u32
        }
    }

    /// Commands `angle_deg` at whatever frequency the system clock runs at
    /// now: stores the angle saturated into the travel and returns the level
    /// to push.
    pub fn write(&mut self, angle_deg: i32) -> (level: u32)
        requires
            old(self).wf(),
        ensures
            final(self).wf(),
            final(self).spec_calibration() == old(self).spec_calibration(),
            final(self).spec_is_running() == old(self).spec_is_running(),
            final(self).spec_get_angle() == clamp_angle(
                angle_deg as int,
                old(self).spec_calibration().max_angle as int,
            ),
            exists|sys_hz: u32|
                level == #[trigger] pio_level(
                    old(self).spec_calibration(),
                    final(self).spec_get_angle() as int,
                    sys_hz as int,
                ),
    {
        let sys_hz: u32 = system_clock_hz();
        self.write_at(angle_deg, sys_hz)
    }

    /// Plans a rate-limited move from the commanded angle to `target_angle`.
    /// The caller writes each angle that the plan hands out.
    pub fn write_smooth(&self, target_angle: i32) -> (m: SmoothMotion)
        ensures
            m.wf(),
            m.start() == self.spec_get_angle(),
            m.target() == target_angle,
            m.issued() == 0,
    {
        SmoothMotion::new(self.angle, target_angle)
    }

    /// Commands zero degrees.
    pub fn to_min(&mut self) -> (level: u32)
        requires
            old(self).wf(),
        ensures
            final(self).wf(),
            final(self).spec_calibration() == old(self).spec_calibration(),
            final(self).spec_is_running() == old(self).spec_is_running(),
            final(self).spec_get_angle() == 0,
            exists|sys_hz: u32|
                level == #[trigger] pio_level(old(self).spec_calibration(), 0, sys_hz as int),
    {
        self.write(0)
    }

    /// Commands half the travel.
    pub fn center(&mut self) -> (level: u32)
        requires
            old(self).wf(),
        ensures
            final(self).wf(),
            final(self).spec_calibration() == old(self).spec_calibration(),
            final(self).spec_is_running() == old(self).spec_is_running(),
            final(self).spec_get_angle() == old(self).spec_calibration().max_angle / 2,
            exists|sys_hz: u32|
                level == #[trigger] pio_level(
                    old(self).spec_calibration(),
                    old(self).spec_calibration().max_angle as int / 2,
                    sys_hz as int,
                ),
    {
        self.write(self.cal.max_angle / 2)
    }

    /// Commands the full travel.
    pub fn to_max(&mut self) -> (level: u32)
        requires
            old(self).wf(),
        ensures
            final(self).wf(),
            final(self).spec_calibration() == old(self).spec_calibration(),
            final(self).spec_is_running() == old(self).spec_is_running(),
            final(self).spec_get_angle() == old(self).spec_calibration().max_angle,
            exists|sys_hz: u32|
                level == #[trigger] pio_level(
                    old(self).spec_calibration(),
                    old(self).spec_calibration().max_angle as int,
                    sys_hz as int,
                ),
    {
        self.write(self.cal.max_angle)
    }

    /// The last commanded angle, saturated into the travel.
    #[verifier::when_used_as_spec(spec_get_angle)]
    pub fn get_angle(&self) -> (a: i32)
        ensures
            a == self.spec_get_angle(),
    {
        self.angle
    }

    /// The servo's calibration.
    #[verifier::when_used_as_spec(spec_calibration)]
    pub fn calibration(&self) -> (c: Calibration)
        ensures
            c == self.spec_calibration(),
    {
        self.cal
    }

    /// Whether waveform generation has been started.
    #[verifier::when_used_as_spec(spec_is_running)]
    pub fn is_running(&self) -> (r: bool)
        ensures
            r == self.spec_is_running(),
    {
        self.running
    }
}

} // verus!
