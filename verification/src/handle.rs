//! One control surface over both kinds of servo.

use crate::motion::{planned_angle, step_count, SmoothMotion, SmoothStep};
use crate::pio_servo::{pio_level, ServoFromPIO};
use crate::pulse::{clamp_angle, Calibration};
use crate::pwm_servo::{pwm_compare, ServoFromPWM};
use vstd::prelude::*;

verus! {

/// The duty value a command produced, by the kind of generator it is for.
#[derive(Clone, Copy, Debug, PartialEq, Eq, Structural)]
pub enum Duty {
    /// A level, in system clock cycles, for the software-sequenced generator.
    Level(u32),
    /// A compare value, in counter ticks, for a hardware counter channel.
    Compare(u16),
}

/// Where a command sends a servo.
#[derive(Clone, Copy, Debug, PartialEq, Eq, Structural)]
pub enum Position {
    /// Zero degrees.
    Min,
    /// Half the travel.
    Center,
    /// The full travel.
    Max,
    /// An angle in thousandths of a degree, saturated into the travel.
    Angle(i32),
}

impl Position {
    /// The angle this position means on a servo whose travel is `max_angle`.
    pub open spec fn angle_on(&self, max_angle: int) -> int {
        match *self {
            Position::Min => 0,
            Position::Center => max_angle / 2,
            Position::Max => max_angle,
            Position::Angle(a) => clamp_angle(a as int, max_angle),
        }
    }
}

/// What the caller does next in a smooth move of a servo.
#[derive(Clone, Copy, Debug, PartialEq, Eq, Structural)]
pub enum SmoothAction {
    /// Hand `duty` to the generator, then suspend for one step delay if
    /// `suspend` is set.
    Push { duty: Duty, suspend: bool },
    /// The move is complete.
    Done,
}

/// A servo of either kind.
#[derive(Clone, Copy, Debug, PartialEq, Eq, Structural)]
pub enum ServoType {
    /// A servo on the software-sequenced generator.
    PIO(ServoFromPIO),
    /// A servo on a hardware counter channel.
    PWM(ServoFromPWM),
}

impl ServoType {
    /// The servo's calibration.
    pub open spec fn spec_calibration(&self) -> Calibration {
        match *self {
            ServoType::PIO(s) => s.spec_calibration(),
            ServoType::PWM(s) => s.spec_calibration(),
        }
    }

    /// The last commanded angle.
    pub open spec fn spec_get_angle(&self) -> i32 {
        match *self {
            ServoType::PIO(s) => s.spec_get_angle(),
            ServoType::PWM(s) => s.spec_get_angle(),
        }
    }

    /// The wrapped servo is well formed.
    pub open spec fn wf(&self) -> bool {
        match *self {
            ServoType::PIO(s) => s.wf(),
            ServoType::PWM(s) => s.wf(),
        }
    }

    /// `other` is this servo at some commanded angle: the same kind, with the
    /// same calibration and the same generator settings.
    pub open spec fn same_servo(&self, other: ServoType) -> bool {
        match (*self, other) {
            (ServoType::PIO(a), ServoType::PIO(b)) => {
                &&& a.spec_calibration() == b.spec_calibration()
                &&& a.spec_is_running() == b.spec_is_running()
            },
            (ServoType::PWM(a), ServoType::PWM(b)) => {
                &&& a.spec_calibration() == b.spec_calibration()
                &&& a.spec_tick_hz() == b.spec_tick_hz()
            },
            _ => false,
        }
    }

    /// The duty value for `angle`, an angle within the travel, with the
    /// system clock at `sys_hz`. Only the software-sequenced kind depends on
    /// the clock.
    pub open spec fn duty_at(&self, angle: int, sys_hz: int) -> Duty {
        match *self {
            ServoType::PIO(s) => Duty::Level(pio_level(s.spec_calibration(), angle, sys_hz) as u32),
            ServoType::PWM(s) => Duty::Compare(
                pwm_compare(s.spec_calibration(), angle, s.spec_tick_hz() as int) as u16,
            ),
        }
    }

    /// `duty` is what this servo produces for `angle` at some system clock
    /// frequency; for a hardware-counter servo, which reads no clock, it is
    /// the one value there is.
    pub open spec fn yields(&self, angle: int, duty: Duty) -> bool {
        &&& exists|sys_hz: u32| duty == #[trigger] self.duty_at(angle, sys_hz as int)
        &&& *self is PWM ==> duty == self.duty_at(angle, 0)
    }

    /// Sends the servo to `position` with the system clock running at
    /// `sys_hz`, and returns the duty value to hand to its generator.
    pub fn move_to_at(&mut self, position: Position, sys_hz: u32) -> (duty: Duty)
        requires
            old(self).wf(),
        ensures
            final(self).wf(),
            final(self).same_servo(*old(self)),
            final(self).spec_get_angle() == position.angle_on(
                old(self).spec_calibration().max_angle as int,
            ),
            duty == old(self).duty_at(final(self).spec_get_angle() as int, sys_hz as int),
    {
        match self {
            ServoType::PIO(s) => {
                let angle: i32 = target_angle(position, s.calibration());
                Duty::Level(s.write_at(angle, sys_hz))
            },
            ServoType::PWM(s) => {
                let angle: i32 = target_angle(position, s.calibration());
                Duty::Compare(s.write(angle))
            },
        }
    }

    /// Sends the servo to `position` and returns the duty value to hand to
    /// its generator. The software-sequenced kind reads the system clock for
    /// it.
    pub fn move_to(&mut self, position: Position) -> (duty: Duty)
        requires
            old(self).wf(),
        ensures
            final(self).wf(),
            final(self).same_servo(*old(self)),
            final(self).spec_get_angle() == position.angle_on(
                old(self).spec_calibration().max_angle as int,
            ),
            old(self).yields(final(self).spec_get_angle() as int, duty),
    {
        match self {
            ServoType::PIO(s) => {
                let ghost before = *s;
                let angle: i32 = target_angle(position, s.calibration());
                let level: u32 = s.write(angle);
                proof {
                    let sys_hz: u32 = choose|sys_hz: u32|
                        level == #[trigger] pio_level(
                            before.spec_calibration(),
                            s.spec_get_angle() as int,
                            sys_hz as int,
                        );
                    assert(Duty::Level(level) == ServoType::PIO(before).duty_at(
                        s.spec_get_angle() as int,
                        sys_hz as int,
                    ));
                }
                Duty::Level(level)
            },
            ServoType::PWM(s) => {
                let ghost before = *s;
                let angle: i32 = target_angle(position, s.calibration());
                let compare: u16 = s.write(angle);
                proof {
                    assert(Duty::Compare(compare) == ServoType::PWM(before).duty_at(
                        s.spec_get_angle() as int,
                        0u32 as int,
                    ));
                }
                Duty::Compare(compare)
            },
        }
    }

    /// Commands `angle`: stores it saturated into the travel and returns the
    /// duty value to hand to the generator.
    pub fn write(&mut self, angle: i32) -> (duty: Duty)
        requires
            old(self).wf(),
        ensures
            final(self).wf(),
            final(self).same_servo(*old(self)),
            final(self).spec_get_angle() == clamp_angle(
                angle as int,
                old(self).spec_calibration().max_angle as int,
            ),
            old(self).yields(final(self).spec_get_angle() as int, duty),
    {
        self.move_to(Position::Angle(angle))
    }

    /// Commands `angle` with the system clock running at `sys_hz`.
    pub fn write_at(&mut self, angle: i32, sys_hz: u32) -> (duty: Duty)
        requires
            old(self).wf(),
        ensures
            final(self).wf(),
            final(self).same_servo(*old(self)),
            final(self).spec_get_angle() == clamp_angle(
                angle as int,
                old(self).spec_calibration().max_angle as int,
            ),
            duty == old(self).duty_at(final(self).spec_get_angle() as int, sys_hz as int),
    {
        self.move_to_at(Position::Angle(angle), sys_hz)
    }

    /// Plans a rate-limited move from the commanded angle to `angle`. The
    /// caller writes each angle that the plan hands out.
    pub fn write_smooth(&self, angle: i32) -> (m: SmoothMotion)
        ensures
            m.wf(),
            m.start() == self.spec_get_angle(),
            m.target() == angle,
            m.issued() == 0,
    {
        match self {
            ServoType::PIO(s) => s.write_smooth(angle),
            ServoType::PWM(s) => s.write_smooth(angle),
        }
    }

    /// Makes the next write of `motion` on this servo: stores the planned
    /// angle, saturated into the travel, and returns the duty value to push
    /// and whether to suspend after it. Once every write of the motion has
    /// been made, changes nothing and returns `Done`.
    pub fn smooth_step(&mut self, motion: &mut SmoothMotion) -> (action: SmoothAction)
        requires
            old(self).wf(),
            old(motion).wf(),
        ensures
            final(self).wf(),
            final(motion).wf(),
            final(self).same_servo(*old(self)),
            final(motion).start() == old(motion).start(),
            final(motion).target() == old(motion).target(),
            old(motion).finished() ==> {
                &&& action == SmoothAction::Done
                &&& *final(self) == *old(self)
                &&& final(motion).issued() == old(motion).issued()
            },
            !old(motion).finished() ==> {
                &&& final(motion).issued() == old(motion).issued() + 1
                &&& final(self).spec_get_angle() == clamp_angle(
                    planned_angle(old(motion).start(), old(motion).target(), old(motion).issued()),
                    old(self).spec_calibration().max_angle as int,
                )
                &&& match action {
                    SmoothAction::Push { duty, suspend } => {
                        &&& old(self).yields(final(self).spec_get_angle() as int, duty)
                        &&& suspend == (step_count(old(motion).start(), old(motion).target())
                            != 0)
                    },
                    SmoothAction::Done => false,
                }
            },
    {
        match motion.advance() {
            SmoothStep::Done => SmoothAction::Done,
            SmoothStep::Write { angle, suspend } => {
                let duty: Duty = self.write(angle);
                SmoothAction::Push { duty, suspend }
            },
        }
    }

    /// Commands zero degrees.
    pub fn to_min(&mut self) -> (duty: Duty)
        requires
            old(self).wf(),
        ensures
            final(self).wf(),
            final(self).same_servo(*old(self)),
            final(self).spec_get_angle() == 0,
            old(self).yields(0, duty),
    {
        self.move_to(Position::Min)
    }

    /// Commands half the travel.
    pub fn center(&mut self) -> (duty: Duty)
        requires
            old(self).wf(),
        ensures
            final(self).wf(),
            final(self).same_servo(*old(self)),
            final(self).spec_get_angle() == old(self).spec_calibration().max_angle / 2,
            old(self).yields(old(self).spec_calibration().max_angle as int / 2, duty),
    {
        self.move_to(Position::Center)
    }

    /// Commands the full travel.
    pub fn to_max(&mut self) -> (duty: Duty)
        requires
            old(self).wf(),
        ensures
            final(self).wf(),
            final(self).same_servo(*old(self)),
            final(self).spec_get_angle() == old(self).spec_calibration().max_angle,
            old(self).yields(old(self).spec_calibration().max_angle as int, duty),
    {
        self.move_to(Position::Max)
    }

    /// The last commanded angle, saturated into the travel.
    #[verifier::when_used_as_spec(spec_get_angle)]
    pub fn get_angle(&self) -> (a: i32)
        ensures
            a == self.spec_get_angle(),
    {
        match self {
            ServoType::PIO(s) => s.get_angle(),
            ServoType::PWM(s) => s.get_angle(),
        }
    }

    /// The servo's calibration.
    #[verifier::when_used_as_spec(spec_calibration)]
    pub fn calibration(&self) -> (c: Calibration)
        ensures
            c == self.spec_calibration(),
    {
        match self {
            ServoType::PIO(s) => s.calibration(),
            ServoType::PWM(s) => s.calibration(),
        }
    }
}

/// The angle that `position` means on a servo calibrated by `cal`.
fn target_angle(position: Position, cal: Calibration) -> (angle: i32)
    requires
        cal.wf(),
    ensures
        angle == position.angle_on(cal.max_angle as int),
        0 <= angle <= cal.max_angle,
{
    match position {
        Position::Min => 0,
        Position::Center => cal.max_angle / 2,
        Position::Max => cal.max_angle,
        Position::Angle(a) => cal.clamp(a),
    }
}

} // verus!
