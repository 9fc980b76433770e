//! The whole bank: eighteen servos in a fixed order, commanded one by one or
//! all together.

use crate::handle::{Duty, Position, ServoType};
use crate::pio_servo::{ServoFromPIO, STD_MAX_ANGLE, STD_MAX_US, STD_MIN_US};
use crate::pulse::Calibration;
use crate::pwm_servo::{
    ServoFromPWM, PWM_STD_MAX_ANGLE, PWM_STD_MAX_US, PWM_STD_MIN_US, PWM_TICK_HZ,
};
use vstd::prelude::*;

verus! {

/// The number of servos in the bank.
pub const SERVO_COUNT: usize = 18;

/// The number of servos on hardware counter channels; they come first.
pub const PWM_SERVO_COUNT: usize = 16;

/// All eighteen servos: sixteen on hardware counter channels, then two on
/// the software-sequenced generator.
#[derive(Clone, Copy, Debug)]
pub struct AllServos {
    pub servos: [ServoType; 18],
}

/// The calibration of the usual hardware-counter servo.
pub open spec fn standard_pwm_calibration() -> Calibration {
    Calibration {
        min_pulse_us: PWM_STD_MIN_US,
        max_pulse_us: PWM_STD_MAX_US,
        max_angle: PWM_STD_MAX_ANGLE,
    }
}

/// The calibration of the usual software-sequenced servo.
pub open spec fn standard_pio_calibration() -> Calibration {
    Calibration { min_pulse_us: STD_MIN_US, max_pulse_us: STD_MAX_US, max_angle: STD_MAX_ANGLE }
}

impl AllServos {
    /// Every servo of the bank is well formed.
    pub open spec fn wf(&self) -> bool {
        forall|i: int| 0 <= i < 18 ==> (#[trigger] self.servos[i]).wf()
    }

    /// Assembles the bank from usual 180 degree servos, all at zero: the
    /// sixteen hardware-counter servos at their fixed tick rate, the two
    /// software-sequenced servos started.
    pub fn new() -> (bank: AllServos)
        ensures
            bank.wf(),
            forall|i: int|
                0 <= i < 18 ==> (#[trigger] bank.servos[i]).spec_get_angle() == 0,
            forall|i: int|
                0 <= i < 16 ==> match #[trigger] bank.servos[i] {
                    ServoType::PWM(s) => s.spec_calibration() == standard_pwm_calibration()
                        && s.spec_tick_hz() == PWM_TICK_HZ,
                    ServoType::PIO(_) => false,
                },
            forall|i: int|
                16 <= i < 18 ==> match #[trigger] bank.servos[i] {
                    ServoType::PIO(s) => s.spec_calibration() == standard_pio_calibration()
                        && s.spec_is_running(),
                    ServoType::PWM(_) => false,
                },
    {
        let mut pio1 = ServoFromPIO::new_standard_180();
        let mut pio2 = ServoFromPIO::new_standard_180();
        pio1.start();
        pio2.start();
        let pwm = ServoFromPWM::new_standard_180();
        AllServos {
            servos: [
                ServoType::PWM(pwm),
                ServoType::PWM(pwm),
                ServoType::PWM(pwm),
                ServoType::PWM(pwm),
                ServoType::PWM(pwm),
                ServoType::PWM(pwm),
                ServoType::PWM(pwm),
                ServoType::PWM(pwm),
                ServoType::PWM(pwm),
                ServoType::PWM(pwm),
                ServoType::PWM(pwm),
                ServoType::PWM(pwm),
                ServoType::PWM(pwm),
                ServoType::PWM(pwm),
                ServoType::PWM(pwm),
                ServoType::PWM(pwm),
                ServoType::PIO(pio1),
                ServoType::PIO(pio2),
            ],
        }
    }

    /// Sends every servo to `position`, in index order, with the system
    /// clock running at `sys_hz`. Returns the duty value of each, by index.
    pub fn move_all_at(&mut self, position: Position, sys_hz: u32) -> (duties: [Duty; 18])
        requires
            old(self).wf(),
        ensures
            final(self).wf(),
            forall|i: int|
                #![trigger final(self).servos[i]]
                #![trigger duties[i]]
                0 <= i < 18 ==> {
                    &&& final(self).servos[i].same_servo(old(self).servos[i])
                    &&& final(self).servos[i].spec_get_angle() == position.angle_on(
                        old(self).servos[i].spec_calibration().max_angle as int,
                    )
                    &&& duties[i] == old(self).servos[i].duty_at(
                        final(self).servos[i].spec_get_angle() as int,
                        sys_hz as int,
                    )
                },
    {
        let mut duties: [Duty; 18] = [Duty::Compare(0);18];
        let mut i: usize = 0;
        while i < 18
            invariant
                0 <= i <= 18,
                forall|j: int| 0 <= j < 18 ==> (#[trigger] self.servos[j]).wf(),
                forall|j: int| i <= j < 18 ==> #[trigger] self.servos[j] == old(self).servos[j],
                forall|j: int|
                    0 <= j < i ==> {
                        &&& (#[trigger] self.servos[j]).same_servo(old(self).servos[j])
                        &&& self.servos[j].spec_get_angle() == position.angle_on(
                            old(self).servos[j].spec_calibration().max_angle as int,
                        )
                        &&& duties[j] == old(self).servos[j].duty_at(
                            self.servos[j].spec_get_angle() as int,
                            sys_hz as int,
                        )
                    },
            decreases 18 - i,
        {
            let duty: Duty = self.servos[i].move_to_at(position, sys_hz);
            duties[i] = duty;
            i += 1;
        }
        duties
    }

    /// Sends every servo to `position`, in index order. Returns the duty
    /// value of each, by index. Each software-sequenced servo reads the
    /// system clock for its own.
    pub fn move_all(&mut self, position: Position) -> (duties: [Duty; 18])
        requires
            old(self).wf(),
        ensures
            final(self).wf(),
            forall|i: int|
                #![trigger final(self).servos[i]]
                #![trigger duties[i]]
                0 <= i < 18 ==> {
                    &&& final(self).servos[i].same_servo(old(self).servos[i])
                    &&& final(self).servos[i].spec_get_angle() == position.angle_on(
                        old(self).servos[i].spec_calibration().max_angle as int,
                    )
                    &&& old(self).servos[i].yields(
                        final(self).servos[i].spec_get_angle() as int,
                        duties[i],
                    )
                },
    {
        let mut duties: [Duty; 18] = [Duty::Compare(0);18];
        let mut i: usize = 0;
        while i < 18
            invariant
                0 <= i <= 18,
                forall|j: int| 0 <= j < 18 ==> (#[trigger] self.servos[j]).wf(),
                forall|j: int| i <= j < 18 ==> #[trigger] self.servos[j] == old(self).servos[j],
                forall|j: int|
                    0 <= j < i ==> {
                        &&& (#[trigger] self.servos[j]).same_servo(old(self).servos[j])
                        &&& self.servos[j].spec_get_angle() == position.angle_on(
                            old(self).servos[j].spec_calibration().max_angle as int,
                        )
                        &&& old(self).servos[j].yields(
                            self.servos[j].spec_get_angle() as int,
                            duties[j],
                        )
                    },
            decreases 18 - i,
        {
            let duty: Duty = self.servos[i].move_to(position);
            duties[i] = duty;
            i += 1;
        }
        duties
    }

    /// Commands `angle` on every servo; each saturates it into its own
    /// travel.
    pub fn write_all(&mut self, angle: i32) -> (duties: [Duty; 18])
        requires
            old(self).wf(),
        ensures
            final(self).wf(),
            forall|i: int|
                #![trigger final(self).servos[i]]
                #![trigger duties[i]]
                0 <= i < 18 ==> {
                    &&& final(self).servos[i].same_servo(old(self).servos[i])
                    &&& final(self).servos[i].spec_get_angle() == Position::Angle(angle).angle_on(
                        old(self).servos[i].spec_calibration().max_angle as int,
                    )
                    &&& old(self).servos[i].yields(
                        final(self).servos[i].spec_get_angle() as int,
                        duties[i],
                    )
                },
    {
        self.move_all(Position::Angle(angle))
    }

    /// Sends every servo to half its travel.
    pub fn center_all(&mut self) -> (duties: [Duty; 18])
        requires
            old(self).wf(),
        ensures
            final(self).wf(),
            forall|i: int|
                #![trigger final(self).servos[i]]
                #![trigger duties[i]]
                0 <= i < 18 ==> {
                    &&& final(self).servos[i].same_servo(old(self).servos[i])
                    &&& final(self).servos[i].spec_get_angle() == old(
                        self,
                    ).servos[i].spec_calibration().max_angle / 2
                    &&& old(self).servos[i].yields(
                        final(self).servos[i].spec_get_angle() as int,
                        duties[i],
                    )
                },
    {
        self.move_all(Position::Center)
    }

    /// Sends every servo to zero degrees.
    pub fn zero_all(&mut self) -> (duties: [Duty; 18])
        requires
            old(self).wf(),
        ensures
            final(self).wf(),
            forall|i: int|
                #![trigger final(self).servos[i]]
                #![trigger duties[i]]
                0 <= i < 18 ==> {
                    &&& final(self).servos[i].same_servo(old(self).servos[i])
                    &&& final(self).servos[i].spec_get_angle() == 0
                    &&& old(self).servos[i].yields(0, duties[i])
                },
    {
        self.move_all(Position::Min)
    }

    /// Sends every servo to its full travel.
    pub fn max_all(&mut self) -> (duties: [Duty; 18])
        requires
            old(self).wf(),
        ensures
            final(self).wf(),
            forall|i: int|
                #![trigger final(self).servos[i]]
                #![trigger duties[i]]
                0 <= i < 18 ==> {
                    &&& final(self).servos[i].same_servo(old(self).servos[i])
                    &&& final(self).servos[i].spec_get_angle() == old(
                        self,
                    ).servos[i].spec_calibration().max_angle
                    &&& old(self).servos[i].yields(
                        final(self).servos[i].spec_get_angle() as int,
                        duties[i],
                    )
                },
    {
        self.move_all(Position::Max)
    }
}

} // verus!
