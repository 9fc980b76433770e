use servo_bank::handle::{Duty, Position, ServoType, SmoothAction};
use servo_bank::motion::SmoothStep;
use servo_bank::pio_servo::{
    ServoFromPIO, FRAME_PERIOD_MS, STD_MAX_ANGLE, STD_MAX_US, STD_MIN_US,
};
use servo_bank::pulse::Calibration;
use servo_bank::pwm_servo::{
    ServoFromPWM, PWM_DIVIDER, PWM_STD_MAX_ANGLE, PWM_STD_MAX_US, PWM_STD_MIN_US, PWM_TICK_HZ,
    PWM_TOP,
};

#[test]
fn pio_standard_preset() {
    let s = ServoFromPIO::new_standard_180();
    assert_eq!(
        s.calibration(),
        Calibration {
            min_pulse_us: 190,
            max_pulse_us: 870,
            max_angle: 180_000
        }
    );
    assert_eq!((STD_MIN_US, STD_MAX_US, STD_MAX_ANGLE), (190, 870, 180_000));
    assert_eq!(s.get_angle(), 0);
    assert!(!s.is_running());
}

#[test]
fn pwm_standard_preset() {
    let s = ServoFromPWM::new_standard_180();
    assert_eq!(
        s.calibration(),
        Calibration {
            min_pulse_us: 570,
            max_pulse_us: 2620,
            max_angle: 180_000
        }
    );
    assert_eq!(
        (PWM_STD_MIN_US, PWM_STD_MAX_US, PWM_STD_MAX_ANGLE),
        (570, 2620, 180_000)
    );
    assert_eq!(s.get_angle(), 0);
    assert_eq!(s.tick_hz(), 1_953_125);
}

#[test]
fn pwm_tick_rate_is_the_divided_clock() {
    assert_eq!(PWM_TICK_HZ, 125_000_000 / PWM_DIVIDER as u32);
    // Fifty frames a second.
    assert_eq!(PWM_TOP as u32, PWM_TICK_HZ / 50);
}

#[test]
fn pio_new_saturates_the_initial_angle() {
    assert_eq!(ServoFromPIO::new(190, 870, 180_000, 45_000).get_angle(), 45_000);
    assert_eq!(ServoFromPIO::new(190, 870, 180_000, -1).get_angle(), 0);
    assert_eq!(ServoFromPIO::new(190, 870, 180_000, 999_999).get_angle(), 180_000);
}

#[test]
fn pio_start_sets_the_frame_period_and_runs() {
    let mut s = ServoFromPIO::new_standard_180();
    let period = s.start();
    assert_eq!(period, 20);
    assert_eq!(FRAME_PERIOD_MS, 20);
    assert!(s.is_running());
    assert_eq!(s.get_angle(), 0);
    // Starting again changes nothing.
    assert_eq!(s.start(), 20);
    assert!(s.is_running());
}

#[test]
fn pio_write_at_mid_travel() {
    let mut s = ServoFromPIO::new(190, 870, 180_000, 0);
    let level = s.write_at(90_000, 125_000_000);
    assert_eq!(level, 66_250);
    assert_eq!(s.get_angle(), 90_000);
}

#[test]
fn pio_write_stores_the_saturated_angle() {
    let mut s = ServoFromPIO::new_standard_180();
    assert_eq!(s.write_at(-1, 125_000_000), 23_750);
    assert_eq!(s.get_angle(), 0);
    assert_eq!(s.write_at(180_001, 125_000_000), 108_750);
    assert_eq!(s.get_angle(), 180_000);
    s.write_at(i32::MIN, 125_000_000);
    assert_eq!(s.get_angle(), 0);
    s.write_at(i32::MAX, 125_000_000);
    assert_eq!(s.get_angle(), 180_000);
}

#[test]
fn pio_reported_angle_is_exact_whatever_the_tick_truncation() {
    let mut s = ServoFromPIO::new_standard_180();
    // Both angles give the same level at 1 MHz, and each is reported as
    // commanded.
    assert_eq!(s.write_at(12_345, 1_000_000), 236);
    assert_eq!(s.get_angle(), 12_345);
    assert_eq!(s.write_at(12_346, 1_000_000), 236);
    assert_eq!(s.get_angle(), 12_346);
}

#[test]
fn pio_level_follows_the_clock() {
    let mut s = ServoFromPIO::new_standard_180();
    assert_eq!(s.write_at(90_000, 133_000_000), 70_490);
    assert_eq!(s.write_at(90_000, 1_000_000), 530);
    assert_eq!(s.write_at(90_000, 0), 0);
}

#[test]
fn pio_level_saturates_at_32_bits() {
    let mut s = ServoFromPIO::new(1, u64::MAX, 1000, 0);
    assert_eq!(s.write_at(1000, u32::MAX), u32::MAX);
    // 5000 s at 1 MHz is more cycles than 32 bits hold; 4000 s is not.
    let mut t = ServoFromPIO::new(0, 5_000_000_000, 1000, 0);
    assert_eq!(t.write_at(1000, 1_000_000), u32::MAX);
    assert_eq!(t.write_at(800, 1_000_000), 4_000_000_000);
}

#[test]
fn pio_write_reads_the_system_clock() {
    let mut s = ServoFromPIO::new_standard_180();
    let level = s.write(90_000);
    let hz = embassy_rp::clocks::clk_sys_freq();
    let mut t = ServoFromPIO::new_standard_180();
    assert_eq!(level, t.write_at(90_000, hz));
    assert_eq!(s.get_angle(), 90_000);
}

#[test]
fn pio_shortcuts() {
    let mut s = ServoFromPIO::new(190, 870, 270_001, 5);
    s.to_max();
    assert_eq!(s.get_angle(), 270_001);
    s.center();
    assert_eq!(s.get_angle(), 135_000);
    s.to_min();
    assert_eq!(s.get_angle(), 0);
    assert!(!s.is_running());
    assert_eq!(
        s.calibration(),
        Calibration {
            min_pulse_us: 190,
            max_pulse_us: 870,
            max_angle: 270_001
        }
    );
}

#[test]
fn pwm_write_at_mid_travel() {
    let mut s = ServoFromPWM::new_standard_180();
    // 1595 us at 1.953125 ticks per us is 3115.23.
    assert_eq!(s.write(90_000), 3115);
    assert_eq!(s.get_angle(), 90_000);
}

#[test]
fn pwm_write_stores_the_saturated_angle() {
    let mut s = ServoFromPWM::new_standard_180();
    assert_eq!(s.write(-7), 1113);
    assert_eq!(s.get_angle(), 0);
    assert_eq!(s.write(180_001), 5117);
    assert_eq!(s.get_angle(), 180_000);
    s.write(i32::MIN);
    assert_eq!(s.get_angle(), 0);
    s.write(i32::MAX);
    assert_eq!(s.get_angle(), 180_000);
}

#[test]
fn pwm_reported_angle_is_exact_whatever_the_tick_truncation() {
    let mut s = ServoFromPWM::new_standard_180();
    assert_eq!(s.write(1), 1113);
    assert_eq!(s.get_angle(), 1);
    assert_eq!(s.write(2), 1113);
    assert_eq!(s.get_angle(), 2);
}

#[test]
fn pwm_compare_saturates_at_16_bits() {
    let mut s = ServoFromPWM::new(570, 100_000, 180_000);
    // 100000 us would be 195312 ticks.
    assert_eq!(s.write(180_000), u16::MAX);
    // 33554 us is 65535.15 ticks, 33555 us is 65537.1.
    let mut t = ServoFromPWM::new(0, 33_554, 1000);
    assert_eq!(t.write(1000), 65_535);
    let mut u = ServoFromPWM::new(0, 33_553, 1000);
    assert_eq!(u.write(1000), 65_533);
}

#[test]
fn pwm_shortcuts() {
    let mut s = ServoFromPWM::new_standard_180();
    assert_eq!(s.to_max(), 5117);
    assert_eq!(s.get_angle(), 180_000);
    assert_eq!(s.center(), 3115);
    assert_eq!(s.get_angle(), 90_000);
    assert_eq!(s.to_min(), 1113);
    assert_eq!(s.get_angle(), 0);
    assert_eq!(s.tick_hz(), PWM_TICK_HZ);
}

#[test]
fn smooth_move_to_the_held_angle_is_one_write() {
    let mut s = ServoFromPWM::new_standard_180();
    s.write(90_000);
    let mut motion = s.write_smooth(90_000);
    assert_eq!(motion.total_writes(), 1);
    assert_eq!(
        motion.advance(),
        SmoothStep::Write {
            angle: 90_000,
            suspend: false
        }
    );
    assert_eq!(motion.advance(), SmoothStep::Done);
}

#[test]
fn smooth_move_starts_from_the_commanded_angle() {
    let mut s = ServoFromPIO::new_standard_180();
    s.write_at(10_000, 125_000_000);
    let mut motion = s.write_smooth(11_000);
    assert_eq!(motion.total_writes(), 3);
    let mut levels = Vec::new();
    loop {
        match motion.advance() {
            SmoothStep::Done => break,
            SmoothStep::Write { angle, suspend } => {
                assert!(suspend);
                levels.push((angle, s.write_at(angle, 125_000_000)));
            }
        }
    }
    assert_eq!(
        levels,
        vec![(10_000, 28_472), (10_500, 28_708), (11_000, 28_944)]
    );
    assert_eq!(s.get_angle(), 11_000);
}

#[test]
fn smooth_move_beyond_the_travel_holds_the_end() {
    let mut s = ServoFromPWM::new_standard_180();
    s.write(179_000);
    let mut motion = s.write_smooth(181_000);
    let mut written = Vec::new();
    loop {
        match motion.advance() {
            SmoothStep::Done => break,
            SmoothStep::Write { angle, .. } => {
                s.write(angle);
                written.push(s.get_angle());
            }
        }
    }
    assert_eq!(
        written,
        vec![179_000, 179_400, 179_800, 180_000, 180_000, 180_000]
    );
}

#[test]
fn handle_dispatches_by_kind() {
    let mut a = ServoType::PIO(ServoFromPIO::new_standard_180());
    let mut b = ServoType::PWM(ServoFromPWM::new_standard_180());
    assert_eq!(a.write_at(90_000, 125_000_000), Duty::Level(66_250));
    assert_eq!(b.write_at(90_000, 125_000_000), Duty::Compare(3115));
    assert_eq!(b.write(90_000), Duty::Compare(3115));
    assert_eq!(a.get_angle(), 90_000);
    assert_eq!(b.get_angle(), 90_000);
    assert_eq!(a.calibration().min_pulse_us, 190);
    assert_eq!(b.calibration().min_pulse_us, 570);
}

#[test]
fn handle_write_reads_the_clock_for_the_software_kind() {
    let mut a = ServoType::PIO(ServoFromPIO::new_standard_180());
    let duty = a.write(45_000);
    let hz = embassy_rp::clocks::clk_sys_freq();
    let mut b = ServoType::PIO(ServoFromPIO::new_standard_180());
    assert_eq!(duty, b.write_at(45_000, hz));
    assert_eq!(a.get_angle(), 45_000);
}

#[test]
fn handle_write_saturates() {
    let mut a = ServoType::PIO(ServoFromPIO::new_standard_180());
    a.write(-1);
    assert_eq!(a.get_angle(), 0);
    a.write(200_000);
    assert_eq!(a.get_angle(), 180_000);
    let mut b = ServoType::PWM(ServoFromPWM::new(570, 2620, 90_000));
    b.write(90_001);
    assert_eq!(b.get_angle(), 90_000);
}

#[test]
fn handle_positions() {
    let mut b = ServoType::PWM(ServoFromPWM::new(570, 2620, 270_000));
    assert_eq!(b.move_to(Position::Center), Duty::Compare(3115));
    assert_eq!(b.get_angle(), 135_000);
    assert_eq!(b.move_to(Position::Max), Duty::Compare(5117));
    assert_eq!(b.get_angle(), 270_000);
    assert_eq!(b.move_to(Position::Min), Duty::Compare(1113));
    assert_eq!(b.get_angle(), 0);
    assert_eq!(b.move_to(Position::Angle(300_000)), Duty::Compare(5117));
    assert_eq!(b.get_angle(), 270_000);
    assert_eq!(b.center(), Duty::Compare(3115));
    assert_eq!(b.to_max(), Duty::Compare(5117));
    assert_eq!(b.to_min(), Duty::Compare(1113));
    let mut a = ServoType::PIO(ServoFromPIO::new_standard_180());
    assert_eq!(
        a.move_to_at(Position::Center, 125_000_000),
        Duty::Level(66_250)
    );
    assert_eq!(a.get_angle(), 90_000);
}

#[test]
fn handle_center_of_an_odd_travel_truncates() {
    let mut b = ServoType::PWM(ServoFromPWM::new(570, 2620, 180_001));
    b.center();
    assert_eq!(b.get_angle(), 90_000);
}

#[test]
fn handle_smooth_move() {
    let mut b = ServoType::PWM(ServoFromPWM::new_standard_180());
    let mut motion = b.write_smooth(180_000);
    let mut writes = 0;
    let mut last = Duty::Compare(0);
    loop {
        match motion.advance() {
            SmoothStep::Done => break,
            SmoothStep::Write { angle, suspend } => {
                assert!(suspend);
                last = b.write(angle);
                writes += 1;
            }
        }
    }
    assert_eq!(writes, 451);
    assert_eq!(b.get_angle(), 180_000);
    assert_eq!(last, Duty::Compare(5117));
}

#[test]
fn smooth_step_writes_each_planned_angle() {
    let mut b = ServoType::PWM(ServoFromPWM::new_standard_180());
    b.write(89_000);
    let mut motion = b.write_smooth(90_000);
    assert_eq!(
        b.smooth_step(&mut motion),
        SmoothAction::Push {
            duty: Duty::Compare(3092),
            suspend: true
        }
    );
    assert_eq!(b.get_angle(), 89_000);
    assert_eq!(
        b.smooth_step(&mut motion),
        SmoothAction::Push {
            duty: Duty::Compare(3104),
            suspend: true
        }
    );
    assert_eq!(b.get_angle(), 89_500);
    assert_eq!(
        b.smooth_step(&mut motion),
        SmoothAction::Push {
            duty: Duty::Compare(3115),
            suspend: true
        }
    );
    assert_eq!(b.get_angle(), 90_000);
    assert_eq!(b.smooth_step(&mut motion), SmoothAction::Done);
    assert_eq!(b.get_angle(), 90_000);
}

#[test]
fn smooth_step_in_place_pushes_once_without_suspension() {
    let mut b = ServoType::PWM(ServoFromPWM::new_standard_180());
    b.write(90_000);
    let mut motion = b.write_smooth(90_000);
    assert_eq!(
        b.smooth_step(&mut motion),
        SmoothAction::Push {
            duty: Duty::Compare(3115),
            suspend: false
        }
    );
    assert_eq!(b.smooth_step(&mut motion), SmoothAction::Done);
}

#[test]
fn smooth_step_full_sweep_ends_on_the_target() {
    let mut a = ServoType::PIO(ServoFromPIO::new_standard_180());
    let mut motion = a.write_smooth(180_000);
    let mut pushes = 0;
    let mut suspensions = 0;
    loop {
        match a.smooth_step(&mut motion) {
            SmoothAction::Done => break,
            SmoothAction::Push { suspend, .. } => {
                pushes += 1;
                if suspend {
                    suspensions += 1;
                }
            }
        }
    }
    assert_eq!(pushes, 451);
    assert_eq!(suspensions, 451);
    assert_eq!(a.get_angle(), 180_000);
}
