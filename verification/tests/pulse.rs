use servo_bank::pulse::{Calibration, MILLIDEG_PER_DEG, US_PER_SECOND};

fn cal(min: u64, max: u64, max_angle: i32) -> Calibration {
    Calibration::new(min, max, max_angle).expect("valid calibration")
}

#[test]
fn calibration_new_accepts_valid_values() {
    let c = Calibration::new(190, 870, 180_000);
    assert_eq!(
        c,
        Some(Calibration {
            min_pulse_us: 190,
            max_pulse_us: 870,
            max_angle: 180_000
        })
    );
}

#[test]
fn calibration_new_rejects_empty_pulse_range() {
    assert_eq!(Calibration::new(870, 870, 180_000), None);
    assert_eq!(Calibration::new(871, 870, 180_000), None);
}

#[test]
fn calibration_new_rejects_travel_that_is_not_positive() {
    assert_eq!(Calibration::new(190, 870, 0), None);
    assert_eq!(Calibration::new(190, 870, -1), None);
    assert_eq!(Calibration::new(190, 870, i32::MIN), None);
}

#[test]
fn unit_constants() {
    assert_eq!(US_PER_SECOND, 1_000_000);
    assert_eq!(MILLIDEG_PER_DEG, 1000);
}

#[test]
fn clamp_saturates_at_both_ends() {
    let c = cal(190, 870, 180_000);
    assert_eq!(c.clamp(-1), 0);
    assert_eq!(c.clamp(i32::MIN), 0);
    assert_eq!(c.clamp(0), 0);
    assert_eq!(c.clamp(1), 1);
    assert_eq!(c.clamp(179_999), 179_999);
    assert_eq!(c.clamp(180_000), 180_000);
    assert_eq!(c.clamp(180_001), 180_000);
    assert_eq!(c.clamp(i32::MAX), 180_000);
}

#[test]
fn pulse_at_the_ends_is_exact() {
    let cals = [
        cal(190, 870, 180_000),
        cal(570, 2620, 180_000),
        cal(0, 1, 1),
        cal(500, 2500, 270_000),
        cal(0, u64::MAX, i32::MAX),
        cal(u64::MAX - 1, u64::MAX, 7),
        cal(1000, 2000, 179_999),
    ];
    for c in cals {
        assert_eq!(c.pulse_us(0), c.min_pulse_us);
        assert_eq!(c.pulse_us(c.max_angle), c.max_pulse_us);
    }
}

#[test]
fn pulse_outside_the_travel_is_that_of_the_nearest_end() {
    let c = cal(190, 870, 180_000);
    assert_eq!(c.pulse_us(-90_000), 190);
    assert_eq!(c.pulse_us(i32::MIN), 190);
    assert_eq!(c.pulse_us(180_001), 870);
    assert_eq!(c.pulse_us(i32::MAX), 870);
}

#[test]
fn pulse_interpolates_linearly() {
    let c = cal(190, 870, 180_000);
    assert_eq!(c.pulse_us(90_000), 530);
    assert_eq!(c.pulse_us(45_000), 360);
    assert_eq!(c.pulse_us(135_000), 700);
    let w = cal(570, 2620, 180_000);
    assert_eq!(w.pulse_us(90_000), 1595);
    assert_eq!(w.pulse_us(180_000), 2620);
}

#[test]
fn pulse_truncates_to_whole_microseconds() {
    let c = cal(190, 870, 180_000);
    // 680 us over 180000 steps: 264 thousandths of a degree are 0.997 us.
    assert_eq!(c.pulse_us(264), 190);
    assert_eq!(c.pulse_us(265), 191);
    let w = cal(570, 2620, 180_000);
    // 570 + 2050 * 0.25 = 1082.5
    assert_eq!(w.pulse_us(45_000), 1082);
}

#[test]
fn pulse_never_decreases_with_the_angle() {
    let cals = [
        cal(190, 870, 180_000),
        cal(570, 2620, 180_000),
        cal(0, u64::MAX, 1000),
        cal(10, 11, 977),
    ];
    for c in cals {
        let mut last = c.pulse_us(0);
        let mut angle = 0;
        while angle <= c.max_angle {
            let p = c.pulse_us(angle);
            assert!(p >= last);
            assert!(c.min_pulse_us <= p && p <= c.max_pulse_us);
            last = p;
            angle += 1 + c.max_angle / 997;
        }
    }
}

#[test]
fn ticks_at_125_mhz() {
    let c = cal(190, 870, 180_000);
    // 530 us at 0.008 us per tick.
    assert_eq!(c.ticks(90_000, 125_000_000), 66_250);
    assert_eq!(c.ticks(0, 125_000_000), 23_750);
    assert_eq!(c.ticks(180_000, 125_000_000), 108_750);
}

#[test]
fn ticks_truncate_once_from_the_exact_pulse() {
    let c = cal(190, 870, 180_000);
    // One thousandth of a degree: 190.003777.. us, 23750.47 cycles.
    assert_eq!(c.ticks(1, 125_000_000), 23_750);
    // 1082.5 us at 1.953125 ticks per us is 2114.26; from the truncated
    // 1082 us it would be 2113.
    let w = cal(570, 2620, 180_000);
    assert_eq!(w.ticks(45_000, 1_953_125), 2114);
    // 1 MHz: a tick is a microsecond, 3 us at a third of the travel is 1.
    let t = cal(0, 3, 3);
    assert_eq!(t.ticks(1, 1_000_000), 1);
    assert_eq!(t.ticks(1, 999_999), 0);
}

#[test]
fn ticks_at_a_stopped_clock_are_zero() {
    let c = cal(190, 870, 180_000);
    assert_eq!(c.ticks(90_000, 0), 0);
}

#[test]
fn ticks_outside_the_travel_are_those_of_the_nearest_end() {
    let c = cal(190, 870, 180_000);
    assert_eq!(c.ticks(-5, 125_000_000), 23_750);
    assert_eq!(c.ticks(i32::MAX, 125_000_000), 108_750);
}

#[test]
fn ticks_at_the_largest_values_do_not_overflow() {
    let c = cal(0, u64::MAX, i32::MAX);
    let expected = (u64::MAX as u128) * (u32::MAX as u128) / 1_000_000;
    assert_eq!(c.ticks(i32::MAX, u32::MAX), expected);
}

#[test]
fn ticks_never_decrease_with_the_angle() {
    let c = cal(570, 2620, 180_000);
    let mut last = c.ticks(0, 1_953_125);
    let mut angle = 0;
    while angle <= 180_000 {
        let t = c.ticks(angle, 1_953_125);
        assert!(t >= last);
        last = t;
        angle += 250;
    }
    assert_eq!(last, 5117);
}

#[test]
fn ticks_at_one_tick_per_microsecond_are_the_pulse_width() {
    let cals = [cal(190, 870, 180_000), cal(570, 2620, 180_000), cal(7, 1000, 333)];
    for c in cals {
        let mut angle = 0;
        while angle <= c.max_angle {
            assert_eq!(c.ticks(angle, 1_000_000), c.pulse_us(angle) as u128);
            angle += 1 + c.max_angle / 500;
        }
    }
}

#[test]
fn ticks_fall_short_of_the_exact_pulse_by_less_than_one() {
    let c = cal(570, 2620, 180_000);
    let hz: u128 = 1_953_125;
    let mut angle: i32 = 0;
    while angle <= 180_000 {
        let t = c.ticks(angle, hz as u32);
        // Pulse width times the travel, then times the tick rate.
        let exact = (570u128 * 180_000 + 2050u128 * angle as u128) * hz;
        let per_tick = 180_000u128 * 1_000_000;
        assert!(t * per_tick <= exact);
        assert!(exact < (t + 1) * per_tick);
        angle += 777;
    }
}
