use tilt_indicator::classifier::ActivationFlag;
use tilt_indicator::classifier::consolidate_lights;

const ON: ActivationFlag = ActivationFlag::Active;
const OFF: ActivationFlag = ActivationFlag::Inactive;

#[test]
fn tilt_left_beyond_limit() {
    assert_eq!(consolidate_lights(-11, 10), (ON, OFF, OFF));
    assert_eq!(consolidate_lights(-90, 10), (ON, OFF, OFF));
    assert_eq!(consolidate_lights(-1, 0), (ON, OFF, OFF));
}

#[test]
fn tilt_right_beyond_limit() {
    assert_eq!(consolidate_lights(11, 10), (OFF, OFF, ON));
    assert_eq!(consolidate_lights(90, 10), (OFF, OFF, ON));
    assert_eq!(consolidate_lights(1, 0), (OFF, OFF, ON));
}

#[test]
fn level_inside_dead_zone() {
    assert_eq!(consolidate_lights(0, 10), (OFF, ON, OFF));
    assert_eq!(consolidate_lights(5, 10), (OFF, ON, OFF));
    assert_eq!(consolidate_lights(-5, 10), (OFF, ON, OFF));
    assert_eq!(consolidate_lights(0, 0), (OFF, ON, OFF));
}

#[test]
fn dead_zone_includes_both_endpoints() {
    assert_eq!(consolidate_lights(10, 10), (OFF, ON, OFF));
    assert_eq!(consolidate_lights(-10, 10), (OFF, ON, OFF));
    assert_eq!(consolidate_lights(0, 0), (OFF, ON, OFF));
}

#[test]
fn exactly_one_flag_active_over_sweep() {
    for limit in 0..=15i32 {
        for tilt in -40..=40i32 {
            let (left, center, right) = consolidate_lights(tilt, limit);
            let active = [left, center, right]
                .iter()
                .filter(|f| **f == ON)
                .count();
            assert_eq!(active, 1);
        }
    }
}

#[test]
fn threshold_bands_over_sweep() {
    for limit in 0..=15i32 {
        for tilt in -40..=40i32 {
            let expected = if tilt < -limit {
                (ON, OFF, OFF)
            } else if tilt > limit {
                (OFF, OFF, ON)
            } else {
                (OFF, ON, OFF)
            };
            assert_eq!(consolidate_lights(tilt, limit), expected);
        }
    }
}
