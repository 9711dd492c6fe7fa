use tilt_indicator::mapper::translate;
use tilt_indicator::mapper::translate_checked;

#[test]
fn foo() {
    let res = translate(0, -1000, 1000, -90, 90);

    assert_eq!(res, 0);

    let res = translate(-1000, -1000, 1000, -90, 90);

    assert_eq!(res, -90);

    let res = translate(1000, -1000, 1000, -90, 90);

    assert_eq!(res, 90);
}

#[test]
fn endpoints_map_exactly() {
    assert_eq!(translate(-1000, -1000, 1000, -90, 90), -90);
    assert_eq!(translate(1000, -1000, 1000, -90, 90), 90);
    assert_eq!(translate(0, 0, 100, 40, 140), 40);
    assert_eq!(translate(100, 0, 100, 40, 140), 140);
}

#[test]
fn midpoint_maps_to_midpoint() {
    assert_eq!(translate(0, -1000, 1000, -90, 90), 0);
    assert_eq!(translate(50, 0, 100, 40, 140), 90);
}

#[test]
fn extrapolation_is_not_clamped() {
    // 10% beyond either end of the input range lands 10% beyond the
    // corresponding end of the output range.
    assert_eq!(translate(1100, -1000, 1000, -90, 90), 99);
    assert_eq!(translate(-1100, -1000, 1000, -90, 90), -99);
}

#[test]
fn division_truncates_toward_zero() {
    // 1005 * 180 / 2000 is 90.45; truncation keeps 90.
    assert_eq!(translate(5, -1000, 1000, -90, 90), 0);
    // -5 * 180 / 2000 is -0.45; truncation toward zero gives 0, where
    // flooring would give -1.
    assert_eq!(translate(-1005, -1000, 1000, -90, 90), -90);
}

#[test]
fn checked_agrees_with_translate() {
    assert_eq!(translate_checked(0, -1000, 1000, -90, 90), Some(0));
    assert_eq!(translate_checked(-1000, -1000, 1000, -90, 90), Some(-90));
    assert_eq!(translate_checked(1000, -1000, 1000, -90, 90), Some(90));
    assert_eq!(translate_checked(1100, -1000, 1000, -90, 90), Some(99));
}

#[test]
fn checked_rejects_degenerate_span() {
    assert_eq!(translate_checked(0, 5, 5, 0, 10), None);
}

#[test]
fn checked_rejects_overflow() {
    // x - in_min does not fit in 32 bits.
    assert_eq!(translate_checked(i32::MAX, -1, 1, -90, 90), None);
    // The product of the offset and the output span does not fit.
    assert_eq!(translate_checked(1_000_000, 0, 1, 0, 1_000_000), None);
}
