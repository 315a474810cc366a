use clmm_client::tick::tick_with_spacing;

#[test]
fn positive_tick_rounds_down() {
    assert_eq!(tick_with_spacing(25, 10), 20);
    assert_eq!(tick_with_spacing(29, 10), 20);
    assert_eq!(tick_with_spacing(9, 10), 0);
}

#[test]
fn negative_tick_rounds_towards_negative_infinity() {
    assert_eq!(tick_with_spacing(-25, 10), -30);
    assert_eq!(tick_with_spacing(-21, 10), -30);
    assert_eq!(tick_with_spacing(-1, 10), -10);
}

#[test]
fn multiples_stay_put() {
    assert_eq!(tick_with_spacing(-30, 10), -30);
    assert_eq!(tick_with_spacing(30, 10), 30);
    assert_eq!(tick_with_spacing(0, 10), 0);
    assert_eq!(tick_with_spacing(-443636, 1), -443636);
}

#[test]
fn extreme_ticks_align_where_the_result_fits() {
    assert_eq!(tick_with_spacing(i32::MIN, 1), i32::MIN);
    assert_eq!(tick_with_spacing(i32::MIN, 2), i32::MIN);
    assert_eq!(tick_with_spacing(i32::MAX, 1), i32::MAX);
    assert_eq!(tick_with_spacing(i32::MAX, 7), 2147483646);
    assert_eq!(tick_with_spacing(-1, i32::MAX), -i32::MAX);
    assert_eq!(tick_with_spacing(1, i32::MAX), 0);
}

#[test]
fn negative_spacing_follows_the_same_rule() {
    assert_eq!(tick_with_spacing(5, -3), 3);
    assert_eq!(tick_with_spacing(-5, -3), 0);
    assert_eq!(tick_with_spacing(-6, -3), -6);
    assert_eq!(tick_with_spacing(6, -3), 6);
}

#[test]
fn pool_ticks_align_to_usual_spacings() {
    assert_eq!(tick_with_spacing(443636, 60), 443580);
    assert_eq!(tick_with_spacing(-443636, 60), -443640);
    assert_eq!(tick_with_spacing(46054, 10), 46050);
}

#[test]
fn aligning_twice_changes_nothing() {
    for spacing in [1, 2, 7, 10, 60, 600, 65_535] {
        for tick in [-443_636, -601, -600, -599, -1, 0, 1, 59, 60, 61, 443_636] {
            let once = tick_with_spacing(tick, spacing);
            assert_eq!(once % spacing, 0);
            assert!(once <= tick && tick < once + spacing);
            assert_eq!(tick_with_spacing(once, spacing), once);
        }
    }
}
