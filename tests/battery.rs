use einkstopwatch::{
    battery_action, millivolts_from_raw, percent_from_mv, raw_from_sample, BatteryAction,
    BatteryReading, MAX, MIN,
};

#[test]
fn millivolts_follow_linear_formula() {
    for r in 0u16..4096 {
        assert_eq!(millivolts_from_raw(r) as u64, r as u64 * 7200 / 4096);
    }
    assert_eq!(millivolts_from_raw(0), 0);
    assert_eq!(millivolts_from_raw(2048), 3600);
    assert_eq!(millivolts_from_raw(4095), 7198);
}

#[test]
fn percent_at_bottom_of_scale_is_zero() {
    assert_eq!(percent_from_mv::<MIN, MAX>(3400), 0);
}

#[test]
fn percent_at_midpoint_and_top() {
    assert_eq!(percent_from_mv::<MIN, MAX>(3800), 49);
    assert_eq!(percent_from_mv::<MIN, MAX>(4200), 99);
    assert_eq!(percent_from_mv::<MIN, MAX>(4192), 98);
    assert_eq!(percent_from_mv::<MIN, MAX>(4193), 99);
    assert_eq!(percent_from_mv::<MIN, MAX>(3408), 0);
    assert_eq!(percent_from_mv::<MIN, MAX>(3409), 1);
}

#[test]
fn percent_never_reaches_one_hundred() {
    for mv in 0u32..6000 {
        assert!(percent_from_mv::<MIN, MAX>(mv) <= 99);
    }
}

#[test]
fn percent_clamps_outside_scale() {
    assert_eq!(percent_from_mv::<MIN, MAX>(0), 0);
    assert_eq!(percent_from_mv::<MIN, MAX>(3000), 0);
    assert_eq!(percent_from_mv::<MIN, MAX>(5000), 99);
    assert_eq!(percent_from_mv::<MIN, MAX>(u32::MAX), 99);
}

#[test]
fn percent_on_other_scale() {
    assert_eq!(percent_from_mv::<0, 1>(0), 0);
    assert_eq!(percent_from_mv::<0, 1>(1), 50);
    assert_eq!(percent_from_mv::<1000, 2000>(1500), 49);
    assert_eq!(percent_from_mv::<1000, 2000>(2000), 99);
}

#[test]
fn negative_sample_reads_as_zero() {
    assert_eq!(raw_from_sample(-3), 0);
    assert_eq!(raw_from_sample(0), 0);
    assert_eq!(raw_from_sample(4095), 4095);
}

#[test]
fn reading_derives_voltage_and_percent() {
    let r = BatteryReading::from_raw(2162);
    assert_eq!(r.raw, 2162);
    assert_eq!(r.millivolts, 3800);
    assert_eq!(r.percent, 49);
    assert!(!r.is_critical());
}

#[test]
fn low_battery_is_critical() {
    let r = BatteryReading::from_raw(1000);
    assert_eq!(r.millivolts, 1757);
    assert_eq!(r.percent, 0);
    assert!(r.is_critical());
    assert_eq!(battery_action(1000), BatteryAction::CriticalBattery);
}

#[test]
fn healthy_battery_is_published() {
    assert_eq!(battery_action(2162), BatteryAction::Publish(49));
    assert_eq!(battery_action(4095), BatteryAction::Publish(99));
}
