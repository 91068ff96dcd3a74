use dsa::commands::Health;
use dsa::commands::Tracker;

#[test]
fn doc_scenario_set_current_to_five() {
    let mut health = Tracker::new("health".to_string(), 10, 10);
    health.set(5, false);
    let (current, max) = health.get();
    assert_eq!("health", health.name().as_str());
    assert_eq!(5, current);
    assert_eq!(10, max);
}

#[test]
fn setting_current_below_zero_clamps_to_zero() {
    let mut gauge = Tracker::new("astral".to_string(), 10, 10);
    gauge.set(-5, false);
    let (current, max) = gauge.get();
    assert_eq!(0, current);
    assert_eq!(10, max);
}

#[test]
fn setting_current_above_max_clamps_to_max() {
    let mut gauge = Tracker::new("astral".to_string(), 10, 10);
    gauge.set(15, false);
    let (current, max) = gauge.get();
    assert_eq!(10, current);
    assert_eq!(10, max);
}

#[test]
fn lowering_max_reclamps_current() {
    let mut gauge = Tracker::new("stamina".to_string(), 10, 10);
    gauge.set(4, true);
    let (current, max) = gauge.get();
    assert_eq!(4, current);
    assert_eq!(4, max);
}

#[test]
fn negative_max_clamps_to_zero() {
    let mut gauge = Tracker::new("stamina".to_string(), 3, 10);
    gauge.set(-2, true);
    let (current, max) = gauge.get();
    assert_eq!(0, current);
    assert_eq!(0, max);
}

#[test]
fn add_and_sub_apply_to_current_or_max() {
    let mut gauge = Tracker::new("health".to_string(), 5, 10);
    gauge.add(3, false);
    assert_eq!((8, 10), gauge.get());
    gauge.sub(20, false);
    assert_eq!((0, 10), gauge.get());
    gauge.add(5, true);
    assert_eq!((0, 15), gauge.get());
    gauge.sub(12, true);
    assert_eq!((0, 3), gauge.get());
    gauge.add(100, false);
    assert_eq!((3, 3), gauge.get());
}

#[test]
fn mutations_are_never_rejected_only_truncated() {
    let mut gauge = Tracker::new("health".to_string(), 0, 0);
    gauge.add(7, false);
    assert_eq!((0, 0), gauge.get());
    gauge.set(-100, true);
    assert_eq!((0, 0), gauge.get());
}

#[test]
fn health_gauge_starts_full_and_clamps_alike() {
    let mut health = Health::new_action(12);
    assert_eq!((12, 12), health.get());
    health.sub(5, false);
    assert_eq!((7, 12), health.get());
    health.set(-3, false);
    assert_eq!((0, 12), health.get());
    health.set(20, false);
    assert_eq!((12, 12), health.get());
    health.set(4, true);
    assert_eq!((4, 4), health.get());
    health.add(2, false);
    assert_eq!((4, 4), health.get());
}
