use bluegauge::bluetooth::{BluetoothInfo, BluetoothType};
use bluegauge::config::Config;
use bluegauge::debounce::DebounceConfig;
use bluegauge::notify::{NotifiedDevices, NotifyEvent};
use bluegauge::reconcile::Reconciler;
use bluegauge::watch::RestartCoordinator;

fn ble(name: &str, address: u64, battery: u8, status: bool) -> BluetoothInfo {
    BluetoothInfo {
        name: name.to_string(),
        battery,
        status,
        address,
        kind: BluetoothType::LowEnergy,
    }
}

fn cfg() -> DebounceConfig {
    DebounceConfig { stability_window: 15, forced_update_interval: 20 }
}

#[test]
fn first_battery_reading_commits_immediately_without_notification() {
    let mut rec = Reconciler::new();
    rec.seed(ble("buds", 7, 80, true));
    let outcome = rec.apply_battery(7, 75, 0, &cfg());
    assert!(outcome.update_tray);
    assert_eq!(outcome.notify, None);
    assert_eq!(rec.registry.get(7).unwrap().battery, 75);
}

#[test]
fn debounced_commit_carries_a_low_battery_event() {
    let mut rec = Reconciler::new();
    rec.seed(ble("buds", 7, 80, true));
    assert!(rec.apply_battery(7, 80, 0, &cfg()).update_tray);
    // a changed value must first wait out the stability window
    let held = rec.apply_battery(7, 60, 1, &cfg());
    assert!(!held.update_tray);
    assert_eq!(held.notify, None);
    assert_eq!(rec.registry.get(7).unwrap().battery, 80);
    let committed = rec.apply_battery(7, 60, 16, &cfg());
    assert!(committed.update_tray);
    assert_eq!(
        committed.notify,
        Some(NotifyEvent::LowBattery("buds".to_string(), 60, 7))
    );
    assert_eq!(rec.registry.get(7).unwrap().battery, 60);
}

#[test]
fn battery_reading_for_unknown_address_is_dropped() {
    let mut rec = Reconciler::new();
    let outcome = rec.apply_battery(99, 50, 0, &cfg());
    assert!(!outcome.update_tray);
    assert_eq!(outcome.notify, None);
    assert_eq!(rec.registry.len(), 0);
}

#[test]
fn status_change_commits_directly_and_names_the_direction() {
    let mut rec = Reconciler::new();
    rec.seed(ble("buds", 7, 80, true));
    let unchanged = rec.apply_status(7, true);
    assert!(!unchanged.update_tray);
    assert_eq!(unchanged.notify, None);
    let dropped = rec.apply_status(7, false);
    assert!(dropped.update_tray);
    assert_eq!(dropped.notify, Some(NotifyEvent::Disconnect("buds".to_string())));
    let back = rec.apply_status(7, true);
    assert_eq!(back.notify, Some(NotifyEvent::Reconnect("buds".to_string())));
    assert!(rec.registry.get(7).unwrap().status);
}

#[test]
fn presence_add_inserts_and_bumps_the_generation_once() {
    let mut rec = Reconciler::new();
    let mut coordinator = RestartCoordinator::new();
    let outcome = rec.apply_presence_added(&mut coordinator, Some(ble("buds", 7, 80, true)));
    assert!(outcome.update_tray);
    assert_eq!(outcome.notify, Some(NotifyEvent::Added("buds".to_string())));
    assert_eq!(coordinator.current(), 1);
    // the same address again: the device is already tracked, nothing moves
    let again = rec.apply_presence_added(&mut coordinator, Some(ble("buds", 7, 80, true)));
    assert!(!again.update_tray);
    assert_eq!(again.notify, None);
    assert_eq!(coordinator.current(), 1);
    assert_eq!(rec.registry.len(), 1);
}

#[test]
fn two_simultaneous_adds_with_one_failed_resolution() {
    // one resolution fails: the registry gains exactly one entry, and only
    // the successful add bumps the generation
    let mut rec = Reconciler::new();
    let mut coordinator = RestartCoordinator::new();
    let ok = rec.apply_presence_added(&mut coordinator, Some(ble("kept", 1, 90, true)));
    let failed = rec.apply_presence_added(&mut coordinator, None);
    assert!(ok.update_tray);
    assert!(!failed.update_tray);
    assert_eq!(failed.notify, None);
    assert_eq!(rec.registry.len(), 1);
    assert!(rec.registry.get(1).is_some());
    assert_eq!(coordinator.current(), 1);
}

#[test]
fn presence_remove_drops_registry_entry_and_debounce_state_together() {
    let mut rec = Reconciler::new();
    let mut coordinator = RestartCoordinator::new();
    rec.seed(ble("buds", 7, 80, true));
    rec.apply_battery(7, 75, 0, &cfg());
    assert_eq!(rec.debounce.len(), 1);
    let outcome = rec.apply_presence_removed(&mut coordinator, 7);
    assert!(outcome.update_tray);
    assert_eq!(outcome.notify, Some(NotifyEvent::Removed("buds".to_string())));
    assert_eq!(coordinator.current(), 1);
    assert_eq!(rec.registry.len(), 0);
    assert_eq!(rec.debounce.len(), 0);
    // a stale battery reading for the removed address changes nothing
    let stale = rec.apply_battery(7, 10, 5, &cfg());
    assert!(!stale.update_tray);
    assert_eq!(stale.notify, None);
    assert_eq!(rec.registry.len(), 0);
    assert_eq!(rec.debounce.len(), 0);
}

#[test]
fn removing_an_unknown_address_changes_nothing() {
    let mut rec = Reconciler::new();
    let mut coordinator = RestartCoordinator::new();
    let outcome = rec.apply_presence_removed(&mut coordinator, 99);
    assert!(!outcome.update_tray);
    assert_eq!(outcome.notify, None);
    assert_eq!(coordinator.current(), 0);
}

#[test]
fn removed_device_with_empty_name_reports_unknown_name() {
    let mut rec = Reconciler::new();
    let mut coordinator = RestartCoordinator::new();
    rec.seed(ble("", 7, 0, false));
    let outcome = rec.apply_presence_removed(&mut coordinator, 7);
    assert_eq!(outcome.notify, Some(NotifyEvent::Removed("Unknown name".to_string())));
}

#[test]
fn generation_counts_effective_presence_events() {
    let mut rec = Reconciler::new();
    let mut coordinator = RestartCoordinator::new();
    rec.apply_presence_added(&mut coordinator, Some(ble("a", 1, 90, true)));
    rec.apply_presence_added(&mut coordinator, Some(ble("b", 2, 90, true)));
    rec.apply_presence_removed(&mut coordinator, 1);
    assert_eq!(coordinator.current(), 3);
}

#[test]
fn scenario_reconnect_after_notified_low_battery() {
    // a device in the notified low-battery state disconnects, reconnects
    // with its battery risen to threshold + 15: the flag clears, and a
    // later drop below the threshold notifies again
    let config = Config::default();
    let threshold = config.get_low_battery();
    assert_eq!(threshold, 15);
    let mut rec = Reconciler::new();
    let mut notified = NotifiedDevices::new();
    rec.seed(ble("buds", 7, 40, true));
    rec.apply_battery(7, 40, 0, &cfg());

    // drop below the threshold: committed after the stability window, and
    // the notification fires
    rec.apply_battery(7, 12, 1, &cfg());
    let low = rec.apply_battery(7, 12, 16, &cfg());
    let event = low.notify.expect("a committed value carries an event");
    assert!(event.evaluate(&config, &mut notified));

    // disconnect and reconnect: status events leave the flag alone
    rec.apply_status(7, false);
    rec.apply_status(7, true);
    assert!(notified.contains(7));

    // the battery comes back at threshold + 15
    rec.apply_battery(7, 30, 20, &cfg());
    let recovered = rec.apply_battery(7, 30, 36, &cfg());
    let event = recovered.notify.expect("a committed value carries an event");
    assert!(!event.evaluate(&config, &mut notified));
    assert!(!notified.contains(7));

    // a later drop below the threshold notifies again
    rec.apply_battery(7, 10, 40, &cfg());
    let low_again = rec.apply_battery(7, 10, 56, &cfg());
    let event = low_again.notify.expect("a committed value carries an event");
    assert!(event.evaluate(&config, &mut notified));
}

#[test]
fn unmonitorable_device_is_excluded_without_a_generation_bump() {
    let mut rec = Reconciler::new();
    let mut coordinator = RestartCoordinator::new();
    rec.apply_presence_added(&mut coordinator, Some(ble("buds", 7, 80, true)));
    rec.apply_battery(7, 75, 0, &cfg());
    assert_eq!(coordinator.current(), 1);
    rec.exclude_unmonitorable(7);
    assert_eq!(rec.registry.len(), 0);
    assert_eq!(rec.debounce.len(), 0);
    // exclusion is not a presence change: the generation stands
    assert_eq!(coordinator.current(), 1);
}
