use bluegauge::config::Config;
use bluegauge::notify::{NotifiedDevices, NotifyEvent};

#[test]
fn low_battery_notifies_once_below_threshold() {
    let mut notified = NotifiedDevices::new();
    // threshold 15: the first reading at or below it fires
    assert!(notified.process_low_battery(7, 10, 15));
    // further low readings stay quiet
    assert!(!notified.process_low_battery(7, 10, 15));
    assert!(!notified.process_low_battery(7, 15, 15));
    assert!(notified.contains(7));
}

#[test]
fn values_inside_the_hysteresis_band_change_nothing() {
    let mut notified = NotifiedDevices::new();
    assert!(notified.process_low_battery(7, 10, 15));
    // 16..=25 is the band for threshold 15: no notification, flag kept
    assert!(!notified.process_low_battery(7, 16, 15));
    assert!(!notified.process_low_battery(7, 25, 15));
    assert!(notified.contains(7));
    // dropping back below the threshold does not re-notify
    assert!(!notified.process_low_battery(7, 12, 15));
}

#[test]
fn rising_past_the_margin_clears_the_flag() {
    let mut notified = NotifiedDevices::new();
    assert!(notified.process_low_battery(7, 10, 15));
    // more than 10 points above the threshold: the flag clears, silently
    assert!(!notified.process_low_battery(7, 26, 15));
    assert!(!notified.contains(7));
    // a later crossing notifies again
    assert!(notified.process_low_battery(7, 14, 15));
}

#[test]
fn addresses_are_tracked_independently() {
    let mut notified = NotifiedDevices::new();
    assert!(notified.process_low_battery(1, 10, 15));
    assert!(notified.process_low_battery(2, 10, 15));
    assert!(!notified.process_low_battery(1, 10, 15));
    assert!(!notified.process_low_battery(2, 26, 15));
    assert!(notified.contains(1));
    assert!(!notified.contains(2));
}

#[test]
fn evaluate_gates_events_on_the_config_switches() {
    let config = Config::default();
    let mut notified = NotifiedDevices::new();
    // every device-change switch is off by default
    assert!(!NotifyEvent::Added("a".to_string()).evaluate(&config, &mut notified));
    assert!(!NotifyEvent::Removed("a".to_string()).evaluate(&config, &mut notified));
    assert!(!NotifyEvent::Reconnect("a".to_string()).evaluate(&config, &mut notified));
    assert!(!NotifyEvent::Disconnect("a".to_string()).evaluate(&config, &mut notified));

    let mut config = Config::default();
    config.notify_options.added = true;
    config.notify_options.removed = true;
    config.notify_options.reconnection = true;
    config.notify_options.disconnection = true;
    assert!(NotifyEvent::Added("a".to_string()).evaluate(&config, &mut notified));
    assert!(NotifyEvent::Removed("a".to_string()).evaluate(&config, &mut notified));
    assert!(NotifyEvent::Reconnect("a".to_string()).evaluate(&config, &mut notified));
    assert!(NotifyEvent::Disconnect("a".to_string()).evaluate(&config, &mut notified));
}

#[test]
fn evaluate_applies_the_hysteresis_to_low_battery_events() {
    // the default threshold is 15
    let config = Config::default();
    let mut notified = NotifiedDevices::new();
    let low = NotifyEvent::LowBattery("buds".to_string(), 12, 7);
    assert!(low.evaluate(&config, &mut notified));
    assert!(!low.evaluate(&config, &mut notified));
    let recovered = NotifyEvent::LowBattery("buds".to_string(), 30, 7);
    assert!(!recovered.evaluate(&config, &mut notified));
    assert!(low.evaluate(&config, &mut notified));
}
