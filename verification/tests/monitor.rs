use aerox_5_tray::config::Config;
use aerox_5_tray::monitor::{Alert, NoticeTimeout, NotificationState};

fn low_config() -> Config {
    Config {
        enable_notifications: true,
        notification_timeout_in_seconds: 5,
        lower_battery_level: 15,
        upper_battery_level: 20,
        full_charge_level: None,
    }
}

/// One turn with every planned notification delivered; returns which were planned.
fn turn(s: &mut NotificationState, c: &Config, level: u8, charging: bool) -> (bool, bool) {
    let r = s.on_reading(c, level, charging);
    let low = r.low.is_some();
    let full = r.full.is_some();
    if low {
        s.on_delivery(Alert::LowBattery, true);
    }
    if full {
        s.on_delivery(Alert::FullCharge, true);
    }
    (low, full)
}

#[test]
fn low_notice_content() {
    let mut s = NotificationState::new();
    let r = s.on_reading(&low_config(), 9, false);
    let n = r.low.unwrap();
    assert_eq!(n.alert, Alert::LowBattery);
    assert_eq!(n.summary, "SteelSeries Aerox 5 Wireless");
    assert_eq!(n.body, "Battery level low!\n9% remaining");
    assert_eq!(n.icon, "input-mouse");
    assert_eq!(n.appname, "Aerox 5");
    assert_eq!(n.timeout, NoticeTimeout::Milliseconds(5000));
    assert!(r.full.is_none());
}

#[test]
fn negative_timeout_wraps() {
    let mut s = NotificationState::new();
    let c = Config { notification_timeout_in_seconds: -1, ..low_config() };
    let n = s.on_reading(&c, 14, false).low.unwrap();
    assert_eq!(n.timeout, NoticeTimeout::Default);
}

#[test]
fn zero_timeout_never_expires() {
    let mut s = NotificationState::new();
    let c = Config { notification_timeout_in_seconds: 0, ..low_config() };
    let n = s.on_reading(&c, 14, false).low.unwrap();
    assert_eq!(n.timeout, NoticeTimeout::Never);
}

#[test]
fn large_timeouts() {
    let c = Config { notification_timeout_in_seconds: 4_294_967, ..low_config() };
    let n = NotificationState::new().on_reading(&c, 1, false).low.unwrap();
    assert_eq!(n.timeout, NoticeTimeout::Milliseconds(4_294_967_000));
    let c = Config { notification_timeout_in_seconds: 4_294_968, ..low_config() };
    let n = NotificationState::new().on_reading(&c, 1, false).low.unwrap();
    assert_eq!(n.timeout, NoticeTimeout::Default);
    let c = Config { notification_timeout_in_seconds: 60, ..low_config() };
    let n = NotificationState::new().on_reading(&c, 1, false).low.unwrap();
    assert_eq!(n.timeout, NoticeTimeout::Milliseconds(60_000));
}

#[test]
fn low_notice_sent_once_until_above_upper() {
    let c = low_config();
    let mut s = NotificationState::new();
    assert_eq!(turn(&mut s, &c, 50, false), (false, false));
    assert_eq!(turn(&mut s, &c, 16, false), (false, false));
    assert_eq!(turn(&mut s, &c, 15, false), (false, false));
    assert_eq!(turn(&mut s, &c, 14, false), (true, false));
    assert!(s.low_blocked);
    assert_eq!(turn(&mut s, &c, 13, false), (false, false));
    assert_eq!(turn(&mut s, &c, 18, true), (false, false));
    assert_eq!(turn(&mut s, &c, 20, true), (false, false));
    assert!(s.low_blocked);
    assert_eq!(turn(&mut s, &c, 10, false), (false, false));
    assert_eq!(turn(&mut s, &c, 21, true), (false, false));
    assert!(!s.low_blocked);
    assert_eq!(turn(&mut s, &c, 12, false), (true, false));
}

#[test]
fn failed_low_notice_is_retried() {
    let c = low_config();
    let mut s = NotificationState::new();
    assert!(s.on_reading(&c, 10, false).low.is_some());
    s.on_delivery(Alert::LowBattery, false);
    assert!(!s.low_blocked);
    assert!(s.on_reading(&c, 10, false).low.is_some());
}

#[test]
fn disabled_notifications_send_nothing() {
    let c = Config { enable_notifications: false, ..low_config() };
    let mut s = NotificationState::new();
    for level in [0u8, 5, 15, 16, 100] {
        assert_eq!(turn(&mut s, &c, level, false), (false, false));
    }
    let mut blocked = NotificationState { low_blocked: true, full_notified: false };
    turn(&mut blocked, &c, 100, false);
    assert!(blocked.low_blocked);
}

#[test]
fn full_charge_notice_once_per_charge() {
    // aerox_5 --full-charge-level 80
    let c = Config { enable_notifications: false, full_charge_level: Some(80), ..low_config() };
    let mut s = NotificationState::new();
    assert_eq!(turn(&mut s, &c, 79, true), (false, false));
    let r = s.on_reading(&c, 80, true);
    let n = r.full.unwrap();
    assert_eq!(n.alert, Alert::FullCharge);
    assert_eq!(n.body, "Battery reached 80% while charging!");
    s.on_delivery(Alert::FullCharge, true);
    assert_eq!(turn(&mut s, &c, 81, true), (false, false));
    assert_eq!(turn(&mut s, &c, 100, true), (false, false));
    // unplugged: re-armed
    assert_eq!(turn(&mut s, &c, 100, false), (false, false));
    assert!(!s.full_notified);
    assert_eq!(turn(&mut s, &c, 100, true), (false, true));
}

#[test]
fn full_charge_rearmed_below_level() {
    let c = Config { full_charge_level: Some(100), ..low_config() };
    let mut s = NotificationState::new();
    assert_eq!(turn(&mut s, &c, 100, true), (false, true));
    assert_eq!(turn(&mut s, &c, 99, true), (false, false));
    assert!(!s.full_notified);
    assert_eq!(turn(&mut s, &c, 100, true), (false, true));
}

#[test]
fn both_notifications_in_one_reading() {
    let c = Config { lower_battery_level: 50, upper_battery_level: 60, full_charge_level: Some(40), ..low_config() };
    let mut s = NotificationState::new();
    let r = s.on_reading(&c, 45, true);
    assert!(r.low.is_some());
    assert!(r.full.is_some());
    assert_eq!(r.full.unwrap().body, "Battery reached 45% while charging!");
}

#[test]
fn no_full_level_no_full_notice() {
    let c = low_config();
    let mut s = NotificationState { low_blocked: false, full_notified: true };
    assert_eq!(turn(&mut s, &c, 100, true), (false, false));
    assert!(s.full_notified);
}

#[test]
fn low_notice_only_below_lower_level() {
    let c = low_config();
    let mut s = NotificationState::new();
    assert!(s.on_reading(&c, 15, false).low.is_none());
    assert!(!s.low_blocked);
    assert!(s.on_reading(&c, 14, false).low.is_some());
}

#[test]
fn changed_settings_between_readings() {
    // A low notice is delivered, then the settings change; no second
    // notice until a reading above the (new) upper level.
    let mut s = NotificationState::new();
    let c1 = low_config();
    assert_eq!(turn(&mut s, &c1, 10, false), (true, false));
    let c2 = Config { lower_battery_level: 50, upper_battery_level: 60, ..low_config() };
    assert_eq!(turn(&mut s, &c2, 40, false), (false, false));
    assert_eq!(turn(&mut s, &c2, 55, false), (false, false));
    assert_eq!(turn(&mut s, &c2, 61, true), (false, false));
    assert_eq!(turn(&mut s, &c2, 49, false), (true, false));
}

#[test]
fn failed_full_notice_retried_at_lower_level() {
    let c = Config { full_charge_level: Some(80), ..low_config() };
    let mut s = NotificationState::new();
    assert!(s.on_reading(&c, 95, true).full.is_some());
    s.on_delivery(Alert::FullCharge, false);
    assert!(s.on_reading(&c, 85, true).full.is_some());
}
