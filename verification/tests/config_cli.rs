use aerox_5_tray::cli::{parse_timeout, validate_bounds_0_100, Args};
use aerox_5_tray::config::{default_lower, default_timeout, default_upper, Config};

const BOUNDS: &str = "The value has to be an integer between 0 and 100.";

fn saved() -> Config {
    Config {
        enable_notifications: false,
        notification_timeout_in_seconds: 7,
        lower_battery_level: 30,
        upper_battery_level: 40,
        full_charge_level: Some(90),
    }
}

fn no_args() -> Args {
    Args {
        enable_notifications: false,
        notification_timeout_in_seconds: None,
        lower_battery_level: None,
        upper_battery_level: None,
        full_charge_level: None,
    }
}

#[test]
fn defaults_match_documented_values() {
    assert_eq!(default_timeout(), 5);
    assert_eq!(default_lower(), 10);
    assert_eq!(default_upper(), 10);
    let c = Config::default();
    assert!(!c.enable_notifications);
    assert_eq!(c.notification_timeout_in_seconds, 5);
    assert_eq!(c.lower_battery_level, 10);
    assert_eq!(c.upper_battery_level, 10);
    assert_eq!(c.full_charge_level, None);
}

#[test]
fn load_or_default_prefers_loaded() {
    assert_eq!(Config::load_or_default(Some(saved())), saved());
    assert_eq!(Config::load_or_default(None), Config::default());
}

#[test]
fn level_argument_accepts_0_to_100() {
    assert_eq!(validate_bounds_0_100("0"), Ok(0));
    assert_eq!(validate_bounds_0_100("15"), Ok(15));
    assert_eq!(validate_bounds_0_100("100"), Ok(100));
    assert_eq!(validate_bounds_0_100("+7"), Ok(7));
    assert_eq!(validate_bounds_0_100("007"), Ok(7));
}

#[test]
fn level_argument_rejects_other_text() {
    for bad in ["101", "255", "256", "-1", "", "+", " 5", "5 ", "abc", "1.5", "-0"] {
        assert_eq!(validate_bounds_0_100(bad), Err(BOUNDS.to_string()), "input {:?}", bad);
    }
}

#[test]
fn timeout_argument_parses_i32() {
    assert_eq!(parse_timeout("5"), Ok(5));
    assert_eq!(parse_timeout("0"), Ok(0));
    assert_eq!(parse_timeout("-3"), Ok(-3));
    assert_eq!(parse_timeout("+12"), Ok(12));
    assert_eq!(parse_timeout("2147483647"), Ok(i32::MAX));
    assert_eq!(parse_timeout("-2147483648"), Ok(i32::MIN));
    assert!(parse_timeout("2147483648").is_err());
    assert!(parse_timeout("").is_err());
    assert!(parse_timeout("x").is_err());
    assert!(parse_timeout("-").is_err());
}

#[test]
fn low_battery_flags_override_saved_values() {
    // aerox_5 --enable-notifications --lower-battery-level 15 --upper-battery-level 20
    let args = Args {
        enable_notifications: true,
        lower_battery_level: Some(15),
        upper_battery_level: Some(20),
        ..no_args()
    };
    let mut c = saved();
    args.apply_to(&mut c);
    assert_eq!(
        c,
        Config {
            enable_notifications: true,
            notification_timeout_in_seconds: 7,
            lower_battery_level: 15,
            upper_battery_level: 20,
            full_charge_level: Some(90),
        }
    );
}

#[test]
fn full_charge_flag_overrides_saved_level() {
    // aerox_5 --full-charge-level 100
    let args = Args { full_charge_level: Some(100), ..no_args() };
    let mut c = saved();
    args.apply_to(&mut c);
    assert_eq!(c.full_charge_level, Some(100));
    assert_eq!(c.lower_battery_level, 30);
    let mut d = Config::default();
    args.apply_to(&mut d);
    assert_eq!(d.full_charge_level, Some(100));
}

#[test]
fn absent_flags_keep_saved_values() {
    let enabled = Config { enable_notifications: true, ..saved() };
    let mut c = enabled;
    no_args().apply_to(&mut c);
    assert_eq!(c, enabled);
}

#[test]
fn applying_flags_twice_is_applying_once() {
    let args = Args {
        enable_notifications: true,
        notification_timeout_in_seconds: Some(0),
        lower_battery_level: Some(5),
        upper_battery_level: None,
        full_charge_level: Some(80),
    };
    let mut once = saved();
    args.apply_to(&mut once);
    let mut twice = once;
    args.apply_to(&mut twice);
    assert_eq!(once, twice);
    assert_eq!(once.notification_timeout_in_seconds, 0);
    assert_eq!(once.upper_battery_level, 40);
}

#[test]
fn timeout_argument_error_text() {
    for bad in ["", "x", "2147483648", "-2147483649", "1.5"] {
        let expected = bad.parse::<i32>().unwrap_err().to_string();
        assert_eq!(parse_timeout(bad), Err(expected), "input {:?}", bad);
    }
}
