use aerox_5_tray::tray::{BatteryTray, MenuAction, TrayMessage};
use std::sync::mpsc;

#[test]
fn new_tray_says_no_device() {
    let (tx, _rx) = mpsc::channel::<TrayMessage>();
    let tray = BatteryTray::new(tx);
    assert_eq!(tray.battery_level(), 0);
    assert!(!tray.charging());
    assert_eq!(tray.status_message(), Some("No device found".to_string()));
    assert_eq!(tray.tool_tip_description(), "No device found");
}

#[test]
fn tray_texts() {
    let (tx, _rx) = mpsc::channel::<TrayMessage>();
    let tray = BatteryTray::new(tx);
    assert_eq!(tray.id(), "aerox_5");
    assert_eq!(tray.icon_name(), "input-mouse");
    assert_eq!(tray.tool_tip_title(), "SteelSeries Aerox 5 Wireless");
}

#[test]
fn description_shows_reading_without_status() {
    let (tx, _rx) = mpsc::channel::<TrayMessage>();
    let mut tray = BatteryTray::new(tx);
    tray.clear_status_and_update(85, true);
    assert_eq!(tray.status_message(), None);
    assert_eq!(tray.tool_tip_description(), "Battery level: 85%\nCharging");
    tray.clear_status_and_update(7, false);
    assert_eq!(tray.tool_tip_description(), "Battery level: 7%\nNot charging");
    tray.clear_status_and_update(100, false);
    assert_eq!(tray.tool_tip_description(), "Battery level: 100%\nNot charging");
    tray.clear_status_and_update(0, true);
    assert_eq!(tray.tool_tip_description(), "Battery level: 0%\nCharging");
}

#[test]
fn status_hides_reading_until_cleared() {
    let (tx, _rx) = mpsc::channel::<TrayMessage>();
    let mut tray = BatteryTray::new(tx);
    tray.clear_status_and_update(50, false);
    tray.set_status("Mouse is off");
    assert_eq!(tray.tool_tip_description(), "Mouse is off");
    tray.update(60, true);
    assert_eq!(tray.battery_level(), 60);
    assert!(tray.charging());
    assert_eq!(tray.tool_tip_description(), "Mouse is off");
    tray.clear_status_and_update(61, true);
    assert_eq!(tray.tool_tip_description(), "Battery level: 61%\nCharging");
}

#[test]
fn tray_sends_on_its_channel() {
    let (tx, rx) = mpsc::channel::<TrayMessage>();
    let tray = BatteryTray::new(tx);
    tray.sender().clone().send(TrayMessage::ShowSettings).unwrap();
    assert_eq!(rx.try_recv(), Ok(TrayMessage::ShowSettings));
}

#[test]
fn tray_menu_entries() {
    let (tx, _rx) = mpsc::channel::<TrayMessage>();
    let tray = BatteryTray::new(tx);
    let m = tray.menu_entries();
    assert_eq!(m.len(), 2);
    assert_eq!(m[0].label, "Settings");
    assert_eq!(m[0].icon_name, "preferences-system");
    assert_eq!(m[0].action, MenuAction::ShowSettings);
    assert_eq!(m[1].label, "Exit");
    assert_eq!(m[1].icon_name, "application-exit");
    assert_eq!(m[1].action, MenuAction::Exit);
}

#[test]
fn tool_tip_of_new_tray() {
    let (tx, _rx) = mpsc::channel::<TrayMessage>();
    let tt = BatteryTray::new(tx).tool_tip();
    assert_eq!(tt.title, "SteelSeries Aerox 5 Wireless");
    assert_eq!(tt.description, "No device found");
    assert_eq!(tt.icon_name, "");
    assert!(tt.icon_pixmap.is_empty());
}

#[test]
fn tool_tip_with_reading() {
    let (tx, _rx) = mpsc::channel::<TrayMessage>();
    let mut tray = BatteryTray::new(tx);
    tray.clear_status_and_update(42, false);
    let tt = tray.tool_tip();
    assert_eq!(tt.description, "Battery level: 42%\nNot charging");
    assert_eq!(tt.icon_name, "");
    assert!(tt.icon_pixmap.is_empty());
}
