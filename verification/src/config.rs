//! The persisted settings of the tray application.

use vstd::prelude::*;

verus! {

/// The settings that govern notifications.
#[derive(Clone, Copy, Debug, PartialEq, Eq, Structural)]
pub struct Config {
    /// Whether low-battery notifications are sent.
    pub enable_notifications: bool,
    /// How long a notification stays on screen; 0 keeps it until dismissed.
    pub notification_timeout_in_seconds: i32,
    /// Battery percentage below which the low-battery notification is sent.
    pub lower_battery_level: u8,
    /// Battery percentage above which the low-battery notification is re-armed.
    pub upper_battery_level: u8,
    /// Battery percentage at which a "charged" notification is sent while
    /// charging; `None` sends no such notification.
    pub full_charge_level: Option<u8>,
}

/// The notification timeout used when none is configured.
pub fn default_timeout() -> (r: i32)
    ensures
        r == 5,
{
    5
}

/// The lower battery level used when none is configured.
pub fn default_lower() -> (r: u8)
    ensures
        r == 10,
{
    10
}

/// The upper battery level used when none is configured.
pub fn default_upper() -> (r: u8)
    ensures
        r == 10,
{
    10
}

/// The settings in force when nothing was saved.
pub open spec fn default_config() -> Config {
    Config {
        enable_notifications: false,
        notification_timeout_in_seconds: 5,
        lower_battery_level: 10,
        upper_battery_level: 10,
        full_charge_level: None,
    }
}

impl Default for Config {
    fn default() -> (r: Config)
        ensures
            r == default_config(),
    {
        Config {
            enable_notifications: false,
            notification_timeout_in_seconds: default_timeout(),
            lower_battery_level: default_lower(),
            upper_battery_level: default_upper(),
            full_charge_level: None,
        }
    }
}

impl Config {
    /// The settings to use, given what could be loaded from the saved
    /// settings file (`None` when it is missing or cannot be read or parsed).
    pub fn load_or_default(loaded: Option<Config>) -> (r: Config)
        ensures
            r == (match loaded {
                Some(c) => c,
                None => default_config(),
            }),
    {
        match loaded {
            Some(c) => c,
            None => Config::default(),
        }
    }
}

} // verus!
