//! The logic of the settings window: the values its controls start from,
//! the settings that its controls give back, and what saving does to the
//! autostart entry.

use vstd::prelude::*;
use vstd::string::*;
use crate::config::Config;

verus! {

/// The values of the settings window's controls.
#[derive(Clone, Copy, Debug, PartialEq, Eq, Structural)]
pub struct SettingsForm {
    /// The "Enable low battery notifications" switch.
    pub enable_notifications: bool,
    /// The notification timeout in seconds.
    pub timeout_seconds: i32,
    /// The "Notify below (%)" value.
    pub lower_battery_level: u8,
    /// The "Re-enable notifications above (%)" value.
    pub upper_battery_level: u8,
    /// The "Notify when charging reaches (%)" switch.
    pub full_charge_enabled: bool,
    /// The target level; it can be edited only while the switch is on.
    pub full_charge_level: u8,
    /// The "Enable XDG autostart" switch.
    pub autostart: bool,
}

/// The controls' values for `config`; with no full-charge level the
/// switch is off and the target shows 100.
pub open spec fn form_of(config: Config, autostart: bool) -> SettingsForm {
    SettingsForm {
        enable_notifications: config.enable_notifications,
        timeout_seconds: config.notification_timeout_in_seconds,
        lower_battery_level: config.lower_battery_level,
        upper_battery_level: config.upper_battery_level,
        full_charge_enabled: config.full_charge_level is Some,
        full_charge_level: match config.full_charge_level {
            Some(l) => l,
            None => 100,
        },
        autostart,
    }
}

/// The settings that the controls' values give.
pub open spec fn config_of(form: SettingsForm) -> Config {
    Config {
        enable_notifications: form.enable_notifications,
        notification_timeout_in_seconds: form.timeout_seconds,
        lower_battery_level: form.lower_battery_level,
        upper_battery_level: form.upper_battery_level,
        full_charge_level: if form.full_charge_enabled {
            Some(form.full_charge_level)
        } else {
            None
        },
    }
}

impl SettingsForm {
    /// The values the window's controls start from, given the settings and
    /// whether autostart is on.
    pub fn from_config(config: &Config, autostart: bool) -> (r: Self)
        ensures
            r == form_of(*config, autostart),
    {
        let (full_charge_enabled, full_charge_level) = match config.full_charge_level {
            Some(l) => (true, l),
            None => (false, 100),
        };
        SettingsForm {
            enable_notifications: config.enable_notifications,
            timeout_seconds: config.notification_timeout_in_seconds,
            lower_battery_level: config.lower_battery_level,
            upper_battery_level: config.upper_battery_level,
            full_charge_enabled,
            full_charge_level,
            autostart,
        }
    }

    /// The settings that "Save" stores.
    pub fn to_config(&self) -> (r: Config)
        ensures
            r == config_of(*self),
    {
        Config {
            enable_notifications: self.enable_notifications,
            notification_timeout_in_seconds: self.timeout_seconds,
            lower_battery_level: self.lower_battery_level,
            upper_battery_level: self.upper_battery_level,
            full_charge_level: if self.full_charge_enabled {
                Some(self.full_charge_level)
            } else {
                None
            },
        }
    }

    /// Whether the full-charge target can be edited.
    pub fn full_charge_level_editable(&self) -> (r: bool)
        ensures
            r == self.full_charge_enabled,
    {
        self.full_charge_enabled
    }
}

/// Each control shows the setting it names, and "Save" stores each
/// control into the setting it names.
pub proof fn lemma_controls_name_settings(config: Config, autostart: bool, form: SettingsForm)
    ensures
        form_of(config, autostart).enable_notifications == config.enable_notifications,
        form_of(config, autostart).timeout_seconds == config.notification_timeout_in_seconds,
        form_of(config, autostart).lower_battery_level == config.lower_battery_level,
        form_of(config, autostart).upper_battery_level == config.upper_battery_level,
        form_of(config, autostart).full_charge_enabled == (config.full_charge_level is Some),
        config.full_charge_level matches Some(l) ==> form_of(config, autostart).full_charge_level == l,
        config.full_charge_level is None ==> form_of(config, autostart).full_charge_level == 100,
        form_of(config, autostart).autostart == autostart,
        config_of(form).enable_notifications == form.enable_notifications,
        config_of(form).notification_timeout_in_seconds == form.timeout_seconds,
        config_of(form).lower_battery_level == form.lower_battery_level,
        config_of(form).upper_battery_level == form.upper_battery_level,
        form.full_charge_enabled ==> config_of(form).full_charge_level == Some(form.full_charge_level),
        !form.full_charge_enabled ==> config_of(form).full_charge_level is None,
{
}

/// Opening the settings window and saving it unchanged stores the settings
/// that were in force.
pub proof fn lemma_save_unchanged_keeps_config(config: Config, autostart: bool)
    ensures
        config_of(form_of(config, autostart)) == config,
{
}

/// Saving and opening the window again shows the same controls, except the
/// target of a switched-off full-charge notification, which is not stored
/// and shows 100 again.
pub proof fn lemma_reopen_shows_saved_form(form: SettingsForm)
    requires
        form.full_charge_enabled || form.full_charge_level == 100,
    ensures
        form_of(config_of(form), form.autostart) == form,
{
}

/// What saving does to the autostart entry.
#[derive(Clone, Copy, Debug, PartialEq, Eq, Structural)]
pub enum AutostartAction {
    /// Write the entry (creating its directory).
    Install,
    /// Delete the existing entry.
    Remove,
    /// Leave things as they are.
    Keep,
}

/// What saving does to the autostart entry, given the switch and whether
/// the entry exists.
pub open spec fn spec_autostart_action(enabled: bool, entry_exists: bool) -> AutostartAction {
    if enabled {
        AutostartAction::Install
    } else if entry_exists {
        AutostartAction::Remove
    } else {
        AutostartAction::Keep
    }
}

/// With the switch on, saving writes the entry; with it off, saving
/// deletes an existing entry and otherwise does nothing.
pub proof fn lemma_autostart_cases(enabled: bool, entry_exists: bool)
    ensures
        enabled ==> spec_autostart_action(enabled, entry_exists) == AutostartAction::Install,
        !enabled && entry_exists ==> spec_autostart_action(enabled, entry_exists) == AutostartAction::Remove,
        !enabled && !entry_exists ==> spec_autostart_action(enabled, entry_exists) == AutostartAction::Keep,
{
}

/// Decides what saving does to the autostart entry.
pub fn autostart_action(enabled: bool, entry_exists: bool) -> (r: AutostartAction)
    ensures
        r == spec_autostart_action(enabled, entry_exists),
{
    if enabled {
        AutostartAction::Install
    } else if entry_exists {
        AutostartAction::Remove
    } else {
        AutostartAction::Keep
    }
}

/// `s` with every occurrence of the non-empty `pattern` replaced by `to`,
/// the occurrences taken from left to right without overlap.
pub open spec fn replaced(s: Seq<char>, pattern: Seq<char>, to: Seq<char>) -> Seq<char>
    decreases s.len(),
{
    if s.len() == 0 || pattern.len() == 0 {
        s
    } else if pattern.len() <= s.len() && s.take(pattern.len() as int) == pattern {
        to + replaced(s.skip(pattern.len() as int), pattern, to)
    } else {
        seq![s[0]] + replaced(s.skip(1), pattern, to)
    }
}

/// Calls `str::replace`, which, as its documentation says, replaces all
/// matches of the pattern with the replacement; for a non-empty pattern
/// the matches are found from left to right and do not overlap.
#[verifier::external_body]
fn replace_all(s: &str, pattern: &str, to: &str) -> (r: String)
    requires
        pattern@.len() > 0,
    ensures
        r@ == replaced(s@, pattern@, to@),
{
    s.replace(pattern, to)
}

/// The autostart entry: the template with every `{exe}` replaced by the
/// path of the program.
pub fn autostart_entry(template: &str, exe: &str) -> (r: String)
    ensures
        r@ == replaced(template@, "{exe}"@, exe@),
{
    let pattern = "{exe}";
    proof {
        reveal_strlit("{exe}");
    }
    replace_all(template, pattern, exe)
}

} // verus!
