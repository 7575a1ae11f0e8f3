//! The state shown by the tray icon and the texts it displays.

use vstd::prelude::*;
use vstd::string::*;
use std::sync::mpsc::Sender;
use crate::text::{decimal, push_decimal, lemma_decimal_reads_back};
use crate::monitor::names_level;

verus! {

/// A request that the tray menu sends to the application.
#[derive(Clone, Copy, Debug, PartialEq, Eq, Structural)]
pub enum TrayMessage {
    /// Open the settings window.
    ShowSettings,
}

/// What a tray menu item does when activated.
#[derive(Clone, Copy, Debug, PartialEq, Eq, Structural)]
pub enum MenuAction {
    /// Send [`TrayMessage::ShowSettings`] on the tray's channel.
    ShowSettings,
    /// Quit the application.
    Exit,
}

/// An item of the tray menu.
pub struct MenuEntry {
    pub label: String,
    pub icon_name: String,
    pub action: MenuAction,
}

/// An image of the tooltip, in ARGB32, network byte order.
pub struct PixmapIcon {
    pub width: i32,
    pub height: i32,
    pub data: Vec<u8>,
}

/// The content of the tray's tooltip.
pub struct ToolTipContent {
    /// The freedesktop name of the tooltip's icon; empty for none.
    pub icon_name: String,
    /// The tooltip's images.
    pub icon_pixmap: Vec<PixmapIcon>,
    pub title: String,
    pub description: String,
}

/// The sending end of a channel of std.
#[verifier::external_type_specification]
#[verifier::external_body]
#[verifier::reject_recursive_types(T)]
pub struct ExSender<T>(Sender<T>);

/// What the tray shows: the last battery reading, and a status message
/// that, when present, takes the reading's place in the tooltip.
pub struct BatteryTray {
    battery_level: u8,
    charging: bool,
    status_message: Option<String>,
    tx: Sender<TrayMessage>,
}

/// The abstract content of a tray.
pub struct TrayView {
    pub battery_level: u8,
    pub charging: bool,
    pub status_message: Option<Seq<char>>,
}

/// The view of an optional string.
pub open spec fn opt_view(s: Option<String>) -> Option<Seq<char>> {
    match s {
        Some(m) => Some(m@),
        None => None,
    }
}

impl View for BatteryTray {
    type V = TrayView;

    closed spec fn view(&self) -> TrayView {
        TrayView {
            battery_level: self.battery_level,
            charging: self.charging,
            status_message: opt_view(self.status_message),
        }
    }
}

/// The tooltip's description of a tray whose content is `v`.
pub open spec fn description(v: TrayView) -> Seq<char> {
    match v.status_message {
        Some(m) => m,
        None => "Battery level: "@ + decimal(v.battery_level as nat) + "%"@ + if v.charging {
            "\nCharging"@
        } else {
            "\nNot charging"@
        },
    }
}

impl BatteryTray {
    /// The channel on which the tray sends its menu requests.
    pub closed spec fn channel(&self) -> Sender<TrayMessage> {
        self.tx
    }

    /// A tray that has no reading yet and says that no device was found.
    pub fn new(tx: Sender<TrayMessage>) -> (r: Self)
        ensures
            r@.battery_level == 0,
            !r@.charging,
            r@.status_message == Some("No device found"@),
            r.channel() == tx,
    {
        BatteryTray {
            battery_level: 0,
            charging: false,
            status_message: Some(String::from_str("No device found")),
            tx,
        }
    }

    /// Shows `message` in place of the battery reading.
    pub fn set_status(&mut self, message: &str)
        ensures
            final(self)@.status_message == Some(message@),
            final(self)@.battery_level == old(self)@.battery_level,
            final(self)@.charging == old(self)@.charging,
            final(self).channel() == old(self).channel(),
    {
        self.status_message = Some(String::from_str(message));
    }

    /// Records a battery reading; a status message, if any, stays shown.
    pub fn update(&mut self, battery_level: u8, charging: bool)
        ensures
            final(self)@.battery_level == battery_level,
            final(self)@.charging == charging,
            final(self)@.status_message == old(self)@.status_message,
            final(self).channel() == old(self).channel(),
    {
        self.battery_level = battery_level;
        self.charging = charging;
    }

    /// Records a battery reading and removes the status message, so that
    /// the reading is shown.
    pub fn clear_status_and_update(&mut self, battery_level: u8, charging: bool)
        ensures
            final(self)@.battery_level == battery_level,
            final(self)@.charging == charging,
            final(self)@.status_message is None,
            final(self).channel() == old(self).channel(),
    {
        self.status_message = None;
        self.battery_level = battery_level;
        self.charging = charging;
    }

    /// The last battery level recorded.
    pub fn battery_level(&self) -> (r: u8)
        ensures
            r == self@.battery_level,
    {
        self.battery_level
    }

    /// Whether the last reading said that the device is charging.
    pub fn charging(&self) -> (r: bool)
        ensures
            r == self@.charging,
    {
        self.charging
    }

    /// The status message shown, if any.
    pub fn status_message(&self) -> (r: Option<String>)
        ensures
            opt_view(r) == self@.status_message,
    {
        match &self.status_message {
            Some(m) => Some(m.clone()),
            None => None,
        }
    }

    /// The channel on which the tray menu sends its requests.
    pub fn sender(&self) -> (r: &Sender<TrayMessage>)
        ensures
            *r == self.channel(),
    {
        &self.tx
    }

    /// The tray item's identifier.
    pub fn id(&self) -> (r: String)
        ensures
            r@ == "aerox_5"@,
    {
        String::from_str("aerox_5")
    }

    /// The name of the tray item's icon.
    pub fn icon_name(&self) -> (r: String)
        ensures
            r@ == "input-mouse"@,
    {
        String::from_str("input-mouse")
    }

    /// The tray menu, from top to bottom: "Settings", which opens the
    /// settings window, and "Exit", which quits.
    pub fn menu_entries(&self) -> (r: Vec<MenuEntry>)
        ensures
            r@.len() == 2,
            r@[0].label@ == "Settings"@,
            r@[0].icon_name@ == "preferences-system"@,
            r@[0].action == MenuAction::ShowSettings,
            r@[1].label@ == "Exit"@,
            r@[1].icon_name@ == "application-exit"@,
            r@[1].action == MenuAction::Exit,
    {
        let mut v = Vec::new();
        v.push(MenuEntry {
            label: String::from_str("Settings"),
            icon_name: String::from_str("preferences-system"),
            action: MenuAction::ShowSettings,
        });
        v.push(MenuEntry {
            label: String::from_str("Exit"),
            icon_name: String::from_str("application-exit"),
            action: MenuAction::Exit,
        });
        v
    }

    /// The tooltip: the title and description below, with no icon.
    pub fn tool_tip(&self) -> (r: ToolTipContent)
        ensures
            r.title@ == "SteelSeries Aerox 5 Wireless"@,
            r.description@ == description(self@),
            r.icon_name@ == Seq::<char>::empty(),
            r.icon_pixmap@.len() == 0,
    {
        ToolTipContent {
            icon_name: String::new(),
            icon_pixmap: Vec::new(),
            title: self.tool_tip_title(),
            description: self.tool_tip_description(),
        }
    }

    /// The tooltip's title.
    pub fn tool_tip_title(&self) -> (r: String)
        ensures
            r@ == "SteelSeries Aerox 5 Wireless"@,
    {
        String::from_str("SteelSeries Aerox 5 Wireless")
    }

    /// The tooltip's description: the status message if there is one, else
    /// the battery level and whether the device is charging.
    pub fn tool_tip_description(&self) -> (r: String)
        ensures
            r@ == description(self@),
    {
        match &self.status_message {
            Some(m) => m.clone(),
            None => {
                let mut s = String::from_str("Battery level: ");
                push_decimal(&mut s, self.battery_level);
                s.append("%");
                if self.charging {
                    s.append("\nCharging");
                } else {
                    s.append("\nNot charging");
                }
                s
            },
        }
    }
}

/// With no status message, the tooltip says "Battery level: ", the level
/// in decimal, "%", then on a new line "Charging" or "Not charging"; with
/// one, it says the message alone.
pub proof fn lemma_description_states_reading(v: TrayView)
    ensures
        v.status_message matches Some(m) ==> description(v) == m,
        v.status_message is None ==> exists|t: Seq<char>|
            #![trigger names_level(t, v.battery_level as nat)]
            description(v) == "Battery level: "@ + t + "%"@ + (if v.charging {
                "\nCharging"@
            } else {
                "\nNot charging"@
            }) && names_level(t, v.battery_level as nat),
{
    lemma_decimal_reads_back(v.battery_level as nat);
    assert(names_level(decimal(v.battery_level as nat), v.battery_level as nat));
}

} // verus!
