//! The notification logic of the battery monitor: from each battery
//! reading it decides which notifications to send, and it remembers which
//! were delivered so that none is repeated.
//!
//! The monitor loop reads the battery, calls [`NotificationState::on_reading`],
//! shows the notices that come back, and reports each outcome to
//! [`NotificationState::on_delivery`].

use vstd::prelude::*;
use vstd::string::*;
use crate::config::Config;
use crate::text::{decimal, push_decimal, lemma_decimal_reads_back};
use crate::cli::unsigned_decimal;

verus! {

/// The two kinds of notification.
#[derive(Clone, Copy, Debug, PartialEq, Eq, Structural)]
pub enum Alert {
    /// The battery is below the lower level.
    LowBattery,
    /// The battery reached the full-charge level while charging.
    FullCharge,
}

/// When a notification expires.
#[derive(Clone, Copy, Debug, PartialEq, Eq, Structural)]
pub enum NoticeTimeout {
    /// When the notification server decides.
    Default,
    /// Never: the user has to close it.
    Never,
    /// After this many milliseconds.
    Milliseconds(u32),
}

/// How notify-rust turns a duration of `secs` seconds into a timeout.
pub open spec fn spec_notification_timeout(secs: u64) -> NoticeTimeout {
    if secs == 0 {
        NoticeTimeout::Never
    } else if secs * 1000 > 0xffff_ffff {
        NoticeTimeout::Default
    } else {
        NoticeTimeout::Milliseconds((secs * 1000) as u32)
    }
}

/// Calls notify-rust's `From<Duration> for Timeout` on a duration of
/// `secs` seconds. Its source gives `Never` for a zero duration, `Default`
/// for more than `u32::MAX` milliseconds, and the number of milliseconds
/// otherwise; the contract states that.
#[verifier::external_body]
fn notification_timeout(secs: u64) -> (r: NoticeTimeout)
    ensures
        r == spec_notification_timeout(secs),
{
    match notify_rust::Timeout::from(std::time::Duration::from_secs(secs)) {
        notify_rust::Timeout::Default => NoticeTimeout::Default,
        notify_rust::Timeout::Never => NoticeTimeout::Never,
        notify_rust::Timeout::Milliseconds(ms) => NoticeTimeout::Milliseconds(ms),
    }
}

/// A desktop notification to show.
pub struct Notice {
    pub alert: Alert,
    pub summary: String,
    pub body: String,
    pub icon: String,
    pub appname: String,
    /// When the notification expires.
    pub timeout: NoticeTimeout,
}

/// The abstract content of a notice.
pub struct NoticeView {
    pub alert: Alert,
    pub summary: Seq<char>,
    pub body: Seq<char>,
    pub icon: Seq<char>,
    pub appname: Seq<char>,
    pub timeout: NoticeTimeout,
}

impl View for Notice {
    type V = NoticeView;

    open spec fn view(&self) -> NoticeView {
        NoticeView {
            alert: self.alert,
            summary: self.summary@,
            body: self.body@,
            icon: self.icon@,
            appname: self.appname@,
            timeout: self.timeout,
        }
    }
}

/// The body of a notification of kind `alert` at `battery_level`.
pub open spec fn notice_body(alert: Alert, battery_level: u8) -> Seq<char> {
    match alert {
        Alert::LowBattery => "Battery level low!\n"@ + decimal(battery_level as nat) + "% remaining"@,
        Alert::FullCharge => "Battery reached "@ + decimal(battery_level as nat) + "% while charging!"@,
    }
}

/// The notification of kind `alert` at `battery_level` under `config`.
/// The timeout is the configured number of seconds taken as a `u64` (a
/// negative number wraps around) and turned into a timeout by notify-rust.
pub open spec fn notice_of(alert: Alert, config: Config, battery_level: u8) -> NoticeView {
    NoticeView {
        alert,
        summary: "SteelSeries Aerox 5 Wireless"@,
        body: notice_body(alert, battery_level),
        icon: "input-mouse"@,
        appname: "Aerox 5"@,
        timeout: spec_notification_timeout(config.notification_timeout_in_seconds as u64),
    }
}

/// What the monitor remembers between readings.
#[derive(Clone, Copy, Debug, PartialEq, Eq, Structural)]
pub struct NotificationState {
    /// A low-battery notification was delivered and the battery has not
    /// risen above the upper level since.
    pub low_blocked: bool,
    /// A full-charge notification was delivered and the device has stayed
    /// charging at or above the full-charge level since.
    pub full_notified: bool,
}

/// Whether a reading of `battery_level` calls for a low-battery
/// notification: notifications are enabled, none is blocked, and the
/// battery is below the lower level.
pub open spec fn wants_low(s: NotificationState, config: Config, battery_level: u8) -> bool {
    config.enable_notifications && !s.low_blocked && battery_level < config.lower_battery_level
}

/// Whether a reading calls for a full-charge notification.
pub open spec fn wants_full(
    s: NotificationState,
    config: Config,
    battery_level: u8,
    charging: bool,
) -> bool {
    match config.full_charge_level {
        Some(f) => charging && battery_level >= f && !s.full_notified,
        None => false,
    }
}

/// Whether a reading re-arms the low-battery notification: notifications
/// are enabled and the battery is above the upper level.
pub open spec fn low_rearms(config: Config, battery_level: u8) -> bool {
    config.enable_notifications && battery_level > config.upper_battery_level
}

/// Whether a reading re-arms the full-charge notification: a full-charge
/// level is set and the device is unplugged or below that level.
pub open spec fn full_rearms(config: Config, battery_level: u8, charging: bool) -> bool {
    match config.full_charge_level {
        Some(f) => !charging || battery_level < f,
        None => false,
    }
}

impl NotificationState {
    /// The state after a reading, before any notification is delivered:
    /// each notification stays blocked unless the reading re-arms it.
    pub open spec fn after_reading(self, config: Config, battery_level: u8, charging: bool) -> Self {
        NotificationState {
            low_blocked: self.low_blocked && !low_rearms(config, battery_level),
            full_notified: self.full_notified && !full_rearms(config, battery_level, charging),
        }
    }


    /// The state after a notification of kind `alert` was shown, or failed
    /// to be shown.
    pub open spec fn after_delivery(self, alert: Alert, delivered: bool) -> Self {
        if !delivered {
            self
        } else {
            match alert {
                Alert::LowBattery => NotificationState { low_blocked: true, ..self },
                Alert::FullCharge => NotificationState { full_notified: true, ..self },
            }
        }
    }

    /// The state of a monitor that has sent nothing yet.
    pub fn new() -> (r: Self)
        ensures
            !r.low_blocked,
            !r.full_notified,
    {
        NotificationState { low_blocked: false, full_notified: false }
    }

    /// Takes a battery reading: updates the state and returns the
    /// notifications to show.
    pub fn on_reading(&mut self, config: &Config, battery_level: u8, charging: bool) -> (r: Reaction)
        ensures
            *final(self) == old(self).after_reading(*config, battery_level, charging),
            r.low is Some <==> wants_low(*old(self), *config, battery_level),
            r.low matches Some(n) ==> n@ == notice_of(Alert::LowBattery, *config, battery_level),
            r.full is Some <==> wants_full(*old(self), *config, battery_level, charging),
            r.full matches Some(n) ==> n@ == notice_of(Alert::FullCharge, *config, battery_level),
    {
        let mut low = None;
        if config.enable_notifications && !self.low_blocked && battery_level
            < config.lower_battery_level {
            low = Some(make_notice(Alert::LowBattery, config, battery_level));
        } else if config.enable_notifications && battery_level > config.upper_battery_level {
            self.low_blocked = false;
        }
        let mut full = None;
        if let Some(full_charge_level) = config.full_charge_level {
            if charging && battery_level >= full_charge_level && !self.full_notified {
                full = Some(make_notice(Alert::FullCharge, config, battery_level));
            } else if !charging || battery_level < full_charge_level {
                self.full_notified = false;
            }
        }
        Reaction { low, full }
    }

    /// Records whether a notification of kind `alert` was shown; a failed
    /// one changes nothing, so the next qualifying reading tries again.
    pub fn on_delivery(&mut self, alert: Alert, delivered: bool)
        ensures
            *final(self) == old(self).after_delivery(alert, delivered),
    {
        if delivered {
            match alert {
                Alert::LowBattery => self.low_blocked = true,
                Alert::FullCharge => self.full_notified = true,
            }
        }
    }
}

/// The notifications called for by one reading.
pub struct Reaction {
    pub low: Option<Notice>,
    pub full: Option<Notice>,
}

/// Builds the notification of kind `alert` at `battery_level`.
fn make_notice(alert: Alert, config: &Config, battery_level: u8) -> (r: Notice)
    ensures
        r@ == notice_of(alert, *config, battery_level),
{
    let body = match alert {
        Alert::LowBattery => {
            let mut s = String::from_str("Battery level low!\n");
            push_decimal(&mut s, battery_level);
            s.append("% remaining");
            s
        },
        Alert::FullCharge => {
            let mut s = String::from_str("Battery reached ");
            push_decimal(&mut s, battery_level);
            s.append("% while charging!");
            s
        },
    };
    Notice {
        alert,
        summary: String::from_str("SteelSeries Aerox 5 Wireless"),
        body,
        icon: String::from_str("input-mouse"),
        appname: String::from_str("Aerox 5"),
        timeout: notification_timeout(config.notification_timeout_in_seconds as u64),
    }
}

/// A timeout of 0 seconds gives notifications that stay until the user
/// closes them; a positive one expires after that many seconds, unless its
/// milliseconds do not fit in a `u32`; a negative one, or one that large,
/// leaves the expiry to the notification server.
pub proof fn lemma_notice_timeout(alert: Alert, config: Config, level: u8)
    ensures
        config.notification_timeout_in_seconds == 0 ==> notice_of(alert, config, level).timeout
            == NoticeTimeout::Never,
        config.notification_timeout_in_seconds > 0 && config.notification_timeout_in_seconds * 1000
            <= 0xffff_ffff ==> notice_of(alert, config, level).timeout == NoticeTimeout::Milliseconds(
            (config.notification_timeout_in_seconds * 1000) as u32,
        ),
        config.notification_timeout_in_seconds * 1000 > 0xffff_ffff ==> notice_of(
            alert,
            config,
            level,
        ).timeout == NoticeTimeout::Default,
        config.notification_timeout_in_seconds < 0 ==> notice_of(alert, config, level).timeout
            == NoticeTimeout::Default,
{
    let t = config.notification_timeout_in_seconds;
    assert(t >= 0 ==> t as u64 == t) by (bit_vector);
    assert(t < 0 ==> t as u64 >= 0x8000_0000_0000_0000u64) by (bit_vector);
}


/// One turn of the monitor loop: the settings in force, a battery reading
/// and, for each notification that it called for, whether showing it
/// succeeded.
pub struct Reading {
    pub config: Config,
    pub battery_level: u8,
    pub charging: bool,
    pub low_delivered: bool,
    pub full_delivered: bool,
}

/// Whether the turn `r` asks for a low-battery notification in state `s`.
pub open spec fn low_asked(s: NotificationState, r: Reading) -> bool {
    wants_low(s, r.config, r.battery_level)
}

/// Whether the turn `r` asks for a full-charge notification in state `s`.
pub open spec fn full_asked(s: NotificationState, r: Reading) -> bool {
    wants_full(s, r.config, r.battery_level, r.charging)
}

/// The state after one turn of the monitor loop.
pub open spec fn cycle(s: NotificationState, r: Reading) -> NotificationState {
    let s1 = s.after_reading(r.config, r.battery_level, r.charging);
    let s2 = if low_asked(s, r) {
        s1.after_delivery(Alert::LowBattery, r.low_delivered)
    } else {
        s1
    };
    if full_asked(s, r) {
        s2.after_delivery(Alert::FullCharge, r.full_delivered)
    } else {
        s2
    }
}

/// The state after the turns `rs`, starting from `s`.
pub open spec fn run(s: NotificationState, rs: Seq<Reading>) -> NotificationState
    decreases rs.len(),
{
    if rs.len() == 0 {
        s
    } else {
        cycle(run(s, rs.drop_last()), rs.last())
    }
}

/// The state before turn `k` of the run `rs` from `s`.
pub open spec fn state_at(s: NotificationState, rs: Seq<Reading>, k: int) -> NotificationState {
    run(s, rs.take(k))
}

proof fn lemma_state_at_next(s: NotificationState, rs: Seq<Reading>, k: int)
    requires
        0 <= k < rs.len(),
    ensures
        state_at(s, rs, k + 1) == cycle(state_at(s, rs, k), rs[k]),
{
    assert(rs.take(k + 1).drop_last() =~= rs.take(k));
    assert(rs.take(k + 1).last() == rs[k]);
}

/// A blocked low-battery notification stays blocked over turns that do not
/// re-arm it.
proof fn lemma_low_stays_blocked(s: NotificationState, rs: Seq<Reading>, a: int, b: int)
    requires
        0 <= a <= b <= rs.len(),
        state_at(s, rs, a).low_blocked,
        forall|m: int| a <= m < b ==> !low_rearms(#[trigger] rs[m].config, rs[m].battery_level),
    ensures
        state_at(s, rs, b).low_blocked,
    decreases b - a,
{
    if a < b {
        lemma_state_at_next(s, rs, a);
        assert(!low_rearms(rs[a].config, rs[a].battery_level));
        lemma_low_stays_blocked(s, rs, a + 1, b);
    }
}

/// An unblocked low-battery notification stays unblocked over turns below
/// which it is not asked for.
proof fn lemma_low_stays_unblocked(s: NotificationState, rs: Seq<Reading>, a: int, b: int)
    requires
        0 <= a <= b <= rs.len(),
        !state_at(s, rs, a).low_blocked,
        forall|m: int| a <= m < b ==> !low_asked(#[trigger] state_at(s, rs, m), rs[m]),
    ensures
        !state_at(s, rs, b).low_blocked,
    decreases b - a,
{
    if a < b {
        lemma_state_at_next(s, rs, a);
        assert(!low_asked(state_at(s, rs, a), rs[a]));
        lemma_low_stays_unblocked(s, rs, a + 1, b);
    }
}

/// A delivered full-charge notification stays delivered over turns that do
/// not re-arm it.
proof fn lemma_full_stays_notified(s: NotificationState, rs: Seq<Reading>, a: int, b: int)
    requires
        0 <= a <= b <= rs.len(),
        state_at(s, rs, a).full_notified,
        forall|m: int| a <= m < b ==> !full_rearms(#[trigger] rs[m].config, rs[m].battery_level, rs[m].charging),
    ensures
        state_at(s, rs, b).full_notified,
    decreases b - a,
{
    if a < b {
        lemma_state_at_next(s, rs, a);
        assert(!full_rearms(rs[a].config, rs[a].battery_level, rs[a].charging));
        lemma_full_stays_notified(s, rs, a + 1, b);
    }
}

/// A full-charge notification not yet delivered stays so over turns that
/// do not ask for it.
proof fn lemma_full_stays_unnotified(s: NotificationState, rs: Seq<Reading>, a: int, b: int)
    requires
        0 <= a <= b <= rs.len(),
        !state_at(s, rs, a).full_notified,
        forall|m: int| a <= m < b ==> !full_asked(#[trigger] state_at(s, rs, m), rs[m]),
    ensures
        !state_at(s, rs, b).full_notified,
    decreases b - a,
{
    if a < b {
        lemma_state_at_next(s, rs, a);
        assert(!full_asked(state_at(s, rs, a), rs[a]));
        lemma_full_stays_unnotified(s, rs, a + 1, b);
    }
}

/// After a low-battery notification was delivered at turn `i`, none is
/// asked for at a later turn `j` unless some turn in between re-armed it
/// (notifications enabled and the battery above the upper level), whatever
/// the settings in force at each turn.
pub proof fn lemma_low_not_repeated(s: NotificationState, rs: Seq<Reading>, i: int, j: int)
    requires
        0 <= i < j < rs.len(),
        low_asked(state_at(s, rs, i), rs[i]),
        rs[i].low_delivered,
        forall|m: int| i < m < j ==> !low_rearms(#[trigger] rs[m].config, rs[m].battery_level),
    ensures
        !low_asked(state_at(s, rs, j), rs[j]),
{
    lemma_state_at_next(s, rs, i);
    lemma_low_stays_blocked(s, rs, i + 1, j);
}

/// After a full-charge notification was delivered at turn `i`, none is
/// asked for at a later turn `j` unless some turn in between re-armed it
/// (a full-charge level set, and the device unplugged or below it),
/// whatever the settings in force at each turn.
pub proof fn lemma_full_not_repeated(s: NotificationState, rs: Seq<Reading>, i: int, j: int)
    requires
        0 <= i < j < rs.len(),
        full_asked(state_at(s, rs, i), rs[i]),
        rs[i].full_delivered,
        forall|m: int| i < m < j ==> !full_rearms(#[trigger] rs[m].config, rs[m].battery_level, rs[m].charging),
    ensures
        !full_asked(state_at(s, rs, j), rs[j]),
{
    lemma_state_at_next(s, rs, i);
    lemma_full_stays_notified(s, rs, i + 1, j);
}

/// A turn that re-arms the low-battery notification is followed by one:
/// if turn `m` has notifications enabled and the battery above the upper
/// level, and a later turn `j` has notifications enabled and the battery
/// below the lower level, some turn from `m` to `j` asks for a low-battery
/// notification.
pub proof fn lemma_rearmed_above_upper(s: NotificationState, rs: Seq<Reading>, m: int, j: int)
    requires
        0 <= m < j < rs.len(),
        low_rearms(rs[m].config, rs[m].battery_level),
        rs[j].config.enable_notifications,
        rs[j].battery_level < rs[j].config.lower_battery_level,
    ensures
        exists|k: int| m <= k <= j && #[trigger] low_asked(state_at(s, rs, k), rs[k]),
{
    if low_asked(state_at(s, rs, m), rs[m]) {
        assert(m <= m <= j && low_asked(state_at(s, rs, m), rs[m]));
    } else if forall|k: int| m < k < j ==> !#[trigger] low_asked(state_at(s, rs, k), rs[k]) {
        lemma_state_at_next(s, rs, m);
        lemma_low_stays_unblocked(s, rs, m + 1, j);
        assert(low_asked(state_at(s, rs, j), rs[j]));
    } else {
        let k = choose|k: int| m < k < j && #[trigger] low_asked(state_at(s, rs, k), rs[k]);
        assert(low_asked(state_at(s, rs, k), rs[k]));
    }
}

/// A low-battery notification that could not be shown at turn `i` is asked
/// for again at the next turn `j` that has notifications enabled and the
/// battery below the lower level, whatever came in between.
pub proof fn lemma_failed_low_retried(s: NotificationState, rs: Seq<Reading>, i: int, j: int)
    requires
        0 <= i < j < rs.len(),
        low_asked(state_at(s, rs, i), rs[i]),
        !rs[i].low_delivered,
        forall|m: int| i < m < j ==> !(#[trigger] rs[m].config.enable_notifications && rs[m].battery_level
            < rs[m].config.lower_battery_level),
        rs[j].config.enable_notifications,
        rs[j].battery_level < rs[j].config.lower_battery_level,
    ensures
        low_asked(state_at(s, rs, j), rs[j]),
{
    lemma_state_at_next(s, rs, i);
    assert forall|m: int| i + 1 <= m < j implies !low_asked(#[trigger] state_at(s, rs, m), rs[m]) by {
        assert(!(rs[m].config.enable_notifications && rs[m].battery_level < rs[m].config.lower_battery_level));
    }
    lemma_low_stays_unblocked(s, rs, i + 1, j);
}

/// Whether the turn `r` is charging at or above a set full-charge level.
pub open spec fn full_level_reached(r: Reading) -> bool {
    match r.config.full_charge_level {
        Some(f) => r.charging && r.battery_level >= f,
        None => false,
    }
}

/// A full-charge notification that could not be shown at turn `i` is asked
/// for again at the next turn `j` that is charging at or above a set
/// full-charge level, whatever came in between.
pub proof fn lemma_failed_full_retried(s: NotificationState, rs: Seq<Reading>, i: int, j: int)
    requires
        0 <= i < j < rs.len(),
        full_asked(state_at(s, rs, i), rs[i]),
        !rs[i].full_delivered,
        forall|m: int| i < m < j ==> !full_level_reached(#[trigger] rs[m]),
        full_level_reached(rs[j]),
    ensures
        full_asked(state_at(s, rs, j), rs[j]),
{
    lemma_state_at_next(s, rs, i);
    assert forall|m: int| i + 1 <= m < j implies !full_asked(#[trigger] state_at(s, rs, m), rs[m]) by {
        assert(!full_level_reached(rs[m]));
    }
    lemma_full_stays_unnotified(s, rs, i + 1, j);
}

/// With notifications disabled, no low-battery notification is ever asked
/// for and the low-battery state does not change.
pub proof fn lemma_disabled_sends_no_low(
    s: NotificationState,
    config: Config,
    level: u8,
    charging: bool,
)
    requires
        !config.enable_notifications,
    ensures
        !wants_low(s, config, level),
        s.after_reading(config, level, charging).low_blocked == s.low_blocked,
{
}

/// Without a full-charge level, no full-charge notification is ever asked
/// for and the full-charge state does not change.
pub proof fn lemma_no_full_level_sends_no_full(
    s: NotificationState,
    config: Config,
    level: u8,
    charging: bool,
)
    requires
        config.full_charge_level is None,
    ensures
        !wants_full(s, config, level, charging),
        s.after_reading(config, level, charging).full_notified == s.full_notified,
{
}

/// The full-charge notification works independently of the low-battery
/// settings: two settings with the same full-charge level decide it alike.
pub proof fn lemma_full_independent_of_low_settings(
    s: NotificationState,
    c1: Config,
    c2: Config,
    level: u8,
    charging: bool,
)
    requires
        c1.full_charge_level == c2.full_charge_level,
    ensures
        wants_full(s, c1, level, charging) == wants_full(s, c2, level, charging),
        s.after_reading(c1, level, charging).full_notified == s.after_reading(c2, level, charging).full_notified,
{
}

/// The low-battery notification does not depend on the full-charge
/// setting or on charging.
pub proof fn lemma_low_independent_of_full_settings(
    s: NotificationState,
    c1: Config,
    c2: Config,
    level: u8,
    charging1: bool,
    charging2: bool,
)
    requires
        c1.enable_notifications == c2.enable_notifications,
        c1.lower_battery_level == c2.lower_battery_level,
        c1.upper_battery_level == c2.upper_battery_level,
    ensures
        wants_low(s, c1, level) == wants_low(s, c2, level),
        s.after_reading(c1, level, charging1).low_blocked == s.after_reading(c2, level, charging2).low_blocked,
{
}

/// Whether `t` is the canonical decimal text of `n`: digits only, no
/// leading zero, reading back to `n`.
pub open spec fn names_level(t: Seq<char>, n: nat) -> bool {
    &&& unsigned_decimal(t) == Some(n)
    &&& (t.len() == 1 || t[0] != '0')
}

/// The low-battery notice says "Battery level low!", then the level that
/// was read, in decimal, then "% remaining"; it comes from the
/// application under its title, with the mouse icon.
pub proof fn lemma_low_notice_states_level(config: Config, battery_level: u8)
    ensures
        exists|t: Seq<char>|
            #![trigger names_level(t, battery_level as nat)]
            notice_of(Alert::LowBattery, config, battery_level).body == "Battery level low!\n"@ + t
                + "% remaining"@ && names_level(t, battery_level as nat),
        notice_of(Alert::LowBattery, config, battery_level).alert == Alert::LowBattery,
        notice_of(Alert::LowBattery, config, battery_level).summary == "SteelSeries Aerox 5 Wireless"@,
        notice_of(Alert::LowBattery, config, battery_level).icon == "input-mouse"@,
        notice_of(Alert::LowBattery, config, battery_level).appname == "Aerox 5"@,
{
    lemma_decimal_reads_back(battery_level as nat);
    assert(names_level(decimal(battery_level as nat), battery_level as nat));
}

/// The full-charge notice says "Battery reached ", then the level that was
/// read, in decimal, then "% while charging!".
pub proof fn lemma_full_notice_states_level(config: Config, battery_level: u8)
    ensures
        exists|t: Seq<char>|
            #![trigger names_level(t, battery_level as nat)]
            notice_of(Alert::FullCharge, config, battery_level).body == "Battery reached "@ + t
                + "% while charging!"@ && names_level(t, battery_level as nat),
        notice_of(Alert::FullCharge, config, battery_level).alert == Alert::FullCharge,
        notice_of(Alert::FullCharge, config, battery_level).summary == "SteelSeries Aerox 5 Wireless"@,
        notice_of(Alert::FullCharge, config, battery_level).icon == "input-mouse"@,
        notice_of(Alert::FullCharge, config, battery_level).appname == "Aerox 5"@,
{
    lemma_decimal_reads_back(battery_level as nat);
    assert(names_level(decimal(battery_level as nat), battery_level as nat));
}

} // verus!
