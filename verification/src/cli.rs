//! Command-line overrides of the saved settings and the checks on their
//! values.

use vstd::prelude::*;
use vstd::string::*;
use crate::config::Config;
use crate::text::{decimal, lemma_decimal_reads_back};

verus! {

/// Whether `c` is an ASCII decimal digit.
pub open spec fn is_digit(c: char) -> bool {
    '0' <= c && c <= '9'
}

/// The value of a string of decimal digits.
pub open spec fn digits_value(s: Seq<char>) -> nat
    decreases s.len(),
{
    if s.len() == 0 {
        0
    } else {
        digits_value(s.drop_last()) * 10 + ((s.last() as nat) - 48) as nat
    }
}

/// The value of `s` read as an unsigned decimal number: one or more digits
/// and nothing else.
pub open spec fn unsigned_decimal(s: Seq<char>) -> Option<nat> {
    if s.len() > 0 && forall|i: int| 0 <= i < s.len() ==> #[trigger] is_digit(s[i]) {
        Some(digits_value(s))
    } else {
        None
    }
}

/// What `str::parse::<u8>` gives: an optional `+`, then decimal digits whose
/// value fits in a `u8`.
pub open spec fn spec_parse_u8(s: Seq<char>) -> Option<u8> {
    let body = if s.len() > 0 && s[0] == '+' { s.drop_first() } else { s };
    match unsigned_decimal(body) {
        Some(v) => if v <= 255 { Some(v as u8) } else { None },
        None => None,
    }
}

/// What `str::parse::<i32>` gives: an optional `+` or `-`, then decimal
/// digits whose signed value fits in an `i32`.
pub open spec fn spec_parse_i32(s: Seq<char>) -> Option<i32> {
    if s.len() > 0 && s[0] == '-' {
        match unsigned_decimal(s.drop_first()) {
            Some(v) => if v <= 0x8000_0000 { Some((0 - v) as i32) } else { None },
            None => None,
        }
    } else {
        let body = if s.len() > 0 && s[0] == '+' { s.drop_first() } else { s };
        match unsigned_decimal(body) {
            Some(v) => if v <= 0x7fff_ffff { Some(v as i32) } else { None },
            None => None,
        }
    }
}

/// Calls `str::parse::<u8>`. Its documentation (`u8::from_str_radix` with
/// radix 10) accepts exactly an optional `+` sign followed by one or more
/// ASCII digits whose value fits in a `u8`; the contract states that.
#[verifier::external_body]
fn parse_u8(s: &str) -> (r: Option<u8>)
    ensures
        r == spec_parse_u8(s@),
{
    s.parse::<u8>().ok()
}

/// The message of the error that `str::parse::<i32>` gives for `s` (the
/// `Display` text of its `ParseIntError`).
pub uninterp spec fn parse_i32_error_text(s: Seq<char>) -> Seq<char>;

/// Calls `str::parse::<i32>` and turns its error into its message. Its
/// documentation (`i32::from_str_radix` with radix 10) accepts exactly an
/// optional `+` or `-` sign followed by one or more ASCII digits whose
/// value fits in an `i32`; the contract states that. The error's message
/// is named, not spelled out: std does not document its text.
#[verifier::external_body]
fn parse_i32(s: &str) -> (r: Result<i32, String>)
    ensures
        r is Ok <==> spec_parse_i32(s@) is Some,
        r matches Ok(v) ==> spec_parse_i32(s@) == Some(v),
        r matches Err(e) ==> e@ == parse_i32_error_text(s@),
{
    s.parse::<i32>().map_err(|e| e.to_string())
}

/// The message that rejects a battery level given on the command line.
pub open spec fn bounds_message() -> Seq<char> {
    "The value has to be an integer between 0 and 100."@
}

/// The battery level that a command-line value names, if it is a whole
/// number from 0 to 100.
pub open spec fn spec_level_argument(s: Seq<char>) -> Option<u8> {
    match spec_parse_u8(s) {
        Some(v) => if v <= 100 { Some(v) } else { None },
        None => None,
    }
}

/// Checks a battery level given on the command line: a whole number from
/// 0 to 100.
pub fn validate_bounds_0_100(value: &str) -> (r: Result<u8, String>)
    ensures
        spec_level_argument(value@) matches Some(v) ==> r == Ok::<u8, String>(v),
        spec_level_argument(value@) is None ==> (r matches Err(msg) && msg@ == bounds_message()),
{
    let msg = "The value has to be an integer between 0 and 100.";
    match parse_u8(value) {
        Some(v) => {
            if v > 100 {
                Err(String::from_str(msg))
            } else {
                Ok(v)
            }
        },
        None => Err(String::from_str(msg)),
    }
}

/// Reads the notification timeout given on the command line: a whole
/// number of seconds that fits in an `i32`; otherwise the message of the
/// parse error.
pub fn parse_timeout(value: &str) -> (r: Result<i32, String>)
    ensures
        spec_parse_i32(value@) matches Some(v) ==> r == Ok::<i32, String>(v),
        spec_parse_i32(value@) is None ==> (r matches Err(e) && e@ == parse_i32_error_text(value@)),
{
    parse_i32(value)
}

/// A battery level written in decimal is accepted as that level when it
/// is at most 100, and rejected above 100; so is it with a leading `+`.
pub proof fn lemma_level_argument_reads_decimal(n: nat)
    ensures
        n <= 100 ==> spec_level_argument(decimal(n)) == Some(n as u8),
        n > 100 ==> spec_level_argument(decimal(n)) is None,
        n <= 100 ==> spec_level_argument(seq!['+'] + decimal(n)) == Some(n as u8),
        n > 100 ==> spec_level_argument(seq!['+'] + decimal(n)) is None,
{
    lemma_decimal_reads_back(n);
    assert(decimal(n)[0] != '+') by {
        assert(is_digit(decimal(n)[0]));
    }
    assert((seq!['+'] + decimal(n)).drop_first() =~= decimal(n));
}

/// The settings given on the command line; each one given overrides the
/// saved value for this session only.
#[derive(Clone, Copy, Debug, PartialEq, Eq, Structural)]
pub struct Args {
    /// Turns low-battery notifications on.
    pub enable_notifications: bool,
    /// Overrides the notification timeout.
    pub notification_timeout_in_seconds: Option<i32>,
    /// Overrides the lower battery level.
    pub lower_battery_level: Option<u8>,
    /// Overrides the upper battery level.
    pub upper_battery_level: Option<u8>,
    /// Overrides the full-charge level.
    pub full_charge_level: Option<u8>,
}

/// The value of an optional override over a current value.
pub open spec fn overridden<T>(over: Option<T>, current: T) -> T {
    match over {
        Some(v) => v,
        None => current,
    }
}

/// The command line that gives no setting.
pub open spec fn no_args() -> Args {
    Args {
        enable_notifications: false,
        notification_timeout_in_seconds: None,
        lower_battery_level: None,
        upper_battery_level: None,
        full_charge_level: None,
    }
}

impl Args {
    /// The settings `c` with the command line's values in force.
    pub open spec fn applied(self, c: Config) -> Config {
        Config {
            enable_notifications: c.enable_notifications || self.enable_notifications,
            notification_timeout_in_seconds: overridden(
                self.notification_timeout_in_seconds,
                c.notification_timeout_in_seconds,
            ),
            lower_battery_level: overridden(self.lower_battery_level, c.lower_battery_level),
            upper_battery_level: overridden(self.upper_battery_level, c.upper_battery_level),
            full_charge_level: if self.full_charge_level is Some {
                self.full_charge_level
            } else {
                c.full_charge_level
            },
        }
    }

    /// Puts the command line's values into `config`: each given value
    /// replaces the saved one; `--enable-notifications` can only turn
    /// notifications on.
    pub fn apply_to(&self, config: &mut Config)
        ensures
            *final(config) == self.applied(*old(config)),
    {
        if self.enable_notifications {
            config.enable_notifications = true;
        }
        if let Some(v) = self.notification_timeout_in_seconds {
            config.notification_timeout_in_seconds = v;
        }
        if let Some(v) = self.lower_battery_level {
            config.lower_battery_level = v;
        }
        if let Some(v) = self.upper_battery_level {
            config.upper_battery_level = v;
        }
        if self.full_charge_level.is_some() {
            config.full_charge_level = self.full_charge_level;
        }
    }
}

/// Each setting after the command line is applied is the flag's value if
/// the flag was given and the saved value otherwise; notifications are on
/// exactly when they were saved on or `--enable-notifications` was given,
/// whatever the other flags.
pub proof fn lemma_apply_sets_each_field(args: Args, c: Config)
    ensures
        args.applied(c).enable_notifications == (c.enable_notifications || args.enable_notifications),
        args.applied(c).notification_timeout_in_seconds == (match args.notification_timeout_in_seconds {
            Some(v) => v,
            None => c.notification_timeout_in_seconds,
        }),
        args.applied(c).lower_battery_level == (match args.lower_battery_level {
            Some(v) => v,
            None => c.lower_battery_level,
        }),
        args.applied(c).upper_battery_level == (match args.upper_battery_level {
            Some(v) => v,
            None => c.upper_battery_level,
        }),
        args.applied(c).full_charge_level == (match args.full_charge_level {
            Some(v) => Some(v),
            None => c.full_charge_level,
        }),
{
}

/// Applying the same command line twice gives what applying it once gives.
pub proof fn lemma_apply_idempotent(args: Args, c: Config)
    ensures
        args.applied(args.applied(c)) == args.applied(c),
{
}

/// A command line that gives no setting leaves the saved settings as they
/// are.
pub proof fn lemma_no_args_keep_config(c: Config)
    ensures
        no_args().applied(c) == c,
{
}

/// The settings that the command line gives do not depend on the saved
/// ones: two saved settings agree after the overrides wherever an override
/// was given.
pub proof fn lemma_overrides_win(args: Args, c1: Config, c2: Config)
    ensures
        args.enable_notifications ==> args.applied(c1).enable_notifications
            && args.applied(c2).enable_notifications,
        args.notification_timeout_in_seconds is Some ==> args.applied(c1).notification_timeout_in_seconds
            == args.applied(c2).notification_timeout_in_seconds,
        args.lower_battery_level is Some ==> args.applied(c1).lower_battery_level
            == args.applied(c2).lower_battery_level,
        args.upper_battery_level is Some ==> args.applied(c1).upper_battery_level
            == args.applied(c2).upper_battery_level,
        args.full_charge_level is Some ==> args.applied(c1).full_charge_level
            == args.applied(c2).full_charge_level,
{
}

} // verus!
