//! How the monitor reacts when reading the battery fails.

use vstd::prelude::*;
use vstd::string::*;

verus! {

/// What went wrong when talking to the mouse, as far as the monitor tells
/// errors apart.
pub enum DeviceFault {
    /// The HID API reported an error with this message.
    HidApiError { message: String },
    /// No receiver was found.
    NoDeviceFound,
    /// The receiver was found but the mouse is off.
    MouseOff,
    /// Any other error.
    Other,
}

/// The monitor's reaction to a fault.
#[derive(Clone, Copy, Debug, PartialEq, Eq, Structural)]
pub enum FaultResponse {
    /// The receiver was unplugged: show the reconnect status, pair with the
    /// device again and, if a reading then succeeds, show it.
    Reconnect,
    /// Log the error and show its text as the tray's status.
    ShowError,
    /// Only log the error.
    Report,
}

/// The message with which the HID API reports an unplugged device.
pub open spec fn unplugged_message() -> Seq<char> {
    "No such device"@
}

/// The reaction to `fault`.
pub open spec fn fault_response(fault: DeviceFault) -> FaultResponse {
    match fault {
        DeviceFault::HidApiError { message } => if message@ == unplugged_message() {
            FaultResponse::Reconnect
        } else {
            FaultResponse::Report
        },
        DeviceFault::NoDeviceFound => FaultResponse::ShowError,
        DeviceFault::MouseOff => FaultResponse::ShowError,
        DeviceFault::Other => FaultResponse::Report,
    }
}

/// The monitor reconnects exactly when the HID API says "No such device",
/// shows the error exactly when no device was found or the mouse is off,
/// and otherwise only logs it.
pub proof fn lemma_fault_cases(fault: DeviceFault)
    ensures
        (fault_response(fault) == FaultResponse::Reconnect) <==> (fault matches DeviceFault::HidApiError {
            message,
        } && message@ == "No such device"@),
        (fault_response(fault) == FaultResponse::ShowError) <==> (fault is NoDeviceFound
            || fault is MouseOff),
{
}

/// Decides how to react to `fault`.
pub fn respond_to_fault(fault: &DeviceFault) -> (r: FaultResponse)
    ensures
        r == fault_response(*fault),
{
    match fault {
        DeviceFault::HidApiError { message } => {
            let unplugged = String::from_str("No such device");
            if message.eq(&unplugged) {
                FaultResponse::Reconnect
            } else {
                FaultResponse::Report
            }
        },
        DeviceFault::NoDeviceFound => FaultResponse::ShowError,
        DeviceFault::MouseOff => FaultResponse::ShowError,
        DeviceFault::Other => FaultResponse::Report,
    }
}

/// The status shown while the monitor pairs with the device again.
pub fn reconnect_status() -> (r: String)
    ensures
        r@ == "No device found."@,
{
    String::from_str("No device found.")
}

} // verus!
