//! What to ask of the Bluetooth control tool, and how to read its answers.
//!
//! The tool is run by the caller. An answer comes back either as the text it
//! printed or as its exit status, `Some(true)` for success, `Some(false)` for
//! failure; `None` stands throughout for a run that could not be had.

use crate::text::{contains, occurs_in, views_of};
use vstd::prelude::*;

verus! {

/// The program that the requests are run with.
pub const CONTROL_TOOL: &'static str = "bluetoothctl";

/// The program that shows a desktop notification.
pub const NOTIFIER_TOOL: &'static str = "notify-send";

/// The title of the tray item and of every notification.
pub const TITLE: &'static str = "Bluetooth Manager";

/// One invocation of the control tool.
#[derive(Debug, Clone, PartialEq, Eq)]
pub enum Request {
    /// Report on the adapter.
    Show,
    /// List the paired devices.
    DevicesPaired,
    /// Report on the device with this address.
    Info(String),
    /// Switch the adapter on (`true`) or off.
    Power(bool),
    /// Open a link to the device with this address.
    Connect(String),
    /// Close the link to the device with this address.
    Disconnect(String),
}

/// The text whose presence in the adapter's report means that it is on.
pub open spec fn powered_marker() -> Seq<char> {
    "Powered: yes"@
}

/// The word that the power subcommand takes for a state.
pub open spec fn power_word(on: bool) -> Seq<char> {
    if on {
        "on"@
    } else {
        "off"@
    }
}

/// The argument vector of a request.
pub open spec fn arguments_of(request: Request) -> Seq<Seq<char>> {
    match request {
        Request::Show => seq!["show"@],
        Request::DevicesPaired => seq!["devices"@, "Paired"@],
        Request::Info(mac) => seq!["info"@, mac@],
        Request::Power(on) => seq!["power"@, power_word(on)],
        Request::Connect(mac) => seq!["connect"@, mac@],
        Request::Disconnect(mac) => seq!["disconnect"@, mac@],
    }
}

/// Whether the adapter's report says that it is on. A report that could not
/// be had counts as off.
pub open spec fn report_powered(report: Option<Seq<char>>) -> bool {
    match report {
        Some(text) => occurs_in(text, powered_marker()),
        None => false,
    }
}

/// What a power request reports for a given exit: success wherever the tool
/// ran, whatever its exit status; failure only where it could not be run.
pub open spec fn power_outcome(exit: Option<bool>) -> bool {
    exit is Some
}

/// What a connect or disconnect request reports for a given exit: success
/// exactly where the tool ran and exited with success.
pub open spec fn link_outcome(exit: Option<bool>) -> bool {
    exit == Some(true)
}

/// Two arguments as a vector of owned strings.
fn pair_of(first: &str, second: &str) -> (args: Vec<String>)
    ensures
        views_of(args@) == seq![first@, second@],
{
    let mut args: Vec<String> = Vec::new();
    args.push(first.to_owned());
    args.push(second.to_owned());
    assert(views_of(args@) =~= seq![first@, second@]);
    args
}

impl Request {
    /// The arguments to run the control tool with.
    pub fn arguments(&self) -> (args: Vec<String>)
        ensures
            views_of(args@) == arguments_of(*self),
    {
        match self {
            Request::Show => {
                let mut args: Vec<String> = Vec::new();
                args.push("show".to_owned());
                assert(views_of(args@) =~= seq!["show"@]);
                args
            },
            Request::DevicesPaired => pair_of("devices", "Paired"),
            Request::Info(mac) => pair_of("info", mac.as_str()),
            Request::Power(on) => {
                if *on {
                    pair_of("power", "on")
                } else {
                    pair_of("power", "off")
                }
            },
            Request::Connect(mac) => pair_of("connect", mac.as_str()),
            Request::Disconnect(mac) => pair_of("disconnect", mac.as_str()),
        }
    }
}

/// Whether the adapter is powered, from the tool's report on it: the report
/// holds `"Powered: yes"`. An adapter that is off and a tool that could not
/// be run look the same.
pub fn get_bluetooth_status(report: Option<&str>) -> (powered: bool)
    ensures
        powered == report_powered(
            match report {
                Some(text) => Some(text@),
                None => None,
            },
        ),
{
    match report {
        Some(text) => contains(text, "Powered: yes"),
        None => false,
    }
}

/// The request of the status query: the report on the adapter.
pub fn status_request() -> (request: Request)
    ensures
        request == Request::Show,
{
    Request::Show
}

/// The request of the device listing: the paired devices.
pub fn listing_request() -> (request: Request)
    ensures
        request == Request::DevicesPaired,
{
    Request::DevicesPaired
}

/// The request that switches the adapter on.
pub fn enable_bluetooth() -> (request: Request)
    ensures
        request == Request::Power(true),
{
    Request::Power(true)
}

/// The request that switches the adapter off.
pub fn disable_bluetooth() -> (request: Request)
    ensures
        request == Request::Power(false),
{
    Request::Power(false)
}

/// What a power request reports: success wherever the tool ran. Its exit
/// status is not looked at; only a tool that could not be run reports
/// failure.
pub fn power_reported(exit: Option<bool>) -> (ok: bool)
    ensures
        ok == power_outcome(exit),
        ok == (exit is Some),
{
    exit.is_some()
}

/// The request that opens a link to the device with address `mac`.
pub fn connect_device(mac: &str) -> (request: Request)
    ensures
        request matches Request::Connect(m) && m@ == mac@,
{
    Request::Connect(mac.to_owned())
}

/// The request that closes the link to the device with address `mac`.
pub fn disconnect_device(mac: &str) -> (request: Request)
    ensures
        request matches Request::Disconnect(m) && m@ == mac@,
{
    Request::Disconnect(mac.to_owned())
}

/// What a connect or disconnect request reports: success exactly where the
/// tool ran and exited with success.
pub fn link_reported(exit: Option<bool>) -> (ok: bool)
    ensures
        ok == link_outcome(exit),
        ok == (exit == Some(true)),
{
    match exit {
        Some(success) => success,
        None => false,
    }
}

/// The arguments to run the desktop notifier with: the fixed title, then the
/// message as it stands.
pub fn notification_arguments(message: &str) -> (args: Vec<String>)
    ensures
        views_of(args@) == seq![TITLE@, message@],
{
    pair_of(TITLE, message)
}

} // verus!
