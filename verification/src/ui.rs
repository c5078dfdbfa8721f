//! The strings-only view model of the UI bridge: formatting of telemetry
//! values and the exact status texts the window shows.
//!
//! The telemetry labels preserve the source behaviour: the degree label uses
//! U+00BA (masculine ordinal indicator), the pressure value arrives in
//! pascals but is labelled `kPa`, and the stop acknowledgment keeps the
//! spelling `stoped`.

use vstd::prelude::*;

use crate::CoreError;

verus! {

/// The temperature label appended to a formatted value.
pub open spec fn temperature_label() -> Seq<char> {
    " \u{00BA}C"@
}

/// The humidity label appended to a formatted value.
pub open spec fn humidity_label() -> Seq<char> {
    " %"@
}

/// The pressure label appended to a formatted value.
pub open spec fn pressure_label() -> Seq<char> {
    " kPa"@
}

/// The status line published for an error kind.
pub open spec fn error_label(e: CoreError) -> Seq<char> {
    match e {
        CoreError::AdapterUnavailable => "Status: AdapterUnavailable"@,
        CoreError::DiscoveryFailed => "Status: DiscoveryFailed"@,
        CoreError::NoTargetDevice => "Status: NoTargetDevice"@,
        CoreError::ConnectFailed => "Status: ConnectFailed"@,
        CoreError::GattWalkFailed => "Status: GattWalkFailed"@,
        CoreError::MalformedUuid => "Status: MalformedUuid"@,
        CoreError::DecodeFailed => "Status: DecodeFailed"@,
        CoreError::NotifyStartFailed => "Status: NotifyStartFailed"@,
        CoreError::Cancelled => "Status: Cancelled"@,
    }
}

/// `"{value} ºC"`, with the U+00BA character of the source.
pub fn format_temperature(value: &str) -> (r: String)
    ensures
        r@ == value@ + temperature_label(),
{
    let mut s = String::from_str(value);
    s.append(" \u{00BA}C");
    s
}

/// `"{value} %"`.
pub fn format_humidity(value: &str) -> (r: String)
    ensures
        r@ == value@ + humidity_label(),
{
    let mut s = String::from_str(value);
    s.append(" %");
    s
}

/// `"{value} kPa"`; the upstream value is in pascals, the label is preserved.
pub fn format_pressure(value: &str) -> (r: String)
    ensures
        r@ == value@ + pressure_label(),
{
    let mut s = String::from_str(value);
    s.append(" kPa");
    s
}

/// The status text published after a successful connect, before the settle
/// delay.
pub fn info_connecting() -> (r: String)
    ensures
        r@ == "Status: Connecting ..."@,
{
    String::from_str("Status: Connecting ...")
}

/// The status text published once notifications are running.
pub fn info_triggered() -> (r: String)
    ensures
        r@ == "Status: Triggered notification"@,
{
    String::from_str("Status: Triggered notification")
}

/// The acknowledgment text published when notifications are stopped; the
/// spelling of the source is preserved.
pub fn info_stopped() -> (r: String)
    ensures
        r@ == "Status: Notification stoped"@,
{
    String::from_str("Status: Notification stoped")
}

/// The status line for an error kind, `"Status: "` followed by its name.
pub fn error_status(e: CoreError) -> (r: String)
    ensures
        r@ == error_label(e),
{
    match e {
        CoreError::AdapterUnavailable => String::from_str("Status: AdapterUnavailable"),
        CoreError::DiscoveryFailed => String::from_str("Status: DiscoveryFailed"),
        CoreError::NoTargetDevice => String::from_str("Status: NoTargetDevice"),
        CoreError::ConnectFailed => String::from_str("Status: ConnectFailed"),
        CoreError::GattWalkFailed => String::from_str("Status: GattWalkFailed"),
        CoreError::MalformedUuid => String::from_str("Status: MalformedUuid"),
        CoreError::DecodeFailed => String::from_str("Status: DecodeFailed"),
        CoreError::NotifyStartFailed => String::from_str("Status: NotifyStartFailed"),
        CoreError::Cancelled => String::from_str("Status: Cancelled"),
    }
}

} // verus!
