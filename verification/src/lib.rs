//! Verified core of a BLE telemetry viewer.
//!
//! The library holds the logic of a small desktop utility that connects to a
//! Bluetooth Low Energy peripheral, subscribes to a GATT characteristic that
//! emits JSON-encoded environmental telemetry, and feeds the live values to a
//! GUI sink.  The BLE host stack and the GUI are outside collaborators: the
//! host is driven by an unverified shell that performs each requested action
//! and reports its outcome back as an event, while everything that decides or
//! computes lives here, with a contract.

use vstd::prelude::*;

pub mod driver;
pub mod gatt;
pub mod laws;
pub mod payload;
pub mod text;
pub mod ui;
pub mod uuid;

verus! {

/// The error kinds of the core.  Causes reported by the BLE host (D-Bus error
/// texts and the like) stay with the unverified shell; the core classifies.
#[derive(Clone, Copy, Debug, PartialEq, Eq, Structural)]
pub enum CoreError {
    /// Adapter initialization or power-on failed; fatal, the run is aborted.
    AdapterUnavailable,
    /// The scan could not start; fatal, the run is aborted.
    DiscoveryFailed,
    /// No device matched the configured target; fatal for this run.
    NoTargetDevice,
    /// `connect` errored or timed out; fatal for this run.
    ConnectFailed,
    /// A service, characteristic or descriptor enumeration failed; non-fatal
    /// at the offending node.
    GattWalkFailed,
    /// A UUID did not match the canonical form; non-fatal.
    MalformedUuid,
    /// A notification payload failed the UTF-8, JSON or shape check; the
    /// sample is dropped.
    DecodeFailed,
    /// `start_notify` errored, or no notifiable characteristic was found;
    /// fatal for this run.
    NotifyStartFailed,
    /// Cooperative shutdown; a normal terminal cause, not a failure.
    Cancelled,
}

} // verus!
