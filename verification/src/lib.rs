//! Turning a scanned WiFi-configuration QR payload into a NetworkManager
//! connection: a verified payload parser, the wire-schema encoding of a
//! connection profile, and the add-then-activate session state machine.
//!
//! All I/O (video capture, the D-Bus channel) lives outside this crate; the
//! logic here works on plain values and is verified.

use vstd::prelude::*;

pub mod errors;
pub mod payload;
pub mod profile;
pub mod session;
pub mod wire;

pub use errors::{Error, ParseError, ServiceError};
pub use profile::{ConectionSettings, Ipv4, Ipv6, Security, WiFi, C};
pub use session::{
    ActiveConnectionHandle, Action, ConnectionHandle, DeviceHandle, DeviceLookup, Event,
    MethodCall, Session, SessionOutcome,
};

verus! {

/// Default number of scan attempts before the scan loop gives up.
pub fn default_retries() -> (r: u16)
    ensures
        r == 100,
{
    100
}

/// What the scan loop should do after one decode of a frame.
#[derive(Debug, PartialEq, Eq)]
pub enum ScanStep {
    /// The decode yielded payloads: hand the batch on.
    Deliver,
    /// Nothing decoded and attempts remain: try the next frame.
    Retry,
    /// Nothing decoded and no attempt remains: the scan failed.
    GiveUp,
}

/// Decide the scan loop's next step from what the last decode yielded and
/// how many attempts are left.
pub fn scan_decision(attempts_left: u16, batch_len: usize) -> (r: ScanStep)
    ensures
        batch_len > 0 ==> r == ScanStep::Deliver,
        batch_len == 0 && attempts_left > 0 ==> r == ScanStep::Retry,
        batch_len == 0 && attempts_left == 0 ==> r == ScanStep::GiveUp,
{
    if batch_len > 0 {
        ScanStep::Deliver
    } else if attempts_left > 0 {
        ScanStep::Retry
    } else {
        ScanStep::GiveUp
    }
}

} // verus!
