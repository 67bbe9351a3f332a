//! What can go wrong when talking to a probe.

use vstd::prelude::*;
use crate::usbdm::bdm_info::Capability;

verus! {

/// Every failure of the probe layer, as a value that callers can inspect.
#[derive(Debug, PartialEq, Eq)]
pub enum BdmError {
    /// No attached device carries the probe's identifiers.
    DeviceNotFound,
    /// The device could not be claimed or configured.
    ClaimFailure,
    /// A transfer failed or timed out.
    Transport,
    /// The probe answered a command with a status byte other than zero.
    ProbeStatus(u8),
    /// The firmware and the bootloader name different hardware revisions.
    HardwareRevisionMismatch,
    /// The firmware is older than the oldest one accepted. Both versions
    /// are carried as dotted text.
    FirmwareVersionTooOld { actual: String, required: String },
    /// The probe lacks a capability that the operation needs.
    CapabilityNotSupported(Capability),
}

} // verus!
