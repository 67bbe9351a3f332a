//! Identity and capability negotiation for the USBDM debug probe.
//!
//! The probe reports its firmware and hardware revisions together with a
//! 16-bit capability mask. This crate decodes that report, decides whether
//! the probe is recent enough to be driven, and renders versions as text.

pub mod errors;
pub mod usbdm;
