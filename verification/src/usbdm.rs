//! The probe-facing part of the crate.

pub mod bdm_info;
pub mod decimal;
pub mod version;
