//! What a probe reports about itself: versions, buffer sizes, capabilities.

use vstd::prelude::*;
use crate::errors::BdmError;
use crate::usbdm::version::{format_version, version_text};

verus! {

/// The oldest firmware that is accepted, 4.12.1, in packed form.
pub const MINIMAL_VERSION: u32 = 0x040C01;

/// Whether bit `n` of a capability mask is set.
pub open spec fn bit_is_set(mask: u16, n: u16) -> bool {
    (mask >> n) & 1 == 1
}

/// Reads bit `n` of a capability mask.
fn read_bit(mask: u16, n: u16) -> (set: bool)
    requires
        n < 16,
    ensures
        set == bit_is_set(mask, n),
{
    assert((mask & (1u16 << n) != 0) == ((mask >> n) & 1 == 1)) by (bit_vector)
        requires
            n < 16,
    ;
    (mask & (1u16 << n)) != 0
}

/// One feature that a probe may offer.
#[derive(Debug, Clone, Copy, PartialEq, Eq, Structural)]
pub enum Capability {
    /// HCS12 targets.
    Hcs12,
    /// RS08 targets: a 12 V flash programming supply is available.
    Rs08,
    /// Control over the target's Vdd.
    VddControl,
    /// Sensing of the target's Vdd.
    VddSense,
    /// ColdFire V1, V2 and V3 targets, as a family.
    CfvX,
    /// HCS08 targets.
    Hcs08,
    /// ColdFire V1 targets.
    Cfv1,
    /// Targets reached over JTAG.
    Jtag,
    /// DSC targets.
    Dsc,
    /// ARM targets reached over JTAG.
    ArmJtag,
    /// Control and sensing of the reset line.
    Rst,
    /// Sensing of the PST signal.
    Pst,
    /// A CDC serial port over USB.
    Cdc,
    /// ARM targets reached over SWD.
    ArmSwd,
    /// S12Z targets.
    S12z,
}

impl Capability {
    /// The position of this capability's bit in the mask.
    pub open spec fn bit(self) -> u16 {
        match self {
            Capability::Hcs12 => 0,
            Capability::Rs08 => 1,
            Capability::VddControl => 2,
            Capability::VddSense => 3,
            Capability::CfvX => 4,
            Capability::Hcs08 => 5,
            Capability::Cfv1 => 6,
            Capability::Jtag => 7,
            Capability::Dsc => 8,
            Capability::ArmJtag => 9,
            Capability::Rst => 10,
            Capability::Pst => 11,
            Capability::Cdc => 12,
            Capability::ArmSwd => 13,
            Capability::S12z => 14,
        }
    }
}

/// The capabilities of a probe, one flag each.
#[derive(Debug, Clone, Copy, PartialEq, Eq, Structural)]
pub struct Capabilities {
    pub hcs12: bool,
    pub rs08: bool,
    pub vddcontrol: bool,
    pub vddsense: bool,
    pub cfv_x: bool,
    pub hcs08: bool,
    pub cfv1: bool,
    pub jtag: bool,
    pub dsc: bool,
    pub arm_jtag: bool,
    pub rst: bool,
    pub pst: bool,
    pub cdc: bool,
    pub arm_swd: bool,
    pub s12z: bool,
}

impl Capabilities {
    /// The flag that stands for `c`.
    pub open spec fn supports(self, c: Capability) -> bool {
        match c {
            Capability::Hcs12 => self.hcs12,
            Capability::Rs08 => self.rs08,
            Capability::VddControl => self.vddcontrol,
            Capability::VddSense => self.vddsense,
            Capability::CfvX => self.cfv_x,
            Capability::Hcs08 => self.hcs08,
            Capability::Cfv1 => self.cfv1,
            Capability::Jtag => self.jtag,
            Capability::Dsc => self.dsc,
            Capability::ArmJtag => self.arm_jtag,
            Capability::Rst => self.rst,
            Capability::Pst => self.pst,
            Capability::Cdc => self.cdc,
            Capability::ArmSwd => self.arm_swd,
            Capability::S12z => self.s12z,
        }
    }

    /// The set with no capability at all.
    pub open spec fn none() -> Capabilities {
        Capabilities {
            hcs12: false,
            rs08: false,
            vddcontrol: false,
            vddsense: false,
            cfv_x: false,
            hcs08: false,
            cfv1: false,
            jtag: false,
            dsc: false,
            arm_jtag: false,
            rst: false,
            pst: false,
            cdc: false,
            arm_swd: false,
            s12z: false,
        }
    }

    /// This set, enlarged by every capability whose bit is set in `mask`.
    /// Bit 15 stands for nothing.
    pub open spec fn with_mask(self, mask: u16) -> Capabilities {
        Capabilities {
            hcs12: self.hcs12 || bit_is_set(mask, 0),
            rs08: self.rs08 || bit_is_set(mask, 1),
            vddcontrol: self.vddcontrol || bit_is_set(mask, 2),
            vddsense: self.vddsense || bit_is_set(mask, 3),
            cfv_x: self.cfv_x || bit_is_set(mask, 4),
            hcs08: self.hcs08 || bit_is_set(mask, 5),
            cfv1: self.cfv1 || bit_is_set(mask, 6),
            jtag: self.jtag || bit_is_set(mask, 7),
            dsc: self.dsc || bit_is_set(mask, 8),
            arm_jtag: self.arm_jtag || bit_is_set(mask, 9),
            rst: self.rst || bit_is_set(mask, 10),
            pst: self.pst || bit_is_set(mask, 11),
            cdc: self.cdc || bit_is_set(mask, 12),
            arm_swd: self.arm_swd || bit_is_set(mask, 13),
            s12z: self.s12z || bit_is_set(mask, 14),
        }
    }

    /// The set that a mask stands for: exactly the capabilities whose bit is
    /// set.
    pub open spec fn of_mask(mask: u16) -> Capabilities {
        Capabilities::none().with_mask(mask)
    }

    /// Decodes a capability mask from nothing.
    pub fn from_mask(mask: u16) -> (caps: Capabilities)
        ensures
            caps == Capabilities::of_mask(mask),
            forall|c: Capability| caps.supports(c) == bit_is_set(mask, c.bit()),
    {
        let mut caps = Capabilities::default();
        caps.parse(mask);
        caps
    }

    /// Switches on every flag whose bit is set in `capabilities`. No flag is
    /// ever switched off, and bit 15 is not looked at.
    pub fn parse(&mut self, capabilities: u16)
        ensures
            *final(self) == old(self).with_mask(capabilities),
            forall|c: Capability|
                final(self).supports(c) == (old(self).supports(c) || bit_is_set(
                    capabilities,
                    c.bit(),
                )),
    {
        let hcs12: bool = read_bit(capabilities, 0);
        let rs08: bool = read_bit(capabilities, 1);
        let vddcontrol: bool = read_bit(capabilities, 2);
        let vddsense: bool = read_bit(capabilities, 3);
        let cfv_x: bool = read_bit(capabilities, 4);
        let hcs08: bool = read_bit(capabilities, 5);
        let cfv1: bool = read_bit(capabilities, 6);
        let jtag: bool = read_bit(capabilities, 7);
        let dsc: bool = read_bit(capabilities, 8);
        let arm_jtag: bool = read_bit(capabilities, 9);
        let rst: bool = read_bit(capabilities, 10);
        let pst: bool = read_bit(capabilities, 11);
        let cdc: bool = read_bit(capabilities, 12);
        let arm_swd: bool = read_bit(capabilities, 13);
        let s12z: bool = read_bit(capabilities, 14);
        *self = Capabilities {
            hcs12: self.hcs12 || hcs12,
            rs08: self.rs08 || rs08,
            vddcontrol: self.vddcontrol || vddcontrol,
            vddsense: self.vddsense || vddsense,
            cfv_x: self.cfv_x || cfv_x,
            hcs08: self.hcs08 || hcs08,
            cfv1: self.cfv1 || cfv1,
            jtag: self.jtag || jtag,
            dsc: self.dsc || dsc,
            arm_jtag: self.arm_jtag || arm_jtag,
            rst: self.rst || rst,
            pst: self.pst || pst,
            cdc: self.cdc || cdc,
            arm_swd: self.arm_swd || arm_swd,
            s12z: self.s12z || s12z,
        };
        proof {
            Capabilities::lemma_with_mask_supports(*old(self), capabilities);
        }
    }

    /// A mask adds exactly the capabilities whose bits it sets: afterwards a
    /// capability is offered if it was offered before or its bit is set.
    pub proof fn lemma_with_mask_supports(caps: Capabilities, mask: u16)
        ensures
            forall|c: Capability|
                caps.with_mask(mask).supports(c) == (caps.supports(c) || bit_is_set(
                    mask,
                    c.bit(),
                )),
    {
    }

    /// Bit 15 of a mask stands for no capability: clearing or setting it
    /// changes nothing.
    pub proof fn lemma_reserved_bit_ignored(caps: Capabilities, mask: u16)
        ensures
            caps.with_mask(mask) == caps.with_mask(mask & 0x7FFF),
            caps.with_mask(mask) == caps.with_mask(mask | 0x8000),
    {
        assert(forall|n: u16|
            n < 15 ==> (((mask & 0x7FFF) >> n) & 1 == 1) == ((mask >> n) & 1 == 1))
            by (bit_vector);
        assert(forall|n: u16|
            n < 15 ==> (((mask | 0x8000) >> n) & 1 == 1) == ((mask >> n) & 1 == 1))
            by (bit_vector);
    }

    /// Decoding the same mask a second time changes nothing.
    pub proof fn lemma_parse_idempotent(caps: Capabilities, mask: u16)
        ensures
            caps.with_mask(mask).with_mask(mask) == caps.with_mask(mask),
    {
    }

    /// Whether the probe offers `c`.
    pub fn has(&self, c: Capability) -> (offered: bool)
        ensures
            offered == self.supports(c),
    {
        match c {
            Capability::Hcs12 => self.hcs12,
            Capability::Rs08 => self.rs08,
            Capability::VddControl => self.vddcontrol,
            Capability::VddSense => self.vddsense,
            Capability::CfvX => self.cfv_x,
            Capability::Hcs08 => self.hcs08,
            Capability::Cfv1 => self.cfv1,
            Capability::Jtag => self.jtag,
            Capability::Dsc => self.dsc,
            Capability::ArmJtag => self.arm_jtag,
            Capability::Rst => self.rst,
            Capability::Pst => self.pst,
            Capability::Cdc => self.cdc,
            Capability::ArmSwd => self.arm_swd,
            Capability::S12z => self.s12z,
        }
    }

    /// Succeeds when the probe offers `c`, and otherwise names `c` in the
    /// error.
    pub fn check_capability(&self, c: Capability) -> (outcome: Result<(), BdmError>)
        ensures
            outcome.is_ok() <==> self.supports(c),
            outcome.is_err() ==> outcome == Err::<(), BdmError>(
                BdmError::CapabilityNotSupported(c),
            ),
    {
        if self.has(c) {
            Ok(())
        } else {
            Err(BdmError::CapabilityNotSupported(c))
        }
    }

    /// Succeeds when the probe can drive DSC targets.
    pub fn check_dsc_supported(&self) -> (outcome: Result<(), BdmError>)
        ensures
            outcome.is_ok() <==> self.dsc,
            outcome.is_err() ==> outcome == Err::<(), BdmError>(
                BdmError::CapabilityNotSupported(Capability::Dsc),
            ),
    {
        self.check_capability(Capability::Dsc)
    }
}

impl Default for Capabilities {
    /// No capability at all.
    fn default() -> (caps: Self)
        ensures
            caps == Capabilities::none(),
    {
        Capabilities {
            hcs12: false,
            rs08: false,
            vddcontrol: false,
            vddsense: false,
            cfv_x: false,
            hcs08: false,
            cfv1: false,
            jtag: false,
            dsc: false,
            arm_jtag: false,
            rst: false,
            pst: false,
            cdc: false,
            arm_swd: false,
            s12z: false,
        }
    }
}

/// The identity of a probe: what its firmware and its bootloader say about
/// themselves, and the limits that the probe sets.
#[derive(Debug, Clone, Copy, PartialEq, Eq, Structural)]
pub struct BdmInfo {
    /// The firmware's version, packed.
    pub bdm_software_version: u32,
    /// The hardware revision that the firmware names.
    pub bdm_hardware_version: u8,
    /// The bootloader's version.
    pub icp_software_version: u8,
    /// The hardware revision that the bootloader names.
    pub icp_hardware_version: u8,
    /// What the probe can do.
    pub capabilities: Capabilities,
    /// The size of the command buffer, in bytes.
    pub command_buffer_size: u16,
    /// The size of the JTAG buffer, in bytes, where JTAG is offered.
    pub jtag_buffer_size: u16,
    /// The most that one DSC memory read may ask for.
    pub dsc_max_memory_read_size: u16,
    /// The most that one DSC memory write may carry.
    pub dsc_max_memory_write_size: u16,
}

impl BdmInfo {
    /// The identity held before a probe has been asked: versions of zero, no
    /// capability, and buffers of 100 bytes.
    pub open spec fn unidentified() -> BdmInfo {
        BdmInfo {
            bdm_software_version: 0,
            bdm_hardware_version: 0,
            icp_software_version: 0,
            icp_hardware_version: 0,
            capabilities: Capabilities::none(),
            command_buffer_size: 100,
            jtag_buffer_size: 100,
            dsc_max_memory_read_size: 0,
            dsc_max_memory_write_size: 0,
        }
    }

    /// Whether firmware and bootloader describe the same hardware.
    pub open spec fn same_hardware(self) -> bool {
        self.bdm_hardware_version == self.icp_hardware_version
    }

    /// Whether the firmware is at least the oldest one accepted. Versions are
    /// compared as numbers, in their packed form.
    pub open spec fn recent_enough(self) -> bool {
        self.bdm_software_version >= MINIMAL_VERSION
    }

    /// Decides whether this probe can be driven.
    ///
    /// The hardware revisions are compared first, so a probe that fails both
    /// tests is reported for its revisions. A firmware that is too old is
    /// reported with its own version and the oldest one accepted, both as
    /// dotted text.
    pub fn check_version(&self) -> (outcome: Result<(), BdmError>)
        ensures
            outcome.is_ok() <==> self.same_hardware() && self.recent_enough(),
            !self.same_hardware() ==> outcome == Err::<(), BdmError>(
                BdmError::HardwareRevisionMismatch,
            ),
            self.same_hardware() && !self.recent_enough() ==> (outcome matches Err(
                BdmError::FirmwareVersionTooOld { actual, required },
            ) && actual@ == version_text(self.bdm_software_version) && required@ == version_text(
                MINIMAL_VERSION,
            )),
    {
        if self.bdm_hardware_version != self.icp_hardware_version {
            Err(BdmError::HardwareRevisionMismatch)
        } else if self.bdm_software_version < MINIMAL_VERSION {
            Err(
                BdmError::FirmwareVersionTooOld {
                    actual: self.version_in_string(),
                    required: self.version_in_string_from_u32(MINIMAL_VERSION),
                },
            )
        } else {
            Ok(())
        }
    }

    /// The firmware's version as `major.minor.patch`.
    pub fn version_in_string(&self) -> (text: String)
        ensures
            text@ == version_text(self.bdm_software_version),
    {
        format_version(self.bdm_software_version)
    }

    /// Any packed version as `major.minor.patch`.
    pub fn version_in_string_from_u32(&self, ver: u32) -> (text: String)
        ensures
            text@ == version_text(ver),
    {
        format_version(ver)
    }
}

impl Default for BdmInfo {
    /// The identity held before a probe has been asked.
    fn default() -> (info: Self)
        ensures
            info == BdmInfo::unidentified(),
    {
        BdmInfo {
            bdm_software_version: 0,
            bdm_hardware_version: 0,
            icp_software_version: 0,
            icp_hardware_version: 0,
            capabilities: Capabilities::default(),
            command_buffer_size: 100,
            jtag_buffer_size: 100,
            dsc_max_memory_read_size: 0,
            dsc_max_memory_write_size: 0,
        }
    }
}

} // verus!
