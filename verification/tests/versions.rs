use usbdm_jmxx::errors::BdmError;
use usbdm_jmxx::usbdm::bdm_info::{BdmInfo, Capabilities, MINIMAL_VERSION};
use usbdm_jmxx::usbdm::decimal::push_decimal;
use usbdm_jmxx::usbdm::version::{format_version, version_major, version_minor, version_patch};

fn probe(sw: u32, hw: u8, icp_hw: u8) -> BdmInfo {
    let mut info = BdmInfo::default();
    info.bdm_software_version = sw;
    info.bdm_hardware_version = hw;
    info.icp_hardware_version = icp_hw;
    info
}

#[test]
fn minimal_version_is_4_12_1() {
    assert_eq!(MINIMAL_VERSION, 0x040C01);
    assert_eq!(format_version(MINIMAL_VERSION), "4.12.1");
}

#[test]
fn default_identity() {
    let info = BdmInfo::default();
    assert_eq!(
        info,
        BdmInfo {
            bdm_software_version: 0,
            bdm_hardware_version: 0,
            icp_software_version: 0,
            icp_hardware_version: 0,
            capabilities: Capabilities::default(),
            command_buffer_size: 100,
            jtag_buffer_size: 100,
            dsc_max_memory_read_size: 0,
            dsc_max_memory_write_size: 0,
        }
    );
}

#[test]
fn format_version_minimal() {
    assert_eq!(format_version(0x040C01), "4.12.1");
}

#[test]
fn format_version_zero() {
    assert_eq!(format_version(0), "0.0.0");
}

#[test]
fn format_version_largest() {
    assert_eq!(format_version(0x00FF_FFFF), "255.255.255");
}

#[test]
fn format_version_ignores_top_byte() {
    assert_eq!(format_version(0xAB01_0203), "1.2.3");
    assert_eq!(format_version(0xFFFF_FFFF), "255.255.255");
}

#[test]
fn format_version_digit_counts() {
    assert_eq!(format_version(0x0A_64_09), "10.100.9");
    assert_eq!(format_version(0x63_0A_C8), "99.10.200");
    assert_eq!(format_version(0x04_0B_99), "4.11.153");
    assert_eq!(format_version(0x65_6E_00), "101.110.0");
}

#[test]
fn version_parts() {
    assert_eq!(version_major(0x040C01), 4);
    assert_eq!(version_minor(0x040C01), 12);
    assert_eq!(version_patch(0x040C01), 1);
    assert_eq!(version_major(0x7712_3456), 0x12);
    assert_eq!(version_minor(0x7712_3456), 0x34);
    assert_eq!(version_patch(0x7712_3456), 0x56);
}

#[test]
fn push_decimal_matches_every_byte() {
    for n in 0..=255u8 {
        let mut out = String::new();
        push_decimal(&mut out, n);
        assert_eq!(out, format!("{}", n));
    }
}

#[test]
fn push_decimal_appends() {
    let mut out = String::from("v");
    push_decimal(&mut out, 7);
    push_decimal(&mut out, 40);
    push_decimal(&mut out, 205);
    assert_eq!(out, "v740205");
}

#[test]
fn version_in_string_renders_own_version() {
    let info = probe(0x040C01, 1, 1);
    assert_eq!(info.version_in_string(), "4.12.1");
    let info = probe(0x050003, 1, 1);
    assert_eq!(info.version_in_string(), "5.0.3");
}

#[test]
fn version_in_string_from_u32_renders_argument() {
    let info = probe(0x040C01, 1, 1);
    assert_eq!(info.version_in_string_from_u32(0x010203), "1.2.3");
    assert_eq!(info.version_in_string_from_u32(MINIMAL_VERSION), "4.12.1");
}

#[test]
fn check_version_accepts_minimal_version() {
    assert_eq!(probe(MINIMAL_VERSION, 3, 3).check_version(), Ok(()));
}

#[test]
fn check_version_accepts_newer_versions() {
    assert_eq!(probe(0x040C02, 0, 0).check_version(), Ok(()));
    assert_eq!(probe(0x050000, 7, 7).check_version(), Ok(()));
    assert_eq!(probe(0x00FF_FFFF, 255, 255).check_version(), Ok(()));
}

#[test]
fn check_version_compares_numbers_not_text() {
    // "4.9.0" sorts after "4.12.1" as text, yet 4.9.0 is the older version.
    assert_eq!(
        probe(0x040900, 1, 1).check_version(),
        Err(BdmError::FirmwareVersionTooOld {
            actual: String::from("4.9.0"),
            required: String::from("4.12.1"),
        })
    );
    // "10.0.0" sorts before "4.12.1" as text, yet 10.0.0 is the newer version.
    assert_eq!(probe(0x0A0000, 1, 1).check_version(), Ok(()));
}

#[test]
fn check_version_rejects_hardware_mismatch_for_any_firmware() {
    for sw in [0u32, 0x040B99, 0x040C00, MINIMAL_VERSION, 0x040C02, 0x00FF_FFFF, 0xFFFF_FFFF] {
        assert_eq!(
            probe(sw, 1, 2).check_version(),
            Err(BdmError::HardwareRevisionMismatch)
        );
    }
}

#[test]
fn check_version_rejects_old_firmware() {
    assert_eq!(
        probe(0x040B99, 1, 1).check_version(),
        Err(BdmError::FirmwareVersionTooOld {
            actual: String::from("4.11.153"),
            required: String::from("4.12.1"),
        })
    );
}

#[test]
fn check_version_rejects_version_just_below_minimal() {
    assert_eq!(
        probe(0x040C00, 5, 5).check_version(),
        Err(BdmError::FirmwareVersionTooOld {
            actual: String::from("4.12.0"),
            required: String::from("4.12.1"),
        })
    );
}

#[test]
fn check_version_rejects_default_identity_as_too_old() {
    assert_eq!(
        BdmInfo::default().check_version(),
        Err(BdmError::FirmwareVersionTooOld {
            actual: String::from("0.0.0"),
            required: String::from("4.12.1"),
        })
    );
}

#[test]
fn check_version_reports_mismatch_before_age() {
    assert_eq!(
        probe(0x010000, 4, 5).check_version(),
        Err(BdmError::HardwareRevisionMismatch)
    );
}

#[test]
fn check_version_does_not_look_at_bootloader_version() {
    let mut info = probe(MINIMAL_VERSION, 2, 2);
    info.icp_software_version = 0;
    assert_eq!(info.check_version(), Ok(()));
    info.icp_software_version = 255;
    assert_eq!(info.check_version(), Ok(()));
}
