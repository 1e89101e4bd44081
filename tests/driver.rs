use osc_dmx::config::{select_device, validate, ConfigError, DeviceSelector};
use osc_dmx::ftd2xx::{
    device_nodes, get_fterror, status_result, until_nul, DeviceListInfoNode, FTD2XXError, FTError,
    FlowControl, Parity, RawDeviceInfo, StopBits, WordLength,
};

#[test]
fn status_codes_map_to_errors() {
    assert_eq!(get_fterror(1), FTD2XXError::InvalidHandle);
    assert_eq!(get_fterror(4), FTD2XXError::InsufficientResources);
    assert_eq!(get_fterror(9), FTD2XXError::FailedToWriteDevice);
    assert_eq!(get_fterror(16), FTD2XXError::NotSupported);
    assert_eq!(get_fterror(17), FTD2XXError::OtherError(17));
    assert_eq!(get_fterror(-3), FTD2XXError::OtherError(-3));
    assert_eq!(FTD2XXError::from(2), FTD2XXError::DeviceNotFound);
    assert_eq!(FTError::from(FTD2XXError::IOError), FTError::FTD2XXError(FTD2XXError::IOError));
}

#[test]
fn status_zero_is_success() {
    assert_eq!(status_result(0), Ok(()));
    assert_eq!(status_result(3), Err(FTError::FTD2XXError(FTD2XXError::IOError)));
    assert_eq!(status_result(99), Err(FTError::FTD2XXError(FTD2XXError::OtherError(99))));
}

#[test]
fn line_setting_codes() {
    assert_eq!(WordLength::Bits8.code(), 8);
    assert_eq!(WordLength::Bits7.code(), 7);
    assert_eq!(StopBits::Bits2.code(), 2);
    assert_eq!(StopBits::Bits1.code(), 0);
    assert_eq!(Parity::NoParity.code(), 0);
    assert_eq!(Parity::Space.code(), 4);
    assert_eq!(u16::from(FlowControl::NoFlowControl), 0);
    assert_eq!(u16::from(FlowControl::RtsCts), 0x0100);
    assert_eq!(u16::from(FlowControl::DtrDsr), 0x0200);
    assert_eq!(u16::from(FlowControl::XonXoff((17, 19))), 0x0300);
    assert_eq!(FlowControl::XonXoff((17, 19)).xon_xoff(), (17, 19));
    assert_eq!(FlowControl::RtsCts.xon_xoff(), (0, 0));
}

fn raw(serial: &[u8], description: &[u8], id: u32) -> RawDeviceInfo {
    let mut s = [0u8; 16];
    s[..serial.len()].copy_from_slice(serial);
    let mut d = [0u8; 64];
    d[..description.len()].copy_from_slice(description);
    RawDeviceInfo { flags: 2, device_type: 5, id, location_id: 0x21, serial_number: s, description: d }
}

#[test]
fn device_records_are_read_up_to_nul() {
    let node = DeviceListInfoNode::from_raw(&raw(b"FT1234", b"USB <-> Serial", 0x0403_6001));
    assert_eq!(node.serial_number, "FT1234");
    assert_eq!(node.description, "USB <-> Serial");
    assert_eq!(node.id, 0x0403_6001);
    assert_eq!(node.flags, 2);
    assert_eq!(node.location_id, 0x21);
    let full = DeviceListInfoNode::from_raw(&raw(b"ABCDEFGHIJKLMNOP", b"", 1));
    assert_eq!(full.serial_number, "ABCDEFGHIJKLMNOP");
    assert_eq!(full.description, "");
}

#[test]
fn invalid_utf8_is_replaced() {
    let node = DeviceListInfoNode::from_raw(&raw(b"ab\xffc", b"x", 1));
    assert_eq!(node.serial_number, "ab\u{FFFD}c");
}

#[test]
fn reported_count_is_bounded_by_records() {
    let records = vec![raw(b"A", b"a", 1), raw(b"B", b"b", 2)];
    assert_eq!(device_nodes(&records, 5).len(), 2);
    let one = device_nodes(&records, 1);
    assert_eq!(one.len(), 1);
    assert_eq!(one[0].serial_number, "A");
    assert_eq!(device_nodes(&records, 0).len(), 0);
}

#[test]
fn nul_terminated_text() {
    assert_eq!(until_nul(b"ab\0cd"), b"ab".to_vec());
    assert_eq!(until_nul(b"abc"), b"abc".to_vec());
    assert_eq!(until_nul(b""), Vec::<u8>::new());
}

#[test]
fn configuration_bounds() {
    assert_eq!(validate(512, 92, 12, 5000), Ok(()));
    assert_eq!(validate(1, 1, 1, 1), Ok(()));
    assert_eq!(validate(1, 1000000, 1000000, 10000000000), Ok(()));
    assert_eq!(validate(0, 92, 12, 5000), Err(ConfigError::DmxSize));
    assert_eq!(validate(513, 92, 12, 5000), Err(ConfigError::DmxSize));
    assert_eq!(validate(512, 0, 12, 5000), Err(ConfigError::BreakTime));
    assert_eq!(validate(512, 1000001, 12, 5000), Err(ConfigError::BreakTime));
    assert_eq!(validate(512, 92, 0, 5000), Err(ConfigError::MabTime));
    assert_eq!(validate(512, 92, 1000001, 5000), Err(ConfigError::MabTime));
    assert_eq!(validate(512, 92, 12, 0), Err(ConfigError::IdleTime));
    assert_eq!(validate(512, 92, 12, 10000000001), Err(ConfigError::IdleTime));
}

#[test]
fn device_selection_precedence() {
    let s = String::from;
    assert_eq!(select_device(3, s("S1"), s("D1"), 7), DeviceSelector::Location(7));
    assert_eq!(select_device(3, s("S1"), s("D1"), -1), DeviceSelector::Serial(s("S1")));
    assert_eq!(select_device(3, s(""), s("D1"), -1), DeviceSelector::Description(s("D1")));
    assert_eq!(select_device(3, s(""), s(""), -1), DeviceSelector::Index(3));
}
