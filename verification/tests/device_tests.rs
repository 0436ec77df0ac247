use srxl2::device::{default_id_of_code, DeviceEntry, DeviceId, DeviceInfo, DeviceType};
use srxl2::flags::{FlagBit, Flags};
use srxl2::tx::TxFlag;
use srxl2::types::{StmTargetFamily, SPEKTRUM_SRXL_ID, SRXL_MAX_BUFFER_SIZE};

#[test]
fn default_ids_follow_the_table() {
    let expected: [u8; 16] = [
        0x00, 0x10, 0x21, 0x30, 0x40, 0xFF, 0x60, 0x70, 0x81, 0x90, 0xA0, 0xB0, 0xFF, 0xFF, 0xFF,
        0xFF,
    ];
    for code in 0..16u8 {
        assert_eq!(default_id_of_code(code), expected[code as usize], "code {}", code);
    }
    assert_eq!(default_id_of_code(16), 0xFF);
    assert_eq!(default_id_of_code(255), 0xFF);
}

#[test]
fn default_value_of_each_type() {
    assert_eq!(DeviceType::NoDevice.default_value(), 0x00);
    assert_eq!(DeviceType::RemoteReceiver.default_value(), 0x10);
    assert_eq!(DeviceType::Receiver.default_value(), 0x21);
    assert_eq!(DeviceType::FlightController.default_value(), 0x30);
    assert_eq!(DeviceType::ESC.default_value(), 0x40);
    assert_eq!(DeviceType::SRXLServo1.default_value(), 0x60);
    assert_eq!(DeviceType::SRXLServo2.default_value(), 0x70);
    assert_eq!(DeviceType::VTX.default_value(), 0x81);
    assert_eq!(DeviceType::ExtRF.default_value(), 0x90);
    assert_eq!(DeviceType::RemoteId.default_value(), 0xA0);
    assert_eq!(DeviceType::Sensor.default_value(), 0xB0);
    assert_eq!(DeviceType::Broadcast.default_value(), 0xFF);
}

#[test]
fn device_type_comes_from_the_upper_nibble() {
    assert_eq!(DeviceType::try_from(0x00), Ok(DeviceType::NoDevice));
    assert_eq!(DeviceType::try_from(0x1F), Ok(DeviceType::RemoteReceiver));
    assert_eq!(DeviceType::try_from(0x21), Ok(DeviceType::Receiver));
    assert_eq!(DeviceType::try_from(0x30), Ok(DeviceType::FlightController));
    assert_eq!(DeviceType::try_from(0x4A), Ok(DeviceType::ESC));
    assert_eq!(DeviceType::try_from(0x60), Ok(DeviceType::SRXLServo1));
    assert_eq!(DeviceType::try_from(0x70), Ok(DeviceType::SRXLServo2));
    assert_eq!(DeviceType::try_from(0x81), Ok(DeviceType::VTX));
    assert_eq!(DeviceType::try_from(0x90), Ok(DeviceType::ExtRF));
    assert_eq!(DeviceType::try_from(0xA0), Ok(DeviceType::RemoteId));
    assert_eq!(DeviceType::try_from(0xB0), Ok(DeviceType::Sensor));
    assert_eq!(DeviceType::try_from(0xFF), Ok(DeviceType::Broadcast));
}

#[test]
fn reserved_nibbles_name_no_type() {
    for id in [0x50u8, 0x5F, 0xC0, 0xD3, 0xE9] {
        assert_eq!(DeviceType::try_from(id), Err(()));
        assert_eq!(DeviceId(id).device_type(), None);
    }
}

#[test]
fn every_type_is_found_again_from_its_code() {
    let all = [
        DeviceType::NoDevice,
        DeviceType::RemoteReceiver,
        DeviceType::Receiver,
        DeviceType::FlightController,
        DeviceType::ESC,
        DeviceType::SRXLServo1,
        DeviceType::SRXLServo2,
        DeviceType::VTX,
        DeviceType::ExtRF,
        DeviceType::RemoteId,
        DeviceType::Sensor,
        DeviceType::Broadcast,
    ];
    for t in all {
        for low in 0..16u8 {
            assert_eq!(DeviceType::try_from((t.code() << 4) | low), Ok(t));
        }
    }
}

#[test]
fn device_id_parts() {
    let id = DeviceId::new(0x2B);
    assert_eq!(id.value(), 0x2B);
    assert_eq!(id.unit(), 0x0B);
    assert_eq!(id.device_type(), Some(DeviceType::Receiver));
    assert!(id.is_receiver());
    assert!(DeviceId(0x10).is_receiver());
    assert!(!DeviceId(0x30).is_receiver());
    assert!(!DeviceId(0x0F).is_receiver());
}

#[test]
fn flags_test_set_and_clear_bits() {
    let f: Flags<DeviceInfo> = Flags::new(0x03);
    assert_eq!(f.bits(), 0x03);
    assert!(f.has(DeviceInfo::TelemTxEnabled));
    assert!(f.has(DeviceInfo::TelemFullRange));
    assert!(!f.has(DeviceInfo::FwdProgSupport));
    assert!(f.has(DeviceInfo::NoRf));
    assert!(f.has_all(Flags::new(0x01)));
    assert!(!f.has_all(Flags::new(0x05)));
    assert_eq!(f.with(DeviceInfo::FwdProgSupport).bits(), 0x07);
    assert_eq!(f.without(DeviceInfo::TelemTxEnabled).bits(), 0x02);
    let e = DeviceEntry { device_id: DeviceId(0x21), priority: 1, info: 0x04, rfu: 0 };
    assert!(e.info_flags().has(DeviceInfo::FwdProgSupport));
}

#[test]
fn tx_flag_bits() {
    let flags = [
        (TxFlag::EnterBind, 0x01u8),
        (TxFlag::GetBindInfo, 0x02),
        (TxFlag::SetBindInfo, 0x04),
        (TxFlag::BroadcastBindInfo, 0x08),
        (TxFlag::ReportBindInfo, 0x10),
        (TxFlag::SendVtxData, 0x20),
        (TxFlag::SendFwdPgmData, 0x40),
        (TxFlag::SendInternal, 0x80),
    ];
    for (flag, bit) in flags {
        assert_eq!(flag.bit(), bit);
    }
}

#[test]
fn protocol_constants() {
    assert_eq!(SPEKTRUM_SRXL_ID, 0xA6);
    assert_eq!(SRXL_MAX_BUFFER_SIZE, 80);
    assert_eq!(StmTargetFamily::F3.number(), 3);
    assert_eq!(StmTargetFamily::F7.number(), 7);
}
