use srxl2::bind::{BindData, BindPayload, BindStatus};
use srxl2::channel::ChannelData;
use srxl2::control::{max, max2, max3, CmdCode, ControlData, ControlPacket};
use srxl2::crc::{crc16_of, crc_update};
use srxl2::device::DeviceId;
use srxl2::error::{FrameError, PacketCastError};
use srxl2::fwd_pgm::FwdPgmData;
use srxl2::handshake::{Baud, HandshakeData};
use srxl2::internal::InternalData;
use srxl2::packet::{build_frame, Header, Packet, PacketType};
use srxl2::param::ParamPayload;
use srxl2::rssi::RssiPayload;
use srxl2::telemetry::{TelemetryData, TelemetryPayload};
use srxl2::vtx::{Band, Mode, Power, Region, VtxData};
use srxl2::wire::{push_le16, push_le32, push_le64, read_i8, read_le16, read_le32, read_le64};

fn handshake_a() -> HandshakeData {
    HandshakeData {
        src_dev_id: DeviceId(0x30),
        dest_dev_id: DeviceId(0xFF),
        priority: 10,
        baud_supported: 1,
        info: 0,
        uid: 0x1234_5678,
    }
}

const HANDSHAKE_A_FRAME: [u8; 14] =
    [0xA6, 0x21, 0x0E, 0x30, 0xFF, 0x0A, 0x01, 0x00, 0x78, 0x56, 0x34, 0x12, 0xA1, 0x82];

#[test]
fn little_endian_fields_are_low_byte_first() {
    let mut out = Vec::new();
    push_le16(&mut out, 0x1234);
    push_le32(&mut out, 0xDEAD_BEEF);
    push_le64(&mut out, 0x0102_0304_0506_0708);
    assert_eq!(
        out,
        vec![0x34, 0x12, 0xEF, 0xBE, 0xAD, 0xDE, 0x08, 0x07, 0x06, 0x05, 0x04, 0x03, 0x02, 0x01]
    );
    assert_eq!(read_le16(&out, 0), 0x1234);
    assert_eq!(read_le32(&out, 2), 0xDEAD_BEEF);
    assert_eq!(read_le64(&out, 6), 0x0102_0304_0506_0708);
    assert_eq!(read_i8(&[0xC4], 0), -60);
    assert_eq!(read_i8(&[0x7F], 0), 127);
}

#[test]
fn crc_of_one_byte_matches_the_polynomial() {
    // 0x01 shifted through the register once leaves the polynomial itself.
    assert_eq!(crc_update(0, 0x01), 0x1021);
    assert_eq!(crc16_of(&[0x01], 1), 0x1021);
    assert_eq!(crc16_of(&[0xA6, 0x21, 0x0E], 0), 0);
}

#[test]
fn handshake_frame_has_the_documented_layout() {
    let p = Packet::from_handshake(&handshake_a());
    let mut out = vec![0xEE; 3];
    let n = p.serialize(&mut out);
    assert_eq!(n, 14);
    assert_eq!(out, HANDSHAKE_A_FRAME.to_vec());
    assert_eq!(
        p.hdr,
        Header { srxl_id: 0xA6, packet_type: PacketType::Handshake, length: 14 }
    );
}

#[test]
fn handshake_round_trip() {
    let p = Packet::parse(&HANDSHAKE_A_FRAME).unwrap();
    let v = p.as_handshake_ref().unwrap();
    assert_eq!(v.handshake, handshake_a());
    let mut out = Vec::new();
    p.serialize(&mut out);
    assert_eq!(out, HANDSHAKE_A_FRAME.to_vec());
    let mut payload = Vec::new();
    v.handshake.encode(&mut payload);
    assert_eq!(payload, HANDSHAKE_A_FRAME[3..12].to_vec());
    assert_eq!(HandshakeData::decode(&payload), Some(handshake_a()));
    assert_eq!(HandshakeData::decode(&payload[..8]), None);
}

#[test]
fn handshake_flags_read_the_bytes() {
    let h = handshake_a();
    assert!(h.baud_flags().has(Baud::Baud400000));
    assert!(h.baud_flags().has(Baud::Baud115200));
    assert!(!h.info_flags().has(srxl2::device::DeviceInfo::TelemFullRange));
}

#[test]
fn bind_round_trip() {
    let b = BindPayload {
        request: srxl2::bind::Request::BoundData,
        device_id: DeviceId(0x21),
        data: BindData { bind_type: 0xB2, options: 0x05, guid: 0x1122_3344_5566_7788, uid: 0xCAFE_F00D },
    };
    let mut payload = Vec::new();
    b.encode(&mut payload);
    assert_eq!(
        payload,
        vec![
            0xDB, 0x21, 0xB2, 0x05, 0x88, 0x77, 0x66, 0x55, 0x44, 0x33, 0x22, 0x11, 0x0D, 0xF0,
            0xFE, 0xCA
        ]
    );
    assert_eq!(BindPayload::decode(&payload), Some(b));
    let p = Packet::from_bind(&b);
    assert_eq!(p.hdr.length, 21);
    assert_eq!(p.as_bind_ref().unwrap().bind, b);
    assert_eq!(b.data.status(), Some(BindStatus::Dsmx11Ms));
    assert!(b.data.option_flags().has(srxl2::bind::BindOption::UsPower));
    assert!(!b.data.option_flags().has(srxl2::bind::BindOption::BindTxEnable));
    payload[0] = 0x00;
    assert_eq!(BindPayload::decode(&payload), None);
}

#[test]
fn bind_request_codes() {
    assert_eq!(srxl2::bind::Request::Enter.code(), 0xEB);
    assert_eq!(srxl2::bind::Request::Status.code(), 0xB5);
    assert_eq!(srxl2::bind::Request::BoundData.code(), 0xDB);
    assert_eq!(srxl2::bind::Request::SetBind.code(), 0x5B);
    assert_eq!(srxl2::bind::Request::from_code(0x5B), Some(srxl2::bind::Request::SetBind));
    assert_eq!(srxl2::bind::Request::from_code(0x5C), None);
    assert_eq!(BindStatus::from_code(0x63), Some(BindStatus::SurfaceDsm2_16p6ms));
    assert_eq!(BindStatus::Dsmr5p5ms.code(), 0xE4);
    assert_eq!(BindStatus::from_code(0x03), None);
}

#[test]
fn param_round_trip() {
    let frame: [u8; 15] = [
        0xA6, 0x50, 0x0F, 0x57, 0x40, 0x04, 0x03, 0x02, 0x01, 0x0D, 0x0C, 0x0B, 0x0A, 0x86, 0x14,
    ];
    let p = Packet::parse(&frame).unwrap();
    let q = p.as_param_ref().unwrap().param;
    assert_eq!(
        q,
        ParamPayload {
            request: srxl2::param::Request::Write,
            dest_dev_id: DeviceId(0x40),
            param_id: 0x0102_0304,
            param_val: 0x0A0B_0C0D,
        }
    );
    let mut out = Vec::new();
    Packet::from_param(&q).serialize(&mut out);
    assert_eq!(out, frame.to_vec());
    assert_eq!(srxl2::param::Request::from_code(0x50), Some(srxl2::param::Request::Query));
    assert_eq!(srxl2::param::Request::from_code(0x51), None);
}

#[test]
fn rssi_round_trip() {
    let frame: [u8; 10] = [0xA6, 0x55, 0x0A, 0x53, 0xC4, 0xCE, 0x00, 0x7F, 0x2B, 0x23];
    let p = Packet::parse(&frame).unwrap();
    let r = p.as_rssi_ref().unwrap().rssi;
    assert_eq!(
        r,
        RssiPayload {
            request: srxl2::rssi::Request::Send,
            antenna_a: -60,
            antenna_b: -50,
            antenna_c: 0,
            antenna_d: 127,
        }
    );
    let mut out = Vec::new();
    Packet::from_rssi(&r).serialize(&mut out);
    assert_eq!(out, frame.to_vec());
    assert_eq!(srxl2::rssi::Request::Request.code(), 0x52);
}

#[test]
fn telemetry_round_trip() {
    let mut data = [0u8; 14];
    for (i, b) in data.iter_mut().enumerate() {
        *b = 0xA0 + i as u8;
    }
    let t = TelemetryPayload {
        dest_dev: DeviceId(0x21),
        payload: TelemetryData { sensor_id: 0x7E, secondary_id: 0x01, data },
    };
    let mut payload = Vec::new();
    t.encode(&mut payload);
    assert_eq!(payload.len(), 17);
    assert_eq!(&payload[..3], &[0x21, 0x7E, 0x01]);
    assert_eq!(&payload[3..], &data[..]);
    let back = TelemetryPayload::decode(&payload).unwrap();
    assert_eq!(back.dest_dev, t.dest_dev);
    assert_eq!(back.payload.sensor_id, 0x7E);
    assert_eq!(back.payload.secondary_id, 0x01);
    assert_eq!(back.payload.data, data);
    let p = Packet::from_telemetry(&t);
    assert_eq!(p.hdr.length, 22);
    assert_eq!(p.as_telemetry_ref().unwrap().telemetry.payload.data, data);
    let zero = TelemetryData::new();
    assert_eq!((zero.sensor_id, zero.secondary_id, zero.data), (0, 0, [0u8; 14]));
}

#[test]
fn vtx_round_trip() {
    let v = VtxData {
        band: Band::RaceBand,
        channel: 5,
        pit: Mode::Pit,
        power: Power::P300To600Mw,
        power_dec: 0x0258,
        region: Region::Eu,
    };
    let mut payload = Vec::new();
    v.encode(&mut payload);
    assert_eq!(payload, vec![1, 5, 1, 5, 0x58, 0x02, 1]);
    assert_eq!(VtxData::decode(&payload), Some(v));
    payload[0] = 5;
    assert_eq!(VtxData::decode(&payload), None);
    assert_eq!(Band::from_code(4), Some(Band::ABand));
    assert_eq!(Mode::from_code(2), None);
    assert_eq!(Power::from_code(7), Some(Power::Manual));
    assert_eq!(Power::from_code(8), None);
    assert_eq!(Region::from_code(0), Some(Region::Us));
    assert_eq!(VtxData::new().band, Band::FatShark);
}

#[test]
fn channel_round_trip() {
    let mut c = ChannelData::new();
    assert_eq!((c.rssi, c.frame_losses, c.mask, c.values), (0, 0, 0, [0u16; 32]));
    c.rssi = -42;
    c.frame_losses = 0x0102;
    c.mask = 0x8000_0005;
    c.values[0] = 0x8000;
    c.values[2] = 0x1234;
    c.values[31] = 0xFFFC;
    let mut payload = Vec::new();
    c.encode(&mut payload);
    assert_eq!(payload.len(), 71);
    assert_eq!(&payload[..7], &[0xD6, 0x02, 0x01, 0x05, 0x00, 0x00, 0x80]);
    assert_eq!(&payload[7..9], &[0x00, 0x80]);
    assert_eq!(&payload[11..13], &[0x34, 0x12]);
    assert_eq!(&payload[69..71], &[0xFC, 0xFF]);
    let back = ChannelData::decode(&payload).unwrap();
    assert_eq!((back.rssi, back.frame_losses, back.mask, back.values), (-42, 0x0102, 0x8000_0005, c.values));
    assert!(ChannelData::decode(&payload[..70]).is_none());
}

#[test]
fn fwd_pgm_round_trip() {
    let mut data = [0u8; 64];
    data[0] = 0x11;
    data[63] = 0x99;
    let f = FwdPgmData { rssi: -1, rfu: [0, 0], data };
    let mut payload = Vec::new();
    f.encode(&mut payload);
    assert_eq!(payload.len(), 67);
    assert_eq!(&payload[..4], &[0xFF, 0, 0, 0x11]);
    assert_eq!(payload[66], 0x99);
    let back = FwdPgmData::decode(&payload).unwrap();
    assert_eq!((back.rssi, back.rfu, back.data), (-1, [0, 0], data));
}

#[test]
fn internal_round_trip() {
    let d = InternalData { src_dev_id: DeviceId(0x30), dest_dev_id: DeviceId(0x21), test: 7, key: 0x0A0B_0C0D };
    let mut payload = Vec::new();
    d.encode(&mut payload);
    assert_eq!(payload, vec![0x30, 0x21, 7, 0x0D, 0x0C, 0x0B, 0x0A]);
    assert_eq!(InternalData::decode(&payload), Some(d));
    assert_eq!(InternalData::decode(&payload[..6]), None);
}

#[test]
fn control_frame_is_always_seventy_eight_bytes() {
    let v = VtxData::new();
    let c = ControlData::from_vtx(DeviceId(0x81), &v);
    let p = Packet::from_control(&c);
    assert_eq!(p.hdr.length, 78);
    let mut out = Vec::new();
    assert_eq!(p.serialize(&mut out), 78);
    assert_eq!(&out[..5], &[0xA6, 0xCD, 78, 0x02, 0x81]);
    assert!(out[12..76].iter().all(|b| *b == 0));
    let back = Packet::parse(&out).unwrap().as_control_ref().unwrap();
    assert_eq!(back.control.cmd, CmdCode::Vtx);
    assert_eq!(back.control.reply_id, DeviceId(0x81));
    assert_eq!(back.control.vtx_data(), Ok(v));
}

#[test]
fn vtx_view_of_channel_data_is_a_type_mismatch() {
    let mut ch = ChannelData::new();
    ch.mask = 1;
    ch.values[0] = 0x0101;
    let c = ControlData::from_channel(false, DeviceId(0x30), &ch);
    assert_eq!(c.cmd, CmdCode::Channel);
    assert_eq!(c.vtx_data(), Err(PacketCastError::HeaderMismatch));
    assert!(matches!(c.fwd_pgm_data(), Err(PacketCastError::HeaderMismatch)));
    assert_eq!(c.channel_data().unwrap().values[0], 0x0101);
    let hdr = Header { srxl_id: 0xA6, packet_type: PacketType::ControlData, length: 78 };
    let packet = ControlPacket { hdr, control: c };
    assert!(packet.as_vtx_ref().is_none());
    assert!(packet.as_fwd_pgm_ref().is_none());
    let view = packet.as_channel_ref().unwrap();
    assert_eq!(view.control.data.mask, 1);
    assert_eq!(view.control.reply_id, DeviceId(0x30));
}

#[test]
fn channel_view_of_vtx_data_is_a_type_mismatch() {
    let c = ControlData::from_vtx(DeviceId(0), &VtxData::new());
    assert!(matches!(c.channel_data(), Err(PacketCastError::HeaderMismatch)));
    let f = ControlData::from_channel(true, DeviceId(0), &ChannelData::new());
    assert_eq!(f.cmd, CmdCode::ChannelFailsafe);
    assert!(f.channel_data().is_ok());
}

#[test]
fn vtx_view_of_bad_settings_is_a_cast_error() {
    let mut c = ControlData::from_vtx(DeviceId(0), &VtxData::new());
    c.data[0] = 9;
    assert_eq!(c.vtx_data(), Err(PacketCastError::Cast));
}

#[test]
fn fwd_pgm_view_reads_the_buffer() {
    let mut data = [0u8; 64];
    data[5] = 0x55;
    let f = FwdPgmData { rssi: -70, rfu: [0, 0], data };
    let c = ControlData::from_fwd_pgm(DeviceId(0x40), &f);
    let back = c.fwd_pgm_data().unwrap();
    assert_eq!((back.rssi, back.data[5]), (-70, 0x55));
    let hdr = Header { srxl_id: 0xA6, packet_type: PacketType::ControlData, length: 78 };
    assert!(ControlPacket { hdr, control: c }.as_fwd_pgm_ref().is_some());
}

#[test]
fn typed_view_of_another_packet_type_is_refused() {
    let p = Packet::from_handshake(&handshake_a());
    assert!(p.as_bind_ref().is_none());
    assert!(p.as_param_ref().is_none());
    assert!(p.as_rssi_ref().is_none());
    assert!(p.as_telemetry_ref().is_none());
    assert!(p.as_control_ref().is_none());
    assert!(p.as_handshake_ref().is_some());
}

#[test]
fn typed_view_of_a_wrong_length_is_refused() {
    let p = Packet::build(PacketType::Handshake, &[1, 2, 3]).unwrap();
    assert_eq!(p.hdr.length, 8);
    assert!(p.as_handshake_ref().is_none());
}

#[test]
fn every_framing_error_has_its_input() {
    assert_eq!(Packet::parse(&[]).err(), Some(FrameError::BadLength));
    assert_eq!(Packet::parse(&[0xA5, 0x21, 5, 0, 0]).err(), Some(FrameError::BadMarker));
    assert_eq!(Packet::parse(&[0xA6, 0x21, 4, 0]).err(), Some(FrameError::BadLength));
    let long = vec![0xA6; 81];
    assert_eq!(Packet::parse(&long).err(), Some(FrameError::BadLength));
    assert_eq!(Packet::parse(&[0xA6, 0x22, 5, 0, 0]).err(), Some(FrameError::UnknownType));
    let mut f = HANDSHAKE_A_FRAME;
    f[2] = 13;
    assert_eq!(Packet::parse(&f).err(), Some(FrameError::BadLength));
    let mut f = HANDSHAKE_A_FRAME;
    f[13] ^= 0x01;
    assert_eq!(Packet::parse(&f).err(), Some(FrameError::Checksum));
    assert!(Packet::parse(&HANDSHAKE_A_FRAME).is_ok());
}

#[test]
fn every_single_bit_flip_is_detected() {
    for byte in 0..HANDSHAKE_A_FRAME.len() {
        for bit in 0..8 {
            let mut f = HANDSHAKE_A_FRAME;
            f[byte] ^= 1 << bit;
            assert!(Packet::parse(&f).is_err(), "flip of bit {} in byte {}", bit, byte);
        }
    }
}

#[test]
fn build_refuses_a_payload_that_is_too_long() {
    assert!(Packet::build(PacketType::ControlData, &[0u8; 76]).is_none());
    assert!(Packet::build(PacketType::ControlData, &[0u8; 75]).is_some());
    assert!(build_frame(0x99, &[0u8; 76]).is_none());
    let f = build_frame(0x21, &HANDSHAKE_A_FRAME[3..12]).unwrap();
    assert_eq!(f, HANDSHAKE_A_FRAME.to_vec());
}

#[test]
fn packet_type_codes() {
    assert_eq!(PacketType::Handshake.code(), 0x21);
    assert_eq!(PacketType::BindInfo.code(), 0x41);
    assert_eq!(PacketType::ParamConfig.code(), 0x50);
    assert_eq!(PacketType::SignalQuality.code(), 0x55);
    assert_eq!(PacketType::TelemetryData.code(), 0x80);
    assert_eq!(PacketType::ControlData.code(), 0xCD);
    assert_eq!(PacketType::from_code(0xCD), Some(PacketType::ControlData));
    assert_eq!(PacketType::from_code(0x99), None);
    assert_eq!(CmdCode::from_code(3), Some(CmdCode::FwdPgm));
    assert_eq!(CmdCode::from_code(4), None);
    assert_eq!(CmdCode::ChannelFailsafe.code(), 1);
}

#[test]
fn largest_of_sizes() {
    assert_eq!(max2(3, 9), 9);
    assert_eq!(max2(9, 3), 9);
    assert_eq!(max3(7, 67, 71), 71);
    assert_eq!(max3(71, 67, 7), 71);
    assert_eq!(max3(7, 71, 67), 71);
    assert_eq!(max3(5, 5, 5), 5);
    for (a, b, c) in [(1, 2, 3), (1, 3, 2), (2, 1, 3), (2, 3, 1), (3, 1, 2), (3, 2, 1), (4, 4, 1)] {
        assert_eq!(max(a, b, c), max3(a, b, c));
        assert_eq!(max(a, b, c), a.max(b).max(c));
    }
}

#[test]
fn error_texts() {
    assert_eq!(PacketCastError::HeaderMismatch.describe(), "packet tag does not match the requested view");
    assert_eq!(PacketCastError::Cast.describe(), "payload is not a valid image of the requested type");
}
