use srxl2::bind::{BindData, BindPayload};
use srxl2::channel::ChannelData;
use srxl2::control::{CmdCode, ControlData};
use srxl2::device::{DeviceEntry, DeviceId, FullId};
use srxl2::fns;
use srxl2::fwd_pgm::FwdPgmData;
use srxl2::handshake::HandshakeData;
use srxl2::internal::State;
use srxl2::interpreter::Srxl2Interpreter;
use srxl2::packet::{build_frame, Packet, PacketType};
use srxl2::param::ParamPayload;
use srxl2::rssi::RssiPayload;
use srxl2::telemetry::{TelemetryData, TelemetryPayload};
use srxl2::vtx::{Band, Mode, Power, Region, VtxData};

const HANDSHAKE_A_FRAME: [u8; 14] =
    [0xA6, 0x21, 0x0E, 0x30, 0xFF, 0x0A, 0x01, 0x00, 0x78, 0x56, 0x34, 0x12, 0xA1, 0x82];

const HANDSHAKE_REPLY_FRAME: [u8; 14] =
    [0xA6, 0x21, 0x0E, 0x21, 0x30, 0x14, 0x00, 0x03, 0xEF, 0xBE, 0xAD, 0xDE, 0xFF, 0x62];

fn frame_of(p: &Packet) -> Vec<u8> {
    let mut out = Vec::new();
    p.serialize(&mut out);
    out
}

fn handshake(src: u8, dest: u8, info: u8, uid: u32) -> Vec<u8> {
    frame_of(&Packet::from_handshake(&HandshakeData {
        src_dev_id: DeviceId(src),
        dest_dev_id: DeviceId(dest),
        priority: 20,
        baud_supported: 0,
        info,
        uid,
    }))
}

/// Device 0x30 on one bus, past the startup window.
fn device_a() -> Srxl2Interpreter {
    let mut e = Srxl2Interpreter::new(1).unwrap();
    assert!(e.init_device(0x30, 10, 0, 0x1234_5678));
    assert!(e.init_bus(0, 0, 1));
    e.run(0, 50);
    e
}

/// Device 0x30 as master of bus 0 with the receiver 0x21 on it.
fn master_a() -> Srxl2Interpreter {
    let mut e = device_a();
    assert!(e.parse_packet(0, &HANDSHAKE_REPLY_FRAME));
    e
}

/// Device 0x30 as slave of the receiver 0x21 on bus 0, past its answer.
fn slave_of_receiver(buses: usize) -> Srxl2Interpreter {
    let mut e = Srxl2Interpreter::new(buses).unwrap();
    assert!(e.init_device(0x30, 10, 0, 0x1234_5678));
    assert!(e.init_bus(0, 0, 1));
    assert!(e.parse_packet(0, &handshake(0x21, 0xFF, 0x03, 0xDEAD_BEEF)));
    e.run(0, 0);
    e
}

fn channel_frame(failsafe: bool, reply: u8, rssi: i8, losses: u16, mask: u32) -> Vec<u8> {
    let mut ch = ChannelData::new();
    ch.rssi = rssi;
    ch.frame_losses = losses;
    ch.mask = mask;
    ch.values[0] = 0x8000;
    frame_of(&Packet::from_control(&ControlData::from_channel(failsafe, DeviceId(reply), &ch)))
}

#[test]
fn only_one_two_four_or_eight_buses() {
    for n in 0..10usize {
        let ok = n == 1 || n == 2 || n == 4 || n == 8;
        assert_eq!(Srxl2Interpreter::new(n).is_some(), ok, "{} buses", n);
    }
    let e = Srxl2Interpreter::new(4).unwrap();
    assert_eq!(e.bus.len(), 4);
    assert_eq!(e.rx.max_rcvrs, 8);
    assert!(!e.device_initialized);
}

#[test]
fn the_device_is_configured_once() {
    let mut e = Srxl2Interpreter::new(1).unwrap();
    assert!(e.init_device(0x30, 10, 0x04, 77));
    assert_eq!(
        e.this_dev.dev_entry,
        DeviceEntry { device_id: DeviceId(0x30), priority: 10, info: 0x04, rfu: 0 }
    );
    assert_eq!(e.this_dev.uid, 77);
    assert!(e.this_dev.rcvr.is_none());
    assert!(!e.init_device(0x40, 1, 0, 1));
    assert_eq!(e.this_dev.dev_entry.device_id, DeviceId(0x30));
    e.reset();
    assert!(!e.device_initialized);
    assert!(e.init_device(0x21, 1, 0x02, 1));
    assert_eq!(e.this_dev.rcvr.unwrap().device_id, DeviceId(0x21));
    assert_eq!(e.this_dev.rcvr.unwrap().info, 0x02);
}

#[test]
fn ids_that_no_device_can_have_are_refused() {
    for id in [0x00u8, 0x0F, 0x50, 0xC1, 0xD0, 0xE0, 0xF0, 0xFF] {
        let mut e = Srxl2Interpreter::new(1).unwrap();
        assert!(!e.init_device(id, 1, 0, 1), "id {:#x}", id);
        assert!(!e.device_initialized);
        assert!(!Srxl2Interpreter::valid_device_id(id));
    }
    assert!(Srxl2Interpreter::valid_device_id(0x10));
    assert!(Srxl2Interpreter::valid_device_id(0xB7));
}

#[test]
fn a_bus_needs_a_device_and_an_index_in_range() {
    let mut e = Srxl2Interpreter::new(2).unwrap();
    assert!(!e.init_bus(0, 0, 0));
    assert!(e.init_device(0x30, 10, 0, 1));
    assert!(!e.init_bus(2, 0, 0));
    assert!(e.init_bus(1, 5, 1));
    assert_eq!(e.bus_state(1), State::ListenOnStartup);
    assert_eq!(e.bus_state(0), State::Disabled);
    assert_eq!(e.bus_state(7), State::Disabled);
    assert_eq!(e.get_device_id(1), 0x30);
    assert_eq!(e.get_device_id(0), 0);
    assert_eq!(e.bus[1].uart, 5);
    assert_eq!(e.bus[1].full_id, FullId { device_id: DeviceId(0x30), bus_index: 1 });
}

#[test]
fn nothing_runs_before_the_bus_is_started() {
    let mut e = Srxl2Interpreter::new(1).unwrap();
    e.run(0, 1000);
    assert_eq!(e.bus_state(0), State::Disabled);
    assert!(e.outbound(0).is_empty());
    assert!(!e.parse_packet(0, &HANDSHAKE_REPLY_FRAME));
    assert_eq!(e.get_frame_error_count(0), 0);
    e.on_frame_error(0);
    assert_eq!(e.bus[0].frame_err_count, 0);
    assert!(!e.request_bind_info(0, 0x21));
    e.send_internal_data(0, 0x21, 1);
    assert_eq!(e.bus[0].tx_flags, 0);
    e.run(9, 10);
    assert!(!e.parse_packet(9, &HANDSHAKE_REPLY_FRAME));
    assert!(e.outbound(9).is_empty());
}

#[test]
fn a_silent_startup_window_ends_in_a_handshake() {
    let mut e = Srxl2Interpreter::new(1).unwrap();
    assert!(e.init_device(0x30, 10, 0, 0x1234_5678));
    assert!(e.init_bus(0, 0, 1));
    e.run(0, 49);
    assert!(e.outbound(0).is_empty());
    assert_eq!(e.bus_state(0), State::ListenOnStartup);
    assert_eq!(e.get_timeout_count_ms(0), 49);
    e.run(0, 1);
    assert_eq!(e.outbound(0), HANDSHAKE_A_FRAME.to_vec());
    assert_eq!(e.bus_state(0), State::SendHandshake);
    e.run(0, 10);
    assert!(e.outbound(0).is_empty());
}

#[test]
fn a_handshake_reply_starts_the_bus() {
    let mut e = device_a();
    assert!(e.parse_packet(0, &HANDSHAKE_REPLY_FRAME));
    assert_eq!(e.bus_state(0), State::Running);
    assert_eq!(
        e.device_entry(0, 0x21),
        Some(DeviceEntry { device_id: DeviceId(0x21), priority: 20, info: 0x03, rfu: 0 })
    );
    assert_eq!(e.device_entry(0, 0x22), None);
    assert_eq!(e.bus[0].rx_dev.len(), 1);
    assert_eq!(e.bus[0].rx_dev_priority_sum, 20);
    assert!(e.is_bus_master(0));
    assert_eq!(e.bus[0].baud_rate, 0);
    assert_eq!(e.rx.rcvr_count(), 1);
    assert_eq!(e.rx.rcvr_entry[0].device_id, DeviceId(0x21));
    assert_eq!(e.rx.rcvr_entry[0].bus_bits, 0x01);
    assert_eq!(e.get_telemetry_endpoint(), FullId { device_id: DeviceId(0x21), bus_index: 0 });
}

#[test]
fn negative_time_is_no_time() {
    let mut e = Srxl2Interpreter::new(1).unwrap();
    e.init_device(0x30, 10, 0, 1);
    e.init_bus(0, 0, 1);
    e.run(0, 20);
    e.run(0, -500);
    assert_eq!(e.get_timeout_count_ms(0), 20);
}

#[test]
fn two_devices_agree_on_one_master() {
    let mut a = Srxl2Interpreter::new(1).unwrap();
    let mut b = Srxl2Interpreter::new(1).unwrap();
    assert!(a.init_device(0x30, 10, 0, 11));
    assert!(b.init_device(0x31, 10, 0, 22));
    assert!(a.init_bus(0, 0, 0));
    assert!(b.init_bus(0, 0, 0));
    a.run(0, 50);
    b.run(0, 50);
    let from_a = a.outbound(0);
    let from_b = b.outbound(0);
    assert_eq!(from_a[1], 0x21);
    assert_eq!(from_b[1], 0x21);
    assert!(a.parse_packet(0, &from_b));
    assert!(b.parse_packet(0, &from_a));
    assert!(a.is_bus_master(0));
    assert!(!b.is_bus_master(0));
    assert_eq!((a.bus_state(0), b.bus_state(0)), (State::Running, State::Running));
    assert!(a.device_entry(0, 0x31).is_some());
    assert!(b.device_entry(0, 0x30).is_some());
}

#[test]
fn the_order_of_arrival_does_not_change_the_master() {
    let mut a = Srxl2Interpreter::new(1).unwrap();
    let mut b = Srxl2Interpreter::new(1).unwrap();
    a.init_device(0x40, 10, 0, 11);
    b.init_device(0x21, 10, 0, 22);
    a.init_bus(0, 0, 0);
    b.init_bus(0, 0, 0);
    a.run(0, 50);
    b.run(0, 50);
    let from_a = a.outbound(0);
    let from_b = b.outbound(0);
    assert!(b.parse_packet(0, &from_a));
    assert!(a.parse_packet(0, &from_b));
    assert!(!a.is_bus_master(0));
    assert!(b.is_bus_master(0));
}

#[test]
fn a_listener_answers_the_master_and_gets_polled() {
    let mut master = device_a();
    let mut slave = Srxl2Interpreter::new(1).unwrap();
    slave.init_device(0x40, 5, 0, 42);
    slave.init_bus(0, 0, 1);
    assert!(slave.parse_packet(0, &master.outbound(0)));
    assert_eq!(slave.bus_state(0), State::Running);
    assert!(!slave.is_bus_master(0));
    slave.run(0, 0);
    let answer = slave.outbound(0);
    let h = Packet::parse(&answer).unwrap().as_handshake_ref().unwrap().handshake;
    assert_eq!((h.src_dev_id, h.dest_dev_id, h.uid), (DeviceId(0x40), DeviceId(0x30), 42));
    assert!(master.parse_packet(0, &answer));
    assert!(master.is_bus_master(0));
    // The master polls the slave with channel data; the slave answers with telemetry.
    master.run(0, 11);
    let poll = master.outbound(0);
    let c = Packet::parse(&poll).unwrap().as_control_ref().unwrap().control;
    assert_eq!((c.cmd, c.reply_id), (CmdCode::Channel, DeviceId(0x40)));
    slave.telem_data.sensor_id = 0x7E;
    assert!(slave.parse_packet(0, &poll));
    assert_eq!(slave.bus_state(0), State::SendTelemetry);
    slave.run(0, 0);
    let t = Packet::parse(&slave.outbound(0)).unwrap().as_telemetry_ref().unwrap().telemetry;
    assert_eq!((t.dest_dev, t.payload.sensor_id), (DeviceId(0x30), 0x7E));
    assert_eq!(slave.bus_state(0), State::Running);
    assert!(master.parse_packet(0, &slave.outbound(0)));
    assert_eq!(master.telem_data.sensor_id, 0x7E);
    slave.run(0, 5);
    assert!(slave.outbound(0).is_empty());
}

#[test]
fn a_corrupt_frame_is_dropped_and_counted() {
    let mut e = device_a();
    let mut bad = HANDSHAKE_REPLY_FRAME;
    bad[5] ^= 0x10;
    assert!(!e.parse_packet(0, &bad));
    assert!(!e.parse_packet(0, &bad[..13]));
    assert!(!e.parse_packet(0, &[]));
    assert_eq!(e.get_frame_error_count(0), 3);
    assert_eq!(e.bus_state(0), State::SendHandshake);
    assert!(e.bus[0].rx_dev.is_empty());
    e.on_frame_error(0);
    assert_eq!(e.get_frame_error_count(0), 4);
    assert!(e.parse_packet(0, &HANDSHAKE_REPLY_FRAME));
    assert_eq!(e.get_frame_error_count(0), 0);
    assert_eq!(e.get_timeout_count_ms(0), 0);
}

#[test]
fn a_handshake_from_an_impossible_id_is_dropped() {
    let mut e = device_a();
    assert!(!e.parse_packet(0, &handshake(0x00, 0x30, 0, 1)));
    assert!(!e.parse_packet(0, &handshake(0x50, 0x30, 0, 1)));
    assert!(!e.parse_packet(0, &handshake(0xFF, 0x30, 0, 1)));
    assert_eq!(e.get_frame_error_count(0), 3);
    assert_eq!(e.bus_state(0), State::SendHandshake);
}

#[test]
fn a_payload_of_the_wrong_size_is_dropped() {
    let mut e = master_a();
    let short = frame_of(&Packet::build(PacketType::Handshake, &[0x21, 0x30, 1]).unwrap());
    assert!(!e.parse_packet(0, &short));
    let mut vtx = ControlData::from_vtx(DeviceId(0), &VtxData::new());
    vtx.data[0] = 0x77;
    assert!(!e.parse_packet(0, &frame_of(&Packet::from_control(&vtx))));
    assert!(!e.parse_packet(0, &build_frame(0x99, &[1, 2, 3, 4, 5, 6, 7]).unwrap()));
    assert_eq!(e.get_frame_error_count(0), 3);
}

#[test]
fn traffic_during_startup_waits_for_a_master() {
    let mut e = Srxl2Interpreter::new(1).unwrap();
    e.init_device(0x30, 10, 0, 1);
    e.init_bus(0, 0, 1);
    let telemetry = frame_of(&Packet::from_telemetry(&TelemetryPayload {
        dest_dev: DeviceId(0x21),
        payload: TelemetryData::new(),
    }));
    assert!(e.parse_packet(0, &telemetry));
    assert_eq!(e.bus_state(0), State::ListenForHandshake);
    e.run(0, 149);
    assert!(e.outbound(0).is_empty());
    e.run(0, 1);
    assert_eq!(e.bus_state(0), State::SendHandshake);
    assert_eq!(e.outbound(0).len(), 14);
}

#[test]
fn channel_data_reach_the_snapshot_and_the_tracker() {
    let mut e = slave_of_receiver(1);
    assert_eq!(e.rx.rcvr_count(), 1);
    assert!(e.parse_packet(0, &channel_frame(false, 0x40, -55, 3, 0x0000_0001)));
    assert_eq!((e.channel_data.rssi, e.channel_data.frame_losses, e.channel_data.mask), (-55, 3, 1));
    assert_eq!(e.channel_data.values[0], 0x8000);
    assert!(!e.ch_data_is_failsafe);
    assert_eq!(e.rx.rcvr_entry[0].rssi_dbm, -55);
    assert_eq!(e.rx.rcvr_entry[0].fades, 3);
    assert_eq!(e.rx.rcvr_entry[0].channel_mask, 1);
    assert_eq!(e.rx.best_rssi_dbm, -55);
    // Not named as the one to reply: the bus keeps running.
    assert_eq!(e.bus_state(0), State::Running);
    assert!(e.parse_packet(0, &channel_frame(true, 0x30, -90, 4, 0x0000_0003)));
    assert!(e.ch_data_is_failsafe);
    assert_eq!(e.failsafe_ch_mask, 3);
    assert_eq!(e.rx.rcvr_entry[0].channel_mask, 0);
    assert_eq!(e.rx.rcvr_entry[0].rssi_dbm, -90);
    assert!(e.rx.all_faded());
    assert_eq!(e.bus_state(0), State::SendTelemetry);
}

#[test]
fn a_hub_is_master_of_each_bus_and_relays_channels() {
    let mut e = Srxl2Interpreter::new(2).unwrap();
    assert!(e.init_device(0x21, 10, 0x03, 0x1234_5678));
    assert!(e.init_bus(0, 0, 1));
    assert!(e.init_bus(1, 1, 0));
    // A remote receiver announces itself on bus 0, a flight controller on bus 1.
    assert!(e.parse_packet(0, &handshake(0x10, 0xFF, 0x02, 5)));
    assert!(e.parse_packet(1, &handshake(0x30, 0xFF, 0, 6)));
    assert!(e.is_bus_master(0));
    assert!(e.is_bus_master(1));
    // Each new device makes the other bus poll its devices once more.
    assert!(e.bus[0].poll_once_more);
    assert!(e.bus[1].poll_once_more);
    assert_eq!(e.rx.rcvr_count(), 1);
    // The first run of bus 0 polls everyone once more, the second polls the remote receiver.
    e.run(0, 11);
    assert_eq!(Packet::parse(&e.outbound(0)).unwrap().hdr.packet_type, PacketType::Handshake);
    e.run(0, 11);
    let c = Packet::parse(&e.outbound(0)).unwrap().as_control_ref().unwrap().control;
    assert_eq!((c.cmd, c.reply_id), (CmdCode::Channel, DeviceId(0x10)));
    assert_eq!(e.bus[0].last_polled, DeviceId(0x10));
    assert!(e.telem_phase);
    // Its answer reaches the tracker and waits on the other bus.
    assert!(e.parse_packet(0, &channel_frame(false, 0x21, -55, 2, 0x0000_0005)));
    assert_eq!(e.rx.rcvr_entry[0].rssi_dbm, -55);
    assert_eq!(e.rx.rcvr_entry[0].fades, 2);
    assert_eq!(e.bus[1].channel_out_mask, 5);
    assert_eq!(e.bus[0].channel_out_mask, 0);
    assert_eq!(e.bus_state(0), State::Running);
    e.run(1, 11);
    assert_eq!(Packet::parse(&e.outbound(1)).unwrap().hdr.packet_type, PacketType::Handshake);
    assert_eq!(e.bus[1].channel_out_mask, 5);
    e.run(1, 11);
    let c = Packet::parse(&e.outbound(1)).unwrap().as_control_ref().unwrap().control;
    let ch = c.channel_data().unwrap();
    // In this phase the telemetry receiver is asked, with the best dBm.
    assert_eq!((c.cmd, c.reply_id), (CmdCode::Channel, DeviceId(0x10)));
    assert_eq!((ch.mask, ch.values[0], ch.frame_losses, ch.rssi), (5, 0x8000, 0, -55));
    assert_eq!(e.bus[1].channel_out_mask, 0);
    assert!(!e.telem_phase);
    e.run(1, 11);
    let c = Packet::parse(&e.outbound(1)).unwrap().as_control_ref().unwrap().control;
    // In the other phase the next device on the bus is asked, with the best percentage.
    assert_eq!(c.reply_id, DeviceId(0x30));
    assert_eq!(c.channel_data().unwrap().rssi, 0);
    assert_eq!(c.channel_data().unwrap().mask, 0);
    assert!(e.telem_phase);
}

#[test]
fn a_master_ranks_the_receivers_that_answer_its_polls() {
    let mut e = Srxl2Interpreter::new(2).unwrap();
    e.init_device(0x21, 10, 0x03, 1);
    e.init_bus(0, 0, 0);
    for id in [0x10u8, 0x11, 0x12] {
        assert!(e.parse_packet(0, &handshake(id, 0xFF, 0x02, id as u32)));
    }
    assert_eq!(e.rx.rcvr_count(), 3);
    for (id, dbm) in [(0x10u8, -70i8), (0x11, -50), (0x12, -90)] {
        e.bus[0].last_polled = DeviceId(id);
        assert!(e.parse_packet(0, &channel_frame(false, 0x21, dbm, 0, 1)));
    }
    let ranked: Vec<i8> = e.rx.rcvr_sorted().iter().map(|r| r.rssi_dbm).collect();
    assert_eq!(ranked, vec![-50, -70, -90]);
    assert_eq!(e.rx.best_rssi_dbm, -50);
    // A report from a device that the tracker does not know changes no entry.
    e.bus[0].last_polled = DeviceId(0x40);
    assert!(e.parse_packet(0, &channel_frame(false, 0x21, -10, 0, 1)));
    assert_eq!(e.rx.best_rssi_dbm, -50);
    assert_eq!(e.channel_data.rssi, -10);
}

#[test]
fn outgoing_channels_are_named_for_master_buses() {
    let mut e = master_a();
    e.channel_data.values[3] = 0x4321;
    e.set_outgoing_channel_mask(0x08);
    assert_eq!(e.bus[0].channel_out_mask, 0x08);
    e.run(0, 11);
    let ch = Packet::parse(&e.outbound(0)).unwrap().as_control_ref().unwrap().control.channel_data().unwrap();
    assert_eq!((ch.mask, ch.values[3]), (0x08, 0x4321));
    let mut s = slave_of_receiver(1);
    s.set_outgoing_channel_mask(0x08);
    assert_eq!(s.bus[0].channel_out_mask, 0);
}

#[test]
fn vtx_settings_are_taken_by_a_proxy_only() {
    let v = VtxData {
        band: Band::EBand,
        channel: 3,
        pit: Mode::Race,
        power: Power::P15To99Mw,
        power_dec: 25,
        region: Region::Eu,
    };
    let frame = frame_of(&Packet::from_control(&ControlData::from_vtx(DeviceId(0), &v)));
    let mut e = slave_of_receiver(1);
    assert!(e.parse_packet(0, &frame));
    assert_eq!(e.vtx_data, VtxData::new());
    e.set_vtx_proxy(true);
    assert!(e.parse_packet(0, &frame));
    assert_eq!(e.vtx_data, v);
}

#[test]
fn vtx_settings_are_sent_by_a_vtx_or_a_proxy() {
    let v = VtxData {
        band: Band::BBand,
        channel: 1,
        pit: Mode::Pit,
        power: Power::Manual,
        power_dec: 600,
        region: Region::Us,
    };
    let mut e = master_a();
    assert!(!e.set_vtx_data(&v));
    assert_eq!(e.bus[0].tx_flags, 0);
    e.set_vtx_proxy(true);
    assert!(e.set_vtx_data(&v));
    assert_eq!(e.bus[0].tx_flags, 0x20);
    e.run(0, 11);
    let c = Packet::parse(&e.outbound(0)).unwrap().as_control_ref().unwrap().control;
    assert_eq!(c.cmd, CmdCode::Vtx);
    assert_eq!(c.vtx_data(), Ok(v));
    assert_eq!(e.bus[0].tx_flags, 0);
    let mut vtx = Srxl2Interpreter::new(1).unwrap();
    assert!(!vtx.set_vtx_data(&v));
    vtx.init_device(0x81, 1, 0, 1);
    assert!(vtx.set_vtx_data(&v));
}

#[test]
fn forward_programming_passes_through() {
    let mut e = master_a();
    assert!(!e.pass_thru_fwd_pgm(&[0u8; 65]));
    assert!(e.pass_thru_fwd_pgm(&[7u8; 64]));
    assert_eq!(e.fwd_pgm_out.data, [7u8; 64]);
    assert!(e.pass_thru_fwd_pgm(&[9, 8, 7]));
    assert_eq!(e.bus[0].tx_flags, 0x40);
    assert_eq!(&e.fwd_pgm_out.data[..4], &[9, 8, 7, 0]);
    e.run(0, 11);
    let out = e.outbound(0);
    let c = Packet::parse(&out).unwrap().as_control_ref().unwrap().control;
    assert_eq!(c.cmd, CmdCode::FwdPgm);
    let f = c.fwd_pgm_data().unwrap();
    assert_eq!(&f.data[..4], &[9, 8, 7, 0]);
    assert_eq!(f.rssi, -128);
    let mut other = slave_of_receiver(1);
    assert!(other.fwd_pgm_in.is_none());
    assert!(other.parse_packet(0, &out));
    let got: FwdPgmData = other.fwd_pgm_in.unwrap();
    assert_eq!(&got.data[..3], &[9, 8, 7]);
    let mut fresh = Srxl2Interpreter::new(1).unwrap();
    assert!(!fresh.pass_thru_fwd_pgm(&[1]));
}

#[test]
fn bind_requests_go_out_in_turn() {
    let mut e = master_a();
    assert!(e.enter_bind(0xA2, false));
    assert_eq!(e.bind_target, DeviceId(0x21));
    assert_eq!(e.bus[0].tx_flags, 0x01);
    assert!(e.request_bind_info(0, 0x21));
    assert!(e.set_bind_info(0xB2, 0x1122_3344_5566_7788, 0xAABB_CCDD));
    assert_eq!(e.bus[0].tx_flags, 0x07);
    e.run(0, 11);
    let b = Packet::parse(&e.outbound(0)).unwrap().as_bind_ref().unwrap().bind;
    assert_eq!(b.request, srxl2::bind::Request::Enter);
    assert_eq!(b.device_id, DeviceId(0x21));
    e.run(0, 11);
    let b = Packet::parse(&e.outbound(0)).unwrap().as_bind_ref().unwrap().bind;
    assert_eq!(
        b,
        BindPayload {
            request: srxl2::bind::Request::Status,
            device_id: DeviceId(0x21),
            data: BindData { bind_type: 0, options: 0, guid: 0, uid: 0 },
        }
    );
    e.run(0, 11);
    let b = Packet::parse(&e.outbound(0)).unwrap().as_bind_ref().unwrap().bind;
    assert_eq!(
        b,
        BindPayload {
            request: srxl2::bind::Request::SetBind,
            device_id: DeviceId(0x21),
            data: BindData { bind_type: 0xB2, options: 0, guid: 0x1122_3344_5566_7788, uid: 0xAABB_CCDD },
        }
    );
    assert_eq!(e.bus[0].tx_flags, 0);
    e.run(0, 11);
    assert_eq!(Packet::parse(&e.outbound(0)).unwrap().hdr.packet_type, PacketType::ControlData);
}

#[test]
fn bind_requests_without_a_receiver() {
    let mut e = Srxl2Interpreter::new(1).unwrap();
    assert!(!e.enter_bind(1, true));
    assert!(!e.set_bind_info(1, 2, 3));
    e.init_device(0x30, 1, 0, 1);
    e.init_bus(0, 0, 0);
    assert!(!e.enter_bind(1, false));
    assert!(e.enter_bind(1, true));
    assert_eq!(e.bind_target, DeviceId(0xFF));
    assert_eq!(e.bus[0].tx_flags, 0x01);
    assert!(e.set_bind_info(1, 2, 3));
    assert_eq!(e.bus[0].tx_flags, 0x09);
    assert_eq!(e.bind_info, BindData { bind_type: 1, options: 0, guid: 2, uid: 3 });
}

#[test]
fn a_bound_data_report_is_surfaced() {
    let mut e = master_a();
    let report = BindPayload {
        request: srxl2::bind::Request::BoundData,
        device_id: DeviceId(0x21),
        data: BindData { bind_type: 0xA2, options: 1, guid: 99, uid: 7 },
    };
    assert!(e.parse_packet(0, &frame_of(&Packet::from_bind(&report))));
    assert_eq!(e.bind_info, report.data);
    assert_eq!(e.rx.bind_rcvr_idx, 0);
    let enter = BindPayload { request: srxl2::bind::Request::Enter, ..report };
    let mut other = master_a();
    assert!(other.parse_packet(0, &frame_of(&Packet::from_bind(&enter))));
    assert_eq!(other.bind_info, BindData { bind_type: 0, options: 0, guid: 0, uid: 0 });
}

#[test]
fn parameters_and_signal_quality_are_surfaced() {
    let mut e = master_a();
    let q = ParamPayload {
        request: srxl2::param::Request::Query,
        dest_dev_id: DeviceId(0x30),
        param_id: 5,
        param_val: 6,
    };
    assert!(e.parse_packet(0, &frame_of(&Packet::from_param(&q))));
    assert_eq!(e.param_in, Some(q));
    let r = RssiPayload {
        request: srxl2::rssi::Request::Send,
        antenna_a: -40,
        antenna_b: -41,
        antenna_c: -42,
        antenna_d: -43,
    };
    assert!(e.parse_packet(0, &frame_of(&Packet::from_rssi(&r))));
    assert_eq!(e.rssi_in, Some(r));
    let ask = RssiPayload { request: srxl2::rssi::Request::Request, antenna_a: 1, ..r };
    assert!(e.parse_packet(0, &frame_of(&Packet::from_rssi(&ask))));
    assert_eq!(e.rssi_in, Some(r));
}

#[test]
fn payloads_wait_for_the_end_of_the_handshake() {
    let mut e = device_a();
    let q = ParamPayload {
        request: srxl2::param::Request::Query,
        dest_dev_id: DeviceId(0x30),
        param_id: 5,
        param_val: 6,
    };
    assert!(e.parse_packet(0, &frame_of(&Packet::from_param(&q))));
    assert_eq!(e.param_in, None);
    assert!(e.parse_packet(0, &channel_frame(false, 0x30, -55, 3, 1)));
    assert_eq!(e.channel_data.mask, 0);
    assert_eq!(e.bus_state(0), State::SendHandshake);
}

#[test]
fn an_internal_packet_goes_out_with_its_own_type() {
    let mut e = master_a();
    e.send_internal_data(0, 0x21, 9);
    assert_eq!(e.bus[0].tx_flags, 0x80);
    e.run(0, 11);
    let out = e.outbound(0);
    assert_eq!(&out[..3], &[0xA6, 0x99, 12]);
    assert_eq!(&out[3..10], &[0x30, 0x21, 9, 0x78, 0x56, 0x34, 0x12]);
    assert_eq!(out, build_frame(0x99, &out[3..10]).unwrap());
    assert_eq!(e.bus[0].tx_flags, 0);
}

#[test]
fn statistics_hooks_reach_the_tracker() {
    let mut e = master_a();
    e.set_hold_threshold(5);
    let holds: Vec<bool> = (0..5).map(|_| e.update_comm_stats(true)).collect();
    assert_eq!(holds, vec![false, false, false, false, true]);
    assert_eq!((e.rx.holds, e.rx.loss_countdown), (1, 5));
    for _ in 0..4 {
        assert!(!e.update_comm_stats(true));
    }
    assert!(!e.update_comm_stats(false));
    assert_eq!((e.rx.holds, e.rx.frame_losses, e.rx.loss_countdown), (1, 4, 5));
    e.clear_comm_stats();
    assert_eq!((e.rx.holds, e.rx.frame_losses), (0, 0));
}

#[test]
fn the_telemetry_endpoint_is_the_lowest_bus_of_the_receiver() {
    let mut e = Srxl2Interpreter::new(4).unwrap();
    assert_eq!(e.get_telemetry_endpoint(), FullId { device_id: DeviceId(0), bus_index: 0 });
    e.init_device(0x30, 1, 0, 1);
    e.init_bus(2, 0, 0);
    e.init_bus(3, 0, 0);
    assert!(e.parse_packet(3, &handshake(0x22, 0xFF, 0, 5)));
    assert!(e.parse_packet(2, &handshake(0x22, 0xFF, 0, 5)));
    assert_eq!(e.rx.rcvr_entry[0].bus_bits, 0x0C);
    assert_eq!(e.get_telemetry_endpoint(), FullId { device_id: DeviceId(0x22), bus_index: 2 });
    assert!(e.is_bus_master(2) && e.is_bus_master(3));
}

#[test]
fn the_plain_functions_do_what_the_methods_do() {
    let mut e = Srxl2Interpreter::new(1).unwrap();
    assert!(fns::init_device(&mut e, 0x30, 10, 0, 0x1234_5678));
    assert!(fns::init_bus(&mut e, 0, 0, 1));
    fns::run(&mut e, 0, 50);
    assert_eq!(e.outbound(0), HANDSHAKE_A_FRAME.to_vec());
    assert!(fns::parse_packet(&mut e, 0, &HANDSHAKE_REPLY_FRAME));
    assert!(fns::is_bus_master(&e, 0));
    assert_eq!(fns::get_device_id(&e, 0), 0x30);
    assert_eq!(fns::get_timeout_count_ms(&e, 0), 0);
    assert_eq!(fns::get_telemetry_endpoint(&e), FullId { device_id: DeviceId(0x21), bus_index: 0 });
    assert!(fns::enter_bind(&mut e, 1, false));
    assert!(fns::set_bind_info(&mut e, 1, 2, 3));
    assert!(fns::request_bind_info(&mut e, 0, 0x21));
    assert!(!fns::set_vtx_data(&mut e, &VtxData::new()));
    assert!(fns::pass_thru_fwd_pgm(&mut e, &[1, 2]));
    fns::send_internal_data(&mut e, 0, 0x21, 1);
    assert_eq!(e.bus[0].tx_flags, 0xC7);
    fns::on_frame_error(&mut e, 0);
    assert_eq!(e.bus[0].frame_err_count, 1);
    fns::set_hold_threshold(&mut e, 2);
    assert!(!fns::update_comm_stats(&mut e, true));
    assert!(fns::update_comm_stats(&mut e, true));
    fns::clear_comm_stats(&mut e);
    assert_eq!(e.rx.holds, 0);
}

#[test]
fn a_disturbed_bus_goes_on() {
    let mut e = device_a();
    for _ in 0..3 {
        e.on_frame_error(0);
    }
    assert!(!e.is_bus_disturbed(0));
    e.on_frame_error(0);
    assert!(e.is_bus_disturbed(0));
    assert!(!e.is_bus_disturbed(1));
    e.run(0, 50);
    assert_eq!(e.outbound(0), HANDSHAKE_A_FRAME.to_vec());
    assert!(e.parse_packet(0, &HANDSHAKE_REPLY_FRAME));
    assert!(!e.is_bus_disturbed(0));
}

#[test]
fn a_claimed_id_is_counted_and_the_table_stays() {
    let mut e = master_a();
    assert!(e.parse_packet(0, &handshake(0x30, 0xFF, 0, 0x9999)));
    assert_eq!(e.get_id_collisions(0), 1);
    assert_eq!(e.bus[0].rx_dev.len(), 1);
    assert!(e.is_bus_master(0));
    // The device's own handshake, come back, is no collision.
    assert!(e.parse_packet(0, &handshake(0x30, 0xFF, 0, 0x1234_5678)));
    assert_eq!(e.get_id_collisions(0), 1);
    assert_eq!(e.get_id_collisions(5), 0);
}
