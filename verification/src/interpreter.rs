//! The interpreter: the local device, its buses, and the latest data.
//!
//! Frames that were received go in through `parse_packet`; `run` advances
//! a bus by the time that passed and leaves the frame to send, if one is
//! due, in the bus. Nothing here waits or sends: the caller owns the
//! transport and the clock.

use vstd::prelude::*;
use crate::bind::{BindData, BindPayload};
use crate::bus::{spec_is_running, valid_bus_count, Bus, HandshakeOutcome};
use crate::channel::ChannelData;
use crate::control::{Cmd, CmdCode, ControlData};
use crate::device::{Device, DeviceEntry, DeviceId, DeviceType, FullId, BROADCAST_ID};
use crate::flags::FlagBit;
use crate::fwd_pgm::{FwdPgmData, FWD_PGM_MAX_DATA_SIZE};
use crate::handshake::HandshakeData;
use crate::internal::{InternalData, State, INTERNAL_PACKET_CODE};
use crate::packet::{frame_of, Packet, PacketType};
use crate::param::ParamPayload;
use crate::receiver::{ReceiverEntry, ReceiverInfo};
use crate::rssi::RssiPayload;
use crate::telemetry::{TelemetryData, TelemetryPayload};
use crate::tx::TxFlag;
use crate::vtx::VtxData;

verus! {

/// The protocol engine of one device.
#[derive(Debug)]
pub struct Srxl2Interpreter {
    /// Latest channel data, received or to be sent
    pub channel_data: ChannelData,
    /// Latest telemetry, received or to be sent
    pub telem_data: TelemetryData,
    /// Latest video transmitter settings, received or to be sent
    pub vtx_data: VtxData,
    /// The local device
    pub this_dev: Device,
    /// The buses: one, two, four or eight
    pub bus: Vec<Bus>,
    /// The receivers that feed this device
    pub rx: ReceiverInfo,
    /// True if the latest channel data were fail-safe values
    pub ch_data_is_failsafe: bool,
    /// Flips with every poll of a master, to take turns between the
    /// telemetry receiver and the other devices
    pub telem_phase: bool,
    /// Channels that the latest fail-safe report named
    pub failsafe_ch_mask: u32,
    /// True once the local device has been configured
    pub device_initialized: bool,
    /// Latest bind information, reported or to be sent
    pub bind_info: BindData,
    /// Device that the next enter-bind and set-bind packets go to
    pub bind_target: DeviceId,
    /// Forward programming data that waits to be sent
    pub fwd_pgm_out: FwdPgmData,
    /// Forward programming data that was received, for its consumer
    pub fwd_pgm_in: Option<FwdPgmData>,
    /// Latest antenna readings that were received
    pub rssi_in: Option<RssiPayload>,
    /// Latest parameter request that was received
    pub param_in: Option<ParamPayload>,
    /// Internal packet that waits to be sent
    pub internal_out: InternalData,
}

impl Srxl2Interpreter {
    /// The id of the local device.
    pub open spec fn my_id(&self) -> DeviceId {
        self.this_dev.dev_entry.device_id
    }

    /// Whether `bus_index` names a bus that has been initialized.
    pub open spec fn bus_ready(&self, bus_index: u8) -> bool {
        bus_index < self.bus@.len() && self.bus@[bus_index as int].initialized
    }

    /// The engine is consistent: it has one, two, four or eight buses, each
    /// in order and at its own index; the tracker is in order and has room
    /// for two receivers on each bus; no bus is initialized before the
    /// device is; and every initialized bus bears the device's id.
    pub open spec fn wf(&self) -> bool {
        &&& valid_bus_count(self.bus@.len() as usize)
        &&& forall|i: int|
            0 <= i < self.bus@.len() ==> {
                &&& (#[trigger] self.bus@[i]).wf()
                &&& self.bus@[i].full_id.bus_index == i
                &&& self.bus@[i].hub == (self.bus@.len() > 1)
                &&& self.bus@[i].initialized ==> self.device_initialized && self.bus@[i].full_id.device_id
                    == self.my_id()
            }
        &&& self.rx.wf()
        &&& self.rx.max_rcvrs == 2 * self.bus@.len()
    }

    /// Whether a device id is one that a device can have: the id of one of
    /// the device types, the broadcast id and the ids of no device apart.
    pub open spec fn spec_valid_device_id(id: u8) -> bool {
        match DeviceType::of_code(id >> 4) {
            Some(t) => t != DeviceType::NoDevice && t != DeviceType::Broadcast,
            None => false,
        }
    }

    /// Whether a device id is one that a device can have.
    pub fn valid_device_id(id: u8) -> (r: bool)
        ensures
            r == Self::spec_valid_device_id(id),
    {
        match DeviceId(id).device_type() {
            Some(DeviceType::NoDevice) => false,
            Some(DeviceType::Broadcast) => false,
            Some(_) => true,
            None => false,
        }
    }

    /// Whether the engine is as `new` makes it for `num_buses` buses: the
    /// device is not configured, every bus is new, no receiver is tracked,
    /// the statistics are at their start, nothing has been received, nothing
    /// waits to be sent, and the latest data are zero.
    pub open spec fn is_new(&self, num_buses: usize) -> bool {
        &&& self.channel_data.rssi == 0 && self.channel_data.frame_losses == 0
            && self.channel_data.mask == 0 && self.channel_data.values@ == Seq::new(
            32,
            |i: int| 0u16,
        )
        &&& self.telem_data.sensor_id == 0 && self.telem_data.secondary_id == 0
            && self.telem_data.data@ == Seq::new(14, |i: int| 0u8)
        &&& self.vtx_data == (VtxData {
            band: crate::vtx::Band::FatShark,
            channel: 0,
            pit: crate::vtx::Mode::Race,
            power: crate::vtx::Power::Off,
            power_dec: 0,
            region: crate::vtx::Region::Us,
        })
        &&& self.this_dev == (Device {
            dev_entry: DeviceEntry { device_id: DeviceId(0), priority: 0, info: 0, rfu: 0 },
            uid: 0,
            rcvr: None,
            vtx_proxy: false,
        })
        &&& self.bus@.len() == num_buses
        &&& forall|i: int|
            0 <= i < num_buses ==> (#[trigger] self.bus@[i]).is_new(i as u8, num_buses > 1)
        &&& self.rx.rcvr_entry@.len() == 0
        &&& self.rx.max_rcvrs == 2 * num_buses
        &&& self.rx.rx_bus_bits == 0
        &&& self.rx.counters() == (crate::receiver::HoldCounters {
            loss_countdown: crate::receiver::DEFAULT_HOLD_COUNT,
            loss_hold_count: crate::receiver::DEFAULT_HOLD_COUNT,
            frame_losses: 0,
            holds: 0,
        })
        &&& !self.ch_data_is_failsafe
        &&& !self.telem_phase
        &&& self.failsafe_ch_mask == 0
        &&& !self.device_initialized
        &&& self.bind_info == (BindData { bind_type: 0, options: 0, guid: 0, uid: 0 })
        &&& self.bind_target == DeviceId(BROADCAST_ID)
        &&& self.fwd_pgm_out.rssi == 0 && self.fwd_pgm_out.rfu@ == seq![0u8, 0u8]
            && self.fwd_pgm_out.data@ == Seq::new(64, |i: int| 0u8)
        &&& self.fwd_pgm_in is None
        &&& self.rssi_in is None
        &&& self.param_in is None
        &&& self.internal_out == (InternalData {
            src_dev_id: DeviceId(0),
            dest_dev_id: DeviceId(0),
            test: 0,
            key: 0,
        })
    }

    /// An engine for a device with `num_buses` buses, which must be one,
    /// two, four or eight: any other number gives `None`. The engine is as
    /// `is_new` says.
    pub fn new(num_buses: usize) -> (r: Option<Self>)
        ensures
            r is Some <==> valid_bus_count(num_buses),
            r matches Some(s) ==> s.wf() && s.is_new(num_buses),
    {
        if !(num_buses == 1 || num_buses == 2 || num_buses == 4 || num_buses == 8) {
            return None;
        }
        let mut bus: Vec<Bus> = Vec::new();
        let mut i: usize = 0;
        while i < num_buses
            invariant
                i <= num_buses <= 8,
                bus@.len() == i,
                forall|j: int|
                    0 <= j < i ==> (#[trigger] bus@[j]).wf() && bus@[j].is_new(j as u8, num_buses > 1),
            decreases num_buses - i,
        {
            bus.push(Bus::new(i as u8, num_buses > 1));
            i += 1;
        }
        let zero = DeviceId(0);
        let rfu: [u8; 2] = [0u8; 2];
        let data: [u8; 64] = [0u8; 64];
        assert(rfu@ =~= seq![0u8, 0u8]);
        assert(data@ =~= Seq::new(64, |i: int| 0u8));
        Some(
            Srxl2Interpreter {
                channel_data: ChannelData::new(),
                telem_data: TelemetryData::new(),
                vtx_data: VtxData::new(),
                this_dev: Device {
                    dev_entry: DeviceEntry { device_id: zero, priority: 0, info: 0, rfu: 0 },
                    uid: 0,
                    rcvr: None,
                    vtx_proxy: false,
                },
                bus,
                rx: ReceiverInfo::new(num_buses),
                ch_data_is_failsafe: false,
                telem_phase: false,
                failsafe_ch_mask: 0,
                device_initialized: false,
                bind_info: BindData { bind_type: 0, options: 0, guid: 0, uid: 0 },
                bind_target: DeviceId(BROADCAST_ID),
                fwd_pgm_out: FwdPgmData { rssi: 0, rfu, data },
                fwd_pgm_in: None,
                rssi_in: None,
                param_in: None,
                internal_out: InternalData { src_dev_id: zero, dest_dev_id: zero, test: 0, key: 0 },
            },
        )
    }

    /// The local device as `init_device` sets it up: its own receiver
    /// entry if it is a receiver, and no proxy for a video transmitter.
    pub open spec fn spec_device(device_id: u8, priority: u8, info: u8, uid: u32) -> Device {
        Device {
            dev_entry: DeviceEntry { device_id: DeviceId(device_id), priority, info, rfu: 0 },
            uid,
            rcvr: if DeviceId(device_id).spec_is_receiver() {
                Some(ReceiverEntry::spec_fresh(DeviceId(device_id), 0, info))
            } else {
                None
            },
            vtx_proxy: false,
        }
    }

    /// Configures the local device. It is refused, with nothing changed,
    /// when the device is configured already or the id is none that a
    /// device can have.
    pub fn init_device(&mut self, device_id: u8, priority: u8, info: u8, uid: u32) -> (ok: bool)
        requires
            old(self).wf(),
        ensures
            final(self).wf(),
            ok == (!old(self).device_initialized && Self::spec_valid_device_id(device_id)),
            !ok ==> *final(self) == *old(self),
            ok ==> *final(self) == (Srxl2Interpreter {
                this_dev: Self::spec_device(device_id, priority, info, uid),
                device_initialized: true,
                ..*old(self)
            }),
    {
        if self.device_initialized || !Self::valid_device_id(device_id) {
            return false;
        }
        let id = DeviceId(device_id);
        self.this_dev = Device {
            dev_entry: DeviceEntry { device_id: id, priority, info, rfu: 0 },
            uid,
            rcvr: if id.is_receiver() {
                Some(ReceiverEntry::fresh(id, 0, info))
            } else {
                None
            },
            vtx_proxy: false,
        };
        self.device_initialized = true;
        true
    }

    /// Takes the engine back to where `new` left it, as `is_new` says, so
    /// that the device can be configured again.
    pub fn reset(&mut self)
        requires
            old(self).wf(),
        ensures
            final(self).wf(),
            final(self).is_new(old(self).bus@.len() as usize),
    {
        let n = self.bus.len();
        match Srxl2Interpreter::new(n) {
            Some(fresh) => {
                *self = fresh;
            },
            None => {},
        }
    }

    /// Lets this device answer commands for a video transmitter, or stops
    /// it from doing so.
    pub fn set_vtx_proxy(&mut self, on: bool)
        ensures
            *final(self) == (Srxl2Interpreter {
                this_dev: Device { vtx_proxy: on, ..old(self).this_dev },
                ..*old(self)
            }),
    {
        self.this_dev.vtx_proxy = on;
    }

    /// Starts a bus, as `Bus::started` says. It is refused, with nothing
    /// changed, when there is no bus with that index or the device is not
    /// configured. A bus that ran before starts afresh.
    pub fn init_bus(&mut self, bus_index: u8, uart: u8, baud_supported: u8) -> (ok: bool)
        requires
            old(self).wf(),
        ensures
            final(self).wf(),
            ok == (bus_index < old(self).bus@.len() && old(self).device_initialized),
            !ok ==> *final(self) == *old(self),
            ok ==> old(self).bus_started(*final(self), bus_index as int, uart, baud_supported),
    {
        let i = bus_index as usize;
        if i >= self.bus.len() || !self.device_initialized {
            return false;
        }
        let id = self.this_dev.dev_entry.device_id;
        self.bus[i].init(id, uart, baud_supported);
        true
    }

    /// Whether `post` is the engine `self` after its bus `i` was started on
    /// the UART `uart`: the bus is as `Bus::started` says, and nothing else
    /// has changed.
    pub open spec fn bus_started(self, post: Self, i: int, uart: u8, baud_supported: u8) -> bool {
        &&& post == (Srxl2Interpreter { bus: post.bus, ..self })
        &&& post.bus@.len() == self.bus@.len()
        &&& forall|j: int| 0 <= j < self.bus@.len() && j != i ==> #[trigger] post.bus@[j] == self.bus@[j]
        &&& self.bus@[i].started(post.bus@[i], self.my_id(), uart, baud_supported)
    }

    /// Whether this device is the master of the bus; `false` for a bus
    /// that does not exist or has not been initialized.
    pub fn is_bus_master(&self, bus_index: u8) -> (r: bool)
        ensures
            r == (self.bus_ready(bus_index) && self.bus@[bus_index as int].master),
    {
        let i = bus_index as usize;
        i < self.bus.len() && self.bus[i].initialized && self.bus[i].master
    }

    /// Milliseconds since the bus last saw a valid frame; zero for a bus
    /// that does not exist or has not been initialized.
    pub fn get_timeout_count_ms(&self, bus_index: u8) -> (r: u16)
        ensures
            r == if self.bus_ready(bus_index) {
                self.bus@[bus_index as int].timeout_count_ms
            } else {
                0
            },
    {
        let i = bus_index as usize;
        if i < self.bus.len() && self.bus[i].initialized {
            self.bus[i].timeout_count_ms
        } else {
            0
        }
    }

    /// The frames in a row that the bus missed or dropped; zero for a bus
    /// that does not exist or has not been initialized.
    pub fn get_frame_error_count(&self, bus_index: u8) -> (r: u8)
        ensures
            r == if self.bus_ready(bus_index) {
                self.bus@[bus_index as int].frame_err_count
            } else {
                0
            },
    {
        let i = bus_index as usize;
        if i < self.bus.len() && self.bus[i].initialized {
            self.bus[i].frame_err_count
        } else {
            0
        }
    }

    /// Whether the bus is disturbed: it has missed or dropped more than
    /// `FRAME_ERROR_LIMIT` frames in a row. The bus goes on all the same;
    /// `false` for a bus that does not exist or has not been initialized.
    pub fn is_bus_disturbed(&self, bus_index: u8) -> (r: bool)
        ensures
            r == (self.bus_ready(bus_index) && self.bus@[bus_index as int].frame_err_count
                > crate::bus::FRAME_ERROR_LIMIT),
    {
        let i = bus_index as usize;
        i < self.bus.len() && self.bus[i].initialized && self.bus[i].frame_err_count
            > crate::bus::FRAME_ERROR_LIMIT
    }

    /// The handshakes on the bus in which another device claimed this
    /// device's id; zero for a bus that does not exist or has not been
    /// initialized.
    pub fn get_id_collisions(&self, bus_index: u8) -> (r: u8)
        ensures
            r == if self.bus_ready(bus_index) {
                self.bus@[bus_index as int].id_collisions
            } else {
                0
            },
    {
        let i = bus_index as usize;
        if i < self.bus.len() && self.bus[i].initialized {
            self.bus[i].id_collisions
        } else {
            0
        }
    }

    /// The device id under which this device is on the bus; zero for a bus
    /// that does not exist or has not been initialized.
    pub fn get_device_id(&self, bus_index: u8) -> (r: u8)
        ensures
            r == if self.bus_ready(bus_index) {
                self.bus@[bus_index as int].full_id.device_id.0
            } else {
                0
            },
    {
        let i = bus_index as usize;
        if i < self.bus.len() && self.bus[i].initialized {
            self.bus[i].full_id.device_id.0
        } else {
            0
        }
    }

    /// The state of the bus; `Disabled` for a bus that does not exist.
    pub fn bus_state(&self, bus_index: u8) -> (r: State)
        ensures
            r == if bus_index < self.bus@.len() {
                self.bus@[bus_index as int].state
            } else {
                State::Disabled
            },
    {
        let i = bus_index as usize;
        if i < self.bus.len() {
            self.bus[i].state
        } else {
            State::Disabled
        }
    }

    /// The entry of the device `device_id` in the table of the bus, if the
    /// bus exists and knows the device.
    pub fn device_entry(&self, bus_index: u8, device_id: u8) -> (r: Option<DeviceEntry>)
        ensures
            r == if bus_index < self.bus@.len() {
                match crate::bus::spec_index_of(
                    self.bus@[bus_index as int].rx_dev@,
                    DeviceId(device_id),
                ) {
                    Some(k) => Some(self.bus@[bus_index as int].rx_dev@[k]),
                    None => None,
                }
            } else {
                None
            },
    {
        let i = bus_index as usize;
        if i < self.bus.len() {
            self.bus[i].device(DeviceId(device_id))
        } else {
            None
        }
    }

    /// The frame that the last `run` of the bus left to be sent: empty if
    /// none was due, or the bus does not exist.
    pub fn outbound(&self, bus_index: u8) -> (r: Vec<u8>)
        ensures
            r@ == if bus_index < self.bus@.len() {
                self.bus@[bus_index as int].srxl_out@
            } else {
                Seq::<u8>::empty()
            },
    {
        let i = bus_index as usize;
        if i < self.bus.len() {
            self.bus[i].srxl_out.clone()
        } else {
            Vec::new()
        }
    }

    /// Counts a frame that the transport lost on the bus. A bus that does
    /// not exist or has not been initialized counts nothing.
    pub fn on_frame_error(&mut self, bus_index: u8)
        requires
            old(self).wf(),
        ensures
            final(self).wf(),
            !old(self).bus_ready(bus_index) ==> *final(self) == *old(self),
            old(self).bus_ready(bus_index) ==> old(self).dropped(*final(self), bus_index as int),
    {
        let i = bus_index as usize;
        if i < self.bus.len() && self.bus[i].initialized {
            self.bus[i].note_frame_error();
        }
    }

    /// Sets the number of frame losses in a row that count as a hold; zero
    /// asks for the default.
    pub fn set_hold_threshold(&mut self, countdown_reset: u8)
        requires
            old(self).wf(),
        ensures
            final(self).wf(),
            *final(self) == (Srxl2Interpreter { rx: final(self).rx, ..*old(self) }),
            final(self).rx.loss_hold_count == if countdown_reset == 0 {
                crate::receiver::DEFAULT_HOLD_COUNT
            } else {
                countdown_reset
            },
            final(self).rx.loss_countdown == final(self).rx.loss_hold_count,
            final(self).rx.frame_losses == old(self).rx.frame_losses,
            final(self).rx.holds == old(self).rx.holds,
            final(self).rx.rcvr_entry@ == old(self).rx.rcvr_entry@,
            final(self).rx.telem_rcvr_idx == old(self).rx.telem_rcvr_idx,
            final(self).rx.bind_rcvr_idx == old(self).rx.bind_rcvr_idx,
    {
        self.rx.set_hold_threshold(countdown_reset);
    }

    /// Forgets the statistics: frame losses, holds, and the fades of every
    /// receiver.
    pub fn clear_comm_stats(&mut self)
        requires
            old(self).wf(),
        ensures
            final(self).wf(),
            *final(self) == (Srxl2Interpreter { rx: final(self).rx, ..*old(self) }),
            final(self).rx.frame_losses == 0,
            final(self).rx.holds == 0,
            final(self).rx.loss_countdown == old(self).rx.loss_hold_count,
            final(self).rx.loss_hold_count == old(self).rx.loss_hold_count,
            final(self).rx.rcvr_entry@.len() == old(self).rx.rcvr_entry@.len(),
            forall|i: int|
                0 <= i < old(self).rx.rcvr_entry@.len() ==> #[trigger] final(self).rx.rcvr_entry@[i] == (
                ReceiverEntry { fades: 0, ..old(self).rx.rcvr_entry@[i] }),
    {
        self.rx.clear_comm_stats();
    }

    /// Counts one tick of the link: `is_fade` says that every receiver
    /// lost its frame in it. The hold counters step as
    /// `HoldCounters::after_tick` says; the result is whether the tick
    /// turned a run of losses into a hold.
    pub fn update_comm_stats(&mut self, is_fade: bool) -> (hold: bool)
        requires
            old(self).wf(),
        ensures
            final(self).wf(),
            *final(self) == (Srxl2Interpreter { rx: final(self).rx, ..*old(self) }),
            hold == old(self).rx.counters().tick_is_hold(is_fade),
            final(self).rx.counters() == old(self).rx.counters().after_tick(is_fade),
            final(self).rx.rcvr_entry@ == old(self).rx.rcvr_entry@,
            final(self).rx.telem_rcvr_idx == old(self).rx.telem_rcvr_idx,
            final(self).rx.bind_rcvr_idx == old(self).rx.bind_rcvr_idx,
    {
        self.rx.update_comm_stats(is_fade)
    }

    /// The handshake that this device sends on the bus `b`: to everyone
    /// while it is or offers itself as master, and to its master otherwise.
    pub open spec fn spec_handshake(&self, b: Bus) -> HandshakeData {
        HandshakeData {
            src_dev_id: self.my_id(),
            dest_dev_id: if b.master {
                DeviceId(BROADCAST_ID)
            } else {
                b.request_id
            },
            priority: self.this_dev.dev_entry.priority,
            baud_supported: b.baud_supported,
            info: self.this_dev.dev_entry.info,
            uid: self.this_dev.uid,
        }
    }

    /// The device that a poll of the bus `b` asks to answer: by turns the
    /// receiver that answers telemetry requests, if a receiver is tracked,
    /// and the device whose turn it is on the bus.
    pub open spec fn spec_poll_target(&self, b: Bus) -> DeviceId {
        if self.telem_phase && self.rx.rcvr_entry@.len() > 0 {
            self.rx.rcvr_entry@[self.rx.telem_rcvr_idx as int].device_id
        } else {
            b.request_id
        }
    }

    /// The channel data that a poll of the bus `b` carries: the latest
    /// channel values; the channels that wait on the bus, or those of the
    /// fail-safe report while the latest data are fail-safe values; the
    /// frame losses of the tracker; and as RSSI by turns the best dBm and
    /// the best percentage of the receivers, or this device's own while no
    /// receiver is tracked.
    pub open spec fn spec_poll_data(&self, b: Bus) -> ChannelData {
        ChannelData {
            rssi: if self.rx.rcvr_entry@.len() == 0 {
                self.channel_data.rssi
            } else if self.telem_phase {
                self.rx.best_rssi_dbm
            } else {
                self.rx.best_rssi_pct
            },
            frame_losses: self.rx.frame_losses,
            mask: if self.ch_data_is_failsafe {
                self.failsafe_ch_mask
            } else {
                b.channel_out_mask
            },
            values: self.channel_data.values,
        }
    }

    /// The bind info payload that the packet kind `cmd` carries on the bus
    /// `b`, whose pending kinds were `flags_before` when it became due.
    pub open spec fn spec_bind_payload(&self, b: Bus, cmd: Cmd, flags_before: u8) -> BindPayload {
        match cmd {
            Cmd::EnterBind => BindPayload {
                request: crate::bind::Request::Enter,
                device_id: self.bind_target,
                data: self.bind_info,
            },
            Cmd::ReqBindInfo => BindPayload {
                request: crate::bind::Request::Status,
                device_id: b.bind_dest,
                data: BindData { bind_type: 0, options: 0, guid: 0, uid: 0 },
            },
            Cmd::SetBind => BindPayload {
                request: crate::bind::Request::SetBind,
                device_id: if flags_before & 0x04 != 0 {
                    self.bind_target
                } else {
                    DeviceId(BROADCAST_ID)
                },
                data: self.bind_info,
            },
            _ => BindPayload {
                request: crate::bind::Request::BoundData,
                device_id: self.my_id(),
                data: self.bind_info,
            },
        }
    }

    /// The antenna readings that this device reports: the latest that it
    /// received, and zeros while it has received none.
    pub open spec fn spec_rssi_payload(&self) -> RssiPayload {
        match self.rssi_in {
            Some(r) => RssiPayload { request: crate::rssi::Request::Send, ..r },
            None => RssiPayload {
                request: crate::rssi::Request::Send,
                antenna_a: 0,
                antenna_b: 0,
                antenna_c: 0,
                antenna_d: 0,
            },
        }
    }

    /// The frame of the packet kind `cmd` on the bus `b`, whose pending
    /// kinds were `flags_before` when the packet became due; no bytes for
    /// `NoCmd`.
    pub open spec fn frame_for(&self, b: Bus, cmd: Cmd, flags_before: u8) -> Seq<u8> {
        match cmd {
            Cmd::NoCmd => Seq::empty(),
            Cmd::Handshake => frame_of(
                PacketType::Handshake.spec_code(),
                self.spec_handshake(b).wire(),
            ),
            Cmd::Channel | Cmd::ChannelFs => frame_of(
                PacketType::ControlData.spec_code(),
                seq![
                    if self.ch_data_is_failsafe || cmd == Cmd::ChannelFs {
                        CmdCode::ChannelFailsafe.spec_code()
                    } else {
                        CmdCode::Channel.spec_code()
                    },
                    self.spec_poll_target(b).0,
                ] + self.spec_poll_data(b).wire(),
            ),
            Cmd::Vtx => frame_of(
                PacketType::ControlData.spec_code(),
                seq![CmdCode::Vtx.spec_code(), 0u8] + crate::control::padded(self.vtx_data.wire()),
            ),
            Cmd::FwdPgm => frame_of(
                PacketType::ControlData.spec_code(),
                seq![CmdCode::FwdPgm.spec_code(), 0u8] + crate::control::padded(
                    self.fwd_pgm_out.wire(),
                ),
            ),
            Cmd::Rssi => frame_of(
                PacketType::SignalQuality.spec_code(),
                self.spec_rssi_payload().wire(),
            ),
            Cmd::Telemtry => frame_of(
                PacketType::TelemetryData.spec_code(),
                seq![b.request_id.0] + self.telem_data.wire(),
            ),
            Cmd::EnterBind | Cmd::ReqBindInfo | Cmd::SetBind | Cmd::BindInfo => frame_of(
                PacketType::BindInfo.spec_code(),
                self.spec_bind_payload(b, cmd, flags_before).wire(),
            ),
            Cmd::Internal => frame_of(INTERNAL_PACKET_CODE, self.internal_out.wire()),
        }
    }

    /// Builds the frame of the packet kind `cmd` on bus `i`.
    fn build_outbound(&self, i: usize, cmd: Cmd, flags_before: u8) -> (r: Vec<u8>)
        requires
            i < self.bus@.len(),
            self.rx.wf(),
        ensures
            r@ == self.frame_for(self.bus@[i as int], cmd, flags_before),
    {
        let mut payload: Vec<u8> = Vec::new();
        let code: u8;
        match cmd {
            Cmd::NoCmd => {
                return payload;
            },
            Cmd::Handshake => {
                let h = HandshakeData {
                    src_dev_id: self.this_dev.dev_entry.device_id,
                    dest_dev_id: if self.bus[i].master {
                        DeviceId(BROADCAST_ID)
                    } else {
                        self.bus[i].request_id
                    },
                    priority: self.this_dev.dev_entry.priority,
                    baud_supported: self.bus[i].baud_supported,
                    info: self.this_dev.dev_entry.info,
                    uid: self.this_dev.uid,
                };
                proof {
                    h.lemma_wire(h);
                }
                h.encode(&mut payload);
                code = PacketType::Handshake.code();
            },
            Cmd::Channel | Cmd::ChannelFs => {
                let failsafe = self.ch_data_is_failsafe || cmd == Cmd::ChannelFs;
                let has_rcvr = self.rx.rcvr_count() > 0;
                let target = if self.telem_phase && has_rcvr {
                    self.rx.rcvr_entry[self.rx.telem_rcvr_idx].device_id
                } else {
                    self.bus[i].request_id
                };
                let data = ChannelData {
                    rssi: if !has_rcvr {
                        self.channel_data.rssi
                    } else if self.telem_phase {
                        self.rx.best_rssi_dbm
                    } else {
                        self.rx.best_rssi_pct
                    },
                    frame_losses: self.rx.frame_losses,
                    mask: if self.ch_data_is_failsafe {
                        self.failsafe_ch_mask
                    } else {
                        self.bus[i].channel_out_mask
                    },
                    values: self.channel_data.values,
                };
                let c = ControlData::from_channel(failsafe, target, &data);
                proof {
                    c.lemma_wire(c);
                }
                c.encode(&mut payload);
                code = PacketType::ControlData.code();
            },
            Cmd::Vtx => {
                let c = ControlData::from_vtx(DeviceId(0), &self.vtx_data);
                proof {
                    c.lemma_wire(c);
                }
                c.encode(&mut payload);
                code = PacketType::ControlData.code();
            },
            Cmd::FwdPgm => {
                let c = ControlData::from_fwd_pgm(DeviceId(0), &self.fwd_pgm_out);
                proof {
                    c.lemma_wire(c);
                }
                c.encode(&mut payload);
                code = PacketType::ControlData.code();
            },
            Cmd::Rssi => {
                let r = match self.rssi_in {
                    Some(r) => RssiPayload {
                        request: crate::rssi::Request::Send,
                        antenna_a: r.antenna_a,
                        antenna_b: r.antenna_b,
                        antenna_c: r.antenna_c,
                        antenna_d: r.antenna_d,
                    },
                    None => RssiPayload {
                        request: crate::rssi::Request::Send,
                        antenna_a: 0,
                        antenna_b: 0,
                        antenna_c: 0,
                        antenna_d: 0,
                    },
                };
                proof {
                    r.lemma_wire(r);
                }
                r.encode(&mut payload);
                code = PacketType::SignalQuality.code();
            },
            Cmd::Telemtry => {
                let t = TelemetryPayload {
                    dest_dev: self.bus[i].request_id,
                    payload: self.telem_data,
                };
                proof {
                    t.lemma_wire(t);
                    assert(t.wire() =~= seq![self.bus@[i as int].request_id.0]
                        + self.telem_data.wire());
                }
                t.encode(&mut payload);
                code = PacketType::TelemetryData.code();
            },
            Cmd::EnterBind => {
                let b = BindPayload {
                    request: crate::bind::Request::Enter,
                    device_id: self.bind_target,
                    data: self.bind_info,
                };
                proof {
                    b.lemma_wire(b);
                }
                b.encode(&mut payload);
                code = PacketType::BindInfo.code();
            },
            Cmd::ReqBindInfo => {
                let b = BindPayload {
                    request: crate::bind::Request::Status,
                    device_id: self.bus[i].bind_dest,
                    data: BindData { bind_type: 0, options: 0, guid: 0, uid: 0 },
                };
                proof {
                    b.lemma_wire(b);
                }
                b.encode(&mut payload);
                code = PacketType::BindInfo.code();
            },
            Cmd::SetBind => {
                let b = BindPayload {
                    request: crate::bind::Request::SetBind,
                    device_id: if flags_before & 0x04 != 0 {
                        self.bind_target
                    } else {
                        DeviceId(BROADCAST_ID)
                    },
                    data: self.bind_info,
                };
                proof {
                    b.lemma_wire(b);
                }
                b.encode(&mut payload);
                code = PacketType::BindInfo.code();
            },
            Cmd::BindInfo => {
                let b = BindPayload {
                    request: crate::bind::Request::BoundData,
                    device_id: self.this_dev.dev_entry.device_id,
                    data: self.bind_info,
                };
                proof {
                    b.lemma_wire(b);
                }
                b.encode(&mut payload);
                code = PacketType::BindInfo.code();
            },
            Cmd::Internal => {
                proof {
                    self.internal_out.lemma_wire(self.internal_out);
                }
                self.internal_out.encode(&mut payload);
                code = INTERNAL_PACKET_CODE;
            },
        }
        match crate::packet::build_frame(code, payload.as_slice()) {
            Some(frame) => frame,
            None => Vec::new(),
        }
    }

    /// Whether `post` is the engine `self` after bus `i` has run for
    /// `elapsed_ms` milliseconds.
    ///
    /// The bus steps as `Bus::after_tick` says. The frame of the packet
    /// kind that is due, as `frame_for` gives it, waits in the bus to be
    /// sent, in place of the frame of the run before. A poll with channel
    /// data flips the telemetry phase, is remembered with the device that it
    /// asked to reply and, unless it carried fail-safe values, leaves no
    /// channel waiting on the bus. Nothing else changes.
    pub open spec fn ran(self, post: Self, i: int, elapsed_ms: u16) -> bool {
        let b0 = self.bus@[i];
        let b1 = b0.after_tick(elapsed_ms);
        let cmd = b0.tick_cmd(elapsed_ms);
        &&& post == (Srxl2Interpreter {
            bus: post.bus,
            telem_phase: if cmd == Cmd::Channel {
                !self.telem_phase
            } else {
                self.telem_phase
            },
            ..self
        })
        &&& post.bus@.len() == self.bus@.len()
        &&& forall|j: int| 0 <= j < self.bus@.len() && j != i ==> #[trigger] post.bus@[j] == self.bus@[j]
        &&& post.bus@[i].srxl_out@ == self.frame_for(b1, cmd, b0.tx_flags)
        &&& post.bus@[i] == (Bus {
            srxl_out: post.bus@[i].srxl_out,
            channel_out_mask: if cmd == Cmd::Channel && !self.ch_data_is_failsafe {
                0
            } else {
                b1.channel_out_mask
            },
            last_polled: if cmd == Cmd::Channel {
                self.spec_poll_target(b1)
            } else {
                b1.last_polled
            },
            ..b1
        })
    }

    /// The milliseconds that a time difference stands for: none where it
    /// is negative.
    pub open spec fn spec_elapsed(timeout_delta_ms: i16) -> u16 {
        if timeout_delta_ms < 0 {
            0
        } else {
            timeout_delta_ms as u16
        }
    }

    /// Advances a bus by the milliseconds that passed since its last run,
    /// as `ran` says, and leaves the frame that is due, if one is, for
    /// `outbound`. A bus that does not exist or has not been initialized
    /// does nothing.
    pub fn run(&mut self, bus_index: u8, timeout_delta_ms: i16)
        requires
            old(self).wf(),
        ensures
            final(self).wf(),
            !old(self).bus_ready(bus_index) ==> *final(self) == *old(self),
            old(self).bus_ready(bus_index) ==> old(self).ran(
                *final(self),
                bus_index as int,
                Self::spec_elapsed(timeout_delta_ms),
            ),
    {
        let i = bus_index as usize;
        if i >= self.bus.len() || !self.bus[i].initialized {
            return;
        }
        let elapsed: u16 = if timeout_delta_ms < 0 {
            0
        } else {
            timeout_delta_ms as u16
        };
        let flags_before = self.bus[i].tx_flags;
        let cmd = self.bus[i].tick(elapsed);
        let frame = self.build_outbound(i, cmd, flags_before);
        self.bus[i].srxl_out = frame;
        if cmd == Cmd::Channel {
            let target = if self.telem_phase && self.rx.rcvr_count() > 0 {
                self.rx.rcvr_entry[self.rx.telem_rcvr_idx].device_id
            } else {
                self.bus[i].request_id
            };
            self.bus[i].last_polled = target;
            if !self.ch_data_is_failsafe {
                self.bus[i].channel_out_mask = 0;
            }
            self.telem_phase = !self.telem_phase;
        }
    }

    /// Whether bus `j` is one of those that the bits of `bits` name.
    pub open spec fn bus_selected(bits: u8, j: int) -> bool {
        (bits >> (j as u8)) & 1 == 1
    }

    /// Whether `post` are the buses `pre` once the packet kind `flag` waits
    /// to be sent on each initialized bus that `bits` names.
    pub open spec fn requested(pre: Seq<Bus>, post: Seq<Bus>, flag: TxFlag, bits: u8) -> bool {
        &&& post.len() == pre.len()
        &&& forall|j: int|
            0 <= j < pre.len() ==> #[trigger] post[j] == if pre[j].initialized && Self::bus_selected(
                bits,
                j,
            ) {
                Bus { tx_flags: pre[j].tx_flags | flag.spec_bit(), ..pre[j] }
            } else {
                pre[j]
            }
    }

    /// Makes the packet kind `flag` wait on each initialized bus that
    /// `bits` names.
    fn request_on(&mut self, flag: TxFlag, bits: u8)
        requires
            old(self).wf(),
        ensures
            final(self).wf(),
            *final(self) == (Srxl2Interpreter { bus: final(self).bus, ..*old(self) }),
            Self::requested(old(self).bus@, final(self).bus@, flag, bits),
    {
        let mut j: usize = 0;
        while j < self.bus.len()
            invariant
                j <= self.bus.len(),
                self.wf(),
                *self == (Srxl2Interpreter { bus: self.bus, ..*old(self) }),
                self.bus@.len() == old(self).bus@.len(),
                forall|k: int|
                    0 <= k < j ==> #[trigger] self.bus@[k] == if old(self).bus@[k].initialized
                        && Self::bus_selected(bits, k) {
                        Bus {
                            tx_flags: old(self).bus@[k].tx_flags | flag.spec_bit(),
                            ..old(self).bus@[k]
                        }
                    } else {
                        old(self).bus@[k]
                    },
                forall|k: int| j <= k < self.bus@.len() ==> #[trigger] self.bus@[k] == old(self).bus@[k],
            decreases self.bus.len() - j,
        {
            if self.bus[j].initialized && (bits >> (j as u8)) & 1 == 1 {
                self.bus[j].request(flag);
            }
            j += 1;
        }
    }

    /// Asks receivers to enter bind mode.
    ///
    /// With `broadcast`, the request goes to every device on every
    /// initialized bus. Without, it goes to the best-ranked receiver, on the
    /// buses that it was found on, and that receiver becomes the bind
    /// receiver. The bind type is kept for the packets. The request is
    /// refused, with nothing changed, while the device is not configured,
    /// and without `broadcast` also while no receiver is tracked.
    pub fn enter_bind(&mut self, bind_type: u8, broadcast: bool) -> (ok: bool)
        requires
            old(self).wf(),
        ensures
            final(self).wf(),
            ok == (old(self).device_initialized && (broadcast || old(self).rx.rcvr_entry@.len()
                > 0)),
            !ok ==> *final(self) == *old(self),
            ok && broadcast ==> {
                &&& *final(self) == (Srxl2Interpreter {
                    bus: final(self).bus,
                    bind_info: BindData { bind_type, ..old(self).bind_info },
                    bind_target: DeviceId(BROADCAST_ID),
                    ..*old(self)
                })
                &&& Self::requested(old(self).bus@, final(self).bus@, TxFlag::EnterBind, 0xFF)
            },
            ok && !broadcast ==> {
                let best = old(self).rx.rcvr_sorted_idx@[0];
                &&& *final(self) == (Srxl2Interpreter {
                    bus: final(self).bus,
                    rx: ReceiverInfo { bind_rcvr_idx: best, ..old(self).rx },
                    bind_info: BindData { bind_type, ..old(self).bind_info },
                    bind_target: old(self).rx.rcvr_entry@[best as int].device_id,
                    ..*old(self)
                })
                &&& Self::requested(
                    old(self).bus@,
                    final(self).bus@,
                    TxFlag::EnterBind,
                    old(self).rx.rcvr_entry@[best as int].bus_bits,
                )
            },
    {
        if !self.device_initialized {
            return false;
        }
        if broadcast {
            self.bind_info.bind_type = bind_type;
            self.bind_target = DeviceId(BROADCAST_ID);
            self.request_on(TxFlag::EnterBind, 0xFF);
            true
        } else {
            if self.rx.rcvr_count() == 0 {
                return false;
            }
            let best = self.rx.rcvr_sorted_idx[0];
            let entry = self.rx.rcvr_entry[best];
            self.rx.set_bind_rcvr(best);
            self.bind_info.bind_type = bind_type;
            self.bind_target = entry.device_id;
            self.request_on(TxFlag::EnterBind, entry.bus_bits);
            true
        }
    }

    /// Sets what receivers are to be bound to, and asks for it to be sent:
    /// to the bind receiver, on the buses that it was found on, if a
    /// receiver is tracked, and to every device on every initialized bus
    /// otherwise. The request is refused, with nothing changed, while the
    /// device is not configured.
    pub fn set_bind_info(&mut self, bind_type: u8, guid: u64, uid: u32) -> (ok: bool)
        requires
            old(self).wf(),
        ensures
            final(self).wf(),
            ok == old(self).device_initialized,
            !ok ==> *final(self) == *old(self),
            ok && old(self).rx.rcvr_entry@.len() > 0 ==> {
                let rcvr = old(self).rx.rcvr_entry@[old(self).rx.bind_rcvr_idx as int];
                &&& *final(self) == (Srxl2Interpreter {
                    bus: final(self).bus,
                    bind_info: BindData { bind_type, options: old(self).bind_info.options, guid, uid },
                    bind_target: rcvr.device_id,
                    ..*old(self)
                })
                &&& Self::requested(
                    old(self).bus@,
                    final(self).bus@,
                    TxFlag::SetBindInfo,
                    rcvr.bus_bits,
                )
            },
            ok && old(self).rx.rcvr_entry@.len() == 0 ==> {
                &&& *final(self) == (Srxl2Interpreter {
                    bus: final(self).bus,
                    bind_info: BindData { bind_type, options: old(self).bind_info.options, guid, uid },
                    bind_target: DeviceId(BROADCAST_ID),
                    ..*old(self)
                })
                &&& Self::requested(
                    old(self).bus@,
                    final(self).bus@,
                    TxFlag::BroadcastBindInfo,
                    0xFF,
                )
            },
    {
        if !self.device_initialized {
            return false;
        }
        self.bind_info = BindData { bind_type, options: self.bind_info.options, guid, uid };
        if self.rx.rcvr_count() > 0 {
            let rcvr = self.rx.rcvr_entry[self.rx.bind_rcvr_idx];
            self.bind_target = rcvr.device_id;
            self.request_on(TxFlag::SetBindInfo, rcvr.bus_bits);
        } else {
            self.bind_target = DeviceId(BROADCAST_ID);
            self.request_on(TxFlag::BroadcastBindInfo, 0xFF);
        }
        true
    }

    /// Whether `post` is the engine `self` with bus `i` replaced by `b` and
    /// nothing else changed.
    pub open spec fn only_bus(self, post: Self, i: int, b: Bus) -> bool {
        &&& post == (Srxl2Interpreter { bus: post.bus, ..self })
        &&& post.bus@.len() == self.bus@.len()
        &&& post.bus@[i] == b
        &&& forall|j: int| 0 <= j < self.bus@.len() && j != i ==> #[trigger] post.bus@[j] == self.bus@[j]
    }

    /// Asks the device `dest_dev_id` on a bus for its bind information. The
    /// request is refused, with nothing changed, for a bus that does not
    /// exist or has not been initialized.
    pub fn request_bind_info(&mut self, bus_index: u8, dest_dev_id: u8) -> (ok: bool)
        requires
            old(self).wf(),
        ensures
            final(self).wf(),
            ok == old(self).bus_ready(bus_index),
            !ok ==> *final(self) == *old(self),
            ok ==> old(self).only_bus(
                *final(self),
                bus_index as int,
                Bus {
                    bind_dest: DeviceId(dest_dev_id),
                    tx_flags: old(self).bus@[bus_index as int].tx_flags
                        | TxFlag::GetBindInfo.spec_bit(),
                    ..old(self).bus@[bus_index as int]
                },
            ),
    {
        let i = bus_index as usize;
        if i >= self.bus.len() || !self.bus[i].initialized {
            return false;
        }
        self.bus[i].bind_dest = DeviceId(dest_dev_id);
        self.bus[i].request(TxFlag::GetBindInfo);
        true
    }

    /// Whether this device may send video transmitter settings: it is
    /// configured, and is a video transmitter or stands in for one.
    pub open spec fn spec_is_vtx(&self) -> bool {
        self.device_initialized && (self.this_dev.vtx_proxy || self.my_id().spec_device_type()
            == Some(DeviceType::VTX))
    }

    /// Sets the video transmitter settings to send next, and asks for them
    /// to be sent on every initialized bus. It is refused, with nothing
    /// changed, unless this device is a video transmitter or stands in for
    /// one.
    pub fn set_vtx_data(&mut self, vtx_data: &VtxData) -> (ok: bool)
        requires
            old(self).wf(),
        ensures
            final(self).wf(),
            ok == old(self).spec_is_vtx(),
            !ok ==> *final(self) == *old(self),
            ok ==> {
                &&& *final(self) == (Srxl2Interpreter {
                    bus: final(self).bus,
                    vtx_data: *vtx_data,
                    ..*old(self)
                })
                &&& Self::requested(old(self).bus@, final(self).bus@, TxFlag::SendVtxData, 0xFF)
            },
    {
        if !self.device_initialized {
            return false;
        }
        let is_vtx = match self.this_dev.dev_entry.device_id.device_type() {
            Some(DeviceType::VTX) => true,
            _ => false,
        };
        if !self.this_dev.vtx_proxy && !is_vtx {
            return false;
        }
        self.vtx_data = *vtx_data;
        self.request_on(TxFlag::SendVtxData, 0xFF);
        true
    }

    /// Queues forward programming data, at most sixty-four bytes, and asks
    /// for them to be sent on every initialized bus: the bytes, then zeros
    /// up to sixty-four, with the best dBm of the receivers as RSSI. It is
    /// refused, with nothing changed, for more bytes or while the device is
    /// not configured.
    pub fn pass_thru_fwd_pgm(&mut self, data: &[u8]) -> (ok: bool)
        requires
            old(self).wf(),
        ensures
            final(self).wf(),
            ok == (old(self).device_initialized && data@.len() <= FWD_PGM_MAX_DATA_SIZE),
            !ok ==> *final(self) == *old(self),
            ok ==> {
                &&& *final(self) == (Srxl2Interpreter {
                    bus: final(self).bus,
                    fwd_pgm_out: final(self).fwd_pgm_out,
                    ..*old(self)
                })
                &&& final(self).fwd_pgm_out.rssi == old(self).rx.best_rssi_dbm
                &&& final(self).fwd_pgm_out.rfu@ == seq![0u8, 0u8]
                &&& final(self).fwd_pgm_out.data@ == data@ + Seq::new(
                    (FWD_PGM_MAX_DATA_SIZE - data@.len()) as nat,
                    |k: int| 0u8,
                )
                &&& Self::requested(old(self).bus@, final(self).bus@, TxFlag::SendFwdPgmData, 0xFF)
            },
    {
        if !self.device_initialized || data.len() > FWD_PGM_MAX_DATA_SIZE {
            return false;
        }
        let mut buf: [u8; 64] = [0u8; 64];
        let mut k: usize = 0;
        while k < data.len()
            invariant
                k <= data.len() <= FWD_PGM_MAX_DATA_SIZE,
                buf@.len() == 64,
                forall|j: int| 0 <= j < k ==> buf@[j] == data@[j],
                forall|j: int| k <= j < 64 ==> buf@[j] == 0,
            decreases data.len() - k,
        {
            buf[k] = data[k];
            k += 1;
        }
        let rfu: [u8; 2] = [0u8; 2];
        assert(rfu@ =~= seq![0u8, 0u8]);
        assert(buf@ =~= data@ + Seq::new(
            (FWD_PGM_MAX_DATA_SIZE - data@.len()) as nat,
            |k: int| 0u8,
        ));
        self.fwd_pgm_out = FwdPgmData { rssi: self.rx.best_rssi_dbm, rfu, data: buf };
        self.request_on(TxFlag::SendFwdPgmData, 0xFF);
        true
    }

    /// Asks for an internal packet with the command `cmd` to be sent to the
    /// device `dest_dev_id` on a bus. A bus that does not exist or has not
    /// been initialized does nothing.
    pub fn send_internal_data(&mut self, bus_index: u8, dest_dev_id: u8, cmd: u8)
        requires
            old(self).wf(),
        ensures
            final(self).wf(),
            !old(self).bus_ready(bus_index) ==> *final(self) == *old(self),
            old(self).bus_ready(bus_index) ==> {
                &&& *final(self) == (Srxl2Interpreter {
                    bus: final(self).bus,
                    internal_out: InternalData {
                        src_dev_id: old(self).my_id(),
                        dest_dev_id: DeviceId(dest_dev_id),
                        test: cmd,
                        key: old(self).this_dev.uid,
                    },
                    ..*old(self)
                })
                &&& final(self).bus@.len() == old(self).bus@.len()
                &&& forall|j: int|
                    0 <= j < old(self).bus@.len() && j != bus_index ==> #[trigger] final(self).bus@[j]
                        == old(self).bus@[j]
                &&& final(self).bus@[bus_index as int] == (Bus {
                    tx_flags: old(self).bus@[bus_index as int].tx_flags
                        | TxFlag::SendInternal.spec_bit(),
                    ..old(self).bus@[bus_index as int]
                })
            },
    {
        let i = bus_index as usize;
        if i >= self.bus.len() || !self.bus[i].initialized {
            return;
        }
        self.internal_out = InternalData {
            src_dev_id: self.this_dev.dev_entry.device_id,
            dest_dev_id: DeviceId(dest_dev_id),
            test: cmd,
            key: self.this_dev.uid,
        };
        self.bus[i].request(TxFlag::SendInternal);
    }

    /// Names the channels that wait to be sent with the next poll of every
    /// initialized bus of which this device is master.
    pub fn set_outgoing_channel_mask(&mut self, mask: u32)
        requires
            old(self).wf(),
        ensures
            final(self).wf(),
            *final(self) == (Srxl2Interpreter { bus: final(self).bus, ..*old(self) }),
            Self::relayed(old(self).bus@, final(self).bus@, -1, mask),
    {
        self.relay(usize::MAX, mask);
    }

    /// Whether `post` are the buses `pre` once the channels of `mask` wait
    /// on every initialized bus of which this device is master, bus `i`
    /// apart.
    pub open spec fn relayed(pre: Seq<Bus>, post: Seq<Bus>, i: int, mask: u32) -> bool {
        &&& post.len() == pre.len()
        &&& forall|j: int|
            0 <= j < pre.len() && j != i ==> #[trigger] post[j] == if pre[j].initialized
                && pre[j].master {
                Bus { channel_out_mask: pre[j].channel_out_mask | mask, ..pre[j] }
            } else {
                pre[j]
            }
        &&& 0 <= i < pre.len() ==> post[i] == pre[i]
    }

    /// Makes the channels of `mask` wait on every initialized bus of which
    /// this device is master, bus `i` apart.
    fn relay(&mut self, i: usize, mask: u32)
        requires
            old(self).wf(),
        ensures
            final(self).wf(),
            *final(self) == (Srxl2Interpreter { bus: final(self).bus, ..*old(self) }),
            Self::relayed(
                old(self).bus@,
                final(self).bus@,
                if i < old(self).bus@.len() {
                    i as int
                } else {
                    -1
                },
                mask,
            ),
    {
        let mut j: usize = 0;
        while j < self.bus.len()
            invariant
                j <= self.bus.len(),
                self.wf(),
                *self == (Srxl2Interpreter { bus: self.bus, ..*old(self) }),
                self.bus@.len() == old(self).bus@.len(),
                forall|k: int|
                    0 <= k < j && k != i ==> #[trigger] self.bus@[k] == if old(self).bus@[k].initialized
                        && old(self).bus@[k].master {
                        Bus {
                            channel_out_mask: old(self).bus@[k].channel_out_mask | mask,
                            ..old(self).bus@[k]
                        }
                    } else {
                        old(self).bus@[k]
                    },
                forall|k: int|
                    0 <= k < self.bus@.len() && (k >= j || k == i) ==> #[trigger] self.bus@[k] == old(self).bus@[k],
            decreases self.bus.len() - j,
        {
            if j != i && self.bus[j].initialized && self.bus[j].master {
                self.bus[j].channel_out_mask = self.bus[j].channel_out_mask | mask;
            }
            j += 1;
        }
    }

    /// The index of the lowest bus that the bits of `bits` name, and zero
    /// where they name none.
    pub open spec fn spec_lowest_bus(bits: u8) -> u8 {
        if bits & 0x01 != 0 {
            0
        } else if bits & 0x02 != 0 {
            1
        } else if bits & 0x04 != 0 {
            2
        } else if bits & 0x08 != 0 {
            3
        } else if bits & 0x10 != 0 {
            4
        } else if bits & 0x20 != 0 {
            5
        } else if bits & 0x40 != 0 {
            6
        } else if bits & 0x80 != 0 {
            7
        } else {
            0
        }
    }

    /// Where telemetry is to be sent: the receiver that answers telemetry
    /// requests, on the lowest bus that it was found on; device zero on bus
    /// zero while no receiver is tracked.
    pub fn get_telemetry_endpoint(&self) -> (r: FullId)
        requires
            self.wf(),
        ensures
            r == if self.rx.rcvr_entry@.len() > 0 {
                FullId {
                    device_id: self.rx.rcvr_entry@[self.rx.telem_rcvr_idx as int].device_id,
                    bus_index: Self::spec_lowest_bus(
                        self.rx.rcvr_entry@[self.rx.telem_rcvr_idx as int].bus_bits,
                    ),
                }
            } else {
                FullId { device_id: DeviceId(0), bus_index: 0 }
            },
    {
        match self.rx.telem_rcvr() {
            None => FullId { device_id: DeviceId(0), bus_index: 0 },
            Some(e) => {
                let bits = e.bus_bits;
                let bus_index: u8 = if bits & 0x01 != 0 {
                    0
                } else if bits & 0x02 != 0 {
                    1
                } else if bits & 0x04 != 0 {
                    2
                } else if bits & 0x08 != 0 {
                    3
                } else if bits & 0x10 != 0 {
                    4
                } else if bits & 0x20 != 0 {
                    5
                } else if bits & 0x40 != 0 {
                    6
                } else if bits & 0x80 != 0 {
                    7
                } else {
                    0
                };
                FullId { device_id: e.device_id, bus_index }
            },
        }
    }

    /// Whether `post` is the engine `self`, with `t` for its bus `i`, after
    /// the handshake `h` arrived on that bus.
    ///
    /// The bus takes the handshake up as `Bus::handshake_applied` says. A
    /// receiver that is new to the bus is handed to the tracker, as
    /// `ReceiverInfo::receiver_added` says. A device that is new to the bus
    /// makes every other initialized bus poll its devices once more.
    /// Nothing else changes.
    pub open spec fn handshake_received(self, t: Bus, post: Self, i: int, h: HandshakeData) -> bool {
        let added = t.handshake_outcome(h, self.this_dev.uid) == HandshakeOutcome::Added;
        &&& post == (Srxl2Interpreter { bus: post.bus, rx: post.rx, ..self })
        &&& post.bus@.len() == self.bus@.len()
        &&& t.handshake_applied(post.bus@[i], h, self.this_dev.uid)
        &&& forall|j: int|
            0 <= j < self.bus@.len() && j != i ==> #[trigger] post.bus@[j] == if added
                && self.bus@[j].initialized {
                Bus { poll_once_more: true, ..self.bus@[j] }
            } else {
                self.bus@[j]
            }
        &&& if added && h.src_dev_id.spec_is_receiver() {
            self.rx.receiver_added(post.rx, h.src_dev_id, i as u8, h.info)
        } else {
            post.rx == self.rx
        }
    }

    /// Whether `post` is the engine `self`, with `t` for its bus `i`, after
    /// the control data `c` arrived on that bus.
    ///
    /// A bus that is still in its handshake has seen traffic and no more.
    /// On a bus that runs, control data that name this device as the one to
    /// reply give the bus its turn, as `Bus::after_poll` says, and the data
    /// are taken up by their command code. Channel data become the latest
    /// channel data, with the note whether they are fail-safe values, which
    /// also name the fail-safe channels; the report goes to the tracker
    /// entry of the receiver that sent it, if the tracker has it, with no
    /// channel for fail-safe values; and the channels wait on every other
    /// initialized bus of which this device is master. Video transmitter
    /// settings become the latest settings if this device stands in for a
    /// video transmitter. Forward programming data are kept for their
    /// consumer. Nothing else changes.
    pub open spec fn control_received(self, t: Bus, post: Self, i: int, c: ControlData) -> bool {
        if !spec_is_running(t.state) {
            self.only_bus(post, i, t)
        } else {
            let turn = if c.reply_id == self.my_id() {
                t.after_poll()
            } else {
                t
            };
            match c.cmd {
                CmdCode::Channel | CmdCode::ChannelFailsafe => self.channel_received(turn, post, i, c),
                CmdCode::Vtx => self.vtx_received(turn, post, i, c),
                CmdCode::FwdPgm => self.fwd_pgm_received(turn, post, i, c),
            }
        }
    }

    /// Whether `post` is the engine `self`, with `turn` for its bus `i`,
    /// after the channel data in `c` were taken up; see `control_received`.
    pub open spec fn channel_received(self, turn: Bus, post: Self, i: int, c: ControlData) -> bool {
        let failsafe = c.cmd == CmdCode::ChannelFailsafe;
        let d = post.channel_data;
        &&& d.wire() == c.data@
        &&& post == (Srxl2Interpreter {
            bus: post.bus,
            rx: post.rx,
            channel_data: d,
            ch_data_is_failsafe: failsafe,
            failsafe_ch_mask: if failsafe {
                d.mask
            } else {
                self.failsafe_ch_mask
            },
            ..self
        })
        &&& post.bus@[i] == turn
        &&& Self::relayed(self.bus@.update(i, turn), post.bus@, i, d.mask)
        &&& match self.spec_sender_entry(turn) {
            Some(k) => self.rx.channel_data_reported(
                post.rx,
                k,
                d.rssi,
                d.frame_losses,
                if failsafe {
                    0
                } else {
                    d.mask
                },
            ),
            None => post.rx == self.rx,
        }
    }

    /// Whether `post` is the engine `self`, with `turn` for its bus `i`,
    /// after the video transmitter settings in `c` were taken up; see
    /// `control_received`.
    pub open spec fn vtx_received(self, turn: Bus, post: Self, i: int, c: ControlData) -> bool {
        forall|v: VtxData| #[trigger]
            v.wire() == c.data@.take(crate::vtx::VTX_SIZE as int) ==> post.vtx_data
                == if self.this_dev.vtx_proxy {
                v
            } else {
                self.vtx_data
            } && self.only_bus(Srxl2Interpreter { vtx_data: self.vtx_data, ..post }, i, turn)
    }

    /// Whether `post` is the engine `self`, with `turn` for its bus `i`,
    /// after the forward programming data in `c` were taken up; see
    /// `control_received`.
    pub open spec fn fwd_pgm_received(self, turn: Bus, post: Self, i: int, c: ControlData) -> bool {
        &&& post.fwd_pgm_in matches Some(p) && p.wire() == c.data@.take(
            crate::fwd_pgm::FWD_PGM_SIZE as int,
        )
        &&& self.only_bus(Srxl2Interpreter { fwd_pgm_in: self.fwd_pgm_in, ..post }, i, turn)
    }

    /// The device that sent the channel data that arrived on the bus `t`:
    /// the one that the last poll asked to reply where this device is
    /// master of the bus, and the master where it is not.
    pub open spec fn spec_sender(t: Bus) -> DeviceId {
        if t.master {
            t.last_polled
        } else {
            t.request_id
        }
    }

    /// The index of the tracker entry of the receiver that sent the channel
    /// data that arrived on the bus `t`, if the tracker has the sender.
    pub open spec fn spec_sender_entry(&self, t: Bus) -> Option<int> {
        self.rx.spec_find(Self::spec_sender(t))
    }

    /// Whether `post` is the engine `self`, with `t` for its bus `i`, after
    /// the bind information `b` arrived on that bus: on a bus that runs, a
    /// status or a bound data report becomes the latest bind information,
    /// and its sender the bind receiver if the tracker has it. Any other
    /// bind packet, and any on a bus that is still in its handshake, counts
    /// as traffic and no more.
    pub open spec fn bind_received(self, t: Bus, post: Self, i: int, b: BindPayload) -> bool {
        if spec_is_running(t.state) && (b.request == crate::bind::Request::Status || b.request
            == crate::bind::Request::BoundData) {
            &&& post.bind_info == b.data
            &&& post.rx == match self.rx.spec_find(b.device_id) {
                Some(k) => ReceiverInfo { bind_rcvr_idx: k as usize, ..self.rx },
                None => self.rx,
            }
            &&& self.only_bus(Srxl2Interpreter { bind_info: self.bind_info, rx: self.rx, ..post }, i, t)
        } else {
            self.only_bus(post, i, t)
        }
    }

    /// Whether `post` is the engine `self`, with `t` for its bus `i`, after
    /// the parameter request `q` arrived on that bus: on a bus that runs it
    /// is kept for the application, and nothing else changes.
    pub open spec fn param_received(self, t: Bus, post: Self, i: int, q: ParamPayload) -> bool {
        if spec_is_running(t.state) {
            post.param_in == Some(q) && self.only_bus(
                Srxl2Interpreter { param_in: self.param_in, ..post },
                i,
                t,
            )
        } else {
            self.only_bus(post, i, t)
        }
    }

    /// Whether `post` is the engine `self`, with `t` for its bus `i`, after
    /// the signal quality packet `r` arrived on that bus: on a bus that
    /// runs, readings that were sent become the latest antenna readings; a
    /// request for readings changes nothing.
    pub open spec fn rssi_received(self, t: Bus, post: Self, i: int, r: RssiPayload) -> bool {
        if spec_is_running(t.state) && r.request == crate::rssi::Request::Send {
            post.rssi_in == Some(r) && self.only_bus(
                Srxl2Interpreter { rssi_in: self.rssi_in, ..post },
                i,
                t,
            )
        } else {
            self.only_bus(post, i, t)
        }
    }

    /// Whether `post` is the engine `self`, with `t` for its bus `i`, after
    /// the telemetry `p` arrived on that bus: on a bus that runs it becomes
    /// the latest telemetry, and nothing else changes.
    pub open spec fn telemetry_received(self, t: Bus, post: Self, i: int, p: TelemetryPayload) -> bool {
        if spec_is_running(t.state) {
            post.telem_data == p.payload && self.only_bus(
                Srxl2Interpreter { telem_data: self.telem_data, ..post },
                i,
                t,
            )
        } else {
            self.only_bus(post, i, t)
        }
    }

    /// Takes up a handshake that arrived on the initialized bus
    /// `bus_index`, as `handshake_received` says.
    fn on_handshake(&mut self, bus_index: u8, h: &HandshakeData)
        requires
            old(self).wf(),
            old(self).bus_ready(bus_index),
        ensures
            final(self).wf(),
            final(self).bus_ready(bus_index),
            old(self).handshake_received(
                old(self).bus@[bus_index as int],
                *final(self),
                bus_index as int,
                *h,
            ),
    {
        let i = bus_index as usize;
        let outcome = self.bus[i].on_handshake(h, self.this_dev.uid);
        if outcome == HandshakeOutcome::Added {
            if h.src_dev_id.is_receiver() {
                self.rx.add_receiver(h.src_dev_id, bus_index, h.info);
            }
            let mut j: usize = 0;
            while j < self.bus.len()
                invariant
                    j <= self.bus.len(),
                    i < self.bus.len(),
                    self.wf(),
                    self.bus@.len() == old(self).bus@.len(),
                    self.bus@[i as int].initialized,
                    old(self).wf(),
                    old(self).bus@[i as int].handshake_applied(
                        self.bus@[i as int],
                        *h,
                        old(self).this_dev.uid,
                    ),
                    *self == (Srxl2Interpreter { bus: self.bus, rx: self.rx, ..*old(self) }),
                    if h.src_dev_id.spec_is_receiver() {
                        old(self).rx.receiver_added(self.rx, h.src_dev_id, bus_index, h.info)
                    } else {
                        self.rx == old(self).rx
                    },
                    forall|k: int|
                        0 <= k < j && k != i ==> #[trigger] self.bus@[k] == if old(self).bus@[k].initialized {
                            Bus { poll_once_more: true, ..old(self).bus@[k] }
                        } else {
                            old(self).bus@[k]
                        },
                    forall|k: int|
                        j <= k < self.bus@.len() && k != i ==> #[trigger] self.bus@[k] == old(self).bus@[k],
                decreases self.bus.len() - j,
            {
                if j != i && self.bus[j].initialized {
                    self.bus[j].poll_once_more = true;
                }
                j += 1;
            }
        }
    }

    /// Takes up channel data that arrived on bus `i`.
    fn take_channel(&mut self, i: usize, c: &ControlData)
        requires
            old(self).wf(),
            i < old(self).bus@.len(),
            c.cmd.spec_is_channel(),
        ensures
            final(self).wf(),
            old(self).channel_received(old(self).bus@[i as int], *final(self), i as int, *c),
    {
        let failsafe = c.cmd == CmdCode::ChannelFailsafe;
        match c.channel_data() {
            Ok(d) => {
                self.channel_data = d;
                self.ch_data_is_failsafe = failsafe;
                if failsafe {
                    self.failsafe_ch_mask = d.mask;
                }
                let sender = if self.bus[i].master {
                    self.bus[i].last_polled
                } else {
                    self.bus[i].request_id
                };
                match self.rx.find(sender) {
                    Some(k) => {
                        self.rx.report_channel_data(
                            k,
                            d.rssi,
                            d.frame_losses,
                            if failsafe {
                                0
                            } else {
                                d.mask
                            },
                        );
                    },
                    None => {},
                }
                self.relay(i, d.mask);
                assert(old(self).bus@.update(i as int, old(self).bus@[i as int]) =~= old(self).bus@);
            },
            Err(_) => {},
        }
    }

    /// Takes up video transmitter settings that arrived on bus `i`.
    fn take_vtx(&mut self, i: usize, c: &ControlData, v: VtxData)
        requires
            i < old(self).bus@.len(),
            v.wire() == c.data@.take(crate::vtx::VTX_SIZE as int),
        ensures
            old(self).vtx_received(old(self).bus@[i as int], *final(self), i as int, *c),
            *final(self) == (Srxl2Interpreter { vtx_data: final(self).vtx_data, ..*old(self) }),
    {
        if self.this_dev.vtx_proxy {
            self.vtx_data = v;
        }
        assert forall|w: VtxData| #[trigger]
            w.wire() == c.data@.take(crate::vtx::VTX_SIZE as int) implies w == v by {
            w.lemma_wire(v);
        }
    }

    /// Takes up forward programming data that arrived on bus `i`.
    fn take_fwd_pgm(&mut self, i: usize, c: &ControlData)
        requires
            i < old(self).bus@.len(),
            c.cmd == CmdCode::FwdPgm,
        ensures
            old(self).fwd_pgm_received(old(self).bus@[i as int], *final(self), i as int, *c),
            *final(self) == (Srxl2Interpreter { fwd_pgm_in: final(self).fwd_pgm_in, ..*old(self) }),
    {
        match c.fwd_pgm_data() {
            Ok(p) => {
                self.fwd_pgm_in = Some(p);
            },
            Err(_) => {},
        }
    }

    /// Takes up control data that arrived on the initialized bus
    /// `bus_index`, as `control_received` says. Control data that say video
    /// transmitter settings and hold no valid settings are refused: the
    /// result is `false` and nothing changes.
    fn on_control(&mut self, bus_index: u8, c: &ControlData) -> (ok: bool)
        requires
            old(self).wf(),
            old(self).bus_ready(bus_index),
        ensures
            final(self).wf(),
            final(self).bus_ready(bus_index),
            ok == Self::spec_control_ok(*c),
            !ok ==> *final(self) == *old(self),
            ok ==> old(self).control_received(
                old(self).bus@[bus_index as int],
                *final(self),
                bus_index as int,
                *c,
            ),
    {
        let i = bus_index as usize;
        let vtx = match c.cmd {
            CmdCode::Vtx => match c.vtx_data() {
                Ok(v) => Some(v),
                Err(_) => {
                    return false;
                },
            },
            _ => None,
        };
        if !self.bus[i].is_running() {
            return true;
        }
        if c.reply_id.0 == self.this_dev.dev_entry.device_id.0 {
            self.bus[i].on_poll();
        }
        let ghost turn = self.bus@[i as int];
        let ghost mid = *self;
        assert(mid.bus@ =~= old(self).bus@.update(i as int, turn));
        match c.cmd {
            CmdCode::Channel | CmdCode::ChannelFailsafe => {
                self.take_channel(i, c);
                assert(mid.bus@.update(i as int, turn) =~= old(self).bus@.update(i as int, turn));
            },
            CmdCode::Vtx => {
                match vtx {
                    Some(v) => {
                        self.take_vtx(i, c, v);
                    },
                    None => {},
                }
            },
            CmdCode::FwdPgm => {
                self.take_fwd_pgm(i, c);
            },
        }
        true
    }

    /// Whether control data can be taken up: those that say video
    /// transmitter settings must hold an image of settings.
    pub open spec fn spec_control_ok(c: ControlData) -> bool {
        c.cmd == CmdCode::Vtx ==> VtxData::is_image(c.data@.take(crate::vtx::VTX_SIZE as int))
    }

    /// Takes up bind information that arrived on the initialized bus
    /// `bus_index`, as `bind_received` says.
    fn on_bind_info(&mut self, bus_index: u8, b: &BindPayload)
        requires
            old(self).wf(),
            old(self).bus_ready(bus_index),
        ensures
            final(self).wf(),
            final(self).bus_ready(bus_index),
            old(self).bind_received(
                old(self).bus@[bus_index as int],
                *final(self),
                bus_index as int,
                *b,
            ),
    {
        let i = bus_index as usize;
        let reports = match b.request {
            crate::bind::Request::Status => true,
            crate::bind::Request::BoundData => true,
            _ => false,
        };
        if self.bus[i].is_running() && reports {
            self.bind_info = b.data;
            match self.rx.find(b.device_id) {
                Some(k) => {
                    self.rx.set_bind_rcvr(k);
                },
                None => {},
            }
        }
    }

    /// Takes up a parameter request that arrived on the initialized bus
    /// `bus_index`, as `param_received` says.
    fn on_param(&mut self, bus_index: u8, q: &ParamPayload)
        requires
            old(self).wf(),
            old(self).bus_ready(bus_index),
        ensures
            final(self).wf(),
            final(self).bus_ready(bus_index),
            old(self).param_received(
                old(self).bus@[bus_index as int],
                *final(self),
                bus_index as int,
                *q,
            ),
    {
        let i = bus_index as usize;
        if self.bus[i].is_running() {
            self.param_in = Some(*q);
        }
    }

    /// Takes up a signal quality packet that arrived on the initialized bus
    /// `bus_index`, as `rssi_received` says.
    fn on_rssi(&mut self, bus_index: u8, r: &RssiPayload)
        requires
            old(self).wf(),
            old(self).bus_ready(bus_index),
        ensures
            final(self).wf(),
            final(self).bus_ready(bus_index),
            old(self).rssi_received(
                old(self).bus@[bus_index as int],
                *final(self),
                bus_index as int,
                *r,
            ),
    {
        let i = bus_index as usize;
        let sent = match r.request {
            crate::rssi::Request::Send => true,
            crate::rssi::Request::Request => false,
        };
        if self.bus[i].is_running() && sent {
            self.rssi_in = Some(*r);
        }
    }

    /// Takes up telemetry that arrived on the initialized bus `bus_index`,
    /// as `telemetry_received` says.
    fn on_telemetry(&mut self, bus_index: u8, p: &TelemetryPayload)
        requires
            old(self).wf(),
            old(self).bus_ready(bus_index),
        ensures
            final(self).wf(),
            final(self).bus_ready(bus_index),
            old(self).telemetry_received(
                old(self).bus@[bus_index as int],
                *final(self),
                bus_index as int,
                *p,
            ),
    {
        let i = bus_index as usize;
        if self.bus[i].is_running() {
            self.telem_data = p.payload;
        }
    }

    /// Whether a payload can be taken up as a packet of type `ty`: it is
    /// the image of a payload of that type; a handshake comes from an id
    /// that a device can have; and control data that say video transmitter
    /// settings hold an image of settings.
    pub open spec fn payload_ok(ty: PacketType, payload: Seq<u8>) -> bool {
        match ty {
            PacketType::Handshake => HandshakeData::is_image(payload) && Self::spec_valid_device_id(
                payload[0],
            ),
            PacketType::BindInfo => BindPayload::is_image(payload),
            PacketType::ParamConfig => ParamPayload::is_image(payload),
            PacketType::SignalQuality => RssiPayload::is_image(payload),
            PacketType::TelemetryData => TelemetryPayload::is_image(payload),
            PacketType::ControlData => ControlData::is_image(payload) && (payload[0]
                == CmdCode::Vtx.spec_code() ==> VtxData::is_image(payload.subrange(2, 9))),
        }
    }

    /// Whether the bytes `bytes`, received on the bus `bus_index`, are
    /// accepted: the bus is initialized, the bytes pass the checks of a
    /// frame, and the payload can be taken up.
    pub open spec fn accepts(&self, bus_index: u8, bytes: Seq<u8>) -> bool {
        self.bus_ready(bus_index) && match crate::packet::frame_check(bytes) {
            Ok(ty) => Self::payload_ok(ty, bytes.subrange(3, bytes.len() - 2)),
            Err(_) => false,
        }
    }

    /// Whether `post` is the engine `self` after a frame was dropped on
    /// bus `i`: the bus has counted one frame error more, and nothing else
    /// has changed.
    pub open spec fn dropped(self, post: Self, i: int) -> bool {
        self.only_bus(
            post,
            i,
            Bus {
                frame_err_count: if self.bus@[i].frame_err_count < u8::MAX {
                    (self.bus@[i].frame_err_count + 1) as u8
                } else {
                    u8::MAX
                },
                ..self.bus@[i]
            },
        )
    }

    /// Whether `post` is the engine `self` after a frame of type `ty` with
    /// the payload `payload` was accepted on bus `i`: the bus has seen
    /// traffic, as `Bus::after_traffic` says, and the value whose image the
    /// payload is has been taken up as the relation for its type says.
    pub open spec fn received(self, post: Self, i: int, ty: PacketType, payload: Seq<u8>) -> bool {
        let t = self.bus@[i].after_traffic();
        match ty {
            PacketType::Handshake => forall|h: HandshakeData| #[trigger]
                h.wire() == payload ==> self.handshake_received(t, post, i, h),
            PacketType::BindInfo => forall|b: BindPayload| #[trigger]
                b.wire() == payload ==> self.bind_received(t, post, i, b),
            PacketType::ParamConfig => forall|q: ParamPayload| #[trigger]
                q.wire() == payload ==> self.param_received(t, post, i, q),
            PacketType::SignalQuality => forall|r: RssiPayload| #[trigger]
                r.wire() == payload ==> self.rssi_received(t, post, i, r),
            PacketType::TelemetryData => forall|p: TelemetryPayload| #[trigger]
                p.wire() == payload ==> self.telemetry_received(t, post, i, p),
            PacketType::ControlData => forall|c: ControlData| #[trigger]
                c.wire() == payload ==> self.control_received(t, post, i, c),
        }
    }

    /// Takes up a handshake from an accepted frame.
    fn receive_handshake(&mut self, bus_index: u8, h: &HandshakeData)
        requires
            old(self).wf(),
            old(self).bus_ready(bus_index),
        ensures
            final(self).wf(),
            old(self).handshake_received(
                old(self).bus@[bus_index as int].after_traffic(),
                *final(self),
                bus_index as int,
                *h,
            ),
    {
        self.bus[bus_index as usize].on_traffic();
        self.on_handshake(bus_index, h);
    }

    /// Takes up control data from an accepted frame.
    fn receive_control(&mut self, bus_index: u8, c: &ControlData)
        requires
            old(self).wf(),
            old(self).bus_ready(bus_index),
            Self::spec_control_ok(*c),
        ensures
            final(self).wf(),
            old(self).control_received(
                old(self).bus@[bus_index as int].after_traffic(),
                *final(self),
                bus_index as int,
                *c,
            ),
    {
        let i = bus_index as usize;
        self.bus[i].on_traffic();
        let ghost mid = *self;
        let ghost t = mid.bus@[i as int];
        self.on_control(bus_index, c);
        proof {
            let turn = if c.reply_id == mid.my_id() {
                t.after_poll()
            } else {
                t
            };
            assert(mid.bus@.update(i as int, turn) =~= old(self).bus@.update(i as int, turn));
        }
    }

    /// Takes up bind information from an accepted frame.
    fn receive_bind(&mut self, bus_index: u8, b: &BindPayload)
        requires
            old(self).wf(),
            old(self).bus_ready(bus_index),
        ensures
            final(self).wf(),
            old(self).bind_received(
                old(self).bus@[bus_index as int].after_traffic(),
                *final(self),
                bus_index as int,
                *b,
            ),
    {
        self.bus[bus_index as usize].on_traffic();
        self.on_bind_info(bus_index, b);
    }

    /// Takes up a parameter request from an accepted frame.
    fn receive_param(&mut self, bus_index: u8, q: &ParamPayload)
        requires
            old(self).wf(),
            old(self).bus_ready(bus_index),
        ensures
            final(self).wf(),
            old(self).param_received(
                old(self).bus@[bus_index as int].after_traffic(),
                *final(self),
                bus_index as int,
                *q,
            ),
    {
        self.bus[bus_index as usize].on_traffic();
        self.on_param(bus_index, q);
    }

    /// Takes up a signal quality packet from an accepted frame.
    fn receive_rssi(&mut self, bus_index: u8, r: &RssiPayload)
        requires
            old(self).wf(),
            old(self).bus_ready(bus_index),
        ensures
            final(self).wf(),
            old(self).rssi_received(
                old(self).bus@[bus_index as int].after_traffic(),
                *final(self),
                bus_index as int,
                *r,
            ),
    {
        self.bus[bus_index as usize].on_traffic();
        self.on_rssi(bus_index, r);
    }

    /// Takes up telemetry from an accepted frame.
    fn receive_telemetry(&mut self, bus_index: u8, p: &TelemetryPayload)
        requires
            old(self).wf(),
            old(self).bus_ready(bus_index),
        ensures
            final(self).wf(),
            old(self).telemetry_received(
                old(self).bus@[bus_index as int].after_traffic(),
                *final(self),
                bus_index as int,
                *p,
            ),
    {
        self.bus[bus_index as usize].on_traffic();
        self.on_telemetry(bus_index, p);
    }

    /// Counts a frame that was dropped on bus `i`.
    fn drop_frame(&mut self, i: usize)
        requires
            old(self).wf(),
            i < old(self).bus@.len(),
        ensures
            final(self).wf(),
            old(self).dropped(*final(self), i as int),
    {
        self.bus[i].note_frame_error();
    }

    /// Feeds one received frame to the engine and says whether it was
    /// accepted.
    ///
    /// A frame on a bus that does not exist or has not been initialized is
    /// refused, and nothing changes. A frame that fails a check, or whose
    /// payload cannot be taken up, is dropped: the bus counts a frame error
    /// and nothing else changes. An accepted frame is taken up as
    /// `received` says.
    pub fn parse_packet(&mut self, bus_index: u8, packet: &[u8]) -> (accepted: bool)
        requires
            old(self).wf(),
        ensures
            final(self).wf(),
            accepted == old(self).accepts(bus_index, packet@),
            !old(self).bus_ready(bus_index) ==> *final(self) == *old(self),
            old(self).bus_ready(bus_index) && !accepted ==> old(self).dropped(
                *final(self),
                bus_index as int,
            ),
            accepted ==> old(self).received(
                *final(self),
                bus_index as int,
                crate::packet::frame_check(packet@).unwrap(),
                packet@.subrange(3, packet@.len() - 2),
            ),
    {
        let i = bus_index as usize;
        if i >= self.bus.len() || !self.bus[i].initialized {
            return false;
        }
        let p = match Packet::parse(packet) {
            Ok(p) => p,
            Err(_) => {
                self.drop_frame(i);
                return false;
            },
        };
        let ghost payload = packet@.subrange(3, packet@.len() - 2);
        assert(p.payload() =~= payload);
        match p.hdr.packet_type {
            PacketType::Handshake => match p.as_handshake_ref() {
                Some(v) => {
                    let h = v.handshake;
                    assert(h.wire()[0] == h.src_dev_id.0);
                    if !Self::valid_device_id(h.src_dev_id.0) {
                        self.drop_frame(i);
                        return false;
                    }
                    self.receive_handshake(bus_index, &h);
                    assert forall|w: HandshakeData| #[trigger] w.wire() == payload implies w == h by {
                        w.lemma_wire(h);
                    }
                    true
                },
                None => {
                    self.drop_frame(i);
                    false
                },
            },
            PacketType::BindInfo => match p.as_bind_ref() {
                Some(v) => {
                    let b = v.bind;
                    self.receive_bind(bus_index, &b);
                    assert forall|w: BindPayload| #[trigger] w.wire() == payload implies w == b by {
                        w.lemma_wire(b);
                    }
                    true
                },
                None => {
                    self.drop_frame(i);
                    false
                },
            },
            PacketType::ParamConfig => match p.as_param_ref() {
                Some(v) => {
                    let q = v.param;
                    self.receive_param(bus_index, &q);
                    assert forall|w: ParamPayload| #[trigger] w.wire() == payload implies w == q by {
                        w.lemma_wire(q);
                    }
                    true
                },
                None => {
                    self.drop_frame(i);
                    false
                },
            },
            PacketType::SignalQuality => match p.as_rssi_ref() {
                Some(v) => {
                    let r = v.rssi;
                    self.receive_rssi(bus_index, &r);
                    assert forall|w: RssiPayload| #[trigger] w.wire() == payload implies w == r by {
                        w.lemma_wire(r);
                    }
                    true
                },
                None => {
                    self.drop_frame(i);
                    false
                },
            },
            PacketType::TelemetryData => match p.as_telemetry_ref() {
                Some(v) => {
                    let t = v.telemetry;
                    self.receive_telemetry(bus_index, &t);
                    assert forall|w: TelemetryPayload| #[trigger] w.wire() == payload implies w
                        == t by {
                        w.lemma_wire(t);
                    }
                    true
                },
                None => {
                    self.drop_frame(i);
                    false
                },
            },
            PacketType::ControlData => match p.as_control_ref() {
                Some(v) => {
                    let c = v.control;
                    assert(c.wire()[0] == c.cmd.spec_code());
                    assert(c.data@.take(7) =~= payload.subrange(2, 9));
                    let ok = match c.cmd {
                        CmdCode::Vtx => c.vtx_data().is_ok(),
                        _ => true,
                    };
                    if !ok {
                        self.drop_frame(i);
                        return false;
                    }
                    self.receive_control(bus_index, &c);
                    assert forall|w: ControlData| #[trigger] w.wire() == payload implies w == c by {
                        w.lemma_wire(c);
                    }
                    true
                },
                None => {
                    self.drop_frame(i);
                    false
                },
            },
        }
    }
}

} // verus!
