//! The operations of the engine as plain functions.
//!
//! Each takes the engine as its first argument and does what the method of
//! the same name does.

use vstd::prelude::*;
use crate::bind::BindData;
use crate::bus::Bus;
use crate::device::{DeviceId, FullId, BROADCAST_ID};
use crate::flags::FlagBit;
use crate::fwd_pgm::FWD_PGM_MAX_DATA_SIZE;
use crate::internal::InternalData;
use crate::interpreter::Srxl2Interpreter;
use crate::packet::frame_check;
use crate::receiver::{ReceiverEntry, ReceiverInfo, DEFAULT_HOLD_COUNT};
use crate::tx::TxFlag;
use crate::vtx::VtxData;

verus! {

/// Configures the local device. It is refused, with nothing changed, when
/// the device is configured already or the id is none that a device can
/// have.
pub fn init_device(engine: &mut Srxl2Interpreter, device_id: u8, priority: u8, info: u8, uid: u32) -> (ok:
    bool)
    requires
        old(engine).wf(),
    ensures
        final(engine).wf(),
        ok == (!old(engine).device_initialized && Srxl2Interpreter::spec_valid_device_id(
            device_id,
        )),
        !ok ==> *final(engine) == *old(engine),
        ok ==> *final(engine) == (Srxl2Interpreter {
            this_dev: Srxl2Interpreter::spec_device(device_id, priority, info, uid),
            device_initialized: true,
            ..*old(engine)
        }),
{
    engine.init_device(device_id, priority, info, uid)
}

/// Starts a bus, as `Bus::started` says. It is refused, with nothing
/// changed, when there is no bus with that index or the device is not
/// configured.
pub fn init_bus(engine: &mut Srxl2Interpreter, bus_index: u8, uart: u8, baud_supported: u8) -> (ok:
    bool)
    requires
        old(engine).wf(),
    ensures
        final(engine).wf(),
        ok == (bus_index < old(engine).bus@.len() && old(engine).device_initialized),
        !ok ==> *final(engine) == *old(engine),
        ok ==> old(engine).bus_started(*final(engine), bus_index as int, uart, baud_supported),
{
    engine.init_bus(bus_index, uart, baud_supported)
}

/// Whether this device is the master of the bus; `false` for a bus that
/// does not exist or has not been initialized.
pub fn is_bus_master(engine: &Srxl2Interpreter, bus_index: u8) -> (r: bool)
    ensures
        r == (engine.bus_ready(bus_index) && engine.bus@[bus_index as int].master),
{
    engine.is_bus_master(bus_index)
}

/// Milliseconds since the bus last saw a valid frame; zero for a bus that
/// does not exist or has not been initialized.
pub fn get_timeout_count_ms(engine: &Srxl2Interpreter, bus_index: u8) -> (r: u16)
    ensures
        r == if engine.bus_ready(bus_index) {
            engine.bus@[bus_index as int].timeout_count_ms
        } else {
            0
        },
{
    engine.get_timeout_count_ms(bus_index)
}

/// The device id under which this device is on the bus; zero for a bus
/// that does not exist or has not been initialized.
pub fn get_device_id(engine: &Srxl2Interpreter, bus_index: u8) -> (r: u8)
    ensures
        r == if engine.bus_ready(bus_index) {
            engine.bus@[bus_index as int].full_id.device_id.0
        } else {
            0
        },
{
    engine.get_device_id(bus_index)
}

/// Feeds one received frame to the engine and says whether it was
/// accepted. A frame on a bus that does not exist or has not been
/// initialized is refused, and nothing changes. A frame that fails a check,
/// or whose payload cannot be taken up, is dropped: the bus counts a frame
/// error and nothing else changes. An accepted frame is taken up as
/// `Srxl2Interpreter::received` says.
pub fn parse_packet(engine: &mut Srxl2Interpreter, bus_index: u8, packet: &[u8]) -> (accepted: bool)
    requires
        old(engine).wf(),
    ensures
        final(engine).wf(),
        accepted == old(engine).accepts(bus_index, packet@),
        !old(engine).bus_ready(bus_index) ==> *final(engine) == *old(engine),
        old(engine).bus_ready(bus_index) && !accepted ==> old(engine).dropped(
            *final(engine),
            bus_index as int,
        ),
        accepted ==> old(engine).received(
            *final(engine),
            bus_index as int,
            frame_check(packet@).unwrap(),
            packet@.subrange(3, packet@.len() - 2),
        ),
{
    engine.parse_packet(bus_index, packet)
}

/// Advances a bus by the milliseconds that passed since its last run, as
/// `Srxl2Interpreter::ran` says, and leaves the frame that is due, if one
/// is, in the bus. A bus that does not exist or has not been initialized
/// does nothing.
pub fn run(engine: &mut Srxl2Interpreter, bus_index: u8, timeout_delta_ms: i16)
    requires
        old(engine).wf(),
    ensures
        final(engine).wf(),
        !old(engine).bus_ready(bus_index) ==> *final(engine) == *old(engine),
        old(engine).bus_ready(bus_index) ==> old(engine).ran(
            *final(engine),
            bus_index as int,
            Srxl2Interpreter::spec_elapsed(timeout_delta_ms),
        ),
{
    engine.run(bus_index, timeout_delta_ms)
}

/// Asks receivers to enter bind mode: every device on every initialized
/// bus with `broadcast`, and the best-ranked receiver, which becomes the
/// bind receiver, without. It is refused, with nothing changed, while the
/// device is not configured, and without `broadcast` also while no
/// receiver is tracked.
pub fn enter_bind(engine: &mut Srxl2Interpreter, bind_type: u8, broadcast: bool) -> (ok: bool)
    requires
        old(engine).wf(),
    ensures
        final(engine).wf(),
        ok == (old(engine).device_initialized && (broadcast || old(engine).rx.rcvr_entry@.len()
            > 0)),
        !ok ==> *final(engine) == *old(engine),
        ok && broadcast ==> {
            &&& *final(engine) == (Srxl2Interpreter {
                bus: final(engine).bus,
                bind_info: BindData { bind_type, ..old(engine).bind_info },
                bind_target: DeviceId(BROADCAST_ID),
                ..*old(engine)
            })
            &&& Srxl2Interpreter::requested(
                old(engine).bus@,
                final(engine).bus@,
                TxFlag::EnterBind,
                0xFF,
            )
        },
        ok && !broadcast ==> {
            let best = old(engine).rx.rcvr_sorted_idx@[0];
            &&& *final(engine) == (Srxl2Interpreter {
                bus: final(engine).bus,
                rx: ReceiverInfo { bind_rcvr_idx: best, ..old(engine).rx },
                bind_info: BindData { bind_type, ..old(engine).bind_info },
                bind_target: old(engine).rx.rcvr_entry@[best as int].device_id,
                ..*old(engine)
            })
            &&& Srxl2Interpreter::requested(
                old(engine).bus@,
                final(engine).bus@,
                TxFlag::EnterBind,
                old(engine).rx.rcvr_entry@[best as int].bus_bits,
            )
        },
{
    engine.enter_bind(bind_type, broadcast)
}

/// Sets what receivers are to be bound to, and asks for it to be sent: to
/// the bind receiver if a receiver is tracked, and to every device on every
/// initialized bus otherwise. It is refused, with nothing changed, while
/// the device is not configured.
pub fn set_bind_info(engine: &mut Srxl2Interpreter, bind_type: u8, guid: u64, uid: u32) -> (ok: bool)
    requires
        old(engine).wf(),
    ensures
        final(engine).wf(),
        ok == old(engine).device_initialized,
        !ok ==> *final(engine) == *old(engine),
        ok && old(engine).rx.rcvr_entry@.len() > 0 ==> {
            let rcvr = old(engine).rx.rcvr_entry@[old(engine).rx.bind_rcvr_idx as int];
            &&& *final(engine) == (Srxl2Interpreter {
                bus: final(engine).bus,
                bind_info: BindData { bind_type, options: old(engine).bind_info.options, guid, uid },
                bind_target: rcvr.device_id,
                ..*old(engine)
            })
            &&& Srxl2Interpreter::requested(
                old(engine).bus@,
                final(engine).bus@,
                TxFlag::SetBindInfo,
                rcvr.bus_bits,
            )
        },
        ok && old(engine).rx.rcvr_entry@.len() == 0 ==> {
            &&& *final(engine) == (Srxl2Interpreter {
                bus: final(engine).bus,
                bind_info: BindData { bind_type, options: old(engine).bind_info.options, guid, uid },
                bind_target: DeviceId(BROADCAST_ID),
                ..*old(engine)
            })
            &&& Srxl2Interpreter::requested(
                old(engine).bus@,
                final(engine).bus@,
                TxFlag::BroadcastBindInfo,
                0xFF,
            )
        },
{
    engine.set_bind_info(bind_type, guid, uid)
}

/// Asks the device `dest_dev_id` on a bus for its bind information. It is
/// refused, with nothing changed, for a bus that does not exist or has not
/// been initialized.
pub fn request_bind_info(engine: &mut Srxl2Interpreter, bus_index: u8, dest_dev_id: u8) -> (ok: bool)
    requires
        old(engine).wf(),
    ensures
        final(engine).wf(),
        ok == old(engine).bus_ready(bus_index),
        !ok ==> *final(engine) == *old(engine),
        ok ==> old(engine).only_bus(
            *final(engine),
            bus_index as int,
            Bus {
                bind_dest: DeviceId(dest_dev_id),
                tx_flags: old(engine).bus@[bus_index as int].tx_flags
                    | TxFlag::GetBindInfo.spec_bit(),
                ..old(engine).bus@[bus_index as int]
            },
        ),
{
    engine.request_bind_info(bus_index, dest_dev_id)
}

/// Counts a frame that the transport lost on the bus. A bus that does not
/// exist or has not been initialized counts nothing.
pub fn on_frame_error(engine: &mut Srxl2Interpreter, bus_index: u8)
    requires
        old(engine).wf(),
    ensures
        final(engine).wf(),
        !old(engine).bus_ready(bus_index) ==> *final(engine) == *old(engine),
        old(engine).bus_ready(bus_index) ==> old(engine).dropped(*final(engine), bus_index as int),
{
    engine.on_frame_error(bus_index)
}

/// Where telemetry is to be sent: the receiver that answers telemetry
/// requests, on the lowest bus that it was found on; device zero on bus
/// zero while no receiver is tracked.
pub fn get_telemetry_endpoint(engine: &Srxl2Interpreter) -> (r: FullId)
    requires
        engine.wf(),
    ensures
        r == if engine.rx.rcvr_entry@.len() > 0 {
            FullId {
                device_id: engine.rx.rcvr_entry@[engine.rx.telem_rcvr_idx as int].device_id,
                bus_index: Srxl2Interpreter::spec_lowest_bus(
                    engine.rx.rcvr_entry@[engine.rx.telem_rcvr_idx as int].bus_bits,
                ),
            }
        } else {
            FullId { device_id: DeviceId(0), bus_index: 0 }
        },
{
    engine.get_telemetry_endpoint()
}

/// Sets the video transmitter settings to send next, and asks for them to
/// be sent on every initialized bus. It is refused, with nothing changed,
/// unless this device is a video transmitter or stands in for one.
pub fn set_vtx_data(engine: &mut Srxl2Interpreter, vtx_data: &VtxData) -> (ok: bool)
    requires
        old(engine).wf(),
    ensures
        final(engine).wf(),
        ok == old(engine).spec_is_vtx(),
        !ok ==> *final(engine) == *old(engine),
        ok ==> {
            &&& *final(engine) == (Srxl2Interpreter {
                bus: final(engine).bus,
                vtx_data: *vtx_data,
                ..*old(engine)
            })
            &&& Srxl2Interpreter::requested(
                old(engine).bus@,
                final(engine).bus@,
                TxFlag::SendVtxData,
                0xFF,
            )
        },
{
    engine.set_vtx_data(vtx_data)
}

/// Queues forward programming data, at most sixty-four bytes, and asks for
/// them to be sent on every initialized bus: the bytes, then zeros up to
/// sixty-four, with the best dBm of the receivers as RSSI. It is refused,
/// with nothing changed, for more bytes or while the device is not
/// configured.
pub fn pass_thru_fwd_pgm(engine: &mut Srxl2Interpreter, data: &[u8]) -> (ok: bool)
    requires
        old(engine).wf(),
    ensures
        final(engine).wf(),
        ok == (old(engine).device_initialized && data@.len() <= FWD_PGM_MAX_DATA_SIZE),
        !ok ==> *final(engine) == *old(engine),
        ok ==> {
            &&& *final(engine) == (Srxl2Interpreter {
                bus: final(engine).bus,
                fwd_pgm_out: final(engine).fwd_pgm_out,
                ..*old(engine)
            })
            &&& final(engine).fwd_pgm_out.rssi == old(engine).rx.best_rssi_dbm
            &&& final(engine).fwd_pgm_out.rfu@ == seq![0u8, 0u8]
            &&& final(engine).fwd_pgm_out.data@ == data@ + Seq::new(
                (FWD_PGM_MAX_DATA_SIZE - data@.len()) as nat,
                |k: int| 0u8,
            )
            &&& Srxl2Interpreter::requested(
                old(engine).bus@,
                final(engine).bus@,
                TxFlag::SendFwdPgmData,
                0xFF,
            )
        },
{
    engine.pass_thru_fwd_pgm(data)
}

/// Sets the number of frame losses in a row that count as a hold, and
/// starts the countdown again; zero asks for the default of 45.
pub fn set_hold_threshold(engine: &mut Srxl2Interpreter, countdown_reset: u8)
    requires
        old(engine).wf(),
    ensures
        final(engine).wf(),
        *final(engine) == (Srxl2Interpreter { rx: final(engine).rx, ..*old(engine) }),
        final(engine).rx.loss_hold_count == if countdown_reset == 0 {
            DEFAULT_HOLD_COUNT
        } else {
            countdown_reset
        },
        final(engine).rx.loss_countdown == final(engine).rx.loss_hold_count,
        final(engine).rx.frame_losses == old(engine).rx.frame_losses,
        final(engine).rx.holds == old(engine).rx.holds,
        final(engine).rx.rcvr_entry@ == old(engine).rx.rcvr_entry@,
        final(engine).rx.telem_rcvr_idx == old(engine).rx.telem_rcvr_idx,
        final(engine).rx.bind_rcvr_idx == old(engine).rx.bind_rcvr_idx,
{
    engine.set_hold_threshold(countdown_reset)
}

/// Forgets the statistics: frame losses, holds, and the fades of every
/// receiver.
pub fn clear_comm_stats(engine: &mut Srxl2Interpreter)
    requires
        old(engine).wf(),
    ensures
        final(engine).wf(),
        *final(engine) == (Srxl2Interpreter { rx: final(engine).rx, ..*old(engine) }),
        final(engine).rx.frame_losses == 0,
        final(engine).rx.holds == 0,
        final(engine).rx.loss_countdown == old(engine).rx.loss_hold_count,
        final(engine).rx.loss_hold_count == old(engine).rx.loss_hold_count,
        final(engine).rx.rcvr_entry@.len() == old(engine).rx.rcvr_entry@.len(),
        forall|i: int|
            0 <= i < old(engine).rx.rcvr_entry@.len() ==> #[trigger] final(engine).rx.rcvr_entry@[i] == (
            ReceiverEntry { fades: 0, ..old(engine).rx.rcvr_entry@[i] }),
{
    engine.clear_comm_stats()
}

/// Counts one tick of the link: `is_fade` says that every receiver lost
/// its frame in it. The hold counters step as `HoldCounters::after_tick`
/// says; the result is whether the tick turned a run of losses into a
/// hold.
pub fn update_comm_stats(engine: &mut Srxl2Interpreter, is_fade: bool) -> (hold: bool)
    requires
        old(engine).wf(),
    ensures
        final(engine).wf(),
        *final(engine) == (Srxl2Interpreter { rx: final(engine).rx, ..*old(engine) }),
        hold == old(engine).rx.counters().tick_is_hold(is_fade),
        final(engine).rx.counters() == old(engine).rx.counters().after_tick(is_fade),
        final(engine).rx.rcvr_entry@ == old(engine).rx.rcvr_entry@,
        final(engine).rx.telem_rcvr_idx == old(engine).rx.telem_rcvr_idx,
        final(engine).rx.bind_rcvr_idx == old(engine).rx.bind_rcvr_idx,
{
    engine.update_comm_stats(is_fade)
}

/// Asks for an internal packet with the command `cmd` to be sent to the
/// device `dest_dev_id` on a bus. A bus that does not exist or has not been
/// initialized does nothing.
pub fn send_internal_data(engine: &mut Srxl2Interpreter, bus_index: u8, dest_dev_id: u8, cmd: u8)
    requires
        old(engine).wf(),
    ensures
        final(engine).wf(),
        !old(engine).bus_ready(bus_index) ==> *final(engine) == *old(engine),
        old(engine).bus_ready(bus_index) ==> {
            &&& *final(engine) == (Srxl2Interpreter {
                bus: final(engine).bus,
                internal_out: InternalData {
                    src_dev_id: old(engine).my_id(),
                    dest_dev_id: DeviceId(dest_dev_id),
                    test: cmd,
                    key: old(engine).this_dev.uid,
                },
                ..*old(engine)
            })
            &&& final(engine).bus@.len() == old(engine).bus@.len()
            &&& forall|j: int|
                0 <= j < old(engine).bus@.len() && j != bus_index ==> #[trigger] final(engine).bus@[j]
                    == old(engine).bus@[j]
            &&& final(engine).bus@[bus_index as int] == (Bus {
                tx_flags: old(engine).bus@[bus_index as int].tx_flags
                    | TxFlag::SendInternal.spec_bit(),
                ..old(engine).bus@[bus_index as int]
            })
        },
{
    engine.send_internal_data(bus_index, dest_dev_id, cmd)
}

} // verus!
