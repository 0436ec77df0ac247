//! One SRXL2 bus: the devices found on it, and the state machine that
//! takes it from the handshake to the polling cycle.
//!
//! The bus decides; it sends nothing itself. `tick` says which kind of
//! packet is due, and the interpreter that owns the bus builds it.

use vstd::prelude::*;
use crate::control::Cmd;
use crate::device::{DeviceEntry, DeviceId, FullId, BROADCAST_ID, MAX_DEVICES};
use crate::flags::FlagBit;
use crate::handshake::HandshakeData;
use crate::internal::State;
use crate::receiver::ReceiverEntry;
use crate::tx::TxFlag;

verus! {

/// Most buses of one device.
pub const MAX_BUSES: usize = 8;

/// Milliseconds that a bus listens after its start before it takes the bus
/// for silent.
pub const STARTUP_LISTEN_MS: u16 = 50;

/// Milliseconds between two handshakes of a device that offers itself as
/// master.
pub const HANDSHAKE_PERIOD_MS: u16 = 50;

/// Milliseconds that a device waits for the handshake of a master that it
/// has heard, before it offers itself.
pub const HANDSHAKE_LISTEN_MS: u16 = 150;

/// Missed frames in a row above which a bus counts as disturbed.
pub const FRAME_ERROR_LIMIT: u8 = 3;

/// Whether `num_buses` is a number of buses that a device can have.
pub open spec fn valid_bus_count(num_buses: usize) -> bool {
    num_buses == 1 || num_buses == 2 || num_buses == 4 || num_buses == 8
}

/// The sum of the telemetry priorities that the devices ask for.
pub open spec fn priority_sum(devs: Seq<DeviceEntry>) -> int
    decreases devs.len(),
{
    if devs.len() == 0 {
        0
    } else {
        priority_sum(devs.drop_last()) + devs.last().priority
    }
}

/// The sum of priorities is at most 255 for each device.
pub proof fn lemma_priority_sum_bound(devs: Seq<DeviceEntry>)
    ensures
        0 <= priority_sum(devs) <= 255 * devs.len(),
    decreases devs.len(),
{
    if devs.len() > 0 {
        lemma_priority_sum_bound(devs.drop_last());
    }
}

/// Changing one entry changes the sum by the difference of the priorities.
pub proof fn lemma_priority_sum_update(devs: Seq<DeviceEntry>, i: int, e: DeviceEntry)
    requires
        0 <= i < devs.len(),
    ensures
        priority_sum(devs.update(i, e)) == priority_sum(devs) - devs[i].priority + e.priority,
    decreases devs.len(),
{
    let upd = devs.update(i, e);
    if i == devs.len() - 1 {
        assert(upd.drop_last() =~= devs.drop_last());
    } else {
        lemma_priority_sum_update(devs.drop_last(), i, e);
        assert(upd.drop_last() =~= devs.drop_last().update(i, e));
    }
}

/// The least device id among `devs`, and 256 where there is none.
pub open spec fn least_id(devs: Seq<DeviceEntry>) -> int
    decreases devs.len(),
{
    if devs.len() == 0 {
        256
    } else {
        let rest = least_id(devs.drop_last());
        if devs.last().device_id.0 < rest {
            devs.last().device_id.0 as int
        } else {
            rest
        }
    }
}

/// The least device id among `devs` that is above `current`, and 256 where
/// there is none.
pub open spec fn least_id_above(devs: Seq<DeviceEntry>, current: u8) -> int
    decreases devs.len(),
{
    if devs.len() == 0 {
        256
    } else {
        let rest = least_id_above(devs.drop_last(), current);
        if current < devs.last().device_id.0 < rest {
            devs.last().device_id.0 as int
        } else {
            rest
        }
    }
}

/// The device to poll after `current`, going round by device id: the next
/// higher id on the bus, the lowest once the highest has had its turn, and
/// `current` again while the bus knows no device.
pub open spec fn spec_next_poll(devs: Seq<DeviceEntry>, current: u8) -> u8 {
    if least_id_above(devs, current) < 256 {
        least_id_above(devs, current) as u8
    } else if least_id(devs) < 256 {
        least_id(devs) as u8
    } else {
        current
    }
}

/// The index of the entry with id `id` among `devs`, if there is one.
pub open spec fn spec_index_of(devs: Seq<DeviceEntry>, id: DeviceId) -> Option<int>
    decreases devs.len(),
{
    if devs.len() == 0 {
        None
    } else if spec_index_of(devs.drop_last(), id) is Some {
        spec_index_of(devs.drop_last(), id)
    } else if devs.last().device_id == id {
        Some(devs.len() - 1)
    } else {
        None
    }
}

/// The index that `spec_index_of` gives is that of the first entry with
/// the id, and it gives none only where no entry has it.
pub proof fn lemma_index_of(devs: Seq<DeviceEntry>, id: DeviceId)
    ensures
        match spec_index_of(devs, id) {
            Some(i) => 0 <= i < devs.len() && devs[i].device_id == id && forall|j: int|
                0 <= j < i ==> (#[trigger] devs[j]).device_id != id,
            None => forall|j: int| 0 <= j < devs.len() ==> (#[trigger] devs[j]).device_id != id,
        },
    decreases devs.len(),
{
    if devs.len() > 0 {
        let rest = devs.drop_last();
        lemma_index_of(rest, id);
        match spec_index_of(rest, id) {
            Some(i) => {
                assert(rest[i] == devs[i]);
                assert forall|j: int| 0 <= j < i implies (#[trigger] devs[j]).device_id != id by {
                    assert(rest[j] == devs[j]);
                }
            },
            None => {
                assert forall|j: int| 0 <= j < devs.len() - 1 implies (#[trigger] devs[j]).device_id
                    != id by {
                    assert(rest[j] == devs[j]);
                }
            },
        }
    }
}

/// The table of devices after `entry` announced itself: the entry takes
/// the place of the one with its id, or the next free place; a full table
/// takes no new device.
pub open spec fn spec_registered(devs: Seq<DeviceEntry>, entry: DeviceEntry) -> Seq<DeviceEntry> {
    match spec_index_of(devs, entry.device_id) {
        Some(i) => devs.update(i, entry),
        None => if devs.len() < MAX_DEVICES {
            devs.push(entry)
        } else {
            devs
        },
    }
}

/// The pending packet kind that is served first: the one with the lowest
/// bit. A slave passes over forward programming data, which only a master
/// sends.
pub open spec fn spec_first_flag(flags: u8, master: bool) -> Option<TxFlag> {
    if flags & 0x01 != 0 {
        Some(TxFlag::EnterBind)
    } else if flags & 0x02 != 0 {
        Some(TxFlag::GetBindInfo)
    } else if flags & 0x04 != 0 {
        Some(TxFlag::SetBindInfo)
    } else if flags & 0x08 != 0 {
        Some(TxFlag::BroadcastBindInfo)
    } else if flags & 0x10 != 0 {
        Some(TxFlag::ReportBindInfo)
    } else if flags & 0x20 != 0 {
        Some(TxFlag::SendVtxData)
    } else if master && flags & 0x40 != 0 {
        Some(TxFlag::SendFwdPgmData)
    } else if flags & 0x80 != 0 {
        Some(TxFlag::SendInternal)
    } else {
        None
    }
}

/// The kind of packet that serves a pending flag.
pub open spec fn spec_cmd_of_flag(flag: TxFlag) -> Cmd {
    match flag {
        TxFlag::EnterBind => Cmd::EnterBind,
        TxFlag::GetBindInfo => Cmd::ReqBindInfo,
        TxFlag::SetBindInfo => Cmd::SetBind,
        TxFlag::BroadcastBindInfo => Cmd::SetBind,
        TxFlag::ReportBindInfo => Cmd::BindInfo,
        TxFlag::SendVtxData => Cmd::Vtx,
        TxFlag::SendFwdPgmData => Cmd::FwdPgm,
        TxFlag::SendInternal => Cmd::Internal,
    }
}

/// The state in which a slave serves a pending flag on its turn.
pub open spec fn spec_state_of_flag(flag: TxFlag) -> State {
    match flag {
        TxFlag::EnterBind => State::SendEnterBind,
        TxFlag::GetBindInfo => State::RequestBindInfo,
        TxFlag::SetBindInfo => State::SendSetBindInfo,
        TxFlag::BroadcastBindInfo => State::SendSetBindInfo,
        TxFlag::ReportBindInfo => State::SendBoundDataReport,
        TxFlag::SendVtxData => State::SendVtx,
        TxFlag::SendFwdPgmData => State::SendTelemetry,
        TxFlag::SendInternal => State::SendInternal,
    }
}

/// The kind of packet that a sending state sends, and the flag that it
/// serves; telemetry serves none.
pub open spec fn spec_cmd_of_state(state: State, flags: u8) -> (Cmd, u8) {
    match state {
        State::SendTelemetry => (Cmd::Telemtry, 0u8),
        State::SendVtx => (Cmd::Vtx, 0x20u8),
        State::SendEnterBind => (Cmd::EnterBind, 0x01u8),
        State::SendBoundDataReport => (Cmd::BindInfo, 0x10u8),
        State::SendSetBindInfo => (
            Cmd::SetBind,
            if flags & 0x04 != 0 {
                0x04u8
            } else {
                0x08u8
            },
        ),
        State::RequestBindInfo => (Cmd::ReqBindInfo, 0x02u8),
        State::SendInternal => (Cmd::Internal, 0x80u8),
        _ => (Cmd::NoCmd, 0u8),
    }
}

/// Whether a state is one in which the handshake is over: the running
/// state and the states that send one packet and return to it.
pub open spec fn spec_is_running(state: State) -> bool {
    state != State::Disabled && state != State::ListenOnStartup && state != State::SendHandshake
        && state != State::ListenForHandshake
}

/// Whether the device `(id_a, uid_a)` wins the bus from `(id_b, uid_b)`
/// when both offer themselves as master: the lower device id wins, and
/// between equal ids the lower uid.
pub open spec fn spec_wins(id_a: u8, uid_a: u32, id_b: u8, uid_b: u32) -> bool {
    id_a < id_b || (id_a == id_b && uid_a < uid_b)
}

/// One bus of a device.
#[derive(Debug)]
pub struct Bus {
    /// Frame that waits to be sent; empty when none does
    pub srxl_out: Vec<u8>,
    /// Current state of SRXL state machine
    pub state: State,
    /// Device ID and Bus Index of this device, set during init
    pub full_id: FullId,
    /// Other SRXL devices discovered via handshake, with their telemetry priorities
    pub rx_dev: Vec<DeviceEntry>,
    /// Sum of priorities requested for each discovered SRXL device
    pub rx_dev_priority_sum: u16,
    /// Milliseconds since an SRXL packet was received or, while handshakes
    /// are sent, since the last one went out
    pub timeout_count_ms: u16,
    /// As master, the device to poll next; as slave, the master to answer
    pub request_id: DeviceId,
    /// Baud rates this device can do besides 115200, see `Baud`
    pub baud_supported: u8,
    /// Baud rates that this device and every device heard so far can do
    pub baud_rate: u8,
    /// Number of consecutive missed frames
    pub frame_err_count: u8,
    /// Pending outgoing packet types, see `TxFlag`
    pub tx_flags: u8,
    /// Index number of UART tied to this SRXL bus
    pub uart: u8,
    /// Receiver entry for the bus master, if one exists
    pub master_rcvr: Option<ReceiverEntry>,
    /// Mask for channels to be sent on master buses
    pub channel_out_mask: u32,
    /// True if this device is the bus master on this bus
    pub master: bool,
    /// True if this bus master should poll all devices once more
    pub poll_once_more: bool,
    /// True when this SRXL bus is initialized
    pub initialized: bool,
    /// True while a slave owes the master the answer to its handshake
    pub handshake_due: bool,
    /// Device that the next bind info request on this bus goes to
    pub bind_dest: DeviceId,
    /// Handshakes of another device that claimed this device's id
    pub id_collisions: u8,
    /// True if the device has more than one bus; a hub is master of each
    pub hub: bool,
    /// As master, the device that the last poll asked to reply
    pub last_polled: DeviceId,
}

/// What a handshake did to the table of devices.
#[derive(Clone, Copy, PartialEq, Eq, Structural, Debug)]
pub enum HandshakeOutcome {
    /// The bus has not been started: nothing changed.
    NotStarted,
    /// The bus's own handshake came back: nothing changed.
    Echo,
    /// Another device uses this device's id: the collision was counted.
    Collision,
    /// A device that the bus knew announced itself again.
    Known,
    /// A device announced itself for the first time and was added.
    Added,
    /// A device announced itself for the first time, and the table is full.
    TableFull,
}

impl Bus {
    /// The table of devices is in order: at most sixteen devices, and the
    /// sum of priorities is the sum over the table; the bus index is that
    /// of one of eight buses; a bus is disabled exactly while it is not
    /// initialized.
    pub open spec fn wf(&self) -> bool {
        &&& self.rx_dev@.len() <= MAX_DEVICES
        &&& self.rx_dev_priority_sum == priority_sum(self.rx_dev@)
        &&& self.full_id.bus_index < MAX_BUSES
        &&& self.initialized <==> self.state != State::Disabled
    }

    /// Whether the bus is as `new` makes it: disabled, at the index
    /// `bus_index`, with nothing known, nothing counted and nothing to send.
    pub open spec fn is_new(&self, bus_index: u8, hub: bool) -> bool {
        &&& self.hub == hub
        &&& self.last_polled == DeviceId(0)
        &&& self.srxl_out@.len() == 0
        &&& self.state == State::Disabled
        &&& self.full_id == (FullId { device_id: DeviceId(0), bus_index })
        &&& self.rx_dev@.len() == 0
        &&& self.rx_dev_priority_sum == 0
        &&& self.timeout_count_ms == 0
        &&& self.request_id == DeviceId(0)
        &&& self.baud_supported == 0
        &&& self.baud_rate == 0
        &&& self.frame_err_count == 0
        &&& self.tx_flags == 0
        &&& self.uart == 0
        &&& self.master_rcvr is None
        &&& self.channel_out_mask == 0
        &&& !self.master
        &&& !self.poll_once_more
        &&& !self.initialized
        &&& !self.handshake_due
        &&& self.bind_dest == DeviceId(0)
        &&& self.id_collisions == 0
    }

    /// Whether `post` is the bus `self` after it was started for the device
    /// `device_id` on the UART `uart`: it keeps its index, has forgotten
    /// what it knew, and listens for traffic.
    pub open spec fn started(&self, post: Bus, device_id: DeviceId, uart: u8, baud_supported: u8) -> bool {
        &&& post.hub == self.hub
        &&& post.last_polled == DeviceId(0)
        &&& post.srxl_out@.len() == 0
        &&& post.state == State::ListenOnStartup
        &&& post.full_id == (FullId { device_id, bus_index: self.full_id.bus_index })
        &&& post.rx_dev@.len() == 0
        &&& post.rx_dev_priority_sum == 0
        &&& post.timeout_count_ms == 0
        &&& post.request_id == DeviceId(0)
        &&& post.baud_supported == baud_supported
        &&& post.baud_rate == baud_supported
        &&& post.frame_err_count == 0
        &&& post.tx_flags == 0
        &&& post.uart == uart
        &&& post.master_rcvr is None
        &&& post.channel_out_mask == 0
        &&& !post.master
        &&& !post.poll_once_more
        &&& post.initialized
        &&& !post.handshake_due
        &&& post.bind_dest == DeviceId(0)
        &&& post.id_collisions == 0
    }

    /// A bus that has not been initialized, of a device that is a hub or
    /// is not.
    pub fn new(bus_index: u8, hub: bool) -> (b: Bus)
        requires
            bus_index < MAX_BUSES,
        ensures
            b.wf(),
            b.is_new(bus_index, hub),
    {
        Bus {
            srxl_out: Vec::new(),
            state: State::Disabled,
            full_id: FullId { device_id: DeviceId(0), bus_index },
            rx_dev: Vec::new(),
            rx_dev_priority_sum: 0,
            timeout_count_ms: 0,
            request_id: DeviceId(0),
            baud_supported: 0,
            baud_rate: 0,
            frame_err_count: 0,
            tx_flags: 0,
            uart: 0,
            master_rcvr: None,
            channel_out_mask: 0,
            master: false,
            poll_once_more: false,
            initialized: false,
            handshake_due: false,
            bind_dest: DeviceId(0),
            id_collisions: 0,
            hub,
            last_polled: DeviceId(0),
        }
    }

    /// Starts the bus for the device `device_id` on the UART `uart`, as
    /// `started` says.
    pub fn init(&mut self, device_id: DeviceId, uart: u8, baud_supported: u8)
        requires
            old(self).wf(),
        ensures
            final(self).wf(),
            old(self).started(*final(self), device_id, uart, baud_supported),
    {
        self.srxl_out = Vec::new();
        self.state = State::ListenOnStartup;
        self.full_id = FullId { device_id, bus_index: self.full_id.bus_index };
        self.rx_dev = Vec::new();
        self.rx_dev_priority_sum = 0;
        self.timeout_count_ms = 0;
        self.request_id = DeviceId(0);
        self.baud_supported = baud_supported;
        self.baud_rate = baud_supported;
        self.frame_err_count = 0;
        self.tx_flags = 0;
        self.uart = uart;
        self.master_rcvr = None;
        self.channel_out_mask = 0;
        self.master = false;
        self.poll_once_more = false;
        self.initialized = true;
        self.handshake_due = false;
        self.bind_dest = DeviceId(0);
        self.id_collisions = 0;
        self.last_polled = DeviceId(0);
    }

    /// Whether the handshake is over on this bus.
    pub fn is_running(&self) -> (r: bool)
        ensures
            r == spec_is_running(self.state),
    {
        match self.state {
            State::Disabled => false,
            State::ListenOnStartup => false,
            State::SendHandshake => false,
            State::ListenForHandshake => false,
            _ => true,
        }
    }

    /// The milliseconds on the clock of the bus once `elapsed_ms` more have
    /// passed; the clock stops at its largest value.
    pub open spec fn spec_clock(&self, elapsed_ms: u16) -> u16 {
        if self.timeout_count_ms + elapsed_ms > u16::MAX {
            u16::MAX
        } else {
            (self.timeout_count_ms + elapsed_ms) as u16
        }
    }

    /// The kind of packet that is due after `elapsed_ms` more milliseconds,
    /// `NoCmd` when none is.
    ///
    /// A bus that listens after its start offers itself as master once it
    /// has heard nothing for `STARTUP_LISTEN_MS`, and one that waits for a
    /// master once it has waited `HANDSHAKE_LISTEN_MS`: the first handshake
    /// is due at once. A bus that offers itself sends a handshake every
    /// `HANDSHAKE_PERIOD_MS`. A running master first polls everyone once
    /// more if it was asked to, then serves the pending packet kind with
    /// the lowest bit, and otherwise polls with channel data. A running
    /// slave answers the master's handshake if it owes the answer, and is
    /// silent otherwise. A bus in a sending state sends what the state
    /// names.
    pub open spec fn tick_cmd(&self, elapsed_ms: u16) -> Cmd {
        let t = self.spec_clock(elapsed_ms);
        match self.state {
            State::Disabled => Cmd::NoCmd,
            State::ListenOnStartup => if t >= STARTUP_LISTEN_MS {
                Cmd::Handshake
            } else {
                Cmd::NoCmd
            },
            State::SendHandshake => if t >= HANDSHAKE_PERIOD_MS {
                Cmd::Handshake
            } else {
                Cmd::NoCmd
            },
            State::ListenForHandshake => if t >= HANDSHAKE_LISTEN_MS {
                Cmd::Handshake
            } else {
                Cmd::NoCmd
            },
            State::Running => if self.master {
                if self.poll_once_more {
                    Cmd::Handshake
                } else {
                    match spec_first_flag(self.tx_flags, true) {
                        Some(flag) => spec_cmd_of_flag(flag),
                        None => Cmd::Channel,
                    }
                }
            } else if self.handshake_due {
                Cmd::Handshake
            } else {
                Cmd::NoCmd
            },
            _ => spec_cmd_of_state(self.state, self.tx_flags).0,
        }
    }

    /// The bus after `elapsed_ms` more milliseconds. See `tick_cmd` for
    /// what is sent; the state follows it: a bus whose listening time is
    /// over offers itself as master, a sending state returns to the running
    /// state, and whatever is sent is no longer pending. A handshake that
    /// becomes due starts the clock again, and a master that polls with
    /// channel data moves on to the next device.
    pub open spec fn after_tick(self, elapsed_ms: u16) -> Bus {
        let t = self.spec_clock(elapsed_ms);
        match self.state {
            State::Disabled => self,
            State::ListenOnStartup => if t >= STARTUP_LISTEN_MS {
                Bus { state: State::SendHandshake, master: true, timeout_count_ms: 0, ..self }
            } else {
                Bus { timeout_count_ms: t, ..self }
            },
            State::SendHandshake => if t >= HANDSHAKE_PERIOD_MS {
                Bus { timeout_count_ms: 0, ..self }
            } else {
                Bus { timeout_count_ms: t, ..self }
            },
            State::ListenForHandshake => if t >= HANDSHAKE_LISTEN_MS {
                Bus { state: State::SendHandshake, master: true, timeout_count_ms: 0, ..self }
            } else {
                Bus { timeout_count_ms: t, ..self }
            },
            State::Running => if self.master {
                if self.poll_once_more {
                    Bus { poll_once_more: false, timeout_count_ms: t, ..self }
                } else {
                    match spec_first_flag(self.tx_flags, true) {
                        Some(flag) => Bus {
                            tx_flags: self.tx_flags & !flag.spec_bit(),
                            timeout_count_ms: t,
                            ..self
                        },
                        None => Bus {
                            request_id: DeviceId(spec_next_poll(self.rx_dev@, self.request_id.0)),
                            timeout_count_ms: t,
                            ..self
                        },
                    }
                }
            } else {
                Bus { handshake_due: false, timeout_count_ms: t, ..self }
            },
            _ => Bus {
                state: State::Running,
                tx_flags: self.tx_flags & !spec_cmd_of_state(self.state, self.tx_flags).1,
                timeout_count_ms: t,
                ..self
            },
        }
    }

    /// Advances the bus by `elapsed_ms` milliseconds and says which kind of
    /// packet is due.
    pub fn tick(&mut self, elapsed_ms: u16) -> (cmd: Cmd)
        requires
            old(self).wf(),
        ensures
            final(self).wf(),
            cmd == old(self).tick_cmd(elapsed_ms),
            *final(self) == old(self).after_tick(elapsed_ms),
    {
        let t: u16 = if self.timeout_count_ms as u32 + elapsed_ms as u32 > u16::MAX as u32 {
            u16::MAX
        } else {
            self.timeout_count_ms + elapsed_ms
        };
        match self.state {
            State::Disabled => Cmd::NoCmd,
            State::ListenOnStartup => {
                if t >= STARTUP_LISTEN_MS {
                    self.state = State::SendHandshake;
                    self.master = true;
                    self.timeout_count_ms = 0;
                    Cmd::Handshake
                } else {
                    self.timeout_count_ms = t;
                    Cmd::NoCmd
                }
            },
            State::SendHandshake => {
                if t >= HANDSHAKE_PERIOD_MS {
                    self.timeout_count_ms = 0;
                    Cmd::Handshake
                } else {
                    self.timeout_count_ms = t;
                    Cmd::NoCmd
                }
            },
            State::ListenForHandshake => {
                if t >= HANDSHAKE_LISTEN_MS {
                    self.state = State::SendHandshake;
                    self.master = true;
                    self.timeout_count_ms = 0;
                    Cmd::Handshake
                } else {
                    self.timeout_count_ms = t;
                    Cmd::NoCmd
                }
            },
            State::Running => {
                self.timeout_count_ms = t;
                if self.master {
                    if self.poll_once_more {
                        self.poll_once_more = false;
                        Cmd::Handshake
                    } else {
                        match first_flag(self.tx_flags, true) {
                            Some(flag) => {
                                self.tx_flags = self.tx_flags & !flag.bit();
                                cmd_of_flag(flag)
                            },
                            None => {
                                self.request_id = DeviceId(
                                    next_poll(&self.rx_dev, self.request_id.0),
                                );
                                Cmd::Channel
                            },
                        }
                    }
                } else {
                    let due = self.handshake_due;
                    self.handshake_due = false;
                    if due {
                        Cmd::Handshake
                    } else {
                        Cmd::NoCmd
                    }
                }
            },
            _ => {
                let (cmd, bit) = cmd_of_state(self.state, self.tx_flags);
                self.state = State::Running;
                self.tx_flags = self.tx_flags & !bit;
                self.timeout_count_ms = t;
                cmd
            },
        }
    }

    /// The bus after a valid frame has been seen on it: the clock and the
    /// count of missed frames start again, and a bus that listened after
    /// its start knows that someone talks and waits for a master's
    /// handshake.
    pub open spec fn after_traffic(self) -> Bus {
        Bus {
            timeout_count_ms: 0,
            frame_err_count: 0,
            state: if self.state == State::ListenOnStartup {
                State::ListenForHandshake
            } else {
                self.state
            },
            ..self
        }
    }

    /// Takes note of a valid frame.
    pub fn on_traffic(&mut self)
        requires
            old(self).wf(),
        ensures
            final(self).wf(),
            *final(self) == old(self).after_traffic(),
    {
        self.timeout_count_ms = 0;
        self.frame_err_count = 0;
        if self.state == State::ListenOnStartup {
            self.state = State::ListenForHandshake;
        }
    }

    /// Counts a frame that was missed or dropped; the count stops at its
    /// largest value.
    pub fn note_frame_error(&mut self)
        ensures
            *final(self) == (Bus {
                frame_err_count: if old(self).frame_err_count < u8::MAX {
                    (old(self).frame_err_count + 1) as u8
                } else {
                    u8::MAX
                },
                ..*old(self)
            }),
    {
        if self.frame_err_count < u8::MAX {
            self.frame_err_count = self.frame_err_count + 1;
        }
    }

    /// Marks a kind of packet as waiting to be sent.
    pub fn request(&mut self, flag: TxFlag)
        ensures
            *final(self) == (Bus { tx_flags: old(self).tx_flags | flag.spec_bit(), ..*old(self) }),
    {
        self.tx_flags = self.tx_flags | flag.bit();
    }

    /// The bus after the master has given this device its turn: a slave
    /// whose handshake is over goes to the state that serves its first
    /// pending packet kind, or sends telemetry if none is pending. A master,
    /// and a bus that is still in its handshake, stays as it is.
    pub open spec fn after_poll(self) -> Bus {
        if self.state == State::Running && !self.master {
            Bus {
                state: match spec_first_flag(self.tx_flags, false) {
                    Some(flag) => spec_state_of_flag(flag),
                    None => State::SendTelemetry,
                },
                ..self
            }
        } else {
            self
        }
    }

    /// Takes the turn that the master gives.
    pub fn on_poll(&mut self)
        requires
            old(self).wf(),
        ensures
            final(self).wf(),
            *final(self) == old(self).after_poll(),
    {
        if self.state == State::Running && !self.master {
            self.state = match first_flag(self.tx_flags, false) {
                Some(flag) => state_of_flag(flag),
                None => State::SendTelemetry,
            };
        }
    }

    /// What the handshake `h` does to the table of devices of a bus whose
    /// device has the uid `my_uid`.
    pub open spec fn handshake_outcome(&self, h: HandshakeData, my_uid: u32) -> HandshakeOutcome {
        if !self.initialized {
            HandshakeOutcome::NotStarted
        } else if h.src_dev_id == self.full_id.device_id {
            if h.uid == my_uid {
                HandshakeOutcome::Echo
            } else {
                HandshakeOutcome::Collision
            }
        } else if spec_index_of(self.rx_dev@, h.src_dev_id) is Some {
            HandshakeOutcome::Known
        } else if self.rx_dev@.len() < MAX_DEVICES {
            HandshakeOutcome::Added
        } else {
            HandshakeOutcome::TableFull
        }
    }

    /// The state, and whether this device is master, after the handshake
    /// `h` of another device.
    ///
    /// A hub is master of each of its buses: whatever it hears during the
    /// handshake, it runs as master from then on. Of the other devices, one
    /// that listens takes the sender for its master, runs as slave and owes
    /// the answer; one that offers itself as master is confirmed by a
    /// handshake that is addressed to it, and against a handshake that is
    /// not, it keeps the bus if it wins by `spec_wins` and yields if it
    /// loses. Either way it runs from then on. A bus that runs already stays
    /// as it is.
    pub open spec fn after_handshake_role(self, h: HandshakeData, my_uid: u32) -> Bus {
        match self.state {
            State::ListenOnStartup | State::ListenForHandshake => if self.hub {
                Bus { state: State::Running, master: true, ..self }
            } else {
                Bus {
                    state: State::Running,
                    master: false,
                    handshake_due: true,
                    request_id: h.src_dev_id,
                    master_rcvr: self.spec_master_rcvr(h),
                    ..self
                }
            },
            State::SendHandshake => {
                let keeps = self.hub || h.dest_dev_id == self.full_id.device_id || spec_wins(
                    self.full_id.device_id.0,
                    my_uid,
                    h.src_dev_id.0,
                    h.uid,
                );
                if keeps {
                    Bus { state: State::Running, master: true, ..self }
                } else {
                    Bus {
                        state: State::Running,
                        master: false,
                        request_id: h.src_dev_id,
                        master_rcvr: self.spec_master_rcvr(h),
                        ..self
                    }
                }
            },
            _ => self,
        }
    }

    /// The receiver entry of the master that sent `h`: a fresh entry on
    /// this bus if the master is a receiver, and none if it is not.
    pub open spec fn spec_master_rcvr(self, h: HandshakeData) -> Option<ReceiverEntry> {
        if h.src_dev_id.spec_is_receiver() {
            Some(ReceiverEntry::spec_fresh(h.src_dev_id, 1u8 << self.full_id.bus_index, h.info))
        } else {
            None
        }
    }

    /// The receiver entry of the master that sent `h`.
    fn master_rcvr_of(&self, h: &HandshakeData) -> (r: Option<ReceiverEntry>)
        requires
            self.full_id.bus_index < MAX_BUSES,
        ensures
            r == self.spec_master_rcvr(*h),
    {
        if h.src_dev_id.is_receiver() {
            Some(ReceiverEntry::fresh(h.src_dev_id, 1u8 << self.full_id.bus_index, h.info))
        } else {
            None
        }
    }

    /// Whether `post` is the bus `self` after the handshake `h`, for a
    /// device with the uid `my_uid`.
    ///
    /// A bus that has not been started takes up nothing. The bus's own
    /// handshake, come back, changes nothing. A handshake with this device's
    /// id and another uid is counted as a collision and changes nothing in
    /// the table, though the roles are settled as for any handshake. Any other sender is entered in the table, in place of
    /// its old entry if it has one, unless it is new and the table is full;
    /// the baud rates are narrowed to those that the sender can do too; and
    /// the roles are settled as `after_handshake_role` says.
    pub open spec fn handshake_applied(self, post: Bus, h: HandshakeData, my_uid: u32) -> bool {
        match self.handshake_outcome(h, my_uid) {
            HandshakeOutcome::NotStarted => post == self,
            HandshakeOutcome::Echo => post == self,
            HandshakeOutcome::Collision => post == (Bus {
                id_collisions: if self.id_collisions < u8::MAX {
                    (self.id_collisions + 1) as u8
                } else {
                    u8::MAX
                },
                ..self.after_handshake_role(h, my_uid)
            }),
            _ => {
                &&& post.rx_dev@ == spec_registered(self.rx_dev@, Self::entry_of(h))
                &&& post.rx_dev_priority_sum == priority_sum(post.rx_dev@)
                &&& post == (Bus {
                    rx_dev: post.rx_dev,
                    rx_dev_priority_sum: post.rx_dev_priority_sum,
                    baud_rate: self.baud_rate & h.baud_supported,
                    ..self.after_handshake_role(h, my_uid)
                })
            },
        }
    }

    /// The entry that a handshake asks the bus to keep.
    pub open spec fn entry_of(h: HandshakeData) -> DeviceEntry {
        DeviceEntry { device_id: h.src_dev_id, priority: h.priority, info: h.info, rfu: 0 }
    }

    /// Takes up the handshake `h` on a bus whose device has the uid
    /// `my_uid`, as `handshake_applied` says, and tells what became of the
    /// sender.
    pub fn on_handshake(&mut self, h: &HandshakeData, my_uid: u32) -> (outcome: HandshakeOutcome)
        requires
            old(self).wf(),
        ensures
            final(self).wf(),
            final(self).initialized == old(self).initialized,
            final(self).full_id == old(self).full_id,
            final(self).hub == old(self).hub,
            outcome == old(self).handshake_outcome(*h, my_uid),
            old(self).handshake_applied(*final(self), *h, my_uid),
    {
        if !self.initialized {
            return HandshakeOutcome::NotStarted;
        }
        let me = self.full_id.device_id;
        if h.src_dev_id.0 == me.0 && h.uid == my_uid {
            return HandshakeOutcome::Echo;
        }
        let outcome = if h.src_dev_id.0 == me.0 {
            if self.id_collisions < u8::MAX {
                self.id_collisions = self.id_collisions + 1;
            }
            HandshakeOutcome::Collision
        } else {
            let entry = DeviceEntry {
                device_id: h.src_dev_id,
                priority: h.priority,
                info: h.info,
                rfu: 0,
            };
            self.baud_rate = self.baud_rate & h.baud_supported;
            proof {
                lemma_index_of(self.rx_dev@, h.src_dev_id);
                lemma_priority_sum_bound(self.rx_dev@);
            }
            match index_of(&self.rx_dev, h.src_dev_id) {
                Some(i) => {
                    proof {
                        let silent = DeviceEntry { priority: 0, ..entry };
                        lemma_priority_sum_update(self.rx_dev@, i as int, silent);
                        lemma_priority_sum_bound(self.rx_dev@.update(i as int, silent));
                        lemma_priority_sum_update(self.rx_dev@, i as int, entry);
                        lemma_priority_sum_bound(self.rx_dev@.update(i as int, entry));
                    }
                    self.rx_dev_priority_sum = self.rx_dev_priority_sum
                        - self.rx_dev[i].priority as u16 + entry.priority as u16;
                    self.rx_dev.set(i, entry);
                    HandshakeOutcome::Known
                },
                None => {
                    if self.rx_dev.len() < MAX_DEVICES {
                        proof {
                            assert(self.rx_dev@.push(entry).drop_last() =~= self.rx_dev@);
                        }
                        self.rx_dev_priority_sum = self.rx_dev_priority_sum + entry.priority as u16;
                        self.rx_dev.push(entry);
                        HandshakeOutcome::Added
                    } else {
                        HandshakeOutcome::TableFull
                    }
                },
            }
        };
        match self.state {
            State::ListenOnStartup | State::ListenForHandshake => {
                self.state = State::Running;
                if self.hub {
                    self.master = true;
                } else {
                    self.master_rcvr = self.master_rcvr_of(h);
                    self.master = false;
                    self.handshake_due = true;
                    self.request_id = h.src_dev_id;
                }
            },
            State::SendHandshake => {
                let keeps = self.hub || h.dest_dev_id.0 == me.0 || wins(
                    me.0,
                    my_uid,
                    h.src_dev_id.0,
                    h.uid,
                );
                self.state = State::Running;
                self.master = keeps;
                if !keeps {
                    self.master_rcvr = self.master_rcvr_of(h);
                    self.request_id = h.src_dev_id;
                }
            },
            _ => {},
        }
        outcome
    }

    /// The entry of the device with id `id`, if the bus knows it.
    pub fn device(&self, id: DeviceId) -> (r: Option<DeviceEntry>)
        ensures
            r == match spec_index_of(self.rx_dev@, id) {
                Some(i) => Some(self.rx_dev@[i]),
                None => None,
            },
    {
        proof {
            lemma_index_of(self.rx_dev@, id);
        }
        match index_of(&self.rx_dev, id) {
            Some(i) => Some(self.rx_dev[i]),
            None => None,
        }
    }
}

/// Of two devices with one bus each that offer themselves as master of
/// that bus at the same time, exactly one is master once each has heard the
/// other's handshake, and both run. The two are told apart by device id or
/// by uid; which of them wins does not depend on the order in which the
/// handshakes arrive.
pub proof fn law_one_master(a: Bus, uid_a: u32, b: Bus, uid_b: u32, ha: HandshakeData, hb: HandshakeData)
    requires
        !a.hub,
        !b.hub,
        a.state == State::SendHandshake,
        b.state == State::SendHandshake,
        a.full_id.device_id != b.full_id.device_id || uid_a != uid_b,
        ha.src_dev_id == a.full_id.device_id && ha.uid == uid_a && ha.dest_dev_id.0 == BROADCAST_ID,
        hb.src_dev_id == b.full_id.device_id && hb.uid == uid_b && hb.dest_dev_id.0 == BROADCAST_ID,
        a.full_id.device_id.0 != BROADCAST_ID,
        b.full_id.device_id.0 != BROADCAST_ID,
    ensures
        a.after_handshake_role(hb, uid_a).state == State::Running,
        b.after_handshake_role(ha, uid_b).state == State::Running,
        a.after_handshake_role(hb, uid_a).master != b.after_handshake_role(ha, uid_b).master,
        a.after_handshake_role(hb, uid_a).master == spec_wins(
            a.full_id.device_id.0,
            uid_a,
            b.full_id.device_id.0,
            uid_b,
        ),
{
}

/// Whether the device `(id_a, uid_a)` wins the bus from `(id_b, uid_b)`.
pub fn wins(id_a: u8, uid_a: u32, id_b: u8, uid_b: u32) -> (r: bool)
    ensures
        r == spec_wins(id_a, uid_a, id_b, uid_b),
{
    id_a < id_b || (id_a == id_b && uid_a < uid_b)
}

/// The index of the entry with id `id`, if there is one.
pub fn index_of(devs: &Vec<DeviceEntry>, id: DeviceId) -> (r: Option<usize>)
    ensures
        match r {
            Some(i) => spec_index_of(devs@, id) == Some(i as int),
            None => spec_index_of(devs@, id) is None,
        },
{
    let mut i: usize = 0;
    while i < devs.len()
        invariant
            i <= devs.len(),
            spec_index_of(devs@.take(i as int), id) is None,
        decreases devs.len() - i,
    {
        proof {
            let next = devs@.take(i as int + 1);
            assert(next.drop_last() =~= devs@.take(i as int));
            assert(next.last() == devs@[i as int]);
        }
        if devs[i].device_id.0 == id.0 {
            proof {
                lemma_index_of_prefix(devs@, id, i as int + 1);
            }
            return Some(i);
        }
        i += 1;
    }
    assert(devs@.take(i as int) =~= devs@);
    None
}

/// An index found in the first `n` entries is the index in the whole.
proof fn lemma_index_of_prefix(devs: Seq<DeviceEntry>, id: DeviceId, n: int)
    requires
        0 <= n <= devs.len(),
        spec_index_of(devs.take(n), id) is Some,
    ensures
        spec_index_of(devs, id) == spec_index_of(devs.take(n), id),
    decreases devs.len() - n,
{
    if n < devs.len() {
        let next = devs.take(n + 1);
        assert(next.drop_last() =~= devs.take(n));
        lemma_index_of_prefix(devs, id, n + 1);
    } else {
        assert(devs.take(n) =~= devs);
    }
}

/// The device to poll after `current`.
pub fn next_poll(devs: &Vec<DeviceEntry>, current: u8) -> (next: u8)
    ensures
        next == spec_next_poll(devs@, current),
{
    let mut least: u16 = 256;
    let mut above: u16 = 256;
    let mut i: usize = 0;
    while i < devs.len()
        invariant
            i <= devs.len(),
            least == least_id(devs@.take(i as int)),
            above == least_id_above(devs@.take(i as int), current),
            least <= 256,
            above <= 256,
        decreases devs.len() - i,
    {
        proof {
            let next = devs@.take(i as int + 1);
            assert(next.drop_last() =~= devs@.take(i as int));
            assert(next.last() == devs@[i as int]);
        }
        let id: u16 = devs[i].device_id.0 as u16;
        if id < least {
            least = id;
        }
        if (current as u16) < id && id < above {
            above = id;
        }
        i += 1;
    }
    assert(devs@.take(i as int) =~= devs@);
    if above < 256 {
        above as u8
    } else if least < 256 {
        least as u8
    } else {
        current
    }
}

/// The pending packet kind that is served first.
pub fn first_flag(flags: u8, master: bool) -> (r: Option<TxFlag>)
    ensures
        r == spec_first_flag(flags, master),
{
    if flags & 0x01 != 0 {
        Some(TxFlag::EnterBind)
    } else if flags & 0x02 != 0 {
        Some(TxFlag::GetBindInfo)
    } else if flags & 0x04 != 0 {
        Some(TxFlag::SetBindInfo)
    } else if flags & 0x08 != 0 {
        Some(TxFlag::BroadcastBindInfo)
    } else if flags & 0x10 != 0 {
        Some(TxFlag::ReportBindInfo)
    } else if flags & 0x20 != 0 {
        Some(TxFlag::SendVtxData)
    } else if master && flags & 0x40 != 0 {
        Some(TxFlag::SendFwdPgmData)
    } else if flags & 0x80 != 0 {
        Some(TxFlag::SendInternal)
    } else {
        None
    }
}

/// The kind of packet that serves a pending flag.
pub fn cmd_of_flag(flag: TxFlag) -> (c: Cmd)
    ensures
        c == spec_cmd_of_flag(flag),
{
    match flag {
        TxFlag::EnterBind => Cmd::EnterBind,
        TxFlag::GetBindInfo => Cmd::ReqBindInfo,
        TxFlag::SetBindInfo => Cmd::SetBind,
        TxFlag::BroadcastBindInfo => Cmd::SetBind,
        TxFlag::ReportBindInfo => Cmd::BindInfo,
        TxFlag::SendVtxData => Cmd::Vtx,
        TxFlag::SendFwdPgmData => Cmd::FwdPgm,
        TxFlag::SendInternal => Cmd::Internal,
    }
}

/// The state in which a slave serves a pending flag on its turn.
pub fn state_of_flag(flag: TxFlag) -> (s: State)
    ensures
        s == spec_state_of_flag(flag),
{
    match flag {
        TxFlag::EnterBind => State::SendEnterBind,
        TxFlag::GetBindInfo => State::RequestBindInfo,
        TxFlag::SetBindInfo => State::SendSetBindInfo,
        TxFlag::BroadcastBindInfo => State::SendSetBindInfo,
        TxFlag::ReportBindInfo => State::SendBoundDataReport,
        TxFlag::SendVtxData => State::SendVtx,
        TxFlag::SendFwdPgmData => State::SendTelemetry,
        TxFlag::SendInternal => State::SendInternal,
    }
}

/// The kind of packet that a sending state sends, and the flag it serves.
pub fn cmd_of_state(state: State, flags: u8) -> (r: (Cmd, u8))
    ensures
        r == spec_cmd_of_state(state, flags),
{
    match state {
        State::SendTelemetry => (Cmd::Telemtry, 0u8),
        State::SendVtx => (Cmd::Vtx, 0x20u8),
        State::SendEnterBind => (Cmd::EnterBind, 0x01u8),
        State::SendBoundDataReport => (Cmd::BindInfo, 0x10u8),
        State::SendSetBindInfo => (
            Cmd::SetBind,
            if flags & 0x04 != 0 {
                0x04u8
            } else {
                0x08u8
            },
        ),
        State::RequestBindInfo => (Cmd::ReqBindInfo, 0x02u8),
        State::SendInternal => (Cmd::Internal, 0x80u8),
        _ => (Cmd::NoCmd, 0u8),
    }
}

} // verus!
