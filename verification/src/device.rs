//! Device identity: types, default ids, and the records kept per device.

use vstd::prelude::*;
use crate::flags::{FlagBit, Flags};
use crate::receiver::ReceiverEntry;

verus! {

/// Most devices that one bus keeps track of.
pub const MAX_DEVICES: usize = 16;

/// Device id that no device type owns.
pub const UNASSIGNED_ID: u8 = 0xFF;

/// Device id that addresses every device on a bus.
pub const BROADCAST_ID: u8 = 0xFF;

/// Default device id of each of the sixteen type codes, which a master polls
/// first. The codes 5, 12, 13 and 14 name no device type and have none.
pub open spec fn spec_default_id_of_code(code: u8) -> u8 {
    if code == 0x0 {
        0x00
    } else if code == 0x1 {
        0x10
    } else if code == 0x2 {
        0x21
    } else if code == 0x3 {
        0x30
    } else if code == 0x4 {
        0x40
    } else if code == 0x6 {
        0x60
    } else if code == 0x7 {
        0x70
    } else if code == 0x8 {
        0x81
    } else if code == 0x9 {
        0x90
    } else if code == 0xA {
        0xA0
    } else if code == 0xB {
        0xB0
    } else {
        UNASSIGNED_ID
    }
}

/// Looks up the default device id of a type code. A code that names no
/// device type, and any value above fifteen, gives `UNASSIGNED_ID`.
pub fn default_id_of_code(code: u8) -> (id: u8)
    ensures
        id == spec_default_id_of_code(code),
{
    if code == 0x0 {
        0x00
    } else if code == 0x1 {
        0x10
    } else if code == 0x2 {
        0x21
    } else if code == 0x3 {
        0x30
    } else if code == 0x4 {
        0x40
    } else if code == 0x6 {
        0x60
    } else if code == 0x7 {
        0x70
    } else if code == 0x8 {
        0x81
    } else if code == 0x9 {
        0x90
    } else if code == 0xA {
        0xA0
    } else if code == 0xB {
        0xB0
    } else {
        UNASSIGNED_ID
    }
}

/// Supported SRXL device types (upper nibble of device ID)
#[derive(Clone, Copy, PartialEq, Eq, Structural, Debug)]
pub enum DeviceType {
    NoDevice,
    RemoteReceiver,
    Receiver,
    FlightController,
    ESC,
    SRXLServo1,
    SRXLServo2,
    VTX,
    ExtRF,
    RemoteId,
    Sensor,
    Broadcast,
}

impl DeviceType {
    /// The type's code: the upper nibble of the ids of its devices.
    pub open spec fn spec_code(self) -> u8 {
        match self {
            DeviceType::NoDevice => 0x0,
            DeviceType::RemoteReceiver => 0x1,
            DeviceType::Receiver => 0x2,
            DeviceType::FlightController => 0x3,
            DeviceType::ESC => 0x4,
            DeviceType::SRXLServo1 => 0x6,
            DeviceType::SRXLServo2 => 0x7,
            DeviceType::VTX => 0x8,
            DeviceType::ExtRF => 0x9,
            DeviceType::RemoteId => 0xA,
            DeviceType::Sensor => 0xB,
            DeviceType::Broadcast => 0xF,
        }
    }

    /// The type whose code is `nibble`, if there is one.
    pub open spec fn of_code(nibble: u8) -> Option<DeviceType> {
        if nibble == 0x0 {
            Some(DeviceType::NoDevice)
        } else if nibble == 0x1 {
            Some(DeviceType::RemoteReceiver)
        } else if nibble == 0x2 {
            Some(DeviceType::Receiver)
        } else if nibble == 0x3 {
            Some(DeviceType::FlightController)
        } else if nibble == 0x4 {
            Some(DeviceType::ESC)
        } else if nibble == 0x6 {
            Some(DeviceType::SRXLServo1)
        } else if nibble == 0x7 {
            Some(DeviceType::SRXLServo2)
        } else if nibble == 0x8 {
            Some(DeviceType::VTX)
        } else if nibble == 0x9 {
            Some(DeviceType::ExtRF)
        } else if nibble == 0xA {
            Some(DeviceType::RemoteId)
        } else if nibble == 0xB {
            Some(DeviceType::Sensor)
        } else if nibble == 0xF {
            Some(DeviceType::Broadcast)
        } else {
            None
        }
    }

    /// The type's code: the upper nibble of the ids of its devices.
    pub fn code(self) -> (c: u8)
        ensures
            c == self.spec_code(),
            c < 16,
    {
        match self {
            DeviceType::NoDevice => 0x0,
            DeviceType::RemoteReceiver => 0x1,
            DeviceType::Receiver => 0x2,
            DeviceType::FlightController => 0x3,
            DeviceType::ESC => 0x4,
            DeviceType::SRXLServo1 => 0x6,
            DeviceType::SRXLServo2 => 0x7,
            DeviceType::VTX => 0x8,
            DeviceType::ExtRF => 0x9,
            DeviceType::RemoteId => 0xA,
            DeviceType::Sensor => 0xB,
            DeviceType::Broadcast => 0xF,
        }
    }

    /// The default id of a device of this type.
    pub fn default_value(self) -> (id: u8)
        ensures
            id == spec_default_id_of_code(self.spec_code()),
    {
        default_id_of_code(self.code())
    }
}

impl TryFrom<u8> for DeviceType {
    type Error = ();

    /// The type of the device whose id is `value`.
    fn try_from(value: u8) -> (r: Result<Self, ()>) {
        let nibble = value >> 4;
        if nibble == 0x0 {
            Ok(Self::NoDevice)
        } else if nibble == 0x1 {
            Ok(Self::RemoteReceiver)
        } else if nibble == 0x2 {
            Ok(Self::Receiver)
        } else if nibble == 0x3 {
            Ok(Self::FlightController)
        } else if nibble == 0x4 {
            Ok(Self::ESC)
        } else if nibble == 0x6 {
            Ok(Self::SRXLServo1)
        } else if nibble == 0x7 {
            Ok(Self::SRXLServo2)
        } else if nibble == 0x8 {
            Ok(Self::VTX)
        } else if nibble == 0x9 {
            Ok(Self::ExtRF)
        } else if nibble == 0xA {
            Ok(Self::RemoteId)
        } else if nibble == 0xB {
            Ok(Self::Sensor)
        } else if nibble == 0xF {
            Ok(Self::Broadcast)
        } else {
            Err(())
        }
    }
}

impl vstd::std_specs::convert::TryFromSpecImpl<u8> for DeviceType {
    open spec fn obeys_try_from_spec() -> bool {
        true
    }

    /// The type named by the upper nibble of `value`; an error where the
    /// nibble names none.
    open spec fn try_from_spec(value: u8) -> Result<Self, ()> {
        match DeviceType::of_code(value >> 4) {
            Some(t) => Ok(t),
            None => Err(()),
        }
    }
}

/// Bit masks for the device info byte sent via handshake.
#[derive(Clone, Copy, PartialEq, Eq, Structural, Debug)]
pub enum DeviceInfo {
    /// This is the base for non-RF devices
    NoRf,
    /// This bit is set if the device is actively configured to transmit telemetry over RF
    TelemTxEnabled,
    /// This bit is set if the device can send full-range telemetry over RF
    TelemFullRange,
    /// This bit is set if the device supports Forward Programming via RF or SRXL
    FwdProgSupport,
}

impl FlagBit for DeviceInfo {
    open spec fn spec_bit(&self) -> u8 {
        match self {
            DeviceInfo::NoRf => 0x00,
            DeviceInfo::TelemTxEnabled => 0x01,
            DeviceInfo::TelemFullRange => 0x02,
            DeviceInfo::FwdProgSupport => 0x04,
        }
    }

    fn bit(&self) -> (b: u8) {
        match self {
            DeviceInfo::NoRf => 0x00,
            DeviceInfo::TelemTxEnabled => 0x01,
            DeviceInfo::TelemFullRange => 0x02,
            DeviceInfo::FwdProgSupport => 0x04,
        }
    }
}

/// An 8-bit device id: the device type in the upper nibble, a number that
/// tells devices of one type apart in the lower.
#[derive(Clone, Copy, PartialEq, Eq, Structural, Debug)]
pub struct DeviceId(pub u8);

impl DeviceId {
    /// The id with the value `value`.
    pub fn new(value: u8) -> (id: Self)
        ensures
            id.0 == value,
    {
        DeviceId(value)
    }

    /// The id as a byte.
    pub fn value(&self) -> (v: u8)
        ensures
            v == self.0,
    {
        self.0
    }

    /// The device type that the upper nibble names, if it names one.
    pub open spec fn spec_device_type(&self) -> Option<DeviceType> {
        DeviceType::of_code(self.0 >> 4)
    }

    /// The device type that the upper nibble names; `None` where the nibble
    /// is one of the reserved codes.
    pub fn device_type(&self) -> (t: Option<DeviceType>)
        ensures
            t == self.spec_device_type(),
    {
        match DeviceType::try_from(self.0) {
            Ok(t) => Some(t),
            Err(_) => None,
        }
    }

    /// The lower nibble.
    pub fn unit(&self) -> (u: u8)
        ensures
            u == self.0 & 0x0F,
    {
        self.0 & 0x0F
    }

    /// Whether the id is that of a receiver or a remote receiver.
    pub open spec fn spec_is_receiver(&self) -> bool {
        0x10 <= self.0 < 0x30
    }

    /// Whether the id is that of a receiver or a remote receiver.
    pub fn is_receiver(&self) -> (r: bool)
        ensures
            r == self.spec_is_receiver(),
    {
        0x10 <= self.0 && self.0 < 0x30
    }
}

/// A device on one of the buses of a hub.
#[derive(Clone, Copy, PartialEq, Eq, Structural, Debug)]
pub struct FullId {
    pub device_id: DeviceId,
    pub bus_index: u8,
}

/// What a bus remembers of a device that announced itself.
#[derive(Clone, Copy, PartialEq, Eq, Structural, Debug)]
pub struct DeviceEntry {
    pub device_id: DeviceId,
    /// Requested telemetry priority of this device
    pub priority: u8,
    /// Capability bits, see `DeviceInfo`
    pub info: u8,
    pub rfu: u8,
}

impl DeviceEntry {
    /// The capability bits as flags.
    pub fn info_flags(&self) -> (f: Flags<DeviceInfo>)
        ensures
            f.0 == self.info,
    {
        Flags::new(self.info)
    }
}

/// The local device.
#[derive(Clone, Copy, Debug)]
pub struct Device {
    /// Device info for this local device, shared across all buses.
    pub dev_entry: DeviceEntry,
    /// ID statistically likely to be unique (Random, hash of serial, etc.)
    pub uid: u32,
    /// This device's own receiver entry, if it is a receiver itself (not for
    /// a flight controller that acts as a hub)
    pub rcvr: Option<ReceiverEntry>,
    /// Set true if this device can and should respond to VTX commands
    pub vtx_proxy: bool,
}

} // verus!
