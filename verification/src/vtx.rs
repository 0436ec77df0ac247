//! Video transmitter settings.

use vstd::prelude::*;
use crate::wire::{le16, lemma_le16_bytes, lemma_le16_value, push_le16, read_le16};

verus! {

/// Bytes of the video transmitter settings on the wire.
pub const VTX_SIZE: usize = 7;

/// Frequency band of the transmitter.
#[derive(Clone, Copy, PartialEq, Eq, Structural, Debug)]
pub enum Band {
    FatShark,
    RaceBand,
    EBand,
    BBand,
    ABand,
}

impl Band {
    /// The band's code on the wire.
    pub open spec fn spec_code(self) -> u8 {
        match self {
            Band::FatShark => 0,
            Band::RaceBand => 1,
            Band::EBand => 2,
            Band::BBand => 3,
            Band::ABand => 4,
        }
    }

    /// The band whose code is `code`, if there is one.
    pub open spec fn of_code(code: u8) -> Option<Band> {
        if code == 0 {
            Some(Band::FatShark)
        } else if code == 1 {
            Some(Band::RaceBand)
        } else if code == 2 {
            Some(Band::EBand)
        } else if code == 3 {
            Some(Band::BBand)
        } else if code == 4 {
            Some(Band::ABand)
        } else {
            None
        }
    }

    /// The band's code on the wire.
    pub fn code(self) -> (c: u8)
        ensures
            c == self.spec_code(),
    {
        match self {
            Band::FatShark => 0,
            Band::RaceBand => 1,
            Band::EBand => 2,
            Band::BBand => 3,
            Band::ABand => 4,
        }
    }

    /// The band whose code is `code`, if there is one.
    pub fn from_code(code: u8) -> (r: Option<Band>)
        ensures
            r == Self::of_code(code),
    {
        if code == 0 {
            Some(Band::FatShark)
        } else if code == 1 {
            Some(Band::RaceBand)
        } else if code == 2 {
            Some(Band::EBand)
        } else if code == 3 {
            Some(Band::BBand)
        } else if code == 4 {
            Some(Band::ABand)
        } else {
            None
        }
    }
}

/// Whether the transmitter is at race power or held back for the pit.
#[derive(Clone, Copy, PartialEq, Eq, Structural, Debug)]
pub enum Mode {
    Race,
    Pit,
}

impl Mode {
    /// The mode's code on the wire.
    pub open spec fn spec_code(self) -> u8 {
        match self {
            Mode::Race => 0,
            Mode::Pit => 1,
        }
    }

    /// The mode whose code is `code`, if there is one.
    pub open spec fn of_code(code: u8) -> Option<Mode> {
        if code == 0 {
            Some(Mode::Race)
        } else if code == 1 {
            Some(Mode::Pit)
        } else {
            None
        }
    }

    /// The mode's code on the wire.
    pub fn code(self) -> (c: u8)
        ensures
            c == self.spec_code(),
    {
        match self {
            Mode::Race => 0,
            Mode::Pit => 1,
        }
    }

    /// The mode whose code is `code`, if there is one.
    pub fn from_code(code: u8) -> (r: Option<Mode>)
        ensures
            r == Self::of_code(code),
    {
        if code == 0 {
            Some(Mode::Race)
        } else if code == 1 {
            Some(Mode::Pit)
        } else {
            None
        }
    }
}

/// Power level of the transmitter.
#[derive(Clone, Copy, PartialEq, Eq, Structural, Debug)]
pub enum Power {
    Off,
    P1To14Mw,
    P15To99Mw,
    P26To99Mw,
    P100To299Mw,
    P300To600Mw,
    P601MwPlus,
    Manual,
}

impl Power {
    /// The level's code on the wire.
    pub open spec fn spec_code(self) -> u8 {
        match self {
            Power::Off => 0,
            Power::P1To14Mw => 1,
            Power::P15To99Mw => 2,
            Power::P26To99Mw => 3,
            Power::P100To299Mw => 4,
            Power::P300To600Mw => 5,
            Power::P601MwPlus => 6,
            Power::Manual => 7,
        }
    }

    /// The level whose code is `code`, if there is one.
    pub open spec fn of_code(code: u8) -> Option<Power> {
        if code == 0 {
            Some(Power::Off)
        } else if code == 1 {
            Some(Power::P1To14Mw)
        } else if code == 2 {
            Some(Power::P15To99Mw)
        } else if code == 3 {
            Some(Power::P26To99Mw)
        } else if code == 4 {
            Some(Power::P100To299Mw)
        } else if code == 5 {
            Some(Power::P300To600Mw)
        } else if code == 6 {
            Some(Power::P601MwPlus)
        } else if code == 7 {
            Some(Power::Manual)
        } else {
            None
        }
    }

    /// The level's code on the wire.
    pub fn code(self) -> (c: u8)
        ensures
            c == self.spec_code(),
    {
        match self {
            Power::Off => 0,
            Power::P1To14Mw => 1,
            Power::P15To99Mw => 2,
            Power::P26To99Mw => 3,
            Power::P100To299Mw => 4,
            Power::P300To600Mw => 5,
            Power::P601MwPlus => 6,
            Power::Manual => 7,
        }
    }

    /// The level whose code is `code`, if there is one.
    pub fn from_code(code: u8) -> (r: Option<Power>)
        ensures
            r == Self::of_code(code),
    {
        if code == 0 {
            Some(Power::Off)
        } else if code == 1 {
            Some(Power::P1To14Mw)
        } else if code == 2 {
            Some(Power::P15To99Mw)
        } else if code == 3 {
            Some(Power::P26To99Mw)
        } else if code == 4 {
            Some(Power::P100To299Mw)
        } else if code == 5 {
            Some(Power::P300To600Mw)
        } else if code == 6 {
            Some(Power::P601MwPlus)
        } else if code == 7 {
            Some(Power::Manual)
        } else {
            None
        }
    }
}

/// Regulatory region of the transmitter.
#[derive(Clone, Copy, PartialEq, Eq, Structural, Debug)]
pub enum Region {
    Us,
    Eu,
}

impl Region {
    /// The region's code on the wire.
    pub open spec fn spec_code(self) -> u8 {
        match self {
            Region::Us => 0,
            Region::Eu => 1,
        }
    }

    /// The region whose code is `code`, if there is one.
    pub open spec fn of_code(code: u8) -> Option<Region> {
        if code == 0 {
            Some(Region::Us)
        } else if code == 1 {
            Some(Region::Eu)
        } else {
            None
        }
    }

    /// The region's code on the wire.
    pub fn code(self) -> (c: u8)
        ensures
            c == self.spec_code(),
    {
        match self {
            Region::Us => 0,
            Region::Eu => 1,
        }
    }

    /// The region whose code is `code`, if there is one.
    pub fn from_code(code: u8) -> (r: Option<Region>)
        ensures
            r == Self::of_code(code),
    {
        if code == 0 {
            Some(Region::Us)
        } else if code == 1 {
            Some(Region::Eu)
        } else {
            None
        }
    }
}

/// VTX Data
#[derive(Clone, Copy, PartialEq, Eq, Structural, Debug)]
pub struct VtxData {
    pub band: Band,
    pub channel: u8,
    pub pit: Mode,
    pub power: Power,
    pub power_dec: u16,
    pub region: Region,
}

impl VtxData {
    /// Fat Shark band, channel 0, race mode, power off, US region.
    pub fn new() -> (v: Self)
        ensures
            v == (VtxData {
                band: Band::FatShark,
                channel: 0,
                pit: Mode::Race,
                power: Power::Off,
                power_dec: 0,
                region: Region::Us,
            }),
    {
        VtxData {
            band: Band::FatShark,
            channel: 0,
            pit: Mode::Race,
            power: Power::Off,
            power_dec: 0,
            region: Region::Us,
        }
    }

    /// The settings as they are sent.
    pub open spec fn wire(self) -> Seq<u8> {
        seq![self.band.spec_code(), self.channel, self.pit.spec_code(), self.power.spec_code()]
            + le16(self.power_dec) + seq![self.region.spec_code()]
    }

    /// Whether `bytes` are video transmitter settings: seven bytes whose
    /// band, mode, power and region are codes of a variant.
    pub open spec fn is_image(bytes: Seq<u8>) -> bool {
        &&& bytes.len() == VTX_SIZE
        &&& Band::of_code(bytes[0]) is Some
        &&& Mode::of_code(bytes[2]) is Some
        &&& Power::of_code(bytes[3]) is Some
        &&& Region::of_code(bytes[6]) is Some
    }

    /// Appends the settings to `out`.
    pub fn encode(&self, out: &mut Vec<u8>)
        ensures
            final(out)@ == old(out)@ + self.wire(),
    {
        out.push(self.band.code());
        out.push(self.channel);
        out.push(self.pit.code());
        out.push(self.power.code());
        push_le16(out, self.power_dec);
        out.push(self.region.code());
        assert(out@ =~= old(out)@ + self.wire());
    }

    /// Reads settings: the value whose image `bytes` is, if it is one.
    pub fn decode(bytes: &[u8]) -> (r: Option<Self>)
        ensures
            r is Some <==> Self::is_image(bytes@),
            r matches Some(v) ==> v.wire() == bytes@,
    {
        if bytes.len() != VTX_SIZE {
            return None;
        }
        let band = match Band::from_code(bytes[0]) {
            Some(b) => b,
            None => {
                return None;
            },
        };
        let pit = match Mode::from_code(bytes[2]) {
            Some(m) => m,
            None => {
                return None;
            },
        };
        let power = match Power::from_code(bytes[3]) {
            Some(p) => p,
            None => {
                return None;
            },
        };
        let region = match Region::from_code(bytes[6]) {
            Some(g) => g,
            None => {
                return None;
            },
        };
        let v = VtxData { band, channel: bytes[1], pit, power, power_dec: read_le16(bytes, 4), region };
        proof {
            lemma_le16_bytes(bytes@, 4);
            assert(v.wire() =~= bytes@);
        }
        Some(v)
    }

    /// Every value has an image of seven bytes, and no two values share one.
    /// So reading what was written gives the value back, as writing what was
    /// read gives the bytes back.
    pub proof fn lemma_wire(self, other: Self)
        ensures
            Self::is_image(self.wire()),
            self.wire() == other.wire() ==> self == other,
    {
        lemma_le16_value(self.power_dec);
        lemma_le16_value(other.power_dec);
        let a = self.wire();
        let b = other.wire();
        assert(a.len() == 7);
        assert(a[0] == self.band.spec_code());
        assert(a[2] == self.pit.spec_code());
        assert(a[3] == self.power.spec_code());
        assert(a[6] == self.region.spec_code());
        if a == b {
            assert(a[0] == b[0] && a[1] == b[1] && a[2] == b[2] && a[3] == b[3] && a[6] == b[6]);
            assert(a.subrange(4, 6) =~= le16(self.power_dec));
            assert(b.subrange(4, 6) =~= le16(other.power_dec));
        }
    }
}

} // verus!
