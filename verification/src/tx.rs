//! Kinds of packet that wait to be sent on a bus.

use vstd::prelude::*;
use crate::flags::FlagBit;

verus! {

/// One pending outgoing packet kind; each is one bit of a bus's mask.
#[derive(Clone, Copy, PartialEq, Eq, Structural, Debug)]
pub enum TxFlag {
    EnterBind,
    GetBindInfo,
    SetBindInfo,
    BroadcastBindInfo,
    ReportBindInfo,
    SendVtxData,
    SendFwdPgmData,
    SendInternal,
}

impl FlagBit for TxFlag {
    open spec fn spec_bit(&self) -> u8 {
        match self {
            TxFlag::EnterBind => 0x01,
            TxFlag::GetBindInfo => 0x02,
            TxFlag::SetBindInfo => 0x04,
            TxFlag::BroadcastBindInfo => 0x08,
            TxFlag::ReportBindInfo => 0x10,
            TxFlag::SendVtxData => 0x20,
            TxFlag::SendFwdPgmData => 0x40,
            TxFlag::SendInternal => 0x80,
        }
    }

    fn bit(&self) -> (b: u8) {
        match self {
            TxFlag::EnterBind => 0x01,
            TxFlag::GetBindInfo => 0x02,
            TxFlag::SetBindInfo => 0x04,
            TxFlag::BroadcastBindInfo => 0x08,
            TxFlag::ReportBindInfo => 0x10,
            TxFlag::SendVtxData => 0x20,
            TxFlag::SendFwdPgmData => 0x40,
            TxFlag::SendInternal => 0x80,
        }
    }
}

} // verus!
