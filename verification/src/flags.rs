//! Bit masks whose bits are named by an enum.

use vstd::prelude::*;
use core::marker::PhantomData;

verus! {

/// An enum whose variants each stand for a mask of bits in one byte.
pub trait FlagBit {
    /// The mask of this flag.
    spec fn spec_bit(&self) -> u8;

    /// The mask of this flag.
    fn bit(&self) -> (b: u8)
        ensures
            b == self.spec_bit(),
    ;
}

/// One byte of flags of kind `T`.
#[derive(Debug)]
pub struct Flags<T>(pub u8, pub PhantomData<T>);

impl<T: FlagBit> Flags<T> {
    /// The flag byte `bits`.
    pub fn new(bits: u8) -> (f: Self)
        ensures
            f.0 == bits,
    {
        Flags(bits, PhantomData)
    }

    /// The byte behind the flags.
    pub fn bits(&self) -> (b: u8)
        ensures
            b == self.0,
    {
        self.0
    }

    /// Whether every bit of `flag` is set.
    pub open spec fn spec_has(&self, flag: T) -> bool {
        self.0 & flag.spec_bit() == flag.spec_bit()
    }

    /// Whether every bit of `flag` is set.
    pub fn has(&self, flag: T) -> (r: bool)
        ensures
            r == self.spec_has(flag),
    {
        let b = flag.bit();
        self.0 & b == b
    }

    /// Whether every bit that is set in `flags` is set here too.
    pub fn has_all(&self, flags: Self) -> (r: bool)
        ensures
            r == (self.0 & flags.0 == flags.0),
    {
        self.0 & flags.0 == flags.0
    }

    /// These flags with the bits of `flag` set.
    pub fn with(&self, flag: T) -> (f: Self)
        ensures
            f.0 == self.0 | flag.spec_bit(),
    {
        Flags(self.0 | flag.bit(), PhantomData)
    }

    /// These flags with the bits of `flag` cleared.
    pub fn without(&self, flag: T) -> (f: Self)
        ensures
            f.0 == self.0 & !flag.spec_bit(),
    {
        Flags(self.0 & !flag.bit(), PhantomData)
    }
}

} // verus!
