//! A light and a button that share one pin.
//!
//! The pin drives the light most of the time. To read the button it is
//! pulled low and read as an input for a moment. The decisions are here;
//! the pin belongs to the caller.

use vstd::prelude::*;

verus! {

/// Clock ticks during which a pressed button is not read again.
pub const DEBOUNCE_TICKS: usize = 500;

/// A light that can be switched.
pub trait Led {
    fn is_lit(&self) -> bool;

    fn set_lit(&mut self, state: bool);

    fn toggle(&mut self);

    fn set_lit_for(&mut self, duration_ms: usize);
}

/// A button that can be read.
pub trait Button {
    fn is_pressed(&self) -> bool;
}

/// What to do with the pin at the end of a refresh.
#[derive(Clone, Copy, PartialEq, Eq, Structural, Debug)]
pub enum PinDrive {
    /// Drive the pin low
    Low,
    /// Drive the pin high
    High,
    /// Leave the pin as it is
    Leave,
}

/// The state of a light and a button on one pin.
#[derive(Clone, Copy, PartialEq, Eq, Structural, Debug)]
pub struct FusedLedButton {
    pub button_pressed: bool,
    pub led_lit: bool,
    pub button_debounce: usize,
}

impl FusedLedButton {
    /// Light out, button up.
    pub fn new() -> (f: Self)
        ensures
            f == (FusedLedButton { button_pressed: false, led_lit: false, button_debounce: 0 }),
    {
        FusedLedButton { button_pressed: false, led_lit: false, button_debounce: 0 }
    }

    /// Whether the button is to be read at the clock value `clock`: not
    /// while a press is being debounced.
    pub fn needs_sample(&self, clock: usize) -> (r: bool)
        ensures
            r == (clock > self.button_debounce),
    {
        clock > self.button_debounce
    }

    /// The state after a refresh at `clock`, where `is_high` is what the
    /// pin read as an input: while the button is due, a high pin is a press
    /// and starts the debounce time, a low pin a release.
    pub open spec fn after_refresh(self, clock: usize, is_high: bool) -> FusedLedButton {
        if clock > self.button_debounce {
            if is_high {
                FusedLedButton {
                    button_pressed: true,
                    button_debounce: (clock + DEBOUNCE_TICKS) as usize,
                    ..self
                }
            } else {
                FusedLedButton { button_pressed: false, ..self }
            }
        } else {
            self
        }
    }

    /// What a refresh at `clock` does with the pin in the end: low while
    /// the light is lit, high while it is not and no press was just read,
    /// and nothing after a press.
    pub open spec fn spec_drive(self, clock: usize, is_high: bool) -> PinDrive {
        if self.led_lit {
            PinDrive::Low
        } else if !(clock > self.button_debounce && is_high) {
            PinDrive::High
        } else {
            PinDrive::Leave
        }
    }

    /// One refresh at the clock value `clock`. `is_high` is what the pin
    /// read as an input; it counts only while `needs_sample` holds.
    pub fn refresh(&mut self, clock: usize, is_high: bool) -> (drive: PinDrive)
        requires
            clock > old(self).button_debounce && is_high ==> clock + DEBOUNCE_TICKS <= usize::MAX,
        ensures
            *final(self) == old(self).after_refresh(clock, is_high),
            drive == old(self).spec_drive(clock, is_high),
    {
        let mut pressed_now = false;
        if clock > self.button_debounce {
            if is_high {
                pressed_now = true;
                self.button_pressed = true;
                self.button_debounce = clock + DEBOUNCE_TICKS;
            } else {
                self.button_pressed = false;
            }
        }
        if self.led_lit {
            PinDrive::Low
        } else if !pressed_now {
            PinDrive::High
        } else {
            PinDrive::Leave
        }
    }
}

impl Led for FusedLedButton {
    fn is_lit(&self) -> (r: bool)
        ensures
            r == self.led_lit,
    {
        self.led_lit
    }

    fn set_lit(&mut self, state: bool)
        ensures
            *final(self) == (FusedLedButton { led_lit: state, ..*old(self) }),
    {
        self.led_lit = state;
    }

    fn toggle(&mut self)
        ensures
            *final(self) == (FusedLedButton { led_lit: !old(self).led_lit, ..*old(self) }),
    {
        self.led_lit = !self.led_lit;
    }

    fn set_lit_for(&mut self, duration_ms: usize)
        ensures
            *final(self) == *old(self),
    {
    }
}

impl Button for FusedLedButton {
    fn is_pressed(&self) -> (r: bool)
        ensures
            r == self.button_pressed,
    {
        self.button_pressed
    }
}

} // verus!
