//! A light that can be lit for a while.
//!
//! The light here is the state that the pin should have; whoever owns the
//! pin drives it to `is_lit` after each call.

use vstd::prelude::*;

verus! {

/// A light that goes out by itself.
#[derive(Clone, Copy, PartialEq, Eq, Structural, Debug)]
pub struct Timeout {
    /// Clock ticks that the light stays lit
    pub duration: usize,
    /// Clock value after which the light goes out; zero until the first
    /// tick after the light was lit
    pub off: usize,
}

/// A light.
#[derive(Clone, Copy, PartialEq, Eq, Structural, Debug)]
pub struct Led {
    pub lit: bool,
    pub off_timeout: Option<Timeout>,
}

impl Led {
    /// A light that is out.
    pub fn new() -> (led: Self)
        ensures
            led == (Led { lit: false, off_timeout: None }),
    {
        Led { lit: false, off_timeout: None }
    }

    /// Whether the light is lit.
    pub fn is_lit(&self) -> (r: bool)
        ensures
            r == self.lit,
    {
        self.lit
    }

    /// Lights the light or puts it out, for good.
    pub fn set_lit(&mut self, state: bool)
        ensures
            *final(self) == (Led { lit: state, off_timeout: None }),
    {
        self.lit = state;
        self.off_timeout = None;
    }

    /// Changes the light over, for good.
    pub fn toggle(&mut self)
        ensures
            *final(self) == (Led { lit: !old(self).lit, off_timeout: None }),
    {
        self.lit = !self.lit;
        self.off_timeout = None;
    }

    /// Lights the light. It is meant to go out `duration_ms` after the
    /// next tick, but lighting it clears the time again, so it stays lit.
    pub fn set_lit_for(&mut self, duration_ms: usize)
        ensures
            *final(self) == (Led { lit: true, off_timeout: None }),
    {
        self.off_timeout = Some(Timeout { duration: duration_ms, off: 0 });
        self.set_lit(true);
    }

    /// The light after a tick at the clock value `clock`: a time that has
    /// not started yet starts, and a light whose time is over goes out.
    pub open spec fn after_tick(self, clock: usize) -> Led {
        match self.off_timeout {
            None => self,
            Some(t) => if t.off == 0 {
                Led {
                    off_timeout: Some(Timeout { off: (t.duration + clock) as usize, ..t }),
                    ..self
                }
            } else if t.off < clock {
                Led { lit: false, off_timeout: None }
            } else {
                self
            },
        }
    }

    /// Whether a tick at `clock` can be taken: the end of a time that
    /// starts must be a clock value.
    pub open spec fn can_tick(self, clock: usize) -> bool {
        self.off_timeout matches Some(t) ==> t.off != 0 || t.duration + clock <= usize::MAX
    }

    /// Advances the light to the clock value `clock`.
    pub fn tick(&mut self, clock: usize)
        requires
            old(self).can_tick(clock),
        ensures
            *final(self) == old(self).after_tick(clock),
    {
        match self.off_timeout {
            None => {},
            Some(t) => {
                if t.off == 0 {
                    self.off_timeout = Some(Timeout { duration: t.duration, off: t.duration + clock });
                } else if t.off < clock {
                    self.set_lit(false);
                    self.off_timeout = None;
                }
            },
        }
    }
}

} // verus!
