//! Image of one GPIO port's pin-routing registers.
//!
//! A port has sixteen pins; each pin has a mode and, when the mode is
//! `Alternate`, an alternate-function number selecting which peripheral
//! drives it. Driver `init` contracts state which pins they reroute and
//! that every other pin keeps its configuration.

use vstd::prelude::*;

verus! {

/// The mode of one pin.
#[derive(Clone, Copy, Debug, PartialEq, Eq, Structural)]
pub enum PinMode {
    /// Input (the reset state).
    Input,
    /// General-purpose output.
    Output,
    /// Driven by a peripheral selected by the alternate-function number.
    Alternate,
    /// Analog.
    Analog,
}

/// Number of pins in one port.
pub const PIN_COUNT: usize = 16;

/// Mode and alternate-function registers of one GPIO port.
#[derive(Clone, Debug)]
pub struct Gpio {
    /// Mode of each pin, indexed by pin number.
    pub moder: Vec<PinMode>,
    /// Alternate-function number of each pin, indexed by pin number.
    pub afr: Vec<u8>,
}

impl Gpio {
    /// A port image is well formed when it covers exactly the sixteen pins.
    pub open spec fn wf(&self) -> bool {
        self.moder@.len() == PIN_COUNT && self.afr@.len() == PIN_COUNT
    }

    /// An image with every pin in its reset state.
    pub fn new() -> (r: Gpio)
        ensures
            r.wf(),
            forall|i: int| 0 <= i < PIN_COUNT ==> r.moder@[i] == PinMode::Input,
            forall|i: int| 0 <= i < PIN_COUNT ==> r.afr@[i] == 0u8,
    {
        let mut moder: Vec<PinMode> = Vec::new();
        let mut afr: Vec<u8> = Vec::new();
        let mut i: usize = 0;
        while i < PIN_COUNT
            invariant
                i <= PIN_COUNT,
                moder@.len() == i,
                afr@.len() == i,
                forall|j: int| 0 <= j < i ==> moder@[j] == PinMode::Input,
                forall|j: int| 0 <= j < i ==> afr@[j] == 0u8,
            decreases PIN_COUNT - i,
        {
            moder.push(PinMode::Input);
            afr.push(0);
            i = i + 1;
        }
        Gpio { moder, afr }
    }

    /// Routes one pin to a peripheral: sets its mode to `Alternate` and
    /// selects alternate function `af`. All other pins keep their state.
    pub fn set_alternate(&mut self, pin: usize, af: u8)
        requires
            old(self).wf(),
            pin < PIN_COUNT,
        ensures
            final(self).wf(),
            final(self).moder@ == old(self).moder@.update(pin as int, PinMode::Alternate),
            final(self).afr@ == old(self).afr@.update(pin as int, af),
    {
        self.moder.set(pin, PinMode::Alternate);
        self.afr.set(pin, af);
    }
}

} // verus!
