//! Image of the clock-control block.
//!
//! Only the enable bits this library's drivers touch are modelled: one
//! clock gate per supported peripheral instance plus the GPIO-port and DMA
//! gates. Each driver's `init` contract states exactly which gates it
//! turns on and that every other gate keeps its value, so two instances
//! configured through the same code path can be shown to enable only their
//! own gates.

use vstd::prelude::*;

verus! {

/// Clock-enable bits of the reset and clock control block.
#[derive(Clone, Copy, Debug, PartialEq, Eq, Structural)]
pub struct Rcc {
    /// DMA engine clock gate.
    pub ahbenr_dmaen: bool,
    /// GPIO port A clock gate.
    pub ahbenr_iopaen: bool,
    /// First serial instance's clock gate.
    pub apb2enr_usart1en: bool,
    /// SPI instance's clock gate.
    pub apb2enr_spi1en: bool,
    /// Second serial instance's clock gate.
    pub apb1enr_usart2en: bool,
    /// General-purpose timer clock gates.
    pub apb1enr_tim2en: bool,
    /// General-purpose timer clock gates.
    pub apb1enr_tim3en: bool,
    /// General-purpose timer clock gates.
    pub apb1enr_tim4en: bool,
    /// Basic timer clock gate.
    pub apb1enr_tim7en: bool,
}

impl Rcc {
    /// An image with every clock gate off, the reset state of the block.
    pub fn new() -> (r: Rcc)
        ensures
            r == (Rcc {
                ahbenr_dmaen: false,
                ahbenr_iopaen: false,
                apb2enr_usart1en: false,
                apb2enr_spi1en: false,
                apb1enr_usart2en: false,
                apb1enr_tim2en: false,
                apb1enr_tim3en: false,
                apb1enr_tim4en: false,
                apb1enr_tim7en: false,
            }),
    {
        Rcc {
            ahbenr_dmaen: false,
            ahbenr_iopaen: false,
            apb2enr_usart1en: false,
            apb2enr_spi1en: false,
            apb1enr_usart2en: false,
            apb1enr_tim2en: false,
            apb1enr_tim3en: false,
            apb1enr_tim4en: false,
            apb1enr_tim7en: false,
        }
    }
}

} // verus!
