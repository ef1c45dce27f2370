//! Register-level drivers for the serial (USART), SPI and timer peripherals of
//! an STM32F3-family microcontroller, written against explicit register-image
//! models.
//!
//! Every peripheral's registers are represented as plain structs ([`rcc::Rcc`],
//! [`gpio::Gpio`], [`serial::UsartRegs`], [`spi::SpiRegs`], [`timer::TimerRegs`],
//! [`dma::Dma1`]); the drivers state in their contracts exactly which fields
//! each operation reads and writes. Host-side code that talks to the real
//! memory-mapped registers copies these images to and from hardware.

pub mod divider;
pub mod dma;
pub mod gpio;
pub mod nonblock;
pub mod rcc;
pub mod serial;
pub mod spi;
pub mod time;
pub mod timer;
