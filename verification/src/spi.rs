//! Serial Peripheral Interface driver.
//!
//! One SPI instance is supported; the handle carries its tag and every
//! operation takes the register images it acts on. `init` routes the four
//! bus pins and programs master mode; `read` and `send` classify one
//! status snapshot in fixed priority order (overrun before CRC error
//! before mode fault before readiness), mirroring the serial driver's
//! non-blocking contract.

use vstd::prelude::*;
use crate::gpio::{Gpio, PinMode};
use crate::nonblock::{NbError, NbResult};
use crate::rcc::Rcc;

verus! {

/// The SPI instances this driver supports.
#[derive(Clone, Copy, Debug, PartialEq, Eq, Structural)]
pub enum SpiInstance {
    /// First SPI controller: pins 4 (NSS), 5 (SCK), 6 (MISO), 7 (MOSI).
    Spi1,
}

/// Lowest pin of the instance's contiguous four-pin group.
pub open spec fn spec_first_pin(i: SpiInstance) -> int {
    match i {
        SpiInstance::Spi1 => 4,
    }
}

/// Alternate function that routes a pin to the SPI controller.
pub const SPI_AF: u8 = 5;

/// Hardware error reported by an SPI poll.
#[derive(Clone, Copy, Debug, PartialEq, Eq, Structural)]
pub enum Error {
    /// Overrun occurred.
    Overrun,
    /// Mode fault occurred.
    ModeFault,
    /// CRC error.
    Crc,
}

/// Status-register snapshot of an SPI instance.
#[derive(Clone, Copy, Debug, PartialEq, Eq, Structural)]
pub struct SpiStatus {
    /// Overrun flag.
    pub ovr: bool,
    /// Mode-fault flag.
    pub modf: bool,
    /// CRC-error flag.
    pub crcerr: bool,
    /// RX buffer not empty.
    pub rxne: bool,
    /// TX buffer empty.
    pub txe: bool,
}

/// Main control register of an SPI instance.
#[derive(Clone, Copy, Debug, PartialEq, Eq, Structural)]
pub struct SpiCr1 {
    /// Clock phase: data captured on the second clock transition.
    pub cpha: bool,
    /// Clock polarity: clock idles high.
    pub cpol: bool,
    /// Master configuration.
    pub mstr: bool,
    /// Baud-rate divider selector.
    pub br: u8,
    /// Frame order: `false` sends the most significant bit first.
    pub lsbfirst: bool,
    /// Software slave management.
    pub ssm: bool,
    /// Receive-only mode.
    pub rxonly: bool,
    /// Frame size: `false` selects 8-bit frames.
    pub dff: bool,
    /// Bidirectional mode: `false` selects 2-line unidirectional.
    pub bidimode: bool,
    /// Peripheral enable; drives the NSS pin when set.
    pub spe: bool,
}

/// Register image of one SPI instance.
#[derive(Clone, Copy, Debug, PartialEq, Eq, Structural)]
pub struct SpiRegs {
    /// Main control register.
    pub cr1: SpiCr1,
    /// Slave-select output enable.
    pub cr2_ssoe: bool,
    /// Status snapshot.
    pub sr: SpiStatus,
    /// Data register (reads use the low 8 bits).
    pub dr: u16,
}

impl SpiRegs {
    /// An image with every register in its reset state.
    pub fn new() -> (r: SpiRegs)
        ensures
            r == (SpiRegs {
                cr1: SpiCr1 {
                    cpha: false,
                    cpol: false,
                    mstr: false,
                    br: 0u8,
                    lsbfirst: false,
                    ssm: false,
                    rxonly: false,
                    dff: false,
                    bidimode: false,
                    spe: false,
                },
                cr2_ssoe: false,
                sr: SpiStatus { ovr: false, modf: false, crcerr: false, rxne: false, txe: false },
                dr: 0u16,
            }),
    {
        SpiRegs {
            cr1: SpiCr1 {
                cpha: false,
                cpol: false,
                mstr: false,
                br: 0,
                lsbfirst: false,
                ssm: false,
                rxonly: false,
                dff: false,
                bidimode: false,
                spe: false,
            },
            cr2_ssoe: false,
            sr: SpiStatus { ovr: false, modf: false, crcerr: false, rxne: false, txe: false },
            dr: 0,
        }
    }
}

/// The control-register state `init` programs: master mode, clock idling
/// high with capture on the second transition, a fixed medium baud
/// divider, MSB first, hardware slave management, 8-bit frames, 2-line
/// unidirectional — and the peripheral itself still disabled.
pub open spec fn cr1_after_init() -> SpiCr1 {
    SpiCr1 {
        cpha: true,
        cpol: true,
        mstr: true,
        br: 2u8,
        lsbfirst: false,
        ssm: false,
        rxonly: false,
        dff: false,
        bidimode: false,
        spe: false,
    }
}

/// What one `read` poll reports for a status snapshot, in the fixed
/// priority order: overrun, then CRC error, then mode fault, then data
/// ready, else would-block.
pub open spec fn read_outcome(s: SpiStatus, dr: u16) -> NbResult<u8, Error> {
    if s.ovr {
        Err(NbError::Other(Error::Overrun))
    } else if s.crcerr {
        Err(NbError::Other(Error::Crc))
    } else if s.modf {
        Err(NbError::Other(Error::ModeFault))
    } else if s.rxne {
        Ok((dr % 256) as u8)
    } else {
        Err(NbError::WouldBlock)
    }
}

/// What one `send` poll reports for a status snapshot, in the same
/// priority order, with TX-empty as the readiness flag.
pub open spec fn send_outcome(s: SpiStatus) -> NbResult<(), Error> {
    if s.ovr {
        Err(NbError::Other(Error::Overrun))
    } else if s.crcerr {
        Err(NbError::Other(Error::Crc))
    } else if s.modf {
        Err(NbError::Other(Error::ModeFault))
    } else if s.txe {
        Ok(())
    } else {
        Err(NbError::WouldBlock)
    }
}

/// SPI handle: the instance tag plus nothing else, freely copyable.
#[derive(Clone, Copy, Debug, PartialEq, Eq, Structural)]
pub struct Spi(pub SpiInstance);

impl Spi {
    /// Initializes the SPI instance as a master with 8-bit frames.
    ///
    /// Enables the instance's clock gate and the GPIO port gate, routes
    /// the instance's four bus pins — and no others — to the SPI
    /// alternate function, enables the slave-select output and programs
    /// the master configuration, leaving the peripheral itself disabled
    /// until [`Spi::enable`] is called.
    pub fn init(&self, gpio: &mut Gpio, rcc: &mut Rcc, spi: &mut SpiRegs)
        requires
            old(gpio).wf(),
        ensures
            *final(rcc) == (Rcc { apb2enr_spi1en: true, ahbenr_iopaen: true, ..*old(rcc) }),
            final(gpio).wf(),
            final(gpio).moder@ == old(gpio).moder@.update(spec_first_pin(self.0), PinMode::Alternate)
                .update(spec_first_pin(self.0) + 1, PinMode::Alternate).update(
                spec_first_pin(self.0) + 2,
                PinMode::Alternate,
            ).update(spec_first_pin(self.0) + 3, PinMode::Alternate),
            final(gpio).afr@ == old(gpio).afr@.update(spec_first_pin(self.0), SPI_AF).update(
                spec_first_pin(self.0) + 1,
                SPI_AF,
            ).update(spec_first_pin(self.0) + 2, SPI_AF).update(spec_first_pin(self.0) + 3, SPI_AF),
            *final(spi) == (SpiRegs { cr1: cr1_after_init(), cr2_ssoe: true, ..*old(spi) }),
    {
        rcc.apb2enr_spi1en = true;
        rcc.ahbenr_iopaen = true;

        let first: usize = match self.0 {
            SpiInstance::Spi1 => 4,
        };
        gpio.set_alternate(first, SPI_AF);
        gpio.set_alternate(first + 1, SPI_AF);
        gpio.set_alternate(first + 2, SPI_AF);
        gpio.set_alternate(first + 3, SPI_AF);

        spi.cr2_ssoe = true;
        spi.cr1 = SpiCr1 {
            cpha: true,
            cpol: true,
            mstr: true,
            br: 2,
            lsbfirst: false,
            ssm: false,
            rxonly: false,
            dff: false,
            bidimode: false,
            spe: false,
        };
    }

    /// Disables the SPI bus; this drives the NSS pin high.
    pub fn disable(&self, spi: &mut SpiRegs)
        ensures
            *final(spi) == (SpiRegs { cr1: SpiCr1 { spe: false, ..old(spi).cr1 }, ..*old(spi) }),
    {
        spi.cr1.spe = false;
    }

    /// Enables the SPI bus; this drives the NSS pin low.
    pub fn enable(&self, spi: &mut SpiRegs)
        ensures
            *final(spi) == (SpiRegs { cr1: SpiCr1 { spe: true, ..old(spi).cr1 }, ..*old(spi) }),
    {
        spi.cr1.spe = true;
    }

    /// Polls for one received byte: classifies the status snapshot in the
    /// fixed priority order and, when data is ready and error-free,
    /// returns the low 8 bits of the data register.
    pub fn read(&self, spi: &SpiRegs) -> (r: NbResult<u8, Error>)
        ensures
            r == read_outcome(spi.sr, spi.dr),
    {
        let sr = spi.sr;
        if sr.ovr {
            Err(NbError::Other(Error::Overrun))
        } else if sr.crcerr {
            Err(NbError::Other(Error::Crc))
        } else if sr.modf {
            Err(NbError::Other(Error::ModeFault))
        } else if sr.rxne {
            Ok((spi.dr % 256) as u8)
        } else {
            Err(NbError::WouldBlock)
        }
    }

    /// Polls to send one byte: classifies the status snapshot in the
    /// fixed priority order and, when the transmit buffer is empty and
    /// error-free, stores the byte in the data register.
    pub fn send(&self, spi: &mut SpiRegs, byte: u8) -> (r: NbResult<(), Error>)
        ensures
            r == send_outcome(old(spi).sr),
            send_outcome(old(spi).sr) is Ok ==> *final(spi) == (SpiRegs {
                dr: byte as u16,
                ..*old(spi)
            }),
            !(send_outcome(old(spi).sr) is Ok) ==> *final(spi) == *old(spi),
    {
        let sr = spi.sr;
        if sr.ovr {
            Err(NbError::Other(Error::Overrun))
        } else if sr.crcerr {
            Err(NbError::Other(Error::Crc))
        } else if sr.modf {
            Err(NbError::Other(Error::ModeFault))
        } else if sr.txe {
            spi.dr = byte as u16;
            Ok(())
        } else {
            Err(NbError::WouldBlock)
        }
    }
}

/// The SPI `read` classification is total and deterministic, and follows
/// the fixed priority order: overrun dominates CRC error, which
/// dominates mode fault, which dominates readiness; with no flag set the
/// poll would block. The five cases are mutually exclusive and cover
/// every flag combination, so exactly one outcome is reported per poll.
pub proof fn lemma_read_priority(s: SpiStatus, dr: u16)
    ensures
        s.ovr ==> read_outcome(s, dr) == Err::<u8, NbError<Error>>(NbError::Other(Error::Overrun)),
        (!s.ovr && s.crcerr) ==> read_outcome(s, dr) == Err::<u8, NbError<Error>>(
            NbError::Other(Error::Crc),
        ),
        (!s.ovr && !s.crcerr && s.modf) ==> read_outcome(s, dr) == Err::<u8, NbError<Error>>(
            NbError::Other(Error::ModeFault),
        ),
        (!s.ovr && !s.crcerr && !s.modf && s.rxne) ==> read_outcome(s, dr) == Ok::<
            u8,
            NbError<Error>,
        >((dr % 256) as u8),
        (!s.ovr && !s.crcerr && !s.modf && !s.rxne) ==> read_outcome(s, dr) == Err::<
            u8,
            NbError<Error>,
        >(NbError::WouldBlock),
{
}

/// The SPI `send` classification follows the same fixed priority order,
/// with TX-empty as the readiness flag.
pub proof fn lemma_send_priority(s: SpiStatus)
    ensures
        s.ovr ==> send_outcome(s) == Err::<(), NbError<Error>>(NbError::Other(Error::Overrun)),
        (!s.ovr && s.crcerr) ==> send_outcome(s) == Err::<(), NbError<Error>>(
            NbError::Other(Error::Crc),
        ),
        (!s.ovr && !s.crcerr && s.modf) ==> send_outcome(s) == Err::<(), NbError<Error>>(
            NbError::Other(Error::ModeFault),
        ),
        (!s.ovr && !s.crcerr && !s.modf && s.txe) ==> send_outcome(s) == Ok::<(), NbError<Error>>(
            (),
        ),
        (!s.ovr && !s.crcerr && !s.modf && !s.txe) ==> send_outcome(s) == Err::<
            (),
            NbError<Error>,
        >(NbError::WouldBlock),
{
}

} // verus!
