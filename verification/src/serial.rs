//! Serial (USART) driver.
//!
//! Two serial instances share this code path; a [`Serial`] handle carries
//! only the instance tag, and every operation takes the register images it
//! acts on. `init` states exactly which clock gates, pins and control
//! registers it programs; `read` and `write` classify one status snapshot
//! in fixed priority order (overrun before noise before framing before
//! readiness); `read_exact` and `write_all` start single-shot DMA bulk
//! transfers on the fixed channel assignment (transmit on channel 4,
//! receive on channel 5), locking the caller's buffer for the duration of
//! the transfer.

use vstd::prelude::*;
use crate::dma;
use crate::dma::{Buffer, BufferState, ChannelConfig, Dma1, DmaChannel};
use crate::gpio::{Gpio, PinMode, PIN_COUNT};
use crate::nonblock::{NbError, NbResult};
use crate::rcc::Rcc;
use crate::time::{ClockDomain, Ticks};

verus! {

/// The serial instances this driver supports.
#[derive(Clone, Copy, Debug, PartialEq, Eq, Structural)]
pub enum SerialInstance {
    /// First serial controller: pins 9 (TX) and 10 (RX), high-speed bus.
    Usart1,
    /// Second serial controller: pins 14 (TX) and 15 (RX), low-speed bus.
    Usart2,
}

/// The bus clock domain an instance's timing is expressed in.
pub open spec fn spec_clock_domain(i: SerialInstance) -> ClockDomain {
    match i {
        SerialInstance::Usart1 => ClockDomain::Apb2,
        SerialInstance::Usart2 => ClockDomain::Apb1,
    }
}

/// Transmit pin of an instance.
pub open spec fn spec_tx_pin(i: SerialInstance) -> int {
    match i {
        SerialInstance::Usart1 => 9,
        SerialInstance::Usart2 => 14,
    }
}

/// Receive pin of an instance.
pub open spec fn spec_rx_pin(i: SerialInstance) -> int {
    match i {
        SerialInstance::Usart1 => 10,
        SerialInstance::Usart2 => 15,
    }
}

/// Whether an instance has DMA channels wired to its data register.
pub open spec fn spec_supports_dma(i: SerialInstance) -> bool {
    i == SerialInstance::Usart1
}

/// The instance's clock gate in a clock-control image.
pub open spec fn spec_clock_gate(r: Rcc, i: SerialInstance) -> bool {
    match i {
        SerialInstance::Usart1 => r.apb2enr_usart1en,
        SerialInstance::Usart2 => r.apb1enr_usart2en,
    }
}

/// Alternate function that routes a pin to a serial controller.
pub const SERIAL_AF: u8 = 7;

/// Hardware-mandated minimum for the serial baud divider.
pub const MIN_SERIAL_DIVIDER: u32 = 16;

/// Hardware error reported by a serial poll.
#[derive(Clone, Copy, Debug, PartialEq, Eq, Structural)]
pub enum Error {
    /// De-synchronization, excessive noise or a break character detected.
    Framing,
    /// Noise detected in the received frame.
    Noise,
    /// RX buffer overrun.
    Overrun,
}

/// Interrupt event selector.
#[derive(Clone, Copy, Debug, PartialEq, Eq, Structural)]
pub enum Event {
    /// RX buffer not empty (new data available).
    Rxne,
    /// Transmission complete.
    Tc,
    /// TX buffer empty (more data can be sent).
    Txe,
}

/// Status-register snapshot of a serial instance.
#[derive(Clone, Copy, Debug, PartialEq, Eq, Structural)]
pub struct SerialStatus {
    /// Overrun flag.
    pub ore: bool,
    /// Noise flag.
    pub nf: bool,
    /// Framing-error flag.
    pub fe: bool,
    /// RX buffer not empty.
    pub rxne: bool,
    /// TX buffer empty.
    pub txe: bool,
}

/// Main control register of a serial instance.
#[derive(Clone, Copy, Debug, PartialEq, Eq, Structural)]
pub struct UsartCr1 {
    /// Peripheral enable.
    pub ue: bool,
    /// Receiver enable.
    pub re: bool,
    /// Transmitter enable.
    pub te: bool,
    /// Word length (`false` = 8 data bits).
    pub m: bool,
    /// Parity control enable.
    pub pce: bool,
    /// Interrupt enable for RX-not-empty.
    pub rxneie: bool,
    /// Interrupt enable for transmission complete.
    pub tcie: bool,
    /// Interrupt enable for TX-empty.
    pub txeie: bool,
}

/// Flow-control and DMA-request register of a serial instance.
#[derive(Clone, Copy, Debug, PartialEq, Eq, Structural)]
pub struct UsartCr3 {
    /// Request-to-send hardware flow control.
    pub rtse: bool,
    /// Clear-to-send hardware flow control.
    pub ctse: bool,
    /// DMA request line for transmission.
    pub dmat: bool,
    /// DMA request line for reception.
    pub dmar: bool,
}

/// Register image of one serial instance.
#[derive(Clone, Copy, Debug, PartialEq, Eq, Structural)]
pub struct UsartRegs {
    /// Main control register.
    pub cr1: UsartCr1,
    /// Stop-bit selector (`0` = 1 stop bit).
    pub cr2_stop: u8,
    /// Flow-control and DMA-request register.
    pub cr3: UsartCr3,
    /// Baud-rate divider.
    pub brr: u32,
    /// Status snapshot.
    pub isr: SerialStatus,
    /// Receive data register (9 bits wide; reads use the low 8).
    pub rdr: u16,
    /// Transmit data register.
    pub tdr: u8,
}

impl UsartRegs {
    /// An image with every register in its reset state.
    pub fn new() -> (r: UsartRegs)
        ensures
            r == (UsartRegs {
                cr1: UsartCr1 {
                    ue: false,
                    re: false,
                    te: false,
                    m: false,
                    pce: false,
                    rxneie: false,
                    tcie: false,
                    txeie: false,
                },
                cr2_stop: 0u8,
                cr3: UsartCr3 { rtse: false, ctse: false, dmat: false, dmar: false },
                brr: 0u32,
                isr: SerialStatus { ore: false, nf: false, fe: false, rxne: false, txe: false },
                rdr: 0u16,
                tdr: 0u8,
            }),
    {
        UsartRegs {
            cr1: UsartCr1 {
                ue: false,
                re: false,
                te: false,
                m: false,
                pce: false,
                rxneie: false,
                tcie: false,
                txeie: false,
            },
            cr2_stop: 0,
            cr3: UsartCr3 { rtse: false, ctse: false, dmat: false, dmar: false },
            brr: 0,
            isr: SerialStatus { ore: false, nf: false, fe: false, rxne: false, txe: false },
            rdr: 0,
            tdr: 0,
        }
    }
}

/// What one `read` poll reports for a status snapshot, in the fixed
/// priority order: overrun, then noise, then framing, then data ready,
/// else would-block. A ready byte that carries an error flag is reported
/// as the error, never delivered.
pub open spec fn read_outcome(s: SerialStatus, rdr: u16) -> NbResult<u8, Error> {
    if s.ore {
        Err(NbError::Other(Error::Overrun))
    } else if s.nf {
        Err(NbError::Other(Error::Noise))
    } else if s.fe {
        Err(NbError::Other(Error::Framing))
    } else if s.rxne {
        Ok((rdr % 256) as u8)
    } else {
        Err(NbError::WouldBlock)
    }
}

/// What one `write` poll reports for a status snapshot, in the same
/// priority order, with TX-empty as the readiness flag.
pub open spec fn write_outcome(s: SerialStatus) -> NbResult<(), Error> {
    if s.ore {
        Err(NbError::Other(Error::Overrun))
    } else if s.nf {
        Err(NbError::Other(Error::Noise))
    } else if s.fe {
        Err(NbError::Other(Error::Framing))
    } else if s.txe {
        Ok(())
    } else {
        Err(NbError::WouldBlock)
    }
}

/// The clock-control image after initializing instance `i`: the
/// instance's own clock gate and the GPIO port gate are enabled (and the
/// DMA gate, when DMA was requested); every other gate keeps its value.
pub open spec fn rcc_after_init(r: Rcc, i: SerialInstance, with_dma: bool) -> Rcc {
    Rcc {
        ahbenr_dmaen: if with_dma {
            true
        } else {
            r.ahbenr_dmaen
        },
        ahbenr_iopaen: true,
        apb2enr_usart1en: if i == SerialInstance::Usart1 {
            true
        } else {
            r.apb2enr_usart1en
        },
        apb1enr_usart2en: if i == SerialInstance::Usart2 {
            true
        } else {
            r.apb1enr_usart2en
        },
        ..r
    }
}

/// The register image after initialization: one stop bit, 8 data bits,
/// parity disabled, hardware flow control off, receiver and transmitter
/// enabled, all interrupts masked, and the baud divider programmed; the
/// DMA request lines are enabled exactly when DMA was requested; status
/// and data registers are untouched.
pub open spec fn regs_after_init(u: UsartRegs, brr: u32, with_dma: bool) -> UsartRegs {
    UsartRegs {
        cr1: UsartCr1 {
            ue: true,
            re: true,
            te: true,
            m: false,
            pce: false,
            rxneie: false,
            tcie: false,
            txeie: false,
        },
        cr2_stop: 0u8,
        cr3: UsartCr3 { rtse: false, ctse: false, dmat: with_dma, dmar: with_dma },
        brr: brr,
        ..u
    }
}

/// The interrupt-enable bit selected by `e`, set to `on`, in control
/// register `c`.
pub open spec fn cr1_with_event(c: UsartCr1, e: Event, on: bool) -> UsartCr1 {
    match e {
        Event::Rxne => UsartCr1 { rxneie: on, ..c },
        Event::Tc => UsartCr1 { tcie: on, ..c },
        Event::Txe => UsartCr1 { txeie: on, ..c },
    }
}

/// Fixed configuration of the transmit DMA channel: 8-bit words on both
/// sides, memory auto-increment, fixed peripheral address, non-circular,
/// memory-to-peripheral, completion interrupt on, medium priority.
pub open spec fn tx_dma_config() -> ChannelConfig {
    ChannelConfig {
        mem2mem: false,
        pl: 1u8,
        msize: 0u8,
        psize: 0u8,
        minc: true,
        circ: false,
        pinc: false,
        from_memory: true,
        tcie: true,
    }
}

/// Fixed configuration of the receive DMA channel: as the transmit
/// channel, but peripheral-to-memory.
pub open spec fn rx_dma_config() -> ChannelConfig {
    ChannelConfig {
        mem2mem: false,
        pl: 1u8,
        msize: 0u8,
        psize: 0u8,
        minc: true,
        circ: false,
        pinc: false,
        from_memory: false,
        tcie: true,
    }
}

/// Serial interface handle: the instance tag plus nothing else, freely
/// copyable. All state lives in the register images the operations take.
#[derive(Clone, Copy, Debug, PartialEq, Eq, Structural)]
pub struct Serial(pub SerialInstance);

impl Serial {
    /// The bus clock domain baud-rate ticks for this instance must be
    /// measured in.
    pub fn clock_domain(&self) -> (d: ClockDomain)
        ensures
            d == spec_clock_domain(self.0),
    {
        match self.0 {
            SerialInstance::Usart1 => ClockDomain::Apb2,
            SerialInstance::Usart2 => ClockDomain::Apb1,
        }
    }

    /// Whether this instance has DMA channels wired to its data register.
    pub fn supports_dma(&self) -> (b: bool)
        ensures
            b == spec_supports_dma(self.0),
    {
        matches!(self.0, SerialInstance::Usart1)
    }

    /// Initializes the serial interface with a baud divider of
    /// `baud_rate` bus ticks per bit: 8 data bits, 1 stop bit, no
    /// hardware flow control, parity checking omitted.
    ///
    /// Enables this instance's clock gate and the GPIO port gate, routes
    /// this instance's two pins — and no others — to the serial alternate
    /// function, and programs the frame format and divider; the DMA
    /// request lines stay off. A divider below the hardware minimum of 16
    /// would be an impossible baud rate and is excluded up front.
    pub fn init(&self, baud_rate: Ticks, gpio: &mut Gpio, rcc: &mut Rcc, usart: &mut UsartRegs)
        requires
            baud_rate.count >= MIN_SERIAL_DIVIDER,
            baud_rate.domain == spec_clock_domain(self.0),
            old(gpio).wf(),
        ensures
            *final(rcc) == rcc_after_init(*old(rcc), self.0, false),
            final(gpio).wf(),
            final(gpio).moder@ == old(gpio).moder@.update(spec_tx_pin(self.0), PinMode::Alternate)
                .update(spec_rx_pin(self.0), PinMode::Alternate),
            final(gpio).afr@ == old(gpio).afr@.update(spec_tx_pin(self.0), SERIAL_AF).update(
                spec_rx_pin(self.0),
                SERIAL_AF,
            ),
            *final(usart) == regs_after_init(*old(usart), baud_rate.count, false),
    {
        match self.0 {
            SerialInstance::Usart1 => {
                rcc.apb2enr_usart1en = true;
                rcc.ahbenr_iopaen = true;
            },
            SerialInstance::Usart2 => {
                rcc.apb1enr_usart2en = true;
                rcc.ahbenr_iopaen = true;
            },
        }

        let (tx, rx): (usize, usize) = match self.0 {
            SerialInstance::Usart1 => (9, 10),
            SerialInstance::Usart2 => (14, 15),
        };
        gpio.set_alternate(tx, SERIAL_AF);
        gpio.set_alternate(rx, SERIAL_AF);

        // 8N1 frame, divider, flow control and DMA request lines off.
        usart.cr2_stop = 0;
        usart.brr = baud_rate.count;
        usart.cr3 = UsartCr3 { rtse: false, ctse: false, dmat: false, dmar: false };
        // Enable the peripheral, receiver and transmitter; parity and
        // every interrupt stay off.
        usart.cr1 = UsartCr1 {
            ue: true,
            re: true,
            te: true,
            m: false,
            pce: false,
            rxneie: false,
            tcie: false,
            txeie: false,
        };
    }

    /// As [`Serial::init`], and additionally powers the DMA engine,
    /// programs both serial DMA channels with their fixed configuration —
    /// leaving them disabled until a transfer is requested — and enables
    /// the instance's DMA request lines.
    ///
    /// Only the first serial instance has DMA channels; requesting DMA on
    /// any other instance is a programming error and is excluded up
    /// front.
    pub fn init_with_dma(
        &self,
        baud_rate: Ticks,
        dma1: &mut Dma1,
        gpio: &mut Gpio,
        rcc: &mut Rcc,
        usart: &mut UsartRegs,
    )
        requires
            spec_supports_dma(self.0),
            baud_rate.count >= MIN_SERIAL_DIVIDER,
            baud_rate.domain == spec_clock_domain(self.0),
            old(gpio).wf(),
        ensures
            *final(rcc) == rcc_after_init(*old(rcc), self.0, true),
            final(gpio).wf(),
            final(gpio).moder@ == old(gpio).moder@.update(spec_tx_pin(self.0), PinMode::Alternate)
                .update(spec_rx_pin(self.0), PinMode::Alternate),
            final(gpio).afr@ == old(gpio).afr@.update(spec_tx_pin(self.0), SERIAL_AF).update(
                spec_rx_pin(self.0),
                SERIAL_AF,
            ),
            *final(usart) == regs_after_init(*old(usart), baud_rate.count, true),
            *final(dma1) == (Dma1 {
                ch4: DmaChannel { cfg: tx_dma_config(), en: false, ..old(dma1).ch4 },
                ch5: DmaChannel { cfg: rx_dma_config(), en: false, ..old(dma1).ch5 },
            }),
    {
        // Power the DMA engine.
        rcc.ahbenr_dmaen = true;

        // Program the transmit and receive channels; both stay disabled
        // until a transfer is requested.
        dma1.ch4.cfg = ChannelConfig {
            mem2mem: false,
            pl: 1,
            msize: 0,
            psize: 0,
            minc: true,
            circ: false,
            pinc: false,
            from_memory: true,
            tcie: true,
        };
        dma1.ch4.en = false;
        dma1.ch5.cfg = ChannelConfig {
            mem2mem: false,
            pl: 1,
            msize: 0,
            psize: 0,
            minc: true,
            circ: false,
            pinc: false,
            from_memory: false,
            tcie: true,
        };
        dma1.ch5.en = false;

        self.init(baud_rate, gpio, rcc, usart);

        // Let the peripheral raise DMA requests on both directions.
        usart.cr3.dmat = true;
        usart.cr3.dmar = true;
    }

    /// Starts listening for interrupt `event`: sets its interrupt-enable
    /// bit and changes nothing else. Polling keeps working regardless.
    pub fn listen(&self, usart: &mut UsartRegs, event: Event)
        ensures
            *final(usart) == (UsartRegs {
                cr1: cr1_with_event(old(usart).cr1, event, true),
                ..*old(usart)
            }),
    {
        match event {
            Event::Rxne => usart.cr1.rxneie = true,
            Event::Tc => usart.cr1.tcie = true,
            Event::Txe => usart.cr1.txeie = true,
        }
    }

    /// Stops listening for interrupt `event`: clears its
    /// interrupt-enable bit and changes nothing else.
    pub fn unlisten(&self, usart: &mut UsartRegs, event: Event)
        ensures
            *final(usart) == (UsartRegs {
                cr1: cr1_with_event(old(usart).cr1, event, false),
                ..*old(usart)
            }),
    {
        match event {
            Event::Rxne => usart.cr1.rxneie = false,
            Event::Tc => usart.cr1.tcie = false,
            Event::Txe => usart.cr1.txeie = false,
        }
    }

    /// Polls for one received byte: classifies the status snapshot in the
    /// fixed priority order and, when data is ready and error-free,
    /// returns the low 8 bits of the receive data register.
    pub fn read(&self, usart: &UsartRegs) -> (r: NbResult<u8, Error>)
        ensures
            r == read_outcome(usart.isr, usart.rdr),
    {
        let sr = usart.isr;
        if sr.ore {
            Err(NbError::Other(Error::Overrun))
        } else if sr.nf {
            Err(NbError::Other(Error::Noise))
        } else if sr.fe {
            Err(NbError::Other(Error::Framing))
        } else if sr.rxne {
            Ok((usart.rdr % 256) as u8)
        } else {
            Err(NbError::WouldBlock)
        }
    }

    /// Polls to send one byte: classifies the status snapshot in the
    /// fixed priority order and, when the transmit buffer is empty and
    /// error-free, stores the byte in the transmit data register.
    pub fn write(&self, usart: &mut UsartRegs, byte: u8) -> (r: NbResult<(), Error>)
        ensures
            r == write_outcome(old(usart).isr),
            write_outcome(old(usart).isr) is Ok ==> *final(usart) == (UsartRegs {
                tdr: byte,
                ..*old(usart)
            }),
            !(write_outcome(old(usart).isr) is Ok) ==> *final(usart) == *old(usart),
    {
        let sr = usart.isr;
        if sr.ore {
            Err(NbError::Other(Error::Overrun))
        } else if sr.nf {
            Err(NbError::Other(Error::Noise))
        } else if sr.fe {
            Err(NbError::Other(Error::Framing))
        } else if sr.txe {
            usart.tdr = byte;
            Ok(())
        } else {
            Err(NbError::WouldBlock)
        }
    }

    /// Starts a DMA transfer that receives `buffer.len()` bytes from this
    /// instance's data register into `buffer`, write-locking the buffer
    /// for the duration of the transfer.
    ///
    /// The arbiter never queues: if the receive channel already has a
    /// transfer in flight it fails with `InUse` and touches nothing. A
    /// length that does not fit the 16-bit transfer counter fails with
    /// `Overflow` rather than being truncated. On success the call
    /// returns as soon as the transfer is started; completion is observed
    /// by the caller, and the buffer is reclaimed by handing the same
    /// channel back to [`Buffer::release`].
    pub fn read_exact(&self, dma1: &mut Dma1, buffer: &mut Buffer) -> (r: Result<(), dma::Error>)
        requires
            spec_supports_dma(self.0),
            old(buffer).lock_state() == BufferState::Free,
        ensures
            old(dma1).ch5.en ==> (r == Err::<(), dma::Error>(dma::Error::InUse) && *final(dma1)
                == *old(dma1) && *final(buffer) == *old(buffer)),
            (!old(dma1).ch5.en && old(buffer).contents().len() > 0xFFFF) ==> (r == Err::<
                (),
                dma::Error,
            >(dma::Error::Overflow) && *final(dma1) == *old(dma1) && *final(buffer) == *old(
                buffer,
            )),
            (!old(dma1).ch5.en && old(buffer).contents().len() <= 0xFFFF) ==> (r == Ok::<
                (),
                dma::Error,
            >(()) && *final(dma1) == (Dma1 {
                ch5: DmaChannel {
                    en: true,
                    ndt: old(buffer).contents().len() as u16,
                    ..old(dma1).ch5
                },
                ..*old(dma1)
            }) && final(buffer).lock_state() == BufferState::MutLocked
                && final(buffer).lock_owner() == old(dma1).ch5.num
                && final(buffer).contents() == old(buffer).contents()),
    {
        if dma1.ch5.en {
            return Err(dma::Error::InUse);
        }
        let n: usize = buffer.len();
        if n > 0xFFFF {
            return Err(dma::Error::Overflow);
        }
        let num: u8 = dma1.ch5.num;
        buffer.lock_mut(num);
        dma1.ch5.ndt = n as u16;
        dma1.ch5.en = true;
        Ok(())
    }

    /// Starts a DMA transfer that sends `buffer` through this instance's
    /// data register, read-locking the buffer for the duration of the
    /// transfer.
    ///
    /// Fails exactly as [`Serial::read_exact`] does: `InUse` while the
    /// transmit channel is busy, `Overflow` for lengths beyond the 16-bit
    /// transfer counter; in both cases nothing is modified.
    pub fn write_all(&self, dma1: &mut Dma1, buffer: &mut Buffer) -> (r: Result<(), dma::Error>)
        requires
            spec_supports_dma(self.0),
            old(buffer).lock_state() == BufferState::Free,
        ensures
            old(dma1).ch4.en ==> (r == Err::<(), dma::Error>(dma::Error::InUse) && *final(dma1)
                == *old(dma1) && *final(buffer) == *old(buffer)),
            (!old(dma1).ch4.en && old(buffer).contents().len() > 0xFFFF) ==> (r == Err::<
                (),
                dma::Error,
            >(dma::Error::Overflow) && *final(dma1) == *old(dma1) && *final(buffer) == *old(
                buffer,
            )),
            (!old(dma1).ch4.en && old(buffer).contents().len() <= 0xFFFF) ==> (r == Ok::<
                (),
                dma::Error,
            >(()) && *final(dma1) == (Dma1 {
                ch4: DmaChannel {
                    en: true,
                    ndt: old(buffer).contents().len() as u16,
                    ..old(dma1).ch4
                },
                ..*old(dma1)
            }) && final(buffer).lock_state() == BufferState::Locked
                && final(buffer).lock_owner() == old(dma1).ch4.num
                && final(buffer).contents() == old(buffer).contents()),
    {
        if dma1.ch4.en {
            return Err(dma::Error::InUse);
        }
        let n: usize = buffer.len();
        if n > 0xFFFF {
            return Err(dma::Error::Overflow);
        }
        let num: u8 = dma1.ch4.num;
        buffer.lock(num);
        dma1.ch4.ndt = n as u16;
        dma1.ch4.en = true;
        Ok(())
    }
}

/// The `read` classification is total and deterministic, and follows the
/// fixed priority order: overrun dominates noise, which dominates
/// framing, which dominates readiness; with no flag set the poll would
/// block. The five cases are mutually exclusive and cover every flag
/// combination, so exactly one outcome is reported per poll.
pub proof fn lemma_read_priority(s: SerialStatus, rdr: u16)
    ensures
        s.ore ==> read_outcome(s, rdr) == Err::<u8, NbError<Error>>(NbError::Other(Error::Overrun)),
        (!s.ore && s.nf) ==> read_outcome(s, rdr) == Err::<u8, NbError<Error>>(
            NbError::Other(Error::Noise),
        ),
        (!s.ore && !s.nf && s.fe) ==> read_outcome(s, rdr) == Err::<u8, NbError<Error>>(
            NbError::Other(Error::Framing),
        ),
        (!s.ore && !s.nf && !s.fe && s.rxne) ==> read_outcome(s, rdr) == Ok::<u8, NbError<Error>>(
            (rdr % 256) as u8,
        ),
        (!s.ore && !s.nf && !s.fe && !s.rxne) ==> read_outcome(s, rdr) == Err::<
            u8,
            NbError<Error>,
        >(NbError::WouldBlock),
{
}

/// The `write` classification follows the same fixed priority order,
/// with TX-empty as the readiness flag.
pub proof fn lemma_write_priority(s: SerialStatus)
    ensures
        s.ore ==> write_outcome(s) == Err::<(), NbError<Error>>(NbError::Other(Error::Overrun)),
        (!s.ore && s.nf) ==> write_outcome(s) == Err::<(), NbError<Error>>(
            NbError::Other(Error::Noise),
        ),
        (!s.ore && !s.nf && s.fe) ==> write_outcome(s) == Err::<(), NbError<Error>>(
            NbError::Other(Error::Framing),
        ),
        (!s.ore && !s.nf && !s.fe && s.txe) ==> write_outcome(s) == Ok::<(), NbError<Error>>(()),
        (!s.ore && !s.nf && !s.fe && !s.txe) ==> write_outcome(s) == Err::<(), NbError<Error>>(
            NbError::WouldBlock,
        ),
{
}

/// Two different serial instances configured through the same code path
/// stay isolated: initializing one leaves the other's clock gate exactly
/// as it was, and the two instances' pin sets are disjoint, so the other
/// instance's pins keep their mode and alternate function.
pub proof fn lemma_init_instance_isolation(
    r: Rcc,
    moder: Seq<PinMode>,
    afr: Seq<u8>,
    a: SerialInstance,
    b: SerialInstance,
    with_dma: bool,
)
    requires
        a != b,
        moder.len() == PIN_COUNT,
        afr.len() == PIN_COUNT,
    ensures
        spec_clock_gate(rcc_after_init(r, a, with_dma), b) == spec_clock_gate(r, b),
        spec_tx_pin(a) != spec_tx_pin(b) && spec_tx_pin(a) != spec_rx_pin(b) && spec_rx_pin(a)
            != spec_tx_pin(b) && spec_rx_pin(a) != spec_rx_pin(b),
        moder.update(spec_tx_pin(a), PinMode::Alternate).update(spec_rx_pin(a), PinMode::Alternate)[
            spec_tx_pin(b)] == moder[spec_tx_pin(b)],
        moder.update(spec_tx_pin(a), PinMode::Alternate).update(spec_rx_pin(a), PinMode::Alternate)[
            spec_rx_pin(b)] == moder[spec_rx_pin(b)],
        afr.update(spec_tx_pin(a), SERIAL_AF).update(spec_rx_pin(a), SERIAL_AF)[spec_tx_pin(b)]
            == afr[spec_tx_pin(b)],
        afr.update(spec_tx_pin(a), SERIAL_AF).update(spec_rx_pin(a), SERIAL_AF)[spec_rx_pin(b)]
            == afr[spec_rx_pin(b)],
{
}

} // verus!
