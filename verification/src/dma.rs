//! DMA engine image and transfer-buffer ownership.
//!
//! Each DMA channel is a singleton resource: it is busy exactly while its
//! enable bit is set, and the serial driver refuses to start a second
//! transfer on a busy channel. A [`Buffer`] wraps caller-owned memory and
//! records who may touch it: the CPU (free), one in-flight transmit
//! transfer (read-locked) or one in-flight receive transfer
//! (write-locked). CPU access is only offered while the buffer is free,
//! and a locked buffer is reclaimed through [`Buffer::release`], which
//! checks both that the channel handed in is the one that took the lock
//! and that it has finished, before giving the memory back.

use vstd::prelude::*;

verus! {

/// Failure to start or finish a bulk transfer.
#[derive(Clone, Copy, Debug, PartialEq, Eq, Structural)]
pub enum Error {
    /// The channel already has a transfer in flight.
    InUse,
    /// The requested length does not fit the 16-bit transfer counter.
    Overflow,
    /// The channel handed in is not the one holding this buffer's lock.
    WrongChannel,
}

/// Static configuration of one channel, written once at initialization.
#[derive(Clone, Copy, Debug, PartialEq, Eq, Structural)]
pub struct ChannelConfig {
    /// Memory-to-memory mode.
    pub mem2mem: bool,
    /// Channel priority.
    pub pl: u8,
    /// Memory-side word size selector.
    pub msize: u8,
    /// Peripheral-side word size selector.
    pub psize: u8,
    /// Memory-address auto-increment.
    pub minc: bool,
    /// Circular mode.
    pub circ: bool,
    /// Peripheral-address auto-increment.
    pub pinc: bool,
    /// Direction: `true` reads from memory, `false` writes to memory.
    pub from_memory: bool,
    /// Interrupt on transfer completion.
    pub tcie: bool,
}

/// Image of one DMA channel.
#[derive(Clone, Copy, Debug, PartialEq, Eq, Structural)]
pub struct DmaChannel {
    /// Channel number within the engine; fixed by the hardware wiring.
    pub num: u8,
    /// Static configuration bits.
    pub cfg: ChannelConfig,
    /// Enable bit; the channel is busy exactly while it is set.
    pub en: bool,
    /// Transfer counter: number of items left to move.
    pub ndt: u16,
    /// Transfer-complete flag, set by hardware when the counter reaches zero.
    pub tcif: bool,
}

/// The reset state of DMA channel `num`: everything cleared.
pub open spec fn reset_channel(num: u8) -> DmaChannel {
    DmaChannel {
        num: num,
        cfg: ChannelConfig {
            mem2mem: false,
            pl: 0,
            msize: 0,
            psize: 0,
            minc: false,
            circ: false,
            pinc: false,
            from_memory: false,
            tcie: false,
        },
        en: false,
        ndt: 0,
        tcif: false,
    }
}

impl DmaChannel {
    /// An image of channel `num` in its reset state.
    pub fn new(num: u8) -> (r: DmaChannel)
        ensures
            r == reset_channel(num),
    {
        DmaChannel {
            num,
            cfg: ChannelConfig {
                mem2mem: false,
                pl: 0,
                msize: 0,
                psize: 0,
                minc: false,
                circ: false,
                pinc: false,
                from_memory: false,
                tcie: false,
            },
            en: false,
            ndt: 0,
            tcif: false,
        }
    }
}

/// Image of the DMA engine: the two channels wired to the serial
/// peripheral's data register, transmit on channel 4 and receive on
/// channel 5.
#[derive(Clone, Copy, Debug, PartialEq, Eq, Structural)]
pub struct Dma1 {
    /// Channel 4, the serial transmit channel.
    pub ch4: DmaChannel,
    /// Channel 5, the serial receive channel.
    pub ch5: DmaChannel,
}

impl Dma1 {
    /// An image of the engine in its reset state.
    pub fn new() -> (r: Dma1)
        ensures
            r.ch4 == reset_channel(4),
            r.ch5 == reset_channel(5),
    {
        Dma1 { ch4: DmaChannel::new(4), ch5: DmaChannel::new(5) }
    }
}

/// Who currently owns a transfer buffer's memory.
#[derive(Clone, Copy, Debug, PartialEq, Eq, Structural)]
pub enum BufferState {
    /// The CPU: it may be read and written through this wrapper.
    Free,
    /// An in-flight transmit transfer: hardware is reading the memory.
    Locked,
    /// An in-flight receive transfer: hardware is writing the memory.
    MutLocked,
}

/// Caller-owned memory that can be handed to the DMA engine for one
/// transfer at a time.
///
/// While a transfer holds the buffer, this wrapper offers no access to the
/// memory; [`Buffer::release`] gives it back once the channel is done.
#[derive(Debug)]
pub struct Buffer {
    data: Vec<u8>,
    lock: BufferState,
    owner: u8,
}

impl Buffer {
    /// Who owns the memory at the moment.
    pub closed spec fn lock_state(&self) -> BufferState {
        self.lock
    }

    /// The bytes the buffer holds.
    pub closed spec fn contents(&self) -> Seq<u8> {
        self.data@
    }

    /// The number of the channel holding the lock; meaningful only while
    /// the buffer is not free.
    pub closed spec fn lock_owner(&self) -> u8 {
        self.owner
    }

    /// Wraps `data` as a transfer buffer owned by the CPU.
    pub fn new(data: Vec<u8>) -> (r: Buffer)
        ensures
            r.lock_state() == BufferState::Free,
            r.contents() == data@,
    {
        Buffer { data, lock: BufferState::Free, owner: 0 }
    }

    /// Number of bytes the buffer holds.
    pub fn len(&self) -> (n: usize)
        ensures
            n == self.contents().len(),
    {
        self.data.len()
    }

    /// Whether the CPU owns the memory.
    pub fn is_free(&self) -> (b: bool)
        ensures
            b == (self.lock_state() == BufferState::Free),
    {
        matches!(self.lock, BufferState::Free)
    }

    /// Borrows the bytes; only offered while the CPU owns the memory.
    pub fn get(&self) -> (r: &Vec<u8>)
        requires
            self.lock_state() == BufferState::Free,
        ensures
            r@ == self.contents(),
    {
        &self.data
    }

    /// Writes one byte; only offered while the CPU owns the memory.
    pub fn update(&mut self, i: usize, byte: u8)
        requires
            old(self).lock_state() == BufferState::Free,
            i < old(self).contents().len(),
        ensures
            final(self).lock_state() == BufferState::Free,
            final(self).contents() == old(self).contents().update(i as int, byte),
    {
        self.data.set(i, byte);
    }

    /// Hands the memory to an in-flight transmit transfer on channel
    /// `num` for reading.
    pub(crate) fn lock(&mut self, num: u8)
        requires
            old(self).lock_state() == BufferState::Free,
        ensures
            final(self).lock_state() == BufferState::Locked,
            final(self).lock_owner() == num,
            final(self).contents() == old(self).contents(),
    {
        self.lock = BufferState::Locked;
        self.owner = num;
    }

    /// Hands the memory to an in-flight receive transfer on channel
    /// `num` for writing.
    pub(crate) fn lock_mut(&mut self, num: u8)
        requires
            old(self).lock_state() == BufferState::Free,
        ensures
            final(self).lock_state() == BufferState::MutLocked,
            final(self).lock_owner() == num,
            final(self).contents() == old(self).contents(),
    {
        self.lock = BufferState::MutLocked;
        self.owner = num;
    }

    /// Reclaims the memory for the CPU after a transfer.
    ///
    /// Fails with [`Error::WrongChannel`] when the buffer is locked and
    /// `chan` is not the channel that took the lock, and with
    /// [`Error::InUse`] while the locking channel still has the transfer
    /// in flight (enabled and not yet complete). On success the channel's
    /// enable bit and completion flag are cleared, leaving it ready for
    /// the next transfer.
    pub fn release(&mut self, chan: &mut DmaChannel) -> (r: Result<(), Error>)
        ensures
            (old(self).lock_state() != BufferState::Free && old(chan).num != old(self).lock_owner())
                ==> (r == Err::<(), Error>(Error::WrongChannel) && *final(self) == *old(self)
                && *final(chan) == *old(chan)),
            (!(old(self).lock_state() != BufferState::Free && old(chan).num != old(
                self,
            ).lock_owner()) && old(chan).en && !old(chan).tcif) ==> (r == Err::<(), Error>(
                Error::InUse,
            ) && *final(self) == *old(self) && *final(chan) == *old(chan)),
            (!(old(self).lock_state() != BufferState::Free && old(chan).num != old(
                self,
            ).lock_owner()) && !(old(chan).en && !old(chan).tcif)) ==> (r == Ok::<(), Error>(())
                && final(self).lock_state() == BufferState::Free && final(self).contents() == old(
                self,
            ).contents() && final(self).lock_owner() == old(self).lock_owner() && *final(chan) == (
            DmaChannel { en: false, tcif: false, ..*old(chan) })),
    {
        let locked = !matches!(self.lock, BufferState::Free);
        if locked && chan.num != self.owner {
            return Err(Error::WrongChannel);
        }
        if chan.en && !chan.tcif {
            return Err(Error::InUse);
        }
        chan.en = false;
        chan.tcif = false;
        self.lock = BufferState::Free;
        Ok(())
    }
}

} // verus!
