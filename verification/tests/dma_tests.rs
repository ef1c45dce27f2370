use f3::dma::{Buffer, Dma1, Error};
use f3::gpio::Gpio;
use f3::rcc::Rcc;
use f3::serial::{Serial, SerialInstance, UsartRegs};
use f3::time::{ClockDomain, Ticks};

fn dma_serial() -> Serial {
    Serial(SerialInstance::Usart1)
}

#[test]
fn init_with_dma_configures_both_channels() {
    let serial = dma_serial();
    let mut dma1 = Dma1::new();
    let mut gpio = Gpio::new();
    let mut rcc = Rcc::new();
    let mut usart = UsartRegs::new();
    serial.init_with_dma(
        Ticks { domain: ClockDomain::Apb2, count: 69 },
        &mut dma1,
        &mut gpio,
        &mut rcc,
        &mut usart,
    );

    assert!(rcc.ahbenr_dmaen);
    // With DMA requested the serial request lines are enabled.
    assert!(usart.cr3.dmat && usart.cr3.dmar);
    // Transmit channel: memory to peripheral.
    assert!(dma1.ch4.cfg.from_memory);
    // Receive channel: peripheral to memory.
    assert!(!dma1.ch5.cfg.from_memory);
    for ch in [&dma1.ch4, &dma1.ch5] {
        assert!(ch.cfg.minc && !ch.cfg.pinc);
        assert!(!ch.cfg.circ && !ch.cfg.mem2mem);
        assert_eq!(ch.cfg.msize, 0);
        assert_eq!(ch.cfg.psize, 0);
        assert_eq!(ch.cfg.pl, 1);
        assert!(ch.cfg.tcie);
        // Channels stay disabled until a transfer is requested.
        assert!(!ch.en);
    }
}

#[test]
fn write_all_starts_a_transmit_transfer() {
    let serial = dma_serial();
    let mut dma1 = Dma1::new();
    let mut buffer = Buffer::new(vec![1, 2, 3, 4, 5]);
    assert_eq!(serial.write_all(&mut dma1, &mut buffer), Ok(()));
    assert!(dma1.ch4.en);
    assert_eq!(dma1.ch4.ndt, 5);
    // The receive channel is untouched.
    assert!(!dma1.ch5.en);
    // The buffer is locked until released.
    assert!(!buffer.is_free());
}

#[test]
fn read_exact_starts_a_receive_transfer() {
    let serial = dma_serial();
    let mut dma1 = Dma1::new();
    let mut buffer = Buffer::new(vec![0; 16]);
    assert_eq!(serial.read_exact(&mut dma1, &mut buffer), Ok(()));
    assert!(dma1.ch5.en);
    assert_eq!(dma1.ch5.ndt, 16);
    assert!(!dma1.ch4.en);
    assert!(!buffer.is_free());
}

#[test]
fn busy_channel_is_refused_without_touching_registers() {
    let serial = dma_serial();
    let mut dma1 = Dma1::new();
    dma1.ch5.en = true;
    dma1.ch5.ndt = 77;
    let mut buffer = Buffer::new(vec![0; 8]);
    assert_eq!(serial.read_exact(&mut dma1, &mut buffer), Err(Error::InUse));
    // Channel registers keep their values; the buffer stays free.
    assert!(dma1.ch5.en);
    assert_eq!(dma1.ch5.ndt, 77);
    assert!(buffer.is_free());

    dma1.ch4.en = true;
    dma1.ch4.ndt = 33;
    assert_eq!(serial.write_all(&mut dma1, &mut buffer), Err(Error::InUse));
    assert_eq!(dma1.ch4.ndt, 33);
    assert!(buffer.is_free());
}

#[test]
fn oversized_buffer_is_refused_not_truncated() {
    let serial = dma_serial();
    let mut dma1 = Dma1::new();
    let mut buffer = Buffer::new(vec![0; 0x1_0000]);
    assert_eq!(serial.read_exact(&mut dma1, &mut buffer), Err(Error::Overflow));
    assert!(!dma1.ch5.en);
    assert_eq!(dma1.ch5.ndt, 0);
    assert!(buffer.is_free());
    assert_eq!(serial.write_all(&mut dma1, &mut buffer), Err(Error::Overflow));
    assert!(!dma1.ch4.en);
    assert!(buffer.is_free());
}

#[test]
fn largest_transfer_that_fits() {
    let serial = dma_serial();
    let mut dma1 = Dma1::new();
    let mut buffer = Buffer::new(vec![0; 0xFFFF]);
    assert_eq!(serial.write_all(&mut dma1, &mut buffer), Ok(()));
    assert_eq!(dma1.ch4.ndt, 0xFFFF);
}

#[test]
fn release_waits_for_completion() {
    let serial = dma_serial();
    let mut dma1 = Dma1::new();
    let mut buffer = Buffer::new(vec![9, 8, 7]);
    assert_eq!(serial.write_all(&mut dma1, &mut buffer), Ok(()));

    // Only the channel that took the lock can give the buffer back.
    assert_eq!(buffer.release(&mut dma1.ch5), Err(Error::WrongChannel));
    assert!(!buffer.is_free());

    // The transfer is still in flight: the buffer cannot be reclaimed.
    assert_eq!(buffer.release(&mut dma1.ch4), Err(Error::InUse));
    assert!(!buffer.is_free());
    assert!(dma1.ch4.en);

    // Hardware finishes and raises the completion flag.
    dma1.ch4.tcif = true;
    assert_eq!(buffer.release(&mut dma1.ch4), Ok(()));
    assert!(buffer.is_free());
    assert!(!dma1.ch4.en);
    assert!(!dma1.ch4.tcif);
    // The data is intact and accessible again.
    assert_eq!(buffer.get().as_slice(), &[9, 8, 7]);
}

#[test]
fn single_transfer_per_channel() {
    let serial = dma_serial();
    let mut dma1 = Dma1::new();
    let mut first = Buffer::new(vec![0; 4]);
    let mut second = Buffer::new(vec![0; 4]);
    assert_eq!(serial.read_exact(&mut dma1, &mut first), Ok(()));
    // A second request on the same channel is refused, never queued.
    assert_eq!(serial.read_exact(&mut dma1, &mut second), Err(Error::InUse));
    assert!(second.is_free());
    // The other direction's channel is independent.
    let mut tx = Buffer::new(vec![0; 4]);
    assert_eq!(serial.write_all(&mut dma1, &mut tx), Ok(()));
}

#[test]
fn wrong_channel_never_frees_a_receiving_buffer() {
    let serial = dma_serial();
    let mut dma1 = Dma1::new();
    let mut buffer = Buffer::new(vec![0; 4]);
    assert_eq!(serial.read_exact(&mut dma1, &mut buffer), Ok(()));
    // Channel 4 is idle, but it does not hold this buffer's lock: the
    // memory stays with the in-flight receive transfer on channel 5.
    assert_eq!(buffer.release(&mut dma1.ch4), Err(Error::WrongChannel));
    assert!(!buffer.is_free());
    assert!(dma1.ch5.en);
    // The locking channel completes; now the buffer comes back.
    dma1.ch5.tcif = true;
    assert_eq!(buffer.release(&mut dma1.ch5), Ok(()));
    assert!(buffer.is_free());
}

#[test]
fn buffer_cpu_access_while_free() {
    let mut buffer = Buffer::new(vec![0, 0, 0]);
    assert_eq!(buffer.len(), 3);
    buffer.update(1, 42);
    assert_eq!(buffer.get().as_slice(), &[0, 42, 0]);
}
