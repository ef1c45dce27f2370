use f3::nonblock::NbError;
use f3::rcc::Rcc;
use f3::time::{ClockDomain, Ticks};
use f3::timer::{Timer, TimerInstance, TimerRegs};

fn apb1(count: u32) -> Ticks {
    Ticks { domain: ClockDomain::Apb1, count }
}

fn apb2(count: u32) -> Ticks {
    Ticks { domain: ClockDomain::Apb2, count }
}

#[test]
fn init_leaves_the_timer_paused() {
    let timer = Timer(TimerInstance::Tim7);
    let mut rcc = Rcc::new();
    let mut regs = TimerRegs::new();
    timer.init(apb2(1000), &mut rcc, &mut regs);
    assert!(!regs.cen);
    assert!(!regs.opm);
    assert!(regs.uie);
    assert_eq!(regs.psc, 0);
    assert_eq!(regs.arr, 1000);
    assert!(rcc.apb1enr_tim7en);
    assert!(!rcc.apb1enr_tim2en && !rcc.apb1enr_tim3en && !rcc.apb1enr_tim4en);
}

#[test]
fn each_instance_enables_only_its_own_gate() {
    for (instance, check) in [
        (TimerInstance::Tim2, 0),
        (TimerInstance::Tim3, 1),
        (TimerInstance::Tim4, 2),
    ] {
        let timer = Timer(instance);
        let mut rcc = Rcc::new();
        let mut regs = TimerRegs::new();
        timer.init(apb1(500), &mut rcc, &mut regs);
        let gates = [rcc.apb1enr_tim2en, rcc.apb1enr_tim3en, rcc.apb1enr_tim4en];
        for (i, gate) in gates.iter().enumerate() {
            assert_eq!(*gate, i == check);
        }
        assert!(!rcc.apb1enr_tim7en);
    }
}

#[test]
fn wait_blocks_until_the_period_elapses_then_fires_once() {
    let timer = Timer(TimerInstance::Tim7);
    let mut rcc = Rcc::new();
    let mut regs = TimerRegs::new();
    timer.init(apb2(1000), &mut rcc, &mut regs);
    timer.resume(&mut regs);
    assert!(regs.cen);

    // Before a full period has elapsed the poll would block.
    assert_eq!(timer.wait(&mut regs), Err(NbError::WouldBlock));
    assert_eq!(timer.wait(&mut regs), Err(NbError::WouldBlock));

    // Hardware signals the elapsed period by raising the update flag.
    regs.uif = true;
    // The event is observed exactly once...
    assert_eq!(timer.wait(&mut regs), Ok(()));
    // ...and the next polls block until the next period.
    assert_eq!(timer.wait(&mut regs), Err(NbError::WouldBlock));
    assert_eq!(timer.wait(&mut regs), Err(NbError::WouldBlock));
    assert!(regs.cen);
}

#[test]
fn pause_resume_restart() {
    let timer = Timer(TimerInstance::Tim2);
    let mut rcc = Rcc::new();
    let mut regs = TimerRegs::new();
    timer.init(apb1(250), &mut rcc, &mut regs);
    timer.resume(&mut regs);
    assert!(regs.cen);
    timer.pause(&mut regs);
    assert!(!regs.cen);
    regs.cnt = 123;
    timer.restart(&mut regs);
    assert_eq!(regs.cnt, 0);
    // Restart changes the counter, not the run state.
    assert!(!regs.cen);
}

#[test]
fn set_timeout_preserves_the_run_state() {
    let timer = Timer(TimerInstance::Tim3);
    let mut rcc = Rcc::new();
    let mut regs = TimerRegs::new();
    timer.init(apb1(1000), &mut rcc, &mut regs);
    timer.resume(&mut regs);
    timer.set_timeout(apb1(0x2_0000), &mut regs);
    assert!(regs.cen);
    assert_eq!(regs.psc, 1);
    assert_eq!(regs.arr, 0x1_0000);
}

#[test]
fn get_timeout_round_trips_expressible_periods() {
    let timer = Timer(TimerInstance::Tim2);
    let mut rcc = Rcc::new();
    let mut regs = TimerRegs::new();
    for period in [1u32, 1000, 0xFFFF, 0x1_0000, 0x2_0000, 0x3_0000] {
        timer.init(apb1(period), &mut rcc, &mut regs);
        let back = timer.get_timeout(&regs);
        assert_eq!(back.domain, ClockDomain::Apb1);
        assert_eq!(back.count, period);
    }
}

#[test]
fn get_timeout_reads_back_the_programmed_product() {
    let timer = Timer(TimerInstance::Tim7);
    let mut regs = TimerRegs::new();
    regs.psc = 7;
    regs.arr = 125;
    let t = timer.get_timeout(&regs);
    assert_eq!(t.domain, ClockDomain::Apb2);
    assert_eq!(t.count, 8 * 125);
}

#[test]
fn inexpressible_period_rounds_down() {
    let timer = Timer(TimerInstance::Tim4);
    let mut rcc = Rcc::new();
    let mut regs = TimerRegs::new();
    // 0x10001 is odd: with a prescaler step of 2 the product rounds down.
    timer.init(apb1(0x1_0001), &mut rcc, &mut regs);
    assert_eq!(regs.psc, 1);
    assert_eq!(regs.arr, 0x8000);
    assert_eq!(timer.get_timeout(&regs).count, 0x1_0000);
}

#[test]
fn sixteen_bit_instance_splits_large_periods() {
    let timer = Timer(TimerInstance::Tim7);
    let mut rcc = Rcc::new();
    let mut regs = TimerRegs::new();
    timer.init(apb2(0x1_0001), &mut rcc, &mut regs);
    // The reload fits the 16-bit register.
    assert!(regs.arr <= 0xFFFF);
    assert_eq!((regs.psc, regs.arr), (1, 0x8000));
}

#[test]
fn timer_clock_domains() {
    assert_eq!(Timer(TimerInstance::Tim7).clock_domain(), ClockDomain::Apb2);
    assert_eq!(Timer(TimerInstance::Tim2).clock_domain(), ClockDomain::Apb1);
    assert_eq!(Timer(TimerInstance::Tim3).clock_domain(), ClockDomain::Apb1);
    assert_eq!(Timer(TimerInstance::Tim4).clock_domain(), ClockDomain::Apb1);
}
