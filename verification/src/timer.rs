//! Timer driver.
//!
//! Four timer instances share these semantics; one of them hangs off the
//! other bus clock domain and has a 16-bit reload register, the rest
//! reload from a 32-bit register. A timer is configured with a periodic
//! timeout, then paused and resumed freely; `wait` polls the update-event
//! flag once and never blocks. The period is split into prescaler and
//! reload values by the shared divider computation, and `get_timeout`
//! reconstructs the programmed period as `(prescaler + 1) * reload`.

use vstd::prelude::*;
use crate::divider::{
    compute_divider, divider_expressible, lemma_divider_exact, lemma_prescaler_fits,
    lemma_reload_fits, spec_prescaler, spec_reload, COUNTER_SPAN,
};
use crate::nonblock::{NbError, NbResult};
use crate::rcc::Rcc;
use crate::time::{ClockDomain, Ticks};

verus! {

/// Output-compare channel associated to a timer.
#[derive(Clone, Copy, Debug, PartialEq, Eq, Structural)]
pub enum Channel {
    /// First channel.
    _1,
    /// Second channel.
    _2,
    /// Third channel.
    _3,
    /// Fourth channel.
    _4,
}

/// The timer instances this driver supports.
#[derive(Clone, Copy, Debug, PartialEq, Eq, Structural)]
pub enum TimerInstance {
    /// General-purpose timer with a 32-bit reload register.
    Tim2,
    /// General-purpose timer.
    Tim3,
    /// General-purpose timer.
    Tim4,
    /// Basic timer on the other clock domain, 16-bit reload register.
    Tim7,
}

/// The bus clock domain an instance's periods are expressed in.
pub open spec fn spec_clock_domain(i: TimerInstance) -> ClockDomain {
    match i {
        TimerInstance::Tim7 => ClockDomain::Apb2,
        _ => ClockDomain::Apb1,
    }
}

/// The instance's clock gate in a clock-control image.
pub open spec fn spec_clock_gate(r: Rcc, i: TimerInstance) -> bool {
    match i {
        TimerInstance::Tim2 => r.apb1enr_tim2en,
        TimerInstance::Tim3 => r.apb1enr_tim3en,
        TimerInstance::Tim4 => r.apb1enr_tim4en,
        TimerInstance::Tim7 => r.apb1enr_tim7en,
    }
}

/// The clock-control image after enabling instance `i`'s gate; every
/// other gate keeps its value.
pub open spec fn rcc_after_init(r: Rcc, i: TimerInstance) -> Rcc {
    match i {
        TimerInstance::Tim2 => Rcc { apb1enr_tim2en: true, ..r },
        TimerInstance::Tim3 => Rcc { apb1enr_tim3en: true, ..r },
        TimerInstance::Tim4 => Rcc { apb1enr_tim4en: true, ..r },
        TimerInstance::Tim7 => Rcc { apb1enr_tim7en: true, ..r },
    }
}

/// Whether the reload value for `period` fits instance `i`'s reload
/// register: the 16-bit instance cannot hold the full counter span that
/// periods at exact multiples of it require.
pub open spec fn reload_fits(i: TimerInstance, period: u32) -> bool {
    i == TimerInstance::Tim7 ==> period as int % (COUNTER_SPAN as int) != 0
}

/// Register image of one timer instance.
#[derive(Clone, Copy, Debug, PartialEq, Eq, Structural)]
pub struct TimerRegs {
    /// Prescaler: the counter steps once per `psc + 1` bus ticks.
    pub psc: u16,
    /// Auto-reload value: counter steps per period.
    pub arr: u32,
    /// Current counter value.
    pub cnt: u32,
    /// Counter-enable bit; the timer runs exactly while it is set.
    pub cen: bool,
    /// One-pulse mode; `false` is continuous (periodic) mode.
    pub opm: bool,
    /// Update-event interrupt enable.
    pub uie: bool,
    /// Update-event flag, set by hardware when a period elapses.
    pub uif: bool,
}

impl TimerRegs {
    /// An image with every register in its reset state.
    pub fn new() -> (r: TimerRegs)
        ensures
            r == (TimerRegs {
                psc: 0u16,
                arr: 0u32,
                cnt: 0u32,
                cen: false,
                opm: false,
                uie: false,
                uif: false,
            }),
    {
        TimerRegs { psc: 0, arr: 0, cnt: 0, cen: false, opm: false, uie: false, uif: false }
    }
}

/// What one `wait` poll reports: success exactly when the update-event
/// flag was set, would-block otherwise.
pub open spec fn wait_outcome(uif: bool) -> NbResult<(), ()> {
    if uif {
        Ok(())
    } else {
        Err(NbError::WouldBlock)
    }
}

/// The register image after one `wait` poll: a successful poll clears
/// the update-event flag, a blocked poll changes nothing.
pub open spec fn regs_after_wait(r: TimerRegs) -> TimerRegs {
    if r.uif {
        TimerRegs { uif: false, ..r }
    } else {
        r
    }
}

/// Timer handle: the instance tag plus nothing else, freely copyable.
#[derive(Clone, Copy, Debug, PartialEq, Eq, Structural)]
pub struct Timer(pub TimerInstance);

impl Timer {
    /// The bus clock domain periods for this instance must be measured
    /// in.
    pub fn clock_domain(&self) -> (d: ClockDomain)
        ensures
            d == spec_clock_domain(self.0),
    {
        match self.0 {
            TimerInstance::Tim7 => ClockDomain::Apb2,
            _ => ClockDomain::Apb1,
        }
    }

    /// Initializes the timer with a periodic timeout of `period` ticks.
    ///
    /// Enables the instance's clock gate, programs the prescaler and
    /// reload registers through the shared divider computation, selects
    /// continuous mode and enables the update-event interrupt. The
    /// counter is left stopped: after initialization the timer is in the
    /// paused state until [`Timer::resume`] starts it.
    pub fn init(&self, period: Ticks, rcc: &mut Rcc, regs: &mut TimerRegs)
        requires
            1 <= period.count,
            period.domain == spec_clock_domain(self.0),
            reload_fits(self.0, period.count),
        ensures
            *final(rcc) == rcc_after_init(*old(rcc), self.0),
            *final(regs) == (TimerRegs {
                psc: spec_prescaler(period.count) as u16,
                arr: spec_reload(period.count) as u32,
                cen: false,
                opm: false,
                uie: true,
                ..*old(regs)
            }),
    {
        match self.0 {
            TimerInstance::Tim2 => rcc.apb1enr_tim2en = true,
            TimerInstance::Tim3 => rcc.apb1enr_tim3en = true,
            TimerInstance::Tim4 => rcc.apb1enr_tim4en = true,
            TimerInstance::Tim7 => rcc.apb1enr_tim7en = true,
        }

        self.set_timeout(period, regs);

        // Continuous mode, counter stopped.
        regs.opm = false;
        regs.cen = false;

        // Raise an interrupt on each update event.
        regs.uie = true;
    }

    /// Reprograms the prescaler and reload registers for a periodic
    /// timeout of `period` ticks, preserving the run state and every
    /// other register.
    pub fn set_timeout(&self, period: Ticks, regs: &mut TimerRegs)
        requires
            1 <= period.count,
            period.domain == spec_clock_domain(self.0),
            reload_fits(self.0, period.count),
        ensures
            *final(regs) == (TimerRegs {
                psc: spec_prescaler(period.count) as u16,
                arr: spec_reload(period.count) as u32,
                ..*old(regs)
            }),
    {
        let (psc, reload) = compute_divider(period.count);
        regs.psc = psc;
        regs.arr = reload;
    }

    /// Reconstructs the configured period from the programmed registers:
    /// `(prescaler + 1) * reload` ticks, the algebraic inverse of the
    /// divider computation.
    pub fn get_timeout(&self, regs: &TimerRegs) -> (t: Ticks)
        requires
            (regs.psc + 1) * regs.arr <= u32::MAX,
        ensures
            t.domain == spec_clock_domain(self.0),
            t.count as int == (regs.psc + 1) * regs.arr,
    {
        let step: u32 = regs.psc as u32 + 1;
        Ticks { domain: self.clock_domain(), count: step * regs.arr }
    }

    /// Stops the counter; the configuration is kept and the timer can be
    /// resumed.
    pub fn pause(&self, regs: &mut TimerRegs)
        ensures
            *final(regs) == (TimerRegs { cen: false, ..*old(regs) }),
    {
        regs.cen = false;
    }

    /// Resets the counter to zero without changing the run state.
    pub fn restart(&self, regs: &mut TimerRegs)
        ensures
            *final(regs) == (TimerRegs { cnt: 0u32, ..*old(regs) }),
    {
        regs.cnt = 0;
    }

    /// Starts the counter.
    pub fn resume(&self, regs: &mut TimerRegs)
        ensures
            *final(regs) == (TimerRegs { cen: true, ..*old(regs) }),
    {
        regs.cen = true;
    }

    /// Polls the update-event flag once, never blocking: reports
    /// would-block while no period has elapsed, and on success clears the
    /// flag, so each update event is observed exactly once.
    pub fn wait(&self, regs: &mut TimerRegs) -> (r: NbResult<(), ()>)
        ensures
            r == wait_outcome(old(regs).uif),
            *final(regs) == regs_after_wait(*old(regs)),
    {
        if !regs.uif {
            Err(NbError::WouldBlock)
        } else {
            regs.uif = false;
            Ok(())
        }
    }
}

/// `get_timeout` is the algebraic inverse of `set_timeout`: for every
/// positive period the programmed product `(prescaler + 1) * reload` fits
/// the tick range, never exceeds the requested period, and reproduces it
/// exactly precisely when the period is expressible.
pub proof fn lemma_timeout_round_trip(period: u32)
    requires
        1 <= period,
    ensures
        0 <= spec_prescaler(period) <= 0xFFFF,
        1 <= spec_reload(period) <= COUNTER_SPAN as int,
        0 < (spec_prescaler(period) + 1) * spec_reload(period) <= period as int,
        ((spec_prescaler(period) + 1) * spec_reload(period) == period as int)
            <==> divider_expressible(period),
{
    lemma_prescaler_fits(period);
    lemma_reload_fits(period);
    lemma_divider_exact(period);
}

/// An elapsed period is observed exactly once: `wait` succeeds on the
/// set update-event flag and clears it, so a second poll before the next
/// period would block; the run state is untouched either way.
pub proof fn lemma_wait_observed_once(regs: TimerRegs)
    requires
        regs.uif,
    ensures
        wait_outcome(regs.uif) == Ok::<(), NbError<()>>(()),
        !regs_after_wait(regs).uif,
        wait_outcome(regs_after_wait(regs).uif) == Err::<(), NbError<()>>(NbError::WouldBlock),
        regs_after_wait(regs).cen == regs.cen,
        regs_after_wait(regs) == (TimerRegs { uif: false, ..regs }),
{
}

} // verus!
