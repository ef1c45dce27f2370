//! Prescaler / reload computation shared by the timing peripherals.
//!
//! A target period, given as a tick count, has to be split into a 16-bit
//! prescaler and a counter reload value: the hardware counts
//! `prescaler + 1` bus ticks per counter step and reloads after `reload`
//! steps, so the programmed period is `(prescaler + 1) * reload` ticks.
//! The computation picks the smallest prescaler for which the reload value
//! fits the 16-bit counter span, by `prescaler = (period - 1) / 65536` and
//! `reload = period / (prescaler + 1)` — including the `- 1` bias, which is
//! part of the observable register contract.

use vstd::prelude::*;
use vstd::arithmetic::div_mod::{
    lemma_div_is_ordered, lemma_div_multiples_vanish, lemma_div_nonincreasing,
    lemma_fundamental_div_mod, lemma_fundamental_div_mod_converse_div,
    lemma_mod_division_less_than_divisor, lemma_mod_multiples_basic, lemma_multiply_divide_le,
    lemma_multiply_divide_lt,
};

verus! {

/// Number of distinct values a 16-bit counter register steps through.
pub const COUNTER_SPAN: u32 = 0x10000;

/// The prescaler the divider computation programs for a period of
/// `period` ticks.
pub open spec fn spec_prescaler(period: u32) -> int {
    (period - 1) / (COUNTER_SPAN as int)
}

/// The counter reload value the divider computation programs for a period
/// of `period` ticks.
pub open spec fn spec_reload(period: u32) -> int {
    period as int / (spec_prescaler(period) + 1)
}

/// A period is expressible when the programmed registers reproduce it
/// exactly: the prescaler step divides it without remainder.
pub open spec fn divider_expressible(period: u32) -> bool {
    period as int % (spec_prescaler(period) + 1) == 0
}

/// The prescaler of every positive 32-bit period fits its 16-bit register.
pub proof fn lemma_prescaler_fits(period: u32)
    requires
        1 <= period,
    ensures
        0 <= spec_prescaler(period) <= 0xFFFF,
        spec_prescaler(period) + 1 <= period as int,
{
    let d = COUNTER_SPAN as int;
    lemma_div_is_ordered(0, period - 1, d);
    lemma_multiply_divide_lt(period - 1, d, d);
    lemma_div_nonincreasing(period - 1, d);
}

/// The reload value of every positive period fits the counter span, and
/// overflows the 16-bit range (reaching exactly 65536) precisely for the
/// periods that are multiples of 65536.
pub proof fn lemma_reload_fits(period: u32)
    requires
        1 <= period,
    ensures
        1 <= spec_reload(period) <= COUNTER_SPAN as int,
        (spec_reload(period) == COUNTER_SPAN as int) <==> (period as int % (COUNTER_SPAN as int)
            == 0),
{
    let d = COUNTER_SPAN as int;
    let p = period as int;
    let psc = spec_prescaler(period);
    let q = psc + 1;
    lemma_prescaler_fits(period);

    // p <= q * d: the prescaler was chosen large enough for the span.
    lemma_fundamental_div_mod(p - 1, d);
    lemma_mod_division_less_than_divisor(p - 1, d);
    assert(p - 1 == d * psc + ((p - 1) % d));
    assert(p <= q * d);

    // 1 <= reload <= d.
    lemma_div_is_ordered(q, p, q);
    assert(q / q == 1) by {
        lemma_div_multiples_vanish(1, q);
    }
    lemma_multiply_divide_le(p, q, d);

    if p % d == 0 {
        // p == k * d with k == q, so the reload is exactly d.
        let k = p / d;
        lemma_fundamental_div_mod(p, d);
        assert(p == d * k);
        assert(1 <= k) by {
            lemma_div_is_ordered(d, p, d);
            lemma_div_multiples_vanish(1, d);
        }
        assert(p - 1 == (k - 1) * d + (d - 1)) by (nonlinear_arith)
            requires
                p == d * k,
                d == 0x10000,
        ;
        lemma_fundamental_div_mod_converse_div(p - 1, d, k - 1, d - 1);
        assert(psc == k - 1);
        assert(p == q * d) by (nonlinear_arith)
            requires
                p == d * k,
                q == k,
        ;
        lemma_div_multiples_vanish(d, q);
        assert((q * d) / q == d);
        assert(spec_reload(period) == d);
    }
    if spec_reload(period) == d {
        // The quotient reaching the full span forces p == q * d.
        lemma_fundamental_div_mod(p, q);
        lemma_mod_division_less_than_divisor(p, q);
        assert(p == q * (p / q) + p % q);
        assert(p >= q * d) by (nonlinear_arith)
            requires
                p == q * (p / q) + p % q,
                p / q == d,
                p % q >= 0,
        ;
        assert(p == q * d);
        lemma_mod_multiples_basic(q, d);
        assert((q * d) % d == 0);
    }
}

/// The programmed product `(prescaler + 1) * reload` never exceeds the
/// requested period, and reproduces it exactly precisely when the period
/// is expressible.
pub proof fn lemma_divider_exact(period: u32)
    requires
        1 <= period,
    ensures
        0 < (spec_prescaler(period) + 1) * spec_reload(period) <= period as int,
        ((spec_prescaler(period) + 1) * spec_reload(period) == period as int) <==> divider_expressible(
            period,
        ),
{
    let p = period as int;
    let q = spec_prescaler(period) + 1;
    lemma_prescaler_fits(period);
    lemma_reload_fits(period);
    lemma_fundamental_div_mod(p, q);
    lemma_mod_division_less_than_divisor(p, q);
    assert(p == q * (p / q) + p % q);
    assert(q * spec_reload(period) > 0) by (nonlinear_arith)
        requires
            q > 0,
            spec_reload(period) > 0,
    ;
}

/// Computes the prescaler and reload values for a period of `period` ticks.
pub fn compute_divider(period: u32) -> (r: (u16, u32))
    requires
        1 <= period,
    ensures
        r.0 as int == spec_prescaler(period),
        r.1 as int == spec_reload(period),
        r.1 <= COUNTER_SPAN,
{
    proof {
        lemma_prescaler_fits(period);
        lemma_reload_fits(period);
    }
    let psc: u32 = (period - 1) / COUNTER_SPAN;
    let reload: u32 = period / (psc + 1);
    (psc as u16, reload)
}

} // verus!
