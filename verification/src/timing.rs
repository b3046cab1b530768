//! Bus bit-timing selection.
//!
//! A CAN controller divides the bus clock by a prescaler and counts a fixed
//! number of time quanta per bit: one synchronization quantum, `ts1` quanta
//! before the sample point and `ts2` after it.  The achieved bit rate is
//! `bus_clock / (prescaler * (1 + ts1 + ts2))`.  The configurator below
//! picks such a triple exactly, or reports that no exact decomposition
//! exists.

use vstd::prelude::*;
use vstd::arithmetic::div_mod::{
    lemma_fundamental_div_mod, lemma_fundamental_div_mod_converse,
};

verus! {

/// Bit-timing parameters in counting form: `prescaler` clock cycles per time
/// quantum and `1 + ts1 + ts2` quanta per bit.
#[derive(Clone, Copy, PartialEq, Eq, Structural, Debug)]
pub struct BitTiming {
    pub prescaler: u16,
    pub ts1: u8,
    pub ts2: u8,
}

impl BitTiming {
    /// Hardware register ranges: a 10-bit prescaler counted from 1, a
    /// 4-bit segment 1 and a 3-bit segment 2, each counted from 1.
    pub open spec fn wf(self) -> bool {
        1 <= self.prescaler <= 1024
        && 1 <= self.ts1 <= 16
        && 1 <= self.ts2 <= 8
    }

    /// Time quanta per bit.
    pub open spec fn quanta(self) -> int {
        1 + self.ts1 + self.ts2
    }

    /// Bus-clock cycles per bit.
    pub open spec fn divisor(self) -> int {
        self.prescaler * self.quanta()
    }
}

/// An exact decomposition of `bus_clock / bit_rate` into hardware-range
/// timing parameters: `p * (1 + t1 + t2) * bit_rate == bus_clock`.
pub open spec fn exact_decomposition(
    bus_clock: int,
    bit_rate: int,
    p: int,
    t1: int,
    t2: int,
) -> bool {
    1 <= p <= 1024
    && 1 <= t1 <= 16
    && 1 <= t2 <= 8
    && p * (1 + t1 + t2) * bit_rate == bus_clock
}

/// From an exact decomposition follow the quotients the search below works
/// with: the quanta count divides `bus_clock / bit_rate`, and the prescaler
/// is the corresponding cofactor.
proof fn lemma_decomposition_quotients(
    bus_clock: int,
    bit_rate: int,
    p: int,
    t1: int,
    t2: int,
)
    requires
        bit_rate > 0,
        exact_decomposition(bus_clock, bit_rate, p, t1, t2),
    ensures
        bus_clock % bit_rate == 0,
        bus_clock / bit_rate == p * (1 + t1 + t2),
        (bus_clock / bit_rate) % (1 + t1 + t2) == 0,
        (bus_clock / bit_rate) / (1 + t1 + t2) == p,
{
    let q: int = 1 + t1 + t2;
    assert(bus_clock == (p * q) * bit_rate + 0 && p * q == p * q + 0) by (nonlinear_arith)
        requires
            p * (1 + t1 + t2) * bit_rate == bus_clock,
            q == 1 + t1 + t2;
    lemma_fundamental_div_mod_converse(bus_clock, bit_rate, p * q, 0);
    lemma_fundamental_div_mod_converse(p * q, q, p, 0);
}

/// Selects bit-timing parameters that hit `bit_rate` on `bus_clock`
/// exactly, favouring the fewest quanta per bit, or returns `None` when no
/// in-range triple does.
pub fn compute_bit_timing(bus_clock: u32, bit_rate: u32) -> (r: Option<BitTiming>)
    requires
        bit_rate > 0,
    ensures
        match r {
            Some(bt) => bt.wf() && bt.divisor() * bit_rate == bus_clock,
            None => forall|p: int, t1: int, t2: int|
                !exact_decomposition(bus_clock as int, bit_rate as int, p, t1, t2),
        },
{
    if bus_clock % bit_rate != 0 {
        proof {
            assert forall|p: int, t1: int, t2: int|
                !exact_decomposition(bus_clock as int, bit_rate as int, p, t1, t2) by {
                if exact_decomposition(bus_clock as int, bit_rate as int, p, t1, t2) {
                    lemma_decomposition_quotients(bus_clock as int, bit_rate as int, p, t1, t2);
                }
            }
        }
        return None;
    }
    let n: u32 = bus_clock / bit_rate;
    let mut quanta: u32 = 3;
    while quanta <= 25
        invariant
            3 <= quanta <= 26,
            bit_rate > 0,
            bus_clock % bit_rate == 0,
            n == bus_clock as int / bit_rate as int,
            forall|p: int, t1: int, t2: int|
                1 + t1 + t2 < quanta
                    ==> !exact_decomposition(bus_clock as int, bit_rate as int, p, t1, t2),
        decreases 26 - quanta,
    {
        if n % quanta == 0 {
            let p: u32 = n / quanta;
            if 1 <= p && p <= 1024 {
                let t1: u32 = if quanta - 2 <= 16 { quanta - 2 } else { 16 };
                let t2: u32 = quanta - 1 - t1;
                let bt = BitTiming { prescaler: p as u16, ts1: t1 as u8, ts2: t2 as u8 };
                proof {
                    lemma_fundamental_div_mod(n as int, quanta as int);
                    lemma_fundamental_div_mod(bus_clock as int, bit_rate as int);
                    assert(bt.divisor() * bit_rate == bus_clock) by (nonlinear_arith)
                        requires
                            bt.divisor() == p * quanta,
                            n == quanta * p,
                            bus_clock == bit_rate * n;
                }
                return Some(bt);
            }
        }
        proof {
            assert forall|p: int, t1: int, t2: int|
                1 + t1 + t2 < quanta + 1
                    implies !exact_decomposition(bus_clock as int, bit_rate as int, p, t1, t2) by {
                if 1 + t1 + t2 == quanta
                    && exact_decomposition(bus_clock as int, bit_rate as int, p, t1, t2) {
                    lemma_decomposition_quotients(bus_clock as int, bit_rate as int, p, t1, t2);
                }
            }
        }
        quanta = quanta + 1;
    }
    proof {
        assert forall|p: int, t1: int, t2: int|
            !exact_decomposition(bus_clock as int, bit_rate as int, p, t1, t2) by {
            if exact_decomposition(bus_clock as int, bit_rate as int, p, t1, t2) {
                assert(1 + t1 + t2 < 26);
            }
        }
    }
    None
}

/// An exact timing triple hits its target on the nose: when
/// `prescaler * (1 + ts1 + ts2)` multiplied by the bit rate reproduces the
/// bus clock, the achieved bit rate is the target bit rate, with no
/// rounding.
pub proof fn lemma_exact_timing_achieves_rate(bus_clock: int, bit_rate: int, bt: BitTiming)
    requires
        bit_rate > 0,
        bt.wf(),
        bt.divisor() * bit_rate == bus_clock,
    ensures
        bus_clock / bt.divisor() == bit_rate,
{
    assert(bt.divisor() >= 3 && bus_clock == bit_rate * bt.divisor() + 0) by (nonlinear_arith)
        requires
            bt.divisor() == bt.prescaler * bt.quanta(),
            1 <= bt.prescaler,
            3 <= bt.quanta(),
            bt.divisor() * bit_rate == bus_clock;
    lemma_fundamental_div_mod_converse(bus_clock, bt.divisor(), bit_rate, 0);
}

/// The bit rate a timing triple yields on a given bus clock, rounded down.
pub fn achieved_bit_rate(bus_clock: u32, bt: &BitTiming) -> (rate: u32)
    requires
        bt.wf(),
    ensures
        rate == bus_clock as int / bt.divisor(),
{
    let quanta: u32 = 1 + bt.ts1 as u32 + bt.ts2 as u32;
    assert(1 * 3 <= bt.prescaler * quanta <= 1024 * 25) by (nonlinear_arith)
        requires
            1 <= bt.prescaler <= 1024,
            3 <= quanta <= 25;
    bus_clock / (bt.prescaler as u32 * quanta)
}

} // verus!
