//! The timer-driven tick loop.
//!
//! Each timer tick reads the latest analog sample, recomputes the timer
//! reload through the saturated affine map, toggles the blink state, and
//! transmits one frame whose payload depends on the new state.  The loop
//! body and its iteration over a sample sequence are verified here; the
//! caller supplies the ticks (waiting on the timer's update flag) and the
//! samples (reading the converter), and performs the reload writes.

use vstd::prelude::*;
use crate::controller::CanController;
use crate::controller::sent_one;
use crate::driver::canbus_tx;
use crate::frame::transmitted_payload;
use crate::timer::{compute_reload, saturated_reload};

verus! {

/// Configuration of the blink loop: the frame identifier, the two
/// payloads that alternate with the blink state, and the calibration of
/// the sample-to-reload map.
#[derive(PartialEq, Eq, Debug)]
pub struct BlinkConfig {
    pub identifier: u16,
    pub coeff: u16,
    pub intercept: u16,
    pub on_payload: Vec<u8>,
    pub off_payload: Vec<u8>,
}

impl BlinkConfig {
    /// The identifier must fit the frame's 11-bit field.
    pub open spec fn wf(self) -> bool {
        self.identifier < 2048
    }

    /// The payload transmitted while the indicator is on or off.
    pub open spec fn payload_for(self, led_on: bool) -> Seq<u8> {
        if led_on {
            self.on_payload@
        } else {
            self.off_payload@
        }
    }
}

/// The blink state after `k` toggles from `start`.
pub open spec fn blink_after(start: bool, k: int) -> bool {
    if k % 2 == 0 {
        start
    } else {
        !start
    }
}

/// One tick: computes the new reload value from `sample`, toggles the
/// blink state, and transmits the payload belonging to the new state.
pub fn tick_step(
    ctrl: &mut CanController,
    led_on: &mut bool,
    cfg: &BlinkConfig,
    sample: u16,
) -> (reload: u16)
    requires
        old(ctrl).can_transmit(),
        cfg.wf(),
    ensures
        reload == saturated_reload(cfg.coeff as int, cfg.intercept as int, sample as int),
        *final(led_on) == !*old(led_on),
        final(ctrl).can_transmit(),
        final(ctrl).mode == old(ctrl).mode,
        final(ctrl).timing == old(ctrl).timing,
        sent_one(
            old(ctrl).sent@,
            final(ctrl).sent@,
            cfg.identifier as int,
            transmitted_payload(cfg.payload_for(!*old(led_on))),
        ),
{
    let reload = compute_reload(cfg.coeff, cfg.intercept, sample);
    *led_on = !*led_on;
    if *led_on {
        canbus_tx(ctrl, cfg.identifier, cfg.on_payload.as_slice());
    } else {
        canbus_tx(ctrl, cfg.identifier, cfg.off_payload.as_slice());
    }
    reload
}

/// Runs the tick loop over a finite sample sequence, returning the reload
/// values in tick order: the `i`-th reload is exactly the saturated
/// affine image of the `i`-th sample, one frame leaves per tick, and the
/// blink state alternates.
pub fn run_ticks(
    ctrl: &mut CanController,
    led_on: &mut bool,
    cfg: &BlinkConfig,
    samples: &[u16],
) -> (reloads: Vec<u16>)
    requires
        old(ctrl).can_transmit(),
        cfg.wf(),
    ensures
        reloads@.len() == samples@.len(),
        forall|i: int| 0 <= i < samples@.len()
            ==> reloads@[i] == saturated_reload(
                cfg.coeff as int,
                cfg.intercept as int,
                samples@[i] as int,
            ),
        *final(led_on) == blink_after(*old(led_on), samples@.len() as int),
        final(ctrl).can_transmit(),
        final(ctrl).mode == old(ctrl).mode,
        final(ctrl).timing == old(ctrl).timing,
        final(ctrl).sent@.len() == old(ctrl).sent@.len() + samples@.len(),
        forall|i: int| 0 <= i < old(ctrl).sent@.len()
            ==> final(ctrl).sent@[i] == old(ctrl).sent@[i],
        forall|j: int| old(ctrl).sent@.len() <= j < final(ctrl).sent@.len() ==> {
            let i = j - old(ctrl).sent@.len();
            &&& (#[trigger] final(ctrl).sent@[j]).identifier == cfg.identifier
            &&& final(ctrl).sent@[j].payload@ == transmitted_payload(
                cfg.payload_for(blink_after(*old(led_on), i + 1)),
            )
        },
{
    let mut reloads: Vec<u16> = Vec::new();
    let mut k: usize = 0;
    while k < samples.len()
        invariant
            k <= samples@.len(),
            cfg.wf(),
            reloads@.len() == k,
            forall|i: int| 0 <= i < k
                ==> reloads@[i] == saturated_reload(
                    cfg.coeff as int,
                    cfg.intercept as int,
                    samples@[i] as int,
                ),
            *led_on == blink_after(*old(led_on), k as int),
            ctrl.can_transmit(),
            ctrl.mode == old(ctrl).mode,
            ctrl.timing == old(ctrl).timing,
            ctrl.sent@.len() == old(ctrl).sent@.len() + k,
            forall|i: int| 0 <= i < old(ctrl).sent@.len()
                ==> ctrl.sent@[i] == old(ctrl).sent@[i],
            forall|j: int| old(ctrl).sent@.len() <= j < ctrl.sent@.len() ==> {
                let i = j - old(ctrl).sent@.len();
                &&& (#[trigger] ctrl.sent@[j]).identifier == cfg.identifier
                &&& ctrl.sent@[j].payload@ == transmitted_payload(
                    cfg.payload_for(blink_after(*old(led_on), i + 1)),
                )
            },
        decreases samples@.len() - k,
    {
        let reload = tick_step(ctrl, led_on, cfg, samples[k]);
        reloads.push(reload);
        k = k + 1;
    }
    reloads
}

} // verus!
