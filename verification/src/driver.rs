//! The verified driver: bus bring-up and frame transmission.
//!
//! `canbus_init` runs the sequencer's step function against a controller
//! until the Normal-mode acknowledgment has been observed, programming the
//! bit timing on the way; `canbus_tx` packs a frame and hands it to the
//! transmit mailbox.  Both are verified against the controller model in
//! [`crate::controller`]; a driver for the real peripheral performs the
//! same `SeqAction`s on the real registers.

use vstd::prelude::*;
use crate::controller::{sent_one, CanController};
use crate::frame::{prepare_mailbox, transmitted_payload};
use crate::sequencer::{sequencer_step, SeqAction, SeqPhase};
use crate::timing::{compute_bit_timing, BitTiming};

verus! {

/// What a completed bring-up leaves behind: Normal mode with no pending
/// request, exactly the requested timing programmed, and no frame sent.
pub open spec fn bring_up_post(
    pre: CanController,
    post: CanController,
    bt: BitTiming,
) -> bool {
    post.can_transmit()
    && post.timing == Some(bt)
    && post.sent@ == pre.sent@
}

/// Brings the controller from any mode into Normal mode with `bt`
/// programmed: requests Initialization, waits for the acknowledgment,
/// programs the timing while it holds, releases the request and waits for
/// the Normal-mode acknowledgment.
pub fn canbus_init(ctrl: &mut CanController, bt: BitTiming)
    requires
        bt.wf(),
    ensures
        bring_up_post(*old(ctrl), *final(ctrl), bt),
{
    let mut phase = SeqPhase::Reset;
    while phase != SeqPhase::Ready
        invariant
            ctrl.sent@ == old(ctrl).sent@,
            phase is InitRequested ==> ctrl.mode is Initialization,
            phase is InitAcked ==> ctrl.mode is Initialization && ctrl.timing == Some(bt),
            phase is NormalRequested ==> ctrl.mode is Normal && !ctrl.init_request
                && ctrl.timing == Some(bt),
            phase is Ready ==> ctrl.can_transmit() && ctrl.timing == Some(bt),
        decreases phase.remaining(),
    {
        let ack = ctrl.read_init_ack();
        let (next, action) = sequencer_step(phase, ack);
        match action {
            SeqAction::SetInitRequest => ctrl.set_init_request(),
            SeqAction::WriteTiming => ctrl.write_timing(bt),
            SeqAction::ClearInitRequest => ctrl.clear_init_request(),
            SeqAction::Poll => {},
            SeqAction::Idle => {},
        }
        phase = next;
    }
}

/// The whole bus bring-up: selects exact bit-timing parameters for the
/// clock and rate, then drives the handshake.  When no exact decomposition
/// exists this is a configuration error: the controller is left untouched
/// and `None` says so.
pub fn bus_bring_up(ctrl: &mut CanController, bus_clock: u32, bit_rate: u32) -> (r: Option<
    BitTiming,
>)
    requires
        bit_rate > 0,
    ensures
        match r {
            Some(bt) => {
                &&& bt.wf()
                &&& bt.divisor() * bit_rate == bus_clock
                &&& bring_up_post(*old(ctrl), *final(ctrl), bt)
            },
            None => {
                &&& *final(ctrl) == *old(ctrl)
                &&& forall|p: int, t1: int, t2: int|
                    !crate::timing::exact_decomposition(
                        bus_clock as int,
                        bit_rate as int,
                        p,
                        t1,
                        t2,
                    )
            },
        },
{
    match compute_bit_timing(bus_clock, bit_rate) {
        Some(bt) => {
            canbus_init(ctrl, bt);
            Some(bt)
        },
        None => None,
    }
}

/// Packs `data` behind `identifier` and transmits it, returning when the
/// request completes.  The frame on the bus carries `data` truncated to
/// the mailbox's eight byte slots.  Completion is awaited before the call
/// returns, so the single mailbox never holds more than one frame in
/// flight.
pub fn canbus_tx(ctrl: &mut CanController, identifier: u16, data: &[u8])
    requires
        old(ctrl).can_transmit(),
        identifier < 2048,
    ensures
        final(ctrl).can_transmit(),
        final(ctrl).mode == old(ctrl).mode,
        final(ctrl).timing == old(ctrl).timing,
        sent_one(
            old(ctrl).sent@,
            final(ctrl).sent@,
            identifier as int,
            transmitted_payload(data@),
        ),
{
    let mw = prepare_mailbox(identifier, data);
    ctrl.transmit(&mw);
}

/// Bringing the bus up twice in a row is idempotent: the second run ends
/// in the same mode with the same timing as the first, and neither run
/// puts a frame on the bus.
pub proof fn lemma_bring_up_idempotent(
    c0: CanController,
    c1: CanController,
    c2: CanController,
    bt: BitTiming,
)
    requires
        bring_up_post(c0, c1, bt),
        bring_up_post(c1, c2, bt),
    ensures
        c2.mode == c1.mode,
        c2.can_transmit(),
        c2.timing == c1.timing,
        c2.sent@ == c0.sent@,
{
}

} // verus!
