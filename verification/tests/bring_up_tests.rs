use can_blinky::controller::{BusMode, CanController};
use can_blinky::driver::{bus_bring_up, canbus_init};
use can_blinky::sequencer::{sequencer_step, SeqAction, SeqPhase};
use can_blinky::timing::BitTiming;

#[test]
fn bring_up_lands_in_normal_mode_with_timing() {
    let mut ctrl = CanController::new();
    let bt = BitTiming { prescaler: 100, ts1: 12, ts2: 1 };
    canbus_init(&mut ctrl, bt);
    assert_eq!(ctrl.mode, BusMode::Normal);
    assert!(!ctrl.init_request);
    assert_eq!(ctrl.timing, Some(bt));
    assert!(ctrl.sent.is_empty());
}

#[test]
fn bring_up_twice_is_idempotent() {
    let mut ctrl = CanController::new();
    let bt = BitTiming { prescaler: 100, ts1: 12, ts2: 1 };
    canbus_init(&mut ctrl, bt);
    let mode_first = ctrl.mode;
    let timing_first = ctrl.timing;
    canbus_init(&mut ctrl, bt);
    assert_eq!(ctrl.mode, mode_first);
    assert_eq!(ctrl.timing, timing_first);
    assert!(ctrl.sent.is_empty());
}

#[test]
fn sequencer_reaches_ready_only_after_normal_ack() {
    // Walk the handshake by hand, with the acknowledge bit answering
    // late, and record the order of register actions.
    let mut actions: Vec<SeqAction> = Vec::new();

    let (phase, action) = sequencer_step(SeqPhase::Reset, false);
    actions.push(action);
    assert_eq!(phase, SeqPhase::InitRequested);

    // The acknowledge bit is still low: the sequencer keeps polling.
    let (phase, action) = sequencer_step(phase, false);
    actions.push(action);
    assert_eq!(phase, SeqPhase::InitRequested);

    let (phase, action) = sequencer_step(phase, true);
    actions.push(action);
    assert_eq!(phase, SeqPhase::InitAcked);

    let (phase, action) = sequencer_step(phase, true);
    actions.push(action);
    assert_eq!(phase, SeqPhase::NormalRequested);

    // Still acknowledged: synchronization is not complete, no Ready yet.
    let (phase, action) = sequencer_step(phase, true);
    actions.push(action);
    assert_eq!(phase, SeqPhase::NormalRequested);

    // Only the low acknowledge bit lets transmission begin.
    let (phase, action) = sequencer_step(phase, false);
    actions.push(action);
    assert_eq!(phase, SeqPhase::Ready);

    assert_eq!(
        actions,
        vec![
            SeqAction::SetInitRequest,
            SeqAction::Poll,
            SeqAction::WriteTiming,
            SeqAction::ClearInitRequest,
            SeqAction::Poll,
            SeqAction::Idle,
        ]
    );
}

#[test]
fn sequencer_stays_ready() {
    let (phase, action) = sequencer_step(SeqPhase::Ready, true);
    assert_eq!(phase, SeqPhase::Ready);
    assert_eq!(action, SeqAction::Idle);
    let (phase, action) = sequencer_step(SeqPhase::Ready, false);
    assert_eq!(phase, SeqPhase::Ready);
    assert_eq!(action, SeqAction::Idle);
}

#[test]
fn bus_bring_up_programs_exact_timing() {
    let mut ctrl = CanController::new();
    let bt = bus_bring_up(&mut ctrl, 16_000_000, 500_000).expect("exact decomposition exists");
    let quanta = 1 + bt.ts1 as u32 + bt.ts2 as u32;
    assert_eq!(bt.prescaler as u32 * quanta * 500_000, 16_000_000);
    assert_eq!(ctrl.mode, BusMode::Normal);
    assert_eq!(ctrl.timing, Some(bt));
}

#[test]
fn bus_bring_up_leaves_controller_alone_on_config_error() {
    let mut ctrl = CanController::new();
    assert!(bus_bring_up(&mut ctrl, 16_000_000, 7).is_none());
    assert_eq!(ctrl.mode, BusMode::Initialization);
    assert_eq!(ctrl.timing, None);
}
