use can_blinky::controller::CanController;
use can_blinky::driver::{canbus_init, canbus_tx};
use can_blinky::frame::prepare_mailbox;
use can_blinky::timing::BitTiming;

fn ready_controller() -> CanController {
    let mut ctrl = CanController::new();
    canbus_init(&mut ctrl, BitTiming { prescaler: 100, ts1: 12, ts2: 1 });
    ctrl
}

#[test]
fn dlc_equals_payload_length_zero_through_eight() {
    let full: Vec<u8> = vec![10, 20, 30, 40, 50, 60, 70, 80];
    for len in 0..=8usize {
        let mut ctrl = ready_controller();
        canbus_tx(&mut ctrl, 222, &full[..len]);
        assert_eq!(ctrl.sent.len(), 1);
        let frame = &ctrl.sent[0];
        assert_eq!(frame.identifier, 222);
        assert_eq!(frame.payload.len(), len);
        assert_eq!(&frame.payload[..], &full[..len]);
    }
}

#[test]
fn overlong_payload_truncated_to_first_eight() {
    let long: Vec<u8> = vec![1, 2, 3, 4, 5, 6, 7, 8, 9, 10];
    let mut ctrl = ready_controller();
    canbus_tx(&mut ctrl, 222, &long);
    assert_eq!(ctrl.sent.len(), 1);
    assert_eq!(&ctrl.sent[0].payload[..], &[1, 2, 3, 4, 5, 6, 7, 8]);
}

#[test]
fn mailbox_slots_zero_padded_past_payload() {
    let mw = prepare_mailbox(222, &[9, 9, 9]);
    assert_eq!(mw.dlc, 3);
    assert_eq!(mw.identifier, 222);
    assert_eq!(&mw.bytes[..], &[9, 9, 9, 0, 0, 0, 0, 0]);
}

#[test]
fn mailbox_for_empty_payload() {
    let mw = prepare_mailbox(0, &[]);
    assert_eq!(mw.dlc, 0);
    assert_eq!(&mw.bytes[..], &[0u8; 8]);
}

#[test]
fn alternating_transmissions_yield_two_distinct_frames() {
    let mut ctrl = ready_controller();
    canbus_tx(&mut ctrl, 222, &[1, 4, 8]);
    canbus_tx(&mut ctrl, 222, &[2, 5, 9]);
    assert_eq!(ctrl.sent.len(), 2);
    assert_eq!(ctrl.sent[0].identifier, 222);
    assert_eq!(ctrl.sent[1].identifier, 222);
    assert_eq!(ctrl.sent[0].payload.len(), 3);
    assert_eq!(ctrl.sent[1].payload.len(), 3);
    assert_eq!(&ctrl.sent[0].payload[..], &[1, 4, 8]);
    assert_eq!(&ctrl.sent[1].payload[..], &[2, 5, 9]);
    assert_ne!(ctrl.sent[0], ctrl.sent[1]);
}
