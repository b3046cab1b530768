use can_blinky::controller::CanController;
use can_blinky::driver::canbus_init;
use can_blinky::tick::{run_ticks, tick_step, BlinkConfig};
use can_blinky::timing::BitTiming;

fn blink_config() -> BlinkConfig {
    BlinkConfig {
        identifier: 222,
        coeff: 18,
        intercept: 13924,
        on_payload: vec![1, 4, 8],
        off_payload: vec![2, 5, 9],
    }
}

fn ready_controller() -> CanController {
    let mut ctrl = CanController::new();
    canbus_init(&mut ctrl, BitTiming { prescaler: 100, ts1: 12, ts2: 1 });
    ctrl
}

#[test]
fn reload_sequence_is_affine_image_in_tick_order() {
    let mut ctrl = ready_controller();
    let mut led_on = false;
    let samples: Vec<u16> = vec![1000, 2000, 3000];
    let reloads = run_ticks(&mut ctrl, &mut led_on, &blink_config(), &samples);
    assert_eq!(
        reloads,
        vec![18 * 1000 - 13924, 18 * 2000 - 13924, 18 * 3000 - 13924]
    );
}

#[test]
fn zero_sample_saturates_reload_at_zero() {
    let mut ctrl = ready_controller();
    let mut led_on = false;
    let reload = tick_step(&mut ctrl, &mut led_on, &blink_config(), 0);
    assert_eq!(reload, 0);
}

#[test]
fn tick_toggles_blink_state() {
    let mut ctrl = ready_controller();
    let mut led_on = false;
    tick_step(&mut ctrl, &mut led_on, &blink_config(), 1000);
    assert!(led_on);
    tick_step(&mut ctrl, &mut led_on, &blink_config(), 1000);
    assert!(!led_on);
}

#[test]
fn each_tick_transmits_payload_of_new_state() {
    let mut ctrl = ready_controller();
    let mut led_on = false;
    let samples: Vec<u16> = vec![1000, 1000, 1000, 1000];
    run_ticks(&mut ctrl, &mut led_on, &blink_config(), &samples);
    assert_eq!(ctrl.sent.len(), 4);
    for (i, frame) in ctrl.sent.iter().enumerate() {
        assert_eq!(frame.identifier, 222);
        assert_eq!(frame.payload.len(), 3);
        if i % 2 == 0 {
            assert_eq!(&frame.payload[..], &[1, 4, 8]);
        } else {
            assert_eq!(&frame.payload[..], &[2, 5, 9]);
        }
    }
    assert!(!led_on);
}

#[test]
fn run_ticks_on_empty_sample_sequence_does_nothing() {
    let mut ctrl = ready_controller();
    let mut led_on = true;
    let samples: Vec<u16> = Vec::new();
    let reloads = run_ticks(&mut ctrl, &mut led_on, &blink_config(), &samples);
    assert!(reloads.is_empty());
    assert!(ctrl.sent.is_empty());
    assert!(led_on);
}

#[test]
fn overlong_tick_payload_truncated() {
    let cfg = BlinkConfig {
        identifier: 300,
        coeff: 1,
        intercept: 0,
        on_payload: vec![1, 2, 3, 4, 5, 6, 7, 8, 9],
        off_payload: vec![0],
    };
    let mut ctrl = ready_controller();
    let mut led_on = false;
    tick_step(&mut ctrl, &mut led_on, &cfg, 10);
    assert_eq!(&ctrl.sent[0].payload[..], &[1, 2, 3, 4, 5, 6, 7, 8]);
}
