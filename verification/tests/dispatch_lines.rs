use mcu_core::critical::PreemptionFlag;
use mcu_core::critical::enter_critical_section;
use mcu_core::critical::leave_critical_section;
use mcu_core::dispatch::InterruptController;

#[test]
fn reset_state_is_all_masked_nothing_pending() {
    let controller = InterruptController::new();
    for line in 0..16 {
        assert!(controller.is_masked(line));
        assert!(!controller.is_pending(line));
    }
}

#[test]
fn masked_line_discards_events() {
    let mut controller = InterruptController::new();
    controller.signal_event(3);
    assert!(!controller.is_pending(3));
}

#[test]
fn unmasked_line_latches_and_clears() {
    let mut controller = InterruptController::new();
    controller.unmask(3);
    assert!(!controller.is_masked(3));
    controller.signal_event(3);
    assert!(controller.is_pending(3));
    // A second event while pending coalesces into the same latched bit.
    controller.signal_event(3);
    assert!(controller.is_pending(3));
    controller.clear_pending(3);
    assert!(!controller.is_pending(3));
}

#[test]
fn line_fires_only_outside_critical_sections() {
    let mut flag = PreemptionFlag::new();
    let mut controller = InterruptController::new();
    controller.unmask(5);
    controller.signal_event(5);
    assert!(controller.fires(&flag, 5));

    // Inside a critical section nothing can preempt.
    let token = enter_critical_section(&mut flag);
    assert!(!controller.fires(&flag, 5));
    leave_critical_section(&mut flag, token);

    assert!(controller.fires(&flag, 5));
}

#[test]
fn remasking_stops_firing_but_keeps_latched_bit() {
    let flag = PreemptionFlag::new();
    let mut controller = InterruptController::new();
    controller.unmask(7);
    controller.signal_event(7);
    controller.mask(7);
    assert!(controller.is_pending(7));
    assert!(!controller.fires(&flag, 7));
    // Unmasking again services the latched event.
    controller.unmask(7);
    assert!(controller.fires(&flag, 7));
}
