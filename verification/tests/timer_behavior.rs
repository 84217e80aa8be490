use mcu_core::cell::InterruptSafeCell;
use mcu_core::clocks::ClockConfig;
use mcu_core::clocks::ClockHardware;
use mcu_core::clocks::ResolvedClocks;
use mcu_core::clocks::resolve;
use mcu_core::critical::PreemptionFlag;
use mcu_core::critical::enter_critical_section;
use mcu_core::critical::leave_critical_section;
use mcu_core::dispatch::InterruptController;
use mcu_core::handlers::timer_interrupt_handler;
use mcu_core::registry::OwnershipRegistry;
use mcu_core::registry::TimerHandle;
use mcu_core::timer::CountdownTimer;

const TIMER_LINE: usize = 9;

fn boot() -> (PreemptionFlag, TimerHandle, ResolvedClocks) {
    let mut flag = PreemptionFlag::new();
    let mut registry = OwnershipRegistry::new();
    let token = enter_critical_section(&mut flag);
    let mut set = registry.take(&token).unwrap();
    leave_critical_section(&mut flag, token);
    let handle = set.take_timer().unwrap();
    let mut hw = ClockHardware::new(true);
    let resolved = resolve(&ClockConfig::default(), &mut hw).unwrap();
    (flag, handle, resolved)
}

#[test]
fn fires_exactly_once_per_period_when_serviced() {
    let (mut flag, handle, clocks) = boot();
    let mut timer = CountdownTimer::new(handle, &clocks, 4);
    let mut controller = InterruptController::new();
    let mut elapsed: InterruptSafeCell<u64> = InterruptSafeCell::new(0);
    controller.unmask(TIMER_LINE);
    timer.enable();

    for interval in 1..=3u64 {
        // No match before the period boundary.
        let early_fires = timer.advance(3);
        assert_eq!(early_fires, 0);
        assert!(!timer.interrupt_asserted());
        // The boundary tick is the one match of the interval.
        assert!(timer.tick());
        assert!(timer.interrupt_asserted());
        controller.signal_event(TIMER_LINE);
        assert!(controller.fires(&flag, TIMER_LINE));
        // The handler clears the match within the interval.
        timer_interrupt_handler(
            &mut flag,
            &mut controller,
            &mut timer,
            &mut elapsed,
            TIMER_LINE,
        );
        assert!(!timer.interrupt_asserted());
        assert!(!controller.fires(&flag, TIMER_LINE));
        let token = enter_critical_section(&mut flag);
        assert_eq!(*elapsed.borrow(&token), interval);
        leave_critical_section(&mut flag, token);
    }
}

#[test]
fn unserviced_match_refires_continuously() {
    let (flag, handle, clocks) = boot();
    let mut timer = CountdownTimer::new(handle, &clocks, 2);
    let mut controller = InterruptController::new();
    controller.unmask(TIMER_LINE);
    timer.enable();

    let fires = timer.advance(2);
    assert_eq!(fires, 1);
    controller.signal_event(TIMER_LINE);

    // Nobody clears the match flag: the line keeps demanding service
    // through the following intervals — observable, not a silent hang.
    for _ in 0..3 {
        let _ = timer.advance(2);
        assert!(timer.interrupt_asserted());
        assert!(controller.fires(&flag, TIMER_LINE));
    }
}

#[test]
fn disabled_timer_holds_still() {
    let (_flag, handle, clocks) = boot();
    let mut timer = CountdownTimer::new(handle, &clocks, 5);
    let fires = timer.advance(20);
    assert_eq!(fires, 0);
    assert!(!timer.interrupt_asserted());
    assert_eq!(timer.period(), 5);
}

#[test]
fn enable_restarts_from_full_period() {
    let (_flag, handle, clocks) = boot();
    let mut timer = CountdownTimer::new(handle, &clocks, 3);
    timer.enable();
    let _ = timer.advance(2);
    // Re-enabling counts from the period again.
    timer.enable();
    assert_eq!(timer.advance(2), 0);
    assert_eq!(timer.advance(1), 1);
}
