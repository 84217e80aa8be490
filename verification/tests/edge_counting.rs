use mcu_core::cell::CellError;
use mcu_core::cell::InterruptSafeCell;
use mcu_core::cell::LazyCell;
use mcu_core::critical::PreemptionFlag;
use mcu_core::critical::enter_critical_section;
use mcu_core::critical::leave_critical_section;
use mcu_core::dispatch::InterruptController;
use mcu_core::gpio::EdgeTrigger;
use mcu_core::gpio::Pin;
use mcu_core::gpio::PinMode;
use mcu_core::gpio::Port;
use mcu_core::handlers::deferred_counter_handler;
use mcu_core::handlers::edge_interrupt_handler;
use mcu_core::handlers::physical_edge;

const BUTTON_LINE: usize = 13;

fn armed_button() -> Pin {
    let mut button = Pin::new(Port::C, 13);
    button.configure(PinMode::Input);
    button.arm_edge(EdgeTrigger::Falling);
    button
}

#[test]
fn n_edges_with_prompt_service_count_exactly_n() {
    let mut flag = PreemptionFlag::new();
    let mut controller = InterruptController::new();
    let button = armed_button();
    let mut counter: InterruptSafeCell<u64> = InterruptSafeCell::new(0);
    controller.unmask(BUTTON_LINE);

    let edges = 5u64;
    for _ in 0..edges {
        physical_edge(&button, true, &mut controller, BUTTON_LINE);
        // Service time < inter-edge interval: the handler runs before
        // the next edge arrives.
        assert!(controller.fires(&flag, BUTTON_LINE));
        edge_interrupt_handler(&mut flag, &mut controller, &mut counter, BUTTON_LINE);
    }

    let token = enter_critical_section(&mut flag);
    assert_eq!(*counter.borrow(&token), edges);
    leave_critical_section(&mut flag, token);
}

#[test]
fn coalesced_edges_count_at_most_n_and_at_least_one_signal() {
    let mut flag = PreemptionFlag::new();
    let mut controller = InterruptController::new();
    let button = armed_button();
    let mut counter: InterruptSafeCell<u64> = InterruptSafeCell::new(0);
    controller.unmask(BUTTON_LINE);

    // Service time > inter-edge interval: three physical edges arrive
    // before the handler runs; they coalesce into one latched bit.
    for _ in 0..3 {
        physical_edge(&button, true, &mut controller, BUTTON_LINE);
    }
    assert!(controller.fires(&flag, BUTTON_LINE));
    edge_interrupt_handler(&mut flag, &mut controller, &mut counter, BUTTON_LINE);
    assert!(!controller.fires(&flag, BUTTON_LINE));

    let token = enter_critical_section(&mut flag);
    let observed = *counter.borrow(&token);
    leave_critical_section(&mut flag, token);
    // Coalesced: at least one signal, never more than the physical edges.
    assert_eq!(observed, 1);
    assert!(observed >= 1 && observed <= 3);
}

#[test]
fn non_matching_transition_raises_nothing() {
    let mut controller = InterruptController::new();
    let button = armed_button();
    controller.unmask(BUTTON_LINE);
    // A rising transition does not hit the falling-edge trigger.
    physical_edge(&button, false, &mut controller, BUTTON_LINE);
    assert!(!controller.is_pending(BUTTON_LINE));
}

#[test]
fn disarmed_pin_raises_nothing() {
    let mut controller = InterruptController::new();
    let mut button = armed_button();
    button.disarm_edge();
    controller.unmask(BUTTON_LINE);
    physical_edge(&button, true, &mut controller, BUTTON_LINE);
    assert!(!controller.is_pending(BUTTON_LINE));
}

#[test]
fn handler_with_uninitialized_cell_fails_safely() {
    let mut flag = PreemptionFlag::new();
    let mut controller = InterruptController::new();
    let button = armed_button();
    let mut counter: LazyCell<u64> = LazyCell::new_unset();
    // The failure mode: the line is unmasked before the shared state
    // exists.  The handler must no-op, not dereference absent state.
    controller.unmask(BUTTON_LINE);
    physical_edge(&button, true, &mut controller, BUTTON_LINE);
    deferred_counter_handler(&mut flag, &mut controller, &mut counter, BUTTON_LINE);
    assert!(!controller.is_pending(BUTTON_LINE));
    assert!(flag.currently_enabled());

    // Once the cell is initialized the same handler counts normally.
    let token = enter_critical_section(&mut flag);
    assert_eq!(counter.borrow_set(&token).err(), Some(CellError::NotSet));
    assert!(counter.set_once(&token, 0).is_ok());
    leave_critical_section(&mut flag, token);

    physical_edge(&button, true, &mut controller, BUTTON_LINE);
    deferred_counter_handler(&mut flag, &mut controller, &mut counter, BUTTON_LINE);
    let token = enter_critical_section(&mut flag);
    assert_eq!(counter.borrow_set(&token).copied(), Ok(1));
    leave_critical_section(&mut flag, token);
}
