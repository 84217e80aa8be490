use mcu_core::critical::PreemptionFlag;
use mcu_core::critical::enter_critical_section;
use mcu_core::critical::leave_critical_section;
use mcu_core::critical::with_critical_section;

#[test]
fn enter_disables_and_leave_restores() {
    let mut flag = PreemptionFlag::new();
    assert!(flag.currently_enabled());

    let token = enter_critical_section(&mut flag);
    assert!(!flag.currently_enabled());

    leave_critical_section(&mut flag, token);
    assert!(flag.currently_enabled());
}

#[test]
fn nested_sections_restore_outer_state() {
    let mut flag = PreemptionFlag::new();

    let outer = enter_critical_section(&mut flag);
    assert!(!flag.currently_enabled());

    let inner = enter_critical_section(&mut flag);
    assert!(!flag.currently_enabled());

    leave_critical_section(&mut flag, inner);
    // The inner exit restores the state the inner entry saw: disabled.
    assert!(!flag.currently_enabled());

    leave_critical_section(&mut flag, outer);
    // The outermost exit restores the original state: enabled.
    assert!(flag.currently_enabled());
}

#[test]
fn scoped_section_restores_state_and_returns_body_result() {
    let mut flag = PreemptionFlag::new();
    let result = with_critical_section(&mut flag, |_token| 41 + 1);
    assert_eq!(result, 42);
    assert!(flag.currently_enabled());

    // Inside an outer section the scoped form restores "disabled".
    let outer = enter_critical_section(&mut flag);
    let result = with_critical_section(&mut flag, |_token| "done");
    assert_eq!(result, "done");
    assert!(!flag.currently_enabled());
    leave_critical_section(&mut flag, outer);
    assert!(flag.currently_enabled());
}

#[test]
fn three_deep_nesting_has_no_masking_drift() {
    let mut flag = PreemptionFlag::new();
    let t1 = enter_critical_section(&mut flag);
    let t2 = enter_critical_section(&mut flag);
    let t3 = enter_critical_section(&mut flag);
    assert!(!flag.currently_enabled());
    leave_critical_section(&mut flag, t3);
    leave_critical_section(&mut flag, t2);
    assert!(!flag.currently_enabled());
    leave_critical_section(&mut flag, t1);
    assert!(flag.currently_enabled());
}
