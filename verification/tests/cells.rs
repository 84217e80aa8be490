use mcu_core::cell::CellError;
use mcu_core::cell::InterruptSafeCell;
use mcu_core::cell::LazyCell;
use mcu_core::critical::PreemptionFlag;
use mcu_core::critical::enter_critical_section;
use mcu_core::critical::leave_critical_section;

#[test]
fn replace_then_borrow_observes_new_value() {
    let mut flag = PreemptionFlag::new();
    let mut cell: InterruptSafeCell<u32> = InterruptSafeCell::new(5);

    let token = enter_critical_section(&mut flag);
    let previous = cell.replace(&token, 7);
    assert_eq!(previous, 5);
    // Same critical section: the read sees exactly what was written.
    assert_eq!(*cell.borrow(&token), 7);
    leave_critical_section(&mut flag, token);
}

#[test]
fn initial_value_is_observable() {
    let mut flag = PreemptionFlag::new();
    let cell: InterruptSafeCell<i64> = InterruptSafeCell::new(-3);
    let token = enter_critical_section(&mut flag);
    assert_eq!(*cell.borrow(&token), -3);
    leave_critical_section(&mut flag, token);
}

#[test]
fn lazy_cell_set_once_then_borrow() {
    let mut flag = PreemptionFlag::new();
    let mut cell: LazyCell<u32> = LazyCell::new_unset();
    let token = enter_critical_section(&mut flag);

    assert!(cell.set_once(&token, 42).is_ok());
    match cell.borrow_set(&token) {
        Ok(value) => assert_eq!(*value, 42),
        Err(_) => panic!("initialized cell must be readable"),
    }
    leave_critical_section(&mut flag, token);
}

#[test]
fn lazy_cell_second_set_fails_and_keeps_first() {
    let mut flag = PreemptionFlag::new();
    let mut cell: LazyCell<u32> = LazyCell::new_unset();
    let token = enter_critical_section(&mut flag);

    assert!(cell.set_once(&token, 1).is_ok());
    assert_eq!(cell.set_once(&token, 2), Err(CellError::AlreadySet));
    match cell.borrow_set(&token) {
        Ok(value) => assert_eq!(*value, 1),
        Err(_) => panic!("initialized cell must be readable"),
    }
    leave_critical_section(&mut flag, token);
}

#[test]
fn lazy_cell_read_before_init_fails() {
    let mut flag = PreemptionFlag::new();
    let cell: LazyCell<u32> = LazyCell::new_unset();
    let token = enter_critical_section(&mut flag);
    assert_eq!(cell.borrow_set(&token).err(), Some(CellError::NotSet));
    leave_critical_section(&mut flag, token);
}

#[test]
fn lazy_cell_replace_before_init_fails() {
    let mut flag = PreemptionFlag::new();
    let mut cell: LazyCell<u32> = LazyCell::new_unset();
    let token = enter_critical_section(&mut flag);
    assert_eq!(cell.replace_set(&token, 9), Err(CellError::NotSet));
    assert_eq!(cell.borrow_set(&token).err(), Some(CellError::NotSet));
    leave_critical_section(&mut flag, token);
}

#[test]
fn lazy_cell_replace_after_init_returns_previous() {
    let mut flag = PreemptionFlag::new();
    let mut cell: LazyCell<u32> = LazyCell::new_unset();
    let token = enter_critical_section(&mut flag);
    assert!(cell.set_once(&token, 10).is_ok());
    assert_eq!(cell.replace_set(&token, 11), Ok(10));
    match cell.borrow_set(&token) {
        Ok(value) => assert_eq!(*value, 11),
        Err(_) => panic!("initialized cell must be readable"),
    }
    leave_critical_section(&mut flag, token);
}
