use mcu_core::critical::PreemptionFlag;
use mcu_core::critical::enter_critical_section;
use mcu_core::critical::leave_critical_section;
use mcu_core::registry::OwnershipRegistry;
use mcu_core::registry::RegistryError;

#[test]
fn take_succeeds_exactly_once() {
    let mut flag = PreemptionFlag::new();
    let mut registry = OwnershipRegistry::new();
    let token = enter_critical_section(&mut flag);

    assert!(registry.take(&token).is_ok());
    assert!(matches!(registry.take(&token), Err(RegistryError::AlreadyTaken)));
    assert!(matches!(registry.take(&token), Err(RegistryError::AlreadyTaken)));

    leave_critical_section(&mut flag, token);
}

#[test]
fn blocks_extract_once_each() {
    let mut flag = PreemptionFlag::new();
    let mut registry = OwnershipRegistry::new();
    let token = enter_critical_section(&mut flag);
    let mut set = registry.take(&token).unwrap();
    leave_critical_section(&mut flag, token);

    let timer = set.take_timer().unwrap();
    assert_eq!(timer.unit(), 15);
    assert!(matches!(set.take_timer(), Err(RegistryError::AlreadyTaken)));

    let spi = set.take_spi().unwrap();
    assert_eq!(spi.unit(), 2);
    assert!(matches!(set.take_spi(), Err(RegistryError::AlreadyTaken)));

    let gpio = set.take_gpio().unwrap();
    assert_eq!(gpio.bank(), 0);
    assert!(matches!(set.take_gpio(), Err(RegistryError::AlreadyTaken)));
}

#[test]
fn extracting_one_block_leaves_the_others() {
    let mut flag = PreemptionFlag::new();
    let mut registry = OwnershipRegistry::new();
    let token = enter_critical_section(&mut flag);
    let mut set = registry.take(&token).unwrap();
    leave_critical_section(&mut flag, token);

    let _spi = set.take_spi().unwrap();
    assert!(set.take_timer().is_ok());
    assert!(set.take_gpio().is_ok());
}
