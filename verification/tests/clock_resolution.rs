use mcu_core::clocks::BusDivider;
use mcu_core::clocks::ClockConfig;
use mcu_core::clocks::ClockError;
use mcu_core::clocks::ClockHardware;
use mcu_core::clocks::OscillatorSource;
use mcu_core::clocks::resolve;
use mcu_core::critical::PreemptionFlag;
use mcu_core::critical::enter_critical_section;
use mcu_core::critical::leave_critical_section;
use mcu_core::registry::OwnershipRegistry;
use mcu_core::spi::BaudRate;
use mcu_core::spi::Spi;

#[test]
fn default_config_resolves_to_max_sysclk() {
    let mut hw = ClockHardware::new(true);
    let config = ClockConfig::default();
    let resolved = resolve(&config, &mut hw).unwrap();
    // Internal oscillator 16 MHz * 10 / 2 = the 80 MHz ceiling.
    assert_eq!(resolved.sysclk(), 80_000_000);
    assert_eq!(resolved.ahb(), 80_000_000);
    assert_eq!(resolved.apb1(), 80_000_000);
    assert_eq!(resolved.apb2(), 80_000_000);
    assert_eq!(hw.committed(), Some(resolved));
}

#[test]
fn bus_dividers_divide_the_system_clock() {
    let mut hw = ClockHardware::new(true);
    let config = ClockConfig {
        source: OscillatorSource::Internal,
        pll_mul: 4,
        pll_div: 1,
        ahb_div: BusDivider::Div2,
        apb1_div: BusDivider::Div4,
        apb2_div: BusDivider::Div1,
    };
    let resolved = resolve(&config, &mut hw).unwrap();
    assert_eq!(resolved.sysclk(), 64_000_000);
    assert_eq!(resolved.ahb(), 32_000_000);
    assert_eq!(resolved.apb1(), 8_000_000);
    assert_eq!(resolved.apb2(), 32_000_000);
}

#[test]
fn out_of_range_target_fails_and_leaves_committed_clocks_unchanged() {
    let mut hw = ClockHardware::new(true);
    let good = ClockConfig::default();
    let resolved = resolve(&good, &mut hw).unwrap();
    assert_eq!(hw.committed(), Some(resolved));

    // 16 MHz * 16 / 1 = 256 MHz: far above the 80 MHz ceiling.
    let too_fast = ClockConfig { pll_mul: 16, pll_div: 1, ..good };
    assert_eq!(resolve(&too_fast, &mut hw), Err(ClockError::OutOfRange));
    // The earlier commitment is untouched: no partial commit.
    assert_eq!(hw.committed(), Some(resolved));
}

#[test]
fn out_of_range_pll_factors_fail() {
    let mut hw = ClockHardware::new(true);
    let config = ClockConfig { pll_mul: 0, ..ClockConfig::default() };
    assert_eq!(resolve(&config, &mut hw), Err(ClockError::OutOfRange));
    let config = ClockConfig { pll_mul: 17, ..ClockConfig::default() };
    assert_eq!(resolve(&config, &mut hw), Err(ClockError::OutOfRange));
    let config = ClockConfig { pll_div: 9, ..ClockConfig::default() };
    assert_eq!(resolve(&config, &mut hw), Err(ClockError::OutOfRange));
    assert_eq!(hw.committed(), None);
}

#[test]
fn external_source_outside_band_fails() {
    let mut hw = ClockHardware::new(true);
    let config = ClockConfig {
        source: OscillatorSource::External { hz: 1_000_000 },
        pll_mul: 8,
        pll_div: 1,
        ..ClockConfig::default()
    };
    assert_eq!(resolve(&config, &mut hw), Err(ClockError::OutOfRange));
    assert_eq!(hw.committed(), None);
}

#[test]
fn external_source_in_band_resolves() {
    let mut hw = ClockHardware::new(true);
    let config = ClockConfig {
        source: OscillatorSource::External { hz: 8_000_000 },
        pll_mul: 9,
        pll_div: 1,
        ..ClockConfig::default()
    };
    let resolved = resolve(&config, &mut hw).unwrap();
    assert_eq!(resolved.sysclk(), 72_000_000);
}

#[test]
fn unstable_oscillator_fails_without_commit() {
    let mut hw = ClockHardware::new(false);
    let config = ClockConfig::default();
    assert_eq!(resolve(&config, &mut hw), Err(ClockError::UnstableSource));
    assert_eq!(hw.committed(), None);
}

#[test]
fn clock_dependent_peripheral_is_built_from_resolved_clocks() {
    // A frequency-dependent peripheral can only be constructed after a
    // successful resolution, because its constructor demands the
    // ResolvedClocks value that only `resolve` produces.
    let mut flag = PreemptionFlag::new();
    let mut registry = OwnershipRegistry::new();
    let token = enter_critical_section(&mut flag);
    let mut set = registry.take(&token).unwrap();
    leave_critical_section(&mut flag, token);

    let mut hw = ClockHardware::new(true);
    let resolved = resolve(&ClockConfig::default(), &mut hw).unwrap();
    let spi = Spi::new(set.take_spi().unwrap(), &resolved, BaudRate::Div16);
    // APB1 80 MHz / 16 = 5 MHz kernel clock.
    assert_eq!(spi.clock_hz(), 5_000_000);
}
