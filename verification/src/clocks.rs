//! Clock configuration resolver.
//!
//! A [`ClockConfig`] is a declarative request: an oscillator source and
//! the multiplier/divider chain to derive the system and bus clocks from
//! it.  [`resolve`] validates the request against the hardware-imposed
//! bounds and, only if every bound holds and the oscillator reports
//! stable, commits the derived tree to the clock-control hardware and
//! returns the read-only [`ResolvedClocks`].  A failed resolution leaves
//! the previously committed clock state untouched — there is no partial
//! commit.
//!
//! Every frequency-dependent peripheral constructor takes
//! `&ResolvedClocks` as a required input, and the only way to obtain a
//! `ResolvedClocks` value is a successful `resolve`: constructing such a
//! peripheral before resolution is rejected statically.

use vstd::prelude::*;

verus! {

/// Frequency of the internal oscillator, in hertz.
pub const INTERNAL_OSC_HZ: u32 = 16_000_000;

/// Highest system-clock frequency the hardware tolerates, in hertz.
pub const MAX_SYSCLK_HZ: u32 = 80_000_000;

/// Lowest admissible external-oscillator frequency, in hertz.
pub const MIN_EXTERNAL_HZ: u32 = 4_000_000;

/// Highest admissible external-oscillator frequency, in hertz.
pub const MAX_EXTERNAL_HZ: u32 = 48_000_000;

/// Largest admissible PLL multiplier.
pub const MAX_PLL_MUL: u8 = 16;

/// Largest admissible PLL divider.
pub const MAX_PLL_DIV: u8 = 8;

/// Failure modes of clock resolution.
#[derive(Clone, Copy, PartialEq, Eq, Structural, Debug)]
pub enum ClockError {
    /// A multiplier, divider, source frequency or the derived system
    /// clock lies outside the hardware-imposed bounds.
    OutOfRange,
    /// The requested oscillator failed to report stable within the
    /// bounded startup timeout.
    UnstableSource,
}

/// The oscillator the clock tree is derived from.
#[derive(Clone, Copy, PartialEq, Eq, Structural, Debug)]
pub enum OscillatorSource {
    /// The device's internal oscillator, fixed at [`INTERNAL_OSC_HZ`].
    Internal,
    /// An external crystal with the given frequency in hertz.
    External { hz: u32 },
}

/// A power-of-two bus prescaler.
#[derive(Clone, Copy, PartialEq, Eq, Structural, Debug)]
pub enum BusDivider {
    Div1,
    Div2,
    Div4,
    Div8,
    Div16,
}

impl BusDivider {
    /// The division factor this prescaler applies.
    pub open spec fn factor(&self) -> int {
        match self {
            BusDivider::Div1 => 1,
            BusDivider::Div2 => 2,
            BusDivider::Div4 => 4,
            BusDivider::Div8 => 8,
            BusDivider::Div16 => 16,
        }
    }

    /// The division factor this prescaler applies.
    pub fn value(&self) -> (factor: u32)
        ensures
            factor == self.factor(),
    {
        match self {
            BusDivider::Div1 => 1,
            BusDivider::Div2 => 2,
            BusDivider::Div4 => 4,
            BusDivider::Div8 => 8,
            BusDivider::Div16 => 16,
        }
    }
}

/// A declarative clock-tree request: source oscillator, PLL
/// multiplier/divider pair for the system clock, and the bus prescalers.
#[derive(Clone, Copy, PartialEq, Eq, Structural, Debug)]
pub struct ClockConfig {
    pub source: OscillatorSource,
    pub pll_mul: u8,
    pub pll_div: u8,
    pub ahb_div: BusDivider,
    pub apb1_div: BusDivider,
    pub apb2_div: BusDivider,
}

impl Default for ClockConfig {
    /// The boot default: internal oscillator multiplied up to the
    /// maximum admissible system clock, bus clocks undivided.
    fn default() -> (config: Self)
        ensures
            config == default_clock_config(),
    {
        ClockConfig {
            source: OscillatorSource::Internal,
            pll_mul: 10,
            pll_div: 2,
            ahb_div: BusDivider::Div1,
            apb1_div: BusDivider::Div1,
            apb2_div: BusDivider::Div1,
        }
    }
}

/// The boot-default clock request (internal oscillator, maximum speed).
pub open spec fn default_clock_config() -> ClockConfig {
    ClockConfig {
        source: OscillatorSource::Internal,
        pll_mul: 10,
        pll_div: 2,
        ahb_div: BusDivider::Div1,
        apb1_div: BusDivider::Div1,
        apb2_div: BusDivider::Div1,
    }
}

/// The frequency the configured oscillator delivers, in hertz.
pub open spec fn source_hz(source: OscillatorSource) -> int {
    match source {
        OscillatorSource::Internal => INTERNAL_OSC_HZ as int,
        OscillatorSource::External { hz } => hz as int,
    }
}

/// Whether the oscillator request lies within the admissible band.
pub open spec fn source_in_range(source: OscillatorSource) -> bool {
    match source {
        OscillatorSource::Internal => true,
        OscillatorSource::External { hz } => MIN_EXTERNAL_HZ <= hz <= MAX_EXTERNAL_HZ,
    }
}

/// The system clock the request derives, in hertz.
pub open spec fn spec_sysclk(config: ClockConfig) -> int {
    source_hz(config.source) * (config.pll_mul as int) / (config.pll_div as int)
}

/// The AHB bus clock the request derives, in hertz.
pub open spec fn spec_ahb(config: ClockConfig) -> int {
    spec_sysclk(config) / config.ahb_div.factor()
}

/// The APB1 bus clock the request derives, in hertz.
pub open spec fn spec_apb1(config: ClockConfig) -> int {
    spec_ahb(config) / config.apb1_div.factor()
}

/// The APB2 bus clock the request derives, in hertz.
pub open spec fn spec_apb2(config: ClockConfig) -> int {
    spec_ahb(config) / config.apb2_div.factor()
}

/// Whether the whole request lies within the hardware-imposed bounds:
/// admissible source band, admissible PLL factors, and a derived system
/// clock no higher than [`MAX_SYSCLK_HZ`].
pub open spec fn config_in_range(config: ClockConfig) -> bool {
    &&& source_in_range(config.source)
    &&& 1 <= config.pll_mul <= MAX_PLL_MUL
    &&& 1 <= config.pll_div <= MAX_PLL_DIV
    &&& spec_sysclk(config) <= MAX_SYSCLK_HZ
}

/// The committed, read-only outcome of a successful resolution: the
/// operating frequencies every later-constructed peripheral derives its
/// own timing from.  Values of this type are only created by [`resolve`].
#[derive(Clone, Copy, PartialEq, Eq, Structural, Debug)]
pub struct ResolvedClocks {
    sys: u32,
    ahb: u32,
    apb1: u32,
    apb2: u32,
}

impl ResolvedClocks {
    /// The committed system-clock frequency, in hertz.
    pub closed spec fn sysclk_spec(&self) -> int {
        self.sys as int
    }

    /// The committed AHB bus frequency, in hertz.
    pub closed spec fn ahb_spec(&self) -> int {
        self.ahb as int
    }

    /// The committed APB1 bus frequency, in hertz.
    pub closed spec fn apb1_spec(&self) -> int {
        self.apb1 as int
    }

    /// The committed APB2 bus frequency, in hertz.
    pub closed spec fn apb2_spec(&self) -> int {
        self.apb2 as int
    }

    /// The committed system-clock frequency, in hertz.
    pub fn sysclk(&self) -> (hz: u32)
        ensures
            hz == self.sysclk_spec(),
    {
        self.sys
    }

    /// The committed AHB bus frequency, in hertz.
    pub fn ahb(&self) -> (hz: u32)
        ensures
            hz == self.ahb_spec(),
    {
        self.ahb
    }

    /// The committed APB1 bus frequency, in hertz.
    pub fn apb1(&self) -> (hz: u32)
        ensures
            hz == self.apb1_spec(),
    {
        self.apb1
    }

    /// The committed APB2 bus frequency, in hertz.
    pub fn apb2(&self) -> (hz: u32)
        ensures
            hz == self.apb2_spec(),
    {
        self.apb2
    }

    /// Whether this value carries exactly the frequencies derived from
    /// `config`.
    pub open spec fn matches_config(&self, config: ClockConfig) -> bool {
        &&& self.sysclk_spec() == spec_sysclk(config)
        &&& self.ahb_spec() == spec_ahb(config)
        &&& self.apb1_spec() == spec_apb1(config)
        &&& self.apb2_spec() == spec_apb2(config)
    }
}

/// Model of the clock-control hardware: the committed clock tree (none at
/// power-on) and whether the oscillator stabilizes within the bounded
/// startup timeout (an environment fact the resolver spin-waits on).
pub struct ClockHardware {
    committed: Option<ResolvedClocks>,
    osc_stabilizes: bool,
}

impl ClockHardware {
    /// The clock tree committed so far, if any.
    pub closed spec fn committed_spec(&self) -> Option<ResolvedClocks> {
        self.committed
    }

    /// Whether the oscillator reports stable within the startup timeout.
    pub closed spec fn osc_stable_spec(&self) -> bool {
        self.osc_stabilizes
    }

    /// Power-on state: nothing committed.  `osc_stabilizes` fixes how the
    /// oscillator of this device behaves during startup.
    pub fn new(osc_stabilizes: bool) -> (hw: Self)
        ensures
            hw.committed_spec() is None,
            hw.osc_stable_spec() == osc_stabilizes,
    {
        ClockHardware { committed: None, osc_stabilizes }
    }

    /// The clock tree committed so far, if any.
    pub fn committed(&self) -> (committed: Option<ResolvedClocks>)
        ensures
            committed == self.committed_spec(),
    {
        self.committed
    }
}

/// Validate a clock request and, on success, commit the derived tree to
/// the clock hardware in one step, returning the resolved frequencies.
///
/// * An out-of-range request fails with [`ClockError::OutOfRange`];
/// * an in-range request whose oscillator does not stabilize within the
///   timeout fails with [`ClockError::UnstableSource`];
/// * either failure leaves the previously committed clock state exactly
///   as it was (no partial commit);
/// * success commits frequencies that match the request and returns them.
pub fn resolve(config: &ClockConfig, hw: &mut ClockHardware) -> (result: Result<
    ResolvedClocks,
    ClockError,
>)
    ensures
        result is Ok <==> config_in_range(*config) && old(hw).osc_stable_spec(),
        !config_in_range(*config) ==> result == Err::<ResolvedClocks, ClockError>(
            ClockError::OutOfRange,
        ) && *final(hw) == *old(hw),
        config_in_range(*config) && !old(hw).osc_stable_spec() ==> result == Err::<
            ResolvedClocks,
            ClockError,
        >(ClockError::UnstableSource) && *final(hw) == *old(hw),
        result matches Ok(resolved) ==> resolved.matches_config(*config)
            && final(hw).committed_spec() == Some(resolved)
            && final(hw).osc_stable_spec() == old(hw).osc_stable_spec(),
{
    let base: u32 = match config.source {
        OscillatorSource::Internal => INTERNAL_OSC_HZ,
        OscillatorSource::External { hz } => {
            if hz < MIN_EXTERNAL_HZ || hz > MAX_EXTERNAL_HZ {
                return Err(ClockError::OutOfRange);
            }
            hz
        },
    };
    if config.pll_mul < 1 || config.pll_mul > MAX_PLL_MUL {
        return Err(ClockError::OutOfRange);
    }
    if config.pll_div < 1 || config.pll_div > MAX_PLL_DIV {
        return Err(ClockError::OutOfRange);
    }
    let mul: u8 = config.pll_mul;
    proof {
        assert((base as int) * (mul as int) <= (u32::MAX as int) * 16) by (nonlinear_arith)
            requires
                0 <= base <= u32::MAX as int,
                0 <= mul <= 16,
        ;
    }
    let sys_wide: u64 = (base as u64) * (mul as u64) / (config.pll_div as u64);
    if sys_wide > MAX_SYSCLK_HZ as u64 {
        return Err(ClockError::OutOfRange);
    }
    // The request is in range; enable the source and wait (bounded) for
    // it to report stable before touching the system clock switch.
    if !hw.osc_stabilizes {
        return Err(ClockError::UnstableSource);
    }
    let sys: u32 = sys_wide as u32;
    let ahb: u32 = sys / config.ahb_div.value();
    let apb1: u32 = ahb / config.apb1_div.value();
    let apb2: u32 = ahb / config.apb2_div.value();
    let resolved = ResolvedClocks { sys, ahb, apb1, apb2 };
    hw.committed = Some(resolved);
    Ok(resolved)
}

} // verus!
