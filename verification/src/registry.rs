//! Peripheral ownership registry.
//!
//! Every physical hardware block (a timer unit, a GPIO bank, an SPI unit)
//! must have exactly one owner for the whole process lifetime.  The
//! registry enforces that with a one-shot take protocol: the first call to
//! [`OwnershipRegistry::take`] hands out the complete [`PeripheralSet`],
//! every later call fails with [`RegistryError::AlreadyTaken`].  The
//! internal one-shot flag is itself consulted only under a
//! critical-section token, so two early-boot contexts racing on `take`
//! cannot both succeed.
//!
//! Individual blocks are extracted from the set by value, transferring
//! ownership; once extracted, a block cannot be re-acquired from the set.

use vstd::prelude::*;

use crate::critical::ProofToken;

verus! {

/// Failure modes of the ownership protocol.
#[derive(Clone, Copy, PartialEq, Eq, Structural, Debug)]
pub enum RegistryError {
    /// The peripherals, or the requested block, were already handed out.
    AlreadyTaken,
}

/// Exclusive ownership of one timer unit.
pub struct TimerHandle {
    unit: u8,
}

impl TimerHandle {
    /// The timer unit number this handle owns.
    pub closed spec fn unit_spec(&self) -> u8 {
        self.unit
    }

    /// The timer unit number this handle owns.
    pub fn unit(&self) -> (unit: u8)
        ensures
            unit == self.unit_spec(),
    {
        self.unit
    }
}

/// Exclusive ownership of one SPI unit.
pub struct SpiHandle {
    unit: u8,
}

impl SpiHandle {
    /// The SPI unit number this handle owns.
    pub closed spec fn unit_spec(&self) -> u8 {
        self.unit
    }

    /// The SPI unit number this handle owns.
    pub fn unit(&self) -> (unit: u8)
        ensures
            unit == self.unit_spec(),
    {
        self.unit
    }
}

/// Exclusive ownership of one GPIO bank.
pub struct GpioHandle {
    bank: u8,
}

impl GpioHandle {
    /// The bank number this handle owns.
    pub closed spec fn bank_spec(&self) -> u8 {
        self.bank
    }

    /// The bank number this handle owns.
    pub fn bank(&self) -> (bank: u8)
        ensures
            bank == self.bank_spec(),
    {
        self.bank
    }
}

/// The full set of peripheral blocks of the device, handed out exactly
/// once by the registry.  Each block is extracted by value.
pub struct PeripheralSet {
    timer: Option<TimerHandle>,
    spi: Option<SpiHandle>,
    gpio: Option<GpioHandle>,
}

impl PeripheralSet {
    /// Whether the timer block is still in the set.
    pub closed spec fn has_timer(&self) -> bool {
        self.timer is Some
    }

    /// Whether the SPI block is still in the set.
    pub closed spec fn has_spi(&self) -> bool {
        self.spi is Some
    }

    /// Whether the GPIO block is still in the set.
    pub closed spec fn has_gpio(&self) -> bool {
        self.gpio is Some
    }

    /// Whether no block has been extracted yet.
    pub open spec fn is_complete(&self) -> bool {
        self.has_timer() && self.has_spi() && self.has_gpio()
    }

    /// Extract the timer block, transferring its ownership to the caller.
    /// A second extraction fails: the block has exactly one owner.
    pub fn take_timer(&mut self) -> (result: Result<TimerHandle, RegistryError>)
        ensures
            old(self).has_timer() ==> result is Ok && !final(self).has_timer(),
            !old(self).has_timer() ==> result == Err::<TimerHandle, RegistryError>(
                RegistryError::AlreadyTaken,
            ) && *final(self) == *old(self),
            final(self).has_spi() == old(self).has_spi(),
            final(self).has_gpio() == old(self).has_gpio(),
    {
        let mut holder: Option<TimerHandle> = None;
        core::mem::swap(&mut self.timer, &mut holder);
        match holder {
            Some(handle) => Ok(handle),
            None => Err(RegistryError::AlreadyTaken),
        }
    }

    /// Extract the SPI block, transferring its ownership to the caller.
    pub fn take_spi(&mut self) -> (result: Result<SpiHandle, RegistryError>)
        ensures
            old(self).has_spi() ==> result is Ok && !final(self).has_spi(),
            !old(self).has_spi() ==> result == Err::<SpiHandle, RegistryError>(
                RegistryError::AlreadyTaken,
            ) && *final(self) == *old(self),
            final(self).has_timer() == old(self).has_timer(),
            final(self).has_gpio() == old(self).has_gpio(),
    {
        let mut holder: Option<SpiHandle> = None;
        core::mem::swap(&mut self.spi, &mut holder);
        match holder {
            Some(handle) => Ok(handle),
            None => Err(RegistryError::AlreadyTaken),
        }
    }

    /// Extract the GPIO bank, transferring its ownership to the caller.
    pub fn take_gpio(&mut self) -> (result: Result<GpioHandle, RegistryError>)
        ensures
            old(self).has_gpio() ==> result is Ok && !final(self).has_gpio(),
            !old(self).has_gpio() ==> result == Err::<GpioHandle, RegistryError>(
                RegistryError::AlreadyTaken,
            ) && *final(self) == *old(self),
            final(self).has_timer() == old(self).has_timer(),
            final(self).has_spi() == old(self).has_spi(),
    {
        let mut holder: Option<GpioHandle> = None;
        core::mem::swap(&mut self.gpio, &mut holder);
        match holder {
            Some(handle) => Ok(handle),
            None => Err(RegistryError::AlreadyTaken),
        }
    }
}

/// The one-shot registry guarding the device's peripheral set.
pub struct OwnershipRegistry {
    taken: bool,
}

impl OwnershipRegistry {
    /// Whether the peripheral set has already been handed out.
    pub closed spec fn is_taken(&self) -> bool {
        self.taken
    }

    /// Power-on state: nothing handed out yet.
    pub fn new() -> (registry: Self)
        ensures
            !registry.is_taken(),
    {
        OwnershipRegistry { taken: false }
    }

    /// Take ownership of all peripherals, exactly once.  The flag is read
    /// and set under the caller's critical-section token, so the check and
    /// the commitment are atomic with respect to interrupts.  A second
    /// call fails with [`RegistryError::AlreadyTaken`] — a fatal
    /// initialization error, since partitioned ownership would otherwise
    /// be violated for the rest of the process lifetime.
    pub fn take(&mut self, _token: &ProofToken) -> (result: Result<PeripheralSet, RegistryError>)
        ensures
            final(self).is_taken(),
            result is Ok <==> !old(self).is_taken(),
            result matches Ok(set) ==> set.is_complete(),
            old(self).is_taken() ==> result == Err::<PeripheralSet, RegistryError>(
                RegistryError::AlreadyTaken,
            ),
    {
        if self.taken {
            Err(RegistryError::AlreadyTaken)
        } else {
            self.taken = true;
            Ok(PeripheralSet {
                timer: Some(TimerHandle { unit: 15 }),
                spi: Some(SpiHandle { unit: 2 }),
                gpio: Some(GpioHandle { bank: 0 }),
            })
        }
    }
}

/// One step of the take protocol on the one-shot flag: the flag is set
/// afterwards in every case, and the call succeeds exactly when the flag
/// was still clear.
pub open spec fn take_transition(taken: bool) -> (bool, bool) {
    (true, !taken)
}

/// The one-shot flag after `n` calls to `take` on a fresh registry.
pub open spec fn taken_after(n: nat) -> bool
    decreases n,
{
    if n == 0 {
        false
    } else {
        take_transition(taken_after((n - 1) as nat)).0
    }
}

/// Whether call number `i` (0-based) of a run of `take` calls on a fresh
/// registry succeeds.
pub open spec fn take_call_succeeds(i: nat) -> bool {
    take_transition(taken_after(i)).1
}

/// Law: on a fresh registry, `take` succeeds exactly once per process
/// lifetime — the first call succeeds and every subsequent call fails.
pub proof fn lemma_take_succeeds_exactly_once(i: nat)
    ensures
        take_call_succeeds(i) <==> i == 0,
{
}

} // verus!
