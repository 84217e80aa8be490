//! SPI peripheral model.
//!
//! The serial unit is constructed on an exclusively owned SPI block
//! against the committed clock tree; its kernel clock is the APB1 bus
//! clock divided by the chosen baud-rate prescaler.  A write transmits a
//! whole buffer as one blocking operation: the transmit log models the
//! byte stream that has left the device, in order.

use vstd::prelude::*;

use crate::clocks::ResolvedClocks;
use crate::registry::SpiHandle;

verus! {

/// The baud-rate prescaler: SPI kernel clock = APB1 clock / factor.
#[derive(Clone, Copy, PartialEq, Eq, Structural, Debug)]
pub enum BaudRate {
    Div2,
    Div4,
    Div8,
    Div16,
    Div32,
    Div64,
    Div128,
    Div256,
}

impl BaudRate {
    /// The division factor this prescaler applies.
    pub open spec fn factor(&self) -> int {
        match self {
            BaudRate::Div2 => 2,
            BaudRate::Div4 => 4,
            BaudRate::Div8 => 8,
            BaudRate::Div16 => 16,
            BaudRate::Div32 => 32,
            BaudRate::Div64 => 64,
            BaudRate::Div128 => 128,
            BaudRate::Div256 => 256,
        }
    }

    /// The division factor this prescaler applies.
    pub fn value(&self) -> (factor: u32)
        ensures
            factor == self.factor(),
    {
        match self {
            BaudRate::Div2 => 2,
            BaudRate::Div4 => 4,
            BaudRate::Div8 => 8,
            BaudRate::Div16 => 16,
            BaudRate::Div32 => 32,
            BaudRate::Div64 => 64,
            BaudRate::Div128 => 128,
            BaudRate::Div256 => 256,
        }
    }
}

/// One SPI unit in master mode, with its derived kernel clock and the
/// log of every byte it has shifted out.
pub struct Spi {
    unit: u8,
    clock_hz: u32,
    log: Vec<u8>,
}

impl Spi {
    /// The SPI unit this driver owns.
    pub closed spec fn unit_spec(&self) -> u8 {
        self.unit
    }

    /// The derived SPI kernel clock, in hertz.
    pub closed spec fn clock_spec(&self) -> int {
        self.clock_hz as int
    }

    /// Every byte transmitted so far, in order.
    pub closed spec fn transmitted(&self) -> Seq<u8> {
        self.log@
    }

    /// Construct the unit on an exclusively owned SPI block.  Taking
    /// [`ResolvedClocks`] by reference makes construction before clock
    /// resolution impossible.
    pub fn new(handle: SpiHandle, clocks: &ResolvedClocks, baud: BaudRate) -> (spi: Self)
        ensures
            spi.unit_spec() == handle.unit_spec(),
            spi.clock_spec() == clocks.apb1_spec() / baud.factor(),
            spi.transmitted() == Seq::<u8>::empty(),
    {
        let clock_hz = clocks.apb1() / baud.value();
        Spi { unit: handle.unit(), clock_hz, log: Vec::new() }
    }

    /// The derived SPI kernel clock, in hertz.
    pub fn clock_hz(&self) -> (hz: u32)
        ensures
            hz == self.clock_spec(),
    {
        self.clock_hz
    }

    /// The byte stream transmitted so far.
    pub fn log_bytes(&self) -> (bytes: &Vec<u8>)
        ensures
            bytes@ == self.transmitted(),
    {
        &self.log
    }

    /// Transmit a whole buffer as one blocking write: the call models
    /// returning only once every byte has been shifted out, appended in
    /// order to the transmit log.
    pub fn write_all(&mut self, bytes: &Vec<u8>)
        ensures
            final(self).transmitted() == old(self).transmitted() + bytes@,
            final(self).unit_spec() == old(self).unit_spec(),
            final(self).clock_spec() == old(self).clock_spec(),
    {
        let mut sent: usize = 0;
        while sent < bytes.len()
            invariant
                sent <= bytes@.len(),
                self.transmitted() == old(self).transmitted() + bytes@.subrange(0, sent as int),
                self.unit_spec() == old(self).unit_spec(),
                self.clock_spec() == old(self).clock_spec(),
            decreases bytes@.len() - sent,
        {
            self.log.push(bytes[sent]);
            proof {
                assert(bytes@.subrange(0, sent + 1) =~= bytes@.subrange(0, sent as int).push(
                    bytes@[sent as int],
                ));
                assert(self.transmitted() =~= old(self).transmitted() + bytes@.subrange(
                    0,
                    sent + 1,
                ));
            }
            sent = sent + 1;
        }
        proof {
            assert(bytes@.subrange(0, bytes@.len() as int) =~= bytes@);
        }
    }
}

} // verus!
