//! GPIO pin state machine.
//!
//! A pin is identified by its port and number.  It starts unconfigured;
//! the only legal first transition gives it a mode (input, output or an
//! alternate function).  Only an output pin may drive its electrical
//! state, and only an input pin may arm an edge-triggered interrupt —
//! both orderings are enforced statically through `requires` clauses.

use vstd::prelude::*;

verus! {

/// A GPIO port (bank) of the device.
#[derive(Clone, Copy, PartialEq, Eq, Structural, Debug)]
pub enum Port {
    A,
    B,
    C,
}

/// The mode of a pin: the states of its configuration state machine.
#[derive(Clone, Copy, PartialEq, Eq, Structural, Debug)]
pub enum PinMode {
    /// Hardware-reset state; the pin drives nothing and may not be used.
    Unconfigured,
    /// High-impedance input; the only mode that may arm an edge interrupt.
    Input,
    /// Push-pull output whose level is driven by `set_state`.
    Output,
    /// Routed to the numbered alternate peripheral function.
    Alternate { function: u8 },
}

/// The signal transition an edge-triggered interrupt fires on.
#[derive(Clone, Copy, PartialEq, Eq, Structural, Debug)]
pub enum EdgeTrigger {
    Rising,
    Falling,
    Both,
}

impl EdgeTrigger {
    /// Whether an observed physical transition (falling or rising)
    /// matches this trigger.
    pub open spec fn matches_spec(&self, falling: bool) -> bool {
        match self {
            EdgeTrigger::Rising => !falling,
            EdgeTrigger::Falling => falling,
            EdgeTrigger::Both => true,
        }
    }

    /// Whether an observed physical transition matches this trigger.
    pub fn matches_edge(&self, falling: bool) -> (matched: bool)
        ensures
            matched == self.matches_spec(falling),
    {
        match self {
            EdgeTrigger::Rising => !falling,
            EdgeTrigger::Falling => falling,
            EdgeTrigger::Both => true,
        }
    }
}

/// Whether a physical transition on the pin (falling or rising) hits an
/// armed, matching edge trigger.
pub open spec fn edge_detected(pin: Pin, falling: bool) -> bool {
    match pin.armed_trigger() {
        Some(trigger) => trigger.matches_spec(falling),
        None => false,
    }
}

/// One GPIO pin with its configuration, driven level and interrupt
/// arming sub-state.
pub struct Pin {
    port: Port,
    number: u8,
    mode: PinMode,
    level: bool,
    edge: Option<EdgeTrigger>,
}

impl Pin {
    /// The port this pin belongs to.
    pub closed spec fn port_spec(&self) -> Port {
        self.port
    }

    /// The pin number within its port.
    pub closed spec fn number_spec(&self) -> u8 {
        self.number
    }

    /// The pin's current mode.
    pub closed spec fn mode_spec(&self) -> PinMode {
        self.mode
    }

    /// The electrical level last driven (or the hardware default, low).
    pub closed spec fn level_spec(&self) -> bool {
        self.level
    }

    /// The trigger of the armed edge interrupt, if any.
    pub closed spec fn armed_trigger(&self) -> Option<EdgeTrigger> {
        self.edge
    }

    /// Whether an edge interrupt is armed on this pin.
    pub open spec fn is_armed(&self) -> bool {
        self.armed_trigger() is Some
    }

    /// Structural invariant: a port has sixteen pins, and only an input
    /// pin may have an edge interrupt armed.
    pub open spec fn wf(&self) -> bool {
        &&& self.number_spec() < 16
        &&& self.is_armed() ==> self.mode_spec() is Input
    }

    /// Claim a pin in its hardware-reset state: unconfigured, level low,
    /// interrupt disarmed.
    pub fn new(port: Port, number: u8) -> (pin: Self)
        requires
            number < 16,
        ensures
            pin.wf(),
            pin.port_spec() == port,
            pin.number_spec() == number,
            pin.mode_spec() is Unconfigured,
            !pin.level_spec(),
            !pin.is_armed(),
    {
        Pin { port, number, mode: PinMode::Unconfigured, level: false, edge: None }
    }

    /// The only legal first transition: give the unconfigured pin a mode.
    pub fn configure(&mut self, mode: PinMode)
        requires
            old(self).wf(),
            old(self).mode_spec() is Unconfigured,
            !(mode is Unconfigured),
        ensures
            final(self).wf(),
            final(self).mode_spec() == mode,
            final(self).port_spec() == old(self).port_spec(),
            final(self).number_spec() == old(self).number_spec(),
            final(self).level_spec() == old(self).level_spec(),
            final(self).armed_trigger() == old(self).armed_trigger(),
    {
        self.mode = mode;
    }

    /// Drive the output level.  Requires output mode: the mode must be
    /// set before the state is driven.
    pub fn set_state(&mut self, high: bool)
        requires
            old(self).wf(),
            old(self).mode_spec() is Output,
        ensures
            final(self).wf(),
            final(self).level_spec() == high,
            final(self).mode_spec() == old(self).mode_spec(),
            final(self).port_spec() == old(self).port_spec(),
            final(self).number_spec() == old(self).number_spec(),
            final(self).armed_trigger() == old(self).armed_trigger(),
    {
        self.level = high;
    }

    /// Read the driven level.  Always well-defined: it reflects the last
    /// `set_state` call, or the hardware default before any.
    pub fn driven_state(&self) -> (high: bool)
        ensures
            high == self.level_spec(),
    {
        self.level
    }

    /// Arm an edge-triggered interrupt.  Requires input mode: the mode
    /// must be set before the interrupt is armed.
    pub fn arm_edge(&mut self, trigger: EdgeTrigger)
        requires
            old(self).wf(),
            old(self).mode_spec() is Input,
        ensures
            final(self).wf(),
            final(self).armed_trigger() == Some(trigger),
            final(self).mode_spec() == old(self).mode_spec(),
            final(self).port_spec() == old(self).port_spec(),
            final(self).number_spec() == old(self).number_spec(),
            final(self).level_spec() == old(self).level_spec(),
    {
        self.edge = Some(trigger);
    }

    /// The pin's current mode.
    pub fn mode(&self) -> (mode: PinMode)
        ensures
            mode == self.mode_spec(),
    {
        self.mode
    }

    /// The trigger of the armed edge interrupt, if any.
    pub fn armed_edge_trigger(&self) -> (trigger: Option<EdgeTrigger>)
        ensures
            trigger == self.armed_trigger(),
    {
        self.edge
    }

    /// Disarm the edge interrupt (used for debouncing or rate limiting).
    pub fn disarm_edge(&mut self)
        requires
            old(self).wf(),
        ensures
            final(self).wf(),
            !final(self).is_armed(),
            final(self).mode_spec() == old(self).mode_spec(),
            final(self).port_spec() == old(self).port_spec(),
            final(self).number_spec() == old(self).number_spec(),
            final(self).level_spec() == old(self).level_spec(),
    {
        self.edge = None;
    }
}

} // verus!
