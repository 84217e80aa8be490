//! Interrupt-safety and initialization-ordering core for microcontroller
//! firmware.
//!
//! The crate models the concurrency discipline that makes it safe to share
//! hardware-backed state between a single foreground context and asynchronous
//! interrupt handlers:
//!
//! * a critical-section primitive that disables preemption for a scoped
//!   region and hands out a proof token ([`critical`]);
//! * containers whose contents can only be touched while holding such a
//!   token ([`cell`]);
//! * a one-time-take registry that gives every physical peripheral block
//!   exactly one owner ([`registry`]);
//! * a clock-configuration resolver whose committed output gates the
//!   construction of every frequency-dependent peripheral ([`clocks`]);
//! * an interrupt controller with per-line mask and pending state
//!   ([`dispatch`]) and the handler routines driven by it ([`handlers`]);
//! * small peripheral state machines: GPIO pins ([`gpio`]), a countdown
//!   timer ([`timer`]), an SPI unit ([`spi`]) and the serial-driven LED
//!   string codec it transmits ([`led`]).

pub mod cell;
pub mod clocks;
pub mod critical;
pub mod dispatch;
pub mod gpio;
pub mod handlers;
pub mod led;
pub mod registry;
pub mod spi;
pub mod timer;
