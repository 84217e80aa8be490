//! Interrupt dispatch table.
//!
//! The device has a fixed set of interrupt lines; the binding from line
//! to handler routine is static (the hardware vector table), so what the
//! controller models at runtime is the per-line mask bit and the latched
//! pending bit.  A line can preempt execution only when it is unmasked,
//! pending, and global preemption is enabled — so no interrupt can be
//! dispatched while any context is inside a critical section.
//!
//! A masked line discards events that arrive while it is masked; a line
//! that latched its pending bit while unmasked stays pending until the
//! handler explicitly clears it.

use vstd::prelude::*;

use crate::critical::PreemptionFlag;

verus! {

/// Number of interrupt lines the controller distinguishes.
pub const LINE_COUNT: usize = 16;

/// Runtime state of the interrupt controller: one mask bit and one
/// latched pending bit per line.
pub struct InterruptController {
    masked: Vec<bool>,
    pending: Vec<bool>,
}

impl InterruptController {
    /// The mask bits, one per line; `true` means the line cannot fire.
    pub closed spec fn masked_lines(&self) -> Seq<bool> {
        self.masked@
    }

    /// The latched pending bits, one per line.
    pub closed spec fn pending_lines(&self) -> Seq<bool> {
        self.pending@
    }

    /// Structural invariant: one bit of each kind per line.
    pub open spec fn wf(&self) -> bool {
        &&& self.masked_lines().len() == LINE_COUNT
        &&& self.pending_lines().len() == LINE_COUNT
    }

    /// Whether `line` may preempt execution right now: unmasked, pending,
    /// and global preemption enabled.
    pub open spec fn can_fire(&self, flag: PreemptionFlag, line: int) -> bool {
        &&& 0 <= line < LINE_COUNT
        &&& flag.is_enabled()
        &&& !self.masked_lines()[line]
        &&& self.pending_lines()[line]
    }

    /// Reset state: every line masked, nothing pending.
    pub fn new() -> (controller: Self)
        ensures
            controller.wf(),
            forall|line: int| 0 <= line < LINE_COUNT ==> controller.masked_lines()[line],
            forall|line: int| 0 <= line < LINE_COUNT ==> !controller.pending_lines()[line],
    {
        let mut masked: Vec<bool> = Vec::new();
        let mut pending: Vec<bool> = Vec::new();
        let mut filled: usize = 0;
        while filled < LINE_COUNT
            invariant
                filled <= LINE_COUNT,
                masked@.len() == filled,
                pending@.len() == filled,
                forall|line: int| 0 <= line < filled ==> masked@[line],
                forall|line: int| 0 <= line < filled ==> !pending@[line],
            decreases LINE_COUNT - filled,
        {
            masked.push(true);
            pending.push(false);
            filled = filled + 1;
        }
        InterruptController { masked, pending }
    }

    /// Mask a line: it can no longer preempt, and events arriving while
    /// masked are discarded rather than queued.
    pub fn mask(&mut self, line: usize)
        requires
            old(self).wf(),
            line < LINE_COUNT,
        ensures
            final(self).wf(),
            final(self).masked_lines() == old(self).masked_lines().update(line as int, true),
            final(self).pending_lines() == old(self).pending_lines(),
    {
        self.masked.set(line, true);
    }

    /// Unmask a line: the last step of peripheral setup, performed only
    /// once the peripheral and the shared state its handler touches are
    /// fully initialized.
    pub fn unmask(&mut self, line: usize)
        requires
            old(self).wf(),
            line < LINE_COUNT,
        ensures
            final(self).wf(),
            final(self).masked_lines() == old(self).masked_lines().update(line as int, false),
            final(self).pending_lines() == old(self).pending_lines(),
    {
        self.masked.set(line, false);
    }

    /// Whether a line is currently masked.
    pub fn is_masked(&self, line: usize) -> (masked: bool)
        requires
            self.wf(),
            line < LINE_COUNT,
        ensures
            masked == self.masked_lines()[line as int],
    {
        self.masked[line]
    }

    /// A hardware event arrives on `line`.  An unmasked line latches its
    /// pending bit (latching while already pending coalesces the events
    /// into one); a masked line discards the event.
    pub fn signal_event(&mut self, line: usize)
        requires
            old(self).wf(),
            line < LINE_COUNT,
        ensures
            final(self).wf(),
            final(self).masked_lines() == old(self).masked_lines(),
            !old(self).masked_lines()[line as int] ==> final(self).pending_lines() == old(
                self,
            ).pending_lines().update(line as int, true),
            old(self).masked_lines()[line as int] ==> final(self).pending_lines() == old(
                self,
            ).pending_lines(),
    {
        if !self.masked[line] {
            self.pending.set(line, true);
        }
    }

    /// Clear the latched pending bit of `line`: the handler's last duty
    /// before returning, without which the line re-fires immediately.
    pub fn clear_pending(&mut self, line: usize)
        requires
            old(self).wf(),
            line < LINE_COUNT,
        ensures
            final(self).wf(),
            final(self).masked_lines() == old(self).masked_lines(),
            final(self).pending_lines() == old(self).pending_lines().update(line as int, false),
    {
        self.pending.set(line, false);
    }

    /// Whether a line is currently pending.
    pub fn is_pending(&self, line: usize) -> (pending: bool)
        requires
            self.wf(),
            line < LINE_COUNT,
        ensures
            pending == self.pending_lines()[line as int],
    {
        self.pending[line]
    }

    /// Whether `line` may preempt execution right now.
    pub fn fires(&self, flag: &PreemptionFlag, line: usize) -> (firing: bool)
        requires
            self.wf(),
            line < LINE_COUNT,
        ensures
            firing == self.can_fire(*flag, line as int),
    {
        flag.currently_enabled() && !self.masked[line] && self.pending[line]
    }
}

/// Law: no interrupt can be dispatched while preemption is disabled —
/// inside a critical section, foreground and interrupt contexts cannot
/// interleave.
pub proof fn lemma_section_blocks_dispatch(
    controller: InterruptController,
    flag: PreemptionFlag,
    line: int,
)
    requires
        !flag.is_enabled(),
    ensures
        !controller.can_fire(flag, line),
{
}

} // verus!
