//! Interrupt handler routines and the physical events that drive them.
//!
//! A handler preempts the foreground only through the dispatch contract
//! (unmasked line, latched pending bit, preemption enabled).  Every
//! handler here follows the same discipline: enter a critical section,
//! mutate shared state only through an interrupt-safe cell, clear the
//! hardware pending flag, and leave — restoring the preemption state it
//! found.  Handlers never block and never panic.

use vstd::prelude::*;

use crate::cell::InterruptSafeCell;
use crate::cell::LazyCell;
use crate::critical::PreemptionFlag;
use crate::critical::enter_critical_section;
use crate::critical::leave_critical_section;
use crate::dispatch::InterruptController;
use crate::dispatch::LINE_COUNT;
use crate::gpio::Pin;
use crate::gpio::edge_detected;
use crate::timer::CountdownTimer;
use crate::timer::clear_model;

verus! {

/// A physical signal transition reaches the interrupt controller: if the
/// pin has an armed trigger matching the transition, the event is raised
/// on `line` (latched if the line is unmasked, discarded if masked).
/// A transition that hits no armed trigger raises nothing, so no more
/// pending bits are ever latched than physical edges occurred.
pub fn physical_edge(pin: &Pin, falling: bool, controller: &mut InterruptController, line: usize)
    requires
        old(controller).wf(),
        line < LINE_COUNT,
    ensures
        final(controller).wf(),
        final(controller).masked_lines() == old(controller).masked_lines(),
        edge_detected(*pin, falling) && !old(controller).masked_lines()[line as int]
            ==> final(controller).pending_lines() == old(controller).pending_lines().update(
            line as int,
            true,
        ),
        !(edge_detected(*pin, falling) && !old(controller).masked_lines()[line as int])
            ==> final(controller).pending_lines() == old(controller).pending_lines(),
{
    let hit = match pin.armed_edge_trigger() {
        Some(trigger) => trigger.matches_edge(falling),
        None => false,
    };
    if hit {
        controller.signal_event(line);
    }
}

/// Handler for the edge-triggered input line: count the observed edge in
/// the protected counter and acknowledge the line.  One invocation
/// counts exactly one edge, however many physical edges coalesced into
/// the single latched pending bit.
pub fn edge_interrupt_handler(
    flag: &mut PreemptionFlag,
    controller: &mut InterruptController,
    counter: &mut InterruptSafeCell<u64>,
    line: usize,
)
    requires
        old(controller).wf(),
        line < LINE_COUNT,
        old(counter).contents() < u64::MAX,
    ensures
        final(flag).is_enabled() == old(flag).is_enabled(),
        final(controller).wf(),
        final(controller).masked_lines() == old(controller).masked_lines(),
        final(controller).pending_lines() == old(controller).pending_lines().update(
            line as int,
            false,
        ),
        final(counter).contents() == old(counter).contents() + 1,
{
    let token = enter_critical_section(flag);
    let current = *counter.borrow(&token);
    let _previous = counter.replace(&token, current + 1);
    controller.clear_pending(line);
    leave_critical_section(flag, token);
}

/// Handler for the countdown timer's line: count the elapsed interval
/// and explicitly clear both the timer's hardware match flag and the
/// controller's pending bit — omitting either would make the line
/// re-fire immediately.
pub fn timer_interrupt_handler(
    flag: &mut PreemptionFlag,
    controller: &mut InterruptController,
    timer: &mut CountdownTimer,
    elapsed_intervals: &mut InterruptSafeCell<u64>,
    line: usize,
)
    requires
        old(controller).wf(),
        old(timer).wf(),
        line < LINE_COUNT,
        old(elapsed_intervals).contents() < u64::MAX,
    ensures
        final(flag).is_enabled() == old(flag).is_enabled(),
        final(controller).wf(),
        final(controller).masked_lines() == old(controller).masked_lines(),
        final(controller).pending_lines() == old(controller).pending_lines().update(
            line as int,
            false,
        ),
        final(timer).wf(),
        final(timer).model() == clear_model(old(timer).model()),
        final(timer).unit_spec() == old(timer).unit_spec(),
        final(elapsed_intervals).contents() == old(elapsed_intervals).contents() + 1,
{
    let token = enter_critical_section(flag);
    let current = *elapsed_intervals.borrow(&token);
    let _previous = elapsed_intervals.replace(&token, current + 1);
    timer.clear_pending();
    controller.clear_pending(line);
    leave_critical_section(flag, token);
}

/// Handler whose shared state is deferred-initialized.  If the line was
/// unmasked before the cell was filled — the defined failure mode of
/// unmasking out of order — the handler observes the empty cell and
/// fails safely: it only acknowledges the line and changes nothing else.
pub fn deferred_counter_handler(
    flag: &mut PreemptionFlag,
    controller: &mut InterruptController,
    counter: &mut LazyCell<u64>,
    line: usize,
)
    requires
        old(controller).wf(),
        line < LINE_COUNT,
        old(counter).contents() matches Some(count) ==> count < u64::MAX,
    ensures
        final(flag).is_enabled() == old(flag).is_enabled(),
        final(controller).wf(),
        final(controller).masked_lines() == old(controller).masked_lines(),
        final(controller).pending_lines() == old(controller).pending_lines().update(
            line as int,
            false,
        ),
        old(counter).is_set() ==> final(counter).contents() == Some(
            (old(counter).contents().unwrap() + 1) as u64,
        ),
        !old(counter).is_set() ==> *final(counter) == *old(counter),
{
    let token = enter_critical_section(flag);
    let current = match counter.borrow_set(&token) {
        Ok(count) => Some(*count),
        Err(_) => None,
    };
    match current {
        Some(count) => {
            let _previous = counter.replace_set(&token, count + 1);
        },
        None => {},
    }
    controller.clear_pending(line);
    leave_critical_section(flag, token);
}

/// Ghost model of the edge-counting loop: how many physical edges have
/// hit the armed trigger of the unmasked line, whether one of them is
/// still latched unserviced, and the protected counter's value.
pub struct EdgeCountModel {
    pub edges: int,
    pub pending: bool,
    pub counter: int,
}

/// Boot state: no edges yet, nothing latched, counter at zero.
pub open spec fn edge_count_init() -> EdgeCountModel {
    EdgeCountModel { edges: 0, pending: false, counter: 0 }
}

/// A physical edge arrives: it latches the pending bit; edges arriving
/// while one is already latched coalesce into the same bit.
pub open spec fn edge_event(m: EdgeCountModel) -> EdgeCountModel {
    EdgeCountModel { edges: m.edges + 1, pending: true, counter: m.counter }
}

/// The handler services the line.  Hardware dispatches it only while
/// the pending bit is latched, and one invocation counts exactly one
/// edge and clears the bit (the contract of [`edge_interrupt_handler`]);
/// with nothing latched, nothing is dispatched and nothing changes.
pub open spec fn service_event(m: EdgeCountModel) -> EdgeCountModel {
    if m.pending {
        EdgeCountModel { edges: m.edges, pending: false, counter: m.counter + 1 }
    } else {
        m
    }
}

/// The model after a run of events; `true` is a physical edge, `false`
/// a handler service.
pub open spec fn run_edge_events(m: EdgeCountModel, events: Seq<bool>) -> EdgeCountModel
    decreases events.len(),
{
    if events.len() == 0 {
        m
    } else {
        let next = if events[0] {
            edge_event(m)
        } else {
            service_event(m)
        };
        run_edge_events(next, events.drop_first())
    }
}

/// Law: in every interleaving of physical edges and handler services,
/// the observed counter never exceeds the number of physical edges that
/// actually occurred — prompt service counts every edge, slow service
/// coalesces some, and nothing is ever counted twice.
pub proof fn lemma_counter_never_exceeds_edges(events: Seq<bool>)
    ensures
        ({
            let m = run_edge_events(edge_count_init(), events);
            m.counter + (if m.pending {
                1int
            } else {
                0int
            }) <= m.edges && m.counter <= m.edges
        }),
{
    lemma_edge_count_invariant(edge_count_init(), events);
}

/// Helper law: the counter-versus-edges bound is preserved by every
/// event from any state that satisfies it.
proof fn lemma_edge_count_invariant(m: EdgeCountModel, events: Seq<bool>)
    requires
        m.counter + (if m.pending {
            1int
        } else {
            0int
        }) <= m.edges,
        0 <= m.counter,
    ensures
        ({
            let end = run_edge_events(m, events);
            end.counter + (if end.pending {
                1int
            } else {
                0int
            }) <= end.edges && 0 <= end.counter
        }),
    decreases events.len(),
{
    if events.len() > 0 {
        let next = if events[0] {
            edge_event(m)
        } else {
            service_event(m)
        };
        lemma_edge_count_invariant(next, events.drop_first());
    }
}

} // verus!
