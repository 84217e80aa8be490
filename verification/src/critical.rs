//! Critical-section primitive.
//!
//! A critical section disables asynchronous preemption for a scoped region
//! of foreground or handler code.  Entering a section yields a
//! [`ProofToken`], the caller's evidence that preemption is currently
//! disabled; the token is consumed again when the section is left, so it
//! cannot outlive the section.  Nested sections restore the state saved by
//! their own token, so the outermost exit restores exactly the state that
//! held before the outermost entry.

use vstd::prelude::*;

verus! {

/// Model of the processor's global preemption switch (the interrupt-enable
/// state that a real core keeps in a mask register).  `true` means
/// interrupts may preempt the current context.
pub struct PreemptionFlag {
    enabled: bool,
}

/// Capability witnessing that the holder is inside a critical section.
///
/// A token can only be produced by [`enter_critical_section`] and is
/// consumed by [`leave_critical_section`]; while it exists, the protected
/// operations of this crate accept it as evidence that preemption is
/// disabled.  It records the preemption state that held just before its
/// section was entered, so leaving restores that state rather than
/// unconditionally re-enabling.
pub struct ProofToken {
    saved: bool,
}

impl PreemptionFlag {
    /// Whether preemption is currently enabled.
    pub closed spec fn is_enabled(&self) -> bool {
        self.enabled
    }

    /// Power-on state: preemption enabled.
    pub fn new() -> (flag: Self)
        ensures
            flag.is_enabled(),
    {
        PreemptionFlag { enabled: true }
    }

    /// Read the preemption switch.
    pub fn currently_enabled(&self) -> (enabled: bool)
        ensures
            enabled == self.is_enabled(),
    {
        self.enabled
    }
}

impl ProofToken {
    /// The preemption state that held just before this token's section was
    /// entered, and that leaving the section restores.
    pub closed spec fn saved_state(&self) -> bool {
        self.saved
    }
}

/// Disable preemption and hand out the proof token for the new section.
///
/// The prior enabled/disabled state is saved inside the token, so nesting
/// is safe: an inner section entered while preemption is already disabled
/// restores "disabled" when it is left.
pub fn enter_critical_section(flag: &mut PreemptionFlag) -> (token: ProofToken)
    ensures
        !final(flag).is_enabled(),
        token.saved_state() == old(flag).is_enabled(),
{
    let saved = flag.enabled;
    flag.enabled = false;
    ProofToken { saved }
}

/// Leave a critical section, consuming its token and restoring the
/// preemption state that held before the section was entered.
pub fn leave_critical_section(flag: &mut PreemptionFlag, token: ProofToken)
    ensures
        final(flag).is_enabled() == token.saved_state(),
{
    flag.enabled = token.saved;
}

/// Run `body` inside its own critical section.
///
/// Preemption is disabled, `body` runs with the section's proof token,
/// and the prior preemption state is restored before the result is
/// handed back — on every exit path, since the section's token cannot
/// escape `body` and this crate's verified functions do not panic.
pub fn with_critical_section<R, F: FnOnce(&ProofToken) -> R>(
    flag: &mut PreemptionFlag,
    body: F,
) -> (result: R)
    requires
        forall|token: ProofToken| call_requires(body, (&token,)),
    ensures
        final(flag).is_enabled() == old(flag).is_enabled(),
        exists|token: ProofToken| call_ensures(body, (&token,), result),
{
    let token = enter_critical_section(flag);
    let result = body(&token);
    leave_critical_section(flag, token);
    result
}

/// Ghost model of the preemption switch together with the stack of states
/// saved by the live tokens of nested critical sections (outermost first).
pub struct SectionModel {
    pub enabled: bool,
    pub saved_stack: Seq<bool>,
}

/// Effect of entering one critical section on the model: preemption goes
/// off and the prior state is pushed onto the stack of saved states.
pub open spec fn enter_model(m: SectionModel) -> SectionModel {
    SectionModel { enabled: false, saved_stack: m.saved_stack.push(m.enabled) }
}

/// Effect of leaving the innermost critical section on the model: the most
/// recently saved state is popped and restored.
pub open spec fn leave_model(m: SectionModel) -> SectionModel
    recommends
        m.saved_stack.len() > 0,
{
    SectionModel { enabled: m.saved_stack.last(), saved_stack: m.saved_stack.drop_last() }
}

/// The model after entering `n` nested critical sections.
pub open spec fn enter_n(m: SectionModel, n: nat) -> SectionModel
    decreases n,
{
    if n == 0 {
        m
    } else {
        enter_model(enter_n(m, (n - 1) as nat))
    }
}

/// The model after leaving `n` nested critical sections.
pub open spec fn leave_n(m: SectionModel, n: nat) -> SectionModel
    decreases n,
{
    if n == 0 {
        m
    } else {
        leave_n(leave_model(m), (n - 1) as nat)
    }
}

/// Law: leaving the section entered last undoes that entry exactly.
pub proof fn lemma_leave_undoes_enter(m: SectionModel)
    ensures
        leave_model(enter_model(m)) == m,
{
    assert(m.saved_stack.push(m.enabled).last() == m.enabled);
    assert(m.saved_stack.push(m.enabled).drop_last() =~= m.saved_stack);
}

/// Law: for every sequence of nested `enter_critical_section` calls, the
/// preemption-enabled state after the outermost section is left equals the
/// state before the outermost section was entered (no net masking drift),
/// and every token has been consumed again.
pub proof fn lemma_balanced_sections_restore(m: SectionModel, n: nat)
    ensures
        leave_n(enter_n(m, n), n) == m,
    decreases n,
{
    if n > 0 {
        let inner = enter_n(m, (n - 1) as nat);
        lemma_leave_undoes_enter(inner);
        lemma_balanced_sections_restore(m, (n - 1) as nat);
    }
}

} // verus!
