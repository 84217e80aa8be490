//! Interrupt-safe shared-state containers.
//!
//! Data shared between the foreground context and interrupt handlers must
//! never be touched as a bare variable: a handler preempting a foreground
//! read mid-way would produce a torn value.  The containers here therefore
//! demand a [`ProofToken`](crate::critical::ProofToken) for every read and
//! write, so a call site that is not inside a critical section does not
//! compile.
//!
//! [`InterruptSafeCell`] wraps a plain value; [`LazyCell`] wraps an
//! optional value for deferred initialization (a cell that starts empty at
//! boot and is filled once the owning peripheral has been constructed).

use vstd::prelude::*;

use crate::critical::ProofToken;

verus! {

/// Failure modes of the protected containers.
#[derive(Clone, Copy, PartialEq, Eq, Structural, Debug)]
pub enum CellError {
    /// `set_once` was called on a cell that already holds a value.
    AlreadySet,
    /// A read was attempted on a cell that has not been initialized yet.
    NotSet,
}

/// A container whose value may only be observed or replaced while the
/// caller holds a critical-section proof token.
pub struct InterruptSafeCell<T> {
    value: T,
}

/// The contents an [`InterruptSafeCell`] holds after a replacement.
pub closed spec fn cell_after_replace<T>(cell: InterruptSafeCell<T>, new_value: T) -> InterruptSafeCell<T> {
    InterruptSafeCell { value: new_value }
}

impl<T> InterruptSafeCell<T> {
    /// The value currently held.
    pub closed spec fn contents(&self) -> T {
        self.value
    }

    /// Create a cell with its fixed initial value (done once, before any
    /// interrupt that touches the cell is unmasked).
    pub fn new(initial: T) -> (cell: Self)
        ensures
            cell.contents() == initial,
    {
        InterruptSafeCell { value: initial }
    }

    /// Read the protected value.  The token is the evidence that the
    /// caller is inside a critical section, so no interrupt-context write
    /// can interleave with this read.
    pub fn borrow<'a>(&'a self, _token: &ProofToken) -> (value: &'a T)
        ensures
            *value == self.contents(),
    {
        &self.value
    }

    /// Replace the protected value, returning the previous one.
    pub fn replace(&mut self, _token: &ProofToken, new_value: T) -> (previous: T)
        ensures
            *final(self) == cell_after_replace(*old(self), new_value),
            final(self).contents() == new_value,
            previous == old(self).contents(),
    {
        let mut holder = new_value;
        core::mem::swap(&mut self.value, &mut holder);
        holder
    }
}

/// Law: within one critical section a replacement is immediately visible;
/// the contents observed after `replace(token, v)` are exactly `v`.
/// Interrupt-context writes cannot intervene while the token is held,
/// because dispatching an interrupt requires preemption to be enabled
/// (see [`crate::dispatch::lemma_section_blocks_dispatch`]).
pub proof fn lemma_replace_then_borrow_observes_new<T>(cell: InterruptSafeCell<T>, new_value: T)
    ensures
        cell_after_replace(cell, new_value).contents() == new_value,
{
}

/// A protected container for a value that is initialized after boot:
/// empty until `set_once` fills it, at most once.
pub struct LazyCell<T> {
    value: Option<T>,
}

impl<T> LazyCell<T> {
    /// The optional value currently held.
    pub closed spec fn contents(&self) -> Option<T> {
        self.value
    }

    /// Whether the cell has been initialized.
    pub open spec fn is_set(&self) -> bool {
        self.contents() is Some
    }

    /// Create the cell in its empty, not-yet-initialized state.
    pub fn new_unset() -> (cell: Self)
        ensures
            !cell.is_set(),
    {
        LazyCell { value: None }
    }

    /// Initialize the cell, at most once.  A second initialization attempt
    /// fails loudly with [`CellError::AlreadySet`] and leaves the first
    /// value in place.
    pub fn set_once(&mut self, _token: &ProofToken, value: T) -> (result: Result<(), CellError>)
        ensures
            !old(self).is_set() ==> result is Ok && final(self).contents() == Some(value),
            old(self).is_set() ==> result == Err::<(), CellError>(CellError::AlreadySet)
                && *final(self) == *old(self),
    {
        match &self.value {
            Some(_) => Err(CellError::AlreadySet),
            None => {
                self.value = Some(value);
                Ok(())
            },
        }
    }

    /// Replace the initialized value, returning the previous one.  Fails
    /// with [`CellError::NotSet`], changing nothing, if the cell was
    /// never initialized.
    pub fn replace_set(&mut self, _token: &ProofToken, new_value: T) -> (result: Result<
        T,
        CellError,
    >)
        ensures
            old(self).is_set() ==> (result matches Ok(previous) && Some(previous) == old(
                self,
            ).contents() && final(self).contents() == Some(new_value)),
            !old(self).is_set() ==> result == Err::<T, CellError>(CellError::NotSet)
                && *final(self) == *old(self),
    {
        match &self.value {
            None => Err(CellError::NotSet),
            Some(_) => {
                let mut holder = Some(new_value);
                core::mem::swap(&mut self.value, &mut holder);
                match holder {
                    Some(previous) => Ok(previous),
                    None => Err(CellError::NotSet),
                }
            },
        }
    }

    /// Read the initialized value.  Fails with [`CellError::NotSet`] if
    /// the cell is still empty — a handler that observes an uninitialized
    /// cell must fail safely rather than dereference absent state.
    pub fn borrow_set<'a>(&'a self, _token: &ProofToken) -> (result: Result<&'a T, CellError>)
        ensures
            self.is_set() ==> (result matches Ok(value) && Some(*value) == self.contents()),
            !self.is_set() ==> result == Err::<&'a T, CellError>(CellError::NotSet),
    {
        match &self.value {
            Some(value) => Ok(value),
            None => Err(CellError::NotSet),
        }
    }
}

} // verus!
