//! Shared access to a lock's value seen as a contiguous sequence of
//! elements (a `Vec` or a boxed slice).
use vstd::prelude::*;

use std::cell::UnsafeCell;

use crate::slice_write_gaurd::SliceWriteGaurd;
use crate::{LockError, LockResult, LockState};

verus! {

/// A read hold on a lock whose value is viewed as a slice. While it holds its slot, no writer can hold the
/// lock; after `early_release` it holds nothing until it is reobtained.
#[verifier::reject_recursive_types(T)]
pub struct SliceReadGaurd<'a, T> {
    state: &'a LockState,
    data: &'a UnsafeCell<T>,
    held: bool,
}

impl<'a, T> SliceReadGaurd<'a, T> {
    /// Whether the guard holds its reader slot.
    pub closed spec fn holds(&self) -> bool {
        self.held
    }

    /// The state of the lock that this guard belongs to.
    pub closed spec fn lock(&self) -> &'a LockState {
        self.state
    }

    /// The cell of the protected value.
    pub closed spec fn data_cell(&self) -> &'a UnsafeCell<T> {
        self.data
    }

    /// A guard for a reader slot that the caller has just taken.
    pub(crate) fn acquired(state: &'a LockState, data: &'a UnsafeCell<T>) -> (r: Self)
        ensures
            r.holds(),
            r.lock() == state,
            r.data_cell() == data,
    {
        SliceReadGaurd { state, data, held: true }
    }

    /// Whether the guard holds its reader slot.
    pub fn is_held(&self) -> (r: bool)
        ensures
            r == self.holds(),
    {
        self.held
    }

    /// The cell of the protected container; viewing its elements is sound
    /// only while the guard holds its slot.
    pub fn cell(&self) -> (r: &'a UnsafeCell<T>)
        ensures
            r == self.data_cell(),
    {
        self.data
    }

    /// The state of the lock that this guard belongs to.
    pub fn lock_state(&self) -> (r: &'a LockState)
        ensures
            r == self.lock(),
    {
        self.state
    }

    /// Same as [`Self::to_write`], but `WouldBlock` instead of waiting. On
    /// failure the read slot is given up with the guard.
    pub fn try_to_write(self) -> (r: LockResult<SliceWriteGaurd<'a, T>>)
        requires
            self.holds(),
        ensures
            r is Ok ==> r->Ok_0.holds(),
            r is Ok ==> r->Ok_0.lock() == self.lock() && r->Ok_0.data_cell() == self.data_cell(),
            r is Err ==> r->Err_0 == LockError::WouldBlock || r->Err_0 == LockError::Poisoned,
    {
        let mut guard = self;
        guard.state.try_to_write()?;
        guard.held = false;
        Ok(SliceWriteGaurd::acquired(guard.state, guard.data))
    }

    /// Turns this guard into a write guard, waiting until it is the only
    /// reader. Two sole-reader upgrades at once wait on each other forever.
    /// On failure the read slot is given up with the guard.
    /// Gives up with `WouldBlock` only after [`crate::lock_state::WAIT_ROUNDS`]
    /// rounds.
    pub fn to_write(self) -> (r: LockResult<SliceWriteGaurd<'a, T>>)
        requires
            self.holds(),
        ensures
            r is Ok ==> r->Ok_0.holds(),
            r is Ok ==> r->Ok_0.lock() == self.lock() && r->Ok_0.data_cell() == self.data_cell(),
            r is Err ==> r->Err_0 == LockError::WouldBlock || r->Err_0 == LockError::Poisoned,
    {
        let mut guard = self;
        guard.state.to_write()?;
        guard.held = false;
        Ok(SliceWriteGaurd::acquired(guard.state, guard.data))
    }

    /// Takes one more reader slot for the same value, waiting while a writer
    /// holds the lock; the failure of that acquisition is reported.
    /// Gives up with `WouldBlock` only after [`crate::lock_state::WAIT_ROUNDS`]
    /// rounds.
    pub fn try_clone(&self) -> (r: LockResult<Self>)
        ensures
            r is Ok ==> r->Ok_0.holds(),
            r is Ok ==> r->Ok_0.lock() == self.lock() && r->Ok_0.data_cell() == self.data_cell(),
            r is Err ==> r->Err_0 == LockError::TooManyReaders || r->Err_0
                == LockError::WouldBlock || r->Err_0 == LockError::Poisoned,
    {
        self.state.read()?;
        Ok(SliceReadGaurd::acquired(self.state, self.data))
    }

    /// Gives up the reader slot but keeps the guard, so that a writer may
    /// work; the value must not be read until the slot is reobtained.
    pub fn early_release(&mut self)
        requires
            old(self).holds(),
        ensures
            !final(self).holds(),
            final(self).lock() == old(self).lock(),
            final(self).data_cell() == old(self).data_cell(),
    {
        self.state.drop_read();
        self.held = false;
    }

    /// Takes a reader slot again after `early_release`, waiting while a
    /// writer holds the lock.
    /// Gives up with `WouldBlock` only after [`crate::lock_state::WAIT_ROUNDS`]
    /// rounds.
    pub fn reobtain(&mut self) -> (r: LockResult<()>)
        requires
            !old(self).holds(),
        ensures
            final(self).holds() <==> r is Ok,
            final(self).lock() == old(self).lock(),
            final(self).data_cell() == old(self).data_cell(),
    {
        self.state.read()?;
        self.held = true;
        Ok(())
    }

    /// Takes a reader slot again after `early_release`, without waiting.
    pub fn try_reobtain(&mut self) -> (r: LockResult<()>)
        requires
            !old(self).holds(),
        ensures
            final(self).holds() <==> r is Ok,
            final(self).lock() == old(self).lock(),
            final(self).data_cell() == old(self).data_cell(),
    {
        self.state.try_read()?;
        self.held = true;
        Ok(())
    }
}

impl<'a, T> Clone for SliceReadGaurd<'a, T> {
    /// Takes one more reader slot for the same value, waiting while a writer
    /// holds the lock. If no slot can be had the copy holds nothing, as
    /// after `early_release`; [`Self::try_clone`] reports the failure instead.
    fn clone(&self) -> (r: Self)
        ensures
            r.lock() == self.lock(),
            r.data_cell() == self.data_cell(),
    {
        let held = self.state.read().is_ok();
        SliceReadGaurd { state: self.state, data: self.data, held }
    }
}

impl<'a, T> Drop for SliceReadGaurd<'a, T> {
    /// Gives up the reader slot, if the guard holds one.
    fn drop(&mut self)
        opens_invariants none
        no_unwind
    {
        if self.held {
            self.state.drop_read();
        }
    }
}

} // verus!
