//! Exclusive access to a lock's whole value.
use vstd::prelude::*;

use std::cell::UnsafeCell;

use crate::read_gaurd::ReadGaurd;
use crate::{LockResult, LockState};

verus! {

/// A write hold on a lock. While it holds the lock no other guard does;
/// after `early_release` it holds nothing until it is reobtained.
#[verifier::reject_recursive_types(T)]
pub struct WriteGaurd<'a, T> {
    state: &'a LockState,
    data: &'a UnsafeCell<T>,
    held: bool,
}

impl<'a, T> WriteGaurd<'a, T> {
    /// Whether the guard holds the lock.
    pub closed spec fn holds(&self) -> bool {
        self.held
    }

    /// The state of the lock that this guard belongs to.
    pub closed spec fn lock(&self) -> &'a LockState {
        self.state
    }

    /// The cell of the protected value.
    pub closed spec fn data_cell(&self) -> &'a UnsafeCell<T> {
        self.data
    }

    /// A guard for a write hold that the caller has just taken.
    pub(crate) fn acquired(state: &'a LockState, data: &'a UnsafeCell<T>) -> (r: Self)
        ensures
            r.holds(),
            r.lock() == state,
            r.data_cell() == data,
    {
        WriteGaurd { state, data, held: true }
    }

    /// Whether the guard holds the lock.
    pub fn is_held(&self) -> (r: bool)
        ensures
            r == self.holds(),
    {
        self.held
    }

    /// The cell of the protected value; reaching into it is sound only while
    /// the guard holds the lock.
    pub fn cell(&self) -> (r: &'a UnsafeCell<T>)
        ensures
            r == self.data_cell(),
    {
        self.data
    }

    /// The state of the lock that this guard belongs to.
    pub fn lock_state(&self) -> (r: &'a LockState)
        ensures
            r == self.lock(),
    {
        self.state
    }

    /// Turns this guard into a read guard, the only reader, without letting
    /// a writer in between.
    pub fn to_read(self) -> (r: ReadGaurd<'a, T>)
        requires
            self.holds(),
        ensures
            r.holds(),
            r.lock() == self.lock(),
            r.data_cell() == self.data_cell(),
    {
        let mut guard = self;
        guard.state.to_read();
        guard.held = false;
        ReadGaurd::acquired(guard.state, guard.data)
    }

    /// Gives up the lock but keeps the guard, so that others may work; the
    /// value must not be reached until the lock is reobtained.
    pub fn early_release(&mut self)
        requires
            old(self).holds(),
        ensures
            !final(self).holds(),
            final(self).lock() == old(self).lock(),
            final(self).data_cell() == old(self).data_cell(),
    {
        self.state.drop_write(false);
        self.held = false;
    }

    /// Gives up the lock because the holding thread is unwinding, which
    /// poisons the lock when `unwinding` is true.
    pub fn release(self, unwinding: bool) {
        let mut guard = self;
        if guard.held {
            guard.state.drop_write(unwinding);
            guard.held = false;
        }
    }

    /// Takes the lock again after `early_release`, waiting while any guard
    /// holds it.
    /// Gives up with `WouldBlock` only after [`crate::lock_state::WAIT_ROUNDS`]
    /// rounds.
    pub fn reobtain(&mut self) -> (r: LockResult<()>)
        requires
            !old(self).holds(),
        ensures
            final(self).holds() <==> r is Ok,
            final(self).lock() == old(self).lock(),
            final(self).data_cell() == old(self).data_cell(),
    {
        self.state.write()?;
        self.held = true;
        Ok(())
    }

    /// Takes the lock again after `early_release`, without waiting.
    pub fn try_reobtain(&mut self) -> (r: LockResult<()>)
        requires
            !old(self).holds(),
        ensures
            final(self).holds() <==> r is Ok,
            final(self).lock() == old(self).lock(),
            final(self).data_cell() == old(self).data_cell(),
    {
        self.state.try_write()?;
        self.held = true;
        Ok(())
    }
}

impl<'a, T> Drop for WriteGaurd<'a, T> {
    /// Gives up the lock, if the guard holds it.
    fn drop(&mut self)
        opens_invariants none
        no_unwind
    {
        if self.held {
            self.state.drop_write(false);
        }
    }
}

} // verus!
