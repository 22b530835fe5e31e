//! The lock itself: a protected value and the state that guards it.
use vstd::prelude::*;

use std::cell::UnsafeCell;

use crate::read_gaurd::ReadGaurd;
use crate::slice_read_gaurd::SliceReadGaurd;
use crate::slice_write_gaurd::SliceWriteGaurd;
use crate::write_gaurd::WriteGaurd;
use crate::{LockError, LockResult, LockState};

verus! {

/// The cell that holds the protected value; guards reach into it.
#[verifier::external_type_specification]
#[verifier::external_body]
#[verifier::reject_recursive_types(T)]
pub struct ExUnsafeCell<T: ?Sized>(UnsafeCell<T>);

/// Relies on UnsafeCell::new: wraps the value.
pub assume_specification<T>[ UnsafeCell::<T>::new ](value: T) -> UnsafeCell<T>;

/// A reader-writer lock over a value of type `T`.
#[verifier::reject_recursive_types(T)]
pub struct MrwLock<T> {
    state: LockState,
    data: UnsafeCell<T>,
}

impl<T> MrwLock<T> {
    /// A lock over `data`, unlocked and not poisoned.
    pub fn new(data: T) -> MrwLock<T> {
        MrwLock { state: LockState::new(), data: UnsafeCell::new(data) }
    }

    /// The state that arbitrates this lock.
    pub closed spec fn lock(&self) -> &LockState {
        &self.state
    }

    /// The cell of the protected value.
    pub closed spec fn data_cell(&self) -> &UnsafeCell<T> {
        &self.data
    }

    /// The state that arbitrates this lock.
    pub fn lock_state(&self) -> (r: &LockState)
        ensures
            r == self.lock(),
    {
        &self.state
    }

    /// A read guard, without waiting.
    pub fn try_read(&self) -> (r: LockResult<ReadGaurd<'_, T>>)
        ensures
            r is Ok ==> r->Ok_0.holds(),
            r is Ok ==> r->Ok_0.lock() == self.lock() && r->Ok_0.data_cell() == self.data_cell(),
            r is Err ==> r->Err_0 == LockError::TooManyReaders || r->Err_0
                == LockError::WouldBlock || r->Err_0 == LockError::Poisoned,
    {
        self.state.try_read()?;
        Ok(ReadGaurd::acquired(&self.state, &self.data))
    }

    /// A read guard, waiting while a writer holds the lock.
    /// Gives up with `WouldBlock` only after [`crate::lock_state::WAIT_ROUNDS`]
    /// rounds.
    pub fn read(&self) -> (r: LockResult<ReadGaurd<'_, T>>)
        ensures
            r is Ok ==> r->Ok_0.holds(),
            r is Ok ==> r->Ok_0.lock() == self.lock() && r->Ok_0.data_cell() == self.data_cell(),
            r is Err ==> r->Err_0 == LockError::TooManyReaders || r->Err_0
                == LockError::WouldBlock || r->Err_0 == LockError::Poisoned,
    {
        self.state.read()?;
        Ok(ReadGaurd::acquired(&self.state, &self.data))
    }

    /// A write guard, without waiting.
    pub fn try_write(&self) -> (r: LockResult<WriteGaurd<'_, T>>)
        ensures
            r is Ok ==> r->Ok_0.holds(),
            r is Ok ==> r->Ok_0.lock() == self.lock() && r->Ok_0.data_cell() == self.data_cell(),
            r is Err ==> r->Err_0 == LockError::WouldBlock || r->Err_0 == LockError::Poisoned,
    {
        self.state.try_write()?;
        Ok(WriteGaurd::acquired(&self.state, &self.data))
    }

    /// A write guard, waiting while any guard holds the lock.
    /// Gives up with `WouldBlock` only after [`crate::lock_state::WAIT_ROUNDS`]
    /// rounds.
    pub fn write(&self) -> (r: LockResult<WriteGaurd<'_, T>>)
        ensures
            r is Ok ==> r->Ok_0.holds(),
            r is Ok ==> r->Ok_0.lock() == self.lock() && r->Ok_0.data_cell() == self.data_cell(),
            r is Err ==> r->Err_0 == LockError::WouldBlock || r->Err_0 == LockError::Poisoned,
    {
        self.state.write()?;
        Ok(WriteGaurd::acquired(&self.state, &self.data))
    }
    /// A read guard over the value's elements, without waiting.
    pub fn try_read_slice(&self) -> (r: LockResult<SliceReadGaurd<'_, T>>)
        ensures
            r is Ok ==> r->Ok_0.holds(),
            r is Ok ==> r->Ok_0.lock() == self.lock() && r->Ok_0.data_cell() == self.data_cell(),
            r is Err ==> r->Err_0 == LockError::TooManyReaders || r->Err_0
                == LockError::WouldBlock || r->Err_0 == LockError::Poisoned,
    {
        self.state.try_read()?;
        Ok(SliceReadGaurd::acquired(&self.state, &self.data))
    }

    /// A read guard over the value's elements, waiting while a writer holds
    /// the lock.
    /// Gives up with `WouldBlock` only after [`crate::lock_state::WAIT_ROUNDS`]
    /// rounds.
    pub fn read_slice(&self) -> (r: LockResult<SliceReadGaurd<'_, T>>)
        ensures
            r is Ok ==> r->Ok_0.holds(),
            r is Ok ==> r->Ok_0.lock() == self.lock() && r->Ok_0.data_cell() == self.data_cell(),
            r is Err ==> r->Err_0 == LockError::TooManyReaders || r->Err_0
                == LockError::WouldBlock || r->Err_0 == LockError::Poisoned,
    {
        self.state.read()?;
        Ok(SliceReadGaurd::acquired(&self.state, &self.data))
    }

    /// A write guard over the value's elements, without waiting.
    pub fn try_write_slice(&self) -> (r: LockResult<SliceWriteGaurd<'_, T>>)
        ensures
            r is Ok ==> r->Ok_0.holds(),
            r is Ok ==> r->Ok_0.lock() == self.lock() && r->Ok_0.data_cell() == self.data_cell(),
            r is Err ==> r->Err_0 == LockError::WouldBlock || r->Err_0 == LockError::Poisoned,
    {
        self.state.try_write()?;
        Ok(SliceWriteGaurd::acquired(&self.state, &self.data))
    }

    /// A write guard over the value's elements, waiting while any guard
    /// holds the lock.
    /// Gives up with `WouldBlock` only after [`crate::lock_state::WAIT_ROUNDS`]
    /// rounds.
    pub fn write_slice(&self) -> (r: LockResult<SliceWriteGaurd<'_, T>>)
        ensures
            r is Ok ==> r->Ok_0.holds(),
            r is Ok ==> r->Ok_0.lock() == self.lock() && r->Ok_0.data_cell() == self.data_cell(),
            r is Err ==> r->Err_0 == LockError::WouldBlock || r->Err_0 == LockError::Poisoned,
    {
        self.state.write()?;
        Ok(SliceWriteGaurd::acquired(&self.state, &self.data))
    }
}

} // verus!
