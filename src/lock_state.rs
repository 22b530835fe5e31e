//! The lock's shared state: the lock word and the poison flag, both atomic,
//! and the acquisition and release protocol on them.
use vstd::prelude::*;

use std::sync::atomic::{AtomicBool, AtomicU32, Ordering};

use crate::word::{
    admit_reader, admit_upgrade, admit_writer, settle, UNLOCKED,
};
use crate::{LockError, LockResult};

verus! {

use crate::word::{outcome, read_admission};

/// How many rounds an acquisition goes through, each a wait for the word to
/// change or a retry after losing a race for it, before it gives up with
/// `WouldBlock`; in practice it never gives up.
pub const WAIT_ROUNDS: u64 = 0xffff_ffff_ffff_ffff;

/// Relies on atomic_wait::wait: puts the thread to sleep while the word
/// still holds `value`; it may also return spuriously.
#[verifier::external_body]
fn wait_while(word: &AtomicU32, value: u32) {
    atomic_wait::wait(word, value)
}

/// Relies on atomic_wait::wake_all: wakes every thread waiting on the word.
#[verifier::external_body]
fn wake_waiters(word: &AtomicU32)
    opens_invariants none
    no_unwind
{
    atomic_wait::wake_all(word)
}

/// Relies on AtomicU32::store, which panics only for the `Acquire` and
/// `AcqRel` orderings: with `Release` it returns normally.
#[verifier::external_body]
fn publish_word(word: &AtomicU32, value: u32)
    opens_invariants none
    no_unwind
{
    word.store(value, Ordering::Release)
}

/// Relies on AtomicU32::fetch_sub, which never panics (it wraps on
/// overflow).
#[verifier::external_body]
fn subtract_from_word(word: &AtomicU32, amount: u32)
    opens_invariants none
    no_unwind
{
    word.fetch_sub(amount, Ordering::Release);
}

/// Relies on AtomicBool::store, which panics only for the `Acquire` and
/// `AcqRel` orderings: with `Relaxed` it returns normally.
#[verifier::external_body]
fn set_flag(flag: &AtomicBool, value: bool)
    opens_invariants none
    no_unwind
{
    flag.store(value, Ordering::Relaxed)
}

/// The state shared by a lock and all its guards.
pub struct LockState {
    state: AtomicU32,
    poisoned: AtomicBool,
}

impl LockState {
    /// A state with no holder and no poison.
    pub fn new() -> LockState {
        LockState { state: AtomicU32::new(UNLOCKED), poisoned: AtomicBool::new(false) }
    }

    /// Whether a write guard was released while its thread was unwinding.
    pub fn is_poisoned(&self) -> bool {
        self.poisoned.load(Ordering::Relaxed)
    }

    /// Accepts whatever the unwinding writer left behind.
    pub fn clear_poison(&self) {
        set_flag(&self.poisoned, false)
    }

    /// Ends a read attempt whose swap of the word from `before` to `next`
    /// went through, given the poison flag loaded after it: [`settle`]
    /// decides, and a refused hold is given back.
    fn finish_read(&self, before: u32, next: u32, poisoned: bool) -> (r: LockResult<()>)
        requires
            read_admission(before) == Ok::<u32, LockError>(next),
        ensures
            r == outcome(before, Ok(next), poisoned).1,
    {
        let (restore, verdict) = settle(before, Ok(next), poisoned);
        match verdict {
            Ok(()) => {},
            Err(_) => {
                // Other readers may have come or gone since the swap, so the
                // hold is given back by subtracting what the swap added
                // rather than by storing `restore`.
                let added = next - restore;
                subtract_from_word(&self.state, added);
                wake_waiters(&self.state);
            },
        }
        verdict
    }

    /// Ends a write attempt whose swap of the word from `before` to `next`
    /// went through, given the poison flag loaded after it: [`settle`]
    /// decides, and a refused hold puts the word back as it decides.
    fn finish_exclusive(&self, before: u32, next: u32, poisoned: bool) -> (r: LockResult<()>)
        ensures
            r == outcome(before, Ok(next), poisoned).1,
    {
        let (restore, verdict) = settle(before, Ok(next), poisoned);
        match verdict {
            Ok(()) => {},
            Err(_) => {
                publish_word(&self.state, restore);
                wake_waiters(&self.state);
            },
        }
        verdict
    }

    /// Adds a reader. A refusal by [`admit_reader`] is reported, except that
    /// a blocking attempt waits out a writer; a lost race for the word is
    /// retried.
    fn acquire_shared(&self, blocking: bool) -> (r: LockResult<()>)
        ensures
            r is Err ==> r->Err_0 == LockError::TooManyReaders || r->Err_0
                == LockError::WouldBlock || r->Err_0 == LockError::Poisoned,
    {
        let mut s: u32 = self.state.load(Ordering::Relaxed);
        let mut rounds: u64 = 0;
        while rounds < WAIT_ROUNDS
            decreases WAIT_ROUNDS - rounds,
        {
            match admit_reader(s) {
                Err(LockError::WouldBlock) if blocking => {
                    wait_while(&self.state, s);
                    s = self.state.load(Ordering::Relaxed);
                },
                Err(e) => {
                    return Err(e);
                },
                Ok(next) => match self.state.compare_exchange_weak(
                    s,
                    next,
                    Ordering::Acquire,
                    Ordering::Relaxed,
                ) {
                    Ok(_) => {
                        let poisoned = self.poisoned.load(Ordering::Relaxed);
                        return self.finish_read(s, next, poisoned);
                    },
                    Err(current) => {
                        s = current;
                    },
                },
            }
            rounds = rounds + 1;
        }
        Err(LockError::WouldBlock)
    }

    /// Takes the word to the write-locked value: from unlocked as
    /// [`admit_writer`] allows, or for an upgrade from the sole reader as
    /// [`admit_upgrade`] allows. A refusal is reported, except that a
    /// blocking attempt waits for the word to change; a lost race for the
    /// word is retried.
    fn acquire_exclusive(&self, upgrade: bool, blocking: bool) -> (r: LockResult<()>)
        ensures
            r is Err ==> r->Err_0 == LockError::WouldBlock || r->Err_0 == LockError::Poisoned,
    {
        let mut s: u32 = self.state.load(Ordering::Relaxed);
        let mut rounds: u64 = 0;
        while rounds < WAIT_ROUNDS
            decreases WAIT_ROUNDS - rounds,
        {
            let admitted = if upgrade {
                admit_upgrade(s)
            } else {
                admit_writer(s)
            };
            match admitted {
                Err(e) => {
                    if !blocking {
                        return Err(e);
                    }
                    wait_while(&self.state, s);
                    s = self.state.load(Ordering::Relaxed);
                },
                Ok(next) => match self.state.compare_exchange(
                    s,
                    next,
                    Ordering::Acquire,
                    Ordering::Relaxed,
                ) {
                    Ok(_) => {
                        let poisoned = self.poisoned.load(Ordering::Relaxed);
                        return self.finish_exclusive(s, next, poisoned);
                    },
                    Err(current) => {
                        s = current;
                    },
                },
            }
            rounds = rounds + 1;
        }
        Err(LockError::WouldBlock)
    }

    /// Adds a reader, waiting while a writer holds the lock. On a poisoned
    /// lock the reader is given back and `Poisoned` reported.
    /// Gives up with `WouldBlock` only after
    /// [`WAIT_ROUNDS`] rounds.
    pub fn read(&self) -> (r: LockResult<()>)
        ensures
            r is Err ==> r->Err_0 == LockError::TooManyReaders || r->Err_0
                == LockError::WouldBlock || r->Err_0 == LockError::Poisoned,
    {
        self.acquire_shared(true)
    }

    /// Adds a reader without waiting: `WouldBlock` while a writer holds the
    /// lock. On a poisoned lock the reader is given back and `Poisoned`
    /// reported.
    pub fn try_read(&self) -> (r: LockResult<()>)
        ensures
            r is Err ==> r->Err_0 == LockError::TooManyReaders || r->Err_0
                == LockError::WouldBlock || r->Err_0 == LockError::Poisoned,
    {
        self.acquire_shared(false)
    }

    /// Takes the lock for writing, waiting while any guard holds it. On a
    /// poisoned lock the word is put back and `Poisoned` reported.
    /// Gives up with `WouldBlock` only after
    /// [`WAIT_ROUNDS`] rounds.
    pub fn write(&self) -> (r: LockResult<()>)
        ensures
            r is Err ==> r->Err_0 == LockError::WouldBlock || r->Err_0 == LockError::Poisoned,
    {
        self.acquire_exclusive(false, true)
    }

    /// Takes the lock for writing without waiting: `WouldBlock` while any
    /// guard holds it.
    pub fn try_write(&self) -> (r: LockResult<()>)
        ensures
            r is Err ==> r->Err_0 == LockError::WouldBlock || r->Err_0 == LockError::Poisoned,
    {
        self.acquire_exclusive(false, false)
    }

    /// Turns the caller's read hold into a write hold, waiting until it is
    /// the only reader. Two readers that both call this wait on each other
    /// forever. On a poisoned lock the read hold is kept and `Poisoned`
    /// reported.
    /// Gives up with `WouldBlock` only after
    /// [`WAIT_ROUNDS`] rounds.
    pub fn to_write(&self) -> (r: LockResult<()>)
        ensures
            r is Err ==> r->Err_0 == LockError::WouldBlock || r->Err_0 == LockError::Poisoned,
    {
        self.acquire_exclusive(true, true)
    }

    /// Turns the caller's read hold into a write hold without waiting:
    /// `WouldBlock` unless it is the only reader.
    pub fn try_to_write(&self) -> (r: LockResult<()>)
        ensures
            r is Err ==> r->Err_0 == LockError::WouldBlock || r->Err_0 == LockError::Poisoned,
    {
        self.acquire_exclusive(true, false)
    }

    /// Turns the caller's write hold into a single read hold.
    pub fn to_read(&self)
        opens_invariants none
        no_unwind
    {
        publish_word(&self.state, 1);
        wake_waiters(&self.state);
    }

    /// Gives up one read hold.
    pub fn drop_read(&self)
        opens_invariants none
        no_unwind
    {
        subtract_from_word(&self.state, 1);
        wake_waiters(&self.state);
    }

    /// Gives up the write hold; a release during unwinding poisons the lock.
    pub fn drop_write(&self, unwinding: bool)
        opens_invariants none
        no_unwind
    {
        if unwinding {
            set_flag(&self.poisoned, true);
        }
        publish_word(&self.state, UNLOCKED);
        wake_waiters(&self.state);
    }
}

} // verus!
