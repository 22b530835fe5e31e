//! The lock word: what each value means, which transitions the protocol
//! allows, and the laws that those transitions obey.
use vstd::prelude::*;

use crate::{LockError, LockResult};

verus! {

/// No guard holds the lock.
pub const UNLOCKED: u32 = 0;

/// The largest number of readers that may hold the lock at once.
pub const MAX_READERS: u32 = 0xffff_fffd;

/// Reserved: never reached by the protocol, refused like a full count.
pub const READERS_FULL: u32 = 0xffff_fffe;

/// A writer holds the lock exclusively.
pub const WRITE_LOCKED: u32 = 0xffff_ffff;

/// What a lock word stands for.
#[derive(Debug, Clone, Copy, PartialEq, Eq, Structural)]
pub enum LockMode {
    Unlocked,
    Reading(u32),
    Writing,
}

/// The mode that a word encodes: zero is unlocked, the top value is a
/// writer, anything between counts readers.
pub open spec fn mode_of(w: u32) -> LockMode {
    if w == UNLOCKED {
        LockMode::Unlocked
    } else if w == WRITE_LOCKED {
        LockMode::Writing
    } else {
        LockMode::Reading(w)
    }
}

/// The words that the protocol can reach.
pub open spec fn is_reachable(w: u32) -> bool {
    w <= MAX_READERS || w == WRITE_LOCKED
}

/// Adding a reader: refused while a writer holds the lock or the count is
/// at capacity, otherwise one more reader.
pub open spec fn read_admission(w: u32) -> Result<u32, LockError> {
    if w == WRITE_LOCKED {
        Err(LockError::WouldBlock)
    } else if w >= MAX_READERS {
        Err(LockError::TooManyReaders)
    } else {
        Ok((w + 1) as u32)
    }
}

/// Taking the lock for writing: only from the unlocked word.
pub open spec fn write_admission(w: u32) -> Result<u32, LockError> {
    if w == UNLOCKED {
        Ok(WRITE_LOCKED)
    } else {
        Err(LockError::WouldBlock)
    }
}

/// Turning a read hold into a write hold: only by the sole reader.
pub open spec fn upgrade_admission(w: u32) -> Result<u32, LockError> {
    if w == 1 {
        Ok(WRITE_LOCKED)
    } else {
        Err(LockError::WouldBlock)
    }
}

/// The word after one reader leaves.
pub open spec fn read_release(w: u32) -> u32 {
    (w - 1) as u32
}

/// The word after the writer turns its hold into a single read hold.
pub open spec fn downgrade(w: u32) -> u32 {
    1
}

/// The word after the writer leaves.
pub open spec fn write_release(w: u32) -> u32 {
    UNLOCKED
}

/// The word left behind by an acquisition attempt, and what the attempt
/// reports: an admitted attempt on a poisoned lock is rolled back.
pub open spec fn outcome(
    before: u32,
    admitted: Result<u32, LockError>,
    poisoned: bool,
) -> (u32, Result<(), LockError>) {
    match admitted {
        Ok(next) => if poisoned {
            (before, Err(LockError::Poisoned))
        } else {
            (next, Ok(()))
        },
        Err(e) => (before, Err(e)),
    }
}

/// Decides whether a reader may join a lock whose word is `w`, and the word
/// that it then leaves.
pub fn admit_reader(w: u32) -> (r: Result<u32, LockError>)
    ensures
        r == read_admission(w),
{
    if w == WRITE_LOCKED {
        Err(LockError::WouldBlock)
    } else if w >= MAX_READERS {
        Err(LockError::TooManyReaders)
    } else {
        Ok(w + 1)
    }
}

/// Decides whether a writer may take a lock whose word is `w`.
pub fn admit_writer(w: u32) -> (r: Result<u32, LockError>)
    ensures
        r == write_admission(w),
{
    if w == UNLOCKED {
        Ok(WRITE_LOCKED)
    } else {
        Err(LockError::WouldBlock)
    }
}

/// Decides whether a reader may turn its hold into a write hold.
pub fn admit_upgrade(w: u32) -> (r: Result<u32, LockError>)
    ensures
        r == upgrade_admission(w),
{
    if w == 1 {
        Ok(WRITE_LOCKED)
    } else {
        Err(LockError::WouldBlock)
    }
}

/// Settles an attempt that found the word at `before` and was admitted or
/// refused as `admitted`, given the poison flag: what to report, and the
/// word to leave behind.
pub fn settle(before: u32, admitted: Result<u32, LockError>, poisoned: bool) -> (r: (
    u32,
    Result<(), LockError>,
))
    ensures
        r == outcome(before, admitted, poisoned),
{
    match admitted {
        Ok(next) => if poisoned {
            (before, Err(LockError::Poisoned))
        } else {
            (next, Ok(()))
        },
        Err(e) => (before, Err(e)),
    }
}

/// The lock's state as a plain value: the word and the poison flag. Each
/// method makes the transition that the [`crate::LockState`] operation of
/// the same name makes on the shared atomics when no other thread moves the
/// word in between, decided by the same functions.
#[derive(Debug, Clone, Copy, PartialEq, Eq, Structural)]
pub struct LockWord {
    pub word: u32,
    pub poisoned: bool,
}

impl LockWord {
    /// Unlocked and not poisoned.
    pub fn new() -> (r: LockWord)
        ensures
            r.word == UNLOCKED,
            !r.poisoned,
    {
        LockWord { word: UNLOCKED, poisoned: false }
    }

    /// What the word stands for.
    pub fn mode(&self) -> (r: LockMode)
        ensures
            r == mode_of(self.word),
    {
        if self.word == UNLOCKED {
            LockMode::Unlocked
        } else if self.word == WRITE_LOCKED {
            LockMode::Writing
        } else {
            LockMode::Reading(self.word)
        }
    }

    /// Adds a reader as [`admit_reader`] allows; on a poisoned lock the
    /// admitted reader is rolled back and `Poisoned` reported.
    pub fn try_read(&mut self) -> (r: LockResult<()>)
        ensures
            (final(self).word, r) == outcome(
                old(self).word,
                read_admission(old(self).word),
                old(self).poisoned,
            ),
            final(self).poisoned == old(self).poisoned,
    {
        let (w, r) = settle(self.word, admit_reader(self.word), self.poisoned);
        self.word = w;
        r
    }

    /// Takes the write hold as [`admit_writer`] allows; on a poisoned lock
    /// the word is put back and `Poisoned` reported.
    pub fn try_write(&mut self) -> (r: LockResult<()>)
        ensures
            (final(self).word, r) == outcome(
                old(self).word,
                write_admission(old(self).word),
                old(self).poisoned,
            ),
            final(self).poisoned == old(self).poisoned,
    {
        let (w, r) = settle(self.word, admit_writer(self.word), self.poisoned);
        self.word = w;
        r
    }

    /// Turns the sole reader's hold into the write hold as
    /// [`admit_upgrade`] allows; on a poisoned lock the word is put back and
    /// `Poisoned` reported.
    pub fn try_to_write(&mut self) -> (r: LockResult<()>)
        ensures
            (final(self).word, r) == outcome(
                old(self).word,
                upgrade_admission(old(self).word),
                old(self).poisoned,
            ),
            final(self).poisoned == old(self).poisoned,
    {
        let (w, r) = settle(self.word, admit_upgrade(self.word), self.poisoned);
        self.word = w;
        r
    }

    /// Turns the write hold into a single read hold.
    pub fn to_read(&mut self)
        requires
            old(self).word == WRITE_LOCKED,
        ensures
            final(self).word == downgrade(old(self).word),
            final(self).poisoned == old(self).poisoned,
    {
        self.word = 1;
    }

    /// Gives up one read hold.
    pub fn drop_read(&mut self)
        requires
            mode_of(old(self).word) is Reading,
        ensures
            final(self).word == read_release(old(self).word),
            final(self).poisoned == old(self).poisoned,
    {
        self.word = self.word - 1;
    }

    /// Gives up the write hold; a release during unwinding poisons the lock.
    pub fn drop_write(&mut self, unwinding: bool)
        requires
            old(self).word == WRITE_LOCKED,
        ensures
            final(self).word == write_release(old(self).word),
            final(self).poisoned == (old(self).poisoned || unwinding),
    {
        if unwinding {
            self.poisoned = true;
        }
        self.word = UNLOCKED;
    }

    /// Accepts whatever the unwinding writer left behind.
    pub fn clear_poison(&mut self)
        ensures
            final(self).word == old(self).word,
            !final(self).poisoned,
    {
        self.poisoned = false;
    }
}

/// The word after `n` readers join one by one, starting from `w`, or the
/// first refusal.
pub open spec fn admit_readers(w: u32, n: nat) -> Result<u32, LockError>
    decreases n,
{
    if n == 0 {
        Ok(w)
    } else {
        match admit_readers(w, (n - 1) as nat) {
            Ok(v) => read_admission(v),
            Err(e) => Err(e),
        }
    }
}

/// The word after `n` readers leave one by one, starting from `w`.
pub open spec fn release_readers(w: u32, n: nat) -> u32
    decreases n,
{
    if n == 0 {
        w
    } else {
        read_release(release_readers(w, (n - 1) as nat))
    }
}

proof fn lemma_release_readers_counts_down(w: u32, n: nat)
    requires
        n <= w,
    ensures
        release_readers(w, n) == w - n,
    decreases n,
{
    if n > 0 {
        lemma_release_readers_counts_down(w, (n - 1) as nat);
    }
}

/// Any number of readers up to capacity can join an unlocked lock one after
/// another, each seeing a read-locked word; once all of them have left, the
/// lock is unlocked again.
pub proof fn lemma_readers_return_to_unlocked(n: nat)
    requires
        n <= MAX_READERS,
    ensures
        admit_readers(UNLOCKED, n) == Ok::<u32, LockError>(n as u32),
        n > 0 ==> mode_of(n as u32) == LockMode::Reading(n as u32),
        release_readers(n as u32, n) == UNLOCKED,
    decreases n,
{
    if n > 0 {
        lemma_readers_return_to_unlocked((n - 1) as nat);
    }
    lemma_release_readers_counts_down(n as u32, n);
}

/// A writer is admitted only to an unlocked lock; while a writer holds the
/// lock no reader is admitted and no upgrade succeeds. Both refusals are
/// `WouldBlock`, so the non-blocking acquisitions report them at once.
pub proof fn lemma_exclusion(w: u32)
    requires
        is_reachable(w),
    ensures
        write_admission(w) is Ok <==> mode_of(w) == LockMode::Unlocked,
        mode_of(w) != LockMode::Unlocked ==> write_admission(w) == Err::<u32, LockError>(
            LockError::WouldBlock,
        ),
        mode_of(w) == LockMode::Writing ==> read_admission(w) == Err::<u32, LockError>(
            LockError::WouldBlock,
        ) && upgrade_admission(w) == Err::<u32, LockError>(LockError::WouldBlock),
        read_admission(w) is Ok ==> mode_of(read_admission(w)->Ok_0) is Reading,
        upgrade_admission(w) is Ok ==> mode_of(w) == LockMode::Reading(1),
{
}

/// Taking a write hold, downgrading it and upgrading again leaves the same
/// word as never downgrading, and the final release unlocks the lock.
pub proof fn lemma_downgrade_round_trip(w: u32)
    requires
        write_admission(w) is Ok,
    ensures
        upgrade_admission(downgrade(write_admission(w)->Ok_0)) == write_admission(w),
        write_release(upgrade_admission(downgrade(write_admission(w)->Ok_0))->Ok_0) == w,
{
}

/// Readers can fill the lock up to capacity from unlocked; the next one is
/// refused with `TooManyReaders` and leaves the word as it was.
pub proof fn lemma_reader_capacity(poisoned: bool)
    ensures
        admit_readers(UNLOCKED, MAX_READERS as nat) == Ok::<u32, LockError>(MAX_READERS),
        admit_readers(UNLOCKED, MAX_READERS as nat + 1) == Err::<u32, LockError>(
            LockError::TooManyReaders,
        ),
        outcome(MAX_READERS, read_admission(MAX_READERS), poisoned) == (
            MAX_READERS,
            Err::<(), LockError>(LockError::TooManyReaders),
        ),
{
    lemma_readers_return_to_unlocked(MAX_READERS as nat);
    assert(admit_readers(UNLOCKED, MAX_READERS as nat + 1) == read_admission(MAX_READERS));
}

/// An attempt on a poisoned lock reports `Poisoned` or its refusal and
/// leaves the word as it found it; the rollback that undoes an admitted
/// attempt restores exactly that word. Once the poison is cleared, the same
/// attempt is admitted again.
pub proof fn lemma_poisoned_attempt_keeps_word(w: u32, admitted: Result<u32, LockError>)
    ensures
        outcome(w, admitted, true).0 == w,
        admitted is Ok ==> outcome(w, admitted, true).1 == Err::<(), LockError>(
            LockError::Poisoned,
        ),
        admitted is Ok ==> outcome(w, admitted, false) == (admitted->Ok_0, Ok::<(), LockError>(())),
        read_admission(w) is Ok ==> read_release(read_admission(w)->Ok_0) == w,
        write_admission(w) is Ok ==> w == UNLOCKED,
        upgrade_admission(w) is Ok ==> w == 1,
{
}

} // verus!
