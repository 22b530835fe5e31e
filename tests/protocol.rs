use manual_rwlock::word::{
    LockMode, LockWord,
    admit_reader, admit_upgrade, admit_writer, settle, MAX_READERS, READERS_FULL, UNLOCKED,
    WRITE_LOCKED,
};
use manual_rwlock::{LockError, LockState, MrwLock};

#[test]
fn reader_admission_counts_up() {
    assert_eq!(admit_reader(0), Ok(1));
    assert_eq!(admit_reader(41), Ok(42));
    assert_eq!(admit_reader(MAX_READERS - 1), Ok(MAX_READERS));
}

#[test]
fn reader_admission_refuses_at_capacity() {
    assert_eq!(MAX_READERS, u32::MAX - 2);
    assert_eq!(admit_reader(MAX_READERS), Err(LockError::TooManyReaders));
    assert_eq!(admit_reader(READERS_FULL), Err(LockError::TooManyReaders));
}

#[test]
fn reader_admission_refuses_while_writing() {
    assert_eq!(admit_reader(WRITE_LOCKED), Err(LockError::WouldBlock));
}

#[test]
fn writer_admission_only_when_unlocked() {
    assert_eq!(admit_writer(UNLOCKED), Ok(u32::MAX));
    assert_eq!(admit_writer(1), Err(LockError::WouldBlock));
    assert_eq!(admit_writer(WRITE_LOCKED), Err(LockError::WouldBlock));
}

#[test]
fn upgrade_admission_only_for_sole_reader() {
    assert_eq!(admit_upgrade(1), Ok(WRITE_LOCKED));
    assert_eq!(admit_upgrade(0), Err(LockError::WouldBlock));
    assert_eq!(admit_upgrade(2), Err(LockError::WouldBlock));
    assert_eq!(admit_upgrade(WRITE_LOCKED), Err(LockError::WouldBlock));
}

#[test]
fn readers_return_lock_to_unlocked() {
    let lock = MrwLock::new(5);
    {
        let a = lock.read().unwrap();
        let b = lock.try_read().unwrap();
        let c = a.clone();
        assert!(a.is_held() && b.is_held() && c.is_held());
        assert!(matches!(lock.try_write(), Err(LockError::WouldBlock)));
    }
    assert!(lock.try_write().is_ok());
}

#[test]
fn writer_excludes_everyone() {
    let lock = MrwLock::new(String::from("x"));
    let w = lock.try_write().unwrap();
    assert!(matches!(lock.try_read(), Err(LockError::WouldBlock)));
    assert!(matches!(lock.try_write(), Err(LockError::WouldBlock)));
    assert!(matches!(lock.try_read_slice(), Err(LockError::WouldBlock)));
    drop(w);
    assert!(lock.try_read().is_ok());
}

#[test]
fn downgrade_then_upgrade_round_trip() {
    let lock = MrwLock::new(10);
    let w = lock.write().unwrap();
    let r = w.to_read();
    assert!(matches!(lock.try_write(), Err(LockError::WouldBlock)));
    let other = lock.try_read().unwrap();
    drop(other);
    let w = r.try_to_write().unwrap();
    assert!(w.is_held());
    assert!(matches!(lock.try_read(), Err(LockError::WouldBlock)));
    drop(w);
    assert!(lock.try_write().is_ok());
    let r = lock.read().unwrap();
    let w = r.to_write().unwrap();
    drop(w);
    assert!(lock.try_read().is_ok());
}

#[test]
fn upgrade_refused_with_two_readers() {
    let lock = MrwLock::new(1u8);
    let a = lock.read().unwrap();
    let b = lock.read().unwrap();
    assert!(matches!(a.try_to_write(), Err(LockError::WouldBlock)));
    let w = b.try_to_write().unwrap();
    drop(w);
    assert!(lock.try_write().is_ok());
}

#[test]
fn read_early_release_lets_writer_in() {
    let lock = MrwLock::new(5);
    let mut r = lock.read().unwrap();
    r.early_release();
    assert!(!r.is_held());
    {
        let w = lock.try_write().unwrap();
        assert!(matches!(r.try_reobtain(), Err(LockError::WouldBlock)));
        drop(w);
    }
    r.reobtain().unwrap();
    assert!(r.is_held());
    assert!(matches!(lock.try_write(), Err(LockError::WouldBlock)));
    drop(r);
    assert!(lock.try_write().is_ok());
}

#[test]
fn write_early_release_lets_writer_in() {
    let lock = MrwLock::new(vec![1, 2, 3]);
    let mut w = lock.write().unwrap();
    w.early_release();
    {
        let w2 = lock.write().unwrap();
        assert!(matches!(w.try_reobtain(), Err(LockError::WouldBlock)));
        drop(w2);
    }
    w.reobtain().unwrap();
    assert!(w.is_held());
    assert!(matches!(lock.try_read(), Err(LockError::WouldBlock)));
    drop(w);
    assert!(lock.try_read().is_ok());
}

#[test]
fn dropping_released_guard_releases_nothing() {
    let lock = MrwLock::new(0);
    let keep = lock.read().unwrap();
    let mut r = lock.read().unwrap();
    r.early_release();
    drop(r);
    let w = keep.try_to_write();
    assert!(w.is_ok());
}

#[test]
fn poisoned_lock_refuses_then_recovers() {
    let lock = MrwLock::new(3);
    let w = lock.write().unwrap();
    w.release(true);
    assert!(lock.lock_state().is_poisoned());
    assert!(matches!(lock.try_read(), Err(LockError::Poisoned)));
    assert!(matches!(lock.read(), Err(LockError::Poisoned)));
    assert!(matches!(lock.try_write(), Err(LockError::Poisoned)));
    assert!(matches!(lock.write(), Err(LockError::Poisoned)));
    lock.lock_state().clear_poison();
    assert!(!lock.lock_state().is_poisoned());
    let w = lock.try_write().unwrap();
    drop(w);
    assert!(lock.try_read().is_ok());
}

#[test]
fn ordinary_release_does_not_poison() {
    let lock = MrwLock::new(3);
    let w = lock.write().unwrap();
    w.release(false);
    assert!(!lock.lock_state().is_poisoned());
    assert!(lock.try_write().is_ok());
}

#[test]
fn slice_guards_follow_the_protocol() {
    let lock = MrwLock::new(vec![1, 2, 3]);
    let w = lock.try_write_slice().unwrap();
    assert!(matches!(lock.try_read_slice(), Err(LockError::WouldBlock)));
    drop(w);
    let r = lock.try_read_slice().unwrap();
    let r2 = r.clone();
    assert!(r2.is_held());
    assert!(matches!(lock.try_write_slice(), Err(LockError::WouldBlock)));
    drop(r2);
    let w = r.to_write().unwrap();
    let r = w.to_read();
    drop(r);
    let mut w = lock.write_slice().unwrap();
    w.early_release();
    assert!(lock.read_slice().is_ok());
    w.reobtain().unwrap();
    drop(w);
    assert!(lock.try_write().is_ok());
}

#[test]
fn lock_state_used_directly() {
    let s = LockState::new();
    assert!(s.try_read().is_ok());
    assert!(s.read().is_ok());
    assert_eq!(s.try_to_write(), Err(LockError::WouldBlock));
    s.drop_read();
    assert_eq!(s.try_to_write(), Ok(()));
    assert_eq!(s.try_read(), Err(LockError::WouldBlock));
    s.to_read();
    assert_eq!(s.to_write(), Ok(()));
    s.drop_write(false);
    assert_eq!(s.try_write(), Ok(()));
    s.drop_write(false);
    assert_eq!(s.write(), Ok(()));
    s.drop_write(true);
    assert_eq!(s.try_read(), Err(LockError::Poisoned));
    s.clear_poison();
    assert_eq!(s.try_write(), Ok(()));
}

#[test]
fn early_release() {
    let rwlock = MrwLock::new(5);
    let mut read_rw = rwlock.read().unwrap();
    read_rw.early_release();
    {
        let write = rwlock.write().unwrap();
        assert!(write.is_held());
    }
    read_rw.reobtain().unwrap();
    assert!(read_rw.is_held());
}

#[test]
fn slice_read() {
    let rwlock = MrwLock::new(vec![1, 2, 3]);
    let slice_read = rwlock.try_read_slice().unwrap();
    assert!(slice_read.is_held());
}

#[test]
fn write_early_release() {
    let rwlock = MrwLock::new(Vec::from([1, 2, 3]));
    let mut write_rw = rwlock.write().unwrap();
    write_rw.early_release();
    {
        let write2 = rwlock.write().unwrap();
        assert!(write2.is_held());
    }
    write_rw.reobtain().unwrap();
    assert!(write_rw.is_held());
}

#[test]
fn try_clone_reports_failure() {
    let lock = MrwLock::new(7);
    let mut r = lock.read().unwrap();
    let c = r.try_clone().unwrap();
    assert!(c.is_held());
    drop(c);
    r.early_release();
    let w = lock.write().unwrap();
    w.release(true);
    assert!(matches!(r.try_clone(), Err(LockError::Poisoned)));
    let copy = r.clone();
    assert!(!copy.is_held());
    drop(copy);
    lock.lock_state().clear_poison();
    assert!(lock.try_write().is_ok());
}

#[test]
fn settle_rolls_back_poisoned_attempts() {
    assert_eq!(settle(4, Ok(5), false), (5, Ok(())));
    assert_eq!(settle(4, Ok(5), true), (4, Err(LockError::Poisoned)));
    assert_eq!(settle(0, Ok(WRITE_LOCKED), true), (0, Err(LockError::Poisoned)));
    assert_eq!(settle(1, Ok(WRITE_LOCKED), false), (WRITE_LOCKED, Ok(())));
    assert_eq!(
        settle(MAX_READERS, Err(LockError::TooManyReaders), false),
        (MAX_READERS, Err(LockError::TooManyReaders))
    );
}

#[test]
fn poisoned_attempts_leave_lock_usable() {
    let s = LockState::new();
    assert_eq!(s.write(), Ok(()));
    s.drop_write(true);
    for _ in 0..3 {
        assert_eq!(s.try_read(), Err(LockError::Poisoned));
        assert_eq!(s.read(), Err(LockError::Poisoned));
        assert_eq!(s.try_write(), Err(LockError::Poisoned));
        assert_eq!(s.write(), Err(LockError::Poisoned));
    }
    s.clear_poison();
    assert_eq!(s.try_write(), Ok(()));
    s.drop_write(false);
    assert_eq!(s.try_read(), Ok(()));
    assert_eq!(s.try_to_write(), Ok(()));
}

#[test]
fn lock_word_readers_count_up_and_back() {
    let mut w = LockWord::new();
    assert_eq!(w.mode(), LockMode::Unlocked);
    for i in 1..=5u32 {
        assert_eq!(w.try_read(), Ok(()));
        assert_eq!(w.mode(), LockMode::Reading(i));
    }
    assert_eq!(w.try_write(), Err(LockError::WouldBlock));
    assert_eq!(w.word, 5);
    for _ in 0..5 {
        w.drop_read();
    }
    assert_eq!(w.word, UNLOCKED);
    assert_eq!(w.try_write(), Ok(()));
    assert_eq!(w.mode(), LockMode::Writing);
}

#[test]
fn lock_word_writer_excludes_readers() {
    let mut w = LockWord { word: WRITE_LOCKED, poisoned: false };
    assert_eq!(w.try_read(), Err(LockError::WouldBlock));
    assert_eq!(w.try_write(), Err(LockError::WouldBlock));
    assert_eq!(w.try_to_write(), Err(LockError::WouldBlock));
    assert_eq!(w.word, WRITE_LOCKED);
}

#[test]
fn lock_word_downgrade_round_trip() {
    let mut w = LockWord::new();
    assert_eq!(w.try_write(), Ok(()));
    w.to_read();
    assert_eq!(w.word, 1);
    assert_eq!(w.try_to_write(), Ok(()));
    assert_eq!(w.word, WRITE_LOCKED);
    w.drop_write(false);
    assert_eq!(w, LockWord::new());
}

#[test]
fn lock_word_capacity_boundary() {
    let mut w = LockWord { word: MAX_READERS - 1, poisoned: false };
    assert_eq!(w.try_read(), Ok(()));
    assert_eq!(w.word, u32::MAX - 2);
    assert_eq!(w.try_read(), Err(LockError::TooManyReaders));
    assert_eq!(w.word, u32::MAX - 2);
}

#[test]
fn lock_word_poison_rolls_back() {
    let mut w = LockWord::new();
    assert_eq!(w.try_write(), Ok(()));
    w.drop_write(true);
    assert!(w.poisoned);
    assert_eq!(w.try_read(), Err(LockError::Poisoned));
    assert_eq!(w.try_write(), Err(LockError::Poisoned));
    assert_eq!(w.word, UNLOCKED);
    w.clear_poison();
    assert_eq!(w.try_read(), Ok(()));
    assert_eq!(w.try_to_write(), Ok(()));
    let mut up = LockWord { word: 1, poisoned: true };
    assert_eq!(up.try_to_write(), Err(LockError::Poisoned));
    assert_eq!(up.word, 1);
}
