//! A reader-writer lock whose guards can be converted between read and write
//! mode in place, released early and reobtained later, and cloned.
//!
//! The lock's protocol lives on a single 32-bit word plus a poison flag
//! ([`LockState`]). [`word`] gives that word its meaning, decides each
//! acquisition and how it settles on a poisoned lock, and proves laws of
//! those decisions; every acquisition of [`LockState`] goes through them.
//! [`word::LockWord`] makes the same transitions on a plain value, where
//! each one is stated exactly.
use vstd::prelude::*;

pub mod lock_state;
pub mod mrw_lock;
pub mod read_gaurd;
pub mod slice_read_gaurd;
pub mod slice_write_gaurd;
pub mod write_gaurd;
pub mod word;

pub use lock_state::LockState;
pub use mrw_lock::MrwLock;
pub use read_gaurd::ReadGaurd;
pub use slice_read_gaurd::SliceReadGaurd;
pub use slice_write_gaurd::{SliceWriteGaurd, SliceWriteGuard};
pub use write_gaurd::WriteGaurd;

verus! {

/// Why an acquisition did not succeed.
#[derive(Debug, Clone, Copy, PartialEq, Eq, Structural)]
pub enum LockError {
    /// The reader count is at capacity.
    TooManyReaders,
    /// A non-blocking acquisition could not proceed right now.
    WouldBlock,
    /// A write guard was released while its thread was unwinding.
    Poisoned,
}

/// The result of an acquisition.
pub type LockResult<G> = Result<G, LockError>;

} // verus!
