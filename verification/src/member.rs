//! The concurrent cell: a shared-ownership, mutually-exclusive container
//! around one value, with a blocking access path here and a suspending path
//! left to asynchronous callers over [`AtomicMember::lock_ref`].

use std::sync::Arc;
use vstd::prelude::*;

verus! {

/// The mutual-exclusion primitive the cell is built on. Relies on
/// `tokio::sync::Mutex`: at most one holder of the lock may read or mutate
/// the guarded value at any instant; the value is opaque here.
#[verifier::external_type_specification]
#[verifier::external_body]
#[verifier::reject_recursive_types(T)]
pub struct ExTokioMutex<T: ?Sized>(tokio::sync::Mutex<T>);

/// A thread-safe wrapper around one value of type `T`.
///
/// A cell is a reference-counted handle to a mutually-exclusive box:
/// cloning it yields a second handle to the same storage, and the value is
/// dropped with the last handle. Every access — the blocking [`Self::get_sync`]
/// and [`Self::set_sync`] here, or a suspending one built on
/// [`Self::lock_ref`] — holds the lock for the duration of one clone or one
/// assignment, so concurrent accesses observe a total order of committed
/// values and none is ever torn or lost.
///
/// Poisoning policy: the underlying lock does not poison. A panic while it
/// is held releases it and later accesses proceed normally; the cell's own
/// operations hold it only for one clone or one whole assignment, so they
/// never leave a partial write behind. Code that mutates in place through
/// [`Self::lock_ref`] answers for its own consistency across a caught panic.
#[derive(Debug)]
#[verifier::reject_recursive_types(T)]
pub struct AtomicMember<T> {
    handle: Arc<tokio::sync::Mutex<T>>,
}

impl<T> AtomicMember<T> {
    /// Creates a new cell wrapping the provided value. Relies on
    /// `tokio::sync::Mutex::new`: wraps the value in an unlocked mutex;
    /// never fails. The new cell's storage is shared with no other handle
    /// until it is cloned.
    #[verifier::external_body]
    pub fn new(value: T) -> Self {
        AtomicMember { handle: Arc::new(tokio::sync::Mutex::new(value)) }
    }

    /// The underlying lock, for call sites that build the suspending access
    /// path or otherwise need the lock itself. All handles cloned from one
    /// cell return a reference to the same lock.
    pub fn lock_ref(&self) -> &tokio::sync::Mutex<T> {
        &*self.handle
    }
}

impl<T> Clone for AtomicMember<T> {
    /// A second handle to the same storage: not a copy of the value.
    /// Mutations through either handle are visible through the other.
    fn clone(&self) -> Self {
        AtomicMember { handle: Arc::clone(&self.handle) }
    }
}

impl<T: Clone> AtomicMember<T> {
    /// Retrieves a clone of the inner value over the blocking path. Relies
    /// on `tokio::sync::Mutex::blocking_lock`: blocks the calling thread
    /// until the lock is granted, so it must not be called from an
    /// asynchronous execution context (tokio itself panics there), nor
    /// while the same lock is held cooperatively on the calling thread.
    /// The value returned is whatever the latest committed write left; with
    /// other handles live it cannot be pinned further here.
    #[verifier::external_body]
    pub fn get_sync(&self) -> T {
        self.handle.blocking_lock().clone()
    }

    /// Replaces the inner value over the blocking path. Relies on
    /// `tokio::sync::Mutex::blocking_lock`, under the same usage constraint
    /// as [`Self::get_sync`]: the whole replacement happens under the lock,
    /// so no concurrent access observes a partial write.
    #[verifier::external_body]
    pub fn set_sync(&self, val: T) {
        let mut guard = self.handle.blocking_lock();
        *guard = val;
    }
}

impl<T: Default> Default for AtomicMember<T> {
    /// A fresh cell wrapping `T`'s default value.
    fn default() -> Self {
        AtomicMember::new(T::default())
    }
}

} // verus!
