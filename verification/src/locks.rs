//! Shared-state wrappers whose lock acquisition can never surface a poisoned
//! lock to the caller. Built on the verified reader/writer lock of `vstd`,
//! which has no poisoning at all, and accessed through closures so that a
//! guard can never outlive its critical section.
//!
//! The locks place no invariant on their contents — any value may be stored —
//! so what a closure receives is some value of the content type, and what the
//! caller learns is that the result arose from one application of its closure.

use std::sync::Arc;
use vstd::prelude::*;
use vstd::rwlock::{RwLock, RwLockPredicate};

verus! {

/// The lock predicate that admits every value.
pub struct AnyContent;

impl<T> RwLockPredicate<T> for AnyContent {
    open spec fn inv(self, v: T) -> bool {
        true
    }
}

/// A shared reader/writer lock: concurrent reads, exclusive writes. Clones
/// share the same underlying lock.
#[derive(Clone)]
pub struct DeadLockSafeRwLock<T> {
    inner: Arc<RwLock<T, AnyContent>>,
}

impl<T> DeadLockSafeRwLock<T> {
    /// A fresh lock holding the given value.
    pub fn new(value: T) -> DeadLockSafeRwLock<T> {
        DeadLockSafeRwLock { inner: Arc::new(RwLock::new(value, Ghost(AnyContent))) }
    }

    /// Applies the closure to the stored value under a read lock. The closure
    /// must accept any value of the content type; the result is what it
    /// returned for the value found.
    pub fn read<O, F: FnOnce(&T) -> O>(&self, function: F) -> (o: O)
        requires
            forall|t: &T| #[trigger] call_requires(function, (t,)),
        ensures
            exists|t: &T| #[trigger] call_ensures(function, (t,), o),
    {
        let handle = self.inner.acquire_read();
        let result = function(handle.borrow());
        handle.release_read();
        result
    }

    /// Applies the closure to the stored value under the write lock; the
    /// closure returns the new value to store and the result to hand back.
    pub fn write<O, F: FnOnce(T) -> (T, O)>(&self, function: F) -> (o: O)
        requires
            forall|t: T| #[trigger] call_requires(function, (t,)),
        ensures
            exists|t: T, new_value: T| #[trigger] call_ensures(function, (t,), (new_value, o)),
    {
        let (value, handle) = self.inner.acquire_write();
        let (new_value, result) = function(value);
        handle.release_write(new_value);
        result
    }
}

/// A shared mutual-exclusion lock. Clones share the same underlying lock.
#[derive(Clone)]
pub struct DeadLockSafeMutex<T> {
    inner: Arc<RwLock<T, AnyContent>>,
}

impl<T> DeadLockSafeMutex<T> {
    /// A fresh lock holding the given value.
    pub fn new(value: T) -> DeadLockSafeMutex<T> {
        DeadLockSafeMutex { inner: Arc::new(RwLock::new(value, Ghost(AnyContent))) }
    }

    /// Applies the closure to the stored value under the lock; the closure
    /// returns the new value to store and the result to hand back.
    pub fn lock<O, F: FnOnce(T) -> (T, O)>(&self, function: F) -> (o: O)
        requires
            forall|t: T| #[trigger] call_requires(function, (t,)),
        ensures
            exists|t: T, new_value: T| #[trigger] call_ensures(function, (t,), (new_value, o)),
    {
        let (value, handle) = self.inner.acquire_write();
        let (new_value, result) = function(value);
        handle.release_write(new_value);
        result
    }
}

} // verus!
