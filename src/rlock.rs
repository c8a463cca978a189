use vstd::prelude::*;

use std::sync::{Arc, RwLock, RwLockReadGuard};

verus! {

/// std's `RwLock`, carried without looking inside.
#[verifier::external_type_specification]
#[verifier::external_body]
#[verifier::reject_recursive_types(T)]
pub struct ExRwLock<T: ?Sized>(RwLock<T>);

/// std's `RwLockReadGuard`, handed back to the caller as it is.
#[verifier::external_type_specification]
#[verifier::external_body]
#[verifier::reject_recursive_types(T)]
pub struct ExRwLockReadGuard<'a, T: ?Sized>(RwLockReadGuard<'a, T>);

/// Relies on std's `RwLock::new` to make a lock holding `t`; nothing about the
/// lock is assumed.
pub assume_specification<T>[ RwLock::<T>::new ](t: T) -> RwLock<T>;

/// Relies on std's `Arc::clone`: the clone points to the same allocation, so
/// it holds the same value.
#[verifier::external_body]
fn share<T>(a: &Arc<T>) -> (r: Arc<T>)
    ensures
        r == *a,
{
    Arc::clone(a)
}

/// What a read of the shared value found, without waiting.
#[verifier::reject_recursive_types(T)]
pub enum ReadOutcome<'a, T> {
    /// Shared access to the current value.
    Value(RwLockReadGuard<'a, T>),
    /// A writer holds the lock right now.
    Busy,
    /// A writer panicked while it held the lock.
    Poisoned,
}

/// Relies on std's `RwLock::try_read`, which returns at once: the guard, or
/// `WouldBlock` while a writer holds the lock, or `Poisoned` when a writer
/// panicked holding it. Nothing about which comes back is assumed, since it
/// depends on the other threads.
#[verifier::external_body]
fn try_read_lock<T>(lock: &Arc<RwLock<T>>) -> (r: ReadOutcome<'_, T>) {
    match lock.try_read() {
        Ok(guard) => ReadOutcome::Value(guard),
        Err(std::sync::TryLockError::WouldBlock) => ReadOutcome::Busy,
        Err(std::sync::TryLockError::Poisoned(_)) => ReadOutcome::Poisoned,
    }
}

/// Read only copy of a `RwLock`.
#[verifier::reject_recursive_types(T)]
pub struct RLock<T> {
    inner: Arc<RwLock<T>>,
}

impl<T> RLock<T> {
    /// The shared lock this handle reads.
    pub closed spec fn lock(&self) -> Arc<RwLock<T>> {
        self.inner
    }

    pub fn new(inner: Arc<RwLock<T>>) -> (r: Self)
        ensures
            r.lock() == inner,
    {
        Self { inner }
    }

    /// Read the inner content without waiting for a writer: the reader never
    /// holds up the writer, and a caller that finds the lock busy keeps the
    /// value it read before.
    pub fn read(&self) -> ReadOutcome<'_, T> {
        try_read_lock(&self.inner)
    }
}

impl<T> From<Arc<RwLock<T>>> for RLock<T> {
    fn from(value: Arc<RwLock<T>>) -> (r: Self)
        ensures
            r.lock() == value,
    {
        Self::new(value)
    }
}

impl<T> vstd::std_specs::convert::FromSpecImpl<Arc<RwLock<T>>> for RLock<T> {
    open spec fn obeys_from_spec() -> bool {
        true
    }

    closed spec fn from_spec(value: Arc<RwLock<T>>) -> RLock<T> {
        RLock { inner: value }
    }
}

/// Puts `value` behind a shared lock and returns the writing handle and a
/// read only handle to the same lock.
pub fn split_arwlock<T>(value: T) -> (r: (Arc<RwLock<T>>, RLock<T>))
    ensures
        r.1.lock() == r.0,
{
    let writer = Arc::new(RwLock::new(value));
    let reader = RLock::new(share(&writer));
    (writer, reader)
}

} // verus!
