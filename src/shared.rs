use vstd::prelude::*;

use std::sync::{Arc, RwLock};

verus! {

#[verifier::external_type_specification]
#[verifier::external_body]
#[verifier::reject_recursive_types(T)]
pub struct ExRwLock<T: ?Sized>(RwLock<T>);

/// Relies on std's `RwLock::new`: an unlocked lock around the value. The lock is
/// opaque here, so nothing more is stated.
pub assume_specification<T>[ RwLock::<T>::new ](t: T) -> RwLock<T>;

/// Wraps a value in a reader-writer lock behind a shared, reference-counted handle.
pub fn arc_lock<T>(value: T) -> (r: Arc<RwLock<T>>) {
    let rwlock = RwLock::new(value);
    Arc::new(rwlock)
}

} // verus!
