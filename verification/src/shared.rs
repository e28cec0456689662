//! The lock that guards the buffer an aggregator shares with its writers.
//!
//! What the buffer holds at any moment depends on every writer that shares
//! it, so nothing in this module says what a lock protects while it is
//! shared, only what it was made with and what it gives back at the end:
//! the functions here give access, and the code that works on the buffer
//! states its effect on the buffer it is handed.

use crate::output::OutputBuffer;
use parking_lot::lock_api::{Mutex, MutexGuard};
use parking_lot::RawMutex;
use std::sync::Arc;
use vstd::prelude::*;

verus! {

#[verifier::external_type_specification]
#[verifier::external_body]
pub struct ExRawMutex(RawMutex);

#[verifier::external_type_specification]
#[verifier::external_body]
#[verifier::reject_recursive_types(R)]
#[verifier::reject_recursive_types(T)]
pub struct ExMutex<R, T: ?Sized>(Mutex<R, T>);

/// Exclusive access to the shared buffer, held until the value is dropped.
///
/// Trusted: holds a `parking_lot::MutexGuard`, whose type cannot be
/// described to the verifier.
#[verifier::external_body]
pub(crate) struct LockedBuffer<'a> {
    guard: MutexGuard<'a, RawMutex, OutputBuffer>,
}

/// The text of the buffer that `lock` was made with. It is fixed when the
/// lock is made; what the lock protects later is what its writers have made
/// of that text since, and has no name.
pub uninterp spec fn initial_text(lock: Mutex<RawMutex, OutputBuffer>) -> Seq<char>;

/// Puts `buffer` behind a new lock.
///
/// Trusted: wraps `parking_lot::Mutex::new`, which stores the value it is
/// given; [`initial_text`] is the name of that value's text.
#[verifier::external_body]
pub(crate) fn new_lock(buffer: OutputBuffer) -> (lock: Mutex<RawMutex, OutputBuffer>)
    ensures
        initial_text(lock) == buffer@,
{
    Mutex::new(buffer)
}

/// Another handle to the same lock.
///
/// Trusted: wraps `Arc::clone`, which returns a pointer to the same
/// allocation; the two handles therefore denote the same lock.
#[verifier::external_body]
pub(crate) fn share(handle: &Arc<Mutex<RawMutex, OutputBuffer>>) -> (other: Arc<Mutex<RawMutex, OutputBuffer>>)
    ensures
        other == *handle,
{
    Arc::clone(handle)
}

/// Waits for the lock and takes it.
///
/// Trusted: wraps `parking_lot::Mutex::lock`. It blocks while another holder
/// has the lock; callers in this crate never hold two guards at once.
#[verifier::external_body]
pub(crate) fn acquire<'a>(lock: &'a Mutex<RawMutex, OutputBuffer>) -> (locked: LockedBuffer<'a>) {
    LockedBuffer { guard: lock.lock() }
}

/// The buffer that the held lock protects.
///
/// Trusted: wraps `MutexGuard::deref_mut`.
#[verifier::external_body]
pub(crate) fn guarded_buffer<'a, 'b>(locked: &'a mut LockedBuffer<'b>) -> (buffer:
    &'a mut OutputBuffer) {
    &mut *locked.guard
}

/// The lock itself, if `handle` is the only handle left.
///
/// Trusted: wraps `Arc::try_unwrap`, which gives the inner value back exactly
/// when no other handle exists. Whether one exists is not visible here; a
/// lock that is given back is the one that `handle` pointed to.
#[verifier::external_body]
pub(crate) fn sole_owner(handle: Arc<Mutex<RawMutex, OutputBuffer>>) -> (lock: Option<
    Mutex<RawMutex, OutputBuffer>,
>)
    ensures
        lock matches Some(inner) ==> inner == *handle,
{
    match Arc::try_unwrap(handle) {
        Ok(inner) => Some(inner),
        Err(_) => None,
    }
}

/// The text of the buffer that `lock` gives back when it is given up. A
/// lock is given up once, when nothing shares it any more, so this is one
/// text: what its writers have made of [`initial_text`] by then.
pub uninterp spec fn final_text(lock: Mutex<RawMutex, OutputBuffer>) -> Seq<char>;

/// Consumes the lock and returns the buffer it protected.
///
/// Trusted: wraps `parking_lot::Mutex::into_inner`, which returns the value
/// that the lock holds; [`final_text`] is the name of that value's text.
#[verifier::external_body]
pub(crate) fn release_buffer(lock: Mutex<RawMutex, OutputBuffer>) -> (buffer: OutputBuffer)
    ensures
        buffer@ == final_text(lock),
{
    lock.into_inner()
}

} // verus!
