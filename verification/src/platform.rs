//! What the library takes from outside its own proofs: the source of fresh
//! identifiers, the clock, and the readers-writer guard of the standard
//! library. Each item states what is believed of the call it makes.

use crate::film_repository::film_store::FilmStore;
use crate::models::{hyphenated, is_random_uuid, FilmId, FilmView, Timestamp};
use std::sync::{RwLock, RwLockReadGuard, RwLockWriteGuard};
use vstd::prelude::*;

verus! {

/// Calls `uuid::Uuid::new_v4` and takes the 128 bits of what it returns. The
/// bits are random but for the version and the variant, which the call sets.
/// The call panics where the operating system gives no random bytes.
#[verifier::external_body]
pub(crate) fn fresh_id() -> (id: FilmId)
    ensures
        is_random_uuid(id@),
{
    FilmId { value: uuid::Uuid::new_v4().as_u128() }
}

/// Calls `uuid::Uuid::to_string` on the UUID with the bits of `id`, which
/// writes it in the hyphenated form with lower-case digits.
#[verifier::external_body]
pub(crate) fn uuid_text(id: FilmId) -> (text: String)
    ensures
        text@ == hyphenated(id@),
{
    uuid::Uuid::from_u128(id.value).to_string()
}

/// Calls `chrono::Utc::now` and takes the seconds and nanoseconds of what it
/// returns. Nothing is claimed of the reading: the system clock may be set
/// back between two calls. The call panics where the clock reads a time
/// before 1970.
#[verifier::external_body]
pub(crate) fn now() -> Timestamp {
    let reading = chrono::Utc::now();
    Timestamp { secs: reading.timestamp(), nanos: reading.timestamp_subsec_nanos() }
}

/// `std::sync::RwLock`, carried as an opaque value.
#[verifier::external_type_specification]
#[verifier::external_body]
#[verifier::reject_recursive_types(T)]
pub struct StdRwLock<T: ?Sized>(RwLock<T>);

/// `std::sync::RwLockReadGuard`, carried as an opaque value.
#[verifier::external_type_specification]
#[verifier::external_body]
#[verifier::reject_recursive_types(T)]
pub struct StdRwLockReadGuard<'a, T: ?Sized>(RwLockReadGuard<'a, T>);

/// `std::sync::RwLockWriteGuard`, carried as an opaque value.
#[verifier::external_type_specification]
#[verifier::external_body]
#[verifier::reject_recursive_types(T)]
pub struct StdRwLockWriteGuard<'a, T: ?Sized + 'a>(RwLockWriteGuard<'a, T>);

/// The films of the store that `lock` was made around: what was handed to
/// `RwLock::new` when the guard was built. It tells nothing of what the
/// guard holds now, which every change under the guard replaces.
pub uninterp spec fn made_around(lock: RwLock<FilmStore>) -> Map<u128, FilmView>;

/// Calls `RwLock::new`: a guard around `store`, held by nobody. The guard
/// starts out holding the value that it was given.
#[verifier::external_body]
pub(crate) fn guarded(store: FilmStore) -> (lock: RwLock<FilmStore>)
    ensures
        made_around(lock) == store@,
{
    RwLock::new(store)
}

/// Calls `RwLock::read`, which waits until no writer holds the guard. `None`
/// stands for the error that the call returns once a writer has panicked
/// while it held the guard. Where the calling thread holds the guard already
/// the call may panic or never return; no function of this library acquires
/// the guard while it holds it.
#[verifier::external_body]
pub(crate) fn acquire_read<'a, T>(lock: &'a RwLock<T>) -> Option<RwLockReadGuard<'a, T>> {
    match lock.read() {
        Ok(guard) => Some(guard),
        Err(_) => None,
    }
}

/// Calls `RwLock::write`, which waits until nobody else holds the guard.
/// `None` stands for the error that the call returns once a writer has
/// panicked while it held the guard. Where the calling thread holds the
/// guard already the call may panic or never return; no function of this
/// library acquires the guard while it holds it.
#[verifier::external_body]
pub(crate) fn acquire_write<'a, T>(lock: &'a RwLock<T>) -> Option<RwLockWriteGuard<'a, T>> {
    match lock.write() {
        Ok(guard) => Some(guard),
        Err(_) => None,
    }
}

/// Calls `Deref::deref` of a read guard: the guarded value, for reading.
#[verifier::external_body]
pub(crate) fn shared<'g, 'a, T>(guard: &'g RwLockReadGuard<'a, T>) -> &'g T {
    &**guard
}

/// Calls `DerefMut::deref_mut` of a write guard: the guarded value, for
/// changing in place.
#[verifier::external_body]
pub(crate) fn exclusive<'g, 'a, T>(guard: &'g mut RwLockWriteGuard<'a, T>) -> &'g mut T {
    &mut **guard
}

} // verus!
