//! A small user-registration backend: a staged, fail-fast pipeline that
//! turns untrusted form input into a persisted, uniqueness-checked,
//! credential-hashed user row, built over a generic persistence
//! capability contract, together with the plain product catalogue
//! entities the same service exposes.

use vstd::prelude::*;

pub mod caps;
pub mod hashing;
pub mod models;
pub mod products;
pub mod store;
pub mod validate;

pub use crate::caps::{Cleanable, Creatable, Deletable, Hashable, Identifiable, Readable, Verifiable};
pub use crate::hashing::{check_password, HashingError};
pub use crate::models::{NewUser, User};
pub use crate::products::{Category, Family, NewProduct, Product};
pub use crate::store::{StoreError, UserStore, VerificationError};
pub use crate::validate::{FormError, NewUserInput};

use crate::caps::result_view;
use crate::hashing::sha512_matches;
use crate::models::UserView;
use crate::store::rows_contain_username;
use crate::validate::form_error;

verus! {

/// Why one registration attempt failed.
#[derive(Debug, Clone, Copy, PartialEq, Eq, Structural)]
pub enum RegistrationError {
    /// The raw input broke a validation rule; surfaced verbatim.
    Validation(FormError),
    /// The username is already taken, found by the pre-insert check or
    /// reported by the storage-level uniqueness constraint.
    AlreadyExists,
    /// The hashing subsystem could not be set up: a configuration fault,
    /// not a fault of the request.
    HashingUnavailable,
    /// The store cannot take another row.
    StoreUnavailable,
}

/// The tail of the pipeline, once the candidate row carries its digest:
/// the uniqueness pre-check, then the insert, with every store fault
/// mapped to its user-facing error.
pub fn register_hashed(user: NewUser, store: &mut UserStore) -> (r: Result<
    User,
    RegistrationError,
>)
    requires
        old(store).wf(),
    ensures
        final(store).wf(),
        rows_contain_username(old(store)@.rows, user@.username) ==> r == Err::<
            User,
            RegistrationError,
        >(RegistrationError::AlreadyExists) && final(store)@ == old(store)@,
        !rows_contain_username(old(store)@.rows, user@.username) && old(store)@.next_id
            == i32::MAX ==> r == Err::<User, RegistrationError>(RegistrationError::StoreUnavailable)
            && final(store)@ == old(store)@,
        !rows_contain_username(old(store)@.rows, user@.username) && old(store)@.next_id
            < i32::MAX ==> result_view(r) == Ok::<UserView, RegistrationError>(
            UserView {
                id: old(store)@.next_id,
                username: user@.username,
                password: user@.password,
            },
        ) && final(store)@.rows == old(store)@.rows.push(
            UserView {
                id: old(store)@.next_id,
                username: user@.username,
                password: user@.password,
            },
        ) && final(store)@.next_id == old(store)@.next_id + 1,
{
    let user = match user._verify_username(store) {
        Ok(u) => u,
        Err(_) => return Err(RegistrationError::AlreadyExists),
    };
    match user.create(store) {
        Ok(row) => Ok(row),
        Err(StoreError::ConstraintViolation) => Err(RegistrationError::AlreadyExists),
        Err(StoreError::Unavailable) => Err(RegistrationError::StoreUnavailable),
        Err(StoreError::NotFound) => Err(RegistrationError::StoreUnavailable),
    }
}

/// The registration orchestrator: clean, hash, verify, create, strictly
/// in that order, stopping at the first failure. On success the persisted
/// row carries the store-assigned identity, the requested username and a
/// digest that verifies against the requested password.
pub fn register(input: NewUserInput, store: &mut UserStore) -> (r: Result<User, RegistrationError>)
    requires
        old(store).wf(),
    ensures
        final(store).wf(),
        form_error(input@) matches Some(e) ==> r == Err::<User, RegistrationError>(
            RegistrationError::Validation(e),
        ) && final(store)@ == old(store)@,
        form_error(input@) is None ==> match r {
            Ok(u) => !rows_contain_username(old(store)@.rows, input@.username) && u@.id == old(
                store,
            )@.next_id && u@.username == input@.username && sha512_matches(
                input@.password1,
                u@.password,
            ) && final(store)@.rows == old(store)@.rows.push(u@) && final(store)@.next_id == old(
                store,
            )@.next_id + 1,
            Err(RegistrationError::Validation(_)) => false,
            Err(RegistrationError::AlreadyExists) => rows_contain_username(
                old(store)@.rows,
                input@.username,
            ) && final(store)@ == old(store)@,
            Err(RegistrationError::HashingUnavailable) => final(store)@ == old(store)@,
            Err(RegistrationError::StoreUnavailable) => !rows_contain_username(
                old(store)@.rows,
                input@.username,
            ) && old(store)@.next_id == i32::MAX && final(store)@ == old(store)@,
        },
{
    let cleaned = match input.clean() {
        Ok(c) => c,
        Err(e) => return Err(RegistrationError::Validation(e)),
    };
    let hashed = match cleaned.hash_password() {
        Ok(h) => h,
        Err(_) => return Err(RegistrationError::HashingUnavailable),
    };
    register_hashed(hashed, store)
}

} // verus!
