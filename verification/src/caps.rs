//! The persistence capability contract: one narrow trait per class of
//! operation, so that each entity opts into exactly the operations it
//! needs and an orchestrator composes them by plain result chaining.
//!
//! Every trait is generic over the backing store handle and declares the
//! spec functions its contract is stated over; an implementation supplies
//! both the spec and the code that meets it.

use vstd::prelude::*;

use crate::hashing::HashingError;

verus! {

/// The mathematical value of a result: the success value is replaced by
/// its view, the error carried across unchanged.
pub open spec fn result_view<T: View, E>(r: Result<T, E>) -> Result<<T as View>::V, E> {
    match r {
        Ok(t) => Ok(t@),
        Err(e) => Err(e),
    }
}

/// Input normalisation and validation, producing the next stage's type.
pub trait Cleanable: View + Sized {
    type Output: View;

    type Error;

    /// What this value cleans to, as a function of its mathematical value.
    spec fn clean_spec(self) -> Result<<Self::Output as View>::V, Self::Error>;

    /// Checks this value and, on success, carries it into the next
    /// stage's type; the first rule broken decides the error.
    fn clean(self) -> (r: Result<Self::Output, Self::Error>)
        ensures
            result_view(r) == self.clean_spec(),
    ;
}

/// One-way hashing of the secret a value carries.
pub trait Hashable<U: View>: Sized {
    /// When `out` is an acceptable hashed form of this value. Hashing is
    /// salted with fresh randomness, so this is a relation, not a function.
    spec fn hashes_to(self, out: <U as View>::V) -> bool;

    /// Hashes the secret inside this value, drawing a fresh salt. A value
    /// that comes back is an acceptable hashed form of the input; failure
    /// to set the hashing scheme up is reported, never a crash.
    fn hash_password(self) -> (r: Result<U, HashingError>)
        ensures
            r matches Ok(o) ==> self.hashes_to(o@),
    ;
}

/// A domain-specific pre-insert check against the store.
pub trait Verifiable<Store: View>: Sized {
    type Output: View;

    type Error;

    /// What the check yields on a store with the given contents.
    spec fn verify_spec(self, store: <Store as View>::V) -> Result<
        <Self::Output as View>::V,
        Self::Error,
    >;

    /// Runs the pre-insert check; the store is only read.
    fn verify(self, store: &Store) -> (r: Result<Self::Output, Self::Error>)
        ensures
            result_view(r) == self.verify_spec(store@),
    ;
}

/// Inserting one row and getting it back as the store assigned it.
pub trait Creatable<Store: View>: Sized {
    type Output: View;

    type Error;

    /// The well-formedness condition the store keeps across operations.
    spec fn store_inv(store: <Store as View>::V) -> bool;

    /// What the insert returns on a store with the given contents.
    spec fn create_spec(&self, store: <Store as View>::V) -> Result<
        <Self::Output as View>::V,
        Self::Error,
    >;

    /// The store contents after the insert.
    spec fn create_post(&self, store: <Store as View>::V) -> <Store as View>::V;

    /// Inserts one row, returning the row as the store assigned it,
    /// generated identity included.
    fn create(&self, store: &mut Store) -> (r: Result<Self::Output, Self::Error>)
        requires
            Self::store_inv(old(store)@),
        ensures
            result_view(r) == self.create_spec(old(store)@),
            final(store)@ == self.create_post(old(store)@),
            Self::store_inv(final(store)@),
    ;
}

/// Reading rows back out of the store.
pub trait Readable<Store: View>: Sized {
    type Output: View;

    type Error;

    /// The well-formedness condition the store keeps across operations.
    spec fn store_inv(store: <Store as View>::V) -> bool;

    /// What enumerating the store yields on the given contents.
    spec fn all_spec(store: <Store as View>::V) -> Result<
        Seq<<Self::Output as View>::V>,
        Self::Error,
    >;

    /// What looking one row up by identity yields on the given contents.
    spec fn with_id_spec(store: <Store as View>::V, id: i32) -> Result<
        <Self::Output as View>::V,
        Self::Error,
    >;

    /// Returns every row of the store.
    fn all(store: &Store) -> (r: Result<Vec<Self::Output>, Self::Error>)
        ensures
            (match r {
                Ok(v) => Ok::<_, Self::Error>(v@.map_values(|o: Self::Output| o@)),
                Err(e) => Err(e),
            }) == Self::all_spec(store@),
    ;

    /// Returns the row with the given identity, or the distinguished
    /// not-found outcome.
    fn with_id(store: &Store, id: &i32) -> (r: Result<Self::Output, Self::Error>)
        requires
            Self::store_inv(store@),
        ensures
            result_view(r) == Self::with_id_spec(store@, *id),
    ;
}

/// Deleting the row that matches a value's identity.
pub trait Deletable<Store: View>: Sized {
    type Output: View;

    type Error;

    /// The well-formedness condition the store keeps across operations.
    spec fn store_inv(store: <Store as View>::V) -> bool;

    /// What the delete returns on a store with the given contents.
    spec fn delete_spec(&self, store: <Store as View>::V) -> Result<
        <Self::Output as View>::V,
        Self::Error,
    >;

    /// The store contents after the delete.
    spec fn delete_post(&self, store: <Store as View>::V) -> <Store as View>::V;

    /// Deletes the row matching this value's identity, returning the
    /// deleted row.
    fn delete(&self, store: &mut Store) -> (r: Result<Self::Output, Self::Error>)
        requires
            Self::store_inv(old(store)@),
        ensures
            result_view(r) == self.delete_spec(old(store)@),
            final(store)@ == self.delete_post(old(store)@),
            Self::store_inv(final(store)@),
    ;
}

/// Having a stable identity.
pub trait Identifiable {
    type Id;

    /// The identity of this value.
    spec fn id_spec(&self) -> Self::Id;

    /// Hands the identity out.
    fn get_id(&self) -> (r: &Self::Id)
        ensures
            *r == self.id_spec(),
    ;
}

} // verus!
