//! The user entities: a candidate row waiting to be inserted and a
//! persisted row the store handed back.

use vstd::prelude::*;

use crate::caps::{Cleanable, Hashable, Identifiable};
use crate::hashing::{hash_password_string, sha512_matches, HashingError};
use crate::validate::{form_error, FormError, NewUserInput, NewUserInputView};

verus! {

/// The mathematical value of a candidate user row.
pub ghost struct NewUserView {
    pub username: Seq<char>,
    pub password: Seq<char>,
}

/// A candidate user row: a username and a password field that starts out
/// as the plaintext and is replaced by the digest before the row ever
/// reaches the store.
#[derive(Debug)]
pub struct NewUser {
    username: String,
    password: String,
}

impl View for NewUser {
    type V = NewUserView;

    closed spec fn view(&self) -> NewUserView {
        NewUserView { username: self.username@, password: self.password@ }
    }
}

impl NewUser {
    /// Builds a candidate row from its two fields.
    pub fn new(username: &str, password: &str) -> (r: Self)
        ensures
            r@.username == username@,
            r@.password == password@,
    {
        NewUser { username: username.to_owned(), password: password.to_owned() }
    }

    /// Hands the username out.
    pub fn get_username(&self) -> (r: &String)
        ensures
            r@ == self@.username,
    {
        &self.username
    }

    /// Hands the password field out to the store layer.
    pub(crate) fn password_field(&self) -> (r: &String)
        ensures
            r@ == self@.password,
    {
        &self.password
    }

    /// Replaces the password field by its salted one-way digest.
    pub fn _hash_password(self) -> (r: Result<NewUser, HashingError>)
        ensures
            r matches Ok(h) ==> h@.username == self@.username && sha512_matches(
                self@.password,
                h@.password,
            ),
    {
        let digest = match hash_password_string(self.password.as_str()) {
            Ok(d) => d,
            Err(e) => return Err(e),
        };
        Ok(NewUser { username: self.username, password: digest })
    }
}

/// The mathematical value of a persisted user row.
pub ghost struct UserView {
    pub id: i32,
    pub username: Seq<char>,
    pub password: Seq<char>,
}

/// A persisted user row: the store-assigned identity, the unique
/// username and the password digest.
#[derive(Debug)]
pub struct User {
    id: i32,
    username: String,
    password: String,
}

impl View for User {
    type V = UserView;

    closed spec fn view(&self) -> UserView {
        UserView { id: self.id, username: self.username@, password: self.password@ }
    }
}

impl Clone for User {
    /// The clone carries the same row.
    fn clone(&self) -> (r: Self)
        ensures
            r@ == self@,
    {
        User {
            id: self.id,
            username: self.username.clone(),
            password: self.password.clone(),
        }
    }
}

impl User {
    /// Builds the row the store assigns on an insert.
    pub(crate) fn from_parts(id: i32, username: String, password: String) -> (r: User)
        ensures
            r@ == (UserView { id, username: username@, password: password@ }),
    {
        User { id, username, password }
    }

    /// Hands the username out.
    pub fn _get_username(&self) -> (r: &String)
        ensures
            r@ == self@.username,
    {
        &self.username
    }

    /// Hands the store-assigned identity out.
    pub fn _get_id(&self) -> (r: &i32)
        ensures
            *r == self@.id,
    {
        &self.id
    }

    /// Hands the password digest out.
    pub fn _get_password(&self) -> (r: &String)
        ensures
            r@ == self@.password,
    {
        &self.password
    }
}

impl Identifiable for User {
    type Id = i32;

    open spec fn id_spec(&self) -> i32 {
        self@.id
    }

    fn get_id(&self) -> (r: &i32) {
        self._get_id()
    }
}

impl Cleanable for NewUserInput {
    type Output = NewUser;

    type Error = FormError;

    open spec fn clean_spec(self) -> Result<NewUserView, FormError> {
        match form_error(self@) {
            Some(e) => Err(e),
            None => Ok(NewUserView { username: self@.username, password: self@.password1 }),
        }
    }

    fn clean(self) -> (r: Result<NewUser, FormError>) {
        let cleaned = match self.clean_username() {
            Ok(c) => c,
            Err(e) => return Err(e),
        };
        let cleaned = match cleaned.clean_password() {
            Ok(c) => c,
            Err(e) => return Err(e),
        };
        let user = NewUser::new(cleaned.username.as_str(), cleaned.password1.as_str());
        Ok(user)
    }
}

impl Hashable<NewUser> for NewUser {
    open spec fn hashes_to(self, out: NewUserView) -> bool {
        out.username == self@.username && sha512_matches(self@.password, out.password)
    }

    fn hash_password(self) -> (r: Result<NewUser, HashingError>) {
        self._hash_password()
    }
}

impl Hashable<NewUserInput> for NewUserInput {
    open spec fn hashes_to(self, out: NewUserInputView) -> bool {
        out.username == self@.username && out.password2 == self@.password2 && sha512_matches(
            self@.password1,
            out.password1,
        )
    }

    fn hash_password(self) -> (r: Result<NewUserInput, HashingError>) {
        let digest = match hash_password_string(self.password1.as_str()) {
            Ok(d) => d,
            Err(e) => return Err(e),
        };
        Ok(NewUserInput { username: self.username, password1: digest, password2: self.password2 })
    }
}

} // verus!
