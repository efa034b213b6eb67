//! Raw registration input and the checks that turn it into a trusted value.
//!
//! Validation is a pure function of the input: the username must be non-empty
//! and longer than three bytes, the password non-empty, longer than seven
//! bytes, and equal to its confirmation. Checks run in that order and the
//! first failure wins.

use vstd::prelude::*;

verus! {

/// A fault found in raw registration form input.
#[derive(Debug, Clone, Copy, PartialEq, Eq, Structural)]
pub enum FormError {
    EmptyField,
    FieldTooShort,
    PasswordMismatch,
}

impl FormError {
    /// The message the transport layer shows for this fault.
    pub fn to_string(&self) -> (r: String)
        ensures
            *self == FormError::EmptyField ==> r@ == "FormError: EmptyField"@,
            *self == FormError::FieldTooShort ==> r@ == "FormError: FieldTooShort"@,
            *self == FormError::PasswordMismatch ==> r@ == "FormError: PasswordMismatch"@,
    {
        match self {
            FormError::EmptyField => "FormError: EmptyField".to_owned(),
            FormError::FieldTooShort => "FormError: FieldTooShort".to_owned(),
            FormError::PasswordMismatch => "FormError: PasswordMismatch".to_owned(),
        }
    }
}

/// The byte length of a string value, the measure every length rule uses.
pub open spec fn byte_len(s: Seq<char>) -> nat {
    vstd::utf8::encode_utf8(s).len()
}

/// The fault, if any, that the username rules find: empty usernames are
/// rejected outright, usernames of one to three bytes are too short, and
/// four bytes or more pass.
pub open spec fn username_error(u: Seq<char>) -> Option<FormError> {
    if byte_len(u) == 0 {
        Some(FormError::EmptyField)
    } else if byte_len(u) <= 3 {
        Some(FormError::FieldTooShort)
    } else {
        None
    }
}

/// The fault, if any, that the password rules find: empty passwords are
/// rejected outright, passwords of one to seven bytes are too short, and
/// a password of eight bytes or more must equal its confirmation.
pub open spec fn password_error(p1: Seq<char>, p2: Seq<char>) -> Option<FormError> {
    if byte_len(p1) == 0 {
        Some(FormError::EmptyField)
    } else if byte_len(p1) <= 7 {
        Some(FormError::FieldTooShort)
    } else if p1 != p2 {
        Some(FormError::PasswordMismatch)
    } else {
        None
    }
}

/// The fault, if any, in one registration form as a whole: the username
/// rules run first, then the password rules, first failure wins.
pub open spec fn form_error(v: NewUserInputView) -> Option<FormError> {
    if username_error(v.username) is Some {
        username_error(v.username)
    } else {
        password_error(v.password1, v.password2)
    }
}

/// The mathematical value of one raw registration form.
pub ghost struct NewUserInputView {
    pub username: Seq<char>,
    pub password1: Seq<char>,
    pub password2: Seq<char>,
}

/// Raw, untrusted registration input as the transport layer hands it over.
#[derive(Debug)]
pub struct NewUserInput {
    pub username: String,
    pub password1: String,
    pub password2: String,
}

impl View for NewUserInput {
    type V = NewUserInputView;

    open spec fn view(&self) -> NewUserInputView {
        NewUserInputView {
            username: self.username@,
            password1: self.password1@,
            password2: self.password2@,
        }
    }
}

impl NewUserInput {
    /// Applies the username rules, passing the whole form through unchanged
    /// when they hold.
    pub fn clean_username(self) -> (r: Result<NewUserInput, FormError>)
        ensures
            username_error(self@.username) matches Some(e) ==> r == Err::<NewUserInput, FormError>(e),
            username_error(self@.username) is None ==> r == Ok::<NewUserInput, FormError>(self),
    {
        let n = self.username.as_str().as_bytes().len();
        if n == 0 {
            Err(FormError::EmptyField)
        } else if n <= 3 {
            Err(FormError::FieldTooShort)
        } else {
            Ok(self)
        }
    }

    /// Applies the password rules, passing the whole form through unchanged
    /// when they hold.
    pub fn clean_password(self) -> (r: Result<NewUserInput, FormError>)
        ensures
            password_error(self@.password1, self@.password2) matches Some(e)
                ==> r == Err::<NewUserInput, FormError>(e),
            password_error(self@.password1, self@.password2) is None
                ==> r == Ok::<NewUserInput, FormError>(self),
    {
        let n = self.password1.as_str().as_bytes().len();
        if n == 0 {
            Err(FormError::EmptyField)
        } else if n <= 7 {
            Err(FormError::FieldTooShort)
        } else if self.password1 == self.password2 {
            Ok(self)
        } else {
            Err(FormError::PasswordMismatch)
        }
    }
}

/// Usernames of at most three bytes always fail, the empty one with
/// `EmptyField` and the others with `FieldTooShort`; four bytes or more
/// always pass the username check.
pub proof fn lemma_username_rules(u: Seq<char>)
    ensures
        byte_len(u) == 0 ==> username_error(u) == Some(FormError::EmptyField),
        1 <= byte_len(u) <= 3 ==> username_error(u) == Some(FormError::FieldTooShort),
        byte_len(u) >= 4 ==> username_error(u) is None,
{
}

/// Passwords of at most seven bytes always fail, the empty one with
/// `EmptyField` and the others with `FieldTooShort`; with eight bytes or
/// more the check fails with `PasswordMismatch` exactly when the
/// confirmation differs, and passes exactly when it matches.
pub proof fn lemma_password_rules(p1: Seq<char>, p2: Seq<char>)
    ensures
        byte_len(p1) == 0 ==> password_error(p1, p2) == Some(FormError::EmptyField),
        1 <= byte_len(p1) <= 7 ==> password_error(p1, p2) == Some(FormError::FieldTooShort),
        byte_len(p1) >= 8 && p1 != p2 ==> password_error(p1, p2) == Some(FormError::PasswordMismatch),
        byte_len(p1) >= 8 && p1 == p2 ==> password_error(p1, p2) is None,
{
}

} // verus!
