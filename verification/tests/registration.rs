//! The registration pipeline end to end: validation, hashing, the
//! uniqueness pre-check and the store operations.

use users::{
    check_password, hashing::hash_password_string, register, Cleanable, Creatable, Deletable,
    FormError, Identifiable, NewUser, NewUserInput, Readable, RegistrationError, StoreError, User,
    UserStore, VerificationError,
};

fn input(username: &str, password1: &str, password2: &str) -> NewUserInput {
    NewUserInput {
        username: username.to_owned(),
        password1: password1.to_owned(),
        password2: password2.to_owned(),
    }
}

#[test]
fn user_created_and_deleted() {
    let mut conn = UserStore::new();
    let new = NewUser::new("testuser3000", "password123").create(&mut conn);

    assert!(new.is_ok());

    let deleted = new.unwrap().delete(&mut conn);

    assert!(deleted.is_ok());
}

#[test]
fn empty_username_raises_error() {
    let input = NewUserInput {
        username: "".to_owned(),
        password1: "password123".to_owned(),
        password2: "password123".to_owned(),
    };
    assert!(input.clean_username().is_err());
    let input = NewUserInput {
        username: "abc".to_owned(),
        password1: "password1".to_owned(),
        password2: "password1".to_owned(),
    };
    assert!(input.clean_username().is_err());
    let input = NewUserInput {
        username: "cyobero".to_owned(),
        password1: "password123".to_owned(),
        password2: "password123".to_owned(),
    };
    assert!(input.clean_username().is_ok());
}

#[test]
fn empty_password_fails() {
    let input = NewUserInput {
        username: "cyobero".to_owned(),
        password1: "".to_owned(),
        password2: "donesntmatter".to_owned(),
    };
    assert!(input.clean_password().is_err());
}

#[test]
fn password_mismatch_fails() {
    let input = NewUserInput {
        username: "cyobero".to_owned(),
        password1: "password123".to_owned(),
        password2: "password419".to_owned(),
    };
    assert!(input.clean_password().is_err());
}

#[test]
fn clean_password_succeeds() {
    let input = NewUserInput {
        username: "cyobero".to_owned(),
        password1: "password123".to_owned(),
        password2: "password123".to_owned(),
    };
    assert!(input.clean_password().is_ok());
}

#[test]
fn new_user_input_is_cleaned() {
    let input = NewUserInput {
        username: "cyobero".to_owned(),
        password1: "password123".to_owned(),
        password2: "password123".to_owned(),
    };
    let _new = input.clean();
    assert!(&_new.is_ok());
    assert_eq!(_new.unwrap().get_username(), "cyobero");
}

#[test]
fn user_already_exists_fails() {
    let mut conn = UserStore::new();
    NewUser::new("testuser1", "password69").create(&mut conn).unwrap();
    let _new = NewUser::new("testuser1", "password69")._verify_username(&conn);
    assert!(_new.is_err());
}

#[test]
fn username_is_available() {
    let mut conn = UserStore::new();
    NewUser::new("testuser1", "password69").create(&mut conn).unwrap();
    let _new = NewUser::new("testuser3000", "mypassword")._verify_username(&conn);
    assert!(_new.is_ok());
}

#[test]
fn username_boundaries() {
    assert_eq!(input("", "password123", "password123").clean_username().unwrap_err(), FormError::EmptyField);
    assert_eq!(input("a", "password123", "password123").clean_username().unwrap_err(), FormError::FieldTooShort);
    assert_eq!(input("abc", "password123", "password123").clean_username().unwrap_err(), FormError::FieldTooShort);
    assert!(input("abcd", "password123", "password123").clean_username().is_ok());
}

#[test]
fn password_boundaries() {
    assert_eq!(input("cyobero", "", "").clean_password().unwrap_err(), FormError::EmptyField);
    assert_eq!(input("cyobero", "1234567", "1234567").clean_password().unwrap_err(), FormError::FieldTooShort);
    assert_eq!(
        input("cyobero", "12345678", "12345679").clean_password().unwrap_err(),
        FormError::PasswordMismatch
    );
    assert!(input("cyobero", "12345678", "12345678").clean_password().is_ok());
}

#[test]
fn validation_order_username_first() {
    let r = input("", "", "").clean();
    assert_eq!(r.unwrap_err(), FormError::EmptyField);
    let r = input("abc", "short", "short").clean();
    assert_eq!(r.unwrap_err(), FormError::FieldTooShort);
    let r = input("cyobero", "short", "short").clean();
    assert_eq!(r.unwrap_err(), FormError::FieldTooShort);
}

#[test]
fn form_error_messages() {
    assert_eq!(FormError::EmptyField.to_string(), "FormError: EmptyField");
    assert_eq!(FormError::FieldTooShort.to_string(), "FormError: FieldTooShort");
    assert_eq!(FormError::PasswordMismatch.to_string(), "FormError: PasswordMismatch");
}

#[test]
fn hashing_is_salted_but_checkable() {
    let d1 = hash_password_string("secret").unwrap();
    let d2 = hash_password_string("secret").unwrap();
    assert_ne!(d1, d2);
    assert!(check_password("secret", &d1));
    assert!(check_password("secret", &d2));
    assert!(!check_password("not the secret", &d1));
    assert!(d1.starts_with("$6$"));
}

#[test]
fn register_fresh_username_succeeds() {
    let mut conn = UserStore::new();
    NewUser::new("testuser1", "password69").create(&mut conn).unwrap();
    let r = register(input("testuser3000", "password123", "password123"), &mut conn);
    let user = r.unwrap();
    assert_eq!(user._get_username(), "testuser3000");
    assert_eq!(*user._get_id(), 2);
    assert_ne!(user._get_password(), "password123");
    assert!(check_password("password123", user._get_password()));
}

#[test]
fn register_taken_username_fails() {
    let mut conn = UserStore::new();
    NewUser::new("testuser1", "password69").create(&mut conn).unwrap();
    let before = User::all(&conn).unwrap().len();
    let r = register(input("testuser1", "password123", "password123"), &mut conn);
    assert_eq!(r.unwrap_err(), RegistrationError::AlreadyExists);
    assert_eq!(User::all(&conn).unwrap().len(), before);
}

#[test]
fn register_rejects_bad_input() {
    let mut conn = UserStore::new();
    let r = register(input("", "password123", "password123"), &mut conn);
    assert_eq!(r.unwrap_err(), RegistrationError::Validation(FormError::EmptyField));
    let r = register(input("abc", "password123", "password123"), &mut conn);
    assert_eq!(r.unwrap_err(), RegistrationError::Validation(FormError::FieldTooShort));
    let r = register(input("cyobero", "pass", "pass"), &mut conn);
    assert_eq!(r.unwrap_err(), RegistrationError::Validation(FormError::FieldTooShort));
    let r = register(input("cyobero", "password123", "password419"), &mut conn);
    assert_eq!(r.unwrap_err(), RegistrationError::Validation(FormError::PasswordMismatch));
    assert!(User::all(&conn).unwrap().is_empty());
}

#[test]
fn duplicate_insert_hits_store_constraint() {
    let mut conn = UserStore::new();
    NewUser::new("testuser1", "digest-one").create(&mut conn).unwrap();
    let r = NewUser::new("testuser1", "digest-two").create(&mut conn);
    assert_eq!(r.unwrap_err(), StoreError::ConstraintViolation);
}

#[test]
fn verify_reports_already_exists() {
    let mut conn = UserStore::new();
    NewUser::new("testuser1", "digest-one").create(&mut conn).unwrap();
    let r = NewUser::new("testuser1", "digest-two")._verify_username(&conn);
    assert_eq!(r.unwrap_err(), VerificationError::AlreadyExists);
}

#[test]
fn created_then_deleted_is_gone() {
    let mut conn = UserStore::new();
    let user = NewUser::new("testuser3000", "password123").create(&mut conn).unwrap();
    let id = *user._get_id();
    let deleted = user.delete(&mut conn);
    assert!(deleted.is_ok());
    assert_eq!(*deleted.unwrap()._get_id(), id);
    let looked_up = User::with_id(&conn, &id);
    assert_eq!(looked_up.unwrap_err(), StoreError::NotFound);
}

#[test]
fn lookup_existing_id_returns_row() {
    let mut conn = UserStore::new();
    let created = NewUser::new("testuser1", "digest-one").create(&mut conn).unwrap();
    let found = User::with_id(&conn, created.get_id()).unwrap();
    assert_eq!(*found.get_id(), *created.get_id());
    assert_eq!(found._get_username(), "testuser1");
}

#[test]
fn lookup_missing_id_fails() {
    let conn = UserStore::new();
    let r = User::with_id(&conn, &42);
    assert_eq!(r.unwrap_err(), StoreError::NotFound);
}

#[test]
fn all_is_idempotent_without_writes() {
    let mut conn = UserStore::new();
    NewUser::new("testuser1", "digest-one").create(&mut conn).unwrap();
    NewUser::new("testuser2", "digest-two").create(&mut conn).unwrap();
    let first: Vec<(i32, String)> = User::all(&conn)
        .unwrap()
        .iter()
        .map(|u| (*u._get_id(), u._get_username().clone()))
        .collect();
    let second: Vec<(i32, String)> = User::all(&conn)
        .unwrap()
        .iter()
        .map(|u| (*u._get_id(), u._get_username().clone()))
        .collect();
    assert_eq!(first, second);
    assert_eq!(first.len(), 2);
}

#[test]
fn ids_grow_and_are_not_reused() {
    let mut conn = UserStore::new();
    let first = NewUser::new("testuser1", "digest-one").create(&mut conn).unwrap();
    assert_eq!(*first._get_id(), 1);
    first.delete(&mut conn).unwrap();
    let second = NewUser::new("testuser2", "digest-two").create(&mut conn).unwrap();
    assert_eq!(*second._get_id(), 2);
}
