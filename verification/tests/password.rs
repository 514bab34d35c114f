use account_provisioning::constraint::StorageError;
use account_provisioning::error::Error;
use account_provisioning::hasher::CredentialHasher;
use account_provisioning::model::{ApiAuthed, EditPassword, NewUser};
use account_provisioning::password::{set_password, PasswordChange, PasswordPhase};
use account_provisioning::protocol::{Command, Confirmation, Next, Reply, StorageRequest};
use account_provisioning::registrar::create_user;
use account_provisioning::store::Store;
use argon2::{Argon2, PasswordHash, PasswordVerifier};

fn cheap() -> CredentialHasher {
    CredentialHasher::new(8, 1, 1)
}

fn requestor(email: &str, is_admin: bool) -> ApiAuthed {
    ApiAuthed { email: email.to_string(), is_admin }
}

fn store_with_alice() -> Store {
    let mut store = Store::new();
    let nu = NewUser {
        email: "a@x.com".to_string(),
        password: "pw".to_string(),
        super_admin: false,
        name: Some("alice".to_string()),
        company: None,
    };
    create_user(&requestor("root@x.com", true), &mut store, &cheap(), nu).unwrap();
    store
}

fn new_password(password: &str) -> EditPassword {
    EditPassword { password: password.to_string() }
}

fn change_at(phase: PasswordPhase) -> PasswordChange {
    PasswordChange { phase, email: "a@x.com".to_string(), password: "newpw".to_string() }
}

#[test]
fn admin_sets_password() {
    let mut store = store_with_alice();
    let before = store.credential("a@x.com").unwrap();
    let account_before = store.account("starter", "alice").unwrap();

    let result = set_password(
        &mut store,
        &cheap(),
        &requestor("root@x.com", true),
        "a@x.com",
        new_password("newpw"),
    );
    assert_eq!(result, Ok("Password updated successfully".to_string()));

    let after = store.credential("a@x.com").unwrap();
    assert_ne!(after.password_hash, before.password_hash);
    let parsed = PasswordHash::new(&after.password_hash).unwrap();
    assert!(Argon2::default().verify_password(b"newpw", &parsed).is_ok());
    assert!(Argon2::default().verify_password(b"pw", &parsed).is_err());

    assert_eq!(after.email, before.email);
    assert_eq!(after.login_type, before.login_type);
    assert_eq!(after.name, before.name);
    assert_eq!(after.verified, before.verified);
    assert_eq!(after.super_admin, before.super_admin);
    assert_eq!(after.company, before.company);
    assert_eq!(store.account("starter", "alice"), Some(account_before));
    assert_eq!(store.credential_count(), 1);
    assert_eq!(store.account_count(), 1);
}

#[test]
fn owner_sets_own_password() {
    let mut store = store_with_alice();
    let result = set_password(
        &mut store,
        &cheap(),
        &requestor("a@x.com", false),
        "a@x.com",
        new_password("mine"),
    );
    assert_eq!(result, Ok("Password updated successfully".to_string()));
    let after = store.credential("a@x.com").unwrap();
    let parsed = PasswordHash::new(&after.password_hash).unwrap();
    assert!(Argon2::default().verify_password(b"mine", &parsed).is_ok());
}

#[test]
fn same_password_again_gets_a_new_hash() {
    let mut store = store_with_alice();
    let before = store.credential("a@x.com").unwrap();
    set_password(&mut store, &cheap(), &requestor("a@x.com", false), "a@x.com", new_password("pw"))
        .unwrap();
    let after = store.credential("a@x.com").unwrap();
    assert_ne!(after.password_hash, before.password_hash);
}

#[test]
fn stranger_is_unauthorized_and_hash_stays() {
    let mut store = store_with_alice();
    let before = store.credential("a@x.com").unwrap();
    let result = set_password(
        &mut store,
        &cheap(),
        &requestor("b@x.com", false),
        "a@x.com",
        new_password("newpw"),
    );
    assert_eq!(
        result,
        Err(Error::Unauthorized("Not authorized to change this password".to_string()))
    );
    assert_eq!(store.credential("a@x.com"), Some(before));
}

#[test]
fn stranger_is_refused_even_for_unknown_target() {
    let mut store = store_with_alice();
    let result = set_password(
        &mut store,
        &cheap(),
        &requestor("b@x.com", false),
        "nobody@x.com",
        new_password("newpw"),
    );
    assert!(matches!(result, Err(Error::Unauthorized(_))));
}

#[test]
fn unknown_target_is_not_found() {
    let mut store = store_with_alice();
    let before = store.credential("a@x.com").unwrap();
    let result = set_password(
        &mut store,
        &cheap(),
        &requestor("root@x.com", true),
        "nobody@x.com",
        new_password("newpw"),
    );
    assert_eq!(result, Err(Error::NotFound("User not found".to_string())));
    assert_eq!(store.credential("a@x.com"), Some(before));
    assert_eq!(store.credential("nobody@x.com"), None);
    assert_eq!(store.credential_count(), 1);
}

#[test]
fn failing_hasher_is_internal_and_hash_stays() {
    let mut store = store_with_alice();
    let before = store.credential("a@x.com").unwrap();
    let broken = CredentialHasher::new(8, 1, 0);
    let result = set_password(
        &mut store,
        &broken,
        &requestor("root@x.com", true),
        "a@x.com",
        new_password("newpw"),
    );
    assert!(matches!(result, Err(Error::InternalError(_))));
    assert_eq!(store.credential("a@x.com"), Some(before));
}

#[test]
fn change_hands_out_commands_in_order() {
    let (state, next) =
        PasswordChange::start(&requestor("root@x.com", true), "a@x.com", new_password("newpw"));
    assert_eq!(state.phase, PasswordPhase::Authorized);
    assert_eq!(
        next,
        Next::Perform(Command::Storage(StorageRequest::FindCredential {
            email: "a@x.com".to_string()
        }))
    );

    let (state, next) = state.step(Reply::Row(Some("a@x.com".to_string())));
    assert_eq!(state.phase, PasswordPhase::Found);
    assert_eq!(next, Next::Perform(Command::Hash { password: "newpw".to_string() }));

    let (state, next) = state.step(Reply::Hashed(Ok("$new".to_string())));
    assert_eq!(state.phase, PasswordPhase::Hashed);
    assert_eq!(
        next,
        Next::Perform(Command::Storage(StorageRequest::UpdatePasswordHash {
            email: "a@x.com".to_string(),
            password_hash: "$new".to_string()
        }))
    );

    let (state, next) = state.step(Reply::Done);
    assert_eq!(state.phase, PasswordPhase::Updated);
    assert!(state.finished());
    assert_eq!(
        next,
        Next::Finish(Ok(Confirmation {
            status: 200,
            message: "Password updated successfully".to_string()
        }))
    );
}

#[test]
fn refused_requestor_gets_no_command() {
    let (state, next) =
        PasswordChange::start(&requestor("b@x.com", false), "a@x.com", new_password("newpw"));
    assert_eq!(state.phase, PasswordPhase::Aborted);
    assert!(state.finished());
    assert_eq!(
        next,
        Next::Finish(Err(Error::Unauthorized(
            "Not authorized to change this password".to_string()
        )))
    );
}

#[test]
fn storage_fault_during_change_is_internal() {
    let fault = || {
        Reply::Failed(StorageError {
            constraint: Some("proper_email".to_string()),
            unique_violation: false,
            message: "connection lost".to_string(),
        })
    };
    for phase in [PasswordPhase::Authorized, PasswordPhase::Hashed] {
        let (state, next) = change_at(phase).step(fault());
        assert_eq!(state.phase, PasswordPhase::Aborted);
        assert_eq!(next, Next::Finish(Err(Error::InternalError("connection lost".to_string()))));
    }
}

#[test]
fn change_rejects_unexpected_and_late_replies() {
    let (_, next) = change_at(PasswordPhase::Found).step(Reply::Done);
    assert_eq!(next, Next::Finish(Err(Error::InternalError("unexpected reply".to_string()))));
    let (state, next) = change_at(PasswordPhase::Updated).step(Reply::Done);
    assert_eq!(state.phase, PasswordPhase::Updated);
    assert_eq!(next, Next::Finish(Err(Error::InternalError("flow already finished".to_string()))));
}
