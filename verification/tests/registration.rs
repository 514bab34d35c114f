use account_provisioning::constraint::StorageError;
use account_provisioning::error::Error;
use account_provisioning::hasher::CredentialHasher;
use account_provisioning::model::{Account, ApiAuthed, Credential, NewUser};
use account_provisioning::protocol::{Command, Confirmation, Next, Reply, StorageRequest};
use account_provisioning::registrar::{create_user, Registration, RegistrationPhase};
use account_provisioning::store::Store;
use argon2::{Argon2, PasswordHash, PasswordVerifier};

fn hasher() -> CredentialHasher {
    CredentialHasher::new(8, 1, 1)
}

fn admin() -> ApiAuthed {
    ApiAuthed { email: "root@x.com".to_string(), is_admin: true }
}

fn request(name: Option<&str>, email: &str) -> NewUser {
    NewUser {
        email: email.to_string(),
        password: "pw".to_string(),
        super_admin: false,
        name: name.map(|n| n.to_string()),
        company: None,
    }
}

fn rejected(constraint: Option<&str>, unique_violation: bool) -> Reply {
    Reply::Failed(StorageError {
        constraint: constraint.map(|c| c.to_string()),
        unique_violation,
        message: "storage said no".to_string(),
    })
}

/// A registration of alice that has been stepped up to the given phase.
fn at_phase(phase: RegistrationPhase) -> Registration {
    Registration {
        phase,
        email: "a@x.com".to_string(),
        username: "alice".to_string(),
        password: "pw".to_string(),
        super_admin: false,
        company: None,
    }
}

#[test]
fn register_alice_against_empty_store() {
    let mut store = Store::new();
    let result = create_user(&admin(), &mut store, &hasher(), request(Some("alice"), "a@x.com"));
    assert_eq!(result, Ok((200, "User created successfully".to_string())));

    let credential = store.credential("a@x.com").expect("credential row");
    assert_eq!(credential.email, "a@x.com");
    assert_eq!(credential.login_type, "password");
    assert_eq!(credential.name, "alice");
    assert_eq!(credential.company, None);
    assert!(credential.verified);
    assert!(!credential.super_admin);

    let account = store.account("starter", "alice").expect("account row");
    assert_eq!(
        account,
        Account {
            workspace_id: "starter".to_string(),
            username: "alice".to_string(),
            email: "a@x.com".to_string(),
            is_admin: false,
            role: "alice".to_string(),
        }
    );
    assert_eq!(store.credential_count(), 1);
    assert_eq!(store.account_count(), 1);
}

#[test]
fn registered_hash_verifies_the_password() {
    let mut store = Store::new();
    create_user(&admin(), &mut store, &hasher(), request(Some("alice"), "a@x.com")).unwrap();
    let credential = store.credential("a@x.com").unwrap();
    assert_ne!(credential.password_hash, "pw");
    let parsed = PasswordHash::new(&credential.password_hash).expect("a PHC string");
    assert!(Argon2::default().verify_password(b"pw", &parsed).is_ok());
    assert!(Argon2::default().verify_password(b"other", &parsed).is_err());
}

#[test]
fn register_same_email_again_conflicts() {
    let mut store = Store::new();
    create_user(&admin(), &mut store, &hasher(), request(Some("alice"), "a@x.com")).unwrap();
    let credential_before = store.credential("a@x.com").unwrap();
    let account_before = store.account("starter", "alice").unwrap();

    let result = create_user(&admin(), &mut store, &hasher(), request(Some("bob"), "a@x.com"));
    assert_eq!(result, Err(Error::Conflict("email exists".to_string())));

    assert_eq!(store.credential_count(), 1);
    assert_eq!(store.account_count(), 1);
    assert_eq!(store.credential("a@x.com"), Some(credential_before));
    assert_eq!(store.account("starter", "alice"), Some(account_before));
    assert_eq!(store.account("starter", "bob"), None);
}

#[test]
fn register_same_username_conflicts() {
    let mut store = Store::new();
    create_user(&admin(), &mut store, &hasher(), request(Some("alice"), "a@x.com")).unwrap();
    let result = create_user(&admin(), &mut store, &hasher(), request(Some("alice"), "b@x.com"));
    assert_eq!(result, Err(Error::Conflict("username exists".to_string())));
    assert_eq!(store.credential("b@x.com"), None);
    assert_eq!(store.credential_count(), 1);
    assert_eq!(store.account_count(), 1);
}

#[test]
fn username_of_another_workspace_does_not_conflict() {
    let mut store = Store::new();
    store
        .insert_credential(Credential {
            email: "c@x.com".to_string(),
            password_hash: "h".to_string(),
            login_type: "password".to_string(),
            super_admin: false,
            verified: true,
            name: "carol".to_string(),
            company: None,
        })
        .unwrap();
    let elsewhere = Account {
        workspace_id: "other".to_string(),
        username: "alice".to_string(),
        email: "c@x.com".to_string(),
        is_admin: false,
        role: "alice".to_string(),
    };
    store.insert_account(elsewhere.clone()).unwrap();

    let result = create_user(&admin(), &mut store, &hasher(), request(Some("alice"), "a@x.com"));
    assert_eq!(result, Ok((200, "User created successfully".to_string())));
    assert_eq!(store.account("other", "alice"), Some(elsewhere));
    assert_eq!(store.account("starter", "alice").unwrap().email, "a@x.com");
    assert_eq!(store.account_count(), 2);
}

#[test]
fn register_without_name_is_invalid() {
    let mut store = Store::new();
    let result = create_user(&admin(), &mut store, &hasher(), request(None, "a@x.com"));
    assert_eq!(result, Err(Error::InvalidRequest("Name is required".to_string())));
    assert_eq!(store.credential_count(), 0);
    assert_eq!(store.account_count(), 0);
}

#[test]
fn register_with_failing_hasher_is_internal_and_writes_nothing() {
    let mut store = Store::new();
    let broken = CredentialHasher::new(8, 0, 1);
    let result = create_user(&admin(), &mut store, &broken, request(Some("alice"), "a@x.com"));
    assert!(matches!(result, Err(Error::InternalError(_))));
    assert_eq!(store.credential_count(), 0);
    assert_eq!(store.account_count(), 0);
}

#[test]
fn register_super_admin_with_company() {
    let mut store = Store::new();
    let nu = NewUser {
        email: "s@x.com".to_string(),
        password: "pw".to_string(),
        super_admin: true,
        name: Some("sam".to_string()),
        company: Some("acme".to_string()),
    };
    create_user(&admin(), &mut store, &hasher(), nu).unwrap();
    let credential = store.credential("s@x.com").unwrap();
    assert!(credential.super_admin);
    assert_eq!(credential.company, Some("acme".to_string()));
    assert!(store.account("starter", "sam").unwrap().is_admin);
}

#[test]
fn flow_hands_out_commands_in_order() {
    let (state, next) = Registration::start(request(Some("alice"), "a@x.com"));
    assert_eq!(state.phase, RegistrationPhase::Started);
    assert_eq!(next, Next::Perform(Command::Storage(StorageRequest::Begin)));

    let (state, next) = state.step(Reply::Done);
    assert_eq!(state.phase, RegistrationPhase::Opened);
    assert_eq!(
        next,
        Next::Perform(Command::Storage(StorageRequest::FindCredential {
            email: "a@x.com".to_string()
        }))
    );

    let (state, next) = state.step(Reply::Row(None));
    assert_eq!(state.phase, RegistrationPhase::EmailChecked);
    assert_eq!(
        next,
        Next::Perform(Command::Storage(StorageRequest::FindAccount {
            workspace_id: "starter".to_string(),
            username: "alice".to_string()
        }))
    );

    let (state, next) = state.step(Reply::Row(None));
    assert_eq!(state.phase, RegistrationPhase::UsernameChecked);
    assert_eq!(next, Next::Perform(Command::Hash { password: "pw".to_string() }));

    let (state, next) = state.step(Reply::Hashed(Ok("$hash".to_string())));
    assert_eq!(state.phase, RegistrationPhase::Hashed);
    assert_eq!(
        next,
        Next::Perform(Command::Storage(StorageRequest::InsertCredential {
            row: Credential {
                email: "a@x.com".to_string(),
                password_hash: "$hash".to_string(),
                login_type: "password".to_string(),
                super_admin: false,
                verified: true,
                name: "alice".to_string(),
                company: None,
            }
        }))
    );

    let (state, next) = state.step(Reply::Done);
    assert_eq!(state.phase, RegistrationPhase::CredentialWritten);
    assert_eq!(
        next,
        Next::Perform(Command::Storage(StorageRequest::InsertAccount {
            row: Account {
                workspace_id: "starter".to_string(),
                username: "alice".to_string(),
                email: "a@x.com".to_string(),
                is_admin: false,
                role: "alice".to_string(),
            }
        }))
    );

    let (state, next) = state.step(Reply::Done);
    assert_eq!(state.phase, RegistrationPhase::AccountWritten);
    assert_eq!(next, Next::Perform(Command::Storage(StorageRequest::Commit)));

    let (state, next) = state.step(Reply::Done);
    assert_eq!(state.phase, RegistrationPhase::Committed);
    assert!(state.finished());
    assert_eq!(
        next,
        Next::Finish(Ok(Confirmation {
            status: 200,
            message: "User created successfully".to_string()
        }))
    );
}

#[test]
fn email_format_violation_on_credential_insert() {
    let (state, next) = at_phase(RegistrationPhase::Hashed).step(rejected(Some("proper_email"), false));
    assert_eq!(state.phase, RegistrationPhase::Aborted);
    assert_eq!(next, Next::Finish(Err(Error::ValidationFailed("invalid email".to_string()))));
}

#[test]
fn username_format_violation_on_account_insert() {
    let (state, next) =
        at_phase(RegistrationPhase::CredentialWritten).step(rejected(Some("proper_username"), false));
    assert_eq!(state.phase, RegistrationPhase::Aborted);
    assert_eq!(next, Next::Finish(Err(Error::ValidationFailed("invalid username".to_string()))));
}

#[test]
fn uniqueness_violation_on_insert_is_a_conflict() {
    let (_, next) = at_phase(RegistrationPhase::Hashed).step(rejected(Some("password_pkey"), true));
    assert_eq!(next, Next::Finish(Err(Error::Conflict("email exists".to_string()))));
    let (_, next) =
        at_phase(RegistrationPhase::CredentialWritten).step(rejected(Some("usr_pkey"), true));
    assert_eq!(next, Next::Finish(Err(Error::Conflict("username exists".to_string()))));
}

#[test]
fn other_insert_failure_is_internal() {
    let (_, next) = at_phase(RegistrationPhase::Hashed).step(rejected(Some("some_rule"), false));
    assert_eq!(next, Next::Finish(Err(Error::InternalError("storage said no".to_string()))));
    let (_, next) = at_phase(RegistrationPhase::CredentialWritten).step(rejected(None, false));
    assert_eq!(next, Next::Finish(Err(Error::InternalError("storage said no".to_string()))));
}

#[test]
fn storage_fault_outside_inserts_is_internal() {
    for phase in [
        RegistrationPhase::Started,
        RegistrationPhase::Opened,
        RegistrationPhase::EmailChecked,
        RegistrationPhase::AccountWritten,
    ] {
        let (state, next) = at_phase(phase).step(rejected(Some("proper_email"), true));
        assert_eq!(state.phase, RegistrationPhase::Aborted);
        assert_eq!(next, Next::Finish(Err(Error::InternalError("storage said no".to_string()))));
    }
}

#[test]
fn lookup_hits_abort_before_any_write() {
    let (state, next) =
        at_phase(RegistrationPhase::Opened).step(Reply::Row(Some("a@x.com".to_string())));
    assert_eq!(state.phase, RegistrationPhase::Aborted);
    assert_eq!(next, Next::Finish(Err(Error::Conflict("email exists".to_string()))));
    let (state, next) =
        at_phase(RegistrationPhase::EmailChecked).step(Reply::Row(Some("alice".to_string())));
    assert_eq!(state.phase, RegistrationPhase::Aborted);
    assert_eq!(next, Next::Finish(Err(Error::Conflict("username exists".to_string()))));
}

#[test]
fn hash_failure_aborts_with_the_hasher_error() {
    let (state, next) = at_phase(RegistrationPhase::UsernameChecked)
        .step(Reply::Hashed(Err(Error::InternalError("no entropy".to_string()))));
    assert_eq!(state.phase, RegistrationPhase::Aborted);
    assert_eq!(next, Next::Finish(Err(Error::InternalError("no entropy".to_string()))));
}

#[test]
fn unexpected_reply_aborts() {
    let (state, next) = at_phase(RegistrationPhase::Started).step(Reply::Row(None));
    assert_eq!(state.phase, RegistrationPhase::Aborted);
    assert_eq!(next, Next::Finish(Err(Error::InternalError("unexpected reply".to_string()))));
}

#[test]
fn finished_flow_takes_no_further_reply() {
    for phase in [RegistrationPhase::Committed, RegistrationPhase::Aborted] {
        let (state, next) = at_phase(phase).step(Reply::Done);
        assert_eq!(state.phase, phase);
        assert_eq!(
            next,
            Next::Finish(Err(Error::InternalError("flow already finished".to_string())))
        );
    }
}
