use account_provisioning::constraint::StorageError;
use account_provisioning::model::{Account, Credential};
use account_provisioning::protocol::{Reply, StorageRequest};
use account_provisioning::session::perform;
use account_provisioning::store::Store;

fn credential(email: &str, hash: &str) -> Credential {
    Credential {
        email: email.to_string(),
        password_hash: hash.to_string(),
        login_type: "password".to_string(),
        super_admin: false,
        verified: true,
        name: "n".to_string(),
        company: None,
    }
}

fn account(workspace_id: &str, username: &str, email: &str) -> Account {
    Account {
        workspace_id: workspace_id.to_string(),
        username: username.to_string(),
        email: email.to_string(),
        is_admin: false,
        role: username.to_string(),
    }
}

#[test]
fn empty_store_has_no_rows() {
    let store = Store::new();
    assert_eq!(store.credential_count(), 0);
    assert_eq!(store.account_count(), 0);
    assert_eq!(store.credential("a@x.com"), None);
    assert_eq!(store.account("starter", "alice"), None);
}

#[test]
fn email_is_unique_across_the_store() {
    let mut store = Store::new();
    assert_eq!(store.insert_credential(credential("a@x.com", "h1")), Ok(()));
    assert_eq!(
        store.insert_credential(credential("a@x.com", "h2")),
        Err(StorageError {
            constraint: None,
            unique_violation: true,
            message: "duplicate email".to_string()
        })
    );
    assert_eq!(store.credential("a@x.com"), Some(credential("a@x.com", "h1")));
    assert_eq!(store.credential_count(), 1);
}

#[test]
fn username_is_unique_within_a_workspace_only() {
    let mut store = Store::new();
    store.insert_credential(credential("a@x.com", "h")).unwrap();
    store.insert_credential(credential("b@x.com", "h")).unwrap();
    assert_eq!(store.insert_account(account("starter", "alice", "a@x.com")), Ok(()));
    assert_eq!(
        store.insert_account(account("starter", "alice", "b@x.com")),
        Err(StorageError {
            constraint: None,
            unique_violation: true,
            message: "duplicate username in workspace".to_string()
        })
    );
    assert_eq!(store.insert_account(account("other", "alice", "b@x.com")), Ok(()));
    assert_eq!(store.account("starter", "alice").unwrap().email, "a@x.com");
    assert_eq!(store.account("other", "alice").unwrap().email, "b@x.com");
    assert_eq!(store.account_count(), 2);
}

#[test]
fn account_needs_its_credential() {
    let mut store = Store::new();
    assert_eq!(
        store.insert_account(account("starter", "alice", "a@x.com")),
        Err(StorageError {
            constraint: None,
            unique_violation: false,
            message: "account refers to a missing credential".to_string()
        })
    );
    assert_eq!(store.account_count(), 0);
}

#[test]
fn update_replaces_one_hash() {
    let mut store = Store::new();
    store.insert_credential(credential("a@x.com", "h1")).unwrap();
    store.insert_credential(credential("b@x.com", "h2")).unwrap();
    store.update_password_hash("b@x.com", "h3".to_string());
    assert_eq!(store.credential("a@x.com"), Some(credential("a@x.com", "h1")));
    assert_eq!(store.credential("b@x.com"), Some(credential("b@x.com", "h3")));
    store.update_password_hash("nobody@x.com", "h4".to_string());
    assert_eq!(store.credential_count(), 2);
    assert_eq!(store.credential("nobody@x.com"), None);
}

#[test]
fn copy_is_independent() {
    let mut store = Store::new();
    store.insert_credential(credential("a@x.com", "h1")).unwrap();
    let mut copy = store.duplicate();
    copy.insert_credential(credential("b@x.com", "h2")).unwrap();
    assert_eq!(store.credential_count(), 1);
    assert_eq!(copy.credential_count(), 2);
    assert_eq!(copy.credential("a@x.com"), Some(credential("a@x.com", "h1")));
}

#[test]
fn writes_in_a_transaction_show_after_commit_only() {
    let mut store = Store::new();
    let mut tx = None;
    assert_eq!(perform(&mut store, &mut tx, StorageRequest::Begin), Reply::Done);
    let insert = StorageRequest::InsertCredential { row: credential("a@x.com", "h") };
    assert_eq!(perform(&mut store, &mut tx, insert), Reply::Done);
    assert_eq!(store.credential_count(), 0);
    let find = StorageRequest::FindCredential { email: "a@x.com".to_string() };
    assert_eq!(perform(&mut store, &mut tx, find), Reply::Row(Some("a@x.com".to_string())));
    assert_eq!(perform(&mut store, &mut tx, StorageRequest::Commit), Reply::Done);
    assert!(tx.is_none());
    assert_eq!(store.credential("a@x.com"), Some(credential("a@x.com", "h")));
}

#[test]
fn dropped_transaction_leaves_no_row() {
    let mut store = Store::new();
    let mut tx = None;
    perform(&mut store, &mut tx, StorageRequest::Begin);
    perform(
        &mut store,
        &mut tx,
        StorageRequest::InsertCredential { row: credential("a@x.com", "h") },
    );
    perform(
        &mut store,
        &mut tx,
        StorageRequest::InsertAccount { row: account("starter", "alice", "a@x.com") },
    );
    drop(tx);
    assert_eq!(store.credential_count(), 0);
    assert_eq!(store.account_count(), 0);
}

#[test]
fn requests_outside_a_transaction_write_through() {
    let mut store = Store::new();
    let mut tx = None;
    let insert = StorageRequest::InsertCredential { row: credential("a@x.com", "h") };
    assert_eq!(perform(&mut store, &mut tx, insert), Reply::Done);
    let update = StorageRequest::UpdatePasswordHash {
        email: "a@x.com".to_string(),
        password_hash: "h2".to_string(),
    };
    assert_eq!(perform(&mut store, &mut tx, update), Reply::Done);
    assert_eq!(store.credential("a@x.com"), Some(credential("a@x.com", "h2")));
    let find = StorageRequest::FindAccount {
        workspace_id: "starter".to_string(),
        username: "alice".to_string(),
    };
    assert_eq!(perform(&mut store, &mut tx, find), Reply::Row(None));
}

#[test]
fn transaction_control_out_of_place_fails() {
    let mut store = Store::new();
    let mut tx = None;
    assert_eq!(
        perform(&mut store, &mut tx, StorageRequest::Commit),
        Reply::Failed(StorageError {
            constraint: None,
            unique_violation: false,
            message: "no transaction is open".to_string()
        })
    );
    assert_eq!(perform(&mut store, &mut tx, StorageRequest::Begin), Reply::Done);
    assert_eq!(
        perform(&mut store, &mut tx, StorageRequest::Begin),
        Reply::Failed(StorageError {
            constraint: None,
            unique_violation: false,
            message: "a transaction is already open".to_string()
        })
    );
    assert!(tx.is_some());
}

#[test]
fn duplicate_insert_in_session_is_a_uniqueness_failure() {
    let mut store = Store::new();
    let mut tx = None;
    perform(&mut store, &mut tx, StorageRequest::InsertCredential { row: credential("a@x.com", "h") });
    let reply =
        perform(&mut store, &mut tx, StorageRequest::InsertCredential { row: credential("a@x.com", "h") });
    assert!(matches!(reply, Reply::Failed(StorageError { unique_violation: true, .. })));
}
