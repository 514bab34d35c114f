//! What holds of every registration and of every change of password.
//!
//! The laws are stated over [`registered`] and [`password_changed`], the
//! functions in which `create_user` and `set_password` state what they do to
//! the in-memory stores, and over the steps of the two flows.

use vstd::prelude::*;
use crate::error::ErrorView;
use crate::model::{account_row, credential_row, default_workspace, NewUserView};
use crate::password::{
    authorized, not_authorized, password_changed, password_updated, user_not_found,
};
use crate::protocol::{CommandView, ConfirmationView, NextView, ReplyView, StorageRequestView};
use crate::registrar::{
    email_exists, registered, user_created, username_exists, RegistrationPhase, RegistrationView,
};
use crate::store::{
    lemma_with_account_wf, lemma_with_credential_wf, lemma_with_password_hash_wf, StoreView,
};

verus! {

/// A registration with a display name, an email that no credential has and a
/// username that no account of the default workspace has succeeds whenever
/// the hasher gives a hash. Afterwards a credential and an account exist that
/// share the email, the account is the one of that username in the default
/// workspace, and the stores are well-formed.
pub proof fn lemma_fresh_pair_registers(store: StoreView, nu: NewUserView, hash: Seq<char>)
    requires
        store.wf(),
        nu.name is Some,
        !store.has_email(nu.email),
        !store.has_username(default_workspace(), nu.name->0),
    ensures
        registered(store, nu, Ok(hash)).1 == Ok::<ConfirmationView, ErrorView>(user_created()),
        registered(store, nu, Ok(hash)).0.wf(),
        registered(store, nu, Ok(hash)).0.has_email(nu.email),
        registered(store, nu, Ok(hash)).0.has_account_of(nu.email),
        registered(store, nu, Ok(hash)).0.has_username(default_workspace(), nu.name->0),
        registered(store, nu, Ok(hash)).0.credentials == store.credentials.push(
            credential_row(nu.email, nu.name->0, nu.super_admin, nu.company, hash),
        ),
        registered(store, nu, Ok(hash)).0.accounts == store.accounts.push(
            account_row(nu.email, nu.name->0, nu.super_admin),
        ),
{
    let name = nu.name->0;
    let credential = credential_row(nu.email, name, nu.super_admin, nu.company, hash);
    let account = account_row(nu.email, name, nu.super_admin);
    let working = store.with_credential(credential);
    lemma_with_credential_wf(store, credential);
    assert(working.accounts == store.accounts);
    assert(!working.has_username(default_workspace(), name));
    lemma_with_account_wf(working, account);
    let after = working.with_account(account);
    assert(after.credentials == working.credentials);
    assert(after.has_email(nu.email));
}

/// A registration whose email a credential already has fails with the
/// conflict on the email, whatever the hasher would give, and leaves both
/// stores as they were.
pub proof fn lemma_taken_email_conflicts(
    store: StoreView,
    nu: NewUserView,
    hashed: Result<Seq<char>, ErrorView>,
)
    requires
        nu.name is Some,
        store.has_email(nu.email),
    ensures
        registered(store, nu, hashed) == (store, Err::<ConfirmationView, ErrorView>(ErrorView::Conflict(email_exists()))),
{
}

/// A registration with a fresh email whose username an account of the
/// default workspace already has fails with the conflict on the username,
/// whatever the hasher would give, and leaves both stores as they were.
pub proof fn lemma_taken_username_conflicts(
    store: StoreView,
    nu: NewUserView,
    hashed: Result<Seq<char>, ErrorView>,
)
    requires
        nu.name is Some,
        !store.has_email(nu.email),
        store.has_username(default_workspace(), nu.name->0),
    ensures
        registered(store, nu, hashed) == (
            store,
            Err::<ConfirmationView, ErrorView>(ErrorView::Conflict(username_exists())),
        ),
{
}

/// A username that is taken in another workspace only does not stand in the
/// way of a registration, and the account of that other workspace is still
/// there afterwards.
pub proof fn lemma_username_of_other_workspace_is_free(
    store: StoreView,
    nu: NewUserView,
    hash: Seq<char>,
    workspace_id: Seq<char>,
)
    requires
        store.wf(),
        nu.name is Some,
        !store.has_email(nu.email),
        workspace_id != default_workspace(),
        store.has_username(workspace_id, nu.name->0),
        !store.has_username(default_workspace(), nu.name->0),
    ensures
        registered(store, nu, Ok(hash)).1 == Ok::<ConfirmationView, ErrorView>(user_created()),
        registered(store, nu, Ok(hash)).0.has_username(workspace_id, nu.name->0),
        registered(store, nu, Ok(hash)).0.has_username(default_workspace(), nu.name->0),
{
    lemma_fresh_pair_registers(store, nu, hash);
    let after = registered(store, nu, Ok(hash)).0;
    let i = choose|i: int|
        0 <= i < store.accounts.len() && (#[trigger] store.accounts[i]).workspace_id == workspace_id
            && store.accounts[i].username == nu.name->0;
    assert(after.accounts[i] == store.accounts[i]);
}

/// Whatever a registration is asked and whatever the hasher gives, it leaves
/// well-formed stores well-formed, and it either leaves them as they were and
/// fails, or succeeds.
pub proof fn lemma_registration_is_all_or_nothing(
    store: StoreView,
    nu: NewUserView,
    hashed: Result<Seq<char>, ErrorView>,
)
    requires
        store.wf(),
    ensures
        registered(store, nu, hashed).0.wf(),
        registered(store, nu, hashed).1 is Err ==> registered(store, nu, hashed).0 == store,
        registered(store, nu, hashed).1 is Ok ==> registered(store, nu, hashed).0.credentials.len()
            == store.credentials.len() + 1 && registered(store, nu, hashed).0.accounts.len()
            == store.accounts.len() + 1,
{
    if registered(store, nu, hashed).1 is Ok {
        lemma_fresh_pair_registers(store, nu, hashed->Ok_0);
    }
}

/// A registration hands out its commands in one order only. The username is
/// looked up only after the email was found free, the password is hashed
/// only after the username was found free, the credential is inserted only
/// with the hash that came back, the account is inserted only after the
/// credential was, and `Commit` comes only after the account was inserted.
pub proof fn lemma_commands_follow_in_order(state: RegistrationView, reply: ReplyView)
    ensures
        state.step(reply).1 matches NextView::Perform(
            CommandView::Storage(StorageRequestView::FindAccount { workspace_id, username }),
        ) ==> state.phase == RegistrationPhase::Opened && reply == ReplyView::Row(None),
        state.step(reply).1 matches NextView::Perform(CommandView::Hash { password })
            ==> state.phase == RegistrationPhase::EmailChecked && reply == ReplyView::Row(None),
        state.step(reply).1 matches NextView::Perform(
            CommandView::Storage(StorageRequestView::InsertCredential { row }),
        ) ==> state.phase == RegistrationPhase::UsernameChecked && reply == ReplyView::Hashed(
            Ok(row.password_hash),
        ),
        state.step(reply).1 matches NextView::Perform(
            CommandView::Storage(StorageRequestView::InsertAccount { row }),
        ) ==> state.phase == RegistrationPhase::Hashed && reply is Done,
        state.step(reply).1 == NextView::Perform(CommandView::Storage(StorageRequestView::Commit))
            ==> state.phase == RegistrationPhase::CredentialWritten && reply is Done,
        state.step(reply).1 matches NextView::Finish(Ok(_)) ==> state.phase
            == RegistrationPhase::AccountWritten && reply is Done,
{
}

/// A requestor who is no administrator and whose email is not the target's
/// is refused as unauthorised, whatever the hasher would give: no command is
/// handed out, and the stores, with every stored hash, stay as they were.
pub proof fn lemma_stranger_is_refused(
    store: StoreView,
    requestor: Seq<char>,
    target: Seq<char>,
    password: Seq<char>,
    hashed: Result<Seq<char>, ErrorView>,
)
    requires
        requestor != target,
    ensures
        password_changed(store, false, requestor, target, hashed) == (
            store,
            Err::<ConfirmationView, ErrorView>(not_authorized()),
        ),
        crate::password::start_spec(false, requestor, target, password).1 == NextView::Finish(
            Err(not_authorized()),
        ),
{
}

/// A change of the password of an email that no credential has, asked by a
/// requestor who may ask it, fails as not found, whatever the hasher would
/// give, and leaves the stores as they were; the flow hands out no command
/// after the lookup.
pub proof fn lemma_unknown_target_is_not_found(
    store: StoreView,
    is_admin: bool,
    requestor: Seq<char>,
    target: Seq<char>,
    password: Seq<char>,
    hashed: Result<Seq<char>, ErrorView>,
)
    requires
        authorized(is_admin, requestor, target),
        !store.has_email(target),
    ensures
        password_changed(store, is_admin, requestor, target, hashed) == (
            store,
            Err::<ConfirmationView, ErrorView>(user_not_found()),
        ),
        crate::password::start_spec(is_admin, requestor, target, password).0.step(
            ReplyView::Row(None),
        ).1 == NextView::Finish(Err(user_not_found())),
{
}

/// A change of password that succeeds gives the target's credential the new
/// hash and changes nothing else: every other field, every other credential
/// and every account stay, and the stores stay well-formed.
pub proof fn lemma_password_change_writes_one_hash(
    store: StoreView,
    is_admin: bool,
    requestor: Seq<char>,
    target: Seq<char>,
    hash: Seq<char>,
)
    requires
        store.wf(),
        authorized(is_admin, requestor, target),
        store.has_email(target),
    ensures
        password_changed(store, is_admin, requestor, target, Ok(hash)).1 == Ok::<ConfirmationView, ErrorView>(
            password_updated(),
        ),
        ({
            let after = password_changed(store, is_admin, requestor, target, Ok(hash)).0;
            &&& after.wf()
            &&& after.accounts == store.accounts
            &&& after.credentials.len() == store.credentials.len()
            &&& forall|i: int|
                0 <= i < store.credentials.len() ==> (#[trigger] after.credentials[i]) == (
                if store.credentials[i].email == target {
                    crate::model::CredentialView { password_hash: hash, ..store.credentials[i] }
                } else {
                    store.credentials[i]
                })
        }),
{
    lemma_with_password_hash_wf(store, target, hash);
}

} // verus!
