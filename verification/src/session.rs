//! How the in-memory stores answer the requests of a flow.
//!
//! A session is the committed stores together with the working copy of an
//! open transaction, if there is one. Inside a transaction every request
//! reads and writes the working copy; `Commit` makes the working copy the
//! committed stores; a working copy that is dropped leaves them untouched.

use vstd::prelude::*;
use crate::constraint::{StorageError, StorageErrorView};
use crate::error::ErrorView;
use crate::protocol::{CommandView, Reply, ReplyView, StorageRequest, StorageRequestView};
use crate::store::{duplicate_email, duplicate_username, missing_credential, Store, StoreView};
use crate::text::owned;

verus! {

/// The view of an optional working copy.
pub open spec fn working_view(transaction: Option<Store>) -> Option<StoreView> {
    match transaction {
        Some(t) => Some(t@),
        None => None,
    }
}

/// A session after a request, with the reply.
pub struct Answer {
    pub store: StoreView,
    pub transaction: Option<StoreView>,
    pub reply: ReplyView,
}

/// The failure of a `Begin` inside a transaction.
pub open spec fn transaction_open() -> StorageErrorView {
    StorageErrorView {
        constraint: None,
        unique_violation: false,
        message: "a transaction is already open"@,
    }
}

/// The failure of a `Commit` outside a transaction.
pub open spec fn no_transaction() -> StorageErrorView {
    StorageErrorView { constraint: None, unique_violation: false, message: "no transaction is open"@ }
}

/// The stores that a request reads and writes: the working copy inside a
/// transaction, the committed stores outside.
pub open spec fn target(store: StoreView, transaction: Option<StoreView>) -> StoreView {
    match transaction {
        Some(t) => t,
        None => store,
    }
}

/// The session in which `written` has taken the place of the target, with
/// the reply.
pub open spec fn settle(
    store: StoreView,
    transaction: Option<StoreView>,
    written: StoreView,
    reply: ReplyView,
) -> Answer {
    match transaction {
        Some(_) => Answer { store, transaction: Some(written), reply },
        None => Answer { store: written, transaction: None, reply },
    }
}

/// What the stores do on a request, and what they reply.
pub open spec fn respond(
    store: StoreView,
    transaction: Option<StoreView>,
    request: StorageRequestView,
) -> Answer {
    let t = target(store, transaction);
    let unchanged = |reply: ReplyView| Answer { store, transaction, reply };
    match request {
        StorageRequestView::Begin => match transaction {
            Some(_) => unchanged(ReplyView::Failed(transaction_open())),
            None => Answer { store, transaction: Some(store), reply: ReplyView::Done },
        },
        StorageRequestView::Commit => match transaction {
            Some(working) => Answer { store: working, transaction: None, reply: ReplyView::Done },
            None => unchanged(ReplyView::Failed(no_transaction())),
        },
        StorageRequestView::FindCredential { email } => unchanged(
            ReplyView::Row(
                if t.has_email(email) {
                    Some(email)
                } else {
                    None
                },
            ),
        ),
        StorageRequestView::FindAccount { workspace_id, username } => unchanged(
            ReplyView::Row(
                if t.has_username(workspace_id, username) {
                    Some(username)
                } else {
                    None
                },
            ),
        ),
        StorageRequestView::InsertCredential { row } => if t.has_email(row.email) {
            unchanged(ReplyView::Failed(duplicate_email()))
        } else {
            settle(store, transaction, t.with_credential(row), ReplyView::Done)
        },
        StorageRequestView::InsertAccount { row } => if t.has_username(
            row.workspace_id,
            row.username,
        ) {
            unchanged(ReplyView::Failed(duplicate_username()))
        } else if !t.has_email(row.email) {
            unchanged(ReplyView::Failed(missing_credential()))
        } else {
            settle(store, transaction, t.with_account(row), ReplyView::Done)
        },
        StorageRequestView::UpdatePasswordHash { email, password_hash } => settle(
            store,
            transaction,
            t.with_password_hash(email, password_hash),
            ReplyView::Done,
        ),
    }
}

/// What a driver on these stores answers to a command: the stores answer a
/// storage request, and `hashed` is the answer to a request for a hash.
pub open spec fn answer(
    store: StoreView,
    transaction: Option<StoreView>,
    command: CommandView,
    hashed: Result<Seq<char>, ErrorView>,
) -> Answer {
    match command {
        CommandView::Storage(request) => respond(store, transaction, request),
        CommandView::Hash { password } => Answer {
            store,
            transaction,
            reply: ReplyView::Hashed(hashed),
        },
    }
}

/// The reply to a request on one set of stores that is neither `Begin` nor
/// `Commit`.
fn apply(target: &mut Store, request: StorageRequest) -> (reply: Reply)
    requires
        request@ !is Begin,
        request@ !is Commit,
    ensures
        respond(old(target)@, None, request@) == (Answer {
            store: final(target)@,
            transaction: None,
            reply: reply@,
        }),
{
    match request {
        StorageRequest::FindCredential { email } => {
            if target.credential(email.as_str()).is_some() {
                Reply::Row(Some(email))
            } else {
                Reply::Row(None)
            }
        },
        StorageRequest::FindAccount { workspace_id, username } => {
            if target.account(workspace_id.as_str(), username.as_str()).is_some() {
                Reply::Row(Some(username))
            } else {
                Reply::Row(None)
            }
        },
        StorageRequest::InsertCredential { row } => match target.insert_credential(row) {
            Ok(()) => Reply::Done,
            Err(e) => Reply::Failed(e),
        },
        StorageRequest::InsertAccount { row } => match target.insert_account(row) {
            Ok(()) => Reply::Done,
            Err(e) => Reply::Failed(e),
        },
        StorageRequest::UpdatePasswordHash { email, password_hash } => {
            target.update_password_hash(email.as_str(), password_hash);
            Reply::Done
        },
        _ => Reply::Done,
    }
}

/// Performs a request on the stores, inside the open transaction if there is
/// one.
pub fn perform(store: &mut Store, transaction: &mut Option<Store>, request: StorageRequest) -> (reply:
    Reply)
    ensures
        respond(old(store)@, working_view(*old(transaction)), request@) == (Answer {
            store: final(store)@,
            transaction: working_view(*final(transaction)),
            reply: reply@,
        }),
{
    match request {
        StorageRequest::Begin => {
            if transaction.is_some() {
                Reply::Failed(
                    StorageError {
                        constraint: None,
                        unique_violation: false,
                        message: owned("a transaction is already open"),
                    },
                )
            } else {
                *transaction = Some(store.duplicate());
                Reply::Done
            }
        },
        StorageRequest::Commit => {
            match transaction.take() {
                Some(working) => {
                    *store = working;
                    Reply::Done
                },
                None => Reply::Failed(
                    StorageError {
                        constraint: None,
                        unique_violation: false,
                        message: owned("no transaction is open"),
                    },
                ),
            }
        },
        other => {
            match transaction.take() {
                Some(working) => {
                    let mut working = working;
                    let reply = apply(&mut working, other);
                    *transaction = Some(working);
                    reply
                },
                None => apply(store, other),
            }
        },
    }
}

} // verus!
