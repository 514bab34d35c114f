//! What a flow asks of its driver, and what the driver answers.
//!
//! A flow never touches storage or the hasher itself. Each step hands the
//! driver one [`Command`]; the driver performs it and hands the [`Reply`] to
//! the next step, until the step hands back the flow's result. A driver that
//! opened a transaction and is handed a result while the transaction is still
//! open discards the transaction.

use vstd::prelude::*;
use crate::constraint::{StorageError, StorageErrorView};
use crate::error::{Error, ErrorView};
use crate::model::{Account, AccountView, Credential, CredentialView};
use crate::text::opt_chars;

verus! {

/// One operation of the storage layer.
#[derive(Debug, Clone, PartialEq, Eq)]
pub enum StorageRequest {
    /// Open a transaction; the requests that follow run inside it.
    Begin,
    /// Look up the credential with this email.
    FindCredential { email: String },
    /// Look up the account with this username in this workspace.
    FindAccount { workspace_id: String, username: String },
    /// Insert a credential.
    InsertCredential { row: Credential },
    /// Insert an account.
    InsertAccount { row: Account },
    /// Replace the password hash of the credential with this email.
    UpdatePasswordHash { email: String, password_hash: String },
    /// Commit the open transaction.
    Commit,
}

/// What the driver is to do next.
#[derive(Debug, Clone, PartialEq, Eq)]
pub enum Command {
    /// Perform this request on the storage layer.
    Storage(StorageRequest),
    /// Hash this password with the credential hasher.
    Hash { password: String },
}

/// The driver's answer to a command.
#[derive(Debug, PartialEq, Eq)]
pub enum Reply {
    /// A `Begin`, an insert, an update or a `Commit` succeeded.
    Done,
    /// A lookup succeeded: the key of the row that it found, if any.
    Row(Option<String>),
    /// The hasher's result.
    Hashed(Result<String, Error>),
    /// The storage request failed.
    Failed(StorageError),
}

/// The confirmation of a completed flow.
#[derive(Debug, Clone, PartialEq, Eq)]
pub struct Confirmation {
    /// The status for the transport layer.
    pub status: u16,
    /// The message for the caller.
    pub message: String,
}

/// The outcome of one step of a flow.
#[derive(Debug, PartialEq, Eq)]
pub enum Next {
    /// The driver performs the command and hands its reply to the next step.
    Perform(Command),
    /// The flow has ended with this result.
    Finish(Result<Confirmation, Error>),
}

/// A [`StorageRequest`] with its texts as sequences of characters.
pub enum StorageRequestView {
    Begin,
    FindCredential { email: Seq<char> },
    FindAccount { workspace_id: Seq<char>, username: Seq<char> },
    InsertCredential { row: CredentialView },
    InsertAccount { row: AccountView },
    UpdatePasswordHash { email: Seq<char>, password_hash: Seq<char> },
    Commit,
}

/// A [`Command`] with its texts as sequences of characters.
pub enum CommandView {
    Storage(StorageRequestView),
    Hash { password: Seq<char> },
}

/// A [`Reply`] with its texts as sequences of characters.
pub enum ReplyView {
    Done,
    Row(Option<Seq<char>>),
    Hashed(Result<Seq<char>, ErrorView>),
    Failed(StorageErrorView),
}

/// A [`Confirmation`] with its message as a sequence of characters.
pub struct ConfirmationView {
    pub status: u16,
    pub message: Seq<char>,
}

/// A [`Next`] with its texts as sequences of characters.
pub enum NextView {
    Perform(CommandView),
    Finish(Result<ConfirmationView, ErrorView>),
}

impl View for StorageRequest {
    type V = StorageRequestView;

    open spec fn view(&self) -> StorageRequestView {
        match *self {
            StorageRequest::Begin => StorageRequestView::Begin,
            StorageRequest::FindCredential { email } => StorageRequestView::FindCredential {
                email: email@,
            },
            StorageRequest::FindAccount {
                workspace_id,
                username,
            } => StorageRequestView::FindAccount {
                workspace_id: workspace_id@,
                username: username@,
            },
            StorageRequest::InsertCredential { row } => StorageRequestView::InsertCredential {
                row: row@,
            },
            StorageRequest::InsertAccount { row } => StorageRequestView::InsertAccount { row: row@ },
            StorageRequest::UpdatePasswordHash {
                email,
                password_hash,
            } => StorageRequestView::UpdatePasswordHash {
                email: email@,
                password_hash: password_hash@,
            },
            StorageRequest::Commit => StorageRequestView::Commit,
        }
    }
}

impl View for Command {
    type V = CommandView;

    open spec fn view(&self) -> CommandView {
        match *self {
            Command::Storage(request) => CommandView::Storage(request@),
            Command::Hash { password } => CommandView::Hash { password: password@ },
        }
    }
}

impl View for Reply {
    type V = ReplyView;

    open spec fn view(&self) -> ReplyView {
        match *self {
            Reply::Done => ReplyView::Done,
            Reply::Row(key) => ReplyView::Row(opt_chars(key)),
            Reply::Hashed(Ok(hash)) => ReplyView::Hashed(Ok(hash@)),
            Reply::Hashed(Err(e)) => ReplyView::Hashed(Err(e@)),
            Reply::Failed(e) => ReplyView::Failed(e@),
        }
    }
}

impl View for Confirmation {
    type V = ConfirmationView;

    open spec fn view(&self) -> ConfirmationView {
        ConfirmationView { status: self.status, message: self.message@ }
    }
}

impl View for Next {
    type V = NextView;

    open spec fn view(&self) -> NextView {
        match *self {
            Next::Perform(command) => NextView::Perform(command@),
            Next::Finish(Ok(confirmation)) => NextView::Finish(Ok(confirmation@)),
            Next::Finish(Err(e)) => NextView::Finish(Err(e@)),
        }
    }
}

/// The status of a completed flow.
pub const STATUS_OK: u16 = 200;

/// The storage failure as an internal error: the storage layer's description
/// becomes the detail.
pub open spec fn storage_fault(e: StorageErrorView) -> ErrorView {
    ErrorView::InternalError(e.message)
}

/// The error for a reply that does not answer the command that was handed out.
pub open spec fn unexpected_reply() -> ErrorView {
    ErrorView::InternalError("unexpected reply"@)
}

/// The error for a step on a flow that has already ended.
pub open spec fn already_finished() -> ErrorView {
    ErrorView::InternalError("flow already finished"@)
}

/// The result in `next`; a flow that is stepped although it has ended hands
/// back a result, never a command.
pub open spec fn result_of(next: NextView) -> Result<ConfirmationView, ErrorView> {
    match next {
        NextView::Finish(result) => result,
        NextView::Perform(_) => Err(already_finished()),
    }
}

} // verus!
