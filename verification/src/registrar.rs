//! Registration of an account: the credential and the account of the default
//! workspace, written in one transaction or not at all.
//!
//! [`Registration`] holds the decisions of the flow. It hands out one command
//! at a time and is told the reply; it never writes before both lookups have
//! found nothing, and it hands out `Commit` only after both inserts succeeded.

use vstd::prelude::*;
use crate::constraint::{handle_database_error, translate, StorageError, StorageErrorView};
use crate::error::{Error, ErrorView};
use crate::model::{account_row, credential_row, default_workspace, Account, Credential, NewUser, NewUserView};
use crate::protocol::{
    already_finished, result_of, storage_fault, unexpected_reply, Command, CommandView, Confirmation,
    ConfirmationView, Next, NextView, Reply, ReplyView, StorageRequest, StorageRequestView,
    STATUS_OK,
};
use crate::hasher::{hashed_view, CredentialHasher};
use crate::laws::lemma_fresh_pair_registers;
use crate::model::ApiAuthed;
use crate::session::{answer, perform, working_view};
use crate::store::{lemma_with_credential_wf, Store, StoreView};
use crate::text::{opt_chars, owned};

verus! {

/// How far a registration has come. Each phase but the last two waits for the
/// reply to the one command that was handed out on entering it.
#[derive(Debug, Clone, Copy, PartialEq, Eq, Structural)]
pub enum RegistrationPhase {
    /// The transaction is being opened.
    Started,
    /// The transaction is open; the email is being looked up.
    Opened,
    /// The email is free; the username is being looked up.
    EmailChecked,
    /// The username is free; the password is being hashed.
    UsernameChecked,
    /// The hash is there; the credential is being inserted.
    Hashed,
    /// The credential is written; the account is being inserted.
    CredentialWritten,
    /// The account is written; the transaction is being committed.
    AccountWritten,
    /// Both rows are committed.
    Committed,
    /// The registration failed; nothing of it is committed.
    Aborted,
}

/// A registration in progress.
#[derive(Debug, Clone, PartialEq, Eq)]
pub struct Registration {
    pub phase: RegistrationPhase,
    pub email: String,
    pub username: String,
    pub password: String,
    pub super_admin: bool,
    pub company: Option<String>,
}

/// A [`Registration`] with its texts as sequences of characters.
pub struct RegistrationView {
    pub phase: RegistrationPhase,
    pub email: Seq<char>,
    pub username: Seq<char>,
    pub password: Seq<char>,
    pub super_admin: bool,
    pub company: Option<Seq<char>>,
}

impl View for Registration {
    type V = RegistrationView;

    open spec fn view(&self) -> RegistrationView {
        RegistrationView {
            phase: self.phase,
            email: self.email@,
            username: self.username@,
            password: self.password@,
            super_admin: self.super_admin,
            company: opt_chars(self.company),
        }
    }
}

/// The message of the conflict on the email.
pub open spec fn email_exists() -> Seq<char> {
    "email exists"@
}

/// The message of the conflict on the username.
pub open spec fn username_exists() -> Seq<char> {
    "username exists"@
}

/// The confirmation of a completed registration.
pub open spec fn user_created() -> ConfirmationView {
    ConfirmationView { status: STATUS_OK, message: "User created successfully"@ }
}

/// The error for a failed insert: a violated uniqueness rule is the conflict
/// that the lookup before it would have reported; any other failure goes
/// through the table of format rules.
pub open spec fn insert_failure(e: StorageErrorView, conflict: Seq<char>) -> ErrorView {
    if e.unique_violation {
        ErrorView::Conflict(conflict)
    } else {
        translate(e)
    }
}

impl RegistrationView {
    /// The registration in another phase, with this command handed out.
    pub open spec fn advance(self, phase: RegistrationPhase, command: CommandView) -> (
        RegistrationView,
        NextView,
    ) {
        (RegistrationView { phase, ..self }, NextView::Perform(command))
    }

    /// The registration aborted with this error.
    pub open spec fn abort(self, error: ErrorView) -> (RegistrationView, NextView) {
        (RegistrationView { phase: RegistrationPhase::Aborted, ..self }, NextView::Finish(Err(error)))
    }

    /// Whether the flow has ended.
    pub open spec fn finished(self) -> bool {
        self.phase == RegistrationPhase::Committed || self.phase == RegistrationPhase::Aborted
    }

    /// The credential that this registration writes, with the given hash.
    pub open spec fn credential(self, password_hash: Seq<char>) -> crate::model::CredentialView {
        credential_row(self.email, self.username, self.super_admin, self.company, password_hash)
    }

    /// The account that this registration writes.
    pub open spec fn account(self) -> crate::model::AccountView {
        account_row(self.email, self.username, self.super_admin)
    }

    /// The registration after the reply to its outstanding command, and what
    /// comes next.
    pub open spec fn step(self, reply: ReplyView) -> (RegistrationView, NextView) {
        match self.phase {
            RegistrationPhase::Started => match reply {
                ReplyView::Done => self.advance(
                    RegistrationPhase::Opened,
                    CommandView::Storage(StorageRequestView::FindCredential { email: self.email }),
                ),
                ReplyView::Failed(e) => self.abort(storage_fault(e)),
                _ => self.abort(unexpected_reply()),
            },
            RegistrationPhase::Opened => match reply {
                ReplyView::Row(None) => self.advance(
                    RegistrationPhase::EmailChecked,
                    CommandView::Storage(
                        StorageRequestView::FindAccount {
                            workspace_id: default_workspace(),
                            username: self.username,
                        },
                    ),
                ),
                ReplyView::Row(Some(_)) => self.abort(ErrorView::Conflict(email_exists())),
                ReplyView::Failed(e) => self.abort(storage_fault(e)),
                _ => self.abort(unexpected_reply()),
            },
            RegistrationPhase::EmailChecked => match reply {
                ReplyView::Row(None) => self.advance(
                    RegistrationPhase::UsernameChecked,
                    CommandView::Hash { password: self.password },
                ),
                ReplyView::Row(Some(_)) => self.abort(ErrorView::Conflict(username_exists())),
                ReplyView::Failed(e) => self.abort(storage_fault(e)),
                _ => self.abort(unexpected_reply()),
            },
            RegistrationPhase::UsernameChecked => match reply {
                ReplyView::Hashed(Ok(hash)) => self.advance(
                    RegistrationPhase::Hashed,
                    CommandView::Storage(
                        StorageRequestView::InsertCredential { row: self.credential(hash) },
                    ),
                ),
                ReplyView::Hashed(Err(e)) => self.abort(e),
                _ => self.abort(unexpected_reply()),
            },
            RegistrationPhase::Hashed => match reply {
                ReplyView::Done => self.advance(
                    RegistrationPhase::CredentialWritten,
                    CommandView::Storage(StorageRequestView::InsertAccount { row: self.account() }),
                ),
                ReplyView::Failed(e) => self.abort(insert_failure(e, email_exists())),
                _ => self.abort(unexpected_reply()),
            },
            RegistrationPhase::CredentialWritten => match reply {
                ReplyView::Done => self.advance(
                    RegistrationPhase::AccountWritten,
                    CommandView::Storage(StorageRequestView::Commit),
                ),
                ReplyView::Failed(e) => self.abort(insert_failure(e, username_exists())),
                _ => self.abort(unexpected_reply()),
            },
            RegistrationPhase::AccountWritten => match reply {
                ReplyView::Done => (
                    RegistrationView { phase: RegistrationPhase::Committed, ..self },
                    NextView::Finish(Ok(user_created())),
                ),
                ReplyView::Failed(e) => self.abort(storage_fault(e)),
                _ => self.abort(unexpected_reply()),
            },
            RegistrationPhase::Committed => (self, NextView::Finish(Err(already_finished()))),
            RegistrationPhase::Aborted => (self, NextView::Finish(Err(already_finished()))),
        }
    }
}

/// The registration that a request starts, and what comes first: the opening
/// of the transaction, or the refusal of a request without a display name.
pub open spec fn start_spec(nu: NewUserView) -> (RegistrationView, NextView) {
    match nu.name {
        Some(name) => (
            RegistrationView {
                phase: RegistrationPhase::Started,
                email: nu.email,
                username: name,
                password: nu.password,
                super_admin: nu.super_admin,
                company: nu.company,
            },
            NextView::Perform(CommandView::Storage(StorageRequestView::Begin)),
        ),
        None => (
            RegistrationView {
                phase: RegistrationPhase::Aborted,
                email: nu.email,
                username: Seq::empty(),
                password: nu.password,
                super_admin: nu.super_admin,
                company: nu.company,
            },
            NextView::Finish(Err(ErrorView::InvalidRequest("Name is required"@))),
        ),
    }
}

impl Registration {
    /// Starts the registration that `nu` asks for.
    pub fn start(nu: NewUser) -> (out: (Registration, Next))
        ensures
            (out.0@, out.1@) == start_spec(nu@),
    {
        let NewUser { email, password, super_admin, name, company } = nu;
        match name {
            Some(username) => (
                Registration {
                    phase: RegistrationPhase::Started,
                    email,
                    username,
                    password,
                    super_admin,
                    company,
                },
                Next::Perform(Command::Storage(StorageRequest::Begin)),
            ),
            None => (
                Registration {
                    phase: RegistrationPhase::Aborted,
                    email,
                    username: String::new(),
                    password,
                    super_admin,
                    company,
                },
                Next::Finish(Err(Error::InvalidRequest(owned("Name is required")))),
            ),
        }
    }

    /// Whether the flow has ended.
    pub fn finished(&self) -> (ended: bool)
        ensures
            ended == self@.finished(),
    {
        match self.phase {
            RegistrationPhase::Committed => true,
            RegistrationPhase::Aborted => true,
            _ => false,
        }
    }

    fn advance(self, phase: RegistrationPhase, command: Command) -> (out: (Registration, Next))
        ensures
            (out.0@, out.1@) == self@.advance(phase, command@),
    {
        let mut state = self;
        state.phase = phase;
        (state, Next::Perform(command))
    }

    fn abort(self, error: Error) -> (out: (Registration, Next))
        ensures
            (out.0@, out.1@) == self@.abort(error@),
    {
        let mut state = self;
        state.phase = RegistrationPhase::Aborted;
        (state, Next::Finish(Err(error)))
    }

    fn unexpected(self) -> (out: (Registration, Next))
        ensures
            (out.0@, out.1@) == self@.abort(unexpected_reply()),
    {
        self.abort(Error::InternalError(owned("unexpected reply")))
    }

    fn insert_failed(self, e: StorageError, conflict: &str) -> (out: (Registration, Next))
        ensures
            (out.0@, out.1@) == self@.abort(insert_failure(e@, conflict@)),
    {
        if e.unique_violation {
            self.abort(Error::Conflict(owned(conflict)))
        } else {
            self.abort(handle_database_error(e))
        }
    }

    /// Takes the reply to the outstanding command and says what comes next.
    pub fn step(self, reply: Reply) -> (out: (Registration, Next))
        ensures
            (out.0@, out.1@) == self@.step(reply@),
    {
        match self.phase {
            RegistrationPhase::Started => match reply {
                Reply::Done => {
                    let email = self.email.clone();
                    self.advance(
                        RegistrationPhase::Opened,
                        Command::Storage(StorageRequest::FindCredential { email }),
                    )
                },
                Reply::Failed(e) => self.abort(Error::InternalError(e.message)),
                _ => self.unexpected(),
            },
            RegistrationPhase::Opened => match reply {
                Reply::Row(None) => {
                    let username = self.username.clone();
                    self.advance(
                        RegistrationPhase::EmailChecked,
                        Command::Storage(
                            StorageRequest::FindAccount { workspace_id: owned("starter"), username },
                        ),
                    )
                },
                Reply::Row(Some(_)) => self.abort(Error::Conflict(owned("email exists"))),
                Reply::Failed(e) => self.abort(Error::InternalError(e.message)),
                _ => self.unexpected(),
            },
            RegistrationPhase::EmailChecked => match reply {
                Reply::Row(None) => {
                    let password = self.password.clone();
                    self.advance(RegistrationPhase::UsernameChecked, Command::Hash { password })
                },
                Reply::Row(Some(_)) => self.abort(Error::Conflict(owned("username exists"))),
                Reply::Failed(e) => self.abort(Error::InternalError(e.message)),
                _ => self.unexpected(),
            },
            RegistrationPhase::UsernameChecked => match reply {
                Reply::Hashed(Ok(hash)) => {
                    let row = Credential::for_registration(
                        &self.email,
                        &self.username,
                        self.super_admin,
                        &self.company,
                        hash,
                    );
                    self.advance(
                        RegistrationPhase::Hashed,
                        Command::Storage(StorageRequest::InsertCredential { row }),
                    )
                },
                Reply::Hashed(Err(e)) => self.abort(e),
                _ => self.unexpected(),
            },
            RegistrationPhase::Hashed => match reply {
                Reply::Done => {
                    let row = Account::for_registration(&self.email, &self.username, self.super_admin);
                    self.advance(
                        RegistrationPhase::CredentialWritten,
                        Command::Storage(StorageRequest::InsertAccount { row }),
                    )
                },
                Reply::Failed(e) => self.insert_failed(e, "email exists"),
                _ => self.unexpected(),
            },
            RegistrationPhase::CredentialWritten => match reply {
                Reply::Done => self.advance(
                    RegistrationPhase::AccountWritten,
                    Command::Storage(StorageRequest::Commit),
                ),
                Reply::Failed(e) => self.insert_failed(e, "username exists"),
                _ => self.unexpected(),
            },
            RegistrationPhase::AccountWritten => match reply {
                Reply::Done => {
                    let mut state = self;
                    state.phase = RegistrationPhase::Committed;
                    (
                        state,
                        Next::Finish(
                            Ok(
                                Confirmation {
                                    status: STATUS_OK,
                                    message: owned("User created successfully"),
                                },
                            ),
                        ),
                    )
                },
                Reply::Failed(e) => self.abort(Error::InternalError(e.message)),
                _ => self.unexpected(),
            },
            RegistrationPhase::Committed => (
                self,
                Next::Finish(Err(Error::InternalError(owned("flow already finished")))),
            ),
            RegistrationPhase::Aborted => (
                self,
                Next::Finish(Err(Error::InternalError(owned("flow already finished")))),
            ),
        }
    }
}

/// The number of commands that a registration in this phase may still hand
/// out.
pub open spec fn rank(phase: RegistrationPhase) -> nat {
    match phase {
        RegistrationPhase::Started => 7,
        RegistrationPhase::Opened => 6,
        RegistrationPhase::EmailChecked => 5,
        RegistrationPhase::UsernameChecked => 4,
        RegistrationPhase::Hashed => 3,
        RegistrationPhase::CredentialWritten => 2,
        RegistrationPhase::AccountWritten => 1,
        RegistrationPhase::Committed => 0,
        RegistrationPhase::Aborted => 0,
    }
}

impl RegistrationView {
    /// The registration run to its end against the in-memory stores: the
    /// committed stores that it leaves, and its result. `hashed` is what the
    /// hasher answers. A transaction that is still open at the end is
    /// dropped.
    pub open spec fn run(
        self,
        next: NextView,
        store: StoreView,
        transaction: Option<StoreView>,
        hashed: Result<Seq<char>, ErrorView>,
    ) -> (StoreView, Result<ConfirmationView, ErrorView>)
        decreases rank(self.phase),
    {
        match next {
            NextView::Finish(result) => (store, result),
            NextView::Perform(command) => {
                let a = answer(store, transaction, command, hashed);
                let (state, then) = self.step(a.reply);
                if rank(state.phase) < rank(self.phase) {
                    state.run(then, a.store, a.transaction, hashed)
                } else {
                    (a.store, result_of(then))
                }
            },
        }
    }
}

/// What a registration does to the stores and what it returns, stated
/// directly. A request without a display name is invalid; an email that is
/// taken, and then a username that is taken in the default workspace, is a
/// conflict; a failure of the hasher is returned as it is. In each of these
/// cases the stores stay as they were. Otherwise the stores gain the
/// credential with the hash and the account, and the registration is
/// confirmed.
pub open spec fn registered(
    store: StoreView,
    nu: NewUserView,
    hashed: Result<Seq<char>, ErrorView>,
) -> (StoreView, Result<ConfirmationView, ErrorView>) {
    match nu.name {
        None => (store, Err(ErrorView::InvalidRequest("Name is required"@))),
        Some(name) => if store.has_email(nu.email) {
            (store, Err(ErrorView::Conflict(email_exists())))
        } else if store.has_username(default_workspace(), name) {
            (store, Err(ErrorView::Conflict(username_exists())))
        } else {
            match hashed {
                Err(e) => (store, Err(e)),
                Ok(hash) => (
                    store.with_credential(
                        credential_row(nu.email, name, nu.super_admin, nu.company, hash),
                    ).with_account(account_row(nu.email, name, nu.super_admin)),
                    Ok(user_created()),
                ),
            }
        },
    }
}

/// The registration that a request starts, run to its end.
pub open spec fn run_from_start(
    store: StoreView,
    nu: NewUserView,
    hashed: Result<Seq<char>, ErrorView>,
) -> (StoreView, Result<ConfirmationView, ErrorView>) {
    start_spec(nu).0.run(start_spec(nu).1, store, None, hashed)
}

/// Run against well-formed stores, the flow does what [`registered`] says.
pub proof fn lemma_run_is_registered(
    store: StoreView,
    nu: NewUserView,
    hashed: Result<Seq<char>, ErrorView>,
)
    requires
        store.wf(),
    ensures
        run_from_start(store, nu, hashed) == registered(store, nu, hashed),
{
    reveal_with_fuel(RegistrationView::run, 9);
    let (s0, n0) = start_spec(nu);
    if nu.name is Some {
        let name = nu.name->0;
        if !store.has_email(nu.email) && !store.has_username(default_workspace(), name) && hashed is Ok {
            let credential = credential_row(nu.email, name, nu.super_admin, nu.company, hashed->Ok_0);
            let account = account_row(nu.email, name, nu.super_admin);
            let working = store.with_credential(credential);
            lemma_with_credential_wf(store, credential);
            assert(working.accounts == store.accounts);
            assert(!working.has_username(default_workspace(), name));
            assert(working.has_email(nu.email));
        }
    }
}

/// The result of [`create_user`] as the flow's result.
pub open spec fn created_view(result: Result<(u16, String), Error>) -> Result<
    ConfirmationView,
    ErrorView,
> {
    match result {
        Ok(created) => Ok(ConfirmationView { status: created.0, message: created.1@ }),
        Err(e) => Err(e@),
    }
}

/// Registers the account that `nu` asks for in the in-memory stores.
///
/// The requestor's identity has been established before entry and plays no
/// part. The flow runs in one transaction: the stores and the result are
/// those of [`registered`], for the outcome of the one hash that is computed
/// once both lookups have found nothing.
pub fn create_user(
    _authed: &ApiAuthed,
    store: &mut Store,
    hasher: &CredentialHasher,
    nu: NewUser,
) -> (result: Result<(u16, String), Error>)
    ensures
        exists|hashed: Result<Seq<char>, ErrorView>|
            hasher.yields(nu@.password, hashed) && #[trigger] registered(old(store)@, nu@, hashed)
                == (final(store)@, created_view(result)),
        result is Err ==> final(store)@ == old(store)@,
        result is Ok ==> {
            &&& nu@.name is Some
            &&& !old(store)@.has_email(nu@.email)
            &&& !old(store)@.has_username(default_workspace(), nu@.name->0)
            &&& final(store)@.has_email(nu@.email)
            &&& final(store)@.has_account_of(nu@.email)
            &&& final(store)@.has_username(default_workspace(), nu@.name->0)
        },
        final(store)@.wf(),
{
    let ghost initial = store@;
    let ghost request = nu@;
    proof {
        use_type_invariant(&*store);
    }
    let (first, command) = Registration::start(nu);
    let mut state = first;
    let mut next = command;
    let mut transaction: Option<Store> = None;
    let ghost mut observed: Option<Result<Seq<char>, ErrorView>> = None;
    loop
        invariant
            initial == old(store)@,
            request == nu@,
            initial.wf(),
            state@.password == request.password,
            next@ matches NextView::Perform(CommandView::Hash { password }) ==> password
                == request.password && observed is None,
            observed matches Some(h) ==> hasher.yields(request.password, h),
            observed is Some ==> rank(state@.phase) < 4,
            forall|hashed: Result<Seq<char>, ErrorView>|
                (observed matches Some(h) ==> hashed == h) ==> #[trigger] state@.run(
                    next@,
                    store@,
                    working_view(transaction),
                    hashed,
                ) == run_from_start(initial, request, hashed),
        decreases 2 * rank(state@.phase) + (if next@ is Perform { 1nat } else { 0nat }),
    {
        match next {
            Next::Finish(outcome) => {
                let ghost ended = next@;
                let result = match outcome {
                    Ok(confirmation) => Ok((confirmation.status, confirmation.message)),
                    Err(e) => Err(e),
                };
                proof {
                    let hashed = match observed {
                        Some(h) => h,
                        None => Err(ErrorView::InternalError(Seq::empty())),
                    };
                    assert(state@.run(ended, store@, working_view(transaction), hashed)
                        == run_from_start(initial, request, hashed));
                    lemma_run_is_registered(initial, request, hashed);
                    assert(hasher.yields(request.password, hashed));
                    assert(registered(initial, request, hashed) == (store@, created_view(result)));
                    if result is Ok {
                        lemma_fresh_pair_registers(initial, request, hashed->Ok_0);
                    }
                }
                return result;
            },
            Next::Perform(command) => {
                let ghost before = state@;
                let ghost asked = next@;
                let ghost committed = store@;
                let ghost working = working_view(transaction);
                let ghost seen = observed;
                let reply = match command {
                    Command::Hash { password } => {
                        let hashed = hasher.hash(password.as_str());
                        proof {
                            observed = Some(hashed_view(hashed));
                        }
                        Reply::Hashed(hashed)
                    },
                    Command::Storage(request) => perform(store, &mut transaction, request),
                };
                let out = state.step(reply);
                state = out.0;
                next = out.1;
                proof {
                    assert forall|hashed: Result<Seq<char>, ErrorView>|
                        (observed matches Some(h) ==> hashed == h) implies #[trigger] state@.run(
                        next@,
                        store@,
                        working_view(transaction),
                        hashed,
                    ) == run_from_start(initial, request, hashed) by {
                        assert(before.run(asked, committed, working, hashed) == run_from_start(
                            initial,
                            request,
                            hashed,
                        ));
                    }
                }
            },
        }
    }
}

} // verus!
