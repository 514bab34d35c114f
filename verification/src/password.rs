//! Change of a password: authorised, then checked against the credential
//! store, then written as one row.
//!
//! [`PasswordChange`] holds the decisions of the flow. A requestor who is
//! neither an administrator nor the owner of the credential is refused before
//! any command is handed out.

use vstd::prelude::*;
use crate::error::{Error, ErrorView};
use crate::model::{ApiAuthed, EditPassword};
use crate::protocol::{
    already_finished, result_of, storage_fault, unexpected_reply, Command, CommandView, Confirmation,
    ConfirmationView, Next, NextView, Reply, ReplyView, StorageRequest, StorageRequestView,
    STATUS_OK,
};
use crate::hasher::{hashed_view, CredentialHasher};
use crate::session::{answer, perform, working_view};
use crate::store::{lemma_with_password_hash_wf, Store, StoreView};
use crate::text::owned;

verus! {

/// How far a change of password has come. Each phase but the last two waits
/// for the reply to the one command that was handed out on entering it.
#[derive(Debug, Clone, Copy, PartialEq, Eq, Structural)]
pub enum PasswordPhase {
    /// The requestor is authorised; the credential is being looked up.
    Authorized,
    /// The credential exists; the new password is being hashed.
    Found,
    /// The hash is there; the credential is being updated.
    Hashed,
    /// The new hash is written.
    Updated,
    /// The change failed; nothing was written.
    Aborted,
}

/// A change of password in progress.
#[derive(Debug, Clone, PartialEq, Eq)]
pub struct PasswordChange {
    pub phase: PasswordPhase,
    pub email: String,
    pub password: String,
}

/// A [`PasswordChange`] with its texts as sequences of characters.
pub struct PasswordChangeView {
    pub phase: PasswordPhase,
    pub email: Seq<char>,
    pub password: Seq<char>,
}

impl View for PasswordChange {
    type V = PasswordChangeView;

    open spec fn view(&self) -> PasswordChangeView {
        PasswordChangeView { phase: self.phase, email: self.email@, password: self.password@ }
    }
}

/// Whether the requestor may change the password of `target`: an
/// administrator may change any, everyone else only their own.
pub open spec fn authorized(is_admin: bool, requestor: Seq<char>, target: Seq<char>) -> bool {
    is_admin || requestor == target
}

/// The error for a requestor who may not change the password.
pub open spec fn not_authorized() -> ErrorView {
    ErrorView::Unauthorized("Not authorized to change this password"@)
}

/// The error for a target without a credential.
pub open spec fn user_not_found() -> ErrorView {
    ErrorView::NotFound("User not found"@)
}

/// The confirmation of a completed change.
pub open spec fn password_updated() -> ConfirmationView {
    ConfirmationView { status: STATUS_OK, message: "Password updated successfully"@ }
}

/// The change that a request starts, and what comes first: the lookup of the
/// credential, or the refusal of the requestor.
pub open spec fn start_spec(
    is_admin: bool,
    requestor: Seq<char>,
    target: Seq<char>,
    password: Seq<char>,
) -> (PasswordChangeView, NextView) {
    if authorized(is_admin, requestor, target) {
        (
            PasswordChangeView { phase: PasswordPhase::Authorized, email: target, password },
            NextView::Perform(
                CommandView::Storage(StorageRequestView::FindCredential { email: target }),
            ),
        )
    } else {
        (
            PasswordChangeView { phase: PasswordPhase::Aborted, email: target, password },
            NextView::Finish(Err(not_authorized())),
        )
    }
}

impl PasswordChangeView {
    /// The change in another phase, with this command handed out.
    pub open spec fn advance(self, phase: PasswordPhase, command: CommandView) -> (
        PasswordChangeView,
        NextView,
    ) {
        (PasswordChangeView { phase, ..self }, NextView::Perform(command))
    }

    /// The change aborted with this error.
    pub open spec fn abort(self, error: ErrorView) -> (PasswordChangeView, NextView) {
        (PasswordChangeView { phase: PasswordPhase::Aborted, ..self }, NextView::Finish(Err(error)))
    }

    /// Whether the flow has ended.
    pub open spec fn finished(self) -> bool {
        self.phase == PasswordPhase::Updated || self.phase == PasswordPhase::Aborted
    }

    /// The change after the reply to its outstanding command, and what comes
    /// next.
    pub open spec fn step(self, reply: ReplyView) -> (PasswordChangeView, NextView) {
        match self.phase {
            PasswordPhase::Authorized => match reply {
                ReplyView::Row(Some(_)) => self.advance(
                    PasswordPhase::Found,
                    CommandView::Hash { password: self.password },
                ),
                ReplyView::Row(None) => self.abort(user_not_found()),
                ReplyView::Failed(e) => self.abort(storage_fault(e)),
                _ => self.abort(unexpected_reply()),
            },
            PasswordPhase::Found => match reply {
                ReplyView::Hashed(Ok(hash)) => self.advance(
                    PasswordPhase::Hashed,
                    CommandView::Storage(
                        StorageRequestView::UpdatePasswordHash {
                            email: self.email,
                            password_hash: hash,
                        },
                    ),
                ),
                ReplyView::Hashed(Err(e)) => self.abort(e),
                _ => self.abort(unexpected_reply()),
            },
            PasswordPhase::Hashed => match reply {
                ReplyView::Done => (
                    PasswordChangeView { phase: PasswordPhase::Updated, ..self },
                    NextView::Finish(Ok(password_updated())),
                ),
                ReplyView::Failed(e) => self.abort(storage_fault(e)),
                _ => self.abort(unexpected_reply()),
            },
            PasswordPhase::Updated => (self, NextView::Finish(Err(already_finished()))),
            PasswordPhase::Aborted => (self, NextView::Finish(Err(already_finished()))),
        }
    }
}

impl PasswordChange {
    /// Starts the change of the password of `user_email` that `authed` asks
    /// for.
    pub fn start(authed: &ApiAuthed, user_email: &str, ep: EditPassword) -> (out: (
        PasswordChange,
        Next,
    ))
        ensures
            (out.0@, out.1@) == start_spec(authed.is_admin, authed.email@, user_email@, ep.password@),
    {
        let target = owned(user_email);
        if authed.is_admin || authed.email == target {
            let email = target.clone();
            (
                PasswordChange { phase: PasswordPhase::Authorized, email: target, password: ep.password },
                Next::Perform(Command::Storage(StorageRequest::FindCredential { email })),
            )
        } else {
            (
                PasswordChange { phase: PasswordPhase::Aborted, email: target, password: ep.password },
                Next::Finish(
                    Err(Error::Unauthorized(owned("Not authorized to change this password"))),
                ),
            )
        }
    }

    /// Whether the flow has ended.
    pub fn finished(&self) -> (ended: bool)
        ensures
            ended == self@.finished(),
    {
        match self.phase {
            PasswordPhase::Updated => true,
            PasswordPhase::Aborted => true,
            _ => false,
        }
    }

    fn advance(self, phase: PasswordPhase, command: Command) -> (out: (PasswordChange, Next))
        ensures
            (out.0@, out.1@) == self@.advance(phase, command@),
    {
        let mut state = self;
        state.phase = phase;
        (state, Next::Perform(command))
    }

    fn abort(self, error: Error) -> (out: (PasswordChange, Next))
        ensures
            (out.0@, out.1@) == self@.abort(error@),
    {
        let mut state = self;
        state.phase = PasswordPhase::Aborted;
        (state, Next::Finish(Err(error)))
    }

    fn unexpected(self) -> (out: (PasswordChange, Next))
        ensures
            (out.0@, out.1@) == self@.abort(unexpected_reply()),
    {
        self.abort(Error::InternalError(owned("unexpected reply")))
    }

    /// Takes the reply to the outstanding command and says what comes next.
    pub fn step(self, reply: Reply) -> (out: (PasswordChange, Next))
        ensures
            (out.0@, out.1@) == self@.step(reply@),
    {
        match self.phase {
            PasswordPhase::Authorized => match reply {
                Reply::Row(Some(_)) => {
                    let password = self.password.clone();
                    self.advance(PasswordPhase::Found, Command::Hash { password })
                },
                Reply::Row(None) => self.abort(Error::NotFound(owned("User not found"))),
                Reply::Failed(e) => self.abort(Error::InternalError(e.message)),
                _ => self.unexpected(),
            },
            PasswordPhase::Found => match reply {
                Reply::Hashed(Ok(password_hash)) => {
                    let email = self.email.clone();
                    self.advance(
                        PasswordPhase::Hashed,
                        Command::Storage(StorageRequest::UpdatePasswordHash { email, password_hash }),
                    )
                },
                Reply::Hashed(Err(e)) => self.abort(e),
                _ => self.unexpected(),
            },
            PasswordPhase::Hashed => match reply {
                Reply::Done => {
                    let mut state = self;
                    state.phase = PasswordPhase::Updated;
                    (
                        state,
                        Next::Finish(
                            Ok(
                                Confirmation {
                                    status: STATUS_OK,
                                    message: owned("Password updated successfully"),
                                },
                            ),
                        ),
                    )
                },
                Reply::Failed(e) => self.abort(Error::InternalError(e.message)),
                _ => self.unexpected(),
            },
            PasswordPhase::Updated => (
                self,
                Next::Finish(Err(Error::InternalError(owned("flow already finished")))),
            ),
            PasswordPhase::Aborted => (
                self,
                Next::Finish(Err(Error::InternalError(owned("flow already finished")))),
            ),
        }
    }
}

/// The number of commands that a change in this phase may still hand out.
pub open spec fn rank(phase: PasswordPhase) -> nat {
    match phase {
        PasswordPhase::Authorized => 3,
        PasswordPhase::Found => 2,
        PasswordPhase::Hashed => 1,
        PasswordPhase::Updated => 0,
        PasswordPhase::Aborted => 0,
    }
}

impl PasswordChangeView {
    /// The change run to its end against the in-memory stores: the committed
    /// stores that it leaves, and its result. `hashed` is what the hasher
    /// answers.
    pub open spec fn run(
        self,
        next: NextView,
        store: StoreView,
        transaction: Option<StoreView>,
        hashed: Result<Seq<char>, ErrorView>,
    ) -> (StoreView, Result<ConfirmationView, ErrorView>)
        decreases rank(self.phase),
    {
        match next {
            NextView::Finish(result) => (store, result),
            NextView::Perform(command) => {
                let a = answer(store, transaction, command, hashed);
                let (state, then) = self.step(a.reply);
                if rank(state.phase) < rank(self.phase) {
                    state.run(then, a.store, a.transaction, hashed)
                } else {
                    (a.store, result_of(then))
                }
            },
        }
    }
}

/// What a change of password does to the stores and what it returns, stated
/// directly. A requestor who is neither an administrator nor the owner is
/// refused; a target without a credential is not found; a failure of the
/// hasher is returned as it is. In each of these cases the stores stay as
/// they were. Otherwise the target's credential gets the new hash, nothing
/// else changes, and the change is confirmed.
pub open spec fn password_changed(
    store: StoreView,
    is_admin: bool,
    requestor: Seq<char>,
    target: Seq<char>,
    hashed: Result<Seq<char>, ErrorView>,
) -> (StoreView, Result<ConfirmationView, ErrorView>) {
    if !authorized(is_admin, requestor, target) {
        (store, Err(not_authorized()))
    } else if !store.has_email(target) {
        (store, Err(user_not_found()))
    } else {
        match hashed {
            Err(e) => (store, Err(e)),
            Ok(hash) => (store.with_password_hash(target, hash), Ok(password_updated())),
        }
    }
}

/// The change that a request starts, run to its end.
pub open spec fn run_from_start(
    store: StoreView,
    is_admin: bool,
    requestor: Seq<char>,
    target: Seq<char>,
    password: Seq<char>,
    hashed: Result<Seq<char>, ErrorView>,
) -> (StoreView, Result<ConfirmationView, ErrorView>) {
    let (state, next) = start_spec(is_admin, requestor, target, password);
    state.run(next, store, None, hashed)
}

/// Run against the stores, the flow does what [`password_changed`] says.
pub proof fn lemma_run_is_password_changed(
    store: StoreView,
    is_admin: bool,
    requestor: Seq<char>,
    target: Seq<char>,
    password: Seq<char>,
    hashed: Result<Seq<char>, ErrorView>,
)
    ensures
        run_from_start(store, is_admin, requestor, target, password, hashed) == password_changed(
            store,
            is_admin,
            requestor,
            target,
            hashed,
        ),
{
    reveal_with_fuel(PasswordChangeView::run, 5);
}

/// The result of [`set_password`] as the flow's result.
pub open spec fn updated_view(result: Result<String, Error>) -> Result<ConfirmationView, ErrorView> {
    match result {
        Ok(message) => Ok(ConfirmationView { status: STATUS_OK, message: message@ }),
        Err(e) => Err(e@),
    }
}

/// Changes the password of `user_email` in the in-memory stores, on behalf of
/// `authed`.
///
/// The stores and the result are those of [`password_changed`], for the
/// outcome of the one hash that is computed once the requestor is authorised
/// and the credential is found.
pub fn set_password(
    store: &mut Store,
    hasher: &CredentialHasher,
    authed: &ApiAuthed,
    user_email: &str,
    ep: EditPassword,
) -> (result: Result<String, Error>)
    ensures
        exists|hashed: Result<Seq<char>, ErrorView>|
            hasher.yields(ep.password@, hashed) && #[trigger] password_changed(
                old(store)@,
                authed.is_admin,
                authed.email@,
                user_email@,
                hashed,
            ) == (final(store)@, updated_view(result)),
        result is Err ==> final(store)@ == old(store)@,
        result is Ok ==> {
            &&& authorized(authed.is_admin, authed.email@, user_email@)
            &&& old(store)@.has_email(user_email@)
            &&& final(store)@.accounts == old(store)@.accounts
            &&& final(store)@.credentials.len() == old(store)@.credentials.len()
        },
        final(store)@.wf(),
{
    let ghost initial = store@;
    let ghost password = ep.password@;
    proof {
        use_type_invariant(&*store);
    }
    let (first, command) = PasswordChange::start(authed, user_email, ep);
    let mut state = first;
    let mut next = command;
    let mut transaction: Option<Store> = None;
    let ghost mut observed: Option<Result<Seq<char>, ErrorView>> = None;
    loop
        invariant
            initial == old(store)@,
            initial.wf(),
            password == ep.password@,
            state@.password == password,
            next@ matches NextView::Finish(Ok(c)) ==> c.status == STATUS_OK,
            next@ matches NextView::Perform(CommandView::Hash { password: p }) ==> p == password
                && observed is None,
            observed matches Some(h) ==> hasher.yields(password, h),
            observed is Some ==> rank(state@.phase) < 2,
            forall|hashed: Result<Seq<char>, ErrorView>|
                (observed matches Some(h) ==> hashed == h) ==> #[trigger] state@.run(
                    next@,
                    store@,
                    working_view(transaction),
                    hashed,
                ) == run_from_start(
                    initial,
                    authed.is_admin,
                    authed.email@,
                    user_email@,
                    password,
                    hashed,
                ),
        decreases 2 * rank(state@.phase) + (if next@ is Perform { 1nat } else { 0nat }),
    {
        match next {
            Next::Finish(outcome) => {
                let ghost ended = next@;
                let result = match outcome {
                    Ok(confirmation) => Ok(confirmation.message),
                    Err(e) => Err(e),
                };
                proof {
                    let hashed = match observed {
                        Some(h) => h,
                        None => Err(ErrorView::InternalError(Seq::empty())),
                    };
                    assert(state@.run(ended, store@, working_view(transaction), hashed)
                        == run_from_start(
                        initial,
                        authed.is_admin,
                        authed.email@,
                        user_email@,
                        password,
                        hashed,
                    ));
                    lemma_run_is_password_changed(
                        initial,
                        authed.is_admin,
                        authed.email@,
                        user_email@,
                        password,
                        hashed,
                    );
                    assert(hasher.yields(password, hashed));
                    assert(password_changed(
                        initial,
                        authed.is_admin,
                        authed.email@,
                        user_email@,
                        hashed,
                    ) == (store@, updated_view(result)));
                    if result is Ok {
                        lemma_with_password_hash_wf(initial, user_email@, hashed->Ok_0);
                    }
                }
                return result;
            },
            Next::Perform(command) => {
                let ghost before = state@;
                let ghost asked = next@;
                let ghost committed = store@;
                let ghost working = working_view(transaction);
                let reply = match command {
                    Command::Hash { password } => {
                        let hashed = hasher.hash(password.as_str());
                        proof {
                            observed = Some(hashed_view(hashed));
                        }
                        Reply::Hashed(hashed)
                    },
                    Command::Storage(request) => perform(store, &mut transaction, request),
                };
                let out = state.step(reply);
                state = out.0;
                next = out.1;
                proof {
                    assert forall|hashed: Result<Seq<char>, ErrorView>|
                        (observed matches Some(h) ==> hashed == h) implies #[trigger] state@.run(
                        next@,
                        store@,
                        working_view(transaction),
                        hashed,
                    ) == run_from_start(
                        initial,
                        authed.is_admin,
                        authed.email@,
                        user_email@,
                        password,
                        hashed,
                    ) by {
                        assert(before.run(asked, committed, working, hashed) == run_from_start(
                            initial,
                            authed.is_admin,
                            authed.email@,
                            user_email@,
                            password,
                            hashed,
                        ));
                    }
                }
            },
        }
    }
}

} // verus!
