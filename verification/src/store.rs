//! The two stores, held in memory: credentials keyed by email, accounts keyed
//! by workspace and username.
//!
//! The store keeps what the persisted layout demands of its keys: no email
//! occurs in two credentials, no username occurs twice in one workspace, and
//! every account refers to a credential that exists. The format rules of a
//! deployment's schema are not part of it: it accepts every well-keyed row.

use vstd::prelude::*;
use crate::constraint::{StorageError, StorageErrorView};
use crate::model::{Account, AccountView, Credential, CredentialView};
use crate::text::{clone_opt, owned, same_text};

verus! {

/// The rows of both stores, in the order in which they were inserted.
pub struct StoreView {
    pub credentials: Seq<CredentialView>,
    pub accounts: Seq<AccountView>,
}

impl StoreView {
    /// Whether a credential with this email exists.
    pub open spec fn has_email(self, email: Seq<char>) -> bool {
        exists|i: int| 0 <= i < self.credentials.len() && (#[trigger] self.credentials[i]).email == email
    }

    /// Whether an account with this username exists in this workspace.
    pub open spec fn has_username(self, workspace_id: Seq<char>, username: Seq<char>) -> bool {
        exists|i: int|
            0 <= i < self.accounts.len() && (#[trigger] self.accounts[i]).workspace_id == workspace_id
                && self.accounts[i].username == username
    }

    /// Whether an account with this email exists.
    pub open spec fn has_account_of(self, email: Seq<char>) -> bool {
        exists|i: int| 0 <= i < self.accounts.len() && (#[trigger] self.accounts[i]).email == email
    }

    /// The invariant of the stores: emails are unique, usernames are unique
    /// within a workspace, and no account is without its credential.
    pub open spec fn wf(self) -> bool {
        &&& forall|i: int, j: int|
            #![trigger self.credentials[i], self.credentials[j]]
            0 <= i < j < self.credentials.len() ==> self.credentials[i].email
                != self.credentials[j].email
        &&& forall|i: int, j: int|
            #![trigger self.accounts[i], self.accounts[j]]
            0 <= i < j < self.accounts.len() ==> !(self.accounts[i].workspace_id
                == self.accounts[j].workspace_id && self.accounts[i].username
                == self.accounts[j].username)
        &&& forall|i: int|
            0 <= i < self.accounts.len() ==> self.has_email((#[trigger] self.accounts[i]).email)
    }

    /// The stores with one more credential.
    pub open spec fn with_credential(self, row: CredentialView) -> StoreView {
        StoreView { credentials: self.credentials.push(row), ..self }
    }

    /// The stores with one more account.
    pub open spec fn with_account(self, row: AccountView) -> StoreView {
        StoreView { accounts: self.accounts.push(row), ..self }
    }

    /// The stores with the password hash of the credential with this email
    /// replaced; every other field and row stays.
    pub open spec fn with_password_hash(self, email: Seq<char>, password_hash: Seq<char>) -> StoreView {
        StoreView {
            credentials: Seq::new(
                self.credentials.len(),
                |i: int|
                    if self.credentials[i].email == email {
                        CredentialView { password_hash, ..self.credentials[i] }
                    } else {
                        self.credentials[i]
                    },
            ),
            ..self
        }
    }

    /// The empty stores.
    pub open spec fn empty() -> StoreView {
        StoreView { credentials: Seq::empty(), accounts: Seq::empty() }
    }
}

/// The failure of an insert whose email is taken.
pub open spec fn duplicate_email() -> StorageErrorView {
    StorageErrorView { constraint: None, unique_violation: true, message: "duplicate email"@ }
}

/// The failure of an insert whose username is taken in its workspace.
pub open spec fn duplicate_username() -> StorageErrorView {
    StorageErrorView {
        constraint: None,
        unique_violation: true,
        message: "duplicate username in workspace"@,
    }
}

/// The failure of an insert of an account whose email has no credential.
pub open spec fn missing_credential() -> StorageErrorView {
    StorageErrorView {
        constraint: None,
        unique_violation: false,
        message: "account refers to a missing credential"@,
    }
}

/// The credential store and the account store.
pub struct Store {
    credentials: Vec<Credential>,
    accounts: Vec<Account>,
}

impl View for Store {
    type V = StoreView;

    closed spec fn view(&self) -> StoreView {
        StoreView {
            credentials: Seq::new(self.credentials@.len(), |i: int| self.credentials@[i]@),
            accounts: Seq::new(self.accounts@.len(), |i: int| self.accounts@[i]@),
        }
    }
}

impl Store {
    /// Every store is well-formed.
    #[verifier::type_invariant]
    pub open spec fn inv(self) -> bool {
        self@.wf()
    }

    /// The empty stores.
    pub fn new() -> (store: Store)
        ensures
            store@ == StoreView::empty(),
    {
        let store = Store { credentials: Vec::new(), accounts: Vec::new() };
        assert(store@.credentials =~= Seq::empty());
        assert(store@.accounts =~= Seq::empty());
        store
    }

    /// Moves both tables out and leaves the stores empty.
    fn take(&mut self) -> (tables: (Vec<Credential>, Vec<Account>))
        ensures
            final(self)@ == StoreView::empty(),
            tables.0 == old(self).credentials,
            tables.1 == old(self).accounts,
    {
        let mut taken = Store::new();
        core::mem::swap(self, &mut taken);
        let Store { credentials, accounts } = taken;
        (credentials, accounts)
    }

    /// The number of credentials.
    pub fn credential_count(&self) -> (n: usize)
        ensures
            n == self@.credentials.len(),
    {
        self.credentials.len()
    }

    /// The number of accounts.
    pub fn account_count(&self) -> (n: usize)
        ensures
            n == self@.accounts.len(),
    {
        self.accounts.len()
    }

    fn position_of_email(&self, email: &str) -> (found: Option<usize>)
        ensures
            match found {
                Some(i) => i < self@.credentials.len() && self@.credentials[i as int].email
                    == email@,
                None => !self@.has_email(email@),
            },
    {
        let mut i: usize = 0;
        while i < self.credentials.len()
            invariant
                i <= self.credentials@.len(),
                forall|j: int| 0 <= j < i ==> (#[trigger] self@.credentials[j]).email != email@,
            decreases self.credentials@.len() - i,
        {
            if same_text(self.credentials[i].email.as_str(), email) {
                return Some(i);
            }
            i += 1;
        }
        None
    }

    fn position_of_username(&self, workspace_id: &str, username: &str) -> (found: Option<usize>)
        ensures
            match found {
                Some(i) => i < self@.accounts.len() && self@.accounts[i as int].workspace_id
                    == workspace_id@ && self@.accounts[i as int].username == username@,
                None => !self@.has_username(workspace_id@, username@),
            },
    {
        let mut i: usize = 0;
        while i < self.accounts.len()
            invariant
                i <= self.accounts@.len(),
                forall|j: int|
                    0 <= j < i ==> !((#[trigger] self@.accounts[j]).workspace_id == workspace_id@
                        && self@.accounts[j].username == username@),
            decreases self.accounts@.len() - i,
        {
            if same_text(self.accounts[i].workspace_id.as_str(), workspace_id) && same_text(
                self.accounts[i].username.as_str(),
                username,
            ) {
                return Some(i);
            }
            i += 1;
        }
        None
    }

    /// The credential with this email, if there is one.
    pub fn credential(&self, email: &str) -> (found: Option<Credential>)
        ensures
            match found {
                Some(row) => exists|i: int|
                    0 <= i < self@.credentials.len() && #[trigger] self@.credentials[i] == row@
                        && row@.email == email@,
                None => !self@.has_email(email@),
            },
    {
        match self.position_of_email(email) {
            Some(i) => {
                let row = self.credentials[i].duplicate();
                assert(self@.credentials[i as int] == row@);
                Some(row)
            },
            None => None,
        }
    }

    /// The account with this username in this workspace, if there is one.
    pub fn account(&self, workspace_id: &str, username: &str) -> (found: Option<Account>)
        ensures
            match found {
                Some(row) => exists|i: int|
                    0 <= i < self@.accounts.len() && #[trigger] self@.accounts[i] == row@
                        && row@.workspace_id == workspace_id@ && row@.username == username@,
                None => !self@.has_username(workspace_id@, username@),
            },
    {
        match self.position_of_username(workspace_id, username) {
            Some(i) => {
                let row = self.accounts[i].duplicate();
                assert(self@.accounts[i as int] == row@);
                Some(row)
            },
            None => None,
        }
    }

    /// Inserts a credential, unless its email is taken.
    pub fn insert_credential(&mut self, row: Credential) -> (done: Result<(), StorageError>)
        ensures
            match done {
                Ok(()) => !old(self)@.has_email(row@.email) && final(self)@ == old(
                    self,
                )@.with_credential(row@),
                Err(e) => old(self)@.has_email(row@.email) && final(self)@ == old(self)@ && e@
                    == duplicate_email(),
            },
    {
        proof {
            use_type_invariant(&*self);
        }
        match self.position_of_email(row.email.as_str()) {
            Some(_) => Err(
                StorageError {
                    constraint: None,
                    unique_violation: true,
                    message: owned("duplicate email"),
                },
            ),
            None => {
                let ghost before = self@;
                let ghost added = row@;
                let (mut credentials, accounts) = self.take();
                credentials.push(row);
                proof {
                    let after = StoreView {
                        credentials: Seq::new(credentials@.len(), |i: int| credentials@[i]@),
                        accounts: Seq::new(accounts@.len(), |i: int| accounts@[i]@),
                    };
                    assert(after.credentials =~= before.credentials.push(added));
                    assert(after.accounts =~= before.accounts);
                    lemma_with_credential_wf(before, added);
                }
                *self = Store { credentials, accounts };
                Ok(())
            },
        }
    }

    /// Inserts an account, unless its username is taken in its workspace or
    /// its email has no credential.
    pub fn insert_account(&mut self, row: Account) -> (done: Result<(), StorageError>)
        ensures
            match done {
                Ok(()) => !old(self)@.has_username(row@.workspace_id, row@.username) && old(
                    self,
                )@.has_email(row@.email) && final(self)@ == old(self)@.with_account(row@),
                Err(e) => final(self)@ == old(self)@ && if old(self)@.has_username(
                    row@.workspace_id,
                    row@.username,
                ) {
                    e@ == duplicate_username()
                } else {
                    !old(self)@.has_email(row@.email) && e@ == missing_credential()
                },
            },
    {
        proof {
            use_type_invariant(&*self);
        }
        if self.position_of_username(row.workspace_id.as_str(), row.username.as_str()).is_some() {
            return Err(
                StorageError {
                    constraint: None,
                    unique_violation: true,
                    message: owned("duplicate username in workspace"),
                },
            );
        }
        if self.position_of_email(row.email.as_str()).is_none() {
            return Err(
                StorageError {
                    constraint: None,
                    unique_violation: false,
                    message: owned("account refers to a missing credential"),
                },
            );
        }
        let ghost before = self@;
        let ghost added = row@;
        let (credentials, mut accounts) = self.take();
        accounts.push(row);
        proof {
            let after = StoreView {
                credentials: Seq::new(credentials@.len(), |i: int| credentials@[i]@),
                accounts: Seq::new(accounts@.len(), |i: int| accounts@[i]@),
            };
            assert(after.accounts =~= before.accounts.push(added));
            assert(after.credentials =~= before.credentials);
            lemma_with_account_wf(before, added);
        }
        *self = Store { credentials, accounts };
        Ok(())
    }

    /// Replaces the password hash of the credential with this email. Where
    /// there is none, nothing changes.
    pub fn update_password_hash(&mut self, email: &str, password_hash: String)
        ensures
            final(self)@ == old(self)@.with_password_hash(email@, password_hash@),
    {
        proof {
            use_type_invariant(&*self);
        }
        let ghost before = self@;
        match self.position_of_email(email) {
            Some(i) => {
                let current = &self.credentials[i];
                let row = Credential {
                    email: current.email.clone(),
                    password_hash,
                    login_type: current.login_type.clone(),
                    super_admin: current.super_admin,
                    verified: current.verified,
                    name: current.name.clone(),
                    company: clone_opt(&current.company),
                };
                let ghost written = row@;
                proof {
                    lemma_with_password_hash_wf(before, email@, written.password_hash);
                    assert(before.with_password_hash(email@, written.password_hash).credentials
                        =~= before.credentials.update(i as int, written)) by {
                        assert forall|k: int| 0 <= k < before.credentials.len() implies (
                        #[trigger] before.with_password_hash(
                            email@,
                            written.password_hash,
                        ).credentials[k]) == before.credentials.update(i as int, written)[k] by {
                            if k != i {
                                assert(before.credentials[k].email != before.credentials[i as int].email);
                            }
                        }
                    }
                }
                let (mut credentials, accounts) = self.take();
                credentials.set(i, row);
                proof {
                    let after = StoreView {
                        credentials: Seq::new(credentials@.len(), |i: int| credentials@[i]@),
                        accounts: Seq::new(accounts@.len(), |i: int| accounts@[i]@),
                    };
                    assert(after.credentials =~= before.credentials.update(i as int, written));
                    assert(after.accounts =~= before.accounts);
                }
                *self = Store { credentials, accounts };
            },
            None => {
                proof {
                    assert(before.with_password_hash(email@, password_hash@).credentials
                        =~= before.credentials);
                }
            },
        }
    }

    /// A copy of the stores.
    pub fn duplicate(&self) -> (copy: Store)
        ensures
            copy@ == self@,
    {
        proof {
            use_type_invariant(self);
        }
        let mut credentials: Vec<Credential> = Vec::new();
        let mut i: usize = 0;
        while i < self.credentials.len()
            invariant
                i <= self.credentials@.len(),
                credentials@.len() == i,
                forall|k: int| 0 <= k < i ==> (#[trigger] credentials@[k])@ == self.credentials@[k]@,
            decreases self.credentials@.len() - i,
        {
            credentials.push(self.credentials[i].duplicate());
            i += 1;
        }
        let mut accounts: Vec<Account> = Vec::new();
        let mut k: usize = 0;
        while k < self.accounts.len()
            invariant
                k <= self.accounts@.len(),
                accounts@.len() == k,
                forall|j: int| 0 <= j < k ==> (#[trigger] accounts@[j])@ == self.accounts@[j]@,
            decreases self.accounts@.len() - k,
        {
            accounts.push(self.accounts[k].duplicate());
            k += 1;
        }
        proof {
            let copy = StoreView {
                credentials: Seq::new(credentials@.len(), |i: int| credentials@[i]@),
                accounts: Seq::new(accounts@.len(), |i: int| accounts@[i]@),
            };
            assert(copy.credentials =~= self@.credentials);
            assert(copy.accounts =~= self@.accounts);
        }
        Store { credentials, accounts }
    }
}

/// A credential with a fresh email keeps the stores well-formed.
pub proof fn lemma_with_credential_wf(s: StoreView, row: CredentialView)
    requires
        s.wf(),
        !s.has_email(row.email),
    ensures
        s.with_credential(row).wf(),
        s.with_credential(row).has_email(row.email),
        forall|email: Seq<char>| s.has_email(email) ==> s.with_credential(row).has_email(email),
{
    let t = s.with_credential(row);
    assert(t.credentials[s.credentials.len() as int] == row);
    assert forall|email: Seq<char>| s.has_email(email) implies t.has_email(email) by {
        let i = choose|i: int| 0 <= i < s.credentials.len() && (#[trigger] s.credentials[i]).email == email;
        assert(t.credentials[i] == s.credentials[i]);
    }
    assert forall|i: int, j: int|
        #![trigger t.credentials[i], t.credentials[j]]
        0 <= i < j < t.credentials.len() implies t.credentials[i].email != t.credentials[j].email by {
        assert(t.credentials[i] == s.credentials[i]);
        if j < s.credentials.len() {
            assert(t.credentials[j] == s.credentials[j]);
        }
    }
    assert forall|i: int| 0 <= i < t.accounts.len() implies t.has_email(
        (#[trigger] t.accounts[i]).email,
    ) by {
        assert(s.has_email(s.accounts[i].email));
    }
}

/// An account with a fresh username whose credential exists keeps the stores
/// well-formed.
pub proof fn lemma_with_account_wf(s: StoreView, row: AccountView)
    requires
        s.wf(),
        !s.has_username(row.workspace_id, row.username),
        s.has_email(row.email),
    ensures
        s.with_account(row).wf(),
        s.with_account(row).has_username(row.workspace_id, row.username),
        s.with_account(row).has_account_of(row.email),
{
    let t = s.with_account(row);
    assert(t.accounts[s.accounts.len() as int] == row);
    assert forall|i: int, j: int|
        #![trigger t.accounts[i], t.accounts[j]]
        0 <= i < j < t.accounts.len() implies !(t.accounts[i].workspace_id
        == t.accounts[j].workspace_id && t.accounts[i].username == t.accounts[j].username) by {
        assert(t.accounts[i] == s.accounts[i]);
        if j < s.accounts.len() {
            assert(t.accounts[j] == s.accounts[j]);
        }
    }
    assert forall|i: int| 0 <= i < t.accounts.len() implies t.has_email(
        (#[trigger] t.accounts[i]).email,
    ) by {
        if i < s.accounts.len() {
            assert(t.accounts[i] == s.accounts[i]);
            assert(s.has_email(s.accounts[i].email));
        }
    }
}

/// A new password hash keeps the stores well-formed and every key in place.
pub proof fn lemma_with_password_hash_wf(s: StoreView, email: Seq<char>, password_hash: Seq<char>)
    requires
        s.wf(),
    ensures
        s.with_password_hash(email, password_hash).wf(),
        forall|e: Seq<char>|
            s.has_email(e) == s.with_password_hash(email, password_hash).has_email(e),
{
    let t = s.with_password_hash(email, password_hash);
    assert forall|e: Seq<char>| s.has_email(e) == t.has_email(e) by {
        if s.has_email(e) {
            let i = choose|i: int| 0 <= i < s.credentials.len() && (#[trigger] s.credentials[i]).email == e;
            assert(t.credentials[i].email == e);
        }
        if t.has_email(e) {
            let i = choose|i: int| 0 <= i < t.credentials.len() && (#[trigger] t.credentials[i]).email == e;
            assert(s.credentials[i].email == e);
        }
    }
    assert forall|i: int, j: int|
        #![trigger t.credentials[i], t.credentials[j]]
        0 <= i < j < t.credentials.len() implies t.credentials[i].email != t.credentials[j].email by {
        assert(t.credentials[i].email == s.credentials[i].email);
        assert(t.credentials[j].email == s.credentials[j].email);
    }
    assert forall|i: int| 0 <= i < t.accounts.len() implies t.has_email(
        (#[trigger] t.accounts[i]).email,
    ) by {
        assert(s.has_email(s.accounts[i].email));
    }
}

} // verus!
