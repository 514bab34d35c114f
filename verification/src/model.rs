//! The requests that enter the flows and the rows that they write.

use vstd::prelude::*;
use crate::text::{clone_opt, opt_chars, owned};

verus! {

/// The identity of the party that makes a request, as the session layer has
/// established it.
#[derive(Debug, Clone, PartialEq, Eq)]
pub struct ApiAuthed {
    pub email: String,
    pub is_admin: bool,
}

/// A request to register an account.
#[derive(Debug, Clone, PartialEq, Eq)]
pub struct NewUser {
    pub email: String,
    pub password: String,
    pub super_admin: bool,
    /// The display name, which becomes the username in the default workspace.
    pub name: Option<String>,
    pub company: Option<String>,
}

/// A request to replace a password.
#[derive(Debug, Clone, PartialEq, Eq)]
pub struct EditPassword {
    pub password: String,
}

/// A login credential: one row of the credential store, keyed by `email`.
#[derive(Debug, Clone, PartialEq, Eq)]
pub struct Credential {
    pub email: String,
    pub password_hash: String,
    pub login_type: String,
    pub super_admin: bool,
    pub verified: bool,
    pub name: String,
    pub company: Option<String>,
}

/// A user of one workspace: one row of the account store, keyed by
/// `workspace_id` and `username`.
#[derive(Debug, Clone, PartialEq, Eq)]
pub struct Account {
    pub workspace_id: String,
    pub username: String,
    pub email: String,
    pub is_admin: bool,
    pub role: String,
}

/// A [`NewUser`] with its texts as sequences of characters.
pub struct NewUserView {
    pub email: Seq<char>,
    pub password: Seq<char>,
    pub super_admin: bool,
    pub name: Option<Seq<char>>,
    pub company: Option<Seq<char>>,
}

/// A [`Credential`] with its texts as sequences of characters.
pub struct CredentialView {
    pub email: Seq<char>,
    pub password_hash: Seq<char>,
    pub login_type: Seq<char>,
    pub super_admin: bool,
    pub verified: bool,
    pub name: Seq<char>,
    pub company: Option<Seq<char>>,
}

/// An [`Account`] with its texts as sequences of characters.
pub struct AccountView {
    pub workspace_id: Seq<char>,
    pub username: Seq<char>,
    pub email: Seq<char>,
    pub is_admin: bool,
    pub role: Seq<char>,
}

impl View for NewUser {
    type V = NewUserView;

    open spec fn view(&self) -> NewUserView {
        NewUserView {
            email: self.email@,
            password: self.password@,
            super_admin: self.super_admin,
            name: opt_chars(self.name),
            company: opt_chars(self.company),
        }
    }
}

impl View for Credential {
    type V = CredentialView;

    open spec fn view(&self) -> CredentialView {
        CredentialView {
            email: self.email@,
            password_hash: self.password_hash@,
            login_type: self.login_type@,
            super_admin: self.super_admin,
            verified: self.verified,
            name: self.name@,
            company: opt_chars(self.company),
        }
    }
}

impl View for Account {
    type V = AccountView;

    open spec fn view(&self) -> AccountView {
        AccountView {
            workspace_id: self.workspace_id@,
            username: self.username@,
            email: self.email@,
            is_admin: self.is_admin,
            role: self.role@,
        }
    }
}

/// The workspace in which every registration creates its account.
pub open spec fn default_workspace() -> Seq<char> {
    "starter"@
}

/// The login type of a credential that is checked against a password hash.
pub open spec fn password_login() -> Seq<char> {
    "password"@
}

/// The credential that a registration writes: verified from the start, with
/// the display name as its name and the given encoded hash.
pub open spec fn credential_row(
    email: Seq<char>,
    name: Seq<char>,
    super_admin: bool,
    company: Option<Seq<char>>,
    password_hash: Seq<char>,
) -> CredentialView {
    CredentialView {
        email,
        password_hash,
        login_type: password_login(),
        super_admin,
        verified: true,
        name,
        company,
    }
}

/// The account that a registration writes: in the default workspace, with the
/// display name as both username and role, and administrator exactly when the
/// credential is a super administrator.
pub open spec fn account_row(email: Seq<char>, name: Seq<char>, super_admin: bool) -> AccountView {
    AccountView {
        workspace_id: default_workspace(),
        username: name,
        email,
        is_admin: super_admin,
        role: name,
    }
}

impl Credential {
    /// Builds the credential of a registration.
    pub fn for_registration(
        email: &String,
        name: &String,
        super_admin: bool,
        company: &Option<String>,
        password_hash: String,
    ) -> (row: Credential)
        ensures
            row@ == credential_row(email@, name@, super_admin, opt_chars(*company), password_hash@),
    {
        Credential {
            email: email.clone(),
            password_hash,
            login_type: owned("password"),
            super_admin,
            verified: true,
            name: name.clone(),
            company: clone_opt(company),
        }
    }

    /// A copy of this row.
    pub fn duplicate(&self) -> (copy: Credential)
        ensures
            copy@ == self@,
    {
        Credential {
            email: self.email.clone(),
            password_hash: self.password_hash.clone(),
            login_type: self.login_type.clone(),
            super_admin: self.super_admin,
            verified: self.verified,
            name: self.name.clone(),
            company: clone_opt(&self.company),
        }
    }
}

impl Account {
    /// Builds the account of a registration.
    pub fn for_registration(email: &String, name: &String, super_admin: bool) -> (row: Account)
        ensures
            row@ == account_row(email@, name@, super_admin),
    {
        Account {
            workspace_id: owned("starter"),
            username: name.clone(),
            email: email.clone(),
            is_admin: super_admin,
            role: name.clone(),
        }
    }

    /// A copy of this row.
    pub fn duplicate(&self) -> (copy: Account)
        ensures
            copy@ == self@,
    {
        Account {
            workspace_id: self.workspace_id.clone(),
            username: self.username.clone(),
            email: self.email.clone(),
            is_admin: self.is_admin,
            role: self.role.clone(),
        }
    }
}

} // verus!
