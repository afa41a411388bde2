//! Accounts at the code host under which projects are pushed: what an
//! account holds, and the rules for adding and changing one.

use vstd::prelude::*;
use vstd::string::*;

use crate::encoding::str_eq;
use crate::supabase_client::clone_text;

verus! {

/// Why an account could not be added or changed.
#[derive(Clone, Debug, PartialEq, Eq)]
pub enum GitHubAccountError {
    AccountNotFound,
    /// Another account has this user name.
    UsernameExists(String),
    /// Neither a personal access token nor an OAuth token was given.
    NoTokenProvided,
}

/// `GitHubAccountError` by the plain values that it holds.
pub enum GitHubAccountErrorView {
    AccountNotFound,
    UsernameExists(Seq<char>),
    NoTokenProvided,
}

impl View for GitHubAccountError {
    type V = GitHubAccountErrorView;

    open spec fn view(&self) -> GitHubAccountErrorView {
        match self {
            GitHubAccountError::AccountNotFound => GitHubAccountErrorView::AccountNotFound,
            GitHubAccountError::UsernameExists(name) => GitHubAccountErrorView::UsernameExists(
                name@,
            ),
            GitHubAccountError::NoTokenProvided => GitHubAccountErrorView::NoTokenProvided,
        }
    }
}

impl DeepView for GitHubAccountError {
    type V = GitHubAccountErrorView;

    open spec fn deep_view(&self) -> GitHubAccountErrorView {
        self@
    }
}

/// An account at the code host, with the tokens to sign in.
#[derive(Clone, Debug, PartialEq, Eq)]
pub struct GitHubAccount {
    pub id: u128,
    pub username: String,
    pub oauth_token: Option<String>,
    /// The personal access token.
    pub pat: Option<String>,
    pub primary_email: Option<String>,
    pub created_at: i64,
    pub updated_at: i64,
}

/// `GitHubAccount` by the plain values that it holds.
pub struct GitHubAccountView {
    pub id: u128,
    pub username: Seq<char>,
    pub oauth_token: Option<Seq<char>>,
    pub pat: Option<Seq<char>>,
    pub primary_email: Option<Seq<char>>,
    pub created_at: i64,
    pub updated_at: i64,
}

impl View for GitHubAccount {
    type V = GitHubAccountView;

    open spec fn view(&self) -> GitHubAccountView {
        GitHubAccountView {
            id: self.id,
            username: self.username@,
            oauth_token: self.oauth_token.deep_view(),
            pat: self.pat.deep_view(),
            primary_email: self.primary_email.deep_view(),
            created_at: self.created_at,
            updated_at: self.updated_at,
        }
    }
}

impl DeepView for GitHubAccount {
    type V = GitHubAccountView;

    open spec fn deep_view(&self) -> GitHubAccountView {
        self@
    }
}

/// An account without its tokens, for showing.
#[derive(Clone, Debug, PartialEq, Eq)]
pub struct GitHubAccountSafe {
    pub id: u128,
    pub username: String,
    pub primary_email: Option<String>,
    pub has_token: bool,
    pub created_at: i64,
    pub updated_at: i64,
}

/// `GitHubAccountSafe` by the plain values that it holds.
pub struct GitHubAccountSafeView {
    pub id: u128,
    pub username: Seq<char>,
    pub primary_email: Option<Seq<char>>,
    pub has_token: bool,
    pub created_at: i64,
    pub updated_at: i64,
}

impl View for GitHubAccountSafe {
    type V = GitHubAccountSafeView;

    open spec fn view(&self) -> GitHubAccountSafeView {
        GitHubAccountSafeView {
            id: self.id,
            username: self.username@,
            primary_email: self.primary_email.deep_view(),
            has_token: self.has_token,
            created_at: self.created_at,
            updated_at: self.updated_at,
        }
    }
}

/// What is needed to add an account.
#[derive(Clone, Debug, PartialEq, Eq)]
pub struct CreateGitHubAccount {
    pub username: String,
    pub oauth_token: Option<String>,
    pub pat: Option<String>,
    pub primary_email: Option<String>,
}

/// What may be changed of an account. A field that is not given stays.
#[derive(Clone, Debug, PartialEq, Eq)]
pub struct UpdateGitHubAccount {
    pub username: Option<String>,
    pub oauth_token: Option<String>,
    pub pat: Option<String>,
    pub primary_email: Option<String>,
}

/// The value that is given, or the one that is kept where none is given.
pub open spec fn or_else(given: Option<Seq<char>>, kept: Option<Seq<char>>) -> Option<Seq<char>> {
    match given {
        Some(value) => Some(value),
        None => kept,
    }
}

/// The token to sign in with: the personal access token where there is
/// one, else the OAuth token.
pub open spec fn spec_token(account: GitHubAccountView) -> Option<Seq<char>> {
    or_else(account.pat, account.oauth_token)
}

/// The account without its tokens.
pub open spec fn spec_safe(account: GitHubAccountView) -> GitHubAccountSafeView {
    GitHubAccountSafeView {
        id: account.id,
        username: account.username,
        primary_email: account.primary_email,
        has_token: account.oauth_token.is_some() || account.pat.is_some(),
        created_at: account.created_at,
        updated_at: account.updated_at,
    }
}

/// The account after a change at time `now`.
pub open spec fn spec_updated(
    account: GitHubAccountView,
    username: Option<Seq<char>>,
    oauth_token: Option<Seq<char>>,
    pat: Option<Seq<char>>,
    primary_email: Option<Seq<char>>,
    now: i64,
) -> GitHubAccountView {
    GitHubAccountView {
        id: account.id,
        username: match username {
            Some(name) => name,
            None => account.username,
        },
        oauth_token: or_else(oauth_token, account.oauth_token),
        pat: or_else(pat, account.pat),
        primary_email: or_else(primary_email, account.primary_email),
        created_at: account.created_at,
        updated_at: now,
    }
}

fn given_or_kept(given: &Option<String>, kept: &Option<String>) -> (chosen: Option<String>)
    ensures
        chosen.deep_view() == or_else(given.deep_view(), kept.deep_view()),
{
    match given {
        Some(value) => Some(value.clone()),
        None => clone_text(kept),
    }
}

impl vstd::std_specs::convert::FromSpecImpl<GitHubAccount> for GitHubAccountSafe {
    open spec fn obeys_from_spec() -> bool {
        true
    }

    open spec fn from_spec(account: GitHubAccount) -> GitHubAccountSafe {
        GitHubAccountSafe {
            id: account.id,
            username: account.username,
            primary_email: account.primary_email,
            has_token: account.oauth_token.is_some() || account.pat.is_some(),
            created_at: account.created_at,
            updated_at: account.updated_at,
        }
    }
}

impl From<GitHubAccount> for GitHubAccountSafe {
    fn from(account: GitHubAccount) -> (safe: GitHubAccountSafe)
        ensures
            safe@ == spec_safe(account@),
    {
        let has_token = account.oauth_token.is_some() || account.pat.is_some();
        GitHubAccountSafe {
            id: account.id,
            username: account.username,
            primary_email: account.primary_email,
            has_token,
            created_at: account.created_at,
            updated_at: account.updated_at,
        }
    }
}

impl GitHubAccount {
    /// The token to sign in with: the personal access token where there is
    /// one, else the OAuth token.
    pub fn token(&self) -> (token: Option<String>)
        ensures
            token.deep_view() == spec_token(self@),
    {
        given_or_kept(&self.pat, &self.oauth_token)
    }

    /// The account that `data` asks for, under the identifier `id`.
    /// `taken` says whether an account has the user name already. Refused
    /// where no token is given, and where the user name is taken.
    pub fn create(data: &CreateGitHubAccount, taken: bool, id: u128, now: i64) -> (created: Result<
        GitHubAccount,
        GitHubAccountError,
    >)
        ensures
            crate::error::view_result(created) == (if data.oauth_token.is_none()
                && data.pat.is_none() {
                Err(GitHubAccountErrorView::NoTokenProvided)
            } else if taken {
                Err(GitHubAccountErrorView::UsernameExists(data.username@))
            } else {
                Ok(
                    GitHubAccountView {
                        id,
                        username: data.username@,
                        oauth_token: data.oauth_token.deep_view(),
                        pat: data.pat.deep_view(),
                        primary_email: data.primary_email.deep_view(),
                        created_at: now,
                        updated_at: now,
                    },
                )
            }),
    {
        if data.oauth_token.is_none() && data.pat.is_none() {
            return Err(GitHubAccountError::NoTokenProvided);
        }
        if taken {
            return Err(GitHubAccountError::UsernameExists(data.username.clone()));
        }
        Ok(
            GitHubAccount {
                id,
                username: data.username.clone(),
                oauth_token: clone_text(&data.oauth_token),
                pat: clone_text(&data.pat),
                primary_email: clone_text(&data.primary_email),
                created_at: now,
                updated_at: now,
            },
        )
    }

    /// The user name that a change asks for, where it differs from the
    /// account's: the name to look up before the change is made.
    pub fn renamed_to<'a>(&self, data: &'a UpdateGitHubAccount) -> (name: Option<&'a str>)
        ensures
            name.deep_view() == match data.username.deep_view() {
                Some(new_name) => if new_name != self.username@ {
                    Some(new_name)
                } else {
                    None
                },
                None => None,
            },
    {
        match &data.username {
            Some(new_name) => if !str_eq(new_name.as_str(), self.username.as_str()) {
                Some(new_name.as_str())
            } else {
                None
            },
            None => None,
        }
    }

    /// The account after a change. `existing` is the account to change, if
    /// there is one; `taken` says whether another account has the new user
    /// name. Each field that the change gives replaces the account's; the
    /// others stay.
    pub fn update(
        existing: Option<&GitHubAccount>,
        data: &UpdateGitHubAccount,
        taken: bool,
        now: i64,
    ) -> (updated: Result<GitHubAccount, GitHubAccountError>)
        ensures
            crate::error::view_result(updated) == (match existing.deep_view() {
                None => Err(GitHubAccountErrorView::AccountNotFound),
                Some(account) => if data.username.is_some() && data.username.unwrap()@
                    != account.username && taken {
                    Err(GitHubAccountErrorView::UsernameExists(data.username.unwrap()@))
                } else {
                    Ok(
                        spec_updated(
                            account,
                            data.username.deep_view(),
                            data.oauth_token.deep_view(),
                            data.pat.deep_view(),
                            data.primary_email.deep_view(),
                            now,
                        ),
                    )
                },
            }),
    {
        let account = match existing {
            Some(account) => account,
            None => {
                return Err(GitHubAccountError::AccountNotFound);
            },
        };
        match account.renamed_to(data) {
            Some(new_name) => {
                if taken {
                    return Err(GitHubAccountError::UsernameExists(String::from_str(new_name)));
                }
            },
            None => {},
        }
        let username = match &data.username {
            Some(name) => name.clone(),
            None => account.username.clone(),
        };
        Ok(
            GitHubAccount {
                id: account.id,
                username,
                oauth_token: given_or_kept(&data.oauth_token, &account.oauth_token),
                pat: given_or_kept(&data.pat, &account.pat),
                primary_email: given_or_kept(&data.primary_email, &account.primary_email),
                created_at: account.created_at,
                updated_at: now,
            },
        )
    }
}

} // verus!
