//! What a caller submits to the two flows.
use crate::error::AuthError;
use crate::model::{Timestamp, UserDao, UserDaoView};
use crate::stamp::{fresh_id, local_now};
use crate::text::clone_optional;
use crate::validate::{length_in_range, length_ok, verdict};
use vstd::prelude::*;

verus! {

/// The fields of an account to be registered. `password` is the secret as
/// the caller typed it; the store hashes it before it keeps it.
#[derive(Clone, Debug, PartialEq, Eq)]
pub struct NewUser {
    pub username: String,
    pub password: String,
    pub email: Option<String>,
    pub avatar: Option<String>,
    pub memo: Option<String>,
}

/// The model of a [`NewUser`].
pub struct NewUserView {
    pub username: Seq<char>,
    pub password: Seq<char>,
    pub email: Option<Seq<char>>,
    pub avatar: Option<Seq<char>>,
    pub memo: Option<Seq<char>>,
}

impl DeepView for NewUser {
    type V = NewUserView;

    open spec fn deep_view(&self) -> NewUserView {
        NewUserView {
            username: self.username@,
            password: self.password@,
            email: self.email.deep_view(),
            avatar: self.avatar.deep_view(),
            memo: self.memo.deep_view(),
        }
    }
}

impl NewUserView {
    /// Whether the fields are acceptable: a username and a secret are given.
    pub open spec fn valid(self) -> bool {
        length_ok(self.username, 1, None) && length_ok(self.password, 1, None)
    }
}

impl NewUserView {
    /// The row for the account under `id`, created at `at`, with `hash` as
    /// its credential: active, with no system role, and never logged in
    /// before `at`. The secret itself is in no field of the row.
    pub open spec fn record(self, id: Seq<char>, hash: Seq<char>, at: Timestamp) -> UserDaoView {
        UserDaoView {
            id,
            username: self.username,
            password: hash,
            email: self.email,
            avatar: self.avatar,
            memo: self.memo,
            sys_role: None,
            is_actived: Some(true),
            last_logined_at: at,
            created_at: at,
        }
    }
}

impl NewUser {
    /// The row for the account under the identifier, the credential hash and
    /// the instant given.
    pub fn record(&self, id: String, hash: String, at: Timestamp) -> (row: UserDao)
        ensures
            row.deep_view() == self.deep_view().record(id@, hash@, at),
    {
        UserDao {
            id,
            username: self.username.clone(),
            password: hash,
            email: clone_optional(&self.email),
            avatar: clone_optional(&self.avatar),
            memo: clone_optional(&self.memo),
            sys_role: None,
            is_actived: Some(true),
            last_logined_at: at,
            created_at: at,
        }
    }

    /// The row to store for the account: [`NewUser::record`] under a new
    /// random identifier, with `hash`, the hash of the secret, as its
    /// credential and the current local time as its instant.
    pub fn create(&self, hash: String) -> (row: UserDao)
        ensures
            row.deep_view() == self.deep_view().record(row.id@, hash@, row.created_at),
    {
        let id = fresh_id();
        let at = local_now();
        self.record(id, hash, at)
    }

    /// Checks the fields: neither the username nor the secret may be empty.
    pub fn validate(&self) -> (r: Result<(), AuthError>)
        ensures
            r is Ok <==> self.deep_view().valid(),
            r is Err ==> r == Err::<(), AuthError>(
                AuthError::ValidationError(crate::error::ValidationIssue::MalformedInput),
            ),
    {
        let passed = length_in_range(self.username.as_str(), 1, None) && length_in_range(
            self.password.as_str(),
            1,
            None,
        );
        verdict(passed)
    }
}

/// The credentials of a login attempt.
#[derive(Clone, Debug, PartialEq, Eq)]
pub struct LoginUser {
    pub username: String,
    pub password: String,
}

/// The model of a [`LoginUser`].
pub struct LoginUserView {
    pub username: Seq<char>,
    pub password: Seq<char>,
}

impl DeepView for LoginUser {
    type V = LoginUserView;

    open spec fn deep_view(&self) -> LoginUserView {
        LoginUserView { username: self.username@, password: self.password@ }
    }
}

impl LoginUserView {
    /// Whether the fields are acceptable: a username and a secret are given.
    pub open spec fn valid(self) -> bool {
        length_ok(self.username, 1, None) && length_ok(self.password, 1, None)
    }
}

impl LoginUser {
    /// Checks the fields: neither the username nor the secret may be empty.
    pub fn validate(&self) -> (r: Result<(), AuthError>)
        ensures
            r is Ok <==> self.deep_view().valid(),
            r is Err ==> r == Err::<(), AuthError>(
                AuthError::ValidationError(crate::error::ValidationIssue::MalformedInput),
            ),
    {
        let passed = length_in_range(self.username.as_str(), 1, None) && length_in_range(
            self.password.as_str(),
            1,
            None,
        );
        verdict(passed)
    }
}

} // verus!
