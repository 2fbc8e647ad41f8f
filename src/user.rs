//! Local user records.

use vstd::prelude::*;
use crate::token::{generate_token, is_session_token};

verus! {

/// A user as stored in the `users` relation.
pub struct User {
    /// Surrogate key, assigned by storage on insert; `None` before that.
    pub id: Option<i32>,
    /// The provider-reported handle, normalized.
    pub username: String,
    /// The internal session token, generated locally.
    pub token: String,
    /// Which provider authenticated the user (GitHub = 1, GitLab = 2).
    pub auth_provider: i32,
    /// The access token the provider issued.
    pub ext_token: String,
}

/// The projection of a `User` that is written on first login.
pub struct InsertUser {
    pub username: String,
    pub auth_provider: i32,
    pub token: String,
    pub ext_token: String,
}

/// What the site's own API shows of a persisted user.
pub struct APIUser {
    pub id: i32,
    pub auth_provider: i32,
    pub username: String,
}

/// The user that storage holds once `ins` has been written under key `id`.
pub open spec fn stored_user(ins: InsertUser, id: i32) -> User {
    User {
        id: Some(id),
        username: ins.username,
        token: ins.token,
        auth_provider: ins.auth_provider,
        ext_token: ins.ext_token,
    }
}

impl User {
    /// The record that `insert_user` describes, not yet given a key.
    pub fn new_from_inserted(insert_user: InsertUser) -> (r: User)
        ensures
            r.id is None,
            r.username == insert_user.username,
            r.token == insert_user.token,
            r.auth_provider == insert_user.auth_provider,
            r.ext_token == insert_user.ext_token,
    {
        User {
            id: None,
            username: insert_user.username,
            token: insert_user.token,
            auth_provider: insert_user.auth_provider,
            ext_token: insert_user.ext_token,
        }
    }

    /// A copy of this record.
    pub fn duplicate(&self) -> (r: User)
        ensures
            r == *self,
    {
        User {
            id: self.id,
            username: self.username.clone(),
            token: self.token.clone(),
            auth_provider: self.auth_provider,
            ext_token: self.ext_token.clone(),
        }
    }
}

impl InsertUser {
    /// A new record for `username` at `auth_provider`, with a freshly drawn
    /// internal token.
    pub fn new(username: String, auth_provider: i32, ext_token: String) -> (r: InsertUser)
        ensures
            r.username == username,
            r.auth_provider == auth_provider,
            r.ext_token == ext_token,
            is_session_token(r.token@),
    {
        let token = generate_token();
        InsertUser { username, auth_provider, token, ext_token }
    }

    /// A copy of this record.
    pub fn duplicate(&self) -> (r: InsertUser)
        ensures
            r == *self,
    {
        InsertUser {
            username: self.username.clone(),
            auth_provider: self.auth_provider,
            token: self.token.clone(),
            ext_token: self.ext_token.clone(),
        }
    }
}

impl APIUser {
    /// The public view of a persisted user.
    pub fn new_from_user(user: User) -> (r: APIUser)
        requires
            user.id is Some,
        ensures
            r.id == user.id->0,
            r.auth_provider == user.auth_provider,
            r.username == user.username,
    {
        APIUser {
            id: user.id.unwrap(),
            auth_provider: user.auth_provider,
            username: user.username,
        }
    }
}

} // verus!
