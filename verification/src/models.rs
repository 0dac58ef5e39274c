//! The identity record, the one persistent entity of the server.

use vstd::prelude::*;

verus! {

/// Work factor given to an identity that was created without one.
pub const DEFAULT_ITERATIONS: i32 = 100_000;

/// One stored identity.
///
/// `user_key` is the authentication key that the client derived from the
/// master secret; no response ever carries it. `salt` and `iterations` are
/// fixed when the record is created. `vault` and `vaultiv` travel together.
#[derive(Debug, PartialEq, Eq)]
pub struct User {
    pub id: u128,
    pub email: String,
    pub user_key: String,
    pub salt: String,
    pub vault: String,
    pub iterations: i32,
    pub vaultiv: String,
}

/// What a [`User`] holds, as mathematical values.
pub struct UserView {
    pub id: u128,
    pub email: Seq<char>,
    pub user_key: Seq<char>,
    pub salt: Seq<char>,
    pub vault: Seq<char>,
    pub iterations: i32,
    pub vaultiv: Seq<char>,
}

impl View for User {
    type V = UserView;

    open spec fn view(&self) -> UserView {
        UserView {
            id: self.id,
            email: self.email@,
            user_key: self.user_key@,
            salt: self.salt@,
            vault: self.vault@,
            iterations: self.iterations,
            vaultiv: self.vaultiv@,
        }
    }
}

impl Clone for User {
    fn clone(&self) -> (copy: User)
        ensures
            copy@ == self@,
    {
        User {
            id: self.id,
            email: self.email.clone(),
            user_key: self.user_key.clone(),
            salt: self.salt.clone(),
            vault: self.vault.clone(),
            iterations: self.iterations,
            vaultiv: self.vaultiv.clone(),
        }
    }
}

/// A record to be created. The vault, its initialization vector and the
/// work factor may be left out; the store then fills in its defaults.
#[derive(Debug, PartialEq, Eq)]
pub struct NewUser {
    pub id: u128,
    pub email: String,
    pub user_key: String,
    pub salt: String,
    pub vault: Option<String>,
    pub iterations: Option<i32>,
    pub vaultiv: Option<String>,
}

/// What a [`NewUser`] holds, as mathematical values.
pub struct NewUserView {
    pub id: u128,
    pub email: Seq<char>,
    pub user_key: Seq<char>,
    pub salt: Seq<char>,
    pub vault: Option<Seq<char>>,
    pub iterations: Option<i32>,
    pub vaultiv: Option<Seq<char>>,
}

/// The text of an optional string, if there is one.
pub open spec fn text_of(s: Option<String>) -> Option<Seq<char>> {
    match s {
        Some(s) => Some(s@),
        None => None,
    }
}

impl View for NewUser {
    type V = NewUserView;

    open spec fn view(&self) -> NewUserView {
        NewUserView {
            id: self.id,
            email: self.email@,
            user_key: self.user_key@,
            salt: self.salt@,
            vault: text_of(self.vault),
            iterations: self.iterations,
            vaultiv: text_of(self.vaultiv),
        }
    }
}

impl NewUserView {
    /// The record that is stored for this request: what was left out is
    /// an empty vault, an empty initialization vector and
    /// [`DEFAULT_ITERATIONS`].
    pub open spec fn row(self) -> UserView {
        UserView {
            id: self.id,
            email: self.email,
            user_key: self.user_key,
            salt: self.salt,
            vault: match self.vault {
                Some(v) => v,
                None => Seq::empty(),
            },
            iterations: match self.iterations {
                Some(n) => n,
                None => DEFAULT_ITERATIONS,
            },
            vaultiv: match self.vaultiv {
                Some(iv) => iv,
                None => Seq::empty(),
            },
        }
    }
}

impl NewUser {
    /// Turns the request into the record to store, defaults filled in.
    pub fn into_row(self) -> (user: User)
        ensures
            user@ == self@.row(),
    {
        User {
            id: self.id,
            email: self.email,
            user_key: self.user_key,
            salt: self.salt,
            vault: match self.vault {
                Some(v) => v,
                None => String::new(),
            },
            iterations: match self.iterations {
                Some(n) => n,
                None => DEFAULT_ITERATIONS,
            },
            vaultiv: match self.vaultiv {
                Some(iv) => iv,
                None => String::new(),
            },
        }
    }
}

/// The part of an identity that every authenticated response carries.
#[derive(Debug, PartialEq, Eq)]
pub struct UserResponse {
    pub id: u128,
    pub email: String,
}

/// What a [`UserResponse`] holds, as mathematical values.
pub struct UserResponseView {
    pub id: u128,
    pub email: Seq<char>,
}

impl View for UserResponse {
    type V = UserResponseView;

    open spec fn view(&self) -> UserResponseView {
        UserResponseView { id: self.id, email: self.email@ }
    }
}

impl UserView {
    /// The public part of a record.
    pub open spec fn public(self) -> UserResponseView {
        UserResponseView { id: self.id, email: self.email }
    }
}

/// The view of a result whose success carries a value with a view.
pub open spec fn lift<T: View, E>(r: Result<T, E>) -> Result<T::V, E> {
    match r {
        Ok(v) => Ok(v@),
        Err(e) => Err(e),
    }
}

} // verus!
