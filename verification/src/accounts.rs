//! The accounts of users and restaurants: what a login and a change of the
//! profile come to.
//!
//! Checking a password against its hash and making a new hash are the
//! caller's part. The caller says how the check came out; what follows from
//! that is decided here.

use crate::order::Id;
use vstd::prelude::*;

verus! {

/// The side of the square, in pixels, that a user's picture is fitted into.
pub const USER_IMAGE_SIDE: u32 = 160;

/// The side of the square that a restaurant's picture is fitted into.
pub const RESTAURANT_IMAGE_SIDE: u32 = 1000;

/// The side of the square that the picture of a new item is fitted into.
pub const NEW_ITEM_IMAGE_SIDE: u32 = 400;

/// The side of the square that the changed picture of an item is fitted into.
pub const UPDATED_ITEM_IMAGE_SIDE: u32 = 70;

/// Why a request about an account was refused.
#[derive(Clone, Copy, Debug, PartialEq, Eq, Structural)]
pub enum AccountError {
    /// Somebody else has the requested username.
    UsernameTaken,
    /// Nobody has the username that was given at login.
    UsernameUnknown,
    /// The password that was given at login is wrong.
    Unauthorized,
    /// The old password that was given to change the password is wrong.
    OldPasswordIncorrect,
}

/// How the check of a password against the stored hash came out.
#[derive(Clone, Copy, Debug, PartialEq, Eq, Structural)]
pub enum PasswordCheck {
    Match,
    Mismatch,
}

/// A user's account.
#[derive(Debug)]
pub struct User {
    pub id: Id,
    pub username: String,
    pub password_hash: String,
}

/// A restaurant's account. The opening hours are in seconds since the epoch.
#[derive(Debug)]
pub struct Restaurant {
    pub id: Id,
    pub username: String,
    pub name: String,
    pub password_hash: String,
    pub open_time: i64,
    pub close_time: i64,
}

/// A change of password: the old one, to prove who is asking, and the new one.
#[derive(Debug)]
pub struct UpdatePass {
    pub old_password: String,
    pub new_password: String,
}

/// What a user sends to change the account. A field that is `None` stays as it
/// is.
#[derive(Debug)]
pub struct UpdateUser {
    pub username: Option<String>,
    pub update_pass: Option<UpdatePass>,
}

/// What a restaurant sends to change the account. A field that is `None` stays
/// as it is.
#[derive(Debug)]
pub struct UpdateRestaurant {
    pub username: Option<String>,
    pub update_pass: Option<UpdatePass>,
    pub name: Option<String>,
    pub open_time: Option<i64>,
    pub close_time: Option<i64>,
}

/// The text `new` where there is one, else `current`.
pub open spec fn replaced(current: Seq<char>, new: Option<String>) -> Seq<char> {
    match new {
        Some(text) => text@,
        None => current,
    }
}

/// What a login comes to once the password was checked: a wrong password is
/// `Unauthorized`.
pub fn login_user(check: PasswordCheck) -> (outcome: Result<(), AccountError>)
    ensures
        outcome == (match check {
            PasswordCheck::Match => Ok::<(), AccountError>(()),
            PasswordCheck::Mismatch => Err::<(), AccountError>(AccountError::Unauthorized),
        }),
{
    match check {
        PasswordCheck::Match => Ok(()),
        PasswordCheck::Mismatch => Err(AccountError::Unauthorized),
    }
}

/// What a change of password comes to once the old password was checked: a
/// wrong old password is reported as such, not as a failed login.
pub fn update_pass(check: PasswordCheck) -> (outcome: Result<(), AccountError>)
    ensures
        outcome == (match check {
            PasswordCheck::Match => Ok::<(), AccountError>(()),
            PasswordCheck::Mismatch => Err::<(), AccountError>(AccountError::OldPasswordIncorrect),
        }),
{
    match check {
        PasswordCheck::Match => Ok(()),
        PasswordCheck::Mismatch => Err(AccountError::OldPasswordIncorrect),
    }
}

/// The field of the request that an error is about and what is told about
/// it. A failed login names no field.
pub open spec fn detail_of(error: AccountError) -> Option<(Seq<char>, Seq<char>)> {
    match error {
        AccountError::UsernameTaken => Some(("username"@, "username taken"@)),
        AccountError::UsernameUnknown => Some(("username"@, "does not exist"@)),
        AccountError::OldPasswordIncorrect => Some(
            ("old_password"@, "old password is incorrect"@),
        ),
        AccountError::Unauthorized => None,
    }
}

impl AccountError {
    /// The field of the request that the error is about and what is told about
    /// it.
    pub fn detail(&self) -> (detail: Option<(&'static str, &'static str)>)
        ensures
            match detail {
                Some((field, message)) => detail_of(*self) == Some((field@, message@)),
                None => detail_of(*self) is None,
            },
    {
        match self {
            AccountError::UsernameTaken => Some(("username", "username taken")),
            AccountError::UsernameUnknown => Some(("username", "does not exist")),
            AccountError::OldPasswordIncorrect => Some(
                ("old_password", "old password is incorrect"),
            ),
            AccountError::Unauthorized => None,
        }
    }
}

impl User {
    /// Applies a change to the account: the username, where one was sent, and
    /// the hash of the new password, where the password was changed.
    pub fn update_user(&mut self, update: UpdateUser, new_hash: Option<String>)
        ensures
            final(self).id == old(self).id,
            final(self).username@ == replaced(old(self).username@, update.username),
            final(self).password_hash@ == replaced(old(self).password_hash@, new_hash),
    {
        match update.username {
            Some(username) => {
                self.username = username;
            },
            None => {},
        }
        match new_hash {
            Some(hash) => {
                self.password_hash = hash;
            },
            None => {},
        }
    }
}

impl Restaurant {
    /// Applies a change to the account: each field that was sent, and the hash
    /// of the new password, where the password was changed.
    pub fn update_restaurant(&mut self, update: UpdateRestaurant, new_hash: Option<String>)
        ensures
            final(self).id == old(self).id,
            final(self).username@ == replaced(old(self).username@, update.username),
            final(self).name@ == replaced(old(self).name@, update.name),
            final(self).password_hash@ == replaced(old(self).password_hash@, new_hash),
            final(self).open_time == (match update.open_time {
                Some(t) => t,
                None => old(self).open_time,
            }),
            final(self).close_time == (match update.close_time {
                Some(t) => t,
                None => old(self).close_time,
            }),
    {
        match update.username {
            Some(username) => {
                self.username = username;
            },
            None => {},
        }
        match update.name {
            Some(name) => {
                self.name = name;
            },
            None => {},
        }
        match new_hash {
            Some(hash) => {
                self.password_hash = hash;
            },
            None => {},
        }
        match update.open_time {
            Some(t) => {
                self.open_time = t;
            },
            None => {},
        }
        match update.close_time {
            Some(t) => {
                self.close_time = t;
            },
            None => {},
        }
    }
}

} // verus!
