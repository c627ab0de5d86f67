//! Twitter.

pub mod api;
pub mod interval;
pub mod list_timeline;
pub mod text;

use vstd::prelude::*;

verus! {

/// The credentials of a client or of a user.
#[derive(Clone, Debug)]
pub struct Credentials<T = String> {
    pub key: T,
    pub secret: T,
}

impl<T> Credentials<T> {
    /// Converts both parts.
    pub fn map<U, F: Fn(T) -> U>(self, f: F) -> (r: Credentials<U>)
        requires
            f.requires((self.key,)),
            f.requires((self.secret,)),
        ensures
            f.ensures((self.key,), r.key),
            f.ensures((self.secret,), r.secret),
    {
        Credentials { key: f(self.key), secret: f(self.secret) }
    }
}

impl Credentials<String> {
    /// Borrows both parts.
    pub fn as_ref(&self) -> (r: Credentials<&str>)
        ensures
            r.key@ == self.key@,
            r.secret@ == self.secret@,
    {
        Credentials { key: self.key.as_str(), secret: self.secret.as_str() }
    }

    /// Returns the same credentials.
    pub fn duplicate(&self) -> (r: Credentials<String>)
        ensures
            r == *self,
    {
        Credentials { key: self.key.clone(), secret: self.secret.clone() }
    }
}

/// A user.
#[derive(Copy, Clone, Debug)]
pub struct User {
    pub id: i64,
}

/// The credentials of a user.
#[derive(Debug)]
pub struct AccessToken {
    pub credentials: Credentials<String>,
    pub user_id: i64,
}

/// A Tweet.
#[derive(Debug)]
pub struct Tweet {
    pub id: i64,
    pub text: String,
    pub user: User,
    pub in_reply_to_user_id: Option<i64>,
    pub in_reply_to_status_id: Option<i64>,
    pub quoted_status_id: Option<i64>,
    pub retweeted_status: Option<Box<Tweet>>,
}

} // verus!
