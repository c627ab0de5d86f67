//! Rows of the database.

use vstd::prelude::*;

use crate::feed::Entry;
use crate::strings::opt_as_str;
#[allow(unused_imports)]
use crate::strings::{opt_str_view, opt_view};
use crate::twitter;
use crate::twitter::{AccessToken, Credentials};

verus! {

/// A new row of the table of entries.
#[derive(Clone, Debug)]
pub struct NewEntry<'a> {
    pub topic: &'a str,
    pub id: Option<&'a str>,
    pub link: &'a str,
    pub title: Option<&'a str>,
    pub summary: Option<&'a str>,
    pub content: Option<&'a str>,
    pub updated: Option<i64>,
}

/// A row of the table of Tweets.
#[derive(Clone, Debug)]
pub struct Tweet {
    pub id: i64,
    pub text: String,
    pub user_id: i64,
    pub in_reply_to_status_id: Option<i64>,
    pub quoted_status_id: Option<i64>,
    pub quoted_status_text: Option<String>,
}

/// A new row of the table of Tweets.
#[derive(Clone, Debug)]
pub struct NewTweet<'a> {
    pub id: i64,
    pub text: &'a str,
    pub user_id: i64,
    pub in_reply_to_status_id: Option<i64>,
    pub quoted_status_id: Option<i64>,
}

/// A row of the table of users' credentials.
#[derive(Clone, Debug)]
pub struct TwitterToken {
    pub id: i64,
    pub access_token: String,
    pub access_token_secret: String,
}

/// A new row of the table of users' credentials.
#[derive(Clone, Debug)]
pub struct NewTwitterTokens<'a> {
    pub id: i64,
    pub access_token: &'a str,
    pub access_token_secret: &'a str,
}

impl<'a> NewEntry<'a> {
    /// Makes the row of an entry. There is none for an entry without a link.
    pub fn new(topic: &'a str, entry: &'a Entry) -> (r: Option<Self>)
        ensures
            r is Some <==> entry.link is Some,
            r matches Some(row) ==> {
                &&& row.topic@ == topic@
                &&& opt_str_view(row.id) == opt_view(entry.id)
                &&& Some(row.link@) == opt_view(entry.link)
                &&& opt_str_view(row.title) == opt_view(entry.title)
                &&& opt_str_view(row.summary) == opt_view(entry.summary)
                &&& opt_str_view(row.content) == opt_view(entry.content)
                &&& row.updated == entry.updated
            },
    {
        match &entry.link {
            Some(link) => Some(
                NewEntry {
                    topic,
                    id: opt_as_str(&entry.id),
                    link: link.as_str(),
                    title: opt_as_str(&entry.title),
                    summary: opt_as_str(&entry.summary),
                    content: opt_as_str(&entry.content),
                    updated: entry.updated,
                },
            ),
            None => None,
        }
    }
}

impl<'a> NewTweet<'a> {
    /// Makes the row of a Tweet.
    pub fn new(tweet: &'a twitter::Tweet) -> (r: Self)
        ensures
            r.id == tweet.id,
            r.text@ == tweet.text@,
            r.user_id == tweet.user.id,
            r.in_reply_to_status_id == tweet.in_reply_to_status_id,
            r.quoted_status_id == tweet.quoted_status_id,
    {
        NewTweet {
            id: tweet.id,
            text: tweet.text.as_str(),
            user_id: tweet.user.id,
            in_reply_to_status_id: tweet.in_reply_to_status_id,
            quoted_status_id: tweet.quoted_status_id,
        }
    }
}

impl TwitterToken {
    /// The credentials in the row.
    pub open spec fn credentials(&self) -> Credentials<String> {
        Credentials { key: self.access_token, secret: self.access_token_secret }
    }

    /// Returns the credentials in the row.
    pub fn into_credentials(self) -> (r: Credentials<String>)
        ensures
            r == self.credentials(),
    {
        Credentials { key: self.access_token, secret: self.access_token_secret }
    }
}

impl<'a> NewTwitterTokens<'a> {
    /// Makes the row of a user's credentials.
    pub fn new(token: &'a AccessToken) -> (r: Self)
        ensures
            r.id == token.user_id,
            r.access_token@ == token.credentials.key@,
            r.access_token_secret@ == token.credentials.secret@,
    {
        NewTwitterTokens {
            id: token.user_id,
            access_token: token.credentials.key.as_str(),
            access_token_secret: token.credentials.secret.as_str(),
        }
    }
}

/// The credentials in a row are its token and the secret of that.
pub proof fn rows_hold_credentials(row: TwitterToken)
    ensures
        row.credentials().key == row.access_token,
        row.credentials().secret == row.access_token_secret,
{
}

} // verus!
