//! Statuses.

use vstd::prelude::*;

use super::{push_bool, sign, Call, HttpRequest, Method};
#[allow(unused_imports)]
use super::{bool_text, can_be_signed, credentials_view, is_sent, CallView};
use crate::decimal::push_i64;
#[allow(unused_imports)]
use crate::decimal::{decimal_is_read_back, is_digit, signed_decimal};
use crate::encoding::push_field;
#[allow(unused_imports)]
use crate::encoding::pairs_view;
use crate::twitter::Credentials;

verus! {

/// Posts a Tweet.
#[derive(Copy, Clone, Debug)]
pub struct Update<'a> {
    pub status: &'a str,
    pub trim_user: bool,
}

impl<'a> Update<'a> {
    /// Makes the request.
    pub fn new(status: &'a str) -> (r: Self)
        ensures
            r.status@ == status@,
            r.trim_user,
    {
        Update { status, trim_user: true }
    }

    /// Sets whether the reply is to name the user by their ID alone.
    pub fn trim_user(&mut self, trim_user: bool) -> (r: &mut Self)
        ensures
            *r == (Update { trim_user, ..*old(self) }),
            *final(self) == *final(r),
    {
        self.trim_user = trim_user;
        self
    }

    /// Returns where the request goes and its parameters.
    pub fn call(&self) -> (r: Call)
        ensures
            r@ == (CallView {
                method: Method::Post,
                uri: "https://api.twitter.com/1.1/statuses/update.json"@,
                params: seq![
                    ("status"@, self.status@),
                    ("trim_user"@, bool_text(self.trim_user)),
                ],
            }),
    {
        let mut params: Vec<(String, String)> = Vec::new();
        push_field(&mut params, "status", self.status);
        push_bool(&mut params, "trim_user", self.trim_user);
        let r = Call {
            method: Method::Post,
            uri: "https://api.twitter.com/1.1/statuses/update.json",
            params,
        };
        assert(r@.params == seq![
            ("status"@, self.status@),
            ("trim_user"@, bool_text(self.trim_user)),
        ]);
        r
    }
}

/// The request for a Retweet of a Tweet.
pub open spec fn retweet_call(id: i64) -> CallView {
    CallView {
        method: Method::Post,
        uri: "https://api.twitter.com/1.1/statuses/retweet/"@ + signed_decimal(id as int)
            + ".json"@,
        params: Seq::empty(),
    }
}

/// The request for a Retweet can be signed, whatever the ID.
proof fn retweet_can_be_signed(id: i64)
    ensures
        can_be_signed(retweet_call(id)),
{
    reveal_strlit("https://api.twitter.com/1.1/statuses/retweet/");
    reveal_strlit(".json");
    let prefix = "https://api.twitter.com/1.1/statuses/retweet/"@;
    let digits = signed_decimal(id as int);
    let suffix = ".json"@;
    if id < 0 {
        decimal_is_read_back((-id) as nat);
    } else {
        decimal_is_read_back(id as nat);
    }
    assert forall|i: int| 0 <= i < digits.len() implies digits[i] != '?' by {
        if id < 0 {
            if i > 0 {
                assert(is_digit(crate::decimal::decimal((-id) as nat)[i - 1]));
            }
        } else {
            assert(is_digit(digits[i]));
        }
    }
    assert forall|i: int| 0 <= i < prefix.len() implies prefix[i] != '?' by {}
    assert forall|i: int| 0 <= i < suffix.len() implies suffix[i] != '?' by {}
}

/// Signs the request for a Retweet of a Tweet on behalf of a user.
pub fn retweet(id: i64, client: &Credentials<String>, token: &Credentials<String>) -> (r:
    HttpRequest)
    ensures
        is_sent(
            r,
            retweet_call(id),
            credentials_view(*client),
            Some(credentials_view(*token)),
            None,
            None,
        ),
{
    let mut uri = "https://api.twitter.com/1.1/statuses/retweet/".to_owned();
    push_i64(&mut uri, id);
    uri.append(".json");
    let params: Vec<(String, String)> = Vec::new();
    proof {
        retweet_can_be_signed(id);
        assert(pairs_view(params@) == retweet_call(id).params);
    }
    sign(Method::Post, uri.as_str(), &params, client, Some(token), None, None)
}

/// The requests for Retweets of two Tweets differ in nothing but the ID, which stands between what
/// their URIs have in common.
pub proof fn retweets_name_their_tweet(id: i64)
    ensures
        retweet_call(id).method is Post,
        retweet_call(id).params.len() == 0,
        "https://api.twitter.com/1.1/statuses/retweet/"@.is_prefix_of(retweet_call(id).uri),
        retweet_call(id).uri.skip("https://api.twitter.com/1.1/statuses/retweet/"@.len() as int)
            == signed_decimal(id as int) + ".json"@,
{
    let prefix = "https://api.twitter.com/1.1/statuses/retweet/"@;
    let uri = retweet_call(id).uri;
    assert(uri.subrange(0, prefix.len() as int) == prefix);
    assert(uri.skip(prefix.len() as int) == signed_decimal(id as int) + ".json"@);
}

} // verus!
