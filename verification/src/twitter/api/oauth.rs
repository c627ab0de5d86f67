//! Authorization of users.

use vstd::prelude::*;

use super::super::{AccessToken, Credentials};
use super::{Call, HttpRequest, Method};
#[allow(unused_imports)]
use super::{credentials_view, is_sent, CallView, Pair};
use crate::decimal::parse_i64;
#[allow(unused_imports)]
use crate::decimal::signed_text_value;
use crate::encoding::{decode_form, find_only_value};
#[allow(unused_imports)]
use crate::encoding::{form_pairs, only_value, pairs_view};

verus! {

/// Where temporary credentials are asked for.
pub const REQUEST_TOKEN: &'static str = "https://api.twitter.com/oauth/request_token";

/// Where the credentials of a user are asked for.
pub const ACCESS_TOKEN: &'static str = "https://api.twitter.com/oauth/access_token";

/// A request without parameters.
pub open spec fn post_view(uri: Seq<char>) -> CallView {
    CallView { method: Method::Post, uri, params: Seq::empty() }
}

/// Returns a request without parameters.
fn post(uri: &'static str) -> (r: Call)
    ensures
        r@ == post_view(uri@),
{
    let r = Call { method: Method::Post, uri, params: Vec::new() };
    assert(r@.params == Seq::<Pair>::empty());
    r
}

/// Returns the request for temporary credentials, whose verifier the user is to type in.
pub fn request_token(client: &Credentials<String>) -> (r: HttpRequest)
    ensures
        is_sent(
            r,
            post_view(REQUEST_TOKEN@),
            credentials_view(*client),
            None,
            Some("oob"@),
            None,
        ),
{
    proof {
        reveal_strlit("https://api.twitter.com/oauth/request_token");
    }
    let call = post(REQUEST_TOKEN);
    call.sign(client, None, Some("oob"), None)
}

/// Returns the request for the credentials of a user, with the verifier that they have typed in.
pub fn access_token(
    verifier: &str,
    client: &Credentials<String>,
    temporary: &Credentials<String>,
) -> (r: HttpRequest)
    ensures
        is_sent(
            r,
            post_view(ACCESS_TOKEN@),
            credentials_view(*client),
            Some(credentials_view(*temporary)),
            None,
            Some(verifier@),
        ),
{
    proof {
        reveal_strlit("https://api.twitter.com/oauth/access_token");
    }
    let call = post(ACCESS_TOKEN);
    call.sign(client, Some(temporary), None, Some(verifier))
}

/// The credentials that the fields of a reply hold.
pub open spec fn fields_credentials(fields: Seq<Pair>) -> Option<(Seq<char>, Seq<char>)> {
    match (only_value(fields, "oauth_token"@), only_value(fields, "oauth_token_secret"@)) {
        (Some(key), Some(secret)) => Some((key, secret)),
        _ => None,
    }
}

/// The user that the fields of a reply name.
pub open spec fn fields_user(fields: Seq<Pair>) -> Option<i64> {
    match only_value(fields, "user_id"@) {
        Some(text) => match signed_text_value(text) {
            Some(n) => if i64::MIN <= n <= i64::MAX {
                Some(n as i64)
            } else {
                None
            },
            None => None,
        },
        None => None,
    }
}

/// Reads credentials in the fields of a reply.
pub fn credentials_of(fields: &Vec<(String, String)>) -> (r: Option<Credentials<String>>)
    ensures
        match r {
            Some(credentials) => fields_credentials(pairs_view(fields@)) == Some(
                (credentials.key@, credentials.secret@),
            ),
            None => fields_credentials(pairs_view(fields@)) is None,
        },
{
    match find_only_value(fields, "oauth_token") {
        Some(key) => match find_only_value(fields, "oauth_token_secret") {
            Some(secret) => Some(Credentials { key, secret }),
            None => None,
        },
        None => None,
    }
}

/// Reads the credentials of a user in the fields of a reply.
pub fn access_token_of(fields: &Vec<(String, String)>) -> (r: Option<AccessToken>)
    ensures
        match r {
            Some(token) => {
                &&& fields_credentials(pairs_view(fields@)) == Some(
                    (token.credentials.key@, token.credentials.secret@),
                )
                &&& fields_user(pairs_view(fields@)) == Some(token.user_id)
            },
            None => fields_credentials(pairs_view(fields@)) is None || fields_user(
                pairs_view(fields@),
            ) is None,
        },
{
    let credentials = match credentials_of(fields) {
        Some(credentials) => credentials,
        None => return None,
    };
    match find_only_value(fields, "user_id") {
        Some(text) => match parse_i64(text.as_str()) {
            Some(user_id) => Some(AccessToken { credentials, user_id }),
            None => None,
        },
        None => None,
    }
}

/// Reads the reply to a request for temporary credentials.
pub fn parse_request_token(body: &[u8]) -> (r: Option<Credentials<String>>)
    ensures
        match (r, form_pairs(body@)) {
            (Some(credentials), Some(fields)) => fields_credentials(fields) == Some(
                (credentials.key@, credentials.secret@),
            ),
            (None, Some(fields)) => fields_credentials(fields) is None,
            (r, None) => r is None,
        },
{
    match decode_form(body) {
        Some(fields) => credentials_of(&fields),
        None => None,
    }
}

/// Reads the reply to a request for the credentials of a user.
pub fn parse_access_token(body: &[u8]) -> (r: Option<AccessToken>)
    ensures
        match (r, form_pairs(body@)) {
            (Some(token), Some(fields)) => {
                &&& fields_credentials(fields) == Some(
                    (token.credentials.key@, token.credentials.secret@),
                )
                &&& fields_user(fields) == Some(token.user_id)
            },
            (None, Some(fields)) => fields_credentials(fields) is None || fields_user(
                fields,
            ) is None,
            (r, None) => r is None,
        },
{
    match decode_form(body) {
        Some(fields) => access_token_of(&fields),
        None => None,
    }
}

/// A reply holds credentials exactly where it has a single key and a single secret, and they are these.
pub proof fn credentials_are_of_the_reply(fields: Seq<Pair>, key: Seq<char>, secret: Seq<char>)
    ensures
        fields_credentials(fields) == Some((key, secret)) <==> only_value(fields, "oauth_token"@)
            == Some(key) && only_value(fields, "oauth_token_secret"@) == Some(secret),
        only_value(fields, "oauth_token"@) is None ==> fields_credentials(fields) is None,
        only_value(fields, "oauth_token_secret"@) is None ==> fields_credentials(fields) is None,
{
}

/// The user is the one whose ID the reply has, if that is the only one; what is no ID names no user.
pub proof fn users_are_of_the_reply(fields: Seq<Pair>, user: i64, text: Seq<char>)
    ensures
        only_value(fields, "user_id"@) is None ==> fields_user(fields) is None,
        only_value(fields, "user_id"@) == Some(crate::decimal::signed_decimal(user as int))
            ==> fields_user(fields) == Some(user),
        only_value(fields, "user_id"@) == Some(text) && signed_text_value(text) is None
            ==> fields_user(fields) is None,
        fields_user(fields) == Some(user) ==> signed_text_value(
            only_value(fields, "user_id"@)->0,
        ) == Some(user as int),
{
    crate::decimal::signed_decimal_is_read_back(user as int);
}

} // verus!
