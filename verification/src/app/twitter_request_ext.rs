//! Requests on behalf of the users of the manifest.

use vstd::prelude::*;

use super::state::Core;
use crate::twitter::api::{Call, HttpRequest};
#[allow(unused_imports)]
use crate::twitter::api::{can_be_signed, credentials_view, is_sent};

verus! {

/// The user on whose behalf a request is made: the one that is given, or else the one who reads
/// Twitter.
pub open spec fn requester(core: Core, user: Option<i64>) -> i64 {
    match user {
        Some(user) => user,
        None => core.manifest.twitter->0.user,
    }
}

/// Signs a request on behalf of a user of the manifest; where none is given, of the user who reads
/// Twitter.
pub fn send(call: &Call, core: &Core, user: Option<i64>) -> (r: Option<HttpRequest>)
    requires
        can_be_signed(call@),
    ensures
        match r {
            Some(request) => {
                &&& core.manifest.twitter is Some
                &&& core.twitter_tokens@.contains_key(requester(*core, user))
                &&& is_sent(
                    request,
                    call@,
                    credentials_view(core.manifest.twitter->0.client),
                    Some(credentials_view(core.twitter_tokens@[requester(*core, user)])),
                    None,
                    None,
                )
            },
            None => core.manifest.twitter is None || !core.twitter_tokens@.contains_key(
                requester(*core, user),
            ),
        },
{
    match core.twitter_token(user) {
        Some((client, token)) => Some(call.send(client, token)),
        None => None,
    }
}

/// A request is made on behalf of the user that is given, and where none is, of the one who reads
/// Twitter.
pub proof fn requests_are_made_on_behalf_of_a_user(core: Core, user: i64)
    ensures
        requester(core, Some(user)) == user,
        core.manifest.twitter matches Some(config) ==> requester(core, None) == config.user,
{
}

} // verus!
