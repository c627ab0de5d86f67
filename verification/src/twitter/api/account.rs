//! The account of a user.

use vstd::prelude::*;

use super::{Call, Method};
#[allow(unused_imports)]
use super::CallView;

verus! {

/// Asks who the user is.
#[derive(Copy, Clone, Debug)]
pub struct VerifyCredentials {}

impl Default for VerifyCredentials {
    fn default() -> (r: Self)
        ensures
            r == (VerifyCredentials {  }),
    {
        VerifyCredentials {  }
    }
}

impl VerifyCredentials {
    /// Makes the request.
    pub fn new() -> (r: Self)
        ensures
            r == (VerifyCredentials {  }),
    {
        VerifyCredentials {  }
    }

    /// Returns where the request goes and its parameters.
    pub fn call(&self) -> (r: Call)
        ensures
            r@ == (CallView {
                method: Method::Get,
                uri: "https://api.twitter.com/1.1/account/verify_credentials.json"@,
                params: Seq::empty(),
            }),
    {
        let r = Call {
            method: Method::Get,
            uri: "https://api.twitter.com/1.1/account/verify_credentials.json",
            params: Vec::new(),
        };
        assert(r@.params == Seq::<super::Pair>::empty());
        r
    }
}

} // verus!
