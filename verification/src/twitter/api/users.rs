//! Users.

use vstd::prelude::*;

use super::{Call, Method};
#[allow(unused_imports)]
use super::CallView;

verus! {

/// Asks who the user is.
#[derive(Copy, Clone, Debug)]
pub struct Me {}

impl Default for Me {
    fn default() -> (r: Self)
        ensures
            r == (Me {  }),
    {
        Me {  }
    }
}

impl Me {
    /// Makes the request.
    pub fn new() -> (r: Self)
        ensures
            r == (Me {  }),
    {
        Me {  }
    }

    /// Returns where the request goes and its parameters.
    pub fn call(&self) -> (r: Call)
        ensures
            r@ == (CallView {
                method: Method::Get,
                uri: "https://api.twitter.com/2/users/me"@,
                params: Seq::empty(),
            }),
    {
        let r = Call {
            method: Method::Get,
            uri: "https://api.twitter.com/2/users/me",
            params: Vec::new(),
        };
        assert(r@.params == Seq::<super::Pair>::empty());
        r
    }
}

} // verus!
