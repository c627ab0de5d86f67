//! Tweets.

use vstd::prelude::*;

use super::{Call, Method};
#[allow(unused_imports)]
use super::CallView;
use crate::encoding::push_field;

verus! {

/// Posts a Tweet.
#[derive(Copy, Clone, Debug)]
pub struct Post<'a> {
    pub text: &'a str,
}

impl<'a> Post<'a> {
    /// Makes the request.
    pub fn new(text: &'a str) -> (r: Self)
        ensures
            r.text@ == text@,
    {
        Post { text }
    }

    /// Returns where the request goes and its parameters.
    pub fn call(&self) -> (r: Call)
        ensures
            r@ == (CallView {
                method: Method::Post,
                uri: "https://api.twitter.com/2/tweets"@,
                params: seq![("text"@, self.text@)],
            }),
    {
        let mut params: Vec<(String, String)> = Vec::new();
        push_field(&mut params, "text", self.text);
        let r = Call { method: Method::Post, uri: "https://api.twitter.com/2/tweets", params };
        assert(r@.params == seq![("text"@, self.text@)]);
        r
    }
}

} // verus!
