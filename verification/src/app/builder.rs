//! Building the program from its parts.

use vstd::prelude::*;

use crate::uri::Uri;

verus! {

/// The parts that have been given so far.
#[derive(Debug)]
pub struct Builder<S, W> {
    pub client: S,
    pub websub: W,
}

impl<S: Default, W: Default> Default for Builder<S, W> {
    fn default() -> (r: Self)
        ensures
            call_ensures(S::default, (), r.client),
            call_ensures(W::default, (), r.websub),
    {
        Builder { client: S::default(), websub: W::default() }
    }
}

impl Builder<(), ()> {
    /// Starts without any part.
    pub fn new() -> (r: Self)
        ensures
            r == (Builder { client: (), websub: () }),
    {
        Builder { client: (), websub: () }
    }
}

impl<S, W> Builder<S, W> {
    /// Sets the HTTP client.
    pub fn http_client<S2>(self, client: S2) -> (r: Builder<(S2,), W>)
        ensures
            r == (Builder { client: (client,), websub: self.websub }),
    {
        Builder { client: (client,), websub: self.websub }
    }

    /// Sets where connections of hubs come from, and the URI that they are to call.
    pub fn websub<I>(self, incoming: I, host: Uri) -> (r: Builder<S, (I, Uri)>)
        ensures
            r == (Builder { client: self.client, websub: (incoming, host) }),
    {
        Builder { client: self.client, websub: (incoming, host) }
    }
}

} // verus!
