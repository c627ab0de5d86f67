//! Bodies of HTTP messages.

use vstd::prelude::*;

verus! {

/// A body that is received in pieces.
#[derive(Debug)]
pub struct ConcatBody {
    accum: Vec<u8>,
}

impl ConcatBody {
    /// What has been received.
    pub closed spec fn received(&self) -> Seq<u8> {
        self.accum@
    }

    /// Starts with nothing.
    pub fn new() -> (r: Self)
        ensures
            r.received() == Seq::<u8>::empty(),
    {
        ConcatBody { accum: Vec::new() }
    }

    /// Takes the next piece.
    pub fn push(&mut self, data: &[u8])
        ensures
            final(self).received() == old(self).received() + data@,
    {
        let mut i: usize = 0;
        assert(self.accum@ == old(self).received() + data@.take(0));
        while i < data.len()
            invariant
                i <= data@.len(),
                self.accum@ == old(self).received() + data@.take(i as int),
            decreases data@.len() - i,
        {
            assert(data@.take(i + 1) == data@.take(i as int).push(data@[i as int]));
            self.accum.push(data[i]);
            i += 1;
        }
        assert(data@.take(i as int) == data@);
    }

    /// Returns the body.
    pub fn finish(self) -> (r: Vec<u8>)
        ensures
            r@ == self.received(),
    {
        self.accum
    }
}

} // verus!
