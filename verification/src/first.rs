//! The first one of two values to be ready.

use vstd::prelude::*;

use crate::poll::Poll;

verus! {

/// One of two values.
#[derive(Debug, PartialEq, Eq)]
pub enum Either<A, B> {
    Left(A),
    Right(B),
}

/// Two sources of values, of which the first one takes precedence.
#[derive(Debug)]
pub struct First<A, B> {
    pub a: A,
    pub b: B,
}

/// Takes two sources of values.
pub fn first<A, B>(a: A, b: B) -> (r: First<A, B>)
    ensures
        r == (First { a, b }),
{
    First { a, b }
}

impl<A, B> First<Poll<A>, Poll<B>> {
    /// Returns the value that is ready; the first one where both are.
    pub fn poll(self) -> (r: Poll<Either<A, B>>)
        ensures
            r == match (self.a, self.b) {
                (Poll::Ready(x), _) => Poll::Ready(Either::Left(x)),
                (Poll::Pending, Poll::Ready(x)) => Poll::Ready(Either::Right(x)),
                (Poll::Pending, Poll::Pending) => Poll::Pending,
            },
    {
        match self.a {
            Poll::Ready(x) => Poll::Ready(Either::Left(x)),
            Poll::Pending => match self.b {
                Poll::Ready(x) => Poll::Ready(Either::Right(x)),
                Poll::Pending => Poll::Pending,
            },
        }
    }
}

} // verus!
