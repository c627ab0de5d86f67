//! Past Tweets of a list.

use vstd::prelude::*;

use super::twitter_list_timeline::without_retweets;
#[allow(unused_imports)]
use super::twitter_list_timeline::originals;
use super::twitter_list_timeline::BackfillStep;
use crate::poll::Poll;
use crate::twitter::api::lists::Statuses;
#[allow(unused_imports)]
use crate::twitter::list_timeline::backfill_request;
use crate::twitter::Tweet;

verus! {

/// Asks for the Tweets of a list that were posted behind an ID.
#[derive(Debug)]
pub struct TwitterBackfill {
    inner: Option<Inner>,
}

/// A backfill that is going on.
#[derive(Copy, Clone, Debug)]
struct Inner {
    list: u64,
    since_id: i64,
}

/// The least ID among Tweets.
pub open spec fn least_id(tweets: Seq<Tweet>) -> int
    recommends
        tweets.len() > 0,
    decreases tweets.len(),
{
    if tweets.len() <= 1 {
        tweets[0].id as int
    } else if tweets.last().id < least_id(tweets.drop_last()) {
        tweets.last().id as int
    } else {
        least_id(tweets.drop_last())
    }
}

/// `least_id` is the ID of some Tweet and not greater than that of any other.
pub proof fn least_id_is_least(tweets: Seq<Tweet>)
    requires
        tweets.len() > 0,
    ensures
        exists|i: int| 0 <= i < tweets.len() && (#[trigger] tweets[i]).id == least_id(tweets),
        forall|i: int| 0 <= i < tweets.len() ==> least_id(tweets) <= (#[trigger] tweets[i]).id,
    decreases tweets.len(),
{
    if tweets.len() > 1 {
        let rest = tweets.drop_last();
        least_id_is_least(rest);
        let i = choose|i: int| 0 <= i < rest.len() && (#[trigger] rest[i]).id == least_id(rest);
        assert(tweets[i] == rest[i]);
        assert(tweets[tweets.len() - 1] == tweets.last());
        assert forall|i: int| 0 <= i < tweets.len() implies least_id(tweets) <= (
        #[trigger] tweets[i]).id by {
            if i < rest.len() {
                assert(rest[i] == tweets[i]);
            }
        }
    } else {
        assert(tweets[0].id == least_id(tweets));
    }
}

/// Returns the least ID among Tweets.
fn min_id(tweets: &Vec<Tweet>) -> (r: i64)
    requires
        tweets@.len() > 0,
    ensures
        r == least_id(tweets@),
{
    let mut least: i64 = tweets[0].id;
    let mut i: usize = 1;
    assert(tweets@.take(1).len() == 1);
    while i < tweets.len()
        invariant
            1 <= i <= tweets@.len(),
            least == least_id(tweets@.take(i as int)),
        decreases tweets@.len() - i,
    {
        assert(tweets@.take(i + 1).drop_last() == tweets@.take(i as int));
        assert(tweets@.take(i + 1).last() == tweets@[i as int]);
        if tweets[i].id < least {
            least = tweets[i].id;
        }
        i += 1;
    }
    assert(tweets@.take(i as int) == tweets@);
    least
}

impl TwitterBackfill {
    /// The list and the ID behind which Tweets are asked for, while the backfill is going on.
    pub closed spec fn state(&self) -> Option<(u64, i64)> {
        match self.inner {
            Some(inner) => Some((inner.list, inner.since_id)),
            None => None,
        }
    }

    /// Starts a backfill and returns its first request.
    pub fn new(list: u64, since_id: i64) -> (r: (Self, Statuses))
        ensures
            r.0.state() == Some((list, since_id)),
            r.1 == backfill_request(list, since_id, None),
    {
        let mut request = Statuses::new(list);
        request.since_id(Some(since_id));
        (TwitterBackfill { inner: Some(Inner { list, since_id }) }, request)
    }

    /// Makes a backfill that is over.
    pub fn empty() -> (r: Self)
        ensures
            r.state() is None,
    {
        TwitterBackfill { inner: None }
    }

    /// Takes the reply to a request.
    pub fn poll<E>(&mut self, reply: Poll<Result<Vec<Tweet>, E>>) -> (r: Poll<BackfillStep<E>>)
        requires
            reply matches Poll::Ready(Ok(tweets)) ==> tweets@.len() > 0 ==> least_id(tweets@)
                > i64::MIN,
        ensures
            match (old(self).state(), reply) {
                (None, _) => r == Poll::Ready(BackfillStep::<E>::Finished(Ok(())))
                    && final(self).state() is None,
                (Some(state), Poll::Pending) => r == Poll::<BackfillStep<E>>::Pending
                    && final(self).state() == Some(state),
                (Some(state), Poll::Ready(Err(e))) => r == Poll::Ready(
                    BackfillStep::<E>::Finished(Err(e)),
                ) && final(self).state() is None,
                (Some(state), Poll::Ready(Ok(tweets))) => if tweets@.len() == 0 {
                    r == Poll::Ready(BackfillStep::<E>::Finished(Ok(()))) && final(
                        self).state() is None
                } else {
                    &&& r matches Poll::Ready(BackfillStep::Continue { request, tweets: sent })
                    &&& request == backfill_request(
                        state.0,
                        state.1,
                        Some((least_id(tweets@) - 1) as i64),
                    )
                    &&& sent@ == originals(tweets@)
                    &&& request.list_id == state.0
                    &&& request.since_id == Some(state.1)
                    &&& forall|i: int|
                        0 <= i < tweets@.len() ==> request.max_id->0 < (#[trigger] tweets@[i]).id
                    &&& exists|i: int|
                        0 <= i < tweets@.len() && request.max_id->0 + 1 == (#[trigger] tweets@[i]).id
                    &&& final(self).state() == Some(state)
                },
            },
    {
        let inner = match self.inner {
            Some(inner) => inner,
            None => return Poll::Ready(BackfillStep::Finished(Ok(()))),
        };
        let tweets = match reply {
            Poll::Ready(Ok(tweets)) => tweets,
            Poll::Ready(Err(e)) => {
                self.inner = None;
                return Poll::Ready(BackfillStep::Finished(Err(e)));
            },
            Poll::Pending => return Poll::Pending,
        };
        if tweets.len() == 0 {
            self.inner = None;
            return Poll::Ready(BackfillStep::Finished(Ok(())));
        }
        let max_id: i64 = min_id(&tweets) - 1;
        proof {
            least_id_is_least(tweets@);
        }
        let mut request = Statuses::new(inner.list);
        request.since_id(Some(inner.since_id)).max_id(Some(max_id));
        Poll::Ready(BackfillStep::Continue { request, tweets: without_retweets(tweets) })
    }
}

} // verus!
