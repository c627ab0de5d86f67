//! Retweets that have been requested.

use std::collections::HashSet;

use vstd::prelude::*;

use crate::poll::Poll;
use crate::twitter::Tweet;

verus! {

broadcast use vstd::std_specs::hash::group_hash_axioms;

/// The code of the error that a Tweet has been Retweeted already.
pub const YOU_HAVE_ALREADY_RETWEETED_THIS_TWEET: u32 = 327;

/// The code of the error that a Tweet does not exist.
pub const NO_STATUS_FOUND_WITH_THAT_ID: u32 = 144;

/// A reply to the request for a Retweet.
#[derive(Debug)]
pub enum Retweeted<E> {
    Done,
    /// An error, with its codes where it is one of the API.
    Failed { error: E, codes: Option<Vec<u32>> },
}

/// The Retweets of a Tweet that have been requested.
#[derive(Debug)]
pub struct PendingRetweets {
    tweet: Option<Tweet>,
    /// The number of replies that are to come.
    requests: usize,
}

/// The Tweets whose Retweets have been requested.
#[derive(Debug)]
pub struct RetweetQueue {
    tweet_ids: HashSet<i64>,
    queue: Vec<PendingRetweets>,
}

/// Tells whether an error is of no consequence: the Tweet has been Retweeted already, or is gone.
pub open spec fn is_negligible(codes: Option<Seq<u32>>) -> bool {
    match codes {
        Some(codes) => codes.contains(YOU_HAVE_ALREADY_RETWEETED_THIS_TWEET) || codes.contains(
            NO_STATUS_FOUND_WITH_THAT_ID,
        ),
        None => false,
    }
}

/// The value of optional codes.
pub open spec fn opt_codes(codes: Option<Vec<u32>>) -> Option<Seq<u32>> {
    match codes {
        Some(codes) => Some(codes@),
        None => None,
    }
}

/// Tells whether an error is of no consequence.
pub fn negligible(codes: &Option<Vec<u32>>) -> (r: bool)
    ensures
        r == is_negligible(opt_codes(*codes)),
{
    match codes {
        Some(list) => {
            let mut i: usize = 0;
            while i < list.len()
                invariant
                    i <= list@.len(),
                    *codes == Some(*list),
                    forall|j: int|
                        0 <= j < i ==> list@[j] != YOU_HAVE_ALREADY_RETWEETED_THIS_TWEET
                            && list@[j] != NO_STATUS_FOUND_WITH_THAT_ID,
                decreases list@.len() - i,
            {
                let code: u32 = list[i];
                if code == YOU_HAVE_ALREADY_RETWEETED_THIS_TWEET || code
                    == NO_STATUS_FOUND_WITH_THAT_ID {
                    assert(list@[i as int] == code);
                    return true;
                }
                i += 1;
            }
            false
        },
        None => false,
    }
}

impl PendingRetweets {
    /// The Tweet, unless it has been returned.
    pub closed spec fn tweet(&self) -> Option<Tweet> {
        self.tweet
    }

    /// The number of replies that are to come.
    pub closed spec fn requests(&self) -> nat {
        self.requests as nat
    }

    /// Starts without requests.
    pub fn new() -> (r: Self)
        ensures
            r.tweet() is None,
            r.requests() == 0,
    {
        PendingRetweets { tweet: None, requests: 0 }
    }

    /// Notes that a Retweet was requested.
    pub fn push(&mut self)
        requires
            old(self).requests() < usize::MAX,
        ensures
            final(self).tweet() == old(self).tweet(),
            final(self).requests() == old(self).requests() + 1,
    {
        self.requests = self.requests + 1;
    }

    /// Tells whether no reply is to come.
    pub fn is_empty(&self) -> (r: bool)
        ensures
            r == (self.requests() == 0),
    {
        self.requests == 0
    }

    /// Takes the replies that have come, one after another, up to an error that is not negligible.
    /// Returns that error, or the Tweet once all replies have come.
    pub fn poll<E>(&mut self, replies: Vec<Retweeted<E>>) -> (r: Poll<Result<Tweet, E>>)
        requires
            replies@.len() <= old(self).requests(),
            first_error(replies@) is None && replies@.len() == old(self).requests() ==> old(
                self,
            ).tweet() is Some,
        ensures
            match first_error(replies@) {
                Some(i) => {
                    &&& r == Poll::<Result<Tweet, E>>::Ready(Err(replies@[i]->error))
                    &&& final(self).requests() == old(self).requests() - (i + 1)
                    &&& final(self).tweet() == old(self).tweet()
                },
                None => {
                    &&& final(self).requests() == old(self).requests() - replies@.len()
                    &&& if final(self).requests() == 0 {
                        r == Poll::<Result<Tweet, E>>::Ready(Ok(old(self).tweet()->0))
                            && final(self).tweet() is None
                    } else {
                        r == Poll::<Result<Tweet, E>>::Pending && final(self).tweet() == old(
                            self).tweet()
                    }
                },
            },
    {
        let ghost all = replies@;
        let mut rest = replies;
        let ghost mut taken: int = 0;
        assert(all.take(0) == Seq::<Retweeted<E>>::empty());
        while rest.len() > 0
            invariant
                0 <= taken <= all.len(),
                all == replies@,
                rest@ == all.skip(taken),
                first_error(all.take(taken)) is None,
                all.len() <= old(self).requests(),
                self.requests() == old(self).requests() - taken,
                self.tweet() == old(self).tweet(),
            decreases rest@.len(),
        {
            let reply = rest.remove(0);
            assert(all[taken] == reply);
            assert(rest@ == all.skip(taken + 1));
            assert(all.take(taken + 1).drop_last() == all.take(taken));
            assert(all.take(taken + 1).last() == reply);
            self.requests = self.requests - 1;
            match reply {
                Retweeted::Done => {},
                Retweeted::Failed { error, codes } => {
                    if !negligible(&codes) {
                        proof {
                            first_error_stays(all, taken + 1);
                        }
                        return Poll::Ready(Err(error));
                    }
                },
            }
            proof {
                taken = taken + 1;
            }
        }
        assert(all.take(taken) == all);
        if self.requests == 0 {
            match self.tweet.take() {
                Some(tweet) => Poll::Ready(Ok(tweet)),
                None => Poll::Pending,
            }
        } else {
            Poll::Pending
        }
    }
}

/// The position of the first reply that is an error of consequence.
pub open spec fn first_error<E>(replies: Seq<Retweeted<E>>) -> Option<int>
    decreases replies.len(),
{
    if replies.len() == 0 {
        None
    } else if first_error(replies.drop_last()) is Some {
        first_error(replies.drop_last())
    } else {
        match replies.last() {
            Retweeted::Done => None,
            Retweeted::Failed { error, codes } => if is_negligible(opt_codes(codes)) {
                None
            } else {
                Some(replies.len() - 1)
            },
        }
    }
}

/// An error is the first one however many replies follow.
proof fn first_error_stays<E>(replies: Seq<Retweeted<E>>, n: int)
    requires
        0 <= n <= replies.len(),
        first_error(replies.take(n)) is Some,
    ensures
        first_error(replies) == first_error(replies.take(n)),
    decreases replies.len() - n,
{
    if n < replies.len() {
        assert(replies.take(n + 1).drop_last() == replies.take(n));
        first_error_stays(replies, n + 1);
    } else {
        assert(replies.take(n) == replies);
    }
}

/// What is to be done after replies have come.
#[derive(Debug)]
pub enum QueueStep<E> {
    /// Nothing is left to wait for.
    Done,
    /// More replies are to come.
    Wait,
    /// A Retweet failed.
    Failed(E),
    /// All replies for a Tweet have come: it is to be stored, and then finished.
    Store(Tweet),
}

impl Default for RetweetQueue {
    fn default() -> (r: Self)
        ensures
            r.wf(),
            r.ids() == Set::<i64>::empty(),
            r.entries() == Seq::<PendingRetweets>::empty(),
    {
        RetweetQueue::new()
    }
}

impl RetweetQueue {
    /// The IDs of Tweets in the set beside the queue. Adding a Tweet to the queue does not add its ID
    /// here; finishing a Tweet takes its ID out.
    pub closed spec fn ids(&self) -> Set<i64> {
        self.tweet_ids@
    }

    /// The Retweets that have been requested, in the order in which they were added.
    pub closed spec fn entries(&self) -> Seq<PendingRetweets> {
        self.queue@
    }

    /// Each entry has its Tweet and replies that are to come.
    pub open spec fn wf(&self) -> bool {
        forall|i: int|
            0 <= i < self.entries().len() ==> (#[trigger] self.entries()[i]).tweet() is Some
                && self.entries()[i].requests() > 0
    }

    /// Starts without Tweets.
    pub fn new() -> (r: Self)
        ensures
            r.wf(),
            r.ids() == Set::<i64>::empty(),
            r.entries() == Seq::<PendingRetweets>::empty(),
    {
        RetweetQueue { tweet_ids: HashSet::new(), queue: Vec::new() }
    }

    /// Tells whether the ID of a Tweet is in the set of IDs, to which `insert` does not add.
    pub fn contains(&self, tweet_id: i64) -> (r: bool)
        ensures
            r == self.ids().contains(tweet_id),
    {
        self.tweet_ids.contains(&tweet_id)
    }

    /// Adds a Tweet to the queue if any Retweet of it has been requested. The set of IDs stays as it
    /// is.
    pub fn insert(&mut self, tweet: Tweet, retweets: PendingRetweets)
        requires
            old(self).wf(),
        ensures
            final(self).wf(),
            final(self).ids() == old(self).ids(),
            if retweets.requests() == 0 {
                final(self).entries() == old(self).entries()
            } else {
                &&& final(self).entries() == old(self).entries().push(final(self).entries().last())
                &&& final(self).entries().last().tweet() == Some(tweet)
                &&& final(self).entries().last().requests() == retweets.requests()
            },
    {
        if retweets.is_empty() {
            return;
        }
        let mut retweets = retweets;
        retweets.tweet = Some(tweet);
        self.queue.push(retweets);
        assert forall|i: int| 0 <= i < self.entries().len() implies (
        #[trigger] self.entries()[i]).tweet() is Some && self.entries()[i].requests() > 0 by {
            if i < old(self).entries().len() {
                assert(self.entries()[i] == old(self).entries()[i]);
            }
        }
    }

    /// Takes the replies that have come for one entry, if any have. An entry leaves the queue with
    /// its last reply or with an error.
    pub fn poll<E>(&mut self, arrived: Option<(usize, Vec<Retweeted<E>>)>) -> (r: QueueStep<E>)
        requires
            old(self).wf(),
            arrived matches Some((i, replies)) ==> i < old(self).entries().len() && replies@.len()
                <= old(self).entries()[i as int].requests(),
        ensures
            final(self).wf(),
            final(self).ids() == old(self).ids(),
            match arrived {
                None => {
                    &&& final(self).entries() == old(self).entries()
                    &&& r == if old(self).entries().len() == 0 {
                        QueueStep::<E>::Done
                    } else {
                        QueueStep::Wait
                    }
                },
                Some((i, replies)) => {
                    let entry = old(self).entries()[i as int];
                    match first_error(replies@) {
                        Some(k) => {
                            &&& r == QueueStep::Failed(replies@[k]->error)
                            &&& final(self).entries() == old(self).entries().remove(i as int)
                        },
                        None => if replies@.len() == entry.requests() {
                            &&& r == QueueStep::<E>::Store(entry.tweet()->0)
                            &&& final(self).entries() == old(self).entries().remove(i as int)
                        } else {
                            &&& r == QueueStep::<E>::Wait
                            &&& final(self).entries() == old(self).entries().update(
                                i as int,
                                final(self).entries()[i as int],
                            )
                            &&& final(self).entries()[i as int].tweet() == entry.tweet()
                            &&& final(self).entries()[i as int].requests() == entry.requests()
                                - replies@.len()
                        },
                    }
                },
            },
    {
        match arrived {
            None => if self.queue.len() == 0 {
                QueueStep::Done
            } else {
                QueueStep::Wait
            },
            Some((i, replies)) => {
                let ghost before = self.queue@;
                assert(before[i as int].tweet() is Some);
                let mut entry = self.queue.remove(i);
                match entry.poll(replies) {
                    Poll::Ready(Ok(tweet)) => {
                        proof {
                            kept_by_removal(before, i as int);
                        }
                        QueueStep::Store(tweet)
                    },
                    Poll::Ready(Err(error)) => {
                        proof {
                            kept_by_removal(before, i as int);
                        }
                        QueueStep::Failed(error)
                    },
                    Poll::Pending => {
                        self.queue.insert(i, entry);
                        assert(self.queue@ == before.update(i as int, entry));
                        QueueStep::Wait
                    },
                }
            },
        }
    }

    /// Notes that a Tweet has been stored: its ID leaves the set of IDs.
    pub fn finish(&mut self, tweet_id: i64)
        ensures
            final(self).ids() == old(self).ids().remove(tweet_id),
            final(self).entries() == old(self).entries(),
    {
        let _ = self.tweet_ids.remove(&tweet_id);
    }

    /// Tells whether the set of IDs is empty, whatever the queue holds.
    pub fn is_empty(&self) -> (r: bool)
        ensures
            r == (self.ids() == Set::<i64>::empty()),
    {
        self.tweet_ids.is_empty()
    }
}

/// An entry that leaves does not change the others.
proof fn kept_by_removal(entries: Seq<PendingRetweets>, i: int)
    requires
        0 <= i < entries.len(),
        forall|j: int|
            0 <= j < entries.len() ==> (#[trigger] entries[j]).tweet() is Some
                && entries[j].requests() > 0,
    ensures
        forall|j: int|
            0 <= j < entries.remove(i).len() ==> (#[trigger] entries.remove(i)[j]).tweet() is Some
                && entries.remove(i)[j].requests() > 0,
{
    assert forall|j: int| 0 <= j < entries.remove(i).len() implies (
    #[trigger] entries.remove(i)[j]).tweet() is Some && entries.remove(i)[j].requests() > 0 by {
        assert(entries.remove(i)[j] == entries[if j < i {
            j
        } else {
            j + 1
        }]);
    }
}

/// An error is of no consequence exactly where one of its codes says that the Tweet has been Retweeted
/// already, or that it does not exist. One without codes is not.
pub proof fn negligible_errors_have_their_codes(codes: Seq<u32>)
    ensures
        !is_negligible(None),
        codes.contains(327) ==> is_negligible(Some(codes)),
        codes.contains(144) ==> is_negligible(Some(codes)),
        !codes.contains(327) && !codes.contains(144) ==> !is_negligible(Some(codes)),
{
}

/// `first_error` is the position of the first reply that is an error of consequence, or nothing where
/// none is.
pub proof fn first_error_is_first<E>(replies: Seq<Retweeted<E>>)
    ensures
        match first_error(replies) {
            Some(i) => {
                &&& 0 <= i < replies.len()
                &&& replies[i] is Failed && !is_negligible(opt_codes(replies[i]->codes))
                &&& forall|j: int|
                    0 <= j < i ==> (#[trigger] replies[j]) is Done || is_negligible(
                        opt_codes(replies[j]->codes),
                    )
            },
            None => forall|j: int|
                0 <= j < replies.len() ==> (#[trigger] replies[j]) is Done || is_negligible(
                    opt_codes(replies[j]->codes),
                ),
        },
    decreases replies.len(),
{
    if replies.len() > 0 {
        let before = replies.drop_last();
        first_error_is_first(before);
        assert(replies[replies.len() - 1] == replies.last());
        assert forall|j: int| 0 <= j < before.len() implies before[j] == #[trigger] replies[j] by {}
    }
}

} // verus!
