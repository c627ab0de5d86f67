//! The timeline of a list, with requests that may overtake one another.

use vstd::prelude::*;

use crate::poll::Poll;
use crate::time::{from_secs, Clock};
#[allow(unused_imports)]
use crate::time::NANOS_PER_SEC;
use crate::twitter::api::lists::Statuses;
#[allow(unused_imports)]
use crate::twitter::api::lists::TweetMode;
use crate::twitter::list_timeline::{RateLimit, Reply};
#[allow(unused_imports)]
use crate::twitter::list_timeline::{backfill_request, held_up_until};
use crate::twitter::Tweet;

verus! {

/// The number of requests that may be in flight.
pub const RESP_BUF_CAP: usize = 8;

/// The requests in flight, by numbers that tell them apart.
#[verifier::external_body]
#[derive(Debug)]
pub struct ResponseList {
    inner: smallvec::SmallVec<[u64; 8]>,
}

/// The requests in a list, in their order.
pub uninterp spec fn response_items(list: ResponseList) -> Seq<u64>;

/// `smallvec::SmallVec::new`: an empty list.
#[verifier::external_body]
fn response_list_new() -> (r: ResponseList)
    ensures
        response_items(r) == Seq::<u64>::empty(),
{
    ResponseList { inner: smallvec::SmallVec::new() }
}

/// `smallvec::SmallVec::push`: adds an item behind the others.
#[verifier::external_body]
fn response_list_push(list: &mut ResponseList, id: u64)
    ensures
        response_items(*final(list)) == response_items(*old(list)).push(id),
{
    list.inner.push(id)
}

/// `smallvec::SmallVec::remove`: takes an item out, and the others move up.
#[verifier::external_body]
fn response_list_remove(list: &mut ResponseList, i: usize) -> (r: u64)
    requires
        i < response_items(*old(list)).len(),
    ensures
        r == response_items(*old(list))[i as int],
        response_items(*final(list)) == response_items(*old(list)).remove(i as int),
{
    list.inner.remove(i)
}

/// `smallvec::SmallVec::drain` of the items up to a position, which it takes out.
#[verifier::external_body]
fn response_list_drain(list: &mut ResponseList, i: usize)
    requires
        i < response_items(*old(list)).len(),
    ensures
        response_items(*final(list)) == response_items(*old(list)).skip(i + 1),
{
    list.inner.drain(0..=i);
}

/// `smallvec::SmallVec::as_slice`: the items in their order.
#[verifier::external_body]
fn response_list_as_slice(list: &ResponseList) -> (r: &[u64])
    ensures
        r@ == response_items(*list),
{
    list.inner.as_slice()
}

/// The timeline of a list.
#[derive(Debug)]
pub struct TwitterListTimeline {
    inner: Option<Inner>,
}

/// A timeline that was started.
#[derive(Debug)]
struct Inner {
    list_id: u64,
    since_id: Option<i64>,
    responses: ResponseList,
    /// The ID behind which past Tweets are asked for, while they are.
    backfill: Option<i64>,
}

/// The value of a timeline that was started.
pub struct TimelineView {
    pub list_id: u64,
    pub since_id: Option<i64>,
    pub responses: Seq<u64>,
    pub backfill: Option<i64>,
}

/// The position of the last `true`.
pub open spec fn last_ready(ready: Seq<bool>) -> Option<int>
    decreases ready.len(),
{
    if ready.len() == 0 {
        None
    } else if ready.last() {
        Some(ready.len() - 1)
    } else {
        last_ready(ready.drop_last())
    }
}

/// The request for the Tweets behind an ID, or for a single Tweet where there is none.
pub open spec fn statuses_request(list_id: u64, since_id: Option<i64>) -> Statuses {
    Statuses {
        list_id,
        since_id,
        max_id: None,
        count: if since_id is Some {
            Some(200)
        } else {
            Some(1)
        },
        include_entities: false,
        include_rts: Some(false),
        tweet_mode: Some(TweetMode::Extended),
    }
}

/// The Tweets that are not Retweets, in their order.
pub open spec fn originals(tweets: Seq<Tweet>) -> Seq<Tweet>
    decreases tweets.len(),
{
    if tweets.len() == 0 {
        Seq::empty()
    } else if tweets.last().retweeted_status is None {
        originals(tweets.drop_last()).push(tweets.last())
    } else {
        originals(tweets.drop_last())
    }
}

/// Returns Tweets in the opposite order.
pub fn reversed(tweets: Vec<Tweet>) -> (r: Vec<Tweet>)
    ensures
        r@ == tweets@.reverse(),
{
    let ghost all = tweets@;
    let mut rest = tweets;
    let mut r: Vec<Tweet> = Vec::new();
    while rest.len() > 0
        invariant
            rest@.len() + r@.len() == all.len(),
            rest@ == all.take(rest@.len() as int),
            forall|i: int| 0 <= i < r@.len() ==> r@[i] == all[all.len() - 1 - i],
        decreases rest@.len(),
    {
        let ghost n = rest@.len();
        if let Some(tweet) = rest.pop() {
            assert(tweet == all[n - 1]);
            r.push(tweet);
            assert(rest@ == all.take(n - 1));
        }
    }
    assert(r@ == all.reverse());
    r
}

/// Returns the Tweets that are not Retweets, in their order.
pub fn without_retweets(tweets: Vec<Tweet>) -> (r: Vec<Tweet>)
    ensures
        r@ == originals(tweets@),
{
    let ghost all = tweets@;
    let mut rest = reversed(tweets);
    let mut r: Vec<Tweet> = Vec::new();
    let ghost mut taken: int = 0;
    assert(all.take(0) == Seq::<Tweet>::empty());
    while rest.len() > 0
        invariant
            0 <= taken <= all.len(),
            rest@.len() == all.len() - taken,
            forall|i: int| 0 <= i < rest@.len() ==> rest@[i] == all[all.len() - 1 - i],
            r@ == originals(all.take(taken)),
        decreases rest@.len(),
    {
        if let Some(tweet) = rest.pop() {
            assert(tweet == all[taken]);
            assert(all.take(taken + 1).drop_last() == all.take(taken));
            assert(all.take(taken + 1).last() == tweet);
            if tweet.retweeted_status.is_none() {
                r.push(tweet);
            }
            proof {
                taken = taken + 1;
            }
        }
    }
    assert(all.take(taken) == all);
    r
}

/// A timeline once a reply has come: where it has Tweets, they are asked for behind the oldest of
/// them.
pub open spec fn after_reply(timeline: TimelineView, reply: Reply) -> TimelineView {
    match reply {
        Reply::Tweets { tweets, rate_limit } => if tweets@.len() > 0 {
            TimelineView { since_id: Some(tweets@.last().id), ..timeline }
        } else {
            timeline
        },
        _ => timeline,
    }
}

/// The Tweets of a reply that are sent, the oldest first.
pub open spec fn sent_tweets(reply: Reply) -> Seq<Tweet> {
    match reply {
        Reply::Tweets { tweets, rate_limit } => tweets@.reverse(),
        _ => Seq::empty(),
    }
}

/// Tells whether `at` is the moment at which requests may be made again after a reply, or nothing
/// where they may be made now.
pub open spec fn is_restart(at: Option<i128>, reply: Reply, clock: Clock) -> bool {
    match reply {
        Reply::ApiError { rate_limit } => match (held_up_until(rate_limit), at) {
            (Some(reset), Some(at)) => at == restart_at(clock, reset),
            (None, None) => true,
            _ => false,
        },
        _ => at is None,
    }
}

/// Which requests have been replied to.
pub open spec fn readiness(replies: Seq<Poll<Reply>>) -> Seq<bool> {
    Seq::new(replies.len(), |i: int| replies[i] is Ready)
}

/// Returns which requests have been replied to.
fn are_ready(replies: &Vec<Poll<Reply>>) -> (r: Vec<bool>)
    ensures
        r@ == readiness(replies@),
{
    let mut ready: Vec<bool> = Vec::new();
    let mut i: usize = 0;
    while i < replies.len()
        invariant
            i <= replies@.len(),
            ready@ == readiness(replies@).take(i as int),
        decreases replies@.len() - i,
    {
        ready.push(matches!(replies[i], Poll::Ready(_)));
        assert(readiness(replies@).take(i + 1) == readiness(replies@).take(i as int).push(
            replies@[i as int] is Ready,
        ));
        i += 1;
    }
    assert(readiness(replies@).take(i as int) == readiness(replies@));
    ready
}

/// Returns the reply to the newest request that has been replied to.
fn newest_reply(replies: Vec<Poll<Reply>>) -> (r: Option<Reply>)
    ensures
        r == match last_ready(readiness(replies@)) {
            Some(i) => Some(replies@[i]->Ready_0),
            None => None,
        },
{
    let ghost all = replies@;
    let mut rest = replies;
    assert(readiness(all).take(all.len() as int) == readiness(all));
    while rest.len() > 0
        invariant
            all == replies@,
            rest@.len() <= all.len(),
            rest@ == all.take(rest@.len() as int),
            last_ready(readiness(all)) == last_ready(readiness(all).take(rest@.len() as int)),
        decreases rest@.len(),
    {
        let ghost n = rest@.len();
        assert(readiness(all).take(n as int).last() == (all[n - 1] is Ready));
        assert(readiness(all).take(n as int).drop_last() == readiness(all).take(n - 1));
        match rest.pop() {
            Some(Poll::Ready(reply)) => return Some(reply),
            _ => {},
        }
        assert(rest@ == all.take(n - 1));
    }
    None
}

/// What follows when the timeline was polled.
#[derive(Debug)]
pub enum TimelineStep {
    /// The timeline was not started.
    Ended,
    Continue {
        /// The request that the interval calls for, which comes first.
        request: Option<Statuses>,
        /// The number of the request whose reply was taken.
        taken: Option<u64>,
        /// The Tweets to send, the oldest first.
        tweets: Vec<Tweet>,
        /// The moment at which requests may be made again, where they may not be now.
        restart: Option<i128>,
    },
}

/// A timeline once the interval has called for a request, if it has.
pub open spec fn after_tick(timeline: TimelineView, tick: Option<u64>) -> TimelineView {
    match tick {
        Some(id) => TimelineView { responses: with_request(timeline.responses, id), ..timeline },
        None => timeline,
    }
}

/// What follows the reply to a request for past Tweets.
#[derive(Debug)]
pub enum BackfillStep<E> {
    /// The backfill is over.
    Finished(Result<(), E>),
    /// Tweets to send, and the request for older ones.
    Continue { request: Statuses, tweets: Vec<Tweet> },
}

impl TwitterListTimeline {
    /// The value of the timeline, if it was started.
    pub closed spec fn timeline(&self) -> Option<TimelineView> {
        match self.inner {
            Some(inner) => Some(
                TimelineView {
                    list_id: inner.list_id,
                    since_id: inner.since_id,
                    responses: response_items(inner.responses),
                    backfill: inner.backfill,
                },
            ),
            None => None,
        }
    }

    /// Tells whether no more requests are in flight than may be.
    pub open spec fn wf(&self) -> bool {
        self.timeline() matches Some(timeline) ==> timeline.responses.len() <= RESP_BUF_CAP
    }

    /// Starts the timeline of a list with a first request, and a backfill where an ID is given.
    /// Returns the requests.
    pub fn new(list_id: u64, since_id: Option<i64>, id: u64) -> (r: (
        Self,
        Statuses,
        Option<Statuses>,
    ))
        ensures
            r.0.wf(),
            r.0.timeline() == Some(
                TimelineView {
                    list_id,
                    since_id: None,
                    responses: seq![id],
                    backfill: since_id,
                },
            ),
            r.1 == statuses_request(list_id, None),
            r.2 == match since_id {
                Some(since_id) => Some(backfill_request(list_id, since_id, None)),
                None => None,
            },
    {
        let backfill = match since_id {
            Some(since_id) => {
                let mut request = Statuses::new(list_id);
                request.since_id(Some(since_id));
                Some(request)
            },
            None => None,
        };
        let mut inner = Inner {
            list_id,
            since_id: None,
            responses: response_list_new(),
            backfill: since_id,
        };
        let request = inner.send_request(id);
        assert(response_items(inner.responses) == seq![id]);
        (TwitterListTimeline { inner: Some(inner) }, request, backfill)
    }

    /// Makes a timeline that was not started.
    pub fn empty() -> (r: Self)
        ensures
            r.timeline() is None,
            r.wf(),
    {
        TwitterListTimeline { inner: None }
    }

    /// Returns the request that the interval calls for, if the timeline was started.
    pub fn tick(&mut self, id: u64) -> (r: Option<Statuses>)
        requires
            old(self).wf(),
        ensures
            final(self).wf(),
            match old(self).timeline() {
                Some(timeline) => {
                    &&& r == Some(statuses_request(timeline.list_id, timeline.since_id))
                    &&& final(self).timeline() == Some(
                        TimelineView {
                            responses: with_request(timeline.responses, id),
                            ..timeline
                        },
                    )
                },
                None => r is None && final(self).timeline() is None,
            },
    {
        match &mut self.inner {
            Some(inner) => Some(inner.send_request(id)),
            None => None,
        }
    }

    /// Takes the reply to the newest request that has been replied to, given which ones have been,
    /// and returns its number. Older requests are given up, since there is newer data now.
    pub fn poll_next(&mut self, ready: &Vec<bool>) -> (r: Option<u64>)
        requires
            old(self).wf(),
            old(self).timeline() matches Some(timeline) && ready@.len() == timeline.responses.len(),
        ensures
            final(self).wf(),
            match last_ready(ready@) {
                Some(i) => {
                    &&& r == Some(old(self).timeline()->0.responses[i])
                    &&& final(self).timeline() == Some(
                        TimelineView {
                            responses: old(self).timeline()->0.responses.skip(i + 1),
                            ..old(self).timeline()->0
                        },
                    )
                },
                None => r is None && final(self).timeline() == old(self).timeline(),
            },
    {
        match &mut self.inner {
            Some(inner) => inner.poll_next(ready),
            None => None,
        }
    }

    /// Takes a reply. Returns the Tweets to send, the oldest first, and the moment at which requests
    /// may be made again where they may not be now.
    pub fn receive(&mut self, reply: Reply, clock: &Clock) -> (r: (Vec<Tweet>, Option<i128>))
        requires
            old(self).wf(),
            old(self).timeline() is Some,
            clock.wf(),
        ensures
            final(self).wf(),
            final(self).timeline() == Some(after_reply(old(self).timeline()->0, reply)),
            r.0@ == sent_tweets(reply),
            is_restart(r.1, reply, *clock),
    {
        match reply {
            Reply::Tweets { tweets, rate_limit: _ } => {
                if tweets.len() > 0 {
                    let oldest: i64 = tweets[tweets.len() - 1].id;
                    if let Some(inner) = &mut self.inner {
                        inner.since_id = Some(oldest);
                    }
                }
                // Older Tweets are to be Retweeted first.
                (reversed(tweets), None)
            },
            // An error is skipped, as the list timeline is only for complementary purpose.
            Reply::ApiError { rate_limit } => (Vec::new(), restart(rate_limit, clock)),
            Reply::Failed => (Vec::new(), None),
        }
    }

    /// Polls the timeline: it has ended where it was not started. Where the interval ticks, the next
    /// request is made first, under a number; then the reply to the newest request that has been
    /// replied to is taken, given what has come for each request in flight by then.
    pub fn poll(&mut self, tick: Option<u64>, replies: Vec<Poll<Reply>>, clock: &Clock) -> (r:
        TimelineStep)
        requires
            old(self).wf(),
            old(self).timeline() matches Some(timeline) ==> replies@.len() == after_tick(
                timeline,
                tick,
            ).responses.len(),
            clock.wf(),
        ensures
            final(self).wf(),
            match old(self).timeline() {
                None => r is Ended && final(self).timeline() is None,
                Some(timeline) => {
                    let asked = after_tick(timeline, tick);
                    &&& r matches TimelineStep::Continue { request, taken, tweets, restart }
                    &&& request == if tick is Some {
                        Some(statuses_request(timeline.list_id, timeline.since_id))
                    } else {
                        None
                    }
                    &&& match last_ready(readiness(replies@)) {
                        Some(i) => {
                            let reply = replies@[i]->Ready_0;
                            let rest = TimelineView {
                                responses: asked.responses.skip(i + 1),
                                ..asked
                            };
                            &&& taken == Some(asked.responses[i])
                            &&& tweets@ == sent_tweets(reply)
                            &&& is_restart(restart, reply, *clock)
                            &&& final(self).timeline() == Some(after_reply(rest, reply))
                        },
                        None => {
                            &&& taken is None
                            &&& tweets@ == Seq::<Tweet>::empty()
                            &&& restart is None
                            &&& final(self).timeline() == Some(asked)
                        },
                    }
                },
            },
    {
        if self.inner.is_none() {
            return TimelineStep::Ended;
        }
        let request = match tick {
            Some(id) => self.tick(id),
            None => None,
        };
        let ready = are_ready(&replies);
        let taken = self.poll_next(&ready);
        let (tweets, restart) = match newest_reply(replies) {
            Some(reply) => self.receive(reply, clock),
            None => (Vec::new(), None),
        };
        TimelineStep::Continue { request, taken, tweets, restart }
    }

    /// Takes the reply to a request for past Tweets.
    pub fn poll_backfill<E>(&mut self, reply: Poll<Result<Vec<Tweet>, E>>) -> (r: Poll<
        BackfillStep<E>,
    >)
        requires
            old(self).wf(),
            reply matches Poll::Ready(Ok(tweets)) ==> tweets@.len() > 0 ==> tweets@.last().id
                > i64::MIN,
        ensures
            final(self).wf(),
            match old(self).timeline() {
                Some(timeline) => match (timeline.backfill, reply) {
                    (None, _) => r == Poll::Ready(BackfillStep::<E>::Finished(Ok(())))
                        && final(self).timeline() == Some(timeline),
                    (Some(since_id), Poll::Pending) => r == Poll::<BackfillStep<E>>::Pending
                        && final(self).timeline() == Some(timeline),
                    (Some(since_id), Poll::Ready(Err(e))) => r == Poll::Ready(
                        BackfillStep::<E>::Finished(Err(e)),
                    ) && final(self).timeline() == Some(TimelineView { backfill: None, ..timeline }),
                    (Some(since_id), Poll::Ready(Ok(tweets))) => if tweets@.len() == 0 {
                        r == Poll::Ready(BackfillStep::<E>::Finished(Ok(()))) && final(
                            self).timeline() == Some(TimelineView { backfill: None, ..timeline })
                    } else {
                        &&& r matches Poll::Ready(BackfillStep::Continue { request, tweets: sent })
                        &&& request == backfill_request(
                            timeline.list_id,
                            since_id,
                            Some((tweets@.last().id - 1) as i64),
                        )
                        &&& sent@ == originals(tweets@)
                        &&& final(self).timeline() == Some(
                            TimelineView {
                                since_id: if timeline.since_id is None {
                                    Some(tweets@[0].id)
                                } else {
                                    timeline.since_id
                                },
                                ..timeline
                            },
                        )
                    },
                },
                None => r == Poll::Ready(BackfillStep::<E>::Finished(Ok(()))) && final(
                    self).timeline() is None,
            },
    {
        let inner = match &mut self.inner {
            Some(inner) => inner,
            None => return Poll::Ready(BackfillStep::Finished(Ok(()))),
        };
        let since_id: i64 = match inner.backfill {
            Some(since_id) => since_id,
            None => return Poll::Ready(BackfillStep::Finished(Ok(()))),
        };
        let tweets = match reply {
            Poll::Ready(Ok(tweets)) => tweets,
            Poll::Ready(Err(e)) => {
                inner.backfill = None;
                return Poll::Ready(BackfillStep::Finished(Err(e)));
            },
            Poll::Pending => return Poll::Pending,
        };
        if tweets.len() == 0 {
            inner.backfill = None;
            return Poll::Ready(BackfillStep::Finished(Ok(())));
        }
        if inner.since_id.is_none() {
            inner.since_id = Some(tweets[0].id);
        }
        let max_id: i64 = tweets[tweets.len() - 1].id - 1;
        let mut request = Statuses::new(inner.list_id);
        request.since_id(Some(since_id)).max_id(Some(max_id));
        Poll::Ready(BackfillStep::Continue { request, tweets: without_retweets(tweets) })
    }
}

/// The moment at which requests may be made again.
pub open spec fn restart_at(clock: Clock, reset: u64) -> int {
    if reset * NANOS_PER_SEC > clock.unix {
        clock.instant + (reset * NANOS_PER_SEC - clock.unix)
    } else {
        clock.instant as int
    }
}

/// Returns the moment at which requests may be made again, where they may not be now.
fn restart(rate_limit: Option<RateLimit>, clock: &Clock) -> (r: Option<i128>)
    requires
        clock.wf(),
    ensures
        match (held_up_until(rate_limit), r) {
            (Some(reset), Some(at)) => at == restart_at(*clock, reset),
            (None, None) => true,
            _ => false,
        },
{
    match rate_limit {
        Some(limit) => if limit.remaining == 0 {
            let reset: u128 = from_secs(limit.reset);
            if reset > clock.unix {
                Some(clock.instant + (reset - clock.unix) as i128)
            } else {
                Some(clock.instant)
            }
        } else {
            None
        },
        None => None,
    }
}

/// The requests in flight with one more. Where there are as many as may be, the oldest one is given
/// up.
pub open spec fn with_request(responses: Seq<u64>, id: u64) -> Seq<u64> {
    if responses.len() == RESP_BUF_CAP {
        responses.remove(0).push(id)
    } else {
        responses.push(id)
    }
}

impl Inner {
    /// Returns the next request and notes it under a number.
    fn send_request(&mut self, id: u64) -> (r: Statuses)
        requires
            response_items(old(self).responses).len() <= RESP_BUF_CAP,
        ensures
            r == statuses_request(old(self).list_id, old(self).since_id),
            response_items(final(self).responses) == with_request(
                response_items(old(self).responses),
                id,
            ),
            response_items(final(self).responses).len() <= RESP_BUF_CAP,
            final(self).list_id == old(self).list_id,
            final(self).since_id == old(self).since_id,
            final(self).backfill == old(self).backfill,
    {
        let count: u64 = if self.since_id.is_some() {
            200
        } else {
            1
        };
        let mut request = Statuses::new(self.list_id);
        request.count(Some(count)).include_rts(Some(false)).since_id(self.since_id);
        if response_list_as_slice(&self.responses).len() == RESP_BUF_CAP {
            let _ = response_list_remove(&mut self.responses, 0);
        }
        response_list_push(&mut self.responses, id);
        request
    }

    /// Takes the reply to the newest request that has been replied to, and returns its number.
    fn poll_next(&mut self, ready: &Vec<bool>) -> (r: Option<u64>)
        requires
            ready@.len() == response_items(old(self).responses).len(),
        ensures
            final(self).list_id == old(self).list_id,
            final(self).since_id == old(self).since_id,
            final(self).backfill == old(self).backfill,
            match last_ready(ready@) {
                Some(i) => {
                    &&& 0 <= i < ready@.len()
                    &&& r == Some(response_items(old(self).responses)[i])
                    &&& response_items(final(self).responses) == response_items(
                        old(self).responses,
                    ).skip(i + 1)
                },
                None => r is None && final(self).responses == old(self).responses,
            },
    {
        // Iterate from later responses.
        let mut i: usize = ready.len();
        assert(ready@.take(ready@.len() as int) == ready@);
        while i > 0
            invariant
                i <= ready@.len(),
                ready@.len() == response_items(self.responses).len(),
                *self == *old(self),
                last_ready(ready@) == last_ready(ready@.take(i as int)),
            decreases i,
        {
            assert(ready@.take(i as int).drop_last() == ready@.take(i - 1));
            i -= 1;
            if ready[i] {
                let id: u64 = response_list_as_slice(&self.responses)[i];
                response_list_drain(&mut self.responses, i);
                return Some(id);
            }
        }
        None
    }
}

/// `last_ready` is the position of the last request that has been replied to, or nothing where none has.
pub proof fn last_ready_is_last(ready: Seq<bool>)
    ensures
        match last_ready(ready) {
            Some(i) => 0 <= i < ready.len() && ready[i] && forall|j: int|
                i < j < ready.len() ==> !#[trigger] ready[j],
            None => forall|j: int| 0 <= j < ready.len() ==> !#[trigger] ready[j],
        },
    decreases ready.len(),
{
    if ready.len() > 0 {
        let before = ready.drop_last();
        last_ready_is_last(before);
        assert(ready[ready.len() - 1] == ready.last());
        assert forall|j: int| 0 <= j < before.len() implies before[j] == #[trigger] ready[j] by {}
    }
}

/// A request is added behind the others. Where there are as many as may be in flight, the oldest one is
/// given up for it, and no other.
pub proof fn newest_requests_are_kept(responses: Seq<u64>, id: u64)
    requires
        responses.len() <= 8,
    ensures
        with_request(responses, id).last() == id,
        responses.len() < 8 ==> with_request(responses, id).drop_last() == responses,
        responses.len() == 8 ==> with_request(responses, id).drop_last() == responses.skip(1),
{
    if responses.len() == 8 {
        assert(with_request(responses, id).drop_last() == responses.skip(1));
    } else {
        assert(with_request(responses, id).drop_last() == responses);
    }
}

/// The first request asks for a single Tweet, and the next ones for as many as can be had behind the
/// last one; never for Retweets.
pub proof fn requests_go_on_behind_the_last(list_id: u64, since_id: Option<i64>)
    ensures
        statuses_request(list_id, since_id).list_id == list_id,
        statuses_request(list_id, since_id).since_id == since_id,
        statuses_request(list_id, since_id).max_id is None,
        statuses_request(list_id, since_id).include_rts == Some(false),
        since_id is None ==> statuses_request(list_id, since_id).count == Some(1u64),
        since_id is Some ==> statuses_request(list_id, since_id).count == Some(200u64),
{
}

/// Exactly the Tweets that are no Retweets are kept, in their order.
pub proof fn only_retweets_are_left_out(a: Seq<Tweet>, b: Seq<Tweet>, tweet: Tweet)
    ensures
        originals(a + b) == originals(a) + originals(b),
        originals(a).contains(tweet) <==> a.contains(tweet) && tweet.retweeted_status is None,
        (forall|i: int| 0 <= i < b.len() ==> (#[trigger] b[i]).retweeted_status is None)
            ==> originals(b) == b,
    decreases a.len() + b.len(),
{
    if b.len() == 0 {
        assert(a + b == a);
        assert(originals(a) + originals(b) == originals(a));
        assert(originals(b) == b);
        if a.len() > 0 {
            let rest = a.drop_last();
            only_retweets_are_left_out(rest, b, tweet);
            assert(a == rest.push(a.last()));
            crate::sets::contains_push(rest, a.last(), tweet);
            crate::sets::contains_push(originals(rest), a.last(), tweet);
        }
    } else {
        let before = b.drop_last();
        only_retweets_are_left_out(a, before, tweet);
        assert((a + b).drop_last() == a + before);
        assert((a + b).last() == b.last());
        assert(originals(a + b) == originals(a) + originals(b));
        if forall|i: int| 0 <= i < b.len() ==> (#[trigger] b[i]).retweeted_status is None {
            assert forall|i: int| 0 <= i < before.len() implies (
            #[trigger] before[i]).retweeted_status is None by {
                assert(before[i] == b[i]);
            }
            assert(b[b.len() - 1] == b.last());
            assert(originals(b) == b);
        }
    }
}

/// The Tweets of a reply are all sent, the oldest one first, and the next request goes on behind the
/// oldest one. A reply that is an error or has no Tweets sends nothing and changes nothing.
pub proof fn replies_are_sent_oldest_first(timeline: TimelineView, reply: Reply, i: int)
    ensures
        after_reply(timeline, reply).list_id == timeline.list_id,
        after_reply(timeline, reply).responses == timeline.responses,
        after_reply(timeline, reply).backfill == timeline.backfill,
        match reply {
            Reply::Tweets { tweets, rate_limit } => {
                &&& sent_tweets(reply).len() == tweets@.len()
                &&& 0 <= i < tweets@.len() ==> sent_tweets(reply)[i] == tweets@[tweets@.len() - 1
                    - i]
                &&& tweets@.len() > 0 ==> after_reply(timeline, reply).since_id == Some(
                    sent_tweets(reply)[0].id,
                )
                &&& tweets@.len() == 0 ==> after_reply(timeline, reply) == timeline
            },
            _ => sent_tweets(reply).len() == 0 && after_reply(timeline, reply) == timeline,
        },
{
}

/// Requests start again at once, unless an error has told that none is left: then when their number is
/// reset, or now where that has passed already.
pub proof fn requests_start_again_with_the_reset(
    at: Option<i128>,
    reply: Reply,
    clock: Clock,
    limit: RateLimit,
)
    requires
        is_restart(at, reply, clock),
    ensures
        reply is Tweets || reply is Failed ==> at is None,
        reply == (Reply::ApiError { rate_limit: None }) ==> at is None,
        reply == (Reply::ApiError { rate_limit: Some(limit) }) && limit.remaining > 0 ==> at is None,
        reply == (Reply::ApiError { rate_limit: Some(limit) }) && limit.remaining == 0 ==> {
            &&& at matches Some(moment)
            &&& limit.reset * 1_000_000_000 > clock.unix ==> moment - clock.instant == limit.reset
                * 1_000_000_000 - clock.unix
            &&& limit.reset * 1_000_000_000 <= clock.unix ==> moment == clock.instant
        },
{
}

/// A tick adds its request and changes nothing else; without a tick nothing changes.
pub proof fn ticks_add_a_request(timeline: TimelineView, tick: Option<u64>, replies: Seq<Poll<Reply>>)
    ensures
        tick is None ==> after_tick(timeline, tick) == timeline,
        tick matches Some(id) ==> after_tick(timeline, tick).responses == with_request(
            timeline.responses,
            id,
        ),
        after_tick(timeline, tick).list_id == timeline.list_id,
        after_tick(timeline, tick).since_id == timeline.since_id,
        after_tick(timeline, tick).backfill == timeline.backfill,
        readiness(replies).len() == replies.len(),
        forall|i: int|
            0 <= i < replies.len() ==> (#[trigger] readiness(replies)[i] <==> replies[i] is Ready),
{
}

} // verus!
