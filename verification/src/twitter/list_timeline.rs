//! The timeline of a list.

use vstd::prelude::*;

use super::api::lists::{Statuses, TweetMode};
use super::interval::Handle;
use super::Tweet;
use crate::bytes::header_text;
#[allow(unused_imports)]
use crate::bytes::header_value;
use crate::decimal::parse_u64;
#[allow(unused_imports)]
use crate::decimal::unsigned_value;
use crate::manifest::TwitterList;

verus! {

/// The Unix time of the first Tweet ID, in milliseconds.
pub const SNOWFLAKE_EPOCH: u64 = 1_288_834_974_657;

/// The number of IDs in a millisecond.
pub const SNOWFLAKES_PER_MS: u64 = 4_194_304;

/// The number of nanoseconds in a millisecond.
pub const NANOS_PER_MS: u128 = 1_000_000;

/// The first ID of the millisecond of a Unix time in nanoseconds.
pub open spec fn snowflake(unix: int) -> int {
    (unix / (NANOS_PER_MS as int) - SNOWFLAKE_EPOCH) * SNOWFLAKES_PER_MS
}

/// Tells whether a Unix time in nanoseconds has IDs.
pub open spec fn has_snowflakes(unix: int) -> bool {
    0 <= snowflake(unix) <= i64::MAX
}

/// Returns the first ID of the millisecond of a Unix time in nanoseconds.
pub fn system_time_to_snowflake(unix: u128) -> (r: i64)
    requires
        has_snowflakes(unix as int),
    ensures
        r == snowflake(unix as int),
{
    let ms: u128 = unix / NANOS_PER_MS;
    let since: u128 = ms - SNOWFLAKE_EPOCH as u128;
    assert(since * SNOWFLAKES_PER_MS == snowflake(unix as int));
    (since * SNOWFLAKES_PER_MS as u128) as i64
}

/// Returns the Unix time of an ID, in milliseconds.
pub fn snowflake_to_unix_ms(id: u64) -> (r: u64)
    ensures
        r == id / SNOWFLAKES_PER_MS + SNOWFLAKE_EPOCH,
{
    id / SNOWFLAKES_PER_MS + SNOWFLAKE_EPOCH
}

/// An ID is of the millisecond that it was made of.
pub proof fn snowflake_is_of_its_time(unix: u128)
    requires
        has_snowflakes(unix as int),
    ensures
        snowflake(unix as int) / (SNOWFLAKES_PER_MS as int) + SNOWFLAKE_EPOCH == unix as int
            / NANOS_PER_MS as int,
{
}

/// How many requests may still be made, and when that number is reset.
#[derive(Copy, Clone, Debug, PartialEq, Eq, Structural)]
pub struct RateLimit {
    pub limit: u64,
    pub remaining: u64,
    /// In seconds of Unix time.
    pub reset: u64,
}

/// The number that the value of a header denotes, if it fits.
pub open spec fn header_number(value: Seq<u8>) -> Option<u64> {
    match header_value(value) {
        Some(text) => match unsigned_value(text) {
            Some(n) => if n <= u64::MAX {
                Some(n as u64)
            } else {
                None
            },
            None => None,
        },
        None => None,
    }
}

/// Reads the number in the value of a header.
fn parse_header_number(value: &[u8]) -> (r: Option<u64>)
    ensures
        r == header_number(value@),
{
    match header_text(value) {
        Some(text) => parse_u64(text.as_str()),
        None => None,
    }
}

impl RateLimit {
    /// Reads the values of the headers of a response that tell how many requests may be made, how
    /// many of them are left and when that is reset.
    pub fn from_headers(limit: &[u8], remaining: &[u8], reset: &[u8]) -> (r: Option<RateLimit>)
        ensures
            r == match (header_number(limit@), header_number(remaining@), header_number(reset@)) {
                (Some(limit), Some(remaining), Some(reset)) => Some(
                    RateLimit { limit, remaining, reset },
                ),
                _ => None,
            },
    {
        match (
            parse_header_number(limit),
            parse_header_number(remaining),
            parse_header_number(reset),
        ) {
            (Some(limit), Some(remaining), Some(reset)) => Some(
                RateLimit { limit, remaining, reset },
            ),
            _ => None,
        }
    }
}

/// What came of a request for a timeline.
#[derive(Debug)]
pub enum Reply {
    /// Tweets, the newest first.
    Tweets { tweets: Vec<Tweet>, rate_limit: Option<RateLimit> },
    /// An error of the API.
    ApiError { rate_limit: Option<RateLimit> },
    /// Any other error.
    Failed,
}

/// Asks for the newest Tweets of a list, again and again.
#[derive(Debug)]
pub struct RequestSender {
    pub list_id: u64,
    /// In nanoseconds.
    pub delay: u128,
    /// The ID of the newest Tweet; zero where none has been seen.
    pub since_id: i64,
    pub handle: Handle,
}

/// The later one of two IDs.
pub open spec fn newer(a: i64, b: i64) -> i64 {
    if a < b {
        b
    } else {
        a
    }
}

/// The request for the Tweets behind an ID, and among the newest ones for those that may have been
/// added late; for a single Tweet where there is no ID.
pub open spec fn timeline_request(list_id: u64, since_id: i64, oldest: int) -> Statuses {
    Statuses {
        list_id,
        since_id: if since_id == 0 {
            None
        } else if oldest < since_id {
            Some(oldest as i64)
        } else {
            Some(since_id)
        },
        max_id: None,
        count: if since_id == 0 {
            Some(1)
        } else {
            Some(200)
        },
        include_entities: false,
        include_rts: Some(false),
        tweet_mode: Some(TweetMode::Extended),
    }
}

/// The request for the Tweets between two IDs.
pub open spec fn backfill_request(list_id: u64, since_id: i64, max_id: Option<i64>) -> Statuses {
    Statuses {
        list_id,
        since_id: Some(since_id),
        max_id,
        count: Some(200),
        include_entities: false,
        include_rts: None,
        tweet_mode: Some(TweetMode::Extended),
    }
}

/// The time until which requests are to be held up because of a rate limit.
pub open spec fn held_up_until(rate_limit: Option<RateLimit>) -> Option<u64> {
    match rate_limit {
        Some(limit) => if limit.remaining == 0 {
            Some(limit.reset)
        } else {
            None
        },
        None => None,
    }
}

impl RequestSender {
    /// The ID of the newest Tweet; zero where none has been seen.
    pub open spec fn newest(&self) -> i64 {
        self.since_id
    }

    /// Starts with the configuration of a list.
    pub fn new(list: &TwitterList) -> (r: Self)
        ensures
            r.list_id == list.id,
            r.delay == list.delay,
            r.newest() == 0,
            r.handle.period() == list.interval,
            r.handle.delayed_until() == 0,
    {
        RequestSender {
            list_id: list.id,
            delay: list.delay,
            since_id: 0,
            handle: Handle::new(list.interval),
        }
    }

    /// Returns the next request, at a Unix time in nanoseconds.
    pub fn send(&self, now: u128) -> (r: Statuses)
        requires
            self.newest() != 0 ==> self.delay <= now && has_snowflakes(now - self.delay),
        ensures
            r == timeline_request(self.list_id, self.newest(), snowflake(now - self.delay)),
    {
        let since_id: Option<i64> = if self.since_id != 0 {
            let oldest: i64 = system_time_to_snowflake(now - self.delay);
            if oldest < self.since_id {
                Some(oldest)
            } else {
                Some(self.since_id)
            }
        } else {
            None
        };
        let count: u64 = if since_id.is_some() {
            200
        } else {
            1
        };
        let mut request = Statuses::new(self.list_id);
        request.count(Some(count)).include_rts(Some(false)).since_id(since_id);
        request
    }

    /// Takes what came of a request and returns the Tweets to pass on. Where they cannot be passed
    /// on, nothing is noted.
    pub fn receive(&mut self, reply: Reply, connected: bool) -> (r: Option<Vec<Tweet>>)
        ensures
            final(self).list_id == old(self).list_id,
            final(self).delay == old(self).delay,
            final(self).handle.period() == old(self).handle.period(),
            match reply {
                Reply::Tweets { tweets, rate_limit } => if tweets@.len() > 0 && !connected {
                    &&& r is None
                    &&& final(self).newest() == old(self).newest()
                    &&& final(self).handle.delayed_until() == old(self).handle.delayed_until()
                } else {
                    &&& r == (if tweets@.len() > 0 {
                        Some(tweets)
                    } else {
                        None
                    })
                    &&& final(self).newest() == (if tweets@.len() > 0 {
                        newer(old(self).newest(), tweets@[0].id)
                    } else {
                        old(self).newest()
                    })
                    &&& final(self).handle.delayed_until() == match held_up_until(rate_limit) {
                        Some(reset) => super::interval::later(
                            old(self).handle.delayed_until() as int,
                            reset as int,
                        ),
                        None => old(self).handle.delayed_until() as int,
                    }
                },
                Reply::ApiError { rate_limit } => {
                    &&& r is None
                    &&& final(self).newest() == old(self).newest()
                    &&& final(self).handle.delayed_until() == match held_up_until(rate_limit) {
                        Some(reset) => super::interval::later(
                            old(self).handle.delayed_until() as int,
                            reset as int,
                        ),
                        None => old(self).handle.delayed_until() as int,
                    }
                },
                Reply::Failed => {
                    &&& r is None
                    &&& final(self).newest() == old(self).newest()
                    &&& final(self).handle.delayed_until() == old(self).handle.delayed_until()
                },
            },
    {
        let mut received: Option<Vec<Tweet>> = None;
        let rate_limit = match reply {
            Reply::Tweets { tweets, rate_limit } => {
                if tweets.len() > 0 {
                    if !connected {
                        return None;
                    }
                    self.set_since_id(tweets[0].id);
                    received = Some(tweets);
                }
                rate_limit
            },
            // An error does not end the requests, since they are repeated soon.
            Reply::ApiError { rate_limit } => rate_limit,
            Reply::Failed => return None,
        };
        if let Some(limit) = rate_limit {
            if limit.remaining == 0 {
                self.handle.delay(limit.reset);
            }
        }
        received
    }

    /// Notes the ID of a Tweet, unless a newer one has been noted.
    pub fn set_since_id(&mut self, since_id: i64)
        ensures
            final(self).newest() == newer(old(self).newest(), since_id),
            final(self).list_id == old(self).list_id,
            final(self).delay == old(self).delay,
            final(self).handle == old(self).handle,
    {
        if self.since_id < since_id {
            self.since_id = since_id;
        }
    }
}

/// Asks for the Tweets that were posted behind an ID, from the newest ones to the oldest ones.
#[derive(Debug)]
pub struct Backfill {
    pub since_id: i64,
}

/// What follows the reply to a request for past Tweets.
#[derive(Debug)]
pub enum BackfillStep {
    /// There are no more Tweets, or the request failed.
    Done,
    /// Tweets to pass on, and the request for older ones.
    Tweets(Vec<Tweet>, Statuses),
}

impl Backfill {
    /// Returns the first request.
    pub fn start(&self, list_id: u64) -> (r: Statuses)
        ensures
            r == backfill_request(list_id, self.since_id, None),
    {
        let mut request = Statuses::new(list_id);
        request.since_id(Some(self.since_id));
        request
    }

    /// Takes the reply to a request: the Tweets, the newest first, or nothing where it failed. It
    /// ends where they cannot be passed on.
    pub fn poll(
        &self,
        sender: &mut RequestSender,
        reply: Option<Vec<Tweet>>,
        connected: bool,
    ) -> (r: BackfillStep)
        requires
            reply matches Some(tweets) ==> tweets@.len() > 0 ==> tweets@.last().id > i64::MIN,
        ensures
            final(sender).list_id == old(sender).list_id,
            final(sender).delay == old(sender).delay,
            final(sender).handle == old(sender).handle,
            match reply {
                Some(tweets) => if tweets@.len() > 0 {
                    &&& r == (if connected {
                        BackfillStep::Tweets(
                            tweets,
                            backfill_request(
                                old(sender).list_id,
                                self.since_id,
                                Some((tweets@.last().id - 1) as i64),
                            ),
                        )
                    } else {
                        BackfillStep::Done
                    })
                    &&& final(sender).newest() == newer(old(sender).newest(), tweets@[0].id)
                } else {
                    r is Done && final(sender).newest() == old(sender).newest()
                },
                None => r is Done && final(sender).newest() == old(sender).newest(),
            },
    {
        let tweets = match reply {
            Some(tweets) => tweets,
            None => return BackfillStep::Done,
        };
        if tweets.len() == 0 {
            return BackfillStep::Done;
        }
        sender.set_since_id(tweets[0].id);
        let max_id: i64 = tweets[tweets.len() - 1].id - 1;
        let mut request = Statuses::new(sender.list_id);
        request.since_id(Some(self.since_id)).max_id(Some(max_id));
        if connected {
            BackfillStep::Tweets(tweets, request)
        } else {
            BackfillStep::Done
        }
    }
}

/// A backfill asks for ever older Tweets: where those that a reply holds are in the range that was
/// asked for, so that they are behind `since_id` and not beyond `max_id`, the next request leaves
/// them all out and asks for a smaller range.
pub proof fn backfill_makes_progress(
    since_id: i64,
    max_id: i64,
    tweets: Seq<Tweet>,
)
    requires
        tweets.len() > 0,
        forall|i: int| 0 <= i < tweets.len() ==> since_id < (#[trigger] tweets[i]).id <= max_id,
        forall|i: int, j: int|
            0 <= i < j < tweets.len() ==> (#[trigger] tweets[i]).id > (#[trigger] tweets[j]).id,
    ensures
        ({
            let next = tweets.last().id - 1;
            &&& since_id <= next < max_id
            &&& forall|i: int| 0 <= i < tweets.len() ==> next < (#[trigger] tweets[i]).id
        }),
{
    let last = tweets.len() - 1;
    assert(tweets[last] == tweets.last());
    assert(since_id < tweets[last].id <= max_id);
}

/// What a timeline waits for.
#[derive(Debug)]
pub struct ListTimeline {
    inner: Option<Inner>,
}

/// A timeline that was started.
#[derive(Debug)]
struct Inner {
    sender: Option<RequestSender>,
}

impl ListTimeline {
    /// What sends the requests, unless the timeline was shut down or is empty.
    pub closed spec fn sender(&self) -> Option<RequestSender> {
        match self.inner {
            Some(inner) => inner.sender,
            None => None,
        }
    }

    /// Tells whether the timeline is that of a list.
    pub closed spec fn is_started(&self) -> bool {
        self.inner is Some
    }

    /// Starts the timeline of a list, and its backfill where an ID is given.
    pub fn new(list: &TwitterList, since_id: Option<i64>) -> (r: (Self, Option<Backfill>))
        ensures
            r.0.is_started(),
            r.0.sender() matches Some(sender) && sender.list_id == list.id && sender.delay
                == list.delay && sender.newest() == 0 && sender.handle.period() == list.interval
                && sender.handle.delayed_until() == 0,
            r.1 == match since_id {
                Some(since_id) => Some(Backfill { since_id }),
                None => None,
            },
    {
        let backfill = match since_id {
            Some(since_id) => Some(Backfill { since_id }),
            None => None,
        };
        let inner = Inner { sender: Some(RequestSender::new(list)) };
        (ListTimeline { inner: Some(inner) }, backfill)
    }

    /// Makes a timeline that has ended.
    pub fn empty() -> (r: Self)
        ensures
            !r.is_started(),
            r.sender() is None,
    {
        ListTimeline { inner: None }
    }

    /// Stops the requests. A backfill that is running goes on.
    pub fn shutdown(&mut self)
        ensures
            final(self).sender() is None,
            final(self).is_started() == old(self).is_started(),
    {
        if self.inner.is_some() {
            self.inner = Some(Inner { sender: None });
        }
    }

    /// Returns what sends the requests.
    pub fn sender_mut(&mut self) -> (r: Option<&mut RequestSender>)
        ensures
            final(self).is_started() == old(self).is_started(),
            match r {
                Some(sender) => old(self).sender() == Some(*sender) && final(self).sender() == Some(
                    *final(sender),
                ),
                None => old(self).sender() is None && final(self).sender() is None,
            },
    {
        match &mut self.inner {
            Some(inner) => match &mut inner.sender {
                Some(sender) => Some(sender),
                None => None,
            },
            None => None,
        }
    }

    /// Returns what the timeline yields, given what was received: it has ended where it is empty,
    /// and where nothing can be received any more.
    pub fn poll_next(&self, received: crate::poll::Poll<Option<Vec<Tweet>>>) -> (r:
        crate::poll::Poll<Option<Vec<Tweet>>>)
        ensures
            r == (if self.is_started() {
                received
            } else {
                crate::poll::Poll::Ready(None)
            }),
    {
        if self.inner.is_some() {
            received
        } else {
            crate::poll::Poll::Ready(None)
        }
    }
}

/// The first request for a timeline asks for a single Tweet. Once a Tweet has been seen, the next ones
/// ask for as many Tweets as can be had behind it, and from further back where Tweets may have been
/// added late, but never for fewer. Retweets are never asked for.
pub proof fn timeline_requests_leave_nothing_out(list_id: u64, since_id: i64, oldest: int)
    requires
        0 <= oldest <= i64::MAX,
    ensures
        ({
            let request = timeline_request(list_id, since_id, oldest);
            &&& request.list_id == list_id
            &&& request.max_id is None
            &&& request.include_rts == Some(false)
            &&& since_id == 0 ==> request.since_id is None && request.count == Some(1u64)
            &&& since_id != 0 ==> {
                &&& request.count == Some(200u64)
                &&& request.since_id matches Some(since)
                &&& since <= since_id && since <= oldest
                &&& since == since_id || since == oldest
            }
        }),
{
}

/// A request for past Tweets asks for as many as can be had, behind an ID and up to another one where
/// that is known.
pub proof fn backfill_requests_ask_for_a_range(list_id: u64, since_id: i64, max_id: Option<i64>)
    ensures
        backfill_request(list_id, since_id, max_id).list_id == list_id,
        backfill_request(list_id, since_id, max_id).since_id == Some(since_id),
        backfill_request(list_id, since_id, max_id).max_id == max_id,
        backfill_request(list_id, since_id, max_id).count == Some(200u64),
{
}

/// The newer one of two IDs is one of them and not less than either.
pub proof fn newer_is_the_greater_one(a: i64, b: i64)
    ensures
        newer(a, b) == a || newer(a, b) == b,
        newer(a, b) >= a,
        newer(a, b) >= b,
{
}

/// Requests are held up exactly where none is left, until their number is reset.
pub proof fn requests_are_held_up_by_the_limit(limit: RateLimit)
    ensures
        held_up_until(None) is None,
        limit.remaining == 0 ==> held_up_until(Some(limit)) == Some(limit.reset),
        limit.remaining > 0 ==> held_up_until(Some(limit)) is None,
{
}

/// A millisecond later the first ID is as much greater as there are IDs in a millisecond, and within a
/// millisecond it does not change.
pub proof fn snowflakes_grow_with_time(unix: int)
    ensures
        snowflake(unix + 1_000_000) == snowflake(unix) + 4_194_304,
        unix % 1_000_000 != 999_999 ==> snowflake(unix + 1) == snowflake(unix),
        snowflake(1_288_834_974_657_000_000) == 0,
{
    assert((unix + 1_000_000) / 1_000_000 == unix / 1_000_000 + 1);
}

/// A number in a header is read as it is written in decimal.
pub proof fn numbers_in_headers_are_read(n: u64, value: Seq<u8>)
    requires
        header_value(value) == Some(crate::decimal::decimal(n as nat)),
    ensures
        header_number(value) == Some(n),
{
    crate::decimal::decimal_is_read_back(n as nat);
}

} // verus!
