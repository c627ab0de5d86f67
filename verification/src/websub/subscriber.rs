//! The subscriber: its service, its subscriptions' renewals and the updates that it receives.

use vstd::prelude::*;

use super::hub;
use super::hub::{HubRequest, NewSubscription};
#[allow(unused_imports)]
use super::hub::{subscribe_request, unsubscribe_request};
use super::scheduler::Handle;
use super::service::Service;
use super::store::Statement;
#[allow(unused_imports)]
use super::store::StatementView;
use crate::poll::Poll;
use crate::sets::contains_id;
use crate::uri::Uri;

verus! {

/// A subscriber: what the hubs call, and the time of the next renewal.
#[derive(Debug)]
pub struct Subscriber {
    pub service: Service,
    pub handle: Handle,
}

/// The number of seconds before the time of a subscription's renewal, which is a margin before its
/// expiry, that still count as that time.
pub const RENEW: u64 = 10;

/// An active subscription.
#[derive(Debug)]
pub struct Active {
    pub id: i64,
    pub hub: String,
    pub topic: String,
    pub expires_at: i64,
}

/// A subscription that is to be renewed.
#[derive(Debug)]
pub struct Renewal {
    pub id: i64,
    pub hub: String,
    pub topic: String,
}

/// The active subscriptions that expire at a time or before and are not being renewed yet.
pub open spec fn expiring(active: Seq<Active>, renewing: Seq<i64>, threshold: int) -> Seq<Renewal>
    decreases active.len(),
{
    if active.len() == 0 {
        Seq::empty()
    } else {
        let rest = expiring(active.drop_last(), renewing, threshold);
        let last = active.last();
        if last.expires_at <= threshold && !renewing.contains(last.id) {
            rest.push(Renewal { id: last.id, hub: last.hub, topic: last.topic })
        } else {
            rest
        }
    }
}

/// The subscriptions to be renewed are exactly the active ones that expire in time and are not being
/// renewed, so that none is renewed twice.
pub proof fn renewals_are_those_due(
    active: Seq<Active>,
    renewing: Seq<i64>,
    threshold: int,
    id: i64,
)
    ensures
        (exists|i: int|
            0 <= i < expiring(active, renewing, threshold).len() && (#[trigger] expiring(
                active,
                renewing,
                threshold,
            )[i]).id == id) <==> (exists|i: int|
            0 <= i < active.len() && (#[trigger] active[i]).id == id && active[i].expires_at
                <= threshold && !renewing.contains(id)),
    decreases active.len(),
{
    if active.len() > 0 {
        let before = active.drop_last();
        let rest = expiring(before, renewing, threshold);
        let all = expiring(active, renewing, threshold);
        let n = active.len() - 1;
        renewals_are_those_due(before, renewing, threshold, id);
        assert(active[n] == active.last());
        if exists|i: int| 0 <= i < all.len() && (#[trigger] all[i]).id == id {
            let i = choose|i: int| 0 <= i < all.len() && (#[trigger] all[i]).id == id;
            if i < rest.len() {
                assert(rest[i] == all[i]);
                let j = choose|j: int|
                    0 <= j < before.len() && (#[trigger] before[j]).id == id
                        && before[j].expires_at <= threshold && !renewing.contains(id);
                assert(active[j] == before[j]);
            }
        }
        if exists|i: int|
            0 <= i < active.len() && (#[trigger] active[i]).id == id && active[i].expires_at
                <= threshold && !renewing.contains(id) {
            let j = choose|j: int|
                0 <= j < active.len() && (#[trigger] active[j]).id == id && active[j].expires_at
                    <= threshold && !renewing.contains(id);
            if j < n {
                assert(before[j] == active[j]);
                let i = choose|i: int| 0 <= i < rest.len() && (#[trigger] rest[i]).id == id;
                assert(all[i] == rest[i]);
            } else {
                assert(all[all.len() - 1].id == id);
            }
        }
    }
}

/// The earliest time at which an active subscription expires that is not being renewed.
pub open spec fn earliest_expiry(active: Seq<Active>, renewing: Seq<i64>) -> Option<i64>
    decreases active.len(),
{
    if active.len() == 0 {
        None
    } else {
        let rest = earliest_expiry(active.drop_last(), renewing);
        let last = active.last();
        if renewing.contains(last.id) {
            rest
        } else if rest is Some && rest->0 <= last.expires_at {
            rest
        } else {
            Some(last.expires_at)
        }
    }
}

/// `earliest_expiry` is that of some subscription and not later than that of any other.
pub proof fn earliest_expiry_is_earliest(active: Seq<Active>, renewing: Seq<i64>)
    ensures
        match earliest_expiry(active, renewing) {
            Some(earliest) => {
                &&& exists|i: int|
                    0 <= i < active.len() && (#[trigger] active[i]).expires_at == earliest
                        && !renewing.contains(active[i].id)
                &&& forall|i: int|
                    0 <= i < active.len() && !renewing.contains((#[trigger] active[i]).id)
                        ==> earliest <= active[i].expires_at
            },
            None => forall|i: int|
                0 <= i < active.len() ==> renewing.contains((#[trigger] active[i]).id),
        },
    decreases active.len(),
{
    if active.len() > 0 {
        let rest = active.drop_last();
        let n = active.len() - 1;
        earliest_expiry_is_earliest(rest, renewing);
        assert(forall|i: int| 0 <= i < n ==> rest[i] == #[trigger] active[i]);
        match earliest_expiry(rest, renewing) {
            Some(earliest) => {
                let i = choose|i: int|
                    0 <= i < rest.len() && (#[trigger] rest[i]).expires_at == earliest
                        && !renewing.contains(rest[i].id);
                assert(active[i] == rest[i]);
            },
            None => {},
        }
        assert(active[n] == active.last());
    }
}

/// Returns the earliest time at which an active subscription expires that is not being renewed.
pub fn expires_at(active: &Vec<Active>, renewing: &Vec<i64>) -> (r: Option<i64>)
    ensures
        r == earliest_expiry(active@, renewing@),
{
    let mut earliest: Option<i64> = None;
    let mut i: usize = 0;
    assert(active@.take(0) == Seq::<Active>::empty());
    while i < active.len()
        invariant
            i <= active@.len(),
            earliest == earliest_expiry(active@.take(i as int), renewing@),
        decreases active@.len() - i,
    {
        assert(active@.take(i + 1).drop_last() == active@.take(i as int));
        assert(active@.take(i + 1).last() == active@[i as int]);
        let row = &active[i];
        if !contains_id(renewing, row.id) {
            earliest = match earliest {
                Some(time) => if time <= row.expires_at {
                    Some(time)
                } else {
                    Some(row.expires_at)
                },
                None => Some(row.expires_at),
            };
        }
        i += 1;
    }
    assert(active@.take(i as int) == active@);
    earliest
}

/// Tells whether a subscription expires late enough for the margin, or before the Unix epoch.
pub open spec fn refreshable(expires_at: Option<i64>, renewal_margin: u64) -> bool {
    expires_at matches Some(time) ==> time < 0 || renewal_margin <= time
}

/// The time at which a subscription is to be renewed; one that expires before the Unix epoch, at
/// the epoch.
pub open spec fn refresh_tick(expires_at: Option<i64>, renewal_margin: u64) -> Option<u64> {
    match expires_at {
        Some(time) => if time < 0 {
            Some(0)
        } else {
            Some((time - renewal_margin) as u64)
        },
        None => None,
    }
}

/// The time up to which subscriptions expire that are renewed now: those whose time of renewal has
/// come, or comes within the tolerance.
pub open spec fn renewal_threshold(now: u64, renewal_margin: u64) -> int {
    now + renewal_margin + RENEW
}

/// Once its tick has come, the subscription that expires first and is not being renewed is among
/// those that are renewed.
pub proof fn due_subscription_is_renewed(
    active: Seq<Active>,
    renewing: Seq<i64>,
    renewal_margin: u64,
    now: u64,
)
    requires
        earliest_expiry(active, renewing) is Some,
        refreshable(earliest_expiry(active, renewing), renewal_margin),
        refresh_tick(earliest_expiry(active, renewing), renewal_margin)->0 <= now,
    ensures
        exists|i: int, j: int|
            0 <= i < active.len() && (#[trigger] active[i]).expires_at == earliest_expiry(
                active,
                renewing,
            )->0 && !renewing.contains(active[i].id) && 0 <= j < expiring(
                active,
                renewing,
                renewal_threshold(now, renewal_margin),
            ).len() && (#[trigger] expiring(
                active,
                renewing,
                renewal_threshold(now, renewal_margin),
            )[j]).id == active[i].id,
{
    let threshold = renewal_threshold(now, renewal_margin);
    let due = expiring(active, renewing, threshold);
    earliest_expiry_is_earliest(active, renewing);
    let earliest = earliest_expiry(active, renewing)->0;
    let i = choose|i: int|
        0 <= i < active.len() && (#[trigger] active[i]).expires_at == earliest
            && !renewing.contains(active[i].id);
    renewals_are_those_due(active, renewing, threshold, active[i].id);
    let j = choose|j: int| 0 <= j < due.len() && (#[trigger] due[j]).id == active[i].id;
    assert(due[j].id == active[i].id);
}

/// Once those that are due are being renewed, the next tick lies in the future, beyond the tolerance:
/// no renewal is waited for that has come already.
pub proof fn next_tick_follows_renewals(
    active: Seq<Active>,
    before: Seq<i64>,
    after: Seq<i64>,
    renewal_margin: u64,
    now: u64,
)
    requires
        forall|id: i64| before.contains(id) ==> #[trigger] after.contains(id),
        forall|i: int|
            0 <= i < expiring(active, before, renewal_threshold(now, renewal_margin)).len()
                ==> after.contains(
                (#[trigger] expiring(active, before, renewal_threshold(now, renewal_margin))[i]).id,
            ),
    ensures
        refreshable(earliest_expiry(active, after), renewal_margin),
        refresh_tick(earliest_expiry(active, after), renewal_margin) matches Some(tick) ==> now
            + RENEW < tick,
{
    let threshold = renewal_threshold(now, renewal_margin);
    let due = expiring(active, before, threshold);
    earliest_expiry_is_earliest(active, after);
    if let Some(earliest) = earliest_expiry(active, after) {
        let i = choose|i: int|
            0 <= i < active.len() && (#[trigger] active[i]).expires_at == earliest
                && !after.contains(active[i].id);
        let id = active[i].id;
        assert(!before.contains(id));
        if earliest <= threshold {
            renewals_are_those_due(active, before, threshold, id);
            let j = choose|j: int| 0 <= j < due.len() && (#[trigger] due[j]).id == id;
            assert(after.contains(due[j].id));
        }
    }
}

impl Service {
    /// Returns the subscriptions that are to be renewed now.
    pub fn renew_subscriptions(&self, active: &Vec<Active>, renewing: &Vec<i64>, now: u64) -> (r: Vec<
        Renewal,
    >)
        requires
            now + RENEW <= i64::MAX,
        ensures
            r@ == expiring(active@, renewing@, renewal_threshold(now, self.renewal_margin)),
    {
        let threshold: i128 = now as i128 + self.renewal_margin as i128 + RENEW as i128;
        let mut renewals: Vec<Renewal> = Vec::new();
        let mut i: usize = 0;
        assert(active@.take(0) == Seq::<Active>::empty());
        while i < active.len()
            invariant
                i <= active@.len(),
                renewals@ == expiring(active@.take(i as int), renewing@, threshold as int),
            decreases active@.len() - i,
        {
            assert(active@.take(i + 1).drop_last() == active@.take(i as int));
            assert(active@.take(i + 1).last() == active@[i as int]);
            let row = &active[i];
            if row.expires_at as i128 <= threshold && !contains_id(renewing, row.id) {
                renewals.push(Renewal { id: row.id, hub: row.hub.clone(), topic: row.topic.clone() });
            }
            i += 1;
        }
        assert(active@.take(i as int) == active@);
        renewals
    }

    /// Returns the request to subscribe.
    pub fn subscribe(&self, sub: &NewSubscription) -> (r: HubRequest)
        ensures
            r@ == subscribe_request(self.callback@, *sub),
    {
        hub::subscribe(&self.callback, sub)
    }

    /// Returns the statement that notes the renewal of a subscription by another, and the request
    /// to subscribe anew.
    pub fn renew(&self, id: i64, sub: &NewSubscription) -> (r: (Statement, HubRequest))
        ensures
            r.0 == (Statement::InsertRenewing { old: id, new: sub.id }),
            r.1@ == subscribe_request(self.callback@, *sub),
    {
        hub::renew(&self.callback, id, sub)
    }

    /// Returns the statement that deletes the subscriptions to a topic, and a request to
    /// unsubscribe for each of them, given by its ID and hub.
    pub fn unsubscribe_all(&self, topic: &str, subscriptions: &Vec<(i64, String)>) -> (r: (
        Statement,
        Vec<HubRequest>,
    ))
        ensures
            r.0@ == (StatementView::DeleteTopic { topic: topic@ }),
            r.1@.len() == subscriptions@.len(),
            forall|i: int|
                0 <= i < r.1@.len() ==> (#[trigger] r.1@[i])@ == unsubscribe_request(
                    self.callback@,
                    subscriptions@[i].0,
                    subscriptions@[i].1@,
                    topic@,
                ),
    {
        hub::unsubscribe_all(&self.callback, topic, subscriptions)
    }

    /// Returns the time at which the subscription that expires first is to be renewed.
    pub fn next_tick(&self, active: &Vec<Active>, renewing: &Vec<i64>) -> (r: Option<u64>)
        requires
            refreshable(earliest_expiry(active@, renewing@), self.renewal_margin),
        ensures
            r == refresh_tick(earliest_expiry(active@, renewing@), self.renewal_margin),
    {
        match expires_at(active, renewing) {
            Some(time) => if time < 0 {
                Some(0)
            } else {
                Some(self.refresh_time(time as u64))
            },
            None => None,
        }
    }

    /// Returns the statement that removes the subscriptions that never became active.
    pub fn remove_dangling_subscriptions(&self) -> (r: Statement)
        ensures
            r == Statement::DeleteDangling,
    {
        Statement::DeleteDangling
    }
}

impl Subscriber {
    /// Makes a subscriber whose first renewal is that of the subscription that expires first,
    /// whether it is being renewed or not.
    pub fn new(callback: Uri, renewal_margin: u64, active: &Vec<Active>) -> (r: Self)
        requires
            refreshable(earliest_expiry(active@, Seq::empty()), renewal_margin),
        ensures
            r.service.callback == callback,
            r.service.renewal_margin == renewal_margin,
            r.handle.tick() == refresh_tick(
                earliest_expiry(active@, Seq::empty()),
                renewal_margin,
            ),
    {
        let service = Service { callback, renewal_margin };
        let none: Vec<i64> = Vec::new();
        let first_tick = service.next_tick(active, &none);
        Subscriber { service, handle: Handle::new(first_tick) }
    }

    /// Returns the service that the hubs call.
    pub fn service(&self) -> (r: &Service)
        ensures
            *r == self.service,
    {
        &self.service
    }
}

/// Decides on the next update: what has been received, or the end once no connection is open or
/// can be opened any more. A failure to accept connections comes first.
pub fn next_update<T, E>(
    accepted: Poll<Result<(), E>>,
    received: Poll<Option<T>>,
    references: usize,
) -> (r: Poll<Option<Result<T, E>>>)
    ensures
        r == match (accepted, received) {
            (Poll::Ready(Err(e)), _) => Poll::Ready(Some(Err(e))),
            (_, Poll::Ready(Some(update))) => Poll::Ready(Some(Ok(update))),
            (_, Poll::Ready(None)) => Poll::Ready(None),
            (Poll::Ready(Ok(())), Poll::Pending) => if references == 1 {
                Poll::Ready(None)
            } else {
                Poll::Pending
            },
            (Poll::Pending, Poll::Pending) => Poll::Pending,
        },
{
    let incoming_done = match accepted {
        Poll::Ready(Err(e)) => return Poll::Ready(Some(Err(e))),
        Poll::Ready(Ok(())) => true,
        Poll::Pending => false,
    };
    match received {
        Poll::Ready(Some(update)) => Poll::Ready(Some(Ok(update))),
        Poll::Ready(None) => Poll::Ready(None),
        Poll::Pending => if incoming_done && references == 1 {
            Poll::Ready(None)
        } else {
            Poll::Pending
        },
    }
}

/// A subscription is renewed at the hub and for the topic that it has.
pub proof fn renewals_keep_hub_and_topic(
    active: Seq<Active>,
    renewing: Seq<i64>,
    threshold: int,
    i: int,
)
    requires
        0 <= i < expiring(active, renewing, threshold).len(),
    ensures
        exists|j: int|
            0 <= j < active.len() && (#[trigger] active[j]).id == expiring(
                active,
                renewing,
                threshold,
            )[i].id && active[j].hub == expiring(active, renewing, threshold)[i].hub
                && active[j].topic == expiring(active, renewing, threshold)[i].topic
                && active[j].expires_at <= threshold && !renewing.contains(active[j].id),
    decreases active.len(),
{
    let before = active.drop_last();
    let rest = expiring(before, renewing, threshold);
    if i < rest.len() {
        renewals_keep_hub_and_topic(before, renewing, threshold, i);
        let j = choose|j: int|
            0 <= j < before.len() && (#[trigger] before[j]).id == rest[i].id && before[j].hub
                == rest[i].hub && before[j].topic == rest[i].topic && before[j].expires_at
                <= threshold && !renewing.contains(before[j].id);
        assert(active[j] == before[j]);
    } else {
        assert(active[active.len() - 1] == active.last());
    }
}

/// Subscriptions that follow others are renewed behind them, each once.
pub proof fn renewals_keep_the_order(
    a: Seq<Active>,
    b: Seq<Active>,
    renewing: Seq<i64>,
    threshold: int,
)
    ensures
        expiring(a + b, renewing, threshold) == expiring(a, renewing, threshold) + expiring(
            b,
            renewing,
            threshold,
        ),
        b.len() == 1 && b[0].expires_at <= threshold && !renewing.contains(b[0].id) ==> expiring(
            b,
            renewing,
            threshold,
        ).len() == 1,
    decreases b.len(),
{
    if b.len() == 0 {
        assert(a + b == a);
        assert(expiring(a, renewing, threshold) + expiring(b, renewing, threshold) == expiring(
            a,
            renewing,
            threshold,
        ));
    } else {
        let before = b.drop_last();
        renewals_keep_the_order(a, before, renewing, threshold);
        assert((a + b).drop_last() == a + before);
        assert((a + b).last() == b.last());
        if b.len() == 1 {
            assert(before == Seq::<Active>::empty());
            assert(expiring(before, renewing, threshold) == Seq::<Renewal>::empty());
            assert(b.last() == b[0]);
        }
        assert(expiring(a + b, renewing, threshold) == expiring(a, renewing, threshold) + expiring(
            b,
            renewing,
            threshold,
        ));
    }
}

/// A subscription is to be renewed a margin before it expires; one that expired before the epoch, at
/// once; and none where nothing expires.
pub proof fn ticks_come_a_margin_before_the_expiry(time: i64, renewal_margin: u64)
    ensures
        refresh_tick(None, renewal_margin) is None,
        time < 0 ==> refresh_tick(Some(time), renewal_margin) == Some(0u64),
        0 <= time && renewal_margin <= time ==> {
            &&& refresh_tick(Some(time), renewal_margin) matches Some(tick)
            &&& tick + renewal_margin == time
        },
        refreshable(None, renewal_margin),
        refreshable(Some(time), renewal_margin) <==> time < 0 || renewal_margin <= time,
{
}

/// Nothing is renewed more than ten seconds before its time of renewal has come, and everything that is
/// not being renewed is by then.
pub proof fn renewals_are_neither_early_nor_late(
    active: Seq<Active>,
    renewing: Seq<i64>,
    renewal_margin: u64,
    now: u64,
    id: i64,
)
    ensures
        (exists|i: int|
            0 <= i < expiring(active, renewing, renewal_threshold(now, renewal_margin)).len() && (
            #[trigger] expiring(active, renewing, renewal_threshold(now, renewal_margin))[i]).id
                == id) <==> !renewing.contains(id) && exists|i: int|
            0 <= i < active.len() && (#[trigger] active[i]).id == id && active[i].expires_at
                - renewal_margin <= now + 10,
{
    let threshold = renewal_threshold(now, renewal_margin);
    renewals_are_those_due(active, renewing, threshold, id);
    if !renewing.contains(id) && exists|i: int|
        0 <= i < active.len() && (#[trigger] active[i]).id == id && active[i].expires_at
            - renewal_margin <= now + 10 {
        let i = choose|i: int|
            0 <= i < active.len() && (#[trigger] active[i]).id == id && active[i].expires_at
                - renewal_margin <= now + 10;
        assert(active[i].id == id && active[i].expires_at <= threshold && !renewing.contains(id));
    }
    if exists|i: int|
        0 <= i < active.len() && (#[trigger] active[i]).id == id && active[i].expires_at <= threshold
            && !renewing.contains(id) {
        let i = choose|i: int|
            0 <= i < active.len() && (#[trigger] active[i]).id == id && active[i].expires_at
                <= threshold && !renewing.contains(id);
        assert(active[i].id == id && active[i].expires_at - renewal_margin <= now + 10);
    }
}

} // verus!
