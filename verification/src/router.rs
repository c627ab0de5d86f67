//! The routes that posts take.

use std::sync::Arc;

use vstd::prelude::*;

use crate::feed::Entry;
use crate::manifest::{push_outboxes, Manifest, Outbox, Route, TopicId};
#[allow(unused_imports)]
use crate::manifest::{
    route_accepts_entry, route_accepts_tweet, rules_outboxes, rules_topics, topics_view, Rule,
    TopicIdView,
};
#[allow(unused_imports)]
use crate::sets::{contains_concat, contains_push};
use crate::twitter::Tweet;

verus! {

/// The routes of a topic.
#[verifier::external_body]
#[derive(Debug)]
pub struct RouteList {
    inner: smallvec::SmallVec<[Arc<Route>; 1]>,
}

/// The routes in a list, in their order.
pub uninterp spec fn route_items(list: RouteList) -> Seq<Arc<Route>>;

impl View for RouteList {
    type V = Seq<Arc<Route>>;

    open spec fn view(&self) -> Seq<Arc<Route>> {
        route_items(*self)
    }
}

/// `smallvec::SmallVec::new`: an empty list.
#[verifier::external_body]
fn route_list_new() -> (r: RouteList)
    ensures
        route_items(r) == Seq::<Arc<Route>>::empty(),
{
    RouteList { inner: smallvec::SmallVec::new() }
}

/// `smallvec::SmallVec::push`: adds an item behind the others.
#[verifier::external_body]
fn route_list_push(list: &mut RouteList, route: Arc<Route>)
    ensures
        route_items(*final(list)) == route_items(*old(list)).push(route),
{
    list.inner.push(route)
}

/// `smallvec::SmallVec::as_slice`: the items in their order.
#[verifier::external_body]
fn route_list_as_slice(list: &RouteList) -> (r: &[Arc<Route>])
    ensures
        r@ == route_items(*list),
{
    list.inner.as_slice()
}

impl Clone for RouteList {
    fn clone(&self) -> (r: Self)
        ensures
            r@ == self@,
    {
        let routes = self.as_slice();
        let mut r = route_list_new();
        let mut i: usize = 0;
        while i < routes.len()
            invariant
                i <= routes@.len(),
                r@ == routes@.take(i as int),
            decreases routes@.len() - i,
        {
            r.push(routes[i].clone());
            assert(routes@.take(i + 1) == routes@.take(i as int).push(routes@[i as int]));
            i += 1;
        }
        assert(routes@.take(i as int) == routes@);
        r
    }
}

impl RouteList {
    /// Adds a route behind the others.
    pub fn push(&mut self, route: Arc<Route>)
        ensures
            final(self)@ == old(self)@.push(route),
    {
        route_list_push(self, route)
    }

    /// Returns the routes in their order.
    pub fn as_slice(&self) -> (r: &[Arc<Route>])
        ensures
            r@ == self@,
    {
        route_list_as_slice(self)
    }
}

/// The routes of each topic.
#[derive(Clone, Debug)]
pub struct Router {
    entries: Vec<(TopicId, RouteList)>,
}

/// The position of the first entry of a topic.
spec fn position(entries: Seq<(TopicId, RouteList)>, topic: TopicIdView) -> Option<int>
    decreases entries.len(),
{
    if entries.len() == 0 {
        None
    } else if position(entries.drop_last(), topic) is Some {
        position(entries.drop_last(), topic)
    } else if entries.last().0@ == topic {
        Some(entries.len() - 1)
    } else {
        None
    }
}

/// Tells whether no topic has two entries.
spec fn distinct(entries: Seq<(TopicId, RouteList)>) -> bool {
    forall|i: int, j: int|
        0 <= i < j < entries.len() ==> (#[trigger] entries[i]).0@ != (#[trigger] entries[j]).0@
}

/// `position` is that of an entry of the topic, if there is one.
proof fn position_is_found(entries: Seq<(TopicId, RouteList)>, topic: TopicIdView)
    ensures
        match position(entries, topic) {
            Some(i) => 0 <= i < entries.len() && entries[i].0@ == topic,
            None => forall|i: int| 0 <= i < entries.len() ==> (#[trigger] entries[i]).0@ != topic,
        },
    decreases entries.len(),
{
    if entries.len() > 0 {
        let rest = entries.drop_last();
        position_is_found(rest, topic);
        assert forall|i: int| 0 <= i < entries.len() && position(entries, topic) is None implies (
        #[trigger] entries[i]).0@ != topic by {
            if i < rest.len() {
                assert(rest[i] == entries[i]);
            }
        }
    }
}

/// The position of an entry among entries of which no two have the same topic.
proof fn position_is_only(entries: Seq<(TopicId, RouteList)>, i: int)
    requires
        distinct(entries),
        0 <= i < entries.len(),
    ensures
        position(entries, entries[i].0@) == Some(i),
{
    let topic = entries[i].0@;
    position_is_found(entries, topic);
    match position(entries, topic) {
        Some(j) => {
            if i < j {
                assert(entries[i].0@ != entries[j].0@);
            }
            if j < i {
                assert(entries[j].0@ != entries[i].0@);
            }
        },
        None => {
            assert(entries[i].0@ != topic);
        },
    }
}

impl View for Router {
    type V = Map<TopicIdView, Seq<Arc<Route>>>;

    closed spec fn view(&self) -> Map<TopicIdView, Seq<Arc<Route>>> {
        entries_map(self.entries@)
    }
}

/// The routes of each topic among entries.
spec fn entries_map(entries: Seq<(TopicId, RouteList)>) -> Map<TopicIdView, Seq<Arc<Route>>> {
    Map::new(
        |topic: TopicIdView| position(entries, topic) is Some,
        |topic: TopicIdView| entries[position(entries, topic)->0].1@,
    )
}

/// The routes with one more for a topic.
pub open spec fn with_route(
    map: Map<TopicIdView, Seq<Arc<Route>>>,
    topic: TopicIdView,
    route: Arc<Route>,
) -> Map<TopicIdView, Seq<Arc<Route>>> {
    let routes = if map.contains_key(topic) {
        map[topic]
    } else {
        Seq::empty()
    };
    map.insert(topic, routes.push(route))
}

/// The routes with one more for each of some topics.
pub open spec fn with_topics(
    map: Map<TopicIdView, Seq<Arc<Route>>>,
    topics: Seq<TopicIdView>,
    route: Arc<Route>,
) -> Map<TopicIdView, Seq<Arc<Route>>>
    decreases topics.len(),
{
    if topics.len() == 0 {
        map
    } else {
        with_route(with_topics(map, topics.drop_last(), route), topics.last(), route)
    }
}

/// The routes of rules.
pub open spec fn rules_routes(rules: Seq<Rule>) -> Map<TopicIdView, Seq<Arc<Route>>>
    decreases rules.len(),
{
    if rules.len() == 0 {
        Map::empty()
    } else {
        with_topics(
            rules_routes(rules.drop_last()),
            topics_view(rules.last().topics@),
            rules.last().route,
        )
    }
}

/// The outboxes of the routes that let a Tweet through, in their order.
pub open spec fn tweet_outboxes(routes: Seq<Arc<Route>>, tweet: Tweet) -> Seq<Outbox>
    decreases routes.len(),
{
    if routes.len() == 0 {
        Seq::empty()
    } else {
        let rest = tweet_outboxes(routes.drop_last(), tweet);
        if route_accepts_tweet(*routes.last(), tweet) {
            rest + routes.last().outboxes()
        } else {
            rest
        }
    }
}

/// The outboxes of the routes that let an entry through, in their order.
pub open spec fn entry_outboxes(routes: Seq<Arc<Route>>, entry: Entry) -> Seq<Outbox>
    decreases routes.len(),
{
    if routes.len() == 0 {
        Seq::empty()
    } else {
        let rest = entry_outboxes(routes.drop_last(), entry);
        if route_accepts_entry(*routes.last(), entry) {
            rest + routes.last().outboxes()
        } else {
            rest
        }
    }
}

impl Default for Router {
    fn default() -> (r: Self)
        ensures
            r.wf(),
            r@ == Map::<TopicIdView, Seq<Arc<Route>>>::empty(),
    {
        Router::new()
    }
}

impl Router {
    /// Tells whether no topic has two entries.
    pub closed spec fn wf(&self) -> bool {
        distinct(self.entries@)
    }

    /// The routes of a topic; none where it has no entry.
    pub open spec fn routes(&self, topic: TopicIdView) -> Seq<Arc<Route>> {
        if self@.contains_key(topic) {
            self@[topic]
        } else {
            Seq::empty()
        }
    }

    /// Makes a router without routes.
    pub fn new() -> (r: Self)
        ensures
            r.wf(),
            r@ == Map::<TopicIdView, Seq<Arc<Route>>>::empty(),
    {
        let r = Router { entries: Vec::new() };
        assert(r@ == Map::<TopicIdView, Seq<Arc<Route>>>::empty());
        r
    }

    /// Makes a router without routes and with room for some topics.
    pub fn with_capacity(cap: usize) -> (r: Self)
        ensures
            r.wf(),
            r@ == Map::<TopicIdView, Seq<Arc<Route>>>::empty(),
    {
        let r = Router { entries: Vec::with_capacity(cap) };
        assert(r@ == Map::<TopicIdView, Seq<Arc<Route>>>::empty());
        r
    }

    /// Makes a router of the routes of a manifest.
    pub fn from_manifest(manifest: &Manifest) -> (r: Self)
        ensures
            r.wf(),
            r@ == rules_routes(manifest.rule@),
    {
        let ghost rules = manifest.rule@;
        let mut router = Router::new();
        let mut i: usize = 0;
        assert(rules.take(0) == Seq::<Rule>::empty());
        while i < manifest.rule.len()
            invariant
                i <= manifest.rule@.len(),
                rules == manifest.rule@,
                router.wf(),
                router@ == rules_routes(rules.take(i as int)),
            decreases manifest.rule@.len() - i,
        {
            assert(rules.take(i + 1).drop_last() == rules.take(i as int));
            assert(rules.take(i + 1).last() == rules[i as int]);
            let rule = &manifest.rule[i];
            let ghost topics = topics_view(rule.topics@);
            let ghost before = router@;
            let mut k: usize = 0;
            assert(topics.take(0) == Seq::<TopicIdView>::empty());
            while k < rule.topics.len()
                invariant
                    k <= rule.topics@.len(),
                    topics == topics_view(rule.topics@),
                    router.wf(),
                    router@ == with_topics(before, topics.take(k as int), rule.route),
                decreases rule.topics@.len() - k,
            {
                assert(topics.take(k + 1).drop_last() == topics.take(k as int));
                assert(topics.take(k + 1).last() == topics[k as int]);
                router.append(rule.topics[k].duplicate(), rule.route.clone());
                k += 1;
            }
            assert(topics.take(k as int) == topics);
            i += 1;
        }
        assert(rules.take(i as int) == rules);
        router
    }

    /// Returns the position of the entry of a topic.
    fn find(&self, topic: &TopicId) -> (r: Option<usize>)
        ensures
            match r {
                Some(i) => position(self.entries@, topic@) == Some(i as int)
                    && i < self.entries@.len(),
                None => position(self.entries@, topic@) is None,
            },
    {
        let mut found: Option<usize> = None;
        let mut i: usize = 0;
        while i < self.entries.len()
            invariant
                i <= self.entries@.len(),
                match found {
                    Some(k) => position(self.entries@.take(i as int), topic@) == Some(k as int)
                        && k < i,
                    None => position(self.entries@.take(i as int), topic@) is None,
                },
            decreases self.entries@.len() - i,
        {
            assert(self.entries@.take(i + 1).drop_last() == self.entries@.take(i as int));
            assert(self.entries@.take(i + 1).last() == self.entries@[i as int]);
            if found.is_none() && self.entries[i].0.same(topic) {
                found = Some(i);
            }
            i += 1;
        }
        assert(self.entries@.take(i as int) == self.entries@);
        found
    }

    /// Adds a route to a topic, behind the others.
    pub fn append(&mut self, topic: TopicId, route: Arc<Route>)
        requires
            old(self).wf(),
        ensures
            final(self).wf(),
            final(self)@ == with_route(old(self)@, topic@, route),
    {
        let ghost before = self.entries@;
        let ghost view = topic@;
        match self.find(&topic) {
            Some(i) => {
                let list = &mut self.entries[i].1;
                list.push(route);
                proof {
                    let after = self.entries@;
                    position_is_found(before, view);
                    changed_entry(before, i as int, after[i as int].1);
                    assert(after == before.update(
                        i as int,
                        (before[i as int].0, after[i as int].1),
                    ));
                }
            },
            None => {
                let mut list = route_list_new();
                list.push(route);
                self.entries.push((topic, list));
                proof {
                    let after = self.entries@;
                    position_is_found(before, view);
                    assert(after.drop_last() == before);
                    assert forall|i: int, j: int| 0 <= i < j < after.len() implies (
                    #[trigger] after[i]).0@ != (#[trigger] after[j]).0@ by {
                        assert(before[i] == after[i]);
                        if j < before.len() {
                            assert(before[j] == after[j]);
                        }
                    }
                    assert forall|t: TopicIdView| (#[trigger] position(before, t)) is Some implies
                        0 <= position(before, t)->0 < before.len() by {
                        position_is_found(before, t);
                    }
                    assert(self@ == with_route(old(self)@, view, route));
                }
            },
        }
    }

    /// Returns the routes of a topic, in their order.
    pub fn get(&self, topic: &TopicId) -> (r: Option<&[Arc<Route>]>)
        ensures
            match r {
                Some(routes) => self@.contains_key(topic@) && routes@ == self@[topic@],
                None => !self@.contains_key(topic@),
            },
    {
        match self.find(topic) {
            Some(i) => Some(self.entries[i].1.as_slice()),
            None => None,
        }
    }

    /// Returns the routes of a topic for them to be changed.
    pub fn get_mut(&mut self, topic: &TopicId) -> (r: Option<&mut RouteList>)
        requires
            old(self).wf(),
        ensures
            final(self).wf(),
            match r {
                Some(routes) => {
                    &&& old(self)@.contains_key(topic@)
                    &&& routes@ == old(self)@[topic@]
                    &&& final(self)@ == old(self)@.insert(topic@, final(routes)@)
                },
                None => !old(self)@.contains_key(topic@) && final(self)@ == old(self)@,
            },
    {
        let ghost before = self.entries@;
        match self.find(topic) {
            Some(i) => {
                let list = &mut self.entries[i].1;
                proof {
                    position_is_found(before, topic@);
                    changed_entry(before, i as int, *final(list));
                }
                Some(list)
            },
            None => None,
        }
    }

    /// Removes the routes of a topic and returns them.
    pub fn remove(&mut self, topic: &TopicId) -> (r: Option<RouteList>)
        requires
            old(self).wf(),
        ensures
            final(self).wf(),
            final(self)@ == old(self)@.remove(topic@),
            match r {
                Some(routes) => old(self)@.contains_key(topic@) && routes@ == old(self)@[topic@],
                None => !old(self)@.contains_key(topic@),
            },
    {
        let ghost before = self.entries@;
        match self.find(topic) {
            Some(i) => {
                let (_, list) = self.entries.remove(i);
                proof {
                    position_is_found(before, topic@);
                    removed_entry(before, i as int);
                    assert(self@ == old(self)@.remove(topic@));
                }
                Some(list)
            },
            None => {
                assert(self@ == old(self)@.remove(topic@));
                None
            },
        }
    }

    /// Returns the outboxes that a Tweet is sent to, in the order of the routes.
    pub fn route_tweet(&self, tweet: &Tweet) -> (r: Vec<Outbox>)
        ensures
            r@ == tweet_outboxes(self.routes(TopicIdView::Twitter(tweet.user.id)), *tweet),
            r@ == tweet_outboxes(
                topic_routes(self@, TopicIdView::Twitter(tweet.user.id)),
                *tweet,
            ),
    {
        let mut outboxes: Vec<Outbox> = Vec::new();
        if let Some(routes) = self.get(&TopicId::Twitter(tweet.user.id)) {
            let mut i: usize = 0;
            assert(routes@.take(0) == Seq::<Arc<Route>>::empty());
            while i < routes.len()
                invariant
                    i <= routes@.len(),
                    outboxes@ == tweet_outboxes(routes@.take(i as int), *tweet),
                decreases routes@.len() - i,
            {
                assert(routes@.take(i + 1).drop_last() == routes@.take(i as int));
                assert(routes@.take(i + 1).last() == routes@[i as int]);
                if routes[i].accepts_tweet(tweet) {
                    push_outboxes(&mut outboxes, routes[i].outbox());
                }
                i += 1;
            }
            assert(routes@.take(i as int) == routes@);
        }
        outboxes
    }

    /// Returns the outboxes that an entry of a feed is sent to, in the order of the routes.
    pub fn route_entry(&self, topic: &str, entry: &Entry) -> (r: Vec<Outbox>)
        ensures
            r@ == entry_outboxes(self.routes(TopicIdView::Feed(topic@)), *entry),
            r@ == entry_outboxes(topic_routes(self@, TopicIdView::Feed(topic@)), *entry),
    {
        let mut outboxes: Vec<Outbox> = Vec::new();
        if let Some(routes) = self.get(&TopicId::Feed(topic.to_owned())) {
            let mut i: usize = 0;
            assert(routes@.take(0) == Seq::<Arc<Route>>::empty());
            while i < routes.len()
                invariant
                    i <= routes@.len(),
                    outboxes@ == entry_outboxes(routes@.take(i as int), *entry),
                decreases routes@.len() - i,
            {
                assert(routes@.take(i + 1).drop_last() == routes@.take(i as int));
                assert(routes@.take(i + 1).last() == routes@[i as int]);
                if routes[i].accepts_entry(entry) {
                    push_outboxes(&mut outboxes, routes[i].outbox());
                }
                i += 1;
            }
            assert(routes@.take(i as int) == routes@);
        }
        outboxes
    }
}

/// Entries of the same topics, in the same order, are at the same positions.
proof fn same_topics_same_positions(
    a: Seq<(TopicId, RouteList)>,
    b: Seq<(TopicId, RouteList)>,
    topic: TopicIdView,
)
    requires
        a.len() == b.len(),
        forall|i: int| 0 <= i < a.len() ==> (#[trigger] a[i]).0@ == (#[trigger] b[i]).0@,
    ensures
        position(a, topic) == position(b, topic),
    decreases a.len(),
{
    if a.len() > 0 {
        assert forall|i: int| 0 <= i < a.len() - 1 implies (#[trigger] a.drop_last()[i]).0@ == (
        #[trigger] b.drop_last()[i]).0@ by {
            assert(a[i].0@ == b[i].0@);
        }
        same_topics_same_positions(a.drop_last(), b.drop_last(), topic);
    }
}

/// The routes of each topic once those of one entry were changed.
proof fn changed_entry(entries: Seq<(TopicId, RouteList)>, i: int, list: RouteList)
    requires
        distinct(entries),
        0 <= i < entries.len(),
    ensures
        distinct(entries.update(i, (entries[i].0, list))),
        entries_map(entries.update(i, (entries[i].0, list))) == entries_map(entries).insert(
            entries[i].0@,
            list@,
        ),
{
    let after = entries.update(i, (entries[i].0, list));
    position_is_only(entries, i);
    assert forall|t: TopicIdView| #[trigger] position(after, t) == position(entries, t) && (
    position(entries, t) matches Some(k) ==> 0 <= k < entries.len() && entries[k].0@ == t) by {
        same_topics_same_positions(entries, after, t);
        position_is_found(entries, t);
    }
    assert(entries_map(after) == entries_map(entries).insert(entries[i].0@, list@));
}

/// Where the entries are that are left once one was removed.
proof fn removed_entry(entries: Seq<(TopicId, RouteList)>, i: int)
    requires
        distinct(entries),
        0 <= i < entries.len(),
    ensures
        distinct(entries.remove(i)),
        position(entries.remove(i), entries[i].0@) is None,
        forall|topic: TopicIdView| topic != entries[i].0@ ==> match #[trigger] position(
            entries.remove(i),
            topic,
        ) {
            Some(j) => position(entries, topic) is Some && 0 <= j < entries.remove(i).len()
                && entries.remove(i)[j] == entries[position(entries, topic)->0],
            None => position(entries, topic) is None,
        },
{
    let after = entries.remove(i);
    assert forall|j: int, k: int| 0 <= j < k < after.len() implies (#[trigger] after[j]).0@ != (
    #[trigger] after[k]).0@ by {
        let j0 = if j < i {
            j
        } else {
            j + 1
        };
        let k0 = if k < i {
            k
        } else {
            k + 1
        };
        assert(after[j] == entries[j0] && after[k] == entries[k0]);
    }
    position_is_found(after, entries[i].0@);
    if let Some(j) = position(after, entries[i].0@) {
        let j0 = if j < i {
            j
        } else {
            j + 1
        };
        assert(after[j] == entries[j0]);
        position_is_only(entries, j0);
        position_is_only(entries, i);
    }
    assert forall|topic: TopicIdView| topic != entries[i].0@ implies match #[trigger] position(
        after,
        topic,
    ) {
        Some(j) => position(entries, topic) is Some && 0 <= j < after.len() && after[j]
            == entries[position(entries, topic)->0],
        None => position(entries, topic) is None,
    } by {
        position_is_found(after, topic);
        position_is_found(entries, topic);
        match position(after, topic) {
            Some(j) => {
                let j0 = if j < i {
                    j
                } else {
                    j + 1
                };
                assert(after[j] == entries[j0]);
                position_is_only(entries, j0);
            },
            None => {
                if let Some(k0) = position(entries, topic) {
                    let k = if k0 < i {
                        k0
                    } else {
                        k0 - 1
                    };
                    assert(after[k] == entries[k0]);
                }
            },
        }
    }
}

/// Tells whether every outbox of the routes is one of `all`.
spec fn lead_to(map: Map<TopicIdView, Seq<Arc<Route>>>, all: Seq<Outbox>) -> bool {
    forall|topic: TopicIdView, i: int, outbox: Outbox|
        #![trigger map[topic][i].outboxes().contains(outbox)]
        map.contains_key(topic) && 0 <= i < map[topic].len()
            && map[topic][i].outboxes().contains(outbox) ==> all.contains(outbox)
}

/// Routes for more topics lead to the outboxes of the routes before and of the new one.
proof fn with_topics_lead_to(
    map: Map<TopicIdView, Seq<Arc<Route>>>,
    topics: Seq<TopicIdView>,
    route: Arc<Route>,
    all: Seq<Outbox>,
)
    requires
        lead_to(map, all),
        forall|outbox: Outbox| #[trigger]
            route.outboxes().contains(outbox) ==> all.contains(outbox),
    ensures
        lead_to(with_topics(map, topics, route), all),
        forall|topic: TopicIdView| #[trigger]
            with_topics(map, topics, route).contains_key(topic) <==> map.contains_key(topic)
                || topics.contains(topic),
    decreases topics.len(),
{
    if topics.len() > 0 {
        let rest = topics.drop_last();
        let last = topics.last();
        with_topics_lead_to(map, rest, route, all);
        let before = with_topics(map, rest, route);
        let after = with_topics(map, topics, route);
        assert(topics == rest.push(last));
        assert forall|topic: TopicIdView| #[trigger]
            after.contains_key(topic) <==> map.contains_key(topic) || topics.contains(topic) by {
            contains_push(rest, last, topic);
            assert(before.contains_key(topic) <==> map.contains_key(topic) || rest.contains(topic));
        }
        assert forall|topic: TopicIdView, i: int, outbox: Outbox|
            #![trigger after[topic][i].outboxes().contains(outbox)]
            after.contains_key(topic) && 0 <= i < after[topic].len()
                && after[topic][i].outboxes().contains(outbox) implies all.contains(outbox) by {
            if topic != last {
                assert(after[topic] == before[topic]);
                assert(before[topic][i].outboxes().contains(outbox));
            } else if before.contains_key(last) && i < before[last].len() {
                assert(after[last][i] == before[last][i]);
                assert(before[last][i].outboxes().contains(outbox));
            } else {
                assert(after[last][i] == route);
                assert(route.outboxes().contains(outbox));
            }
        }
    } else {
        assert(with_topics(map, topics, route) == map);
    }
}

/// The routes of rules lead to the outboxes of the rules.
proof fn rules_lead_to_their_outboxes(rules: Seq<Rule>)
    ensures
        lead_to(rules_routes(rules), rules_outboxes(rules)),
        forall|topic: TopicIdView| #[trigger]
            rules_routes(rules).contains_key(topic) <==> rules_topics(rules).contains(topic),
    decreases rules.len(),
{
    if rules.len() > 0 {
        let rest = rules.drop_last();
        let last = rules.last();
        rules_lead_to_their_outboxes(rest);
        let map = rules_routes(rest);
        let all = rules_outboxes(rules);
        assert forall|topic: TopicIdView, i: int, outbox: Outbox|
            #![trigger map[topic][i].outboxes().contains(outbox)]
            map.contains_key(topic) && 0 <= i < map[topic].len()
                && map[topic][i].outboxes().contains(outbox) implies all.contains(outbox) by {
            contains_concat(rules_outboxes(rest), last.route.outboxes(), outbox);
        }
        assert forall|outbox: Outbox| #[trigger]
            last.route.outboxes().contains(outbox) implies all.contains(outbox) by {
            contains_concat(rules_outboxes(rest), last.route.outboxes(), outbox);
        }
        with_topics_lead_to(map, topics_view(last.topics@), last.route, all);
        assert forall|topic: TopicIdView| #[trigger]
            rules_routes(rules).contains_key(topic) <==> rules_topics(rules).contains(topic) by {
            contains_concat(rules_topics(rest), topics_view(last.topics@), topic);
            assert(map.contains_key(topic) <==> rules_topics(rest).contains(topic));
        }
    }
}

/// A router made of a manifest has routes for exactly the topics of the manifest.
pub proof fn router_has_the_topics_of_its_manifest(manifest: Manifest, topic: TopicIdView)
    ensures
        rules_routes(manifest.rule@).contains_key(topic) <==> manifest.all_topics().contains(topic),
{
    rules_lead_to_their_outboxes(manifest.rule@);
}

/// Whatever outbox a Tweet is sent to by the routes of a manifest is an outbox of the manifest.
pub proof fn tweets_go_to_outboxes_of_the_manifest(
    manifest: Manifest,
    topic: TopicIdView,
    tweet: Tweet,
    outbox: Outbox,
)
    requires
        rules_routes(manifest.rule@).contains_key(topic),
    ensures
        tweet_outboxes(rules_routes(manifest.rule@)[topic], tweet).contains(outbox)
            ==> manifest.all_outboxes().contains(outbox),
{
    rules_lead_to_their_outboxes(manifest.rule@);
    tweet_outboxes_are_of_routes(rules_routes(manifest.rule@)[topic], tweet, outbox);
}

/// Whatever outbox an entry is sent to by the routes of a manifest is an outbox of the manifest.
pub proof fn entries_go_to_outboxes_of_the_manifest(
    manifest: Manifest,
    topic: TopicIdView,
    entry: Entry,
    outbox: Outbox,
)
    requires
        rules_routes(manifest.rule@).contains_key(topic),
    ensures
        entry_outboxes(rules_routes(manifest.rule@)[topic], entry).contains(outbox)
            ==> manifest.all_outboxes().contains(outbox),
{
    rules_lead_to_their_outboxes(manifest.rule@);
    entry_outboxes_are_of_routes(rules_routes(manifest.rule@)[topic], entry, outbox);
}

/// An outbox that a Tweet is sent to is that of a route that lets the Tweet through.
pub proof fn tweet_outboxes_are_of_routes(routes: Seq<Arc<Route>>, tweet: Tweet, outbox: Outbox)
    ensures
        tweet_outboxes(routes, tweet).contains(outbox) <==> exists|i: int|
            0 <= i < routes.len() && route_accepts_tweet(*#[trigger] routes[i], tweet)
                && routes[i].outboxes().contains(outbox),
    decreases routes.len(),
{
    if routes.len() > 0 {
        let rest = routes.drop_last();
        tweet_outboxes_are_of_routes(rest, tweet, outbox);
        contains_concat(tweet_outboxes(rest, tweet), routes.last().outboxes(), outbox);
        if tweet_outboxes(rest, tweet).contains(outbox) {
            let i = choose|i: int|
                0 <= i < rest.len() && route_accepts_tweet(*#[trigger] rest[i], tweet)
                    && rest[i].outboxes().contains(outbox);
            assert(routes[i] == rest[i]);
        }
        if exists|i: int|
            0 <= i < routes.len() && route_accepts_tweet(*#[trigger] routes[i], tweet)
                && routes[i].outboxes().contains(outbox) {
            let i = choose|i: int|
                0 <= i < routes.len() && route_accepts_tweet(*#[trigger] routes[i], tweet)
                    && routes[i].outboxes().contains(outbox);
            if i < rest.len() {
                assert(rest[i] == routes[i]);
            }
        }
        assert(routes[routes.len() - 1] == routes.last());
    }
}

/// An outbox that an entry is sent to is that of a route that lets the entry through.
pub proof fn entry_outboxes_are_of_routes(routes: Seq<Arc<Route>>, entry: Entry, outbox: Outbox)
    ensures
        entry_outboxes(routes, entry).contains(outbox) <==> exists|i: int|
            0 <= i < routes.len() && route_accepts_entry(*#[trigger] routes[i], entry)
                && routes[i].outboxes().contains(outbox),
    decreases routes.len(),
{
    if routes.len() > 0 {
        let rest = routes.drop_last();
        entry_outboxes_are_of_routes(rest, entry, outbox);
        contains_concat(entry_outboxes(rest, entry), routes.last().outboxes(), outbox);
        if entry_outboxes(rest, entry).contains(outbox) {
            let i = choose|i: int|
                0 <= i < rest.len() && route_accepts_entry(*#[trigger] rest[i], entry)
                    && rest[i].outboxes().contains(outbox);
            assert(routes[i] == rest[i]);
        }
        if exists|i: int|
            0 <= i < routes.len() && route_accepts_entry(*#[trigger] routes[i], entry)
                && routes[i].outboxes().contains(outbox) {
            let i = choose|i: int|
                0 <= i < routes.len() && route_accepts_entry(*#[trigger] routes[i], entry)
                    && routes[i].outboxes().contains(outbox);
            if i < rest.len() {
                assert(rest[i] == routes[i]);
            }
        }
        assert(routes[routes.len() - 1] == routes.last());
    }
}

/// The routes of a topic; none where it has no entry.
pub open spec fn topic_routes(
    map: Map<TopicIdView, Seq<Arc<Route>>>,
    topic: TopicIdView,
) -> Seq<Arc<Route>> {
    if map.contains_key(topic) {
        map[topic]
    } else {
        Seq::empty()
    }
}

/// A route for more topics comes behind the others of each of these topics, once for each mention.
proof fn with_topics_adds_routes(
    map: Map<TopicIdView, Seq<Arc<Route>>>,
    topics: Seq<TopicIdView>,
    route: Arc<Route>,
    topic: TopicIdView,
)
    requires
        map.contains_key(topic) <==> topic_routes(map, topic).len() > 0,
    ensures
        topic_routes(with_topics(map, topics, route), topic) == topic_routes(map, topic) + Seq::new(
            topics.to_multiset().count(topic),
            |i: int| route,
        ),
        with_topics(map, topics, route).contains_key(topic) <==> topic_routes(
            with_topics(map, topics, route),
            topic,
        ).len() > 0,
    decreases topics.len(),
{
    broadcast use vstd::seq_lib::group_to_multiset_ensures;

    let n = topics.to_multiset().count(topic);
    let after = topic_routes(with_topics(map, topics, route), topic);
    if topics.len() == 0 {
        assert(n == 0);
        assert(after == topic_routes(map, topic) + Seq::new(n, |i: int| route));
    } else {
        let before = topics.drop_last();
        with_topics_adds_routes(map, before, route, topic);
        assert(topics == before.push(topics.last()));
        assert(topics.to_multiset() == before.to_multiset().insert(topics.last()));
        assert(after == topic_routes(map, topic) + Seq::new(n, |i: int| route));
    }
}

/// Each rule adds its route to each of its topics, behind the routes of the rules before it and once for
/// each time that it names the topic; it changes nothing for other topics. Without rules there are no
/// routes, and a topic without routes has no entry.
pub proof fn rules_add_their_routes(rules: Seq<Rule>, topic: TopicIdView)
    ensures
        rules_routes(rules).contains_key(topic) <==> topic_routes(rules_routes(rules), topic).len()
            > 0,
        rules.len() == 0 ==> topic_routes(rules_routes(rules), topic).len() == 0,
        rules.len() > 0 ==> {
            let before = topic_routes(rules_routes(rules.drop_last()), topic);
            let after = topic_routes(rules_routes(rules), topic);
            let topics = Seq::new(
                rules.last().topics@.len(),
                |i: int| rules.last().topics@[i]@,
            );
            &&& after.len() == before.len() + topics.to_multiset().count(topic)
            &&& before.is_prefix_of(after)
            &&& forall|i: int|
                before.len() <= i < after.len() ==> #[trigger] after[i] == rules.last().route
        },
    decreases rules.len(),
{
    if rules.len() > 0 {
        let before = topic_routes(rules_routes(rules.drop_last()), topic);
        let after = topic_routes(rules_routes(rules), topic);
        let topics = Seq::new(rules.last().topics@.len(), |i: int| rules.last().topics@[i]@);
        rules_add_their_routes(rules.drop_last(), topic);
        assert(topics == topics_view(rules.last().topics@));
        with_topics_adds_routes(
            rules_routes(rules.drop_last()),
            topics,
            rules.last().route,
            topic,
        );
        assert(after.subrange(0, before.len() as int) == before);
    }
}

/// The routes of a topic are exactly those of the rules that name the topic.
pub proof fn routes_are_of_rules(rules: Seq<Rule>, topic: TopicIdView, route: Arc<Route>)
    ensures
        topic_routes(rules_routes(rules), topic).contains(route) <==> exists|i: int, j: int|
            0 <= i < rules.len() && 0 <= j < rules[i].topics@.len()
                && #[trigger] rules[i].topics@[j]@ == topic && rules[i].route == route,
    decreases rules.len(),
{
    broadcast use vstd::seq_lib::group_to_multiset_ensures;

    rules_add_their_routes(rules, topic);
    if rules.len() > 0 {
        let rest = rules.drop_last();
        let n = rules.len() - 1;
        let before = topic_routes(rules_routes(rest), topic);
        let after = topic_routes(rules_routes(rules), topic);
        let topics = Seq::new(rules.last().topics@.len(), |i: int| rules.last().topics@[i]@);
        routes_are_of_rules(rest, topic, route);
        assert(rules[n] == rules.last());
        if after.contains(route) {
            let k = choose|k: int| 0 <= k < after.len() && after[k] == route;
            if k < before.len() {
                assert(before[k] == after[k]);
                assert(before.contains(route));
                let (i, j) = choose|i: int, j: int|
                    0 <= i < rest.len() && 0 <= j < rest[i].topics@.len()
                        && #[trigger] rest[i].topics@[j]@ == topic && rest[i].route == route;
                assert(rules[i].topics@[j]@ == topic);
            } else {
                assert(topics.to_multiset().count(topic) > 0);
                assert(topics.contains(topic));
                let j = choose|j: int| 0 <= j < topics.len() && topics[j] == topic;
                assert(rules[n].topics@[j]@ == topic);
            }
        }
        if exists|i: int, j: int|
            0 <= i < rules.len() && 0 <= j < rules[i].topics@.len()
                && #[trigger] rules[i].topics@[j]@ == topic && rules[i].route == route {
            let (i, j) = choose|i: int, j: int|
                0 <= i < rules.len() && 0 <= j < rules[i].topics@.len()
                    && #[trigger] rules[i].topics@[j]@ == topic && rules[i].route == route;
            if i < n {
                assert(rest[i].topics@[j]@ == topic);
                let k = choose|k: int| 0 <= k < before.len() && before[k] == route;
                assert(after[k] == before[k]);
            } else {
                assert(topics[j] == topic);
                assert(topics.contains(topic));
                assert(topics.to_multiset().count(topic) > 0);
                assert(after[before.len() as int] == route);
            }
        }
    }
}

/// A Tweet goes to exactly the outboxes of the rules that name its author and let it through.
pub proof fn tweets_are_routed_by_the_rules(manifest: Manifest, tweet: Tweet, outbox: Outbox)
    ensures
        tweet_outboxes(topic_routes(rules_routes(manifest.rule@), TopicIdView::Twitter(tweet.user.id)), tweet).contains(outbox)
            <==> exists|i: int, j: int|
            0 <= i < manifest.rule@.len() && 0 <= j < manifest.rule@[i].topics@.len()
                && #[trigger] manifest.rule@[i].topics@[j]@ == TopicIdView::Twitter(tweet.user.id) && route_accepts_tweet(
                *manifest.rule@[i].route,
                tweet,
            ) && manifest.rule@[i].route.outbox@.contains(outbox),
{
    let topic = TopicIdView::Twitter(tweet.user.id);
    let rules = manifest.rule@;
    let routes = topic_routes(rules_routes(rules), topic);
    tweet_outboxes_are_of_routes(routes, tweet, outbox);
    if tweet_outboxes(routes, tweet).contains(outbox) {
        let k = choose|k: int|
            0 <= k < routes.len() && route_accepts_tweet(*#[trigger] routes[k], tweet)
                && routes[k].outboxes().contains(outbox);
        routes_are_of_rules(rules, topic, routes[k]);
    }
    if exists|i: int, j: int|
        0 <= i < rules.len() && 0 <= j < rules[i].topics@.len()
            && #[trigger] rules[i].topics@[j]@ == topic && route_accepts_tweet(*rules[i].route, tweet)
            && rules[i].route.outbox@.contains(outbox) {
        let (i, j) = choose|i: int, j: int|
            0 <= i < rules.len() && 0 <= j < rules[i].topics@.len()
                && #[trigger] rules[i].topics@[j]@ == topic && route_accepts_tweet(*rules[i].route, tweet)
                && rules[i].route.outbox@.contains(outbox);
        routes_are_of_rules(rules, topic, rules[i].route);
        let k = choose|k: int| 0 <= k < routes.len() && routes[k] == rules[i].route;
        assert(route_accepts_tweet(*routes[k], tweet));
    }
}

/// An entry goes to exactly the outboxes of the rules that name its feed and let it through.
pub proof fn entries_are_routed_by_the_rules(manifest: Manifest, feed: Seq<char>, entry: Entry, outbox: Outbox)
    ensures
        entry_outboxes(topic_routes(rules_routes(manifest.rule@), TopicIdView::Feed(feed)), entry).contains(outbox)
            <==> exists|i: int, j: int|
            0 <= i < manifest.rule@.len() && 0 <= j < manifest.rule@[i].topics@.len()
                && #[trigger] manifest.rule@[i].topics@[j]@ == TopicIdView::Feed(feed) && route_accepts_entry(
                *manifest.rule@[i].route,
                entry,
            ) && manifest.rule@[i].route.outbox@.contains(outbox),
{
    let topic = TopicIdView::Feed(feed);
    let rules = manifest.rule@;
    let routes = topic_routes(rules_routes(rules), topic);
    entry_outboxes_are_of_routes(routes, entry, outbox);
    if entry_outboxes(routes, entry).contains(outbox) {
        let k = choose|k: int|
            0 <= k < routes.len() && route_accepts_entry(*#[trigger] routes[k], entry)
                && routes[k].outboxes().contains(outbox);
        routes_are_of_rules(rules, topic, routes[k]);
    }
    if exists|i: int, j: int|
        0 <= i < rules.len() && 0 <= j < rules[i].topics@.len()
            && #[trigger] rules[i].topics@[j]@ == topic && route_accepts_entry(*rules[i].route, entry)
            && rules[i].route.outbox@.contains(outbox) {
        let (i, j) = choose|i: int, j: int|
            0 <= i < rules.len() && 0 <= j < rules[i].topics@.len()
                && #[trigger] rules[i].topics@[j]@ == topic && route_accepts_entry(*rules[i].route, entry)
                && rules[i].route.outbox@.contains(outbox);
        routes_are_of_rules(rules, topic, rules[i].route);
        let k = choose|k: int| 0 <= k < routes.len() && routes[k] == rules[i].route;
        assert(route_accepts_entry(*routes[k], entry));
    }
}

/// Routes that follow others send a Tweet to their outboxes behind those of the others; a single route
/// that lets it through, to each of its outboxes in their order, and one that does not, to none.
pub proof fn tweet_outboxes_keep_the_order_of_routes(a: Seq<Arc<Route>>, b: Seq<Arc<Route>>, tweet: Tweet)
    ensures
        tweet_outboxes(a + b, tweet) == tweet_outboxes(a, tweet) + tweet_outboxes(b, tweet),
        b.len() == 1 && route_accepts_tweet(*b[0], tweet) ==> tweet_outboxes(b, tweet) == b[0].outbox@,
        b.len() == 1 && !route_accepts_tweet(*b[0], tweet) ==> tweet_outboxes(b, tweet) == Seq::<Outbox>::empty(),
    decreases b.len(),
{
    if b.len() == 0 {
        assert(a + b == a);
        assert(tweet_outboxes(a, tweet) + tweet_outboxes(b, tweet) == tweet_outboxes(a, tweet));
    } else {
        let before = b.drop_last();
        tweet_outboxes_keep_the_order_of_routes(a, before, tweet);
        assert((a + b).drop_last() == a + before);
        assert((a + b).last() == b.last());
        if b.len() == 1 {
            assert(before == Seq::<Arc<Route>>::empty());
            assert(b.last() == b[0]);
            assert(tweet_outboxes(before, tweet) == Seq::<Outbox>::empty());
        }
        assert(tweet_outboxes(a + b, tweet) == tweet_outboxes(a, tweet) + tweet_outboxes(b, tweet));
    }
}

/// Routes that follow others send an entry to their outboxes behind those of the others; a single route
/// that lets it through, to each of its outboxes in their order, and one that does not, to none.
pub proof fn entry_outboxes_keep_the_order_of_routes(a: Seq<Arc<Route>>, b: Seq<Arc<Route>>, entry: Entry)
    ensures
        entry_outboxes(a + b, entry) == entry_outboxes(a, entry) + entry_outboxes(b, entry),
        b.len() == 1 && route_accepts_entry(*b[0], entry) ==> entry_outboxes(b, entry) == b[0].outbox@,
        b.len() == 1 && !route_accepts_entry(*b[0], entry) ==> entry_outboxes(b, entry) == Seq::<Outbox>::empty(),
    decreases b.len(),
{
    if b.len() == 0 {
        assert(a + b == a);
        assert(entry_outboxes(a, entry) + entry_outboxes(b, entry) == entry_outboxes(a, entry));
    } else {
        let before = b.drop_last();
        entry_outboxes_keep_the_order_of_routes(a, before, entry);
        assert((a + b).drop_last() == a + before);
        assert((a + b).last() == b.last());
        if b.len() == 1 {
            assert(before == Seq::<Arc<Route>>::empty());
            assert(b.last() == b[0]);
            assert(entry_outboxes(before, entry) == Seq::<Outbox>::empty());
        }
        assert(entry_outboxes(a + b, entry) == entry_outboxes(a, entry) + entry_outboxes(b, entry));
    }
}

/// A route that is added to a topic comes behind its others, and changes nothing for other topics.
pub proof fn appended_routes_come_last(
    map: Map<TopicIdView, Seq<Arc<Route>>>,
    topic: TopicIdView,
    route: Arc<Route>,
    other: TopicIdView,
)
    ensures
        with_route(map, topic, route).contains_key(topic),
        topic_routes(with_route(map, topic, route), topic) == topic_routes(map, topic).push(route),
        other != topic ==> topic_routes(with_route(map, topic, route), other) == topic_routes(
            map,
            other,
        ) && with_route(map, topic, route).contains_key(other) == map.contains_key(other),
{
}

} // verus!
