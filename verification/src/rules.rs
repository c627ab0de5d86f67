//! Rules by topic.

use std::collections::hash_map::Entry;
use std::collections::HashMap;

use vstd::prelude::*;
use vstd::std_specs::hash::*;
#[allow(unused_imports)]
use vstd::std_specs::iter::IteratorSpec;

use crate::pattern::Pattern;
#[allow(unused_imports)]
use crate::pattern::regex_matches;
use crate::twitter::Tweet;

verus! {

broadcast use vstd::std_specs::hash::group_hash_axioms;

/// The rules of each topic.
#[derive(Clone, Debug)]
pub struct RuleMap {
    /// By the ID of the Twitter user.
    map: HashMap<i64, RuleList>,
}

/// A source of posts.
#[derive(Copy, Clone, Debug, PartialEq, Eq, Hash, Structural)]
pub enum TopicId {
    Twitter(i64),
}

/// Where a post is sent.
#[derive(Copy, Clone, Debug, PartialEq, Eq, Hash, Structural)]
pub enum Outbox {
    Twitter(i64),
    Nowhere,
}

/// Where the posts of a topic go that a filter matches.
#[derive(Debug)]
pub struct Rule {
    filter: Filter,
    outbox: OutboxList,
}

/// What a post has to match, if anything.
#[derive(Debug)]
pub struct Filter {
    inner: Option<FilterInner>,
}

/// What a post has to match.
#[derive(Clone, Debug)]
struct FilterInner {
    title: Pattern,
    text: Option<Pattern>,
}

/// The outboxes of a rule.
#[verifier::external_body]
#[derive(Debug)]
pub struct OutboxList {
    inner: smallvec::SmallVec<[Outbox; 1]>,
}

/// The rules of a topic.
#[verifier::external_body]
#[derive(Debug)]
pub struct RuleList {
    inner: smallvec::SmallVec<[Rule; 1]>,
}

/// The outboxes in a list, in their order.
pub uninterp spec fn rule_outbox_items(list: OutboxList) -> Seq<Outbox>;

/// The rules in a list, in their order.
pub uninterp spec fn rule_items(list: RuleList) -> Seq<Rule>;

impl View for OutboxList {
    type V = Seq<Outbox>;

    open spec fn view(&self) -> Seq<Outbox> {
        rule_outbox_items(*self)
    }
}

impl View for RuleList {
    type V = Seq<RuleView>;

    open spec fn view(&self) -> Seq<RuleView> {
        rules_view(rule_items(*self))
    }
}

/// `smallvec::SmallVec::new`: an empty list.
#[verifier::external_body]
fn outbox_list_new() -> (r: OutboxList)
    ensures
        rule_outbox_items(r) == Seq::<Outbox>::empty(),
{
    OutboxList { inner: smallvec::SmallVec::new() }
}

/// `smallvec::SmallVec::push`: adds an item behind the others.
#[verifier::external_body]
fn outbox_list_push(list: &mut OutboxList, outbox: Outbox)
    ensures
        rule_outbox_items(*final(list)) == rule_outbox_items(*old(list)).push(outbox),
{
    list.inner.push(outbox)
}

/// `smallvec::SmallVec::as_slice`: the items in their order.
#[verifier::external_body]
fn outbox_list_as_slice(list: &OutboxList) -> (r: &[Outbox])
    ensures
        r@ == rule_outbox_items(*list),
{
    list.inner.as_slice()
}

/// `smallvec::SmallVec::new`: an empty list.
#[verifier::external_body]
fn rule_list_new() -> (r: RuleList)
    ensures
        rule_items(r) == Seq::<Rule>::empty(),
{
    RuleList { inner: smallvec::SmallVec::new() }
}

/// `smallvec::SmallVec::push`: adds an item behind the others.
#[verifier::external_body]
fn rule_list_push(list: &mut RuleList, rule: Rule)
    ensures
        rule_items(*final(list)) == rule_items(*old(list)).push(rule),
{
    list.inner.push(rule)
}

/// `smallvec::SmallVec::as_slice`: the items in their order.
#[verifier::external_body]
fn rule_list_as_slice(list: &RuleList) -> (r: &[Rule])
    ensures
        r@ == rule_items(*list),
{
    list.inner.as_slice()
}

/// The value of `Filter`: a pattern of titles, with one of texts where that is given.
pub type FilterView = Option<(Seq<char>, Option<Seq<char>>)>;

/// The value of `Rule`.
pub struct RuleView {
    pub filter: FilterView,
    pub outbox: Seq<Outbox>,
}

impl View for Filter {
    type V = FilterView;

    closed spec fn view(&self) -> FilterView {
        match self.inner {
            Some(inner) => Some(
                (
                    inner.title@,
                    match inner.text {
                        Some(text) => Some(text@),
                        None => None,
                    },
                ),
            ),
            None => None,
        }
    }
}

impl View for Rule {
    type V = RuleView;

    closed spec fn view(&self) -> RuleView {
        RuleView { filter: self.filter@, outbox: self.outbox@ }
    }
}

/// The values of rules.
pub open spec fn rules_view(rules: Seq<Rule>) -> Seq<RuleView> {
    Seq::new(rules.len(), |i: int| rules[i]@)
}

impl View for RuleMap {
    type V = Map<i64, Seq<RuleView>>;

    closed spec fn view(&self) -> Map<i64, Seq<RuleView>> {
        Map::new(|user: i64| self.map@.contains_key(user), |user: i64| self.map@[user]@)
    }
}

/// Tells whether a filter matches a Tweet.
pub open spec fn filter_matches(filter: FilterView, tweet: Tweet) -> bool {
    match filter {
        Some((title, text)) => {
            ||| regex_matches(title, tweet.text@)
            ||| text is Some && regex_matches(text->0, tweet.text@)
        },
        None => true,
    }
}

/// The outboxes of the rules whose filters match a Tweet, in their order.
pub open spec fn matching_outboxes(rules: Seq<RuleView>, tweet: Tweet) -> Seq<Outbox>
    decreases rules.len(),
{
    if rules.len() == 0 {
        Seq::empty()
    } else {
        let rest = matching_outboxes(rules.drop_last(), tweet);
        if filter_matches(rules.last().filter, tweet) {
            rest + rules.last().outbox
        } else {
            rest
        }
    }
}

/// The rules of some topics, in the order of the topics.
pub open spec fn rules_of(map: Map<i64, Seq<RuleView>>, users: Seq<i64>) -> Seq<RuleView>
    decreases users.len(),
{
    if users.len() == 0 {
        Seq::empty()
    } else {
        rules_of(map, users.drop_last()) + map[users.last()]
    }
}

/// The outboxes of rules, in their order.
pub open spec fn outboxes_of(rules: Seq<RuleView>) -> Seq<Outbox>
    decreases rules.len(),
{
    if rules.len() == 0 {
        Seq::empty()
    } else {
        outboxes_of(rules.drop_last()) + rules.last().outbox
    }
}

/// The Twitter users of outboxes, in their order.
pub open spec fn outbox_users(outboxes: Seq<Outbox>) -> Seq<i64>
    decreases outboxes.len(),
{
    if outboxes.len() == 0 {
        Seq::empty()
    } else {
        let rest = outbox_users(outboxes.drop_last());
        match outboxes.last() {
            Outbox::Twitter(user) => rest.push(user),
            Outbox::Nowhere => rest,
        }
    }
}

/// Tells whether a sequence names each key of a map once.
pub open spec fn lists_keys(users: Seq<i64>, map: Map<i64, Seq<RuleView>>) -> bool {
    users.no_duplicates() && forall|user: i64| #[trigger]
        users.contains(user) <==> map.contains_key(user)
}

/// The rules with one more for a topic.
pub open spec fn with_rule(
    map: Map<i64, Seq<RuleView>>,
    user: i64,
    rule: RuleView,
) -> Map<i64, Seq<RuleView>> {
    let rules = if map.contains_key(user) {
        map[user]
    } else {
        Seq::empty()
    };
    map.insert(user, rules.push(rule))
}

/// The rules with one more for each of some topics.
pub open spec fn with_topics(
    map: Map<i64, Seq<RuleView>>,
    topics: Seq<TopicId>,
    rule: RuleView,
) -> Map<i64, Seq<RuleView>>
    decreases topics.len(),
{
    if topics.len() == 0 {
        map
    } else {
        with_rule(with_topics(map, topics.drop_last(), rule), topics.last()->0, rule)
    }
}

/// The rules that prototypes give, each with the topics that it is for.
pub open spec fn prototypes_rules(prototypes: Seq<(Vec<TopicId>, Rule)>) -> Map<i64, Seq<RuleView>>
    decreases prototypes.len(),
{
    if prototypes.len() == 0 {
        Map::empty()
    } else {
        let last = prototypes.last();
        with_topics(prototypes_rules(prototypes.drop_last()), last.0@, last.1@)
    }
}

impl Clone for OutboxList {
    fn clone(&self) -> (r: Self)
        ensures
            r@ == self@,
    {
        let mut r = OutboxList::new();
        r.extend(self.as_slice());
        assert(r@ == self@);
        r
    }
}

impl OutboxList {
    /// Makes an empty list.
    pub fn new() -> (r: Self)
        ensures
            r@ == Seq::<Outbox>::empty(),
    {
        outbox_list_new()
    }

    /// Adds outboxes behind the others.
    pub fn extend(&mut self, outboxes: &[Outbox])
        ensures
            final(self)@ == old(self)@ + outboxes@,
    {
        let mut i: usize = 0;
        assert(self@ == old(self)@ + outboxes@.take(0));
        while i < outboxes.len()
            invariant
                i <= outboxes@.len(),
                self@ == old(self)@ + outboxes@.take(i as int),
            decreases outboxes@.len() - i,
        {
            assert(outboxes@.take(i + 1) == outboxes@.take(i as int).push(outboxes@[i as int]));
            outbox_list_push(self, outboxes[i]);
            i += 1;
        }
        assert(outboxes@.take(i as int) == outboxes@);
    }

    /// Returns the outboxes in their order.
    pub fn as_slice(&self) -> (r: &[Outbox])
        ensures
            r@ == self@,
    {
        outbox_list_as_slice(self)
    }
}

impl Clone for RuleList {
    fn clone(&self) -> (r: Self)
        ensures
            r@ == self@,
    {
        let rules = self.as_slice();
        let mut r = rule_list_new();
        let mut i: usize = 0;
        assert(r@ == rules_view(rules@).take(0));
        while i < rules.len()
            invariant
                i <= rules@.len(),
                rules_view(rules@) == self@,
                r@ == rules_view(rules@).take(i as int),
            decreases rules@.len() - i,
        {
            r.push(rules[i].clone());
            assert(rules_view(rules@).take(i + 1) == rules_view(rules@).take(i as int).push(
                rules@[i as int]@,
            ));
            i += 1;
        }
        assert(rules_view(rules@).take(i as int) == rules_view(rules@));
        r
    }
}

impl RuleList {
    /// Adds a rule behind the others.
    pub fn push(&mut self, rule: Rule)
        ensures
            final(self)@ == old(self)@.push(rule@),
    {
        rule_list_push(self, rule);
        assert(self@ == old(self)@.push(rule@));
    }

    /// Returns the rules in their order.
    pub fn as_slice(&self) -> (r: &[Rule])
        ensures
            rules_view(r@) == self@,
    {
        rule_list_as_slice(self)
    }
}

impl Outbox {
    /// The outbox that an ID stands for.
    pub open spec fn of_id(id: i64) -> Outbox {
        if id == 0 {
            Outbox::Nowhere
        } else {
            Outbox::Twitter(id)
        }
    }

    /// Returns the outbox that an ID stands for; zero stands for none.
    pub fn from_id(id: i64) -> (r: Outbox)
        ensures
            r == Outbox::of_id(id),
    {
        if id == 0 {
            Outbox::Nowhere
        } else {
            Outbox::Twitter(id)
        }
    }
}

impl Default for Filter {
    fn default() -> (r: Self)
        ensures
            r@ is None,
    {
        Filter::any()
    }
}

impl Clone for Filter {
    fn clone(&self) -> (r: Self)
        ensures
            r@ == self@,
    {
        self.duplicate()
    }
}

impl Filter {
    /// Makes a filter that matches everything.
    pub fn any() -> (r: Self)
        ensures
            r@ is None,
    {
        Filter { inner: None }
    }

    /// Makes a filter of titles.
    pub fn from_title(title: Pattern) -> (r: Self)
        ensures
            r@ == Some((title@, None::<Seq<char>>)),
    {
        Filter { inner: Some(FilterInner { title, text: None }) }
    }

    /// Makes a filter of titles and texts.
    pub fn from_patterns(title: Pattern, text: Pattern) -> (r: Self)
        ensures
            r@ == Some((title@, Some(text@))),
    {
        Filter { inner: Some(FilterInner { title, text: Some(text) }) }
    }

    /// Tells whether the filter matches a Tweet.
    pub fn matches_tweet(&self, tweet: &Tweet) -> (r: bool)
        ensures
            r == filter_matches(self@, *tweet),
    {
        match &self.inner {
            Some(inner) => if inner.title.is_match(tweet.text.as_str()) {
                true
            } else {
                match &inner.text {
                    Some(text) => text.is_match(tweet.text.as_str()),
                    None => false,
                }
            },
            None => true,
        }
    }

    /// Returns the same filter.
    pub fn duplicate(&self) -> (r: Filter)
        ensures
            r@ == self@,
    {
        match &self.inner {
            Some(inner) => {
                let title = inner.title.duplicate();
                match &inner.text {
                    Some(text) => Filter::from_patterns(title, text.duplicate()),
                    None => Filter::from_title(title),
                }
            },
            None => Filter::any(),
        }
    }
}

impl Clone for Rule {
    fn clone(&self) -> (r: Self)
        ensures
            r@ == self@,
    {
        self.duplicate()
    }
}

impl Rule {
    /// Makes a rule without outboxes.
    pub fn new(filter: Filter) -> (r: Self)
        ensures
            r@ == (RuleView { filter: filter@, outbox: Seq::empty() }),
    {
        Rule { filter, outbox: outbox_list_new() }
    }

    /// Returns the filter.
    pub fn filter(&self) -> (r: &Filter)
        ensures
            r@ == self@.filter,
    {
        &self.filter
    }

    /// Returns the filter for it to be changed.
    pub fn filter_mut(&mut self) -> (r: &mut Filter)
        ensures
            r@ == old(self)@.filter,
            final(self)@ == (RuleView { filter: final(r)@, outbox: old(self)@.outbox }),
    {
        &mut self.filter
    }

    /// Returns the outboxes, in their order.
    pub fn outbox(&self) -> (r: &[Outbox])
        ensures
            r@ == self@.outbox,
    {
        self.outbox.as_slice()
    }

    /// Returns the outboxes for them to be changed.
    pub fn outbox_mut(&mut self) -> (r: &mut OutboxList)
        ensures
            r@ == old(self)@.outbox,
            final(self)@ == (RuleView { filter: old(self)@.filter, outbox: final(r)@ }),
    {
        &mut self.outbox
    }

    /// Returns the same rule.
    pub fn duplicate(&self) -> (r: Rule)
        ensures
            r@ == self@,
    {
        let outbox = self.outbox.clone();
        Rule { filter: self.filter.duplicate(), outbox }
    }
}

impl Default for RuleMap {
    fn default() -> (r: Self)
        ensures
            r@ == Map::<i64, Seq<RuleView>>::empty(),
    {
        RuleMap::new()
    }
}

impl RuleMap {
    /// Makes a map without rules.
    pub fn new() -> (r: Self)
        ensures
            r@ == Map::<i64, Seq<RuleView>>::empty(),
    {
        let r = RuleMap { map: HashMap::new() };
        assert(r@ == Map::<i64, Seq<RuleView>>::empty());
        r
    }

    /// Makes a map without rules and with room for some topics.
    pub fn with_capacity(cap: usize) -> (r: Self)
        ensures
            r@ == Map::<i64, Seq<RuleView>>::empty(),
    {
        let r = RuleMap { map: HashMap::with_capacity(cap) };
        assert(r@ == Map::<i64, Seq<RuleView>>::empty());
        r
    }

    /// Makes a map of rules, each with the topics that it is for.
    pub fn from_prototypes(prototypes: Vec<(Vec<TopicId>, Rule)>) -> (r: Self)
        ensures
            r@ == prototypes_rules(prototypes@),
    {
        let mut map = RuleMap::with_capacity(prototypes.len());
        let mut i: usize = 0;
        assert(prototypes@.take(0) == Seq::<(Vec<TopicId>, Rule)>::empty());
        while i < prototypes.len()
            invariant
                i <= prototypes@.len(),
                map@ == prototypes_rules(prototypes@.take(i as int)),
            decreases prototypes@.len() - i,
        {
            assert(prototypes@.take(i + 1).drop_last() == prototypes@.take(i as int));
            assert(prototypes@.take(i + 1).last() == prototypes@[i as int]);
            let ghost before = map@;
            let topics = &prototypes[i].0;
            let rule = &prototypes[i].1;
            let mut k: usize = 0;
            assert(topics@.take(0) == Seq::<TopicId>::empty());
            while k < topics.len()
                invariant
                    k <= topics@.len(),
                    map@ == with_topics(before, topics@.take(k as int), rule@),
                decreases topics@.len() - k,
            {
                assert(topics@.take(k + 1).drop_last() == topics@.take(k as int));
                assert(topics@.take(k + 1).last() == topics@[k as int]);
                map.insert(topics[k], rule.duplicate());
                k += 1;
            }
            assert(topics@.take(k as int) == topics@);
            i += 1;
        }
        assert(prototypes@.take(i as int) == prototypes@);
        map
    }

    /// Adds a rule to a topic, behind the others.
    pub fn insert(&mut self, topic: TopicId, rule: Rule)
        ensures
            final(self)@ == with_rule(old(self)@, topic->0, rule@),
    {
        let TopicId::Twitter(user) = topic;
        let none = rule_list_new();
        assert(none@ == Seq::<RuleView>::empty());
        let list = self.map.entry(user).or_insert(none);
        list.push(rule);
        assert(self@ == with_rule(old(self)@, user, rule@));
    }

    /// Returns the rules of a topic, in their order.
    pub fn get(&self, topic: &TopicId) -> (r: Option<&[Rule]>)
        ensures
            match r {
                Some(rules) => self@.contains_key(topic->0) && rules_view(rules@)
                    == self@[topic->0],
                None => !self@.contains_key(topic->0),
            },
    {
        let TopicId::Twitter(user) = topic;
        match self.map.get(user) {
            Some(list) => Some(list.as_slice()),
            None => None,
        }
    }

    /// Returns the rules of a topic for them to be changed.
    pub fn get_mut(&mut self, topic: &TopicId) -> (r: Option<&mut RuleList>)
        ensures
            match r {
                Some(rules) => {
                    &&& old(self)@.contains_key(topic->0)
                    &&& rules@ == old(self)@[topic->0]
                    &&& final(self)@ == old(self)@.insert(topic->0, final(rules)@)
                },
                None => !old(self)@.contains_key(topic->0) && final(self)@ == old(self)@,
            },
    {
        let TopicId::Twitter(user) = topic;
        match self.map.entry(*user) {
            Entry::Occupied(entry) => Some(entry.into_mut()),
            Entry::Vacant(_) => None,
        }
    }

    /// Tells whether a topic has rules.
    pub fn contains_topic(&self, topic: &TopicId) -> (r: bool)
        ensures
            r == self@.contains_key(topic->0),
    {
        let TopicId::Twitter(user) = topic;
        self.map.contains_key(user)
    }

    /// Removes the rules of a topic and returns them.
    pub fn remove(&mut self, topic: &TopicId) -> (r: Option<RuleList>)
        ensures
            final(self)@ == old(self)@.remove(topic->0),
            match r {
                Some(rules) => old(self)@.contains_key(topic->0) && rules@ == old(self)@[topic->0],
                None => !old(self)@.contains_key(topic->0),
            },
    {
        let TopicId::Twitter(user) = topic;
        let r = self.map.remove(user);
        assert(self@ == old(self)@.remove(*user));
        r
    }

    /// Returns the topics, in any order.
    pub fn topics(&self) -> (r: Vec<TopicId>)
        ensures
            lists_keys(Seq::new(r@.len(), |i: int| r@[i]->0), self@),
            forall|i: int| 0 <= i < r@.len() ==> (#[trigger] r@[i]) is Twitter,
    {
        let users = self.twitter_topics();
        let mut topics: Vec<TopicId> = Vec::new();
        let mut i: usize = 0;
        while i < users.len()
            invariant
                i <= users@.len(),
                topics@ == Seq::new(i as nat, |j: int| TopicId::Twitter(users@[j])),
            decreases users@.len() - i,
        {
            topics.push(TopicId::Twitter(users[i]));
            i += 1;
        }
        assert(Seq::new(topics@.len(), |i: int| topics@[i]->0) == users@);
        topics
    }

    /// Returns the Twitter users among the topics, in any order.
    pub fn twitter_topics(&self) -> (r: Vec<i64>)
        ensures
            lists_keys(r@, self@),
    {
        let mut users: Vec<i64> = Vec::new();
        let ghost order = spec_keys_iter(&self.map).remaining();
        for user in it: self.map.keys()
            invariant
                it.seq() == order,
                users@.len() == it.index(),
                forall|i: int| 0 <= i < users@.len() ==> users@[i] == *order[i],
        {
            users.push(*user);
        }
        proof {
            assert(users@ == order.unref());
            assert forall|user: i64| #[trigger]
                users@.contains(user) <==> self@.contains_key(user) by {
                assert(users@.to_set().contains(user) <==> users@.contains(user));
                assert(self@.contains_key(user) <==> self.map@.dom().contains(user));
            }
        }
        users
    }

    /// Returns the rules, topic by topic, with the topics in any order.
    pub fn rules(&self) -> (r: Vec<&Rule>)
        ensures
            exists|users: Seq<i64>| #[trigger]
                lists_keys(users, self@) && Seq::new(r@.len(), |i: int| r@[i]@) == rules_of(
                    self@,
                    users,
                ),
    {
        let users = self.twitter_topics();
        let mut rules: Vec<&Rule> = Vec::new();
        let mut i: usize = 0;
        assert(users@.take(0) == Seq::<i64>::empty());
        while i < users.len()
            invariant
                i <= users@.len(),
                lists_keys(users@, self@),
                Seq::new(rules@.len(), |j: int| rules@[j]@) == rules_of(
                    self@,
                    users@.take(i as int),
                ),
            decreases users@.len() - i,
        {
            assert(users@.take(i + 1).drop_last() == users@.take(i as int));
            assert(users@.take(i + 1).last() == users@[i as int]);
            assert(users@.contains(users@[i as int]));
            let ghost before = rules_of(self@, users@.take(i as int));
            if let Some(list) = self.get(&TopicId::Twitter(users[i])) {
                let ghost added = rules_view(list@);
                let mut k: usize = 0;
                while k < list.len()
                    invariant
                        k <= list@.len(),
                        added == rules_view(list@),
                        Seq::new(rules@.len(), |j: int| rules@[j]@) == before + added.take(
                            k as int,
                        ),
                    decreases list@.len() - k,
                {
                    let ghost old_rules = rules@;
                    rules.push(&list[k]);
                    assert(Seq::new(rules@.len(), |j: int| rules@[j]@) == Seq::new(
                        old_rules.len(),
                        |j: int| old_rules[j]@,
                    ).push(added[k as int]));
                    assert(added.take(k + 1) == added.take(k as int).push(added[k as int]));
                    k += 1;
                }
                assert(added.take(k as int) == added);
            }
            i += 1;
        }
        assert(users@.take(i as int) == users@);
        rules
    }

    /// Returns the outboxes of the rules, topic by topic, with the topics in any order.
    pub fn outboxes(&self) -> (r: Vec<Outbox>)
        ensures
            exists|users: Seq<i64>| #[trigger]
                lists_keys(users, self@) && r@ == outboxes_of(rules_of(self@, users)),
    {
        let rules = self.rules();
        let ghost view = Seq::new(rules@.len(), |i: int| rules@[i]@);
        let mut outboxes: Vec<Outbox> = Vec::new();
        let mut i: usize = 0;
        assert(view.take(0) == Seq::<RuleView>::empty());
        while i < rules.len()
            invariant
                i <= rules@.len(),
                view == Seq::new(rules@.len(), |i: int| rules@[i]@),
                outboxes@ == outboxes_of(view.take(i as int)),
            decreases rules@.len() - i,
        {
            assert(view.take(i + 1).drop_last() == view.take(i as int));
            assert(view.take(i + 1).last() == view[i as int]);
            push_outboxes(&mut outboxes, rules[i].outbox());
            i += 1;
        }
        assert(view.take(i as int) == view);
        outboxes
    }

    /// Returns the Twitter users of the outboxes, topic by topic, with the topics in any order.
    pub fn twitter_outboxes(&self) -> (r: Vec<i64>)
        ensures
            exists|users: Seq<i64>| #[trigger]
                lists_keys(users, self@) && r@ == outbox_users(outboxes_of(rules_of(self@, users))),
    {
        let outboxes = self.outboxes();
        let mut users: Vec<i64> = Vec::new();
        let mut i: usize = 0;
        assert(outboxes@.take(0) == Seq::<Outbox>::empty());
        while i < outboxes.len()
            invariant
                i <= outboxes@.len(),
                users@ == outbox_users(outboxes@.take(i as int)),
            decreases outboxes@.len() - i,
        {
            assert(outboxes@.take(i + 1).drop_last() == outboxes@.take(i as int));
            assert(outboxes@.take(i + 1).last() == outboxes@[i as int]);
            match outboxes[i] {
                Outbox::Twitter(user) => users.push(user),
                Outbox::Nowhere => {},
            }
            i += 1;
        }
        assert(outboxes@.take(i as int) == outboxes@);
        users
    }

    /// Returns the rules of a Tweet's topic that match the Tweet, as their outboxes.
    pub fn route_tweet(&self, tweet: &Tweet) -> (r: Vec<Outbox>)
        ensures
            r@ == (if self@.contains_key(tweet.user.id) {
                matching_outboxes(self@[tweet.user.id], *tweet)
            } else {
                Seq::empty()
            }),
    {
        let mut outboxes: Vec<Outbox> = Vec::new();
        if let Some(rules) = self.get(&TopicId::Twitter(tweet.user.id)) {
            let ghost view = rules_view(rules@);
            let mut i: usize = 0;
            assert(view.take(0) == Seq::<RuleView>::empty());
            while i < rules.len()
                invariant
                    i <= rules@.len(),
                    view == rules_view(rules@),
                    outboxes@ == matching_outboxes(view.take(i as int), *tweet),
                decreases rules@.len() - i,
            {
                assert(view.take(i + 1).drop_last() == view.take(i as int));
                assert(view.take(i + 1).last() == view[i as int]);
                if rules[i].filter().matches_tweet(tweet) {
                    push_outboxes(&mut outboxes, rules[i].outbox());
                }
                i += 1;
            }
            assert(view.take(i as int) == view);
        }
        outboxes
    }
}

/// Adds outboxes behind others.
fn push_outboxes(outboxes: &mut Vec<Outbox>, added: &[Outbox])
    ensures
        final(outboxes)@ == old(outboxes)@ + added@,
{
    let mut i: usize = 0;
    assert(outboxes@ == old(outboxes)@ + added@.take(0));
    while i < added.len()
        invariant
            i <= added@.len(),
            outboxes@ == old(outboxes)@ + added@.take(i as int),
        decreases added@.len() - i,
    {
        assert(added@.take(i + 1) == added@.take(i as int).push(added@[i as int]));
        outboxes.push(added[i]);
        i += 1;
    }
    assert(added@.take(i as int) == added@);
}

/// A filter of a rule matches a Tweet exactly where either of its patterns matches the text of the
/// Tweet; the filter that is empty matches every Tweet.
pub proof fn filters_of_rules_match(
    title: Seq<char>,
    text: Seq<char>,
    filter: FilterView,
    tweet: Tweet,
)
    ensures
        filter is None ==> filter_matches(filter, tweet),
        filter == Some((title, None::<Seq<char>>)) ==> (filter_matches(filter, tweet)
            <==> regex_matches(title, tweet.text@)),
        filter == Some((title, Some(text))) ==> (filter_matches(filter, tweet) <==> regex_matches(
            title,
            tweet.text@,
        ) || regex_matches(text, tweet.text@)),
{
}

/// A Tweet goes to exactly the outboxes of the rules of its author whose filters match it.
pub proof fn tweets_go_to_matching_rules(rules: Seq<RuleView>, tweet: Tweet, outbox: Outbox)
    ensures
        matching_outboxes(rules, tweet).contains(outbox) <==> exists|i: int|
            0 <= i < rules.len() && filter_matches((#[trigger] rules[i]).filter, tweet)
                && rules[i].outbox.contains(outbox),
    decreases rules.len(),
{
    if rules.len() > 0 {
        let rest = rules.drop_last();
        let n = rules.len() - 1;
        tweets_go_to_matching_rules(rest, tweet, outbox);
        crate::sets::contains_concat(matching_outboxes(rest, tweet), rules.last().outbox, outbox);
        assert(rules[n] == rules.last());
        if matching_outboxes(rest, tweet).contains(outbox) {
            let i = choose|i: int|
                0 <= i < rest.len() && filter_matches((#[trigger] rest[i]).filter, tweet)
                    && rest[i].outbox.contains(outbox);
            assert(rules[i] == rest[i]);
        }
        if exists|i: int|
            0 <= i < rules.len() && filter_matches((#[trigger] rules[i]).filter, tweet)
                && rules[i].outbox.contains(outbox) {
            let i = choose|i: int|
                0 <= i < rules.len() && filter_matches((#[trigger] rules[i]).filter, tweet)
                    && rules[i].outbox.contains(outbox);
            if i < n {
                assert(rest[i] == rules[i]);
            }
        }
    }
}

/// Rules that follow others send a Tweet to their outboxes behind those of the others; a single rule
/// whose filter matches, to each of its outboxes in their order.
pub proof fn outboxes_keep_the_order_of_rules(a: Seq<RuleView>, b: Seq<RuleView>, tweet: Tweet)
    ensures
        matching_outboxes(a + b, tweet) == matching_outboxes(a, tweet) + matching_outboxes(b, tweet),
        outboxes_of(a + b) == outboxes_of(a) + outboxes_of(b),
        b.len() == 1 && filter_matches(b[0].filter, tweet) ==> matching_outboxes(b, tweet)
            == b[0].outbox,
        b.len() == 1 && !filter_matches(b[0].filter, tweet) ==> matching_outboxes(b, tweet)
            == Seq::<Outbox>::empty(),
        b.len() == 1 ==> outboxes_of(b) == b[0].outbox,
        b.len() == 0 ==> outboxes_of(b) == Seq::<Outbox>::empty(),
    decreases b.len(),
{
    if b.len() == 0 {
        assert(a + b == a);
        assert(matching_outboxes(a, tweet) + matching_outboxes(b, tweet) == matching_outboxes(
            a,
            tweet,
        ));
        assert(outboxes_of(a) + outboxes_of(b) == outboxes_of(a));
    } else {
        let before = b.drop_last();
        outboxes_keep_the_order_of_rules(a, before, tweet);
        assert((a + b).drop_last() == a + before);
        assert((a + b).last() == b.last());
        if b.len() == 1 {
            assert(before == Seq::<RuleView>::empty());
            assert(b.last() == b[0]);
            assert(matching_outboxes(before, tweet) == Seq::<Outbox>::empty());
            assert(outboxes_of(before) == Seq::<Outbox>::empty());
        }
        assert(matching_outboxes(a + b, tweet) == matching_outboxes(a, tweet) + matching_outboxes(
            b,
            tweet,
        ));
        assert(outboxes_of(a + b) == outboxes_of(a) + outboxes_of(b));
    }
}

/// The users of outboxes are exactly those whom an outbox names.
pub proof fn outbox_users_are_named(outboxes: Seq<Outbox>, user: i64)
    ensures
        outbox_users(outboxes).contains(user) <==> outboxes.contains(Outbox::Twitter(user)),
    decreases outboxes.len(),
{
    if outboxes.len() > 0 {
        let rest = outboxes.drop_last();
        outbox_users_are_named(rest, user);
        assert(outboxes == rest.push(outboxes.last()));
        crate::sets::contains_push(rest, outboxes.last(), Outbox::Twitter(user));
        if let Outbox::Twitter(last) = outboxes.last() {
            crate::sets::contains_push(outbox_users(rest), last, user);
        }
    }
}

/// The rules of some topics are exactly those of each of the topics.
pub proof fn rules_are_of_topics(map: Map<i64, Seq<RuleView>>, users: Seq<i64>, rule: RuleView)
    ensures
        rules_of(map, users).contains(rule) <==> exists|i: int|
            0 <= i < users.len() && map[#[trigger] users[i]].contains(rule),
    decreases users.len(),
{
    if users.len() > 0 {
        let rest = users.drop_last();
        let n = users.len() - 1;
        rules_are_of_topics(map, rest, rule);
        crate::sets::contains_concat(rules_of(map, rest), map[users.last()], rule);
        assert(users[n] == users.last());
        if rules_of(map, rest).contains(rule) {
            let i = choose|i: int| 0 <= i < rest.len() && map[#[trigger] rest[i]].contains(rule);
            assert(users[i] == rest[i]);
        }
        if exists|i: int| 0 <= i < users.len() && map[#[trigger] users[i]].contains(rule) {
            let i = choose|i: int| 0 <= i < users.len() && map[#[trigger] users[i]].contains(rule);
            if i < n {
                assert(rest[i] == users[i]);
            }
        }
    }
}

/// The rules of a topic; none where it has no entry.
pub open spec fn topic_rules(map: Map<i64, Seq<RuleView>>, user: i64) -> Seq<RuleView> {
    if map.contains_key(user) {
        map[user]
    } else {
        Seq::empty()
    }
}

/// A rule that is added to a topic comes behind its others, and changes nothing for other topics.
pub proof fn inserted_rules_come_last(
    map: Map<i64, Seq<RuleView>>,
    user: i64,
    rule: RuleView,
    other: i64,
)
    ensures
        with_rule(map, user, rule).contains_key(user),
        topic_rules(with_rule(map, user, rule), user) == topic_rules(map, user).push(rule),
        other != user ==> topic_rules(with_rule(map, user, rule), other) == topic_rules(map, other)
            && with_rule(map, user, rule).contains_key(other) == map.contains_key(other),
{
}

/// A rule for more topics comes behind the others of each of these topics, once for each mention.
proof fn with_topics_adds_rules(
    map: Map<i64, Seq<RuleView>>,
    topics: Seq<TopicId>,
    rule: RuleView,
    user: i64,
)
    ensures
        topic_rules(with_topics(map, topics, rule), user) == topic_rules(map, user) + Seq::new(
            topics.to_multiset().count(TopicId::Twitter(user)),
            |i: int| rule,
        ),
    decreases topics.len(),
{
    broadcast use vstd::seq_lib::group_to_multiset_ensures;

    let n = topics.to_multiset().count(TopicId::Twitter(user));
    let after = topic_rules(with_topics(map, topics, rule), user);
    if topics.len() == 0 {
        assert(n == 0);
        assert(after == topic_rules(map, user) + Seq::new(n, |i: int| rule));
    } else {
        let before = topics.drop_last();
        with_topics_adds_rules(map, before, rule, user);
        assert(topics == before.push(topics.last()));
        assert(topics.to_multiset() == before.to_multiset().insert(topics.last()));
        assert(topics.last() == TopicId::Twitter(topics.last()->0));
        assert(after == topic_rules(map, user) + Seq::new(n, |i: int| rule));
    }
}

/// Each prototype adds its rule to each of its topics, behind the rules of the prototypes before it and
/// once for each time that it names the topic; it changes nothing for other topics.
pub proof fn prototypes_add_their_rules(prototypes: Seq<(Vec<TopicId>, Rule)>, user: i64)
    ensures
        prototypes.len() == 0 ==> topic_rules(prototypes_rules(prototypes), user).len() == 0,
        prototypes.len() > 0 ==> {
            let before = topic_rules(prototypes_rules(prototypes.drop_last()), user);
            let after = topic_rules(prototypes_rules(prototypes), user);
            let (topics, rule) = prototypes.last();
            &&& after.len() == before.len() + topics@.to_multiset().count(TopicId::Twitter(user))
            &&& before.is_prefix_of(after)
            &&& forall|i: int| before.len() <= i < after.len() ==> #[trigger] after[i] == rule@
        },
{
    if prototypes.len() > 0 {
        let before = topic_rules(prototypes_rules(prototypes.drop_last()), user);
        let after = topic_rules(prototypes_rules(prototypes), user);
        with_topics_adds_rules(
            prototypes_rules(prototypes.drop_last()),
            prototypes.last().0@,
            prototypes.last().1@,
            user,
        );
        assert(after.subrange(0, before.len() as int) == before);
    }
}

/// Topics are listed each once: a list of them has as many items as there are topics.
pub proof fn topics_are_listed_once(users: Seq<i64>, map: Map<i64, Seq<RuleView>>, i: int, j: int)
    requires
        lists_keys(users, map),
    ensures
        users.to_set() == map.dom(),
        users.len() == map.dom().len(),
        0 <= i < j < users.len() ==> users[i] != users[j],
{
    users.unique_seq_to_set();
    assert forall|user: i64| users.to_set().contains(user) <==> map.dom().contains(user) by {
        assert(users.contains(user) <==> map.contains_key(user));
    }
    assert(users.to_set() =~= map.dom());
}

} // verus!
