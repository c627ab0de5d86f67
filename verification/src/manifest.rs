//! The manifest: which topics are routed to which outboxes.

use std::sync::Arc;

use vstd::prelude::*;

use crate::feed::Entry;
use crate::paths::resolve_database_uri;
#[allow(unused_imports)]
use crate::paths::resolved_uri;
use crate::pattern::Pattern;
#[allow(unused_imports)]
use crate::pattern::{regex_matches, regex_valid};
use crate::socket::Addr;
use crate::strings::str_eq;
#[allow(unused_imports)]
use crate::strings::opt_view;
use crate::time::{from_secs, NANOS_PER_SEC};
use crate::twitter::{Credentials, Tweet};
use crate::uri::Uri;
#[allow(unused_imports)]
use crate::uri::uri_parts;
use crate::value::Value;
#[allow(unused_imports)]
use crate::value::{natural_value, signed_value};

verus! {

/// The configuration of the program.
#[derive(Clone, Debug)]
pub struct Manifest {
    pub database_url: Option<String>,
    pub rule: Vec<Rule>,
    pub websub: Option<WebSub>,
    pub twitter: Option<Twitter>,
    pub skip_duplicate: bool,
}

/// A route with the topics that take it.
#[derive(Clone, Debug)]
pub struct Rule {
    pub route: Arc<Route>,
    pub topics: Vec<TopicId>,
}

/// Where the posts of a topic go.
#[derive(Clone, Debug)]
pub struct Route {
    pub filter: Option<Filter>,
    pub exclude: Option<Filter>,
    pub outbox: OutboxList,
}

/// Where a post is sent.
#[derive(Copy, Clone, Debug, PartialEq, Eq, Hash, Structural)]
pub enum Outbox {
    Twitter(i64),
}

/// What a post has to match.
#[derive(Clone, Debug)]
pub struct Filter {
    pub title: Pattern,
    pub text: Option<Pattern>,
}

/// A source of posts.
#[derive(Clone, Debug, PartialEq, Eq, Hash)]
pub enum TopicId {
    Feed(String),
    Twitter(i64),
}

/// The configuration of the WebSub subscriber.
#[derive(Clone, Debug)]
pub struct WebSub {
    pub callback: Uri,
    pub bind: Option<Addr>,
    /// In nanoseconds.
    pub renewal_margin: u128,
}

/// The configuration of the Twitter client.
#[derive(Clone, Debug)]
pub struct Twitter {
    pub client: Credentials<String>,
    pub user: i64,
    pub stream: bool,
    pub list: Option<TwitterList>,
}

/// A list whose timeline is read.
#[derive(Copy, Clone, Debug)]
pub struct TwitterList {
    pub id: u64,
    /// The time between two requests, in nanoseconds.
    pub interval: u128,
    /// How far back the timeline is read again, in nanoseconds.
    pub delay: u128,
}

/// The outboxes of a route.
#[verifier::external_body]
#[derive(Debug)]
pub struct OutboxList {
    inner: smallvec::SmallVec<[Outbox; 1]>,
}

/// The outboxes in a list, in their order.
pub uninterp spec fn outbox_items(list: OutboxList) -> Seq<Outbox>;

impl View for OutboxList {
    type V = Seq<Outbox>;

    open spec fn view(&self) -> Seq<Outbox> {
        outbox_items(*self)
    }
}

/// `smallvec::SmallVec::new`: an empty list.
#[verifier::external_body]
fn outbox_list_new() -> (r: OutboxList)
    ensures
        outbox_items(r) == Seq::<Outbox>::empty(),
{
    OutboxList { inner: smallvec::SmallVec::new() }
}

/// `smallvec::SmallVec::push`: adds an item behind the others.
#[verifier::external_body]
fn outbox_list_push(list: &mut OutboxList, outbox: Outbox)
    ensures
        outbox_items(*final(list)) == outbox_items(*old(list)).push(outbox),
{
    list.inner.push(outbox)
}

/// `smallvec::SmallVec::as_slice`: the items in their order.
#[verifier::external_body]
fn outbox_list_as_slice(list: &OutboxList) -> (r: &[Outbox])
    ensures
        r@ == outbox_items(*list),
{
    list.inner.as_slice()
}

impl Clone for OutboxList {
    fn clone(&self) -> (r: Self)
        ensures
            r@ == self@,
    {
        let outboxes = self.as_slice();
        let mut r = outbox_list_new();
        let mut i: usize = 0;
        while i < outboxes.len()
            invariant
                i <= outboxes@.len(),
                r@ == outboxes@.take(i as int),
            decreases outboxes@.len() - i,
        {
            outbox_list_push(&mut r, outboxes[i]);
            assert(outboxes@.take(i + 1) == outboxes@.take(i as int).push(outboxes@[i as int]));
            i += 1;
        }
        assert(outboxes@.take(i as int) == outboxes@);
        r
    }
}

impl OutboxList {
    /// Makes an empty list.
    pub fn new() -> (r: Self)
        ensures
            r@ == Seq::<Outbox>::empty(),
    {
        outbox_list_new()
    }

    /// Adds outboxes behind the others.
    pub fn extend(&mut self, outboxes: &Vec<Outbox>)
        ensures
            final(self)@ == old(self)@ + outboxes@,
    {
        let mut i: usize = 0;
        assert(self@ == old(self)@ + outboxes@.take(0));
        while i < outboxes.len()
            invariant
                i <= outboxes@.len(),
                self@ == old(self)@ + outboxes@.take(i as int),
            decreases outboxes@.len() - i,
        {
            assert(outboxes@.take(i + 1) == outboxes@.take(i as int).push(outboxes@[i as int]));
            outbox_list_push(self, outboxes[i]);
            i += 1;
        }
        assert(outboxes@.take(i as int) == outboxes@);
    }

    /// Returns the outboxes in their order.
    pub fn as_slice(&self) -> (r: &[Outbox])
        ensures
            r@ == self@,
    {
        outbox_list_as_slice(self)
    }
}

/// The value of `TopicId`.
pub enum TopicIdView {
    Feed(Seq<char>),
    Twitter(i64),
}

impl View for TopicId {
    type V = TopicIdView;

    open spec fn view(&self) -> TopicIdView {
        match self {
            TopicId::Feed(url) => TopicIdView::Feed(url@),
            TopicId::Twitter(user) => TopicIdView::Twitter(*user),
        }
    }
}

impl TopicId {
    /// Tells whether two topics are the same.
    pub fn same(&self, other: &TopicId) -> (r: bool)
        ensures
            r == (self@ == other@),
    {
        match (self, other) {
            (TopicId::Feed(a), TopicId::Feed(b)) => str_eq(a.as_str(), b.as_str()),
            (TopicId::Twitter(a), TopicId::Twitter(b)) => *a == *b,
            _ => false,
        }
    }

    /// Returns the same topic.
    pub fn duplicate(&self) -> (r: TopicId)
        ensures
            r@ == self@,
    {
        match self {
            TopicId::Feed(url) => TopicId::Feed(url.clone()),
            TopicId::Twitter(user) => TopicId::Twitter(*user),
        }
    }

    /// Reads a topic: the ID of a Twitter user or the URL of a feed.
    pub fn from_value(value: Value) -> (r: Option<TopicId>)
        ensures
            match (value, signed_value(value)) {
                (Value::Text(url), _) => r == Some(TopicId::Feed(url)),
                (_, Some(user)) => r == Some(TopicId::Twitter(user)),
                (_, None) => r is None,
            },
    {
        match value {
            Value::Text(url) => Some(TopicId::Feed(url)),
            _ => match value.as_i64() {
                Some(user) => Some(TopicId::Twitter(user)),
                None => None,
            },
        }
    }
}

impl Outbox {
    /// Reads an outbox: the ID of a Twitter user.
    pub fn from_value(value: &Value) -> (r: Option<Outbox>)
        ensures
            match signed_value(*value) {
                Some(user) => r == Some(Outbox::Twitter(user)),
                None => r is None,
            },
    {
        match value.as_i64() {
            Some(user) => Some(Outbox::Twitter(user)),
            None => None,
        }
    }
}

/// The outboxes that a value denotes: one, or a list of them.
pub open spec fn value_outboxes(value: Value) -> Option<Seq<Outbox>> {
    match value {
        Value::List(values) => if forall|i: int|
            0 <= i < values@.len() ==> signed_value(#[trigger] values@[i]) is Some {
            Some(Seq::new(values@.len(), |i: int| Outbox::Twitter(signed_value(values@[i])->0)))
        } else {
            None
        },
        _ => match signed_value(value) {
            Some(user) => Some(seq![Outbox::Twitter(user)]),
            None => None,
        },
    }
}

/// Reads the outboxes of a route: one, or a list of them.
pub fn de_outbox(value: &Value) -> (r: Option<OutboxList>)
    ensures
        match r {
            Some(list) => value_outboxes(*value) == Some(list@),
            None => value_outboxes(*value) is None,
        },
{
    let mut list = outbox_list_new();
    match value {
        Value::List(values) => {
            let mut i: usize = 0;
            while i < values.len()
                invariant
                    i <= values@.len(),
                    *value == Value::List(*values),
                    list@ == Seq::new(
                        i as nat,
                        |j: int| Outbox::Twitter(signed_value(values@[j])->0),
                    ),
                    forall|j: int| 0 <= j < i ==> signed_value(#[trigger] values@[j]) is Some,
                decreases values@.len() - i,
            {
                match Outbox::from_value(&values[i]) {
                    Some(outbox) => outbox_list_push(&mut list, outbox),
                    None => {
                        assert(signed_value(values@[i as int]) is None);
                        return None;
                    },
                }
                i += 1;
            }
            Some(list)
        },
        _ => match Outbox::from_value(value) {
            Some(outbox) => {
                outbox_list_push(&mut list, outbox);
                assert(list@ == seq![outbox]);
                Some(list)
            },
            None => None,
        },
    }
}

/// Why a callback is refused.
#[derive(Copy, Clone, Debug, PartialEq, Eq, Structural)]
pub enum CallbackError {
    NotAUri,
    MissingScheme,
    HasQuery,
}

impl CallbackError {
    /// Returns what to tell the user.
    pub fn message(self) -> (r: &'static str)
        ensures
            r@ == match self {
                CallbackError::NotAUri => "invalid URI"@,
                CallbackError::MissingScheme => "missing URI scheme"@,
                CallbackError::HasQuery => "`websub.callback` must not have a query part"@,
            },
    {
        match self {
            CallbackError::NotAUri => "invalid URI",
            CallbackError::MissingScheme => "missing URI scheme",
            CallbackError::HasQuery => "`websub.callback` must not have a query part",
        }
    }
}

/// Accepts a URI as a callback if it has a scheme and no query.
pub fn check_callback(uri: Uri) -> (r: Result<Uri, CallbackError>)
    ensures
        r == (if uri.scheme is None {
            Err(CallbackError::MissingScheme)
        } else if uri.query is Some {
            Err(CallbackError::HasQuery)
        } else {
            Ok(uri)
        }),
{
    if uri.scheme.is_none() {
        Err(CallbackError::MissingScheme)
    } else if uri.query.is_some() {
        Err(CallbackError::HasQuery)
    } else {
        Ok(uri)
    }
}

/// Reads a callback.
pub fn de_callback(text: &str) -> (r: Result<Uri, CallbackError>)
    ensures
        match (uri_parts(text@), r) {
            (None, Err(e)) => e == CallbackError::NotAUri,
            (Some(uri), Err(e)) => e == (if uri.scheme is None {
                CallbackError::MissingScheme
            } else {
                CallbackError::HasQuery
            }) && (uri.scheme is None || uri.query is Some),
            (Some(uri), Ok(callback)) => callback@ == uri && uri.scheme is Some
                && uri.query is None,
            (None, Ok(_)) => false,
        },
{
    match Uri::parse(text) {
        Some(uri) => check_callback(uri),
        None => Err(CallbackError::NotAUri),
    }
}

/// The duration that seconds and nanoseconds beyond them denote, in nanoseconds. The nanoseconds may
/// make up whole seconds, as long as the number of seconds stays in its range.
pub open spec fn duration_of_parts(secs: Value, nanos: Value) -> Option<int> {
    match (natural_value(secs), natural_value(nanos)) {
        (Some(secs), Some(nanos)) => if nanos <= u32::MAX && secs + nanos as int / NANOS_PER_SEC
            as int <= u64::MAX {
            Some(secs * NANOS_PER_SEC + nanos)
        } else {
            None
        },
        _ => None,
    }
}

/// The duration that a value denotes, in nanoseconds: a number of seconds, a list of seconds and
/// nanoseconds, or a table of both.
pub open spec fn duration_value(value: Value) -> Option<int> {
    match value {
        Value::List(parts) => if parts@.len() == 2 {
            duration_of_parts(parts@[0], parts@[1])
        } else {
            None
        },
        Value::Table(fields) => if fields@.len() != 2 {
            None
        } else if fields@[0].0@ == "secs"@ && fields@[1].0@ == "nanos"@ {
            duration_of_parts(fields@[0].1, fields@[1].1)
        } else if fields@[0].0@ == "nanos"@ && fields@[1].0@ == "secs"@ {
            duration_of_parts(fields@[1].1, fields@[0].1)
        } else {
            None
        },
        _ => match natural_value(value) {
            Some(secs) => Some(secs * NANOS_PER_SEC),
            None => None,
        },
    }
}

/// Returns the duration that seconds and nanoseconds beyond them denote.
fn duration_from_parts(secs: &Value, nanos: &Value) -> (r: Option<u128>)
    ensures
        match duration_of_parts(*secs, *nanos) {
            Some(duration) => r matches Some(n) && n == duration,
            None => r is None,
        },
{
    match (secs.as_u64(), nanos.as_u64()) {
        (Some(secs), Some(nanos)) => {
            if nanos <= u32::MAX as u64 && nanos as u128 / NANOS_PER_SEC <= (u64::MAX - secs) as u128 {
                Some(from_secs(secs) + nanos as u128)
            } else {
                None
            }
        },
        _ => None,
    }
}

/// Reads a duration given in seconds, or as seconds and nanoseconds.
pub fn de_duration_from_secs(value: &Value) -> (r: Option<u128>)
    ensures
        match duration_value(*value) {
            Some(duration) => r matches Some(nanos) && nanos == duration,
            None => r is None,
        },
{
    match value {
        Value::List(parts) => if parts.len() == 2 {
            duration_from_parts(&parts[0], &parts[1])
        } else {
            None
        },
        Value::Table(fields) => if fields.len() != 2 {
            None
        } else {
            let (first, second) = (&fields[0], &fields[1]);
            if str_eq(first.0.as_str(), "secs") && str_eq(second.0.as_str(), "nanos") {
                duration_from_parts(&first.1, &second.1)
            } else if str_eq(first.0.as_str(), "nanos") && str_eq(second.0.as_str(), "secs") {
                duration_from_parts(&second.1, &first.1)
            } else {
                None
            }
        },
        _ => match value.as_u64() {
            Some(secs) => Some(from_secs(secs)),
            None => None,
        },
    }
}

/// Returns the default of `WebSub::renewal_margin`.
pub fn one_hour() -> (r: u128)
    ensures
        r == 3600 * NANOS_PER_SEC,
{
    from_secs(60 * 60)
}

/// Returns the default of `TwitterList::interval` and `TwitterList::delay`. It is based on the rate
/// limit of the list timeline: 900 requests in 15 minutes.
pub fn one_sec() -> (r: u128)
    ensures
        r == NANOS_PER_SEC,
{
    from_secs(1)
}

/// Returns the default of `Twitter::stream`.
pub fn default_true() -> (r: bool)
    ensures
        r,
{
    true
}

/// The topics of rules, in their order.
pub open spec fn rules_topics(rules: Seq<Rule>) -> Seq<TopicIdView>
    decreases rules.len(),
{
    if rules.len() == 0 {
        Seq::empty()
    } else {
        rules_topics(rules.drop_last()) + topics_view(rules.last().topics@)
    }
}

/// The values of topics.
pub open spec fn topics_view(topics: Seq<TopicId>) -> Seq<TopicIdView> {
    Seq::new(topics.len(), |i: int| topics[i]@)
}

/// The feeds among topics, in their order.
pub open spec fn feeds_of(topics: Seq<TopicIdView>) -> Seq<Seq<char>>
    decreases topics.len(),
{
    if topics.len() == 0 {
        Seq::empty()
    } else {
        let rest = feeds_of(topics.drop_last());
        match topics.last() {
            TopicIdView::Feed(url) => rest.push(url),
            TopicIdView::Twitter(_) => rest,
        }
    }
}

/// The Twitter users among topics, in their order.
pub open spec fn users_of(topics: Seq<TopicIdView>) -> Seq<i64>
    decreases topics.len(),
{
    if topics.len() == 0 {
        Seq::empty()
    } else {
        let rest = users_of(topics.drop_last());
        match topics.last() {
            TopicIdView::Feed(_) => rest,
            TopicIdView::Twitter(user) => rest.push(user),
        }
    }
}

/// The outboxes of rules, in their order.
pub open spec fn rules_outboxes(rules: Seq<Rule>) -> Seq<Outbox>
    decreases rules.len(),
{
    if rules.len() == 0 {
        Seq::empty()
    } else {
        rules_outboxes(rules.drop_last()) + rules.last().route.outboxes()
    }
}

/// The Twitter users of outboxes.
pub open spec fn outbox_users(outboxes: Seq<Outbox>) -> Seq<i64> {
    Seq::new(outboxes.len(), |i: int| outboxes[i]->0)
}

/// The values of string slices.
pub open spec fn strs_view(v: Seq<&str>) -> Seq<Seq<char>> {
    Seq::new(v.len(), |i: int| v[i]@)
}

/// A topic is a feed among topics if and only if its URL is among the feeds.
pub proof fn feeds_are_topics(topics: Seq<TopicIdView>, url: Seq<char>)
    ensures
        feeds_of(topics).contains(url) <==> topics.contains(TopicIdView::Feed(url)),
    decreases topics.len(),
{
    if topics.len() > 0 {
        let rest = topics.drop_last();
        feeds_are_topics(rest, url);
        assert(topics == rest.push(topics.last()));
        assert(topics.contains(TopicIdView::Feed(url)) <==> rest.contains(TopicIdView::Feed(url))
            || topics.last() == TopicIdView::Feed(url)) by {
            crate::sets::contains_push(rest, topics.last(), TopicIdView::Feed(url));
        }
        if let TopicIdView::Feed(last) = topics.last() {
            crate::sets::contains_push(feeds_of(rest), last, url);
        }
    }
}

/// A topic is a user among topics if and only if their ID is among the users.
pub proof fn users_are_topics(topics: Seq<TopicIdView>, user: i64)
    ensures
        users_of(topics).contains(user) <==> topics.contains(TopicIdView::Twitter(user)),
    decreases topics.len(),
{
    if topics.len() > 0 {
        let rest = topics.drop_last();
        users_are_topics(rest, user);
        assert(topics == rest.push(topics.last()));
        crate::sets::contains_push(rest, topics.last(), TopicIdView::Twitter(user));
        if let TopicIdView::Twitter(last) = topics.last() {
            crate::sets::contains_push(users_of(rest), last, user);
        }
    }
}

/// Why a manifest is refused.
#[derive(Copy, Clone, Debug, PartialEq, Eq, Structural)]
pub enum ManifestError {
    /// There are Twitter topics but no credentials.
    TwitterTopics,
    /// There are Twitter outboxes but no credentials.
    TwitterOutboxes,
}

impl ManifestError {
    /// Returns what to tell the user.
    pub fn message(self) -> (r: &'static str)
        ensures
            r@ == match self {
                ManifestError::TwitterTopics =>
                    "the manifest has Twitter topics, but API credentials are not provided"@,
                ManifestError::TwitterOutboxes =>
                    "the manifest has Twitter outboxes, but API credentials are not provided"@,
            },
    {
        match self {
            ManifestError::TwitterTopics =>
                "the manifest has Twitter topics, but API credentials are not provided",
            ManifestError::TwitterOutboxes =>
                "the manifest has Twitter outboxes, but API credentials are not provided",
        }
    }
}

impl Default for Manifest {
    fn default() -> (r: Self)
        ensures
            r.database_url is None,
            r.rule@ == Seq::<Rule>::empty(),
            r.websub is None,
            r.twitter is None,
            !r.skip_duplicate,
    {
        Manifest::new()
    }
}

impl Manifest {
    /// The topics, in their order.
    pub open spec fn all_topics(&self) -> Seq<TopicIdView> {
        rules_topics(self.rule@)
    }

    /// The outboxes, in their order.
    pub open spec fn all_outboxes(&self) -> Seq<Outbox> {
        rules_outboxes(self.rule@)
    }

    /// What is wrong with the manifest: without credentials it has neither Twitter topics nor
    /// Twitter outboxes.
    pub open spec fn valid(&self) -> Result<(), ManifestError> {
        if self.twitter is None && users_of(self.all_topics()).len() > 0 {
            Err(ManifestError::TwitterTopics)
        } else if self.twitter is None && self.all_outboxes().len() > 0 {
            Err(ManifestError::TwitterOutboxes)
        } else {
            Ok(())
        }
    }

    /// Makes an empty manifest.
    pub fn new() -> (r: Self)
        ensures
            r.database_url is None,
            r.rule@ == Seq::<Rule>::empty(),
            r.websub is None,
            r.twitter is None,
            !r.skip_duplicate,
    {
        Manifest {
            database_url: None,
            rule: Vec::new(),
            websub: None,
            twitter: None,
            skip_duplicate: false,
        }
    }

    /// Resolves the paths of the manifest against a directory.
    pub fn resolve_paths(&mut self, base: &str)
        ensures
            final(self).rule == old(self).rule,
            final(self).websub == old(self).websub,
            final(self).twitter == old(self).twitter,
            final(self).skip_duplicate == old(self).skip_duplicate,
            opt_view(final(self).database_url) == match old(self).database_url {
                Some(url) => match resolved_uri(url@, base@) {
                    Some(new) => Some(new),
                    None => Some(url@),
                },
                None => None,
            },
    {
        let new = match &self.database_url {
            Some(url) => resolve_database_uri(url.as_str(), base),
            None => None,
        };
        if new.is_some() {
            self.database_url = new;
        }
    }

    /// Returns the URL of the database: that of the manifest, or else that of the environment, or
    /// else a file of its own.
    pub fn database_url(&self, env: Option<String>) -> (r: String)
        ensures
            r@ == match (self.database_url, env) {
                (Some(url), _) => url@,
                (None, Some(url)) => url@,
                (None, None) => "pipitor.sqlite3"@,
            },
    {
        match &self.database_url {
            Some(url) => url.clone(),
            None => match env {
                Some(url) => url,
                None => "pipitor.sqlite3".to_owned(),
            },
        }
    }

    /// Tells whether a topic is in the manifest.
    pub fn has_topic(&self, topic: &TopicId) -> (r: bool)
        ensures
            r == self.all_topics().contains(topic@),
    {
        let topics = self.topics();
        let mut i: usize = 0;
        while i < topics.len()
            invariant
                i <= topics@.len(),
                topics@.len() == self.all_topics().len(),
                forall|j: int| 0 <= j < topics@.len() ==> (#[trigger] topics@[j])@ == self.all_topics()[j],
                forall|j: int| 0 <= j < i ==> self.all_topics()[j] != topic@,
            decreases topics@.len() - i,
        {
            if topics[i].same(topic) {
                assert(self.all_topics()[i as int] == topic@);
                return true;
            }
            i += 1;
        }
        false
    }

    /// Returns the topics, in their order.
    pub fn topics(&self) -> (r: Vec<&TopicId>)
        ensures
            r@.len() == self.all_topics().len(),
            forall|i: int| 0 <= i < r@.len() ==> (#[trigger] r@[i])@ == self.all_topics()[i],
    {
        let mut topics: Vec<&TopicId> = Vec::new();
        let mut i: usize = 0;
        let ghost rules = self.rule@;
        assert(rules.take(0) == Seq::<Rule>::empty());
        while i < self.rule.len()
            invariant
                i <= self.rule@.len(),
                rules == self.rule@,
                topics@.len() == rules_topics(rules.take(i as int)).len(),
                forall|j: int|
                    0 <= j < topics@.len() ==> (#[trigger] topics@[j])@ == rules_topics(
                        rules.take(i as int),
                    )[j],
            decreases self.rule@.len() - i,
        {
            assert(rules.take(i + 1).drop_last() == rules.take(i as int));
            assert(rules.take(i + 1).last() == rules[i as int]);
            let ghost before = rules_topics(rules.take(i as int));
            let rule = &self.rule[i];
            let ghost added = topics_view(rule.topics@);
            let mut k: usize = 0;
            while k < rule.topics.len()
                invariant
                    k <= rule.topics@.len(),
                    added == topics_view(rule.topics@),
                    topics@.len() == before.len() + k,
                    forall|j: int|
                        0 <= j < topics@.len() ==> (#[trigger] topics@[j])@ == (before
                            + added)[j],
                decreases rule.topics@.len() - k,
            {
                topics.push(&rule.topics[k]);
                k += 1;
            }
            i += 1;
        }
        assert(rules.take(i as int) == rules);
        topics
    }

    /// Returns the URLs of the feeds among the topics, in their order.
    pub fn feed_topics(&self) -> (r: Vec<&str>)
        ensures
            strs_view(r@) == feeds_of(self.all_topics()),
    {
        let topics = self.topics();
        let ghost view = self.all_topics();
        let mut feeds: Vec<&str> = Vec::new();
        let mut i: usize = 0;
        assert(view.take(0) == Seq::<TopicIdView>::empty());
        while i < topics.len()
            invariant
                i <= topics@.len(),
                topics@.len() == view.len(),
                forall|j: int| 0 <= j < topics@.len() ==> (#[trigger] topics@[j])@ == view[j],
                strs_view(feeds@) == feeds_of(view.take(i as int)),
            decreases topics@.len() - i,
        {
            assert(view.take(i + 1).drop_last() == view.take(i as int));
            assert(view.take(i + 1).last() == view[i as int]);
            assert(topics@[i as int]@ == view[i as int]);
            let ghost before = feeds@;
            if let TopicId::Feed(url) = topics[i] {
                feeds.push(url.as_str());
                assert(strs_view(feeds@) == strs_view(before).push(url@));
            }
            i += 1;
        }
        assert(view.take(i as int) == view);
        feeds
    }

    /// Returns the Twitter users among the topics, in their order.
    pub fn twitter_topics(&self) -> (r: Vec<i64>)
        ensures
            r@ == users_of(self.all_topics()),
    {
        let topics = self.topics();
        let ghost view = self.all_topics();
        let mut users: Vec<i64> = Vec::new();
        let mut i: usize = 0;
        assert(view.take(0) == Seq::<TopicIdView>::empty());
        while i < topics.len()
            invariant
                i <= topics@.len(),
                topics@.len() == view.len(),
                forall|j: int| 0 <= j < topics@.len() ==> (#[trigger] topics@[j])@ == view[j],
                users@ == users_of(view.take(i as int)),
            decreases topics@.len() - i,
        {
            assert(view.take(i + 1).drop_last() == view.take(i as int));
            assert(view.take(i + 1).last() == view[i as int]);
            assert(topics@[i as int]@ == view[i as int]);
            if let TopicId::Twitter(user) = topics[i] {
                users.push(*user);
            }
            i += 1;
        }
        assert(view.take(i as int) == view);
        users
    }

    /// Returns the outboxes, in their order.
    pub fn outboxes(&self) -> (r: Vec<Outbox>)
        ensures
            r@ == self.all_outboxes(),
    {
        let ghost rules = self.rule@;
        let mut outboxes: Vec<Outbox> = Vec::new();
        let mut i: usize = 0;
        assert(rules.take(0) == Seq::<Rule>::empty());
        while i < self.rule.len()
            invariant
                i <= self.rule@.len(),
                rules == self.rule@,
                outboxes@ == rules_outboxes(rules.take(i as int)),
            decreases self.rule@.len() - i,
        {
            assert(rules.take(i + 1).drop_last() == rules.take(i as int));
            assert(rules.take(i + 1).last() == rules[i as int]);
            push_outboxes(&mut outboxes, self.rule[i].route.outbox());
            i += 1;
        }
        assert(rules.take(i as int) == rules);
        outboxes
    }

    /// Returns the Twitter users of the outboxes, in their order.
    pub fn twitter_outboxes(&self) -> (r: Vec<i64>)
        ensures
            r@ == outbox_users(self.all_outboxes()),
    {
        let outboxes = self.outboxes();
        let mut users: Vec<i64> = Vec::new();
        let mut i: usize = 0;
        while i < outboxes.len()
            invariant
                i <= outboxes@.len(),
                users@ == outbox_users(outboxes@.take(i as int)),
            decreases outboxes@.len() - i,
        {
            match outboxes[i] {
                Outbox::Twitter(user) => users.push(user),
            }
            i += 1;
        }
        assert(outboxes@.take(i as int) == outboxes@);
        users
    }

    /// Tells what is wrong with the manifest.
    pub fn validate(&self) -> (r: Result<(), ManifestError>)
        ensures
            r == self.valid(),
    {
        if self.twitter.is_none() {
            if self.twitter_topics().len() > 0 {
                return Err(ManifestError::TwitterTopics);
            } else if self.twitter_outboxes().len() > 0 {
                return Err(ManifestError::TwitterOutboxes);
            }
        }
        Ok(())
    }
}

/// Adds outboxes behind others.
pub(crate) fn push_outboxes(outboxes: &mut Vec<Outbox>, added: &[Outbox])
    ensures
        final(outboxes)@ == old(outboxes)@ + added@,
{
    let mut i: usize = 0;
    assert(outboxes@ == old(outboxes)@ + added@.take(0));
    while i < added.len()
        invariant
            i <= added@.len(),
            outboxes@ == old(outboxes)@ + added@.take(i as int),
        decreases added@.len() - i,
    {
        assert(added@.take(i + 1) == added@.take(i as int).push(added@[i as int]));
        outboxes.push(added[i]);
        i += 1;
    }
    assert(added@.take(i as int) == added@);
}

impl Route {
    /// The outboxes, in their order.
    pub open spec fn outboxes(&self) -> Seq<Outbox> {
        self.outbox@
    }

    /// Makes a route.
    pub fn new(filter: Option<Filter>, exclude: Option<Filter>, outbox: OutboxList) -> (r: Self)
        ensures
            r.filter == filter,
            r.exclude == exclude,
            r.outboxes() == outbox@,
    {
        Route { filter, exclude, outbox }
    }

    /// Returns the outboxes, in their order.
    pub fn outbox(&self) -> (r: &[Outbox])
        ensures
            r@ == self.outboxes(),
    {
        self.outbox.as_slice()
    }

    /// Returns the outboxes for them to be changed.
    pub fn outbox_mut(&mut self) -> (r: &mut OutboxList)
        ensures
            r@ == old(self).outboxes(),
            final(self).outboxes() == final(r)@,
            final(self).filter == old(self).filter,
            final(self).exclude == old(self).exclude,
    {
        &mut self.outbox
    }

    /// Tells whether the route lets an entry through.
    pub fn accepts_entry(&self, entry: &Entry) -> (r: bool)
        ensures
            r == route_accepts_entry(*self, *entry),
    {
        let filter = match &self.filter {
            Some(filter) => Some(filter.matches_entry(entry)),
            None => None,
        };
        let exclude = match &self.exclude {
            Some(exclude) => Some(exclude.matches_entry(entry)),
            None => None,
        };
        is_let_through(filter, exclude)
    }

    /// Tells whether the route lets a Tweet through.
    pub fn accepts_tweet(&self, tweet: &Tweet) -> (r: bool)
        ensures
            r == route_accepts_tweet(*self, *tweet),
    {
        let filter = match &self.filter {
            Some(filter) => Some(filter.matches_tweet(tweet)),
            None => None,
        };
        let exclude = match &self.exclude {
            Some(exclude) => Some(exclude.matches_tweet(tweet)),
            None => None,
        };
        is_let_through(filter, exclude)
    }
}

/// Tells whether a route lets a post through, given whether its filters match.
pub open spec fn let_through(filter: Option<bool>, exclude: Option<bool>) -> bool {
    filter != Some(false) && exclude != Some(true)
}

/// Tells whether a route lets a post through, given whether its filters match: the first one, if
/// there is one, has to match, and the second one must not.
pub fn is_let_through(filter: Option<bool>, exclude: Option<bool>) -> (r: bool)
    ensures
        r == let_through(filter, exclude),
{
    let included = match filter {
        Some(matched) => matched,
        None => true,
    };
    let excluded = match exclude {
        Some(matched) => matched,
        None => false,
    };
    included && !excluded
}

/// Tells whether a route lets an entry through.
pub open spec fn route_accepts_entry(route: Route, entry: Entry) -> bool {
    let_through(
        match route.filter {
            Some(filter) => Some(filter_matches_entry(filter, entry)),
            None => None,
        },
        match route.exclude {
            Some(exclude) => Some(filter_matches_entry(exclude, entry)),
            None => None,
        },
    )
}

/// Tells whether a route lets a Tweet through.
pub open spec fn route_accepts_tweet(route: Route, tweet: Tweet) -> bool {
    let_through(
        match route.filter {
            Some(filter) => Some(filter_matches_tweet(filter, tweet)),
            None => None,
        },
        match route.exclude {
            Some(exclude) => Some(filter_matches_tweet(exclude, tweet)),
            None => None,
        },
    )
}

/// Tells whether a pattern matches a text that is there.
pub open spec fn pattern_matches_opt(pattern: Pattern, text: Option<String>) -> bool {
    text matches Some(text) && regex_matches(pattern@, text@)
}

/// Tells whether a filter matches an entry: its title, or its content or summary.
pub open spec fn filter_matches_entry(filter: Filter, entry: Entry) -> bool {
    ||| pattern_matches_opt(filter.title, entry.title)
    ||| filter.text is Some && pattern_matches_opt(filter.text->0, entry.content)
    ||| filter.text is Some && pattern_matches_opt(filter.text->0, entry.summary)
}

/// Tells whether a filter matches a Tweet.
pub open spec fn filter_matches_tweet(filter: Filter, tweet: Tweet) -> bool {
    ||| regex_matches(filter.title@, tweet.text@)
    ||| filter.text is Some && regex_matches(filter.text->0@, tweet.text@)
}

/// Tells whether a pattern matches a text that is there.
fn matches_opt(pattern: &Pattern, text: &Option<String>) -> (r: bool)
    ensures
        r == pattern_matches_opt(*pattern, *text),
{
    match text {
        Some(text) => pattern.is_match(text.as_str()),
        None => false,
    }
}

impl Filter {
    /// Makes a filter of titles.
    pub fn from_title(title: Pattern) -> (r: Self)
        ensures
            r.title == title,
            r.text is None,
    {
        Filter { title, text: None }
    }

    /// Reads a filter of titles, and of texts where that is given.
    pub fn parse(title: &str, text: Option<&str>) -> (r: Option<Filter>)
        ensures
            r is Some <==> regex_valid(title@) && (text matches Some(text) ==> regex_valid(text@)),
            r matches Some(filter) ==> filter.title@ == title@ && match (filter.text, text) {
                (Some(pattern), Some(text)) => pattern@ == text@,
                (None, None) => true,
                _ => false,
            },
    {
        let title = match Pattern::parse(title) {
            Some(title) => title,
            None => return None,
        };
        match text {
            Some(text) => match Pattern::parse(text) {
                Some(text) => Some(Filter { title, text: Some(text) }),
                None => None,
            },
            None => Some(Filter::from_title(title)),
        }
    }

    /// Tells whether the filter matches an entry.
    pub fn matches_entry(&self, entry: &Entry) -> (r: bool)
        ensures
            r == filter_matches_entry(*self, *entry),
    {
        if matches_opt(&self.title, &entry.title) {
            return true;
        }
        match &self.text {
            Some(text) => matches_opt(text, &entry.content) || matches_opt(text, &entry.summary),
            None => false,
        }
    }

    /// Tells whether the filter matches a Tweet.
    pub fn matches_tweet(&self, tweet: &Tweet) -> (r: bool)
        ensures
            r == filter_matches_tweet(*self, *tweet),
    {
        if self.title.is_match(tweet.text.as_str()) {
            return true;
        }
        match &self.text {
            Some(text) => text.is_match(tweet.text.as_str()),
            None => false,
        }
    }
}

/// A filter matches an entry exactly where its first pattern matches the entry's title, or its second
/// one, if it has one, the entry's content or summary. Neither looks at what the other one is for: the
/// second pattern is enough whatever the title is, and the first one whatever the rest is.
pub proof fn either_pattern_matches_an_entry(filter: Filter, entry: Entry)
    ensures
        entry.title matches Some(title) ==> regex_matches(filter.title@, title@)
            ==> filter_matches_entry(filter, entry),
        filter.text matches Some(text) ==> entry.content matches Some(content) ==> regex_matches(
            text@,
            content@,
        ) ==> filter_matches_entry(filter, entry),
        filter.text matches Some(text) ==> entry.summary matches Some(summary) ==> regex_matches(
            text@,
            summary@,
        ) ==> filter_matches_entry(filter, entry),
        filter_matches_entry(filter, entry) ==> {
            ||| entry.title is Some && regex_matches(filter.title@, entry.title->0@)
            ||| filter.text is Some && entry.content is Some && regex_matches(
                filter.text->0@,
                entry.content->0@,
            )
            ||| filter.text is Some && entry.summary is Some && regex_matches(
                filter.text->0@,
                entry.summary->0@,
            )
        },
{
}

/// A filter matches a Tweet exactly where either of its patterns matches the text of the Tweet.
pub proof fn either_pattern_matches_a_tweet(filter: Filter, tweet: Tweet)
    ensures
        regex_matches(filter.title@, tweet.text@) ==> filter_matches_tweet(filter, tweet),
        filter.text matches Some(text) ==> regex_matches(text@, tweet.text@)
            ==> filter_matches_tweet(filter, tweet),
        filter_matches_tweet(filter, tweet) ==> regex_matches(filter.title@, tweet.text@) || (
        filter.text is Some && regex_matches(filter.text->0@, tweet.text@)),
{
}

/// A route lets everything through that its filter matches and that it does not exclude. Without a
/// filter nothing has to match, and without an exclusion nothing is held back.
pub proof fn routes_let_through_what_they_should(route: Route, entry: Entry, tweet: Tweet)
    ensures
        route.exclude matches Some(exclude) ==> filter_matches_entry(exclude, entry)
            ==> !route_accepts_entry(route, entry),
        route.filter matches Some(filter) ==> !filter_matches_entry(filter, entry)
            ==> !route_accepts_entry(route, entry),
        (route.filter matches Some(filter) ==> filter_matches_entry(filter, entry)) && (
        route.exclude matches Some(exclude) ==> !filter_matches_entry(exclude, entry))
            ==> route_accepts_entry(route, entry),
        route.exclude matches Some(exclude) ==> filter_matches_tweet(exclude, tweet)
            ==> !route_accepts_tweet(route, tweet),
        route.filter matches Some(filter) ==> !filter_matches_tweet(filter, tweet)
            ==> !route_accepts_tweet(route, tweet),
        (route.filter matches Some(filter) ==> filter_matches_tweet(filter, tweet)) && (
        route.exclude matches Some(exclude) ==> !filter_matches_tweet(exclude, tweet))
            ==> route_accepts_tweet(route, tweet),
{
}

/// The topics of a manifest are those that any of its rules names, and no others.
pub proof fn topics_are_those_of_the_rules(manifest: Manifest, topic: TopicIdView)
    ensures
        manifest.all_topics().contains(topic) <==> exists|i: int, j: int|
            0 <= i < manifest.rule@.len() && 0 <= j < manifest.rule@[i].topics@.len()
                && #[trigger] manifest.rule@[i].topics@[j]@ == topic,
{
    topics_of_rules(manifest.rule@, topic);
}

/// A topic is among those of rules exactly where a rule names it.
proof fn topics_of_rules(rules: Seq<Rule>, topic: TopicIdView)
    ensures
        rules_topics(rules).contains(topic) <==> exists|i: int, j: int|
            0 <= i < rules.len() && 0 <= j < rules[i].topics@.len()
                && #[trigger] rules[i].topics@[j]@ == topic,
    decreases rules.len(),
{
    if rules.len() > 0 {
        let before = rules.drop_last();
        let n = rules.len() - 1;
        let added = topics_view(rules.last().topics@);
        let all = rules_topics(rules);
        topics_of_rules(before, topic);
        assert(rules[n] == rules.last());
        if all.contains(topic) {
            let k = choose|k: int| 0 <= k < all.len() && all[k] == topic;
            if k < rules_topics(before).len() {
                assert(rules_topics(before)[k] == topic);
                assert(rules_topics(before).contains(topic));
                let (i, j) = choose|i: int, j: int|
                    0 <= i < before.len() && 0 <= j < before[i].topics@.len()
                        && #[trigger] before[i].topics@[j]@ == topic;
                assert(rules[i].topics@[j]@ == topic);
            } else {
                let j = k - rules_topics(before).len();
                assert(added[j] == topic);
                assert(rules[n].topics@[j]@ == topic);
            }
        }
        if exists|i: int, j: int|
            0 <= i < rules.len() && 0 <= j < rules[i].topics@.len()
                && #[trigger] rules[i].topics@[j]@ == topic {
            let (i, j) = choose|i: int, j: int|
                0 <= i < rules.len() && 0 <= j < rules[i].topics@.len()
                    && #[trigger] rules[i].topics@[j]@ == topic;
            if i < n {
                assert(before[i].topics@[j]@ == topic);
                let k = choose|k: int|
                    0 <= k < rules_topics(before).len() && rules_topics(before)[k] == topic;
                assert(all[k] == topic);
            } else {
                assert(added[j] == topic);
                assert(all[rules_topics(before).len() + j] == topic);
            }
        }
    }
}

/// The outboxes of a manifest are those that the route of any of its rules names, and no others.
pub proof fn outboxes_are_those_of_the_rules(manifest: Manifest, outbox: Outbox)
    ensures
        manifest.all_outboxes().contains(outbox) <==> exists|i: int, j: int|
            0 <= i < manifest.rule@.len() && 0 <= j < manifest.rule@[i].route.outbox@.len()
                && #[trigger] manifest.rule@[i].route.outbox@[j] == outbox,
{
    outboxes_of_rules(manifest.rule@, outbox);
}

/// An outbox is among those of rules exactly where the route of a rule names it.
proof fn outboxes_of_rules(rules: Seq<Rule>, outbox: Outbox)
    ensures
        rules_outboxes(rules).contains(outbox) <==> exists|i: int, j: int|
            0 <= i < rules.len() && 0 <= j < rules[i].route.outbox@.len()
                && #[trigger] rules[i].route.outbox@[j] == outbox,
    decreases rules.len(),
{
    if rules.len() > 0 {
        let before = rules.drop_last();
        let n = rules.len() - 1;
        let added = rules.last().route.outbox@;
        let all = rules_outboxes(rules);
        outboxes_of_rules(before, outbox);
        assert(rules[n] == rules.last());
        if all.contains(outbox) {
            let k = choose|k: int| 0 <= k < all.len() && all[k] == outbox;
            if k < rules_outboxes(before).len() {
                assert(rules_outboxes(before)[k] == outbox);
                assert(rules_outboxes(before).contains(outbox));
                let (i, j) = choose|i: int, j: int|
                    0 <= i < before.len() && 0 <= j < before[i].route.outbox@.len()
                        && #[trigger] before[i].route.outbox@[j] == outbox;
                assert(rules[i].route.outbox@[j] == outbox);
            } else {
                let j = k - rules_outboxes(before).len();
                assert(added[j] == outbox);
                assert(rules[n].route.outbox@[j] == outbox);
            }
        }
        if exists|i: int, j: int|
            0 <= i < rules.len() && 0 <= j < rules[i].route.outbox@.len()
                && #[trigger] rules[i].route.outbox@[j] == outbox {
            let (i, j) = choose|i: int, j: int|
                0 <= i < rules.len() && 0 <= j < rules[i].route.outbox@.len()
                    && #[trigger] rules[i].route.outbox@[j] == outbox;
            if i < n {
                assert(before[i].route.outbox@[j] == outbox);
                let k = choose|k: int|
                    0 <= k < rules_outboxes(before).len() && rules_outboxes(before)[k] == outbox;
                assert(all[k] == outbox);
            } else {
                assert(added[j] == outbox);
                assert(all[rules_outboxes(before).len() + j] == outbox);
            }
        }
    }
}

/// The users of outboxes are exactly those whom an outbox names.
pub proof fn users_are_those_of_outboxes(outboxes: Seq<Outbox>, user: i64)
    ensures
        outbox_users(outboxes).len() == outboxes.len(),
        outbox_users(outboxes).contains(user) <==> outboxes.contains(Outbox::Twitter(user)),
{
    if outbox_users(outboxes).contains(user) {
        let i = choose|i: int|
            0 <= i < outboxes.len() && outbox_users(outboxes)[i] == user;
        assert(outboxes[i] == Outbox::Twitter(user));
    }
    if outboxes.contains(Outbox::Twitter(user)) {
        let i = choose|i: int| 0 <= i < outboxes.len() && outboxes[i] == Outbox::Twitter(user);
        assert(outbox_users(outboxes)[i] == user);
    }
}

/// A manifest with credentials is valid. One without them is refused exactly where a topic is a Twitter
/// user or there is any outbox; the topics are complained of first.
pub proof fn credentials_are_needed_for_twitter(manifest: Manifest, user: i64, outbox: Outbox)
    ensures
        manifest.twitter is Some ==> manifest.valid() is Ok,
        manifest.twitter is None && manifest.all_topics().contains(TopicIdView::Twitter(user))
            ==> manifest.valid() == Err::<(), _>(ManifestError::TwitterTopics),
        manifest.twitter is None && manifest.all_outboxes().contains(outbox) ==> manifest.valid()
            is Err,
        manifest.valid() == Err::<(), _>(ManifestError::TwitterTopics) ==> manifest.twitter is None
            && exists|user: i64| #[trigger]
            manifest.all_topics().contains(TopicIdView::Twitter(user)),
        manifest.valid() == Err::<(), _>(ManifestError::TwitterOutboxes) ==> manifest.twitter
            is None && manifest.all_outboxes().len() > 0 && !manifest.all_topics().contains(
            TopicIdView::Twitter(user),
        ),
{
    let users = users_of(manifest.all_topics());
    users_are_topics(manifest.all_topics(), user);
    if users.len() > 0 {
        users_are_topics(manifest.all_topics(), users[0]);
        assert(users.contains(users[0]));
    }
}

/// A list of integers denotes as many outboxes, in its order, and a single integer one of them; a list
/// with anything else in it denotes none.
pub proof fn outboxes_are_read_in_order(value: Value)
    ensures
        value matches Value::List(values) ==> {
            &&& value_outboxes(value) matches Some(outboxes) ==> outboxes.len() == values@.len()
                && forall|i: int|
                0 <= i < values@.len() ==> signed_value(#[trigger] values@[i]) == Some(
                    outboxes[i]->0,
                )
            &&& value_outboxes(value) is None ==> exists|i: int|
                0 <= i < values@.len() && signed_value(#[trigger] values@[i]) is None
        },
        !(value is List) ==> match signed_value(value) {
            Some(user) => value_outboxes(value) == Some(seq![Outbox::Twitter(user)]),
            None => value_outboxes(value) is None,
        },
{
}

/// A number of seconds, a list of seconds and no nanoseconds and a table of both denote the same
/// duration, and a nanosecond more is a nanosecond more. A billion of nanoseconds is a second.
pub proof fn durations_agree(secs: u64, nanos: u32, list: Vec<Value>, table: Vec<(String, Value)>)
    requires
        list@ == seq![Value::Unsigned(secs), Value::Unsigned(nanos as u64)],
        table@.len() == 2,
        table@[0].0@ == "secs"@ && table@[0].1 == Value::Unsigned(secs),
        table@[1].0@ == "nanos"@ && table@[1].1 == Value::Unsigned(nanos as u64),
        secs + nanos as int / 1_000_000_000 <= u64::MAX,
    ensures
        duration_value(Value::Unsigned(secs)) == Some(secs * 1_000_000_000),
        duration_value(Value::List(list)) == Some(secs * 1_000_000_000 + nanos),
        duration_value(Value::Table(table)) == Some(secs * 1_000_000_000 + nanos),
        secs <= i64::MAX ==> duration_value(Value::Signed(secs as i64)) == duration_value(
            Value::Unsigned(secs),
        ),
{
}

/// The feeds and the Twitter users among topics that follow others come behind those of the others,
/// and each topic is one or the other.
pub proof fn topics_are_feeds_or_users(
    a: Seq<TopicIdView>,
    b: Seq<TopicIdView>,
    url: Seq<char>,
    user: i64,
)
    ensures
        feeds_of(a + b) == feeds_of(a) + feeds_of(b),
        users_of(a + b) == users_of(a) + users_of(b),
        feeds_of(seq![TopicIdView::Feed(url)]) == seq![url],
        users_of(seq![TopicIdView::Feed(url)]) == Seq::<i64>::empty(),
        feeds_of(seq![TopicIdView::Twitter(user)]) == Seq::<Seq<char>>::empty(),
        users_of(seq![TopicIdView::Twitter(user)]) == seq![user],
        feeds_of(a).len() + users_of(a).len() == a.len(),
    decreases a.len() + b.len(),
{
    reveal_with_fuel(feeds_of, 2);
    reveal_with_fuel(users_of, 2);
    let feed = seq![TopicIdView::Feed(url)];
    let twitter = seq![TopicIdView::Twitter(user)];
    assert(feed.drop_last() == Seq::<TopicIdView>::empty());
    assert(twitter.drop_last() == Seq::<TopicIdView>::empty());
    assert(feed.last() == TopicIdView::Feed(url));
    assert(twitter.last() == TopicIdView::Twitter(user));
    if b.len() == 0 {
        assert(a + b == a);
        assert(feeds_of(a) + feeds_of(b) == feeds_of(a));
        assert(users_of(a) + users_of(b) == users_of(a));
        if a.len() > 0 {
            topics_are_feeds_or_users(a.drop_last(), b, url, user);
        }
    } else {
        let before = b.drop_last();
        topics_are_feeds_or_users(a, before, url, user);
        assert((a + b).drop_last() == a + before);
        assert((a + b).last() == b.last());
        assert(feeds_of(a + b) == feeds_of(a) + feeds_of(b));
        assert(users_of(a + b) == users_of(a) + users_of(b));
    }
}

/// What is neither a natural number nor a pair of them denotes no duration, nor does what is too long.
pub proof fn other_values_are_no_durations(
    list: Vec<Value>,
    table: Vec<(String, Value)>,
    n: i64,
    text: String,
)
    ensures
        n < 0 ==> duration_value(Value::Signed(n)) is None,
        duration_value(Value::Text(text)) is None,
        duration_value(Value::Other) is None,
        list@.len() != 2 ==> duration_value(Value::List(list)) is None,
        table@.len() != 2 ==> duration_value(Value::Table(table)) is None,
        list@.len() == 2 && (list@[1] matches Value::Unsigned(nanos) && nanos > u32::MAX)
            ==> duration_value(Value::List(list)) is None,
        table@.len() == 2 && table@[0].0@ == table@[1].0@ ==> duration_value(
            Value::Table(table),
        ) is None,
{
    reveal_strlit("secs");
    reveal_strlit("nanos");
    assert("secs"@.len() != "nanos"@.len());
}

/// The fields of a duration may stand in either order. A duration whose seconds do not fit, once the
/// nanoseconds are carried over, is none.
pub proof fn fields_of_durations_have_no_order(
    secs: Value,
    nanos: Value,
    n: u64,
    m: u32,
    list: Vec<Value>,
    a: Vec<(String, Value)>,
    b: Vec<(String, Value)>,
)
    requires
        list@ == seq![secs, nanos],
        a@.len() == 2 && a@[0].0@ == "secs"@ && a@[0].1 == secs,
        a@[1].0@ == "nanos"@ && a@[1].1 == nanos,
        b@.len() == 2 && b@[0].0@ == "nanos"@ && b@[0].1 == nanos,
        b@[1].0@ == "secs"@ && b@[1].1 == secs,
    ensures
        duration_value(Value::Table(a)) == duration_value(Value::List(list)),
        duration_value(Value::Table(b)) == duration_value(Value::List(list)),
        secs == Value::Unsigned(n) && nanos == Value::Unsigned(m as u64) && n + m as int
            / 1_000_000_000 > u64::MAX ==> duration_value(Value::List(list)) is None,
        secs is Text || secs is Other || nanos is Text || nanos is Other ==> duration_value(
            Value::List(list),
        ) is None,
{
    reveal_strlit("secs");
    reveal_strlit("nanos");
    assert("secs"@.len() != "nanos"@.len());
}

} // verus!
