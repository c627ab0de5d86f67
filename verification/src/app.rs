//! The program, apart from what it exchanges with the world.

pub mod builder;
pub mod retweet_queue;
pub mod sender;
pub mod shutdown;
pub mod state;
pub mod twitter_backfill;
pub mod twitter_list_timeline;
pub mod twitter_request_ext;

use vstd::prelude::*;

use self::state::{Core, StreamRequest};
#[allow(unused_imports)]
use self::state::{
    is_stream_request, lists_unauthed, loaded_tokens_are_complete, needs_token, row_ids, with_tokens,
    with_tokens_has,
};
use crate::manifest::{Manifest, ManifestError, TopicId, WebSub};
#[allow(unused_imports)]
use crate::manifest::{feeds_of, strs_view, users_are_topics, users_of, TopicIdView};
use crate::models::TwitterToken;
use crate::router::Router;
use crate::sets::insert_string;
use crate::socket::Addr;
use crate::strings::{contains_string, opt_eq, str_eq};
#[allow(unused_imports)]
use crate::strings::{opt_view, strings_view};
use crate::twitter::Tweet;

verus! {

/// The state of the program, with the connections to the database, to the stream of Tweets and to
/// the timeline of a list.
#[derive(Debug)]
pub struct App<P, T, L> {
    pub core: Core,
    pub pool: P,
    pub twitter: Option<T>,
    pub twitter_list: L,
}

/// What is needed to take back the replacement of a manifest.
#[derive(Debug)]
pub struct Guard<P> {
    pub old: Manifest,
    /// The connections to the database, where they were replaced too.
    pub old_pool: Option<P>,
}

/// Why a manifest could not be replaced.
#[derive(Debug)]
pub enum ReplaceError<E> {
    Invalid(ManifestError),
    NotAuthorized,
    Failed(E),
}

/// What follows in the replacement of a manifest.
#[derive(Debug)]
pub enum Replacing<P, E> {
    /// A database is to be opened for the new manifest.
    OpenDatabase(Manifest),
    /// The credentials of these users are to be loaded.
    LoadTokens(Guard<P>, Vec<i64>),
    /// The stream and the timeline are to be connected anew.
    Connect(Guard<P>),
    /// The subscriptions are to be brought in line with the topics.
    Sync(Guard<P>),
    /// The manifest was replaced; the old one.
    Done(Manifest),
    /// The manifest was not replaced; why, and the new one.
    Failed(ReplaceError<E>, Manifest),
}

/// Tells whether every item of a list is in another.
pub open spec fn all_in(a: Seq<i64>, b: Seq<i64>) -> bool {
    forall|x: i64| #[trigger] a.contains(x) ==> b.contains(x)
}

/// Tells whether the new manifest calls for other connections to Twitter: another client, another
/// user or other topics.
pub open spec fn has_twitter_updates(old_manifest: Manifest, new_manifest: Manifest) -> bool {
    match new_manifest.twitter {
        Some(new_config) => {
            ||| match old_manifest.twitter {
                Some(old_config) => new_config.client.key@ != old_config.client.key@
                    || new_config.user != old_config.user,
                None => true,
            }
            ||| !all_in(users_of(new_manifest.all_topics()), users_of(old_manifest.all_topics()))
            ||| !all_in(users_of(old_manifest.all_topics()), users_of(new_manifest.all_topics()))
        },
        None => false,
    }
}

/// Tells whether every Twitter user among the topics of a manifest is among those of another.
fn topics_in(a: &Manifest, b: &Manifest) -> (r: bool)
    ensures
        r == all_in(users_of(a.all_topics()), users_of(b.all_topics())),
{
    let users = a.twitter_topics();
    let others = b.twitter_topics();
    let mut i: usize = 0;
    while i < users.len()
        invariant
            i <= users@.len(),
            users@ == users_of(a.all_topics()),
            others@ == users_of(b.all_topics()),
            forall|j: int| 0 <= j < i ==> others@.contains(#[trigger] users@[j]),
        decreases users@.len() - i,
    {
        if !crate::sets::contains_id(&others, users[i]) {
            assert(users@.contains(users@[i as int]));
            return false;
        }
        i += 1;
    }
    true
}

/// Tells whether the new manifest calls for other connections to Twitter.
pub fn has_updates(old_manifest: &Manifest, new_manifest: &Manifest) -> (r: bool)
    ensures
        r == has_twitter_updates(*old_manifest, *new_manifest),
{
    let new_config = match &new_manifest.twitter {
        Some(config) => config,
        None => return false,
    };
    let other_user = match &old_manifest.twitter {
        Some(old_config) => !str_eq(
            new_config.client.key.as_str(),
            old_config.client.key.as_str(),
        ) || new_config.user != old_config.user,
        None => true,
    };
    other_user || !topics_in(new_manifest, old_manifest) || !topics_in(old_manifest, new_manifest)
}

/// The connections to the database once a replacement was taken back.
pub open spec fn restored_pool<P>(guard: Guard<P>, pool: P) -> P {
    match guard.old_pool {
        Some(pool) => pool,
        None => pool,
    }
}

impl<P, T, L> App<P, T, L> {
    /// Tells whether the state is that before a replacement, given the state that it was taken back
    /// in. What was loaded or connected meanwhile stays.
    pub open spec fn is_restored(&self, guard: Guard<P>, from: Self) -> bool {
        &&& self.core.manifest == guard.old
        &&& self.core.router == from.core.router
        &&& self.pool == restored_pool(guard, from.pool)
        &&& self.twitter == from.twitter
        &&& self.twitter_list == from.twitter_list
    }

    /// Starts to replace the manifest. One that is invalid is refused.
    pub fn replace_manifest<E>(&mut self, manifest: Manifest) -> (r: Replacing<P, E>)
        ensures
            match r {
                Replacing::Failed(ReplaceError::Invalid(e), returned) => {
                    &&& manifest.valid() == Err::<(), ManifestError>(e)
                    &&& returned == manifest
                    &&& *final(self) == *old(self)
                },
                Replacing::OpenDatabase(returned) => {
                    &&& manifest.valid() is Ok
                    &&& opt_view(manifest.database_url) != opt_view(
                        old(self).core.manifest.database_url,
                    )
                    &&& returned == manifest
                    &&& *final(self) == *old(self)
                },
                Replacing::LoadTokens(guard, users) => {
                    &&& manifest.valid() is Ok
                    &&& opt_view(manifest.database_url) == opt_view(
                        old(self).core.manifest.database_url,
                    )
                    &&& guard == (Guard::<P> { old: old(self).core.manifest, old_pool: None })
                    &&& final(self).is_swapped(*old(self), manifest, old(self).pool)
                    &&& lists_unauthed(
                        users@,
                        manifest,
                        old(self).core.twitter_tokens@,
                    )
                },
                _ => false,
            },
    {
        if let Err(e) = manifest.validate() {
            return Replacing::Failed(ReplaceError::Invalid(e), manifest);
        }
        if opt_eq(&manifest.database_url, &self.core.manifest.database_url) {
            let guard = Guard { old: self.swap_manifest(manifest), old_pool: None };
            Replacing::LoadTokens(guard, self.core.unauthed_users())
        } else {
            Replacing::OpenDatabase(manifest)
        }
    }

    /// Tells whether the state is another one but for its manifest and its connections to the
    /// database.
    pub open spec fn is_swapped(&self, from: Self, manifest: Manifest, pool: P) -> bool {
        &&& self.core.manifest == manifest
        &&& self.core.router == from.core.router
        &&& self.core.twitter_tokens == from.core.twitter_tokens
        &&& self.pool == pool
        &&& self.twitter == from.twitter
        &&& self.twitter_list == from.twitter_list
    }

    /// Puts a manifest in the place of the other, which is returned.
    fn swap_manifest(&mut self, manifest: Manifest) -> (r: Manifest)
        ensures
            r == old(self).core.manifest,
            final(self).is_swapped(*old(self), manifest, old(self).pool),
    {
        let mut manifest = manifest;
        std::mem::swap(&mut manifest, &mut self.core.manifest);
        manifest
    }

    /// Goes on once the database was opened, or could not be.
    pub fn database_opened<E>(&mut self, manifest: Manifest, pool: Result<P, E>) -> (r: Replacing<
        P,
        E,
    >)
        ensures
            match pool {
                Err(e) => {
                    &&& r == Replacing::<P, E>::Failed(ReplaceError::Failed(e), manifest)
                    &&& *final(self) == *old(self)
                },
                Ok(pool) => {
                    &&& r matches Replacing::LoadTokens(guard, users)
                    &&& guard == (Guard::<P> {
                        old: old(self).core.manifest,
                        old_pool: Some(old(self).pool),
                    })
                    &&& final(self).is_swapped(*old(self), manifest, pool)
                    &&& lists_unauthed(users@, manifest, old(self).core.twitter_tokens@)
                },
            },
    {
        match pool {
            Err(e) => Replacing::Failed(ReplaceError::Failed(e), manifest),
            Ok(pool) => {
                let mut pool = pool;
                std::mem::swap(&mut pool, &mut self.pool);
                let guard = Guard { old: self.swap_manifest(manifest), old_pool: Some(pool) };
                Replacing::LoadTokens(guard, self.core.unauthed_users())
            },
        }
    }

    /// Goes on once the credentials were loaded, or could not be.
    pub fn tokens_loaded<E>(
        &mut self,
        guard: Guard<P>,
        rows: Result<Vec<TwitterToken>, E>,
    ) -> (r: Replacing<P, E>)
        ensures
            match (rows, r) {
                (Err(e), r) => {
                    &&& r == Replacing::<P, E>::Failed(
                        ReplaceError::Failed(e),
                        old(self).core.manifest,
                    )
                    &&& final(self).is_restored(guard, *old(self))
                    &&& final(self).core.twitter_tokens@ == old(self).core.twitter_tokens@
                },
                (Ok(rows), Replacing::Failed(e, manifest)) => {
                    &&& e is NotAuthorized
                    &&& manifest == old(self).core.manifest
                    &&& final(self).is_restored(guard, *old(self))
                    &&& final(self).core.twitter_tokens@ == old(self).core.twitter_tokens@
                    &&& old(self).core.manifest.twitter is Some
                    &&& exists|unauthed: Seq<i64>| #[trigger]
                        lists_unauthed(
                            unauthed,
                            old(self).core.manifest,
                            old(self).core.twitter_tokens@,
                        ) && unauthed.len() != rows@.len()
                },
                (Ok(rows), Replacing::Connect(returned)) => {
                    &&& returned == guard
                    &&& has_twitter_updates(guard.old, old(self).core.manifest)
                    &&& final(self).has_loaded(*old(self), rows@)
                },
                (Ok(rows), Replacing::Sync(returned)) => {
                    &&& returned == guard
                    &&& !has_twitter_updates(guard.old, old(self).core.manifest)
                    &&& final(self).has_loaded(*old(self), rows@)
                },
                _ => false,
            },
    {
        let rows = match rows {
            Ok(rows) => rows,
            Err(e) => {
                let manifest = self.rollback(guard);
                return Replacing::Failed(ReplaceError::Failed(e), manifest);
            },
        };
        match self.core.load_twitter_tokens(rows) {
            Ok(()) => if has_updates(&guard.old, &self.core.manifest) {
                Replacing::Connect(guard)
            } else {
                Replacing::Sync(guard)
            },
            Err(_) => {
                let manifest = self.rollback(guard);
                Replacing::Failed(ReplaceError::NotAuthorized, manifest)
            },
        }
    }

    /// Tells whether the state is another one but for the credentials, to which those of some rows
    /// were added: as many rows as users lacked credentials, where the manifest needs any.
    pub open spec fn has_loaded(&self, from: Self, rows: Seq<TwitterToken>) -> bool {
        &&& self.core.manifest == from.core.manifest
        &&& self.core.router == from.core.router
        &&& self.pool == from.pool
        &&& self.twitter == from.twitter
        &&& self.twitter_list == from.twitter_list
        &&& if from.core.manifest.twitter is Some {
            &&& self.core.twitter_tokens@ == with_tokens(from.core.twitter_tokens@, rows)
            &&& exists|unauthed: Seq<i64>| #[trigger]
                lists_unauthed(unauthed, from.core.manifest, from.core.twitter_tokens@)
                    && unauthed.len() == rows.len()
        } else {
            self.core.twitter_tokens@ == from.core.twitter_tokens@
        }
    }

    /// Goes on once Twitter was connected anew, or could not be.
    pub fn connected<E>(&mut self, guard: Guard<P>, connections: Result<(Option<T>, L), E>) -> (r:
        Replacing<P, E>)
        ensures
            match connections {
                Err(e) => {
                    &&& r == Replacing::<P, E>::Failed(
                        ReplaceError::Failed(e),
                        old(self).core.manifest,
                    )
                    &&& final(self).is_restored(guard, *old(self))
                    &&& final(self).core.twitter_tokens@ == old(self).core.twitter_tokens@
                },
                Ok((twitter, list)) => {
                    &&& r == Replacing::<P, E>::Sync(guard)
                    &&& final(self).core == old(self).core
                    &&& final(self).pool == old(self).pool
                    &&& final(self).twitter == twitter
                    &&& final(self).twitter_list == list
                },
            },
    {
        match connections {
            Ok((twitter, list)) => {
                self.twitter = twitter;
                self.twitter_list = list;
                Replacing::Sync(guard)
            },
            Err(e) => {
                let manifest = self.rollback(guard);
                Replacing::Failed(ReplaceError::Failed(e), manifest)
            },
        }
    }

    /// Ends the replacement once the subscriptions were brought in line with the topics, or could
    /// not be.
    pub fn synced<E>(&mut self, guard: Guard<P>, result: Result<(), E>) -> (r: Replacing<P, E>)
        ensures
            match result {
                Err(e) => {
                    &&& r == Replacing::<P, E>::Failed(
                        ReplaceError::Failed(e),
                        old(self).core.manifest,
                    )
                    &&& final(self).is_restored(guard, *old(self))
                    &&& final(self).core.twitter_tokens@ == old(self).core.twitter_tokens@
                },
                Ok(()) => {
                    &&& r == Replacing::<P, E>::Done(guard.old)
                    &&& final(self).core.manifest == old(self).core.manifest
                    &&& final(self).core.is_routed()
                    &&& final(self).pool == old(self).pool
                    &&& final(self).twitter == old(self).twitter
                    &&& final(self).twitter_list == old(self).twitter_list
                    &&& forall|user: i64| #[trigger]
                        final(self).core.twitter_tokens@.contains_key(user) <==> needs_token(
                            old(self).core.manifest,
                            user,
                        ) && old(self).core.twitter_tokens@.contains_key(user)
                    &&& forall|user: i64| #[trigger]
                        final(self).core.twitter_tokens@.contains_key(user)
                            ==> final(self).core.twitter_tokens@[user]
                            == old(self).core.twitter_tokens@[user]
                },
            },
    {
        match result {
            Ok(()) => {
                self.core.gc_twitter_tokens();
                self.core.router = Router::from_manifest(&self.core.manifest);
                Replacing::Done(guard.old)
            },
            Err(e) => {
                let manifest = self.rollback(guard);
                Replacing::Failed(ReplaceError::Failed(e), manifest)
            },
        }
    }

    /// Takes a replacement back and returns the new manifest. Credentials that were loaded meanwhile
    /// stay, since the caller may try again.
    pub fn rollback(&mut self, guard: Guard<P>) -> (r: Manifest)
        ensures
            r == old(self).core.manifest,
            final(self).is_restored(guard, *old(self)),
            final(self).core.twitter_tokens@ == old(self).core.twitter_tokens@,
    {
        if let Some(pool) = guard.old_pool {
            self.pool = pool;
        }
        self.swap_manifest(guard.old)
    }
}

/// A replacement that is taken back, whenever that happens before the stream and the timeline were
/// connected anew, leaves the program as it was but for credentials that were added.
pub proof fn replacement_is_taken_back<P, T, L>(
    before: App<P, T, L>,
    swapped: App<P, T, L>,
    loaded: App<P, T, L>,
    after: App<P, T, L>,
    guard: Guard<P>,
    manifest: Manifest,
    pool: P,
    rows: Seq<TwitterToken>,
)
    requires
        guard.old == before.core.manifest,
        guard.old_pool == Some(before.pool) || guard.old_pool is None && pool == before.pool,
        swapped.is_swapped(before, manifest, pool),
        loaded == swapped || loaded.has_loaded(swapped, rows),
        after.is_restored(guard, loaded),
    ensures
        after.core.manifest == before.core.manifest,
        after.core.router == before.core.router,
        after.pool == before.pool,
        after.twitter == before.twitter,
        after.twitter_list == before.twitter_list,
{
}

/// A manifest that was replaced has all credentials that it needs: where rows of different users
/// who lacked them were loaded, and as many as there were such users, what is left once those that
/// are not needed were dropped is complete.
pub proof fn replaced_manifest_is_authorized<P, T, L>(
    swapped: App<P, T, L>,
    loaded: App<P, T, L>,
    after: App<P, T, L>,
    rows: Seq<TwitterToken>,
)
    requires
        loaded.has_loaded(swapped, rows),
        row_ids(rows).no_duplicates(),
        forall|id: i64| #[trigger]
            row_ids(rows).contains(id) ==> needs_token(swapped.core.manifest, id)
                && !swapped.core.twitter_tokens@.contains_key(id),
        after.core.manifest == loaded.core.manifest,
        forall|user: i64| #[trigger]
            after.core.twitter_tokens@.contains_key(user) <==> needs_token(
                loaded.core.manifest,
                user,
            ) && loaded.core.twitter_tokens@.contains_key(user),
    ensures
        after.core.is_authorized(),
{
    let manifest = swapped.core.manifest;
    let tokens = swapped.core.twitter_tokens@;
    if manifest.twitter is Some {
        let unauthed = choose|unauthed: Seq<i64>| #[trigger]
            lists_unauthed(unauthed, manifest, tokens) && unauthed.len() == rows.len();
        assert forall|user: i64| #[trigger] needs_token(after.core.manifest, user) implies after
            .core.twitter_tokens@.contains_key(user) by {
            loaded_tokens_are_complete(manifest, tokens, unauthed, rows, user);
        }
    }
}

impl<P, T, L> App<P, T, L> {
    /// Returns the manifest.
    pub fn manifest(&self) -> (r: &Manifest)
        ensures
            *r == self.core.manifest,
    {
        self.core.manifest()
    }

    /// Returns the manifest, to be changed. Unlike `replace_manifest`, this leaves the rest of the
    /// state as it is.
    pub fn manifest_mut(&mut self) -> (r: &mut Manifest)
        ensures
            *r == old(self).core.manifest,
            final(self).is_swapped(*old(self), *final(r), old(self).pool),
    {
        self.core.manifest_mut()
    }

    /// Returns the routes.
    pub fn router(&self) -> (r: &Router)
        ensures
            *r == self.core.router,
    {
        self.core.router()
    }

    /// Returns the routes, to be changed.
    pub fn router_mut(&mut self) -> (r: &mut Router)
        ensures
            *r == old(self).core.router,
            final(self).core.router == *final(r),
            final(self).core.manifest == old(self).core.manifest,
            final(self).core.twitter_tokens == old(self).core.twitter_tokens,
            final(self).pool == old(self).pool,
            final(self).twitter == old(self).twitter,
            final(self).twitter_list == old(self).twitter_list,
    {
        self.core.router_mut()
    }

    /// Returns the connections to the database.
    pub fn database_pool(&self) -> (r: &P)
        ensures
            *r == self.pool,
    {
        &self.pool
    }

    /// Returns what to listen to anew, where the stream of Tweets is gone and one is configured.
    pub fn reset(&self) -> (r: Option<StreamRequest>)
        requires
            self.twitter is None ==> self.core.can_listen(),
        ensures
            r is Some <==> self.twitter is None && self.core.manifest.twitter is Some
                && self.core.manifest.twitter->0.stream,
            r matches Some(request) ==> is_stream_request(self.core, request),
    {
        if self.twitter.is_none() {
            self.core.init_twitter()
        } else {
            None
        }
    }
}

/// What the stream of Tweets has yielded.
#[derive(Debug)]
pub enum StreamEvent<E> {
    /// The stream has ended.
    Ended,
    /// The stream has failed.
    Failed(E),
    /// A message that cannot be read.
    Malformed(E),
    /// A message that is not a Tweet.
    Other,
    Tweet(Tweet),
}

/// What follows an event of the stream.
#[derive(Debug)]
pub enum StreamStep<E> {
    Finished(Result<(), E>),
    /// The next event is to be taken.
    Continue,
    /// The Tweet is to be sent to its outboxes, and then the next event taken.
    Send(Tweet),
}

/// Tells whether a Tweet is processed: if its user is a topic, and so is the user whom it replies to.
pub open spec fn is_processed(manifest: Manifest, tweet: Tweet) -> bool {
    &&& manifest.all_topics().contains(TopicIdView::Twitter(tweet.user.id))
    &&& tweet.in_reply_to_user_id matches Some(to) ==> manifest.all_topics().contains(
        TopicIdView::Twitter(to),
    )
}

/// Tells whether a Tweet is processed.
pub fn will_process(manifest: &Manifest, tweet: &Tweet) -> (r: bool)
    ensures
        r == is_processed(*manifest, *tweet),
        r == (manifest.all_topics().contains(TopicIdView::Twitter(tweet.user.id)) && (
        tweet.in_reply_to_user_id is None || manifest.all_topics().contains(
            TopicIdView::Twitter(tweet.in_reply_to_user_id->0),
        ))),
{
    if !manifest.has_topic(&TopicId::Twitter(tweet.user.id)) {
        return false;
    }
    match tweet.in_reply_to_user_id {
        Some(to) => manifest.has_topic(&TopicId::Twitter(to)),
        None => true,
    }
}

impl<P, T, L> App<P, T, L> {
    /// Takes an event of the stream. A stream that has ended or failed is given up.
    pub fn poll_twitter<E>(&mut self, event: StreamEvent<E>) -> (r: StreamStep<E>)
        ensures
            final(self).core == old(self).core,
            final(self).pool == old(self).pool,
            final(self).twitter_list == old(self).twitter_list,
            if old(self).twitter is None {
                r == StreamStep::<E>::Finished(Ok(())) && final(self).twitter is None
            } else {
                match event {
                    StreamEvent::Ended => r == StreamStep::<E>::Finished(Ok(()))
                        && final(self).twitter is None,
                    StreamEvent::Failed(e) => r == StreamStep::<E>::Finished(Err(e))
                        && final(self).twitter is None,
                    StreamEvent::Malformed(e) => r == StreamStep::<E>::Finished(Err(e))
                        && final(self).twitter == old(self).twitter,
                    StreamEvent::Other => r == StreamStep::<E>::Continue && final(self).twitter
                        == old(self).twitter,
                    StreamEvent::Tweet(tweet) => {
                        &&& r == (if is_processed(old(self).core.manifest, tweet) {
                            StreamStep::<E>::Send(tweet)
                        } else {
                            StreamStep::<E>::Continue
                        })
                        &&& final(self).twitter == old(self).twitter
                        &&& old(self).core.manifest.all_topics().contains(
                            TopicIdView::Twitter(tweet.user.id),
                        ) && (tweet.in_reply_to_user_id matches Some(to) ==> old(
                            self,
                        ).core.manifest.all_topics().contains(TopicIdView::Twitter(to))) ==> r
                            == StreamStep::<E>::Send(tweet)
                    },
                }
            },
    {
        if self.twitter.is_none() {
            return StreamStep::Finished(Ok(()));
        }
        match event {
            StreamEvent::Ended => {
                self.twitter = None;
                StreamStep::Finished(Ok(()))
            },
            StreamEvent::Failed(e) => {
                self.twitter = None;
                StreamStep::Finished(Err(e))
            },
            StreamEvent::Malformed(e) => StreamStep::Finished(Err(e)),
            StreamEvent::Other => StreamStep::Continue,
            StreamEvent::Tweet(tweet) => if will_process(&self.core.manifest, &tweet) {
                StreamStep::Send(tweet)
            } else {
                StreamStep::Continue
            },
        }
    }
}

/// What brings the subscriptions in line with the topics.
#[derive(Debug)]
pub struct SyncPlan {
    pub subscribe: Vec<String>,
    pub unsubscribe: Vec<String>,
}

/// Returns the feeds to subscribe to, each once, and those to unsubscribe from, each once.
pub fn sync_websub_subscriptions(manifest: &Manifest, subscribed: &Vec<String>) -> (r: SyncPlan)
    ensures
        strings_view(r.subscribe@).no_duplicates(),
        strings_view(r.unsubscribe@).no_duplicates(),
        forall|url: Seq<char>| #[trigger]
            strings_view(r.subscribe@).contains(url) <==> feeds_of(manifest.all_topics()).contains(
                url,
            ) && !strings_view(subscribed@).contains(url),
        forall|url: Seq<char>| #[trigger]
            strings_view(r.unsubscribe@).contains(url) <==> strings_view(subscribed@).contains(url)
                && !feeds_of(manifest.all_topics()).contains(url),
{
    let feeds = manifest.feed_topics();
    let ghost feeds_view = strs_view(feeds@);
    let mut topics: Vec<String> = Vec::new();
    let mut i: usize = 0;
    while i < feeds.len()
        invariant
            i <= feeds@.len(),
            feeds_view == strs_view(feeds@),
            strings_view(topics@).no_duplicates(),
            forall|url: Seq<char>| #[trigger]
                strings_view(topics@).contains(url) <==> feeds_view.take(i as int).contains(url),
        decreases feeds@.len() - i,
    {
        let ghost before = strings_view(topics@);
        assert(feeds_view.take(i + 1) == feeds_view.take(i as int).push(feeds_view[i as int]));
        insert_string(&mut topics, feeds[i]);
        proof {
            assert forall|url: Seq<char>| #[trigger]
                strings_view(topics@).contains(url) <==> feeds_view.take(i + 1).contains(url) by {
                crate::sets::contains_push(feeds_view.take(i as int), feeds_view[i as int], url);
                assert(before.contains(url) <==> feeds_view.take(i as int).contains(url));
            }
        }
        i += 1;
    }
    assert(feeds_view.take(i as int) == feeds_view);
    let subscribe = difference(&topics, subscribed);
    let unsubscribe = difference(subscribed, &topics);
    SyncPlan { subscribe, unsubscribe }
}

/// Where only feeds among the topics are looked up as subscribed, there is nothing to unsubscribe
/// from.
pub proof fn nothing_to_unsubscribe_from(
    manifest: Manifest,
    subscribed: Seq<Seq<char>>,
    unsubscribe: Seq<Seq<char>>,
)
    requires
        forall|url: Seq<char>| #[trigger]
            subscribed.contains(url) ==> feeds_of(manifest.all_topics()).contains(url),
        forall|url: Seq<char>| #[trigger]
            unsubscribe.contains(url) <==> subscribed.contains(url) && !feeds_of(
                manifest.all_topics(),
            ).contains(url),
    ensures
        unsubscribe.len() == 0,
{
    if unsubscribe.len() > 0 {
        assert(unsubscribe.contains(unsubscribe[0]));
    }
}

/// Returns the texts of a list that are not in another, each once.
pub fn difference(a: &Vec<String>, b: &Vec<String>) -> (r: Vec<String>)
    ensures
        strings_view(r@).no_duplicates(),
        forall|x: Seq<char>| #[trigger]
            strings_view(r@).contains(x) <==> strings_view(a@).contains(x) && !strings_view(
                b@,
            ).contains(x),
{
    let ghost view = strings_view(a@);
    let mut r: Vec<String> = Vec::new();
    let mut i: usize = 0;
    while i < a.len()
        invariant
            i <= a@.len(),
            view == strings_view(a@),
            strings_view(r@).no_duplicates(),
            forall|x: Seq<char>| #[trigger]
                strings_view(r@).contains(x) <==> view.take(i as int).contains(x) && !strings_view(
                    b@,
                ).contains(x),
        decreases a@.len() - i,
    {
        let ghost before = strings_view(r@);
        assert(view.take(i + 1) == view.take(i as int).push(view[i as int]));
        if !contains_string(b, a[i].as_str()) {
            insert_string(&mut r, a[i].as_str());
        }
        proof {
            assert forall|x: Seq<char>| #[trigger]
                strings_view(r@).contains(x) <==> view.take(i + 1).contains(x) && !strings_view(
                    b@,
                ).contains(x) by {
                crate::sets::contains_push(view.take(i as int), view[i as int], x);
                assert(before.contains(x) <==> view.take(i as int).contains(x) && !strings_view(
                    b@,
                ).contains(x));
            }
        }
        i += 1;
    }
    assert(view.take(i as int) == view);
    r
}

/// Where the connections of hubs come from.
#[derive(Debug)]
pub enum Incoming<'a> {
    /// An address that is to be bound.
    Bind(&'a Addr),
    /// A TCP socket that the environment has handed over.
    Tcp,
    /// A UNIX domain socket that the environment has handed over.
    Unix,
}

/// There is nowhere for the connections of hubs to come from.
#[derive(Copy, Clone, Debug, PartialEq, Eq, Structural)]
pub struct NoIncoming;

impl NoIncoming {
    /// Returns what to tell the user.
    pub fn message(self) -> (r: &'static str)
        ensures
            r@
                == "Either `websub.bind` in the manifest or `LISTEN_FD` must be provided for WebSub subscriber"@,
    {
        "Either `websub.bind` in the manifest or `LISTEN_FD` must be provided for WebSub subscriber"
    }
}

/// Decides where the connections of hubs come from, if the subscriber is configured, given what
/// sockets the environment has handed over.
pub fn init_websub<'a>(config: Option<&'a WebSub>, tcp: bool, unix: bool) -> (r: Result<
    Option<Incoming<'a>>,
    NoIncoming,
>)
    ensures
        match config {
            Some(config) => match config.bind {
                Some(addr) => r matches Ok(Some(Incoming::Bind(bound))) && *bound == addr,
                None => r == (if tcp {
                    Ok(Some(Incoming::Tcp))
                } else if unix {
                    Ok(Some(Incoming::Unix))
                } else {
                    Err(NoIncoming)
                }),
            },
            None => r == Ok::<Option<Incoming<'a>>, NoIncoming>(None),
        },
{
    let config = match config {
        Some(config) => config,
        None => return Ok(None),
    };
    match &config.bind {
        Some(addr) => Ok(Some(Incoming::Bind(addr))),
        None => if tcp {
            Ok(Some(Incoming::Tcp))
        } else if unix {
            Ok(Some(Incoming::Unix))
        } else {
            Err(NoIncoming)
        },
    }
}

/// A Tweet of a user who is a topic is processed where it is no reply, and where it replies to any user
/// who is a topic, be it its author or another one. Nothing else is: neither a Tweet of a user who is no
/// topic, nor a reply to one.
pub proof fn tweets_among_topics_are_processed(manifest: Manifest, tweet: Tweet, to: i64)
    ensures
        ({
            let topics = manifest.all_topics();
            let author = topics.contains(TopicIdView::Twitter(tweet.user.id));
            &&& author && tweet.in_reply_to_user_id is None ==> is_processed(manifest, tweet)
            &&& author && tweet.in_reply_to_user_id == Some(tweet.user.id) ==> is_processed(
                manifest,
                tweet,
            )
            &&& author && tweet.in_reply_to_user_id == Some(to) && topics.contains(
                TopicIdView::Twitter(to),
            ) ==> is_processed(manifest, tweet)
            &&& !author ==> !is_processed(manifest, tweet)
            &&& tweet.in_reply_to_user_id == Some(to) && !topics.contains(TopicIdView::Twitter(to))
                ==> !is_processed(manifest, tweet)
        }),
{
}

/// Only the author, the user replied to and the topics decide on a Tweet: another Tweet of the same
/// author in reply to the same user is treated alike, and more topics never hold a Tweet back.
pub proof fn processing_depends_on_topics(a: Manifest, b: Manifest, tweet: Tweet, other: Tweet)
    ensures
        tweet.user.id == other.user.id && tweet.in_reply_to_user_id == other.in_reply_to_user_id
            ==> is_processed(a, tweet) == is_processed(a, other),
        is_processed(a, tweet) && (forall|topic: TopicIdView| #[trigger]
            a.all_topics().contains(topic) ==> b.all_topics().contains(topic)) ==> is_processed(
            b,
            tweet,
        ),
{
}

/// Twitter is connected anew exactly where the manifest has a configuration for it and the client, the
/// user or any Twitter user among the topics has changed.
pub proof fn connections_follow_the_manifest(old_manifest: Manifest, new_manifest: Manifest, user: i64)
    ensures
        new_manifest.twitter is None ==> !has_twitter_updates(old_manifest, new_manifest),
        new_manifest.twitter is Some && old_manifest.twitter is None ==> has_twitter_updates(
            old_manifest,
            new_manifest,
        ),
        new_manifest.twitter is Some && old_manifest.twitter is Some && (
        new_manifest.twitter->0.client.key@ != old_manifest.twitter->0.client.key@
            || new_manifest.twitter->0.user != old_manifest.twitter->0.user)
            ==> has_twitter_updates(old_manifest, new_manifest),
        new_manifest.twitter is Some && old_manifest.all_topics().contains(
            TopicIdView::Twitter(user),
        ) != new_manifest.all_topics().contains(TopicIdView::Twitter(user)) ==> has_twitter_updates(
            old_manifest,
            new_manifest,
        ),
        new_manifest.twitter is Some && old_manifest.twitter is Some
            && new_manifest.twitter->0.client.key@ == old_manifest.twitter->0.client.key@
            && new_manifest.twitter->0.user == old_manifest.twitter->0.user && (forall|user: i64|
            old_manifest.all_topics().contains(TopicIdView::Twitter(user))
                == #[trigger] new_manifest.all_topics().contains(TopicIdView::Twitter(user)))
            ==> !has_twitter_updates(old_manifest, new_manifest),
{
    let old_users = users_of(old_manifest.all_topics());
    let new_users = users_of(new_manifest.all_topics());
    users_are_topics(old_manifest.all_topics(), user);
    users_are_topics(new_manifest.all_topics(), user);
    if new_manifest.all_topics().contains(TopicIdView::Twitter(user)) {
        assert(new_users.contains(user));
    }
    if old_manifest.all_topics().contains(TopicIdView::Twitter(user)) {
        assert(old_users.contains(user));
    }
    if forall|user: i64|
        old_manifest.all_topics().contains(TopicIdView::Twitter(user))
            == #[trigger] new_manifest.all_topics().contains(TopicIdView::Twitter(user)) {
        assert forall|user: i64| #[trigger] new_users.contains(user) implies old_users.contains(
            user,
        ) by {
            users_are_topics(old_manifest.all_topics(), user);
            users_are_topics(new_manifest.all_topics(), user);
        }
        assert forall|user: i64| #[trigger] old_users.contains(user) implies new_users.contains(
            user,
        ) by {
            users_are_topics(old_manifest.all_topics(), user);
            users_are_topics(new_manifest.all_topics(), user);
        }
    }
}

/// A replacement that has come to its end has put the new manifest and its routes in place, has kept
/// the database that was opened for it, and has dropped no credentials that it needs.
pub proof fn replacement_takes_effect<P, T, L>(
    before: App<P, T, L>,
    swapped: App<P, T, L>,
    loaded: App<P, T, L>,
    manifest: Manifest,
    pool: P,
    rows: Seq<TwitterToken>,
)
    requires
        swapped.is_swapped(before, manifest, pool),
        loaded.has_loaded(swapped, rows),
    ensures
        loaded.core.manifest == manifest,
        loaded.pool == pool,
        loaded.core.router == before.core.router,
        loaded.twitter == before.twitter,
        loaded.twitter_list == before.twitter_list,
        forall|user: i64| #[trigger]
            before.core.twitter_tokens@.contains_key(user)
                ==> loaded.core.twitter_tokens@.contains_key(user),
{
    assert forall|user: i64| #[trigger]
        before.core.twitter_tokens@.contains_key(
            user,
        ) implies loaded.core.twitter_tokens@.contains_key(user) by {
        with_tokens_has(before.core.twitter_tokens@, rows, user);
    }
}

} // verus!
