//! The manifest with what was loaded for it.

use std::collections::HashMap;

use vstd::prelude::*;
use vstd::std_specs::hash::*;
#[allow(unused_imports)]
use vstd::std_specs::iter::IteratorSpec;

use crate::feed::Entry;
#[allow(unused_imports)]
use crate::manifest::{outbox_users, users_of, Outbox, TopicIdView};
use crate::manifest::{Manifest, TwitterList};
use crate::models::TwitterToken;
use crate::router::Router;
#[allow(unused_imports)]
use crate::router::{
    entries_go_to_outboxes_of_the_manifest, entry_outboxes, rules_routes, tweet_outboxes,
    tweets_go_to_outboxes_of_the_manifest,
};
use crate::sets::{contains_id, insert_id};
#[allow(unused_imports)]
use crate::sets::{contains_push, same_items};
use crate::twitter::Credentials;
#[allow(unused_imports)]
use crate::twitter::Tweet;

verus! {

broadcast use vstd::std_specs::hash::group_hash_axioms;

/// The manifest, the routes of its topics and the credentials of its users.
#[derive(Debug)]
pub struct Core {
    pub manifest: Manifest,
    pub router: Router,
    pub twitter_tokens: HashMap<i64, Credentials<String>>,
}

/// Not all users of the manifest have credentials.
#[derive(Copy, Clone, Debug, PartialEq, Eq, Structural)]
pub struct NotAuthorized;

impl NotAuthorized {
    /// Returns what to tell the user.
    pub fn message(self) -> (r: &'static str)
        ensures
            r@ == "not all Twitter users are authorized; please run `pipitor twitter-login`"@,
    {
        "not all Twitter users are authorized; please run `pipitor twitter-login`"
    }
}

/// Tells whether a user needs credentials: as an outbox, or to read Twitter.
pub open spec fn needs_token(manifest: Manifest, user: i64) -> bool {
    manifest.twitter matches Some(config) && (outbox_users(manifest.all_outboxes()).contains(user)
        || user == config.user)
}

/// The credentials with those of some rows.
pub open spec fn with_tokens(
    tokens: Map<i64, Credentials<String>>,
    rows: Seq<TwitterToken>,
) -> Map<i64, Credentials<String>>
    decreases rows.len(),
{
    if rows.len() == 0 {
        tokens
    } else {
        with_tokens(tokens, rows.drop_last()).insert(rows.last().id, rows.last().credentials())
    }
}

/// The IDs of rows.
pub open spec fn row_ids(rows: Seq<TwitterToken>) -> Seq<i64> {
    Seq::new(rows.len(), |i: int| rows[i].id)
}

/// The users whose credentials are there once those of some rows were added.
pub proof fn with_tokens_has(
    tokens: Map<i64, Credentials<String>>,
    rows: Seq<TwitterToken>,
    user: i64,
)
    ensures
        with_tokens(tokens, rows).contains_key(user) <==> tokens.contains_key(user) || row_ids(
            rows,
        ).contains(user),
    decreases rows.len(),
{
    if rows.len() > 0 {
        let rest = rows.drop_last();
        with_tokens_has(tokens, rest, user);
        assert(row_ids(rows) == row_ids(rest).push(rows.last().id));
        contains_push(row_ids(rest), rows.last().id, user);
    }
}

/// Tells whether a list names, each once, the users who need credentials and have none.
pub open spec fn lists_unauthed(
    users: Seq<i64>,
    manifest: Manifest,
    tokens: Map<i64, Credentials<String>>,
) -> bool {
    &&& users.no_duplicates()
    &&& forall|user: i64| #[trigger]
        users.contains(user) <==> needs_token(manifest, user) && !tokens.contains_key(user)
}

/// Where as many rows were found as users lack credentials, all of different users among these, the
/// rows complete the credentials that the manifest needs.
pub proof fn loaded_tokens_are_complete(
    manifest: Manifest,
    tokens: Map<i64, Credentials<String>>,
    unauthed: Seq<i64>,
    rows: Seq<TwitterToken>,
    user: i64,
)
    requires
        lists_unauthed(unauthed, manifest, tokens),
        row_ids(rows).no_duplicates(),
        forall|id: i64| #[trigger] row_ids(rows).contains(id) ==> unauthed.contains(id),
        unauthed.len() == rows.len(),
        needs_token(manifest, user),
    ensures
        with_tokens(tokens, rows).contains_key(user),
{
    with_tokens_has(tokens, rows, user);
    same_items(unauthed, row_ids(rows));
    assert(unauthed.contains(user) <==> row_ids(rows).contains(user));
}

/// `sort_unstable` of a slice of integers: the same items in ascending order.
#[verifier::external_body]
fn sort_unstable(v: &mut Vec<u64>)
    ensures
        final(v)@.to_multiset() == old(v)@.to_multiset(),
        forall|i: int, j: int| 0 <= i <= j < final(v)@.len() ==> final(v)@[i] <= final(v)@[j],
{
    v.sort_unstable()
}

/// What to listen to.
#[derive(Debug)]
pub struct StreamRequest {
    pub client: Credentials<String>,
    pub token: Credentials<String>,
    /// The users whose Tweets are received.
    pub follow: Vec<u64>,
}

/// What timeline to read.
#[derive(Debug)]
pub struct ListRequest {
    pub list: TwitterList,
    pub since_id: Option<i64>,
    pub client: Credentials<String>,
    pub token: Credentials<String>,
}

/// Numbers in ascending order, each once.
pub open spec fn is_ascending(v: Seq<u64>) -> bool {
    forall|i: int, j: int| 0 <= i < j < v.len() ==> v[i] < v[j]
}

/// The users as the API has them.
pub open spec fn api_ids(users: Seq<i64>) -> Seq<u64> {
    Seq::new(users.len(), |i: int| users[i] as u64)
}

/// Tells whether what is listened to are the Tweets of the users among the topics, on behalf of the
/// user who reads Twitter.
pub open spec fn is_stream_request(core: Core, request: StreamRequest) -> bool {
    &&& request.client == core.manifest.twitter->0.client
    &&& request.token == core.twitter_tokens@[core.manifest.twitter->0.user]
    &&& is_ascending(request.follow@)
    &&& forall|id: u64| #[trigger]
        request.follow@.contains(id) <==> api_ids(users_of(core.manifest.all_topics())).contains(id)
}

/// Returns numbers in ascending order, each once.
pub fn sorted_unique(v: Vec<u64>) -> (r: Vec<u64>)
    ensures
        is_ascending(r@),
        forall|x: u64| #[trigger] r@.contains(x) <==> v@.contains(x),
{
    broadcast use vstd::seq_lib::group_to_multiset_ensures;

    let ghost all = v@;
    let mut sorted = v;
    sort_unstable(&mut sorted);
    let ghost s = sorted@;
    proof {
        assert forall|x: u64| #[trigger] s.contains(x) <==> all.contains(x) by {
            assert(s.to_multiset().count(x) == all.to_multiset().count(x));
        }
    }
    let mut r: Vec<u64> = Vec::new();
    let mut i: usize = 0;
    while i < sorted.len()
        invariant
            i <= sorted@.len(),
            s == sorted@,
            forall|i: int, j: int| 0 <= i <= j < s.len() ==> s[i] <= s[j],
            is_ascending(r@),
            r@.len() > 0 <==> i > 0,
            i > 0 ==> r@.last() == s[i - 1],
            forall|x: u64| #[trigger] r@.contains(x) <==> s.take(i as int).contains(x),
        decreases sorted@.len() - i,
    {
        let x: u64 = sorted[i];
        let ghost before = r@;
        assert(s.take(i + 1) == s.take(i as int).push(x));
        if r.len() == 0 || r[r.len() - 1] < x {
            r.push(x);
            proof {
                assert forall|y: u64| #[trigger]
                    r@.contains(y) <==> s.take(i + 1).contains(y) by {
                    contains_push(before, x, y);
                    contains_push(s.take(i as int), x, y);
                    assert(before.contains(y) <==> s.take(i as int).contains(y));
                }
                assert(is_ascending(r@)) by {
                    assert forall|a: int, b: int| 0 <= a < b < r@.len() implies r@[a] < r@[b] by {
                        if b == r@.len() - 1 {
                            assert(r@[a] <= before.last());
                        }
                    }
                }
            }
        } else {
            proof {
                assert(r@.last() == x);
                assert(r@.contains(x)) by {
                    assert(r@[r@.len() - 1] == x);
                }
                assert forall|y: u64| #[trigger]
                    r@.contains(y) <==> s.take(i + 1).contains(y) by {
                    contains_push(s.take(i as int), x, y);
                    assert(r@.contains(y) <==> s.take(i as int).contains(y));
                }
            }
        }
        i += 1;
    }
    assert(s.take(i as int) == s);
    r
}

impl Core {
    /// Tells whether every user who needs credentials has them.
    pub open spec fn is_authorized(&self) -> bool {
        forall|user: i64| #[trigger]
            needs_token(self.manifest, user) ==> self.twitter_tokens@.contains_key(user)
    }

    /// Tells whether the user who reads Twitter has credentials.
    pub open spec fn reads_twitter(&self) -> bool {
        self.manifest.twitter matches Some(config) && self.twitter_tokens@.contains_key(config.user)
    }

    /// Tells whether Tweets can be listened to where that is configured.
    pub open spec fn can_listen(&self) -> bool {
        self.manifest.twitter is Some && self.manifest.twitter->0.stream ==> self.reads_twitter()
    }

    /// Tells whether the timeline of a list can be read where one is configured.
    pub open spec fn can_read_list(&self) -> bool {
        self.manifest.twitter is Some && self.manifest.twitter->0.list is Some
            ==> self.reads_twitter()
    }

    /// Tells whether the routes are those of the manifest.
    pub open spec fn is_routed(&self) -> bool {
        self.router.wf() && self.router@ == rules_routes(self.manifest.rule@)
    }

    /// Starts without credentials.
    pub fn new(manifest: Manifest) -> (r: Self)
        ensures
            r.manifest == manifest,
            r.is_routed(),
            r.twitter_tokens@ == Map::<i64, Credentials<String>>::empty(),
    {
        let router = Router::from_manifest(&manifest);
        Core { manifest, router, twitter_tokens: HashMap::new() }
    }

    /// Returns the manifest.
    pub fn manifest(&self) -> (r: &Manifest)
        ensures
            *r == self.manifest,
    {
        &self.manifest
    }

    /// Returns the manifest, to be changed.
    pub fn manifest_mut(&mut self) -> (r: &mut Manifest)
        ensures
            *r == old(self).manifest,
            final(self).manifest == *final(r),
            final(self).router == old(self).router,
            final(self).twitter_tokens == old(self).twitter_tokens,
    {
        &mut self.manifest
    }

    /// Returns the routes.
    pub fn router(&self) -> (r: &Router)
        ensures
            *r == self.router,
    {
        &self.router
    }

    /// Returns the routes, to be changed.
    pub fn router_mut(&mut self) -> (r: &mut Router)
        ensures
            *r == old(self).router,
            final(self).router == *final(r),
            final(self).manifest == old(self).manifest,
            final(self).twitter_tokens == old(self).twitter_tokens,
    {
        &mut self.router
    }

    /// Returns the users who need credentials, each once.
    pub fn users(&self) -> (r: Vec<i64>)
        ensures
            r@.no_duplicates(),
            forall|user: i64| #[trigger]
                r@.contains(user) <==> needs_token(self.manifest, user),
    {
        let mut users: Vec<i64> = Vec::new();
        let config = match &self.manifest.twitter {
            Some(config) => config,
            None => return users,
        };
        let outboxes = self.manifest.twitter_outboxes();
        let mut i: usize = 0;
        while i < outboxes.len()
            invariant
                i <= outboxes@.len(),
                users@.no_duplicates(),
                forall|user: i64| #[trigger]
                    users@.contains(user) <==> outboxes@.take(i as int).contains(user),
            decreases outboxes@.len() - i,
        {
            let ghost before = users@;
            assert(outboxes@.take(i + 1) == outboxes@.take(i as int).push(outboxes@[i as int]));
            insert_id(&mut users, outboxes[i]);
            proof {
                assert forall|user: i64| #[trigger]
                    users@.contains(user) <==> outboxes@.take(i + 1).contains(user) by {
                    contains_push(outboxes@.take(i as int), outboxes@[i as int], user);
                    assert(before.contains(user) <==> outboxes@.take(i as int).contains(user));
                }
            }
            i += 1;
        }
        assert(outboxes@.take(i as int) == outboxes@);
        insert_id(&mut users, config.user);
        users
    }

    /// Returns the users who need credentials and have none, each once.
    pub fn unauthed_users(&self) -> (r: Vec<i64>)
        ensures
            lists_unauthed(r@, self.manifest, self.twitter_tokens@),
    {
        let users = self.users();
        let mut unauthed: Vec<i64> = Vec::new();
        let mut i: usize = 0;
        while i < users.len()
            invariant
                i <= users@.len(),
                unauthed@.no_duplicates(),
                forall|user: i64| #[trigger]
                    unauthed@.contains(user) <==> users@.take(i as int).contains(user)
                        && !self.twitter_tokens@.contains_key(user),
            decreases users@.len() - i,
        {
            let user: i64 = users[i];
            let ghost before = unauthed@;
            assert(users@.take(i + 1) == users@.take(i as int).push(user));
            if !self.twitter_tokens.contains_key(&user) {
                insert_id(&mut unauthed, user);
            }
            proof {
                assert forall|u: i64| #[trigger]
                    unauthed@.contains(u) <==> users@.take(i + 1).contains(u)
                        && !self.twitter_tokens@.contains_key(u) by {
                    contains_push(users@.take(i as int), user, u);
                    assert(before.contains(u) <==> users@.take(i as int).contains(u)
                        && !self.twitter_tokens@.contains_key(u));
                }
            }
            i += 1;
        }
        assert(users@.take(i as int) == users@);
        unauthed
    }

    /// Adds the credentials that were found for the users who have none. Fails, without a change,
    /// where their number is not that of these users.
    pub fn load_twitter_tokens(&mut self, rows: Vec<TwitterToken>) -> (r: Result<(), NotAuthorized>)
        ensures
            final(self).manifest == old(self).manifest,
            final(self).router == old(self).router,
            old(self).manifest.twitter is None ==> r is Ok && final(self).twitter_tokens@ == old(
                self).twitter_tokens@,
            old(self).manifest.twitter is Some ==> exists|unauthed: Seq<i64>| #[trigger]
                lists_unauthed(unauthed, old(self).manifest, old(self).twitter_tokens@) && (
                r is Ok <==> unauthed.len() == rows@.len()),
            old(self).manifest.twitter is Some && r is Ok ==> final(self).twitter_tokens@
                == with_tokens(old(self).twitter_tokens@, rows@),
            r is Err ==> final(self).twitter_tokens@ == old(self).twitter_tokens@,
    {
        if self.manifest.twitter.is_none() {
            return Ok(());
        }
        let unauthed = self.unauthed_users();
        if unauthed.len() != rows.len() {
            return Err(NotAuthorized);
        }
        let ghost all = rows@;
        let ghost before = self.twitter_tokens@;
        let mut rest = rows;
        let ghost mut taken: int = 0;
        assert(all.take(0) == Seq::<TwitterToken>::empty());
        while rest.len() > 0
            invariant
                0 <= taken <= all.len(),
                rest@ == all.skip(taken),
                self.twitter_tokens@ == with_tokens(before, all.take(taken)),
                self.manifest == old(self).manifest,
                self.router == old(self).router,
            decreases rest@.len(),
        {
            let row = rest.remove(0);
            assert(row == all[taken]);
            assert(rest@ == all.skip(taken + 1));
            assert(all.take(taken + 1).drop_last() == all.take(taken));
            assert(all.take(taken + 1).last() == row);
            let id: i64 = row.id;
            self.twitter_tokens.insert(id, row.into_credentials());
            proof {
                taken = taken + 1;
            }
        }
        assert(all.take(taken) == all);
        Ok(())
    }

    /// Drops the credentials that are not needed.
    pub fn gc_twitter_tokens(&mut self)
        ensures
            final(self).manifest == old(self).manifest,
            final(self).router == old(self).router,
            forall|user: i64| #[trigger]
                final(self).twitter_tokens@.contains_key(user) <==> needs_token(
                    old(self).manifest,
                    user,
                ) && old(self).twitter_tokens@.contains_key(user),
            forall|user: i64| #[trigger]
                final(self).twitter_tokens@.contains_key(user)
                    ==> final(self).twitter_tokens@[user] == old(self).twitter_tokens@[user],
    {
        if self.manifest.twitter.is_none() {
            self.twitter_tokens = HashMap::new();
            return;
        }
        let users = self.users();
        let known = token_users(&self.twitter_tokens);
        let mut i: usize = 0;
        proof {
            assert(known@.skip(0) == known@);
            assert forall|user: i64| #[trigger]
                self.twitter_tokens@.contains_key(user) implies known@.contains(user) by {}
        }
        while i < known.len()
            invariant
                i <= known@.len(),
                known@.no_duplicates(),
                forall|user: i64| #[trigger]
                    known@.contains(user) <==> old(self).twitter_tokens@.contains_key(user),
                forall|user: i64| #[trigger]
                    users@.contains(user) <==> needs_token(old(self).manifest, user),
                self.manifest == old(self).manifest,
                self.router == old(self).router,
                forall|user: i64| #[trigger]
                    self.twitter_tokens@.contains_key(user) <==> old(
                        self).twitter_tokens@.contains_key(user) && (known@.skip(
                        i as int,
                    ).contains(user) || users@.contains(user)),
                forall|user: i64| #[trigger]
                    self.twitter_tokens@.contains_key(user) ==> self.twitter_tokens@[user] == old(
                        self).twitter_tokens@[user],
            decreases known@.len() - i,
        {
            let user: i64 = known[i];
            let ghost before = self.twitter_tokens@;
            proof {
                assert(known@.skip(i as int) == seq![user] + known@.skip(i + 1));
                assert forall|u: i64| #[trigger]
                    known@.skip(i as int).contains(u) <==> u == user || known@.skip(
                        i + 1,
                    ).contains(u) by {
                    crate::sets::contains_concat(seq![user], known@.skip(i + 1), u);
                    assert(seq![user].contains(u) <==> u == user) by {
                        assert(seq![user][0] == user);
                    }
                }
                let later = known@.skip(i + 1);
                assert(!later.contains(user)) by {
                    if later.contains(user) {
                        let k = choose|k: int| 0 <= k < later.len() && later[k] == user;
                        assert(known@[i + 1 + k] == user);
                    }
                }
            }
            if !contains_id(&users, user) {
                let _ = self.twitter_tokens.remove(&user);
            }
            proof {
                assert forall|u: i64| #[trigger]
                    self.twitter_tokens@.contains_key(u) <==> old(
                        self).twitter_tokens@.contains_key(u) && (known@.skip(
                        i + 1,
                    ).contains(u) || users@.contains(u)) by {
                    assert(before.contains_key(u) <==> old(self).twitter_tokens@.contains_key(u)
                        && (known@.skip(i as int).contains(u) || users@.contains(u)));
                }
                assert forall|u: i64| #[trigger]
                    self.twitter_tokens@.contains_key(u) implies self.twitter_tokens@[u] == old(
                        self).twitter_tokens@[u] by {
                    assert(before.contains_key(u));
                }
            }
            i += 1;
        }
        proof {
            assert forall|u: i64| #[trigger]
                self.twitter_tokens@.contains_key(u) <==> needs_token(old(self).manifest, u) && old(
                    self).twitter_tokens@.contains_key(u) by {
                assert(!known@.skip(i as int).contains(u));
                assert(users@.contains(u) <==> needs_token(old(self).manifest, u));
            }
        }
    }

    /// Returns the credentials of a user.
    pub fn twitter_access_token(&self, user: i64) -> (r: Option<&Credentials<String>>)
        ensures
            match r {
                Some(token) => self.twitter_tokens@.contains_key(user) && *token
                    == self.twitter_tokens@[user],
                None => !self.twitter_tokens@.contains_key(user),
            },
    {
        self.twitter_tokens.get(&user)
    }

    /// Returns the credentials of the client and of a user; where none is given, of the user who
    /// reads Twitter.
    pub fn twitter_token(&self, user: Option<i64>) -> (r: Option<
        (&Credentials<String>, &Credentials<String>),
    >)
        ensures
            match (self.manifest.twitter, r) {
                (None, r) => r is None,
                (Some(config), r) => {
                    let id = match user {
                        Some(user) => user,
                        None => config.user,
                    };
                    match r {
                        Some((client, token)) => *client == config.client
                            && self.twitter_tokens@.contains_key(id) && *token
                            == self.twitter_tokens@[id],
                        None => !self.twitter_tokens@.contains_key(id),
                    }
                },
            },
    {
        match &self.manifest.twitter {
            Some(config) => {
                let id: i64 = match user {
                    Some(user) => user,
                    None => config.user,
                };
                match self.twitter_access_token(id) {
                    Some(token) => Some((&config.client, token)),
                    None => None,
                }
            },
            None => None,
        }
    }

    /// Returns what to listen to: the Tweets of the users among the topics, if that is configured.
    pub fn init_twitter(&self) -> (r: Option<StreamRequest>)
        requires
            self.can_listen(),
        ensures
            r is Some <==> self.manifest.twitter is Some && self.manifest.twitter->0.stream,
            r matches Some(request) ==> is_stream_request(*self, request),
    {
        let config = match &self.manifest.twitter {
            Some(config) => config,
            None => return None,
        };
        if !config.stream {
            return None;
        }
        let token = match self.twitter_access_token(config.user) {
            Some(token) => token,
            None => return None,
        };
        let users = self.manifest.twitter_topics();
        let mut ids: Vec<u64> = Vec::new();
        let mut i: usize = 0;
        while i < users.len()
            invariant
                i <= users@.len(),
                ids@ == api_ids(users@.take(i as int)),
            decreases users@.len() - i,
        {
            ids.push(users[i] as u64);
            i += 1;
        }
        assert(users@.take(i as int) == users@);
        let follow = sorted_unique(ids);
        Some(
            StreamRequest { client: config.client.duplicate(), token: token.duplicate(), follow },
        )
    }

    /// Returns what timeline to read, if one is configured, given the last Tweet that was processed.
    pub fn init_twitter_list(&self, last_tweet: Option<i64>) -> (r: Option<ListRequest>)
        requires
            self.can_read_list(),
        ensures
            r is Some <==> self.manifest.twitter is Some && self.manifest.twitter->0.list is Some,
            r matches Some(request) ==> {
                &&& request.list == self.manifest.twitter->0.list->0
                &&& request.since_id == (if last_tweet is Some && last_tweet->0 > 0 {
                    last_tweet
                } else {
                    None
                })
                &&& request.client == self.manifest.twitter->0.client
                &&& request.token == self.twitter_tokens@[self.manifest.twitter->0.user]
            },
    {
        let config = match &self.manifest.twitter {
            Some(config) => config,
            None => return None,
        };
        let list = match &config.list {
            Some(list) => *list,
            None => return None,
        };
        let since_id = match last_tweet {
            Some(id) => if id > 0 {
                Some(id)
            } else {
                None
            },
            None => None,
        };
        match self.twitter_access_token(config.user) {
            Some(token) => Some(
                ListRequest {
                    list,
                    since_id,
                    client: config.client.duplicate(),
                    token: token.duplicate(),
                },
            ),
            None => None,
        }
    }
}

/// Returns the users who have credentials, each once.
fn token_users(tokens: &HashMap<i64, Credentials<String>>) -> (r: Vec<i64>)
    ensures
        r@.no_duplicates(),
        forall|user: i64| #[trigger] r@.contains(user) <==> tokens@.contains_key(user),
{
    let mut users: Vec<i64> = Vec::new();
    let ghost order = spec_keys_iter(tokens).remaining();
    for user in it: tokens.keys()
        invariant
            it.seq() == order,
            users@.len() == it.index(),
            forall|i: int| 0 <= i < users@.len() ==> users@[i] == *order[i],
    {
        users.push(*user);
    }
    proof {
        assert(users@ == order.unref());
        assert forall|user: i64| #[trigger]
            users@.contains(user) <==> tokens@.contains_key(user) by {
            assert(users@.to_set().contains(user) <==> users@.contains(user));
        }
    }
    users
}

/// Where every user who needs credentials has them, Tweets can be listened to and the timeline of a
/// list can be read as configured.
pub proof fn authorized_can_connect(core: Core)
    requires
        core.is_authorized(),
    ensures
        core.can_listen(),
        core.can_read_list(),
{
    if core.manifest.twitter is Some {
        assert(needs_token(core.manifest, core.manifest.twitter->0.user));
    }
}

/// Whatever outbox a Tweet is sent to, the user of the outbox has credentials, so that sending never
/// fails for want of them.
pub proof fn outboxes_of_tweets_have_tokens(core: Core, tweet: Tweet, user: i64)
    requires
        core.is_routed(),
        core.is_authorized(),
        core.manifest.twitter is Some,
    ensures
        tweet_outboxes(
            core.router.routes(TopicIdView::Twitter(tweet.user.id)),
            tweet,
        ).contains(Outbox::Twitter(user)) ==> core.twitter_tokens@.contains_key(user),
{
    let topic = TopicIdView::Twitter(tweet.user.id);
    if core.router@.contains_key(topic) {
        tweets_go_to_outboxes_of_the_manifest(core.manifest, topic, tweet, Outbox::Twitter(user));
    }
    outbox_users_contains(core.manifest.all_outboxes(), user);
    assert(needs_token(core.manifest, user) || !core.manifest.all_outboxes().contains(
        Outbox::Twitter(user),
    ));
}

/// Whatever outbox an entry is sent to, the user of the outbox has credentials, so that sending never
/// fails for want of them.
pub proof fn outboxes_of_entries_have_tokens(core: Core, topic: Seq<char>, entry: Entry, user: i64)
    requires
        core.is_routed(),
        core.is_authorized(),
        core.manifest.twitter is Some,
    ensures
        entry_outboxes(core.router.routes(TopicIdView::Feed(topic)), entry).contains(
            Outbox::Twitter(user),
        ) ==> core.twitter_tokens@.contains_key(user),
{
    let topic = TopicIdView::Feed(topic);
    if core.router@.contains_key(topic) {
        entries_go_to_outboxes_of_the_manifest(core.manifest, topic, entry, Outbox::Twitter(user));
    }
    outbox_users_contains(core.manifest.all_outboxes(), user);
    assert(needs_token(core.manifest, user) || !core.manifest.all_outboxes().contains(
        Outbox::Twitter(user),
    ));
}

/// The user of an outbox is among the users of the outboxes.
proof fn outbox_users_contains(outboxes: Seq<Outbox>, user: i64)
    ensures
        outboxes.contains(Outbox::Twitter(user)) ==> outbox_users(outboxes).contains(user),
{
    if outboxes.contains(Outbox::Twitter(user)) {
        let i = choose|i: int| 0 <= i < outboxes.len() && outboxes[i] == Outbox::Twitter(user);
        assert(outbox_users(outboxes)[i] == user);
    }
}

/// Credentials are needed for the user who reads Twitter and for every user whom an outbox names, and
/// for nobody else; without a configuration of Twitter, for nobody.
pub proof fn readers_and_outboxes_need_tokens(manifest: Manifest, user: i64)
    ensures
        manifest.twitter is None ==> !needs_token(manifest, user),
        manifest.twitter matches Some(config) ==> needs_token(manifest, config.user),
        manifest.twitter is Some && manifest.all_outboxes().contains(Outbox::Twitter(user))
            ==> needs_token(manifest, user),
        needs_token(manifest, user) ==> manifest.twitter is Some && (user
            == manifest.twitter->0.user || manifest.all_outboxes().contains(Outbox::Twitter(user))),
{
    crate::manifest::users_are_those_of_outboxes(manifest.all_outboxes(), user);
}

/// Rows give the users whom they name their credentials, those of the last row of a user; the
/// credentials of other users stay.
pub proof fn rows_give_their_tokens(
    tokens: Map<i64, Credentials<String>>,
    rows: Seq<TwitterToken>,
    user: i64,
)
    ensures
        forall|i: int|
            0 <= i < rows.len() && (#[trigger] rows[i]).id == user && (forall|j: int|
                i < j < rows.len() ==> (#[trigger] rows[j]).id != user) ==> with_tokens(tokens, rows)[user].key
                == rows[i].access_token && with_tokens(tokens, rows)[user].secret
                == rows[i].access_token_secret,
        !row_ids(rows).contains(user) ==> with_tokens(tokens, rows).contains_key(user)
            == tokens.contains_key(user) && with_tokens(tokens, rows)[user] == tokens[user],
    decreases rows.len(),
{
    with_tokens_has(tokens, rows, user);
    if rows.len() > 0 {
        let rest = rows.drop_last();
        let n = rows.len() - 1;
        rows_give_their_tokens(tokens, rest, user);
        assert(rows[n] == rows.last());
        assert(row_ids(rows) == row_ids(rest).push(rows.last().id));
        contains_push(row_ids(rest), rows.last().id, user);
        assert forall|i: int|
            0 <= i < rows.len() && (#[trigger] rows[i]).id == user && (forall|j: int|
                i < j < rows.len() ==> (#[trigger] rows[j]).id != user) implies with_tokens(
            tokens,
            rows,
        )[user].key == rows[i].access_token && with_tokens(tokens, rows)[user].secret
            == rows[i].access_token_secret by {
            if i < n {
                assert(rows[n].id != user);
                assert(rest[i].id == user);
                assert forall|j: int| i < j < rest.len() implies (#[trigger] rest[j]).id
                    != user by {
                    assert(rows[j].id != user);
                }
            }
        }
    }
}

/// The stream follows every Twitter user among the topics and nobody else, each once, on behalf of the
/// user who reads Twitter.
pub proof fn streams_follow_the_topics(core: Core, request: StreamRequest, user: i64, id: u64)
    requires
        is_stream_request(core, request),
    ensures
        core.manifest.all_topics().contains(TopicIdView::Twitter(user)) ==> request.follow@.contains(
            user as u64,
        ),
        request.follow@.contains(id) ==> exists|user: i64| #[trigger]
            core.manifest.all_topics().contains(TopicIdView::Twitter(user)) && id == user as u64,
        request.follow@.no_duplicates(),
        request.client == core.manifest.twitter->0.client,
        request.token == core.twitter_tokens@[core.manifest.twitter->0.user],
{
    let topics = core.manifest.all_topics();
    let users = users_of(topics);
    crate::manifest::users_are_topics(topics, user);
    if topics.contains(TopicIdView::Twitter(user)) {
        let i = choose|i: int| 0 <= i < users.len() && users[i] == user;
        assert(api_ids(users)[i] == user as u64);
        assert(api_ids(users).contains(user as u64));
    }
    if request.follow@.contains(id) {
        let i = choose|i: int| 0 <= i < api_ids(users).len() && api_ids(users)[i] == id;
        crate::manifest::users_are_topics(topics, users[i]);
        assert(users.contains(users[i]));
        assert(topics.contains(TopicIdView::Twitter(users[i])));
    }
}

/// The users who lack credentials are exactly those who need them and have none.
pub proof fn unauthed_users_lack_tokens(
    users: Seq<i64>,
    manifest: Manifest,
    tokens: Map<i64, Credentials<String>>,
    user: i64,
)
    requires
        lists_unauthed(users, manifest, tokens),
    ensures
        users.no_duplicates(),
        manifest.twitter is Some && manifest.all_outboxes().contains(Outbox::Twitter(user))
            && !tokens.contains_key(user) ==> users.contains(user),
        manifest.twitter is Some && !tokens.contains_key(manifest.twitter->0.user) ==> users.contains(
            manifest.twitter->0.user,
        ),
        tokens.contains_key(user) ==> !users.contains(user),
        users.contains(user) ==> manifest.twitter is Some,
        users.len() == 0 && manifest.twitter is Some ==> tokens.contains_key(
            manifest.twitter->0.user,
        ) && (manifest.all_outboxes().contains(Outbox::Twitter(user)) ==> tokens.contains_key(
            user,
        )),
{
    readers_and_outboxes_need_tokens(manifest, user);
    if manifest.twitter is Some {
        readers_and_outboxes_need_tokens(manifest, manifest.twitter->0.user);
        assert(needs_token(manifest, manifest.twitter->0.user));
        assert(users.contains(manifest.twitter->0.user) <==> !tokens.contains_key(
            manifest.twitter->0.user,
        ));
    }
    assert(users.contains(user) <==> needs_token(manifest, user) && !tokens.contains_key(user));
}

/// Tweets can be listened to, and the timeline of a list read, exactly where that is not configured or
/// the user who reads Twitter has credentials.
pub proof fn reading_needs_a_token(core: Core)
    ensures
        core.manifest.twitter is None ==> core.can_listen() && core.can_read_list(),
        core.manifest.twitter matches Some(config) ==> {
            &&& core.twitter_tokens@.contains_key(config.user) ==> core.can_listen()
                && core.can_read_list()
            &&& !core.twitter_tokens@.contains_key(config.user) ==> (core.can_listen()
                <==> !config.stream) && (core.can_read_list() <==> config.list is None)
        },
{
}

/// Numbers in ascending order occur each once, and the first one is the least.
pub proof fn ascending_numbers_occur_once(v: Seq<u64>, i: int, j: int)
    requires
        is_ascending(v),
        0 <= i < j < v.len(),
    ensures
        v[i] < v[j],
        v.no_duplicates(),
{
}

} // verus!
