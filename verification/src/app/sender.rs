//! What is sent to the outboxes.

use vstd::prelude::*;

use crate::feed::{Entry, Feed};
use crate::manifest::Outbox;
#[allow(unused_imports)]
use crate::manifest::TopicIdView;
use crate::router::Router;
#[allow(unused_imports)]
use crate::router::entry_outboxes;
#[allow(unused_imports)]
use crate::strings::opt_view;
use crate::twitter::text::{sanitize, MAX_WEIGHTED_TWEET_LENGTH, TRANSFORMED_URL_LENGTH};
#[allow(unused_imports)]
use crate::twitter::text::{sanitized, sanitized_is_short};

verus! {

/// The weight that a title may have: what is left by the URL and the line break in front of it.
pub const TITLE_LEN: usize = MAX_WEIGHTED_TWEET_LENGTH - 1 - TRANSFORMED_URL_LENGTH;

/// A Tweet that is to be posted.
#[derive(Debug)]
pub struct Post {
    pub user: i64,
    pub text: String,
}

/// The text that announces an entry: its title, cut if need be, and its link in a line of its own.
pub open spec fn announcement(title: Option<Seq<char>>, link: Seq<char>) -> Seq<char> {
    match title {
        Some(title) => sanitized(title, TITLE_LEN).push('\n') + link,
        None => link,
    }
}

/// The title of an announcement, its line break and its link, whatever that weighs as a URL, are
/// within the weight of a Tweet even if every character of the title weighs two.
pub proof fn announcement_fits_in_a_tweet(title: Seq<char>, link: Seq<char>)
    ensures
        announcement(Some(title), link) == sanitized(title, TITLE_LEN) + seq!['\n'] + link,
        2 * sanitized(title, TITLE_LEN).len() + 1 + TRANSFORMED_URL_LENGTH
            <= MAX_WEIGHTED_TWEET_LENGTH,
{
    sanitized_is_short(title, TITLE_LEN);
    assert(announcement(Some(title), link) == sanitized(title, TITLE_LEN) + seq!['\n'] + link);
}

/// Returns the text that announces an entry.
pub fn announce(title: &Option<String>, link: &str) -> (r: String)
    ensures
        r@ == announcement(opt_view(*title), link@),
{
    match title {
        Some(title) => {
            let mut text = title.clone();
            sanitize(&mut text, TITLE_LEN);
            text.push('\n');
            text.append(link);
            text
        },
        None => link.to_owned(),
    }
}

/// Returns what is to be posted to some outboxes.
pub fn posts_to(outboxes: &Vec<Outbox>, text: &str) -> (r: Vec<Post>)
    ensures
        r@.len() == outboxes@.len(),
        forall|i: int|
            0 <= i < r@.len() ==> Outbox::Twitter((#[trigger] r@[i]).user) == outboxes@[i]
                && r@[i].text@ == text@,
{
    let mut posts: Vec<Post> = Vec::new();
    let mut i: usize = 0;
    while i < outboxes.len()
        invariant
            i <= outboxes@.len(),
            posts@.len() == i,
            forall|j: int|
                0 <= j < i ==> Outbox::Twitter((#[trigger] posts@[j]).user) == outboxes@[j]
                    && posts@[j].text@ == text@,
        decreases outboxes@.len() - i,
    {
        match outboxes[i] {
            Outbox::Twitter(user) => posts.push(Post { user, text: text.to_owned() }),
        }
        i += 1;
    }
    posts
}

/// The outboxes that an entry of a feed is announced to: none where it has no link or has been
/// processed already.
pub open spec fn announced_to(
    router: Router,
    topic: Seq<char>,
    entry: Entry,
    already_processed: bool,
) -> Seq<Outbox> {
    if entry.link is None || already_processed {
        Seq::empty()
    } else {
        entry_outboxes(router.routes(TopicIdView::Feed(topic)), entry)
    }
}

/// Tells whether posts announce an entry of a feed to its outboxes, in their order.
pub open spec fn announces(
    posts: Seq<Post>,
    router: Router,
    topic: Seq<char>,
    entry: Entry,
    already_processed: bool,
) -> bool {
    let outboxes = announced_to(router, topic, entry, already_processed);
    &&& posts.len() == outboxes.len()
    &&& forall|i: int|
        0 <= i < posts.len() ==> Outbox::Twitter((#[trigger] posts[i]).user) == outboxes[i]
            && posts[i].text@ == announcement(opt_view(entry.title), entry.link->0@)
}

/// Sends entries to their corresponding outboxes.
#[derive(Copy, Clone, Debug)]
pub struct Sender {}

impl Default for Sender {
    fn default() -> (r: Self)
        ensures
            r == (Sender {  }),
    {
        Sender {  }
    }
}

impl Sender {
    /// Makes a sender.
    pub fn new() -> (r: Self)
        ensures
            r == (Sender {  }),
    {
        Sender {  }
    }

    /// Returns what is to be posted for each entry of a feed, given which ones have been processed.
    pub fn send_feed(
        &self,
        router: &Router,
        topic: &str,
        feed: &Feed,
        already_processed: &Vec<bool>,
    ) -> (r: Vec<Vec<Post>>)
        requires
            already_processed@.len() == feed.entries@.len(),
        ensures
            r@.len() == feed.entries@.len(),
            forall|i: int|
                0 <= i < r@.len() ==> announces(
                    (#[trigger] r@[i])@,
                    *router,
                    topic@,
                    feed.entries@[i],
                    already_processed@[i],
                ),
    {
        let mut posts: Vec<Vec<Post>> = Vec::new();
        let mut i: usize = 0;
        while i < feed.entries.len()
            invariant
                i <= feed.entries@.len(),
                already_processed@.len() == feed.entries@.len(),
                posts@.len() == i,
                forall|j: int|
                    0 <= j < i ==> announces(
                        (#[trigger] posts@[j])@,
                        *router,
                        topic@,
                        feed.entries@[j],
                        already_processed@[j],
                    ),
            decreases feed.entries@.len() - i,
        {
            posts.push(self.send_entry(router, topic, &feed.entries[i], already_processed[i]));
            i += 1;
        }
        posts
    }

    /// Returns what is to be posted for an entry of a feed, in the order of the outboxes.
    pub fn send_entry(
        &self,
        router: &Router,
        topic: &str,
        entry: &Entry,
        already_processed: bool,
    ) -> (r: Vec<Post>)
        ensures
            announces(r@, *router, topic@, *entry, already_processed),
    {
        let link = match &entry.link {
            Some(link) => link,
            None => return Vec::new(),
        };
        if already_processed {
            return Vec::new();
        }
        let text = announce(&entry.title, link.as_str());
        let outboxes = router.route_entry(topic, entry);
        posts_to(&outboxes, text.as_str())
    }
}

/// An entry with a link that has not been processed is announced once to each outbox of its routes, in
/// their order, and any other entry to none. Where it has a title, that comes first, in a line of its
/// own, and the link stands behind it as it is; a title of up to 128 characters stands there whole.
pub proof fn entries_are_announced(
    posts: Seq<Post>,
    router: Router,
    topic: Seq<char>,
    entry: Entry,
    already_processed: bool,
)
    requires
        announces(posts, router, topic, entry, already_processed),
    ensures
        entry.link is None || already_processed ==> posts.len() == 0,
        entry.link is Some && !already_processed ==> {
            let outboxes = entry_outboxes(
                crate::router::topic_routes(router@, TopicIdView::Feed(topic)),
                entry,
            );
            &&& posts.len() == outboxes.len()
            &&& forall|i: int|
                0 <= i < posts.len() ==> outboxes[i] == Outbox::Twitter(
                    (#[trigger] posts[i]).user,
                )
            &&& forall|i: int|
                #![trigger posts[i]]
                0 <= i < posts.len() && entry.title is None ==> posts[i].text@ == entry.link->0@
            &&& forall|i: int|
                #![trigger posts[i]]
                0 <= i < posts.len() && entry.title is Some && entry.title->0@.len() <= 128
                    ==> posts[i].text@ == entry.title->0@ + seq!['\n'] + entry.link->0@
            &&& forall|i: int|
                #![trigger posts[i]]
                0 <= i < posts.len() && entry.title is Some && entry.title->0@.len() > 128
                    ==> posts[i].text@ == entry.title->0@.take(127) + seq!['\u{2026}', '\n']
                    + entry.link->0@
        },
{
    if entry.link is Some && !already_processed {
        assert forall|i: int|
            #![trigger posts[i]]
            0 <= i < posts.len() && entry.title is Some && entry.title->0@.len()
                <= 128 implies posts[i].text@ == entry.title->0@ + seq!['\n'] + entry.link->0@ by {
            assert(posts[i].text@ == announcement(opt_view(entry.title), entry.link->0@));
            assert(entry.title->0@.push('\n') == entry.title->0@ + seq!['\n']);
        }
        assert forall|i: int|
            #![trigger posts[i]]
            0 <= i < posts.len() && entry.title is Some && entry.title->0@.len()
                > 128 implies posts[i].text@ == entry.title->0@.take(127) + seq!['\u{2026}', '\n']
            + entry.link->0@ by {
            assert(posts[i].text@ == announcement(opt_view(entry.title), entry.link->0@));
            assert(entry.title->0@.take(127).push('\u{2026}').push('\n')
                == entry.title->0@.take(127) + seq!['\u{2026}', '\n']);
        }
    }
}

} // verus!
