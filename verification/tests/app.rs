use std::sync::Arc;

use pipitor::app::builder::Builder;
use pipitor::app::retweet_queue::{
    negligible, PendingRetweets, QueueStep, RetweetQueue, Retweeted,
};
use pipitor::app::sender::{announce, posts_to, Sender};
use pipitor::app::shutdown::Shutdown;
use pipitor::app::state::{sorted_unique, Core, NotAuthorized};
use pipitor::app::twitter_request_ext::send;
use pipitor::app::{
    difference, has_updates, init_websub, sync_websub_subscriptions, will_process, App, Incoming,
    NoIncoming, ReplaceError, Replacing, StreamEvent, StreamStep,
};
use pipitor::body::ConcatBody;
use pipitor::feed::{Entry, Feed};
use pipitor::first::{first, Either};
use pipitor::manifest::{
    Manifest, ManifestError, Outbox, OutboxList, Route, Rule, TopicId, Twitter, TwitterList, WebSub,
};
use pipitor::models::{NewEntry, TwitterToken};
use pipitor::poll::Poll;
use pipitor::router::Router;
use pipitor::socket::Addr;
use pipitor::twitter::api::account::VerifyCredentials;
use pipitor::twitter::api::users::Me;
use pipitor::twitter::{Credentials, Tweet, User};
use pipitor::uri::Uri;

fn tweet(user: i64, reply_to: Option<i64>) -> Tweet {
    Tweet {
        id: 1,
        text: "text".to_owned(),
        user: User { id: user },
        in_reply_to_user_id: reply_to,
        in_reply_to_status_id: None,
        quoted_status_id: None,
        retweeted_status: None,
    }
}

fn manifest(user: i64, topics: Vec<TopicId>, outboxes: &[i64]) -> Manifest {
    let mut outbox = OutboxList::new();
    outbox.extend(&outboxes.iter().map(|&u| Outbox::Twitter(u)).collect());
    let mut manifest = Manifest::new();
    manifest.rule.push(Rule { route: Arc::new(Route::new(None, None, outbox)), topics });
    manifest.twitter = Some(Twitter {
        client: Credentials { key: "key".to_owned(), secret: "secret".to_owned() },
        user,
        stream: true,
        list: None,
    });
    manifest
}

fn row(id: i64) -> TwitterToken {
    TwitterToken {
        id,
        access_token: format!("token{}", id),
        access_token_secret: format!("secret{}", id),
    }
}

fn feed(url: &str) -> TopicId {
    TopicId::Feed(url.to_owned())
}

fn entry(title: Option<&str>, link: Option<&str>) -> Entry {
    Entry {
        title: title.map(|s| s.to_owned()),
        id: Some("id".to_owned()),
        link: link.map(|s| s.to_owned()),
        summary: None,
        content: None,
        updated: Some(3),
    }
}

#[test]
fn no_extra_wakeup() {
    let mut shutdown = Shutdown::new();
    let mut is_woken = false;
    // The handle that is tested.
    shutdown.clone_handle();

    assert_eq!(shutdown.poll(), Poll::Pending);
    assert!(!is_woken);

    // A clone of it.
    shutdown.clone_handle();
    assert!(!is_woken);

    is_woken |= shutdown.drop_handle();
    assert!(!is_woken);

    assert_eq!(shutdown.poll(), Poll::Pending);
    assert!(!is_woken);

    is_woken |= shutdown.drop_handle();
    assert!(is_woken);

    assert_eq!(shutdown.poll(), Poll::Ready(()));
}

#[test]
fn nobody_is_woken_who_does_not_wait() {
    let mut shutdown = Shutdown::new();
    assert_eq!(shutdown.poll(), Poll::Ready(()));
    shutdown.clone_handle();
    assert!(!shutdown.drop_handle());
    shutdown.clone_handle();
    assert_eq!(shutdown.poll(), Poll::Pending);
    assert!(shutdown.drop_handle());
    shutdown.clone_handle();
    assert!(!shutdown.drop_handle());
}

#[test]
fn first_of_two() {
    assert_eq!(first(Poll::Ready(1), Poll::Ready('a')).poll(), Poll::Ready(Either::Left(1)));
    assert_eq!(
        first(Poll::<u8>::Pending, Poll::Ready('a')).poll(),
        Poll::Ready(Either::Right('a'))
    );
    assert_eq!(first(Poll::<u8>::Pending, Poll::<u8>::Pending).poll(), Poll::Pending);
}

#[test]
fn building() {
    let host = Uri {
        scheme: Some("http".to_owned()),
        authority: Some("example.com".to_owned()),
        path: "/".to_owned(),
        query: None,
    };
    let builder = Builder::new().http_client(7).websub("incoming", host);
    assert_eq!(builder.client, (7,));
    assert_eq!(builder.websub.0, "incoming");
    assert_eq!(builder.websub.1.to_text(), "http://example.com/");
}

#[test]
fn bodies() {
    let mut body = ConcatBody::new();
    body.push(b"ab");
    body.push(b"");
    body.push(b"c");
    assert_eq!(body.finish(), b"abc");
}

#[test]
fn announcements() {
    let title = |n: usize| Some("x".repeat(n));
    let link = "http://example.com/";
    assert_eq!(announce(&None, link), link);
    assert_eq!(announce(&title(3), link), "xxx\nhttp://example.com/");
    assert_eq!(announce(&title(128), link), format!("{}\n{}", "x".repeat(128), link));
    assert_eq!(announce(&title(129), link), format!("{}…\n{}", "x".repeat(127), link));
}

#[test]
fn sending_entries() {
    let router = Router::from_manifest(&manifest(1, vec![feed("f")], &[10, 11]));
    let posts = Sender::new().send_entry(&router, "f", &entry(Some("t"), Some("l")), false);
    assert_eq!(posts.len(), 2);
    assert_eq!((posts[0].user, posts[0].text.as_str()), (10, "t\nl"));
    assert_eq!((posts[1].user, posts[1].text.as_str()), (11, "t\nl"));
    assert!(Sender::new().send_entry(&router, "f", &entry(Some("t"), Some("l")), true).is_empty());
    assert!(Sender::new().send_entry(&router, "f", &entry(Some("t"), None), false).is_empty());
    assert!(Sender::new().send_entry(&router, "g", &entry(Some("t"), Some("l")), false).is_empty());
    assert_eq!(posts_to(&vec![Outbox::Twitter(3)], "x")[0].user, 3);

    let feed = Feed {
        title: "f".to_owned(),
        id: "i".to_owned(),
        entries: vec![entry(None, Some("a")), entry(None, None), entry(None, Some("b"))],
    };
    let posts = Sender::new().send_feed(&router, "f", &feed, &vec![false, false, true]);
    assert_eq!(posts.iter().map(|p| p.len()).collect::<Vec<_>>(), vec![2, 0, 0]);
    assert_eq!(posts[0][1].text, "a");

    let entry_ = entry(Some("t"), Some("l"));
    let row = NewEntry::new("f", &entry_).unwrap();
    assert_eq!((row.topic, row.id, row.link, row.title), ("f", Some("id"), "l", Some("t")));
    assert_eq!((row.summary, row.content, row.updated), (None, None, Some(3)));
    assert!(NewEntry::new("f", &entry(None, None)).is_none());
}

#[test]
fn retweets() {
    assert!(negligible(&Some(vec![1, 327])));
    assert!(negligible(&Some(vec![144])));
    assert!(!negligible(&Some(vec![1])));
    assert!(!negligible(&None));

    let mut queue = RetweetQueue::new();
    assert!(queue.is_empty());
    assert!(!queue.contains(1));
    // A Tweet without requests is not waited for.
    assert!(PendingRetweets::new().is_empty());
    queue.insert(tweet(1, None), PendingRetweets::new());
    match queue.poll::<u8>(None) {
        QueueStep::Done => {}
        step => panic!("{:?}", step),
    }

    for user in 1..=2 {
        let mut retweets = PendingRetweets::new();
        retweets.push();
        retweets.push();
        assert!(!retweets.is_empty());
        queue.insert(tweet(user, None), retweets);
    }
    match queue.poll::<u8>(None) {
        QueueStep::Wait => {}
        step => panic!("{:?}", step),
    }
    // Errors of no consequence count as replies.
    let gone = Retweeted::Failed { error: 1, codes: Some(vec![144]) };
    match queue.poll(Some((1, vec![gone]))) {
        QueueStep::Wait => {}
        step => panic!("{:?}", step),
    }
    match queue.poll::<u8>(Some((1, vec![Retweeted::Done]))) {
        QueueStep::Store(stored) => assert_eq!(stored.user.id, 2),
        step => panic!("{:?}", step),
    }
    queue.finish(1);
    let failed = Retweeted::Failed { error: 7, codes: None };
    match queue.poll(Some((0, vec![Retweeted::Done, failed]))) {
        QueueStep::Failed(7) => {}
        step => panic!("{:?}", step),
    }
    match queue.poll::<u8>(None) {
        QueueStep::Done => {}
        step => panic!("{:?}", step),
    }
    assert!(queue.is_empty());
}

#[test]
fn retweets_without_a_tweet() {
    // The Tweet matters once all replies have come.
    let mut retweets = PendingRetweets::new();
    retweets.push();
    retweets.push();
    retweets.push();
    match retweets.poll::<u8>(vec![Retweeted::Done]) {
        Poll::Pending => {}
        step => panic!("{:?}", step),
    }
    match retweets.poll(vec![Retweeted::Failed { error: 9, codes: None }, Retweeted::Done]) {
        Poll::Ready(Err(9)) => {}
        step => panic!("{:?}", step),
    }

    let mut queue = RetweetQueue::default();
    assert!(queue.is_empty());
    // The set of IDs does not follow the queue.
    let mut retweets = PendingRetweets::new();
    retweets.push();
    queue.insert(tweet(1, None), retweets);
    assert!(queue.is_empty());
    assert!(!queue.contains(1));
}

#[test]
fn tokens_of_outboxes_are_not_needed_to_connect() {
    let mut core = Core::new(manifest(1, vec![TopicId::Twitter(5)], &[10]));
    assert_eq!(core.load_twitter_tokens(vec![row(1)]), Err(NotAuthorized));
    let token = Credentials { key: "token1".to_owned(), secret: "secret1".to_owned() };
    core.twitter_tokens.insert(1, token);
    assert_eq!(core.unauthed_users(), vec![10]);
    assert_eq!(core.init_twitter().unwrap().token.key, "token1");
    assert!(core.init_twitter_list(None).is_none());
    let mut app = App { core, pool: "", twitter: None::<u8>, twitter_list: 1u8 };
    assert_eq!(app.reset().unwrap().follow, vec![5]);

    // Nothing is needed where nothing is configured, or where the stream is there.
    app.core.twitter_tokens.clear();
    app.twitter = Some(1);
    assert!(app.reset().is_none());
    app.core.manifest.twitter.as_mut().unwrap().stream = false;
    assert!(app.core.init_twitter().is_none());
    assert!(app.core.init_twitter_list(Some(1)).is_none());
}

#[test]
fn defaults() {
    let call = VerifyCredentials::default().call();
    assert_eq!(call.uri, VerifyCredentials::new().call().uri);
    assert_eq!(Me::default().call().uri, "https://api.twitter.com/2/users/me");
    assert!(matches!(Shutdown::default().poll(), Poll::Ready(())));
    let builder: Builder<(), ()> = Builder::default();
    assert_eq!(builder.http_client(7).client, (7,));
    let feed = Feed { title: String::new(), id: String::new(), entries: vec![] };
    assert!(Sender::default().send_feed(&Router::default(), "f", &feed, &vec![]).is_empty());
}

#[test]
fn requests_of_users() {
    let mut core = Core::new(manifest(1, vec![], &[10]));
    let call = VerifyCredentials::new().call();
    assert!(send(&call, &core, None).is_none());
    core.load_twitter_tokens(vec![row(1), row(10)]).unwrap();
    let request = send(&call, &core, None).unwrap();
    assert!(request.authorization.contains("oauth_consumer_key=\"key\""));
    assert!(request.authorization.contains("oauth_token=\"token1\""));
    let request = send(&call, &core, Some(10)).unwrap();
    assert!(request.authorization.contains("oauth_token=\"token10\""));
    assert!(send(&call, &core, Some(11)).is_none());
}

#[test]
fn parts_of_the_program() {
    let mut app = app();
    assert!(app.manifest().has_topic(&TopicId::Twitter(5)));
    assert_eq!(*app.database_pool(), "old");
    // A stream that is there is kept.
    assert!(app.reset().is_none());
    app.twitter = None;
    assert_eq!(app.reset().unwrap().follow, vec![5]);
    app.manifest_mut().twitter.as_mut().unwrap().stream = false;
    assert!(app.reset().is_none());
    assert!(app.router_mut().remove(&TopicId::Twitter(5)).is_some());
    assert!(app.router().get(&TopicId::Twitter(5)).is_none());
    app.core.manifest_mut().skip_duplicate = true;
    assert!(app.core.manifest().skip_duplicate);
    *app.core.router_mut() = Router::from_manifest(&manifest(1, vec![feed("f")], &[]));
    assert!(app.core.router().get(&feed("f")).is_some());
}

#[test]
fn no_token_is_needed_without_twitter() {
    let mut core = Core::new(Manifest::new());
    assert!(core.users().is_empty());
    assert_eq!(core.load_twitter_tokens(vec![row(1)]), Ok(()));
    assert!(core.twitter_access_token(1).is_none());
    assert!(core.twitter_token(None).is_none());
    assert!(core.init_twitter().is_none());
    assert!(core.init_twitter_list(Some(1)).is_none());
}

#[test]
fn tokens() {
    let mut core = Core::new(manifest(1, vec![TopicId::Twitter(5)], &[10, 11, 10]));
    let mut users = core.unauthed_users();
    users.sort();
    assert_eq!(users, vec![1, 10, 11]);
    assert_eq!(core.load_twitter_tokens(vec![row(1), row(10)]), Err(NotAuthorized));
    assert_eq!(
        NotAuthorized.message(),
        "not all Twitter users are authorized; please run `pipitor twitter-login`"
    );
    assert!(core.twitter_access_token(1).is_none());
    assert_eq!(core.load_twitter_tokens(vec![row(11), row(1), row(10)]), Ok(()));
    assert!(core.unauthed_users().is_empty());
    assert_eq!(core.twitter_access_token(10).unwrap().key, "token10");
    assert_eq!(core.twitter_token(None).unwrap().1.key, "token1");
    assert_eq!(core.twitter_token(Some(11)).unwrap().1.key, "token11");
    assert_eq!(core.twitter_token(Some(11)).unwrap().0.key, "key");
    assert!(core.twitter_token(Some(12)).is_none());

    core.manifest = manifest(1, vec![], &[11]);
    core.gc_twitter_tokens();
    assert!(core.twitter_access_token(10).is_none());
    assert!(core.twitter_access_token(11).is_some());
    core.manifest.twitter = None;
    core.gc_twitter_tokens();
    assert!(core.twitter_access_token(11).is_none());
}

#[test]
fn streams_and_lists() {
    assert_eq!(sorted_unique(vec![5, 3, 5, 1, 3]), vec![1, 3, 5]);
    let topics = vec![TopicId::Twitter(7), feed("f"), TopicId::Twitter(3), TopicId::Twitter(7)];
    let mut core = Core::new(manifest(1, topics, &[]));
    core.load_twitter_tokens(vec![row(1)]).unwrap();
    let stream = core.init_twitter().unwrap();
    assert_eq!(stream.follow, vec![3, 7]);
    assert_eq!(stream.token.key, "token1");
    assert_eq!(stream.client.key, "key");
    assert!(core.init_twitter_list(None).is_none());

    let config = core.manifest.twitter.as_mut().unwrap();
    config.stream = false;
    config.list = Some(TwitterList { id: 9, interval: 1, delay: 2 });
    assert!(core.init_twitter().is_none());
    let list = core.init_twitter_list(Some(0)).unwrap();
    assert_eq!((list.list.id, list.since_id), (9, None));
    assert_eq!(core.init_twitter_list(Some(4)).unwrap().since_id, Some(4));
    assert_eq!(core.init_twitter_list(None).unwrap().since_id, None);
}

fn app() -> App<&'static str, u8, u8> {
    let mut core = Core::new(manifest(1, vec![TopicId::Twitter(5)], &[10]));
    core.load_twitter_tokens(vec![row(1), row(10)]).unwrap();
    App { core, pool: "old", twitter: Some(1), twitter_list: 1 }
}

fn outboxes(app: &App<&'static str, u8, u8>, user: i64) -> Vec<Outbox> {
    app.core.router.route_tweet(&tweet(user, None))
}

#[test]
fn replacing_a_manifest() {
    let mut app = app();
    let mut new = manifest(2, vec![TopicId::Twitter(6)], &[11]);
    new.database_url = Some("db".to_owned());
    let new = match app.replace_manifest::<&str>(new) {
        Replacing::OpenDatabase(new) => new,
        step => panic!("{:?}", step),
    };
    assert_eq!(app.pool, "old");
    let (guard, mut users) = match app.database_opened::<&str>(new, Ok("new")) {
        Replacing::LoadTokens(guard, users) => (guard, users),
        step => panic!("{:?}", step),
    };
    users.sort();
    assert_eq!(users, vec![2, 11]);
    assert_eq!(app.pool, "new");
    let guard = match app.tokens_loaded::<&str>(guard, Ok(vec![row(2), row(11)])) {
        Replacing::Connect(guard) => guard,
        step => panic!("{:?}", step),
    };
    let guard = match app.connected::<&str>(guard, Ok((Some(2), 2))) {
        Replacing::Sync(guard) => guard,
        step => panic!("{:?}", step),
    };
    assert_eq!(outboxes(&app, 6), vec![]);
    match app.synced::<&str>(guard, Ok(())) {
        Replacing::Done(old) => assert!(old.has_topic(&TopicId::Twitter(5))),
        step => panic!("{:?}", step),
    }
    assert_eq!(app.pool, "new");
    assert_eq!(app.twitter, Some(2));
    assert_eq!(app.twitter_list, 2);
    assert_eq!(outboxes(&app, 5), vec![]);
    assert_eq!(outboxes(&app, 6), vec![Outbox::Twitter(11)]);
    assert!(app.core.twitter_access_token(10).is_none());
    assert!(app.core.unauthed_users().is_empty());
}

#[test]
fn failed_replacements_are_taken_back() {
    let changed = || {
        let mut new = manifest(2, vec![TopicId::Twitter(6)], &[11]);
        new.database_url = Some("db".to_owned());
        new
    };
    let check = |app: &App<&'static str, u8, u8>, returned: Manifest, loaded: bool| {
        assert!(returned.has_topic(&TopicId::Twitter(6)));
        assert!(app.core.manifest.has_topic(&TopicId::Twitter(5)));
        assert_eq!(app.pool, "old");
        assert_eq!(outboxes(app, 5), vec![Outbox::Twitter(10)]);
        assert_eq!(app.core.twitter_access_token(11).is_some(), loaded);
        assert!(app.core.twitter_access_token(10).is_some());
    };

    let mut app1 = app();
    let mut invalid = changed();
    invalid.twitter = None;
    match app1.replace_manifest::<&str>(invalid) {
        Replacing::Failed(ReplaceError::Invalid(ManifestError::TwitterTopics), m) => check(&app1, m, false),
        step => panic!("{:?}", step),
    }
    match app1.database_opened(changed(), Err("e")) {
        Replacing::Failed(ReplaceError::Failed("e"), m) => check(&app1, m, false),
        step => panic!("{:?}", step),
    }

    let start = || {
        let mut app = app();
        match app.database_opened::<&str>(changed(), Ok("new")) {
            Replacing::LoadTokens(guard, _) => (app, guard),
            step => panic!("{:?}", step),
        }
    };
    let (mut app2, guard) = start();
    match app2.tokens_loaded(guard, Err("e")) {
        Replacing::Failed(ReplaceError::Failed("e"), m) => check(&app2, m, false),
        step => panic!("{:?}", step),
    }
    let (mut app3, guard) = start();
    match app3.tokens_loaded::<&str>(guard, Ok(vec![row(2)])) {
        Replacing::Failed(ReplaceError::NotAuthorized, m) => check(&app3, m, false),
        step => panic!("{:?}", step),
    }
    let (mut app4, guard) = start();
    let guard = match app4.tokens_loaded::<&str>(guard, Ok(vec![row(2), row(11)])) {
        Replacing::Connect(guard) => guard,
        step => panic!("{:?}", step),
    };
    match app4.connected(guard, Err("e")) {
        Replacing::Failed(ReplaceError::Failed("e"), m) => check(&app4, m, true),
        step => panic!("{:?}", step),
    }
    let (mut app5, guard) = start();
    let guard = match app5.tokens_loaded::<&str>(guard, Ok(vec![row(2), row(11)])) {
        Replacing::Connect(guard) => guard,
        step => panic!("{:?}", step),
    };
    match app5.synced(guard, Err("e")) {
        Replacing::Failed(ReplaceError::Failed("e"), m) => check(&app5, m, true),
        step => panic!("{:?}", step),
    }
}

#[test]
fn small_replacements() {
    let mut app = app();
    // The same topics in another order of another outbox need no other connections.
    let (guard, users) = match app.replace_manifest::<&str>(manifest(1, vec![TopicId::Twitter(5)], &[12])) {
        Replacing::LoadTokens(guard, users) => (guard, users),
        step => panic!("{:?}", step),
    };
    assert_eq!(users, vec![12]);
    let guard = match app.tokens_loaded::<&str>(guard, Ok(vec![row(12)])) {
        Replacing::Sync(guard) => guard,
        step => panic!("{:?}", step),
    };
    match app.synced::<&str>(guard, Ok(())) {
        Replacing::Done(_) => {}
        step => panic!("{:?}", step),
    }
    assert_eq!(app.pool, "old");
    assert_eq!(outboxes(&app, 5), vec![Outbox::Twitter(12)]);
}

#[test]
fn updates_of_a_manifest() {
    let old = manifest(1, vec![TopicId::Twitter(5), TopicId::Twitter(6)], &[]);
    let same = manifest(1, vec![TopicId::Twitter(6), TopicId::Twitter(5), feed("f")], &[3]);
    assert!(!has_updates(&old, &same));
    assert!(has_updates(&old, &manifest(2, vec![TopicId::Twitter(5), TopicId::Twitter(6)], &[])));
    assert!(has_updates(&old, &manifest(1, vec![TopicId::Twitter(5)], &[])));
    assert!(has_updates(&manifest(1, vec![TopicId::Twitter(5)], &[]), &old));
    let mut none = manifest(1, vec![], &[]);
    none.twitter = None;
    assert!(!has_updates(&old, &none));
    assert!(has_updates(&none, &manifest(1, vec![], &[])));
    let mut other = manifest(1, vec![TopicId::Twitter(5), TopicId::Twitter(6)], &[]);
    other.twitter.as_mut().unwrap().client.secret = "x".to_owned();
    assert!(!has_updates(&old, &other));
    other.twitter.as_mut().unwrap().client.key = "x".to_owned();
    assert!(has_updates(&old, &other));
}

#[test]
fn events_of_the_stream() {
    let m = manifest(1, vec![TopicId::Twitter(5), TopicId::Twitter(6)], &[]);
    assert!(will_process(&m, &tweet(5, None)));
    assert!(will_process(&m, &tweet(5, Some(6))));
    assert!(!will_process(&m, &tweet(5, Some(7))));
    assert!(!will_process(&m, &tweet(7, Some(5))));

    let mut app = app();
    match app.poll_twitter::<&str>(StreamEvent::Tweet(tweet(5, None))) {
        StreamStep::Send(_) => {}
        step => panic!("{:?}", step),
    }
    match app.poll_twitter::<&str>(StreamEvent::Tweet(tweet(6, None))) {
        StreamStep::Continue => {}
        step => panic!("{:?}", step),
    }
    match app.poll_twitter::<&str>(StreamEvent::Other) {
        StreamStep::Continue => {}
        step => panic!("{:?}", step),
    }
    match app.poll_twitter(StreamEvent::Malformed("e")) {
        StreamStep::Finished(Err("e")) => assert!(app.twitter.is_some()),
        step => panic!("{:?}", step),
    }
    match app.poll_twitter(StreamEvent::Failed("e")) {
        StreamStep::Finished(Err("e")) => assert!(app.twitter.is_none()),
        step => panic!("{:?}", step),
    }
    match app.poll_twitter::<&str>(StreamEvent::Other) {
        StreamStep::Finished(Ok(())) => {}
        step => panic!("{:?}", step),
    }
    app.twitter = Some(1);
    match app.poll_twitter::<&str>(StreamEvent::Ended) {
        StreamStep::Finished(Ok(())) => assert!(app.twitter.is_none()),
        step => panic!("{:?}", step),
    }
}

#[test]
fn syncing_subscriptions() {
    let m = manifest(1, vec![feed("a"), feed("b"), feed("a"), TopicId::Twitter(1)], &[]);
    let strings = |v: &[&str]| v.iter().map(|s| s.to_string()).collect::<Vec<_>>();
    let plan = sync_websub_subscriptions(&m, &strings(&["b", "c", "c"]));
    assert_eq!(plan.subscribe, strings(&["a"]));
    assert_eq!(plan.unsubscribe, strings(&["c"]));
    // Feeds that are looked up among the topics are never unsubscribed from.
    let plan = sync_websub_subscriptions(&m, &strings(&["a", "b"]));
    assert!(plan.subscribe.is_empty() && plan.unsubscribe.is_empty());
    assert_eq!(difference(&strings(&["x", "x", "y"]), &strings(&["y"])), strings(&["x"]));
}

#[test]
fn incoming_connections() {
    let config = |bind| WebSub {
        callback: Uri { scheme: None, authority: None, path: "/".to_owned(), query: None },
        bind,
        renewal_margin: 0,
    };
    assert!(init_websub(None, true, true).unwrap().is_none());
    let bound = config(Some(Addr::Unix("/x".to_owned())));
    match init_websub(Some(&bound), true, true) {
        Ok(Some(Incoming::Bind(addr))) => assert_eq!(*addr, Addr::Unix("/x".to_owned())),
        r => panic!("{:?}", r),
    }
    let free = config(None);
    match init_websub(Some(&free), true, true) {
        Ok(Some(Incoming::Tcp)) => {}
        r => panic!("{:?}", r),
    }
    match init_websub(Some(&free), false, true) {
        Ok(Some(Incoming::Unix)) => {}
        r => panic!("{:?}", r),
    }
    assert_eq!(init_websub(Some(&free), false, false).unwrap_err(), NoIncoming);
    assert!(NoIncoming.message().starts_with("Either `websub.bind`"));
}
