use pipitor::app::twitter_backfill::TwitterBackfill;
use pipitor::app::twitter_list_timeline::{
    reversed, without_retweets, BackfillStep, TimelineStep, TwitterListTimeline, RESP_BUF_CAP,
};
use pipitor::manifest::TwitterList;
use pipitor::models::{NewTweet, NewTwitterTokens, TwitterToken};
use pipitor::poll::Poll;
use pipitor::time::{from_secs, Clock};
use pipitor::twitter::api::account::VerifyCredentials;
use pipitor::twitter::api::lists::members::{Create, Destroy};
use pipitor::twitter::api::lists::{Members, Statuses, TweetMode};
use pipitor::twitter::api::oauth::{
    access_token, access_token_of, parse_access_token, parse_request_token, request_token,
};
use pipitor::twitter::api::statuses::{retweet as retweet_request, Update};
use pipitor::twitter::api::tweets::Post;
use pipitor::twitter::api::users::Me;
use pipitor::twitter::api::Method;
use pipitor::twitter::interval::{Handle, Interval, Wait};
use pipitor::twitter::list_timeline::BackfillStep as BackfillStepOf;
use pipitor::twitter::list_timeline::{
    snowflake_to_unix_ms, system_time_to_snowflake, Backfill, ListTimeline, RateLimit, Reply,
    RequestSender,
};
use pipitor::twitter::text::sanitize;
use pipitor::twitter::{Credentials, Tweet, User};

const PERIOD: u64 = 42;

fn tweet(id: i64) -> Tweet {
    Tweet {
        id,
        text: "text".to_owned(),
        user: User { id: 9 },
        in_reply_to_user_id: None,
        in_reply_to_status_id: Some(3),
        quoted_status_id: None,
        retweeted_status: None,
    }
}

fn retweet(id: i64) -> Tweet {
    let mut retweet = tweet(id);
    retweet.retweeted_status = Some(Box::new(tweet(1)));
    retweet
}

fn ids(tweets: &[Tweet]) -> Vec<i64> {
    tweets.iter().map(|t| t.id).collect()
}

fn credentials(key: &str) -> Credentials<String> {
    Credentials { key: key.to_owned(), secret: format!("{}_secret", key) }
}

const MILLI: u128 = 1_000_000;

/// The clocks when some nanoseconds have passed.
fn after(nanos: u128) -> Clock {
    Clock { instant: nanos as i128, unix: from_secs(1_000) + nanos }
}

fn at(secs: u64) -> Clock {
    after(from_secs(secs))
}

/// Tells whether the interval has a tick to yield, and takes it.
fn poll_next(interval: &mut Interval, handle: &mut Handle, now: &Clock) -> bool {
    match interval.poll_next(Some(handle), now) {
        Wait::Until(_) if interval.is_due(now.instant) => {
            interval.tick(handle, now.instant);
            true
        }
        _ => false,
    }
}

#[test]
fn interval() {
    let period: u128 = from_secs(PERIOD);
    let mut handle = Handle::new(period);
    let mut interval = Interval::new(&after(0));
    assert!(!poll_next(&mut interval, &mut handle, &after(0)));
    assert!(!interval.is_due(after(0).instant));

    let mut now: u128 = MILLI;
    assert!(interval.is_due(after(now).instant));
    assert!(poll_next(&mut interval, &mut handle, &after(now)));
    assert!(!poll_next(&mut interval, &mut handle, &after(now)));

    now += period;
    assert!(interval.is_due(after(now).instant));
    assert!(poll_next(&mut interval, &mut handle, &after(now)));
    assert!(!poll_next(&mut interval, &mut handle, &after(now)));

    now += period / 2;
    assert!(!interval.is_due(after(now).instant));
    assert!(!poll_next(&mut interval, &mut handle, &after(now)));

    now += period / 2;
    assert!(interval.is_due(after(now).instant));
    assert!(poll_next(&mut interval, &mut handle, &after(now)));
    assert!(!poll_next(&mut interval, &mut handle, &after(now)));

    now += 2 * period;
    assert!(interval.is_due(after(now).instant));
    assert!(poll_next(&mut interval, &mut handle, &after(now)));
    assert!(!poll_next(&mut interval, &mut handle, &after(now)));

    assert_eq!(
        interval.poll_next(Some(&mut handle), &after(now)),
        Wait::Until(after(now).instant)
    );
    assert_eq!(interval.poll_next(None, &after(now)), Wait::Done);
}

#[test]
fn overdue_multiple_periods() {
    let mut handle = Handle::new(from_secs(PERIOD));
    let mut interval = Interval::new(&at(0));
    assert!(!poll_next(&mut interval, &mut handle, &at(0)));

    // `interval` yields only once even when several periods have passed.
    assert!(interval.is_due(at(3 * PERIOD).instant));
    assert!(poll_next(&mut interval, &mut handle, &at(3 * PERIOD)));
    assert!(!poll_next(&mut interval, &mut handle, &at(3 * PERIOD)));
}

#[test]
fn delay() {
    let period: u128 = from_secs(PERIOD);
    let mut handle = Handle::new(period);
    let mut interval = Interval::at(at(PERIOD).instant);

    let mut now: u128 = 1;
    assert!(!poll_next(&mut interval, &mut handle, &after(now)));

    handle.delay(((after(now).unix + 3 * period) / from_secs(1)) as u64);
    assert!(!interval.is_due(after(now).instant));
    now += 2 * period;
    // The moment of the tick is put off with the next poll only.
    assert!(interval.is_due(after(now).instant));
    assert!(!poll_next(&mut interval, &mut handle, &after(now)));

    now += period;
    assert!(interval.is_due(after(now).instant));
    assert!(poll_next(&mut interval, &mut handle, &after(now)));
    assert!(!poll_next(&mut interval, &mut handle, &after(now)));
}

#[test]
fn delay_to_an_earlier_time() {
    let mut handle = Handle::new(from_secs(PERIOD));
    let mut interval = Interval::at(at(PERIOD).instant);
    handle.delay(1_000 + 3 * PERIOD);
    handle.delay(1_000 + PERIOD);
    assert_eq!(
        interval.poll_next(Some(&mut handle), &at(0)),
        Wait::Until(at(3 * PERIOD).instant)
    );
}

#[test]
fn one_tick_makes_up_for_missed_ones() {
    let handle = Handle::new(10);
    let mut interval = Interval::at(0);
    interval.tick(&handle, 35);
    assert!(!interval.is_due(35));
    assert!(interval.is_due(36));
    interval.tick(&handle, 36);
    assert!(!interval.is_due(45));
    assert!(interval.is_due(46));
}

#[test]
fn negative_moments() {
    let handle = Handle::new(10);
    let mut interval = Interval::at(-15);
    interval.tick(&handle, -20);
    assert_eq!(interval.poll_next(Some(&mut Handle::new(1)), &at(0)), Wait::Until(-5));
    interval.tick(&handle, -20);
    assert_eq!(interval.poll_next(Some(&mut Handle::new(1)), &at(0)), Wait::Until(5));
}

#[test]
fn sanitizing() {
    let cut = |s: &str, n| {
        let mut s = s.to_owned();
        sanitize(&mut s, n);
        s
    };
    assert_eq!(cut("abcd", 8), "abcd");
    assert_eq!(cut("abcde", 8), "abc…");
    assert_eq!(cut("あいう", 4), "あ…");
    assert_eq!(cut("", 0), "");
    assert_eq!(cut("ab", 2), "…");
    assert_eq!(cut(&cut("abcdefgh", 8), 8), cut("abcdefgh", 8));
}

#[test]
fn snowflakes() {
    let ms: u64 = 1_600_000_000_123;
    let id = system_time_to_snowflake(ms as u128 * 1_000_000 + 999_999);
    assert_eq!(id as u64, (ms - 1_288_834_974_657) << 22);
    assert_eq!(snowflake_to_unix_ms(id as u64), ms);
    assert_eq!(snowflake_to_unix_ms(id as u64 + 4_194_303), ms);
    assert_eq!(snowflake_to_unix_ms(0), 1_288_834_974_657);
}

const LIST: TwitterList = TwitterList { id: 7, interval: 1_000_000_000, delay: 2_000_000_000 };

#[test]
fn requests_for_a_timeline() {
    let now: u128 = 1_600_000_000_000_000_000;
    let mut sender = RequestSender::new(&LIST);
    let first = sender.send(now);
    assert_eq!((first.list_id, first.count, first.since_id), (7, Some(1), None));
    assert_eq!(first.include_rts, Some(false));

    sender.set_since_id(5);
    assert_eq!(sender.send(now).since_id, Some(5));
    assert_eq!(sender.send(now).count, Some(200));
    let newest = system_time_to_snowflake(now);
    sender.set_since_id(newest);
    sender.set_since_id(6);
    // Tweets that may have been added late are asked for again.
    assert_eq!(sender.send(now).since_id, Some(system_time_to_snowflake(now - LIST.delay)));
}

#[test]
fn replies_of_a_timeline() {
    let limit = |remaining| Some(RateLimit { limit: 900, remaining, reset: 1_700 });
    let mut sender = RequestSender::new(&LIST);
    let reply = Reply::Tweets { tweets: vec![tweet(9), tweet(8)], rate_limit: limit(1) };
    assert_eq!(ids(&sender.receive(reply, true).unwrap()), vec![9, 8]);
    assert_eq!(sender.since_id, 9);
    let reply = Reply::Tweets { tweets: vec![tweet(10)], rate_limit: limit(0) };
    assert!(sender.receive(reply, false).is_none());
    assert_eq!(sender.since_id, 9);
    let reply = Reply::Tweets { tweets: vec![], rate_limit: None };
    assert!(sender.receive(reply, true).is_none());
    assert!(sender.receive(Reply::Failed, true).is_none());

    let mut interval = Interval::new(&at(0));
    let wait = interval.poll_next(Some(&mut sender.handle), &at(0));
    assert_eq!(wait, Wait::Until(at(0).instant));
    assert!(sender.receive(Reply::ApiError { rate_limit: limit(0) }, true).is_none());
    let wait = interval.poll_next(Some(&mut sender.handle), &at(0));
    assert_eq!(wait, Wait::Until(at(700).instant));
}

#[test]
fn backfill_of_a_timeline() {
    let mut sender = RequestSender::new(&LIST);
    let backfill = Backfill { since_id: 5 };
    let request = backfill.start(7);
    assert_eq!((request.since_id, request.max_id, request.count), (Some(5), None, Some(200)));
    match backfill.poll(&mut sender, Some(vec![tweet(9), tweet(8)]), true) {
        BackfillStepOf::Tweets(tweets, request) => {
            assert_eq!(ids(&tweets), vec![9, 8]);
            assert_eq!((request.since_id, request.max_id), (Some(5), Some(7)));
        }
        step => panic!("{:?}", step),
    }
    assert_eq!(sender.since_id, 9);
    match backfill.poll(&mut sender, Some(vec![]), true) {
        BackfillStepOf::Done => {}
        step => panic!("{:?}", step),
    }
    match backfill.poll(&mut sender, None, true) {
        BackfillStepOf::Done => {}
        step => panic!("{:?}", step),
    }
    match backfill.poll(&mut sender, Some(vec![tweet(20)]), false) {
        BackfillStepOf::Done => {}
        step => panic!("{:?}", step),
    }
    assert_eq!(sender.since_id, 20);
}

#[test]
fn timelines() {
    let (mut timeline, backfill) = ListTimeline::new(&LIST, Some(5));
    assert_eq!(backfill.unwrap().since_id, 5);
    assert!(ListTimeline::new(&LIST, None).1.is_none());
    assert_eq!(timeline.sender_mut().unwrap().list_id, 7);
    timeline.sender_mut().unwrap().set_since_id(3);
    assert_eq!(timeline.sender_mut().unwrap().since_id, 3);
    match timeline.poll_next(Poll::Ready(Some(vec![tweet(1)]))) {
        Poll::Ready(Some(tweets)) => assert_eq!(ids(&tweets), vec![1]),
        poll => panic!("{:?}", poll),
    }
    timeline.shutdown();
    assert!(timeline.sender_mut().is_none());
    match timeline.poll_next(Poll::Pending) {
        Poll::Pending => {}
        poll => panic!("{:?}", poll),
    }
    match ListTimeline::empty().poll_next(Poll::Pending) {
        Poll::Ready(None) => {}
        poll => panic!("{:?}", poll),
    }
}

#[test]
fn timelines_with_requests_in_flight() {
    let (mut timeline, request, backfill) = TwitterListTimeline::new(7, Some(5), 100);
    assert_eq!((request.count, request.since_id), (Some(1), None));
    assert_eq!(backfill.unwrap().since_id, Some(5));
    for id in 101..=107 {
        assert_eq!(timeline.tick(id).unwrap().list_id, 7);
    }
    // The oldest request is given up for a new one.
    timeline.tick(108);
    assert_eq!(timeline.poll_next(&vec![false; RESP_BUF_CAP]), None);
    let mut ready = vec![false; RESP_BUF_CAP];
    ready[0] = true;
    ready[2] = true;
    assert_eq!(timeline.poll_next(&ready), Some(103));
    // Requests before the one that was replied to are given up too.
    assert_eq!(timeline.poll_next(&vec![true, false, false, false, false]), Some(104));
    assert_eq!(timeline.poll_next(&vec![false, false, false, true]), Some(108));
    assert_eq!(timeline.poll_next(&vec![]), None);

    let reply = Reply::Tweets { tweets: vec![tweet(9), tweet(8)], rate_limit: None };
    let (sent, restart) = timeline.receive(reply, &at(0));
    assert_eq!(ids(&sent), vec![8, 9]);
    assert_eq!(restart, None);
    let request = timeline.tick(109).unwrap();
    assert_eq!((request.count, request.since_id), (Some(200), Some(8)));

    let limit = |remaining, reset| Reply::ApiError {
        rate_limit: Some(RateLimit { limit: 900, remaining, reset }),
    };
    assert_eq!(timeline.receive(limit(0, 1_010), &at(0)).1, Some(at(10).instant));
    assert_eq!(timeline.receive(limit(0, 5), &at(3)).1, Some(at(3).instant));
    assert_eq!(timeline.receive(limit(1, 1_010), &at(0)).1, None);
    assert_eq!(timeline.receive(Reply::Failed, &at(0)).1, None);
    assert!(TwitterListTimeline::empty().tick(1).is_none());
}

#[test]
fn backfill_with_requests_in_flight() {
    let (mut timeline, _, _) = TwitterListTimeline::new(7, Some(5), 100);
    match timeline.poll_backfill::<u8>(Poll::Pending) {
        Poll::Pending => {}
        poll => panic!("{:?}", poll),
    }
    let tweets = vec![tweet(9), retweet(8), tweet(7)];
    match timeline.poll_backfill::<u8>(Poll::Ready(Ok(tweets))) {
        Poll::Ready(BackfillStep::Continue { request, tweets }) => {
            assert_eq!(ids(&tweets), vec![9, 7]);
            assert_eq!((request.since_id, request.max_id), (Some(5), Some(6)));
        }
        poll => panic!("{:?}", poll),
    }
    assert_eq!(timeline.tick(101).unwrap().since_id, Some(9));
    match timeline.poll_backfill::<u8>(Poll::Ready(Ok(vec![]))) {
        Poll::Ready(BackfillStep::Finished(Ok(()))) => {}
        poll => panic!("{:?}", poll),
    }
    match timeline.poll_backfill::<u8>(Poll::Pending) {
        Poll::Ready(BackfillStep::Finished(Ok(()))) => {}
        poll => panic!("{:?}", poll),
    }
    let (mut timeline, _, _) = TwitterListTimeline::new(7, Some(5), 100);
    match timeline.poll_backfill::<u8>(Poll::Ready(Err(1))) {
        Poll::Ready(BackfillStep::Finished(Err(1))) => {}
        poll => panic!("{:?}", poll),
    }
}

#[test]
fn backfills() {
    let (mut backfill, request) = TwitterBackfill::new(7, 5);
    assert_eq!((request.list_id, request.since_id), (7, Some(5)));
    let tweets = vec![tweet(8), retweet(6), tweet(7)];
    match backfill.poll::<u8>(Poll::Ready(Ok(tweets))) {
        Poll::Ready(BackfillStep::Continue { request, tweets }) => {
            assert_eq!(ids(&tweets), vec![8, 7]);
            assert_eq!(request.max_id, Some(5));
        }
        poll => panic!("{:?}", poll),
    }
    match backfill.poll::<u8>(Poll::Pending) {
        Poll::Pending => {}
        poll => panic!("{:?}", poll),
    }
    match backfill.poll::<u8>(Poll::Ready(Err(3))) {
        Poll::Ready(BackfillStep::Finished(Err(3))) => {}
        poll => panic!("{:?}", poll),
    }
    match backfill.poll::<u8>(Poll::Pending) {
        Poll::Ready(BackfillStep::Finished(Ok(()))) => {}
        poll => panic!("{:?}", poll),
    }
    let (mut backfill, _) = TwitterBackfill::new(7, 5);
    match backfill.poll::<u8>(Poll::Ready(Ok(vec![]))) {
        Poll::Ready(BackfillStep::Finished(Ok(()))) => {}
        poll => panic!("{:?}", poll),
    }
    match TwitterBackfill::empty().poll::<u8>(Poll::Pending) {
        Poll::Ready(BackfillStep::Finished(Ok(()))) => {}
        poll => panic!("{:?}", poll),
    }
}

#[test]
fn lists_of_tweets() {
    assert_eq!(ids(&reversed(vec![tweet(1), tweet(2), tweet(3)])), vec![3, 2, 1]);
    assert_eq!(
        ids(&without_retweets(vec![retweet(1), tweet(2), retweet(3), tweet(4)])),
        vec![2, 4]
    );
}

#[test]
fn api_requests() {
    let mut statuses = Statuses::new(7);
    statuses.since_id(Some(-1)).max_id(Some(9)).include_rts(Some(true)).count(None);
    let call = statuses.call();
    assert_eq!(call.method, Method::Get);
    let request = call.send(&credentials("c"), &credentials("t"));
    assert_eq!(
        request.uri,
        "https://api.twitter.com/1.1/lists/statuses.json\
         ?include_entities=false&include_rts=true&list_id=7&max_id=9&since_id=-1&tweet_mode=extended"
    );
    assert_eq!(request.body, None);
    assert!(request.authorization.starts_with("OAuth oauth_consumer_key=\"c\","));
    assert!(request.authorization.contains("oauth_token=\"t\""));

    let mut members = Members::new(7);
    members.count(Some(5000)).cursor(Some(2));
    let request = members.call().send(&credentials("c"), &credentials("t"));
    assert_eq!(
        request.uri,
        "https://api.twitter.com/1.1/lists/members.json\
         ?count=5000&cursor=2&include_entities=false&list_id=7&skip_status=true"
    );

    members.include_entities(true).skip_status(false);
    let request = members.call().send(&credentials("c"), &credentials("t"));
    assert_eq!(
        request.uri,
        "https://api.twitter.com/1.1/lists/members.json\
         ?count=5000&cursor=2&include_entities=true&list_id=7&skip_status=false"
    );

    let mut statuses = Statuses::new(7);
    statuses.include_entities(true).tweet_mode(None);
    let request = statuses.call().send(&credentials("c"), &credentials("t"));
    assert_eq!(
        request.uri,
        "https://api.twitter.com/1.1/lists/statuses.json\
         ?count=200&include_entities=true&list_id=7"
    );
    statuses.tweet_mode(Some(TweetMode::Extended));
    assert_eq!(statuses.tweet_mode, Some(TweetMode::Extended));

    let mut update = Update::new("a & b");
    let request = update.call().send(&credentials("c"), &credentials("t"));
    assert_eq!(request.method, Method::Post);
    assert_eq!(request.uri, "https://api.twitter.com/1.1/statuses/update.json");
    assert_eq!(request.body.as_deref(), Some("status=a%20%26%20b&trim_user=true"));
    update.trim_user(false);
    assert_eq!(update.call().params[1].1, "false");

    let request = Post::new("x").call().send(&credentials("c"), &credentials("t"));
    assert_eq!(request.uri, "https://api.twitter.com/2/tweets");
    assert_eq!(request.body.as_deref(), Some("text=x"));
    assert_eq!(Create::new(7, 3).call().uri, "https://api.twitter.com/1.1/lists/members/create.json");
    assert_eq!(Destroy::new(7, 3).call().uri, "https://api.twitter.com/1.1/lists/members/destroy.json");
    assert_eq!(
        Destroy::new(7, -3).call().params,
        vec![
            ("list_id".to_owned(), "7".to_owned()),
            ("user_id".to_owned(), "-3".to_owned())
        ]
    );
    assert!(VerifyCredentials::new().call().params.is_empty());
    assert_eq!(
        VerifyCredentials::new().call().uri,
        "https://api.twitter.com/1.1/account/verify_credentials.json"
    );
    assert_eq!(Me::new().call().uri, "https://api.twitter.com/2/users/me");
    assert_eq!(TweetMode::Extended.as_str(), "extended");
    assert_eq!(Method::Get.as_str(), "GET");
    assert_eq!(Method::Post.as_str(), "POST");
}

#[test]
fn authorization_of_users() {
    let request = request_token(&credentials("c"));
    assert_eq!(request.uri, "https://api.twitter.com/oauth/request_token");
    assert!(request.authorization.contains("oauth_callback=\"oob\""));
    assert_eq!(request.body.as_deref(), Some(""));
    let request = access_token("pin", &credentials("c"), &credentials("temp"));
    assert_eq!(request.uri, "https://api.twitter.com/oauth/access_token");
    assert!(request.authorization.contains("oauth_verifier=\"pin\""));
    assert!(request.authorization.contains("oauth_token=\"temp\""));

    let body = b"oauth_token=a&oauth_token_secret=b&oauth_callback_confirmed=true";
    let temporary = parse_request_token(body).unwrap();
    assert_eq!((temporary.key.as_str(), temporary.secret.as_str()), ("a", "b"));
    assert!(parse_request_token(b"oauth_token=a").is_none());
    let token = parse_access_token(b"oauth_token=a&oauth_token_secret=b&user_id=12&screen_name=x").unwrap();
    assert_eq!(token.user_id, 12);
    let row = NewTwitterTokens::new(&token);
    assert_eq!((row.id, row.access_token, row.access_token_secret), (12, "a", "b"));
    assert!(parse_access_token(body).is_none());
    assert!(parse_access_token(b"oauth_token=a&oauth_token_secret=b&user_id=x").is_none());
    assert!(access_token_of(&vec![]).is_none());
}

#[test]
fn credentials_and_rows() {
    let credentials = credentials("k");
    assert_eq!(credentials.as_ref().secret, "k_secret");
    assert_eq!(credentials.duplicate().key, "k");
    assert_eq!(credentials.map(|s| s.len()).key, 1);
    let row = TwitterToken {
        id: 1,
        access_token: "a".to_owned(),
        access_token_secret: "b".to_owned(),
    };
    assert_eq!(row.into_credentials().secret, "b");
    let tweet = tweet(4);
    let row = NewTweet::new(&tweet);
    assert_eq!((row.id, row.text, row.user_id), (4, "text", 9));
    assert_eq!((row.in_reply_to_status_id, row.quoted_status_id), (Some(3), None));
}

#[test]
fn rate_limits_of_headers() {
    let limit = RateLimit { limit: 900, remaining: 0, reset: 1_600_000_000 };
    assert_eq!(RateLimit::from_headers(b"900", b"0", b"1600000000"), Some(limit));
    assert_eq!(RateLimit::from_headers(b"900", b"", b"1600000000"), None);
    assert_eq!(RateLimit::from_headers(b"x", b"0", b"1600000000"), None);
    assert_eq!(RateLimit::from_headers(b"900", b"0", b"-1"), None);
    assert_eq!(RateLimit::from_headers(b"900", b"0", b"18446744073709551616"), None);
    assert_eq!(RateLimit::from_headers(b"900", b"0\xff", b"1600000000"), None);
}

#[test]
fn requests_for_retweets() {
    let request = retweet_request(123, &credentials("c"), &credentials("t"));
    assert_eq!(request.method, Method::Post);
    assert_eq!(request.uri, "https://api.twitter.com/1.1/statuses/retweet/123.json");
    assert_eq!(request.body.as_deref(), Some(""));
    assert!(request.authorization.starts_with("OAuth oauth_consumer_key=\"c\","));
    assert!(request.authorization.contains("oauth_token=\"t\""));
    let request = retweet_request(i64::MIN, &credentials("c"), &credentials("t"));
    assert_eq!(
        request.uri,
        "https://api.twitter.com/1.1/statuses/retweet/-9223372036854775808.json"
    );
}

#[test]
fn polling_a_timeline() {
    let mut none = TwitterListTimeline::empty();
    assert!(matches!(none.poll(Some(1), vec![], &at(0)), TimelineStep::Ended));

    let (mut timeline, _, _) = TwitterListTimeline::new(7, None, 1);
    match timeline.poll(None, vec![Poll::Pending], &at(0)) {
        TimelineStep::Continue { request: None, taken: None, tweets, restart: None } => {
            assert!(tweets.is_empty())
        }
        step => panic!("{:?}", step),
    }

    // The request is made before the reply is taken, so that it does not know of its Tweets.
    let reply = Reply::Tweets { tweets: vec![tweet(9), tweet(8)], rate_limit: None };
    match timeline.poll(Some(2), vec![Poll::Ready(reply), Poll::Pending], &at(0)) {
        TimelineStep::Continue { request: Some(request), taken, tweets, restart: None } => {
            assert_eq!((request.since_id, request.count), (None, Some(1)));
            assert_eq!(taken, Some(1));
            assert_eq!(ids(&tweets), vec![8, 9]);
        }
        step => panic!("{:?}", step),
    }

    // The newest reply is taken, and older requests are given up.
    let limit = RateLimit { limit: 900, remaining: 0, reset: 1_005 };
    let old = Reply::Tweets { tweets: vec![tweet(10)], rate_limit: None };
    let new = Reply::ApiError { rate_limit: Some(limit) };
    match timeline.poll(Some(3), vec![Poll::Ready(old), Poll::Ready(new)], &at(0)) {
        TimelineStep::Continue { request: Some(request), taken, tweets, restart } => {
            assert_eq!((request.since_id, request.count), (Some(8), Some(200)));
            assert_eq!(taken, Some(3));
            assert!(tweets.is_empty());
            assert_eq!(restart, Some(at(5).instant));
        }
        step => panic!("{:?}", step),
    }
    match timeline.poll(None, vec![], &at(0)) {
        TimelineStep::Continue { request: None, taken: None, .. } => {}
        step => panic!("{:?}", step),
    }
}
