use std::sync::Arc;

use pipitor::feed::Entry;
use pipitor::manifest::{
    check_callback, de_callback, de_duration_from_secs, de_outbox, default_true, is_let_through,
    one_hour, one_sec, CallbackError, Filter, Manifest, ManifestError, Outbox, OutboxList, Route,
    Rule, TopicId, Twitter,
};
use pipitor::paths::{has_extension, ipc_path, resolve_database_uri, resolve_path};
use pipitor::pattern::Pattern;
use pipitor::router::Router;
use pipitor::socket::{Addr, AddrError, UNKNOWN_TYPE};
use pipitor::twitter::{Credentials, Tweet, User};
use pipitor::uri::Uri;
use pipitor::value::Value;

fn tweet(user: i64, text: &str) -> Tweet {
    Tweet {
        id: 1,
        text: text.to_owned(),
        user: User { id: user },
        in_reply_to_user_id: None,
        in_reply_to_status_id: None,
        quoted_status_id: None,
        retweeted_status: None,
    }
}

fn entry(title: Option<&str>, content: Option<&str>, summary: Option<&str>) -> Entry {
    Entry {
        title: title.map(|s| s.to_owned()),
        id: None,
        link: Some("http://example.com/1".to_owned()),
        summary: summary.map(|s| s.to_owned()),
        content: content.map(|s| s.to_owned()),
        updated: None,
    }
}

fn route(filter: Option<Filter>, exclude: Option<Filter>, users: &[i64]) -> Arc<Route> {
    let mut outbox = OutboxList::new();
    let outboxes: Vec<Outbox> = users.iter().map(|&u| Outbox::Twitter(u)).collect();
    outbox.extend(&outboxes);
    Arc::new(Route::new(filter, exclude, outbox))
}

fn feed(url: &str) -> TopicId {
    TopicId::Feed(url.to_owned())
}

fn twitter_config() -> Twitter {
    Twitter {
        client: Credentials { key: "key".to_owned(), secret: "secret".to_owned() },
        user: 1,
        stream: true,
        list: None,
    }
}

fn manifest() -> Manifest {
    let mut manifest = Manifest::new();
    manifest.rule.push(Rule {
        route: route(Filter::parse("rust", None), None, &[10, 11]),
        topics: vec![TopicId::Twitter(1), feed("http://example.com/feed.xml")],
    });
    manifest.rule.push(Rule {
        route: route(None, Filter::parse("spam", None), &[12]),
        topics: vec![TopicId::Twitter(1), TopicId::Twitter(2)],
    });
    manifest.twitter = Some(twitter_config());
    manifest
}

#[test]
fn resolve_uri() {
    assert_eq!(resolve_database_uri("file:///absolute", "/base"), None);
    assert_eq!(
        resolve_database_uri("file://localhost/absolute", "/base"),
        None,
    );
    assert_eq!(resolve_database_uri("file:/absolute", "/base"), None);
    assert_eq!(
        resolve_database_uri("file:relative", "/base").as_deref(),
        Some("file:/base/relative"),
    );
    assert_eq!(
        resolve_database_uri("file:relative?k=v", "base").as_deref(),
        Some("file:base/relative?k=v"),
    );
    assert_eq!(
        resolve_database_uri("file:relative#f", "/base").as_deref(),
        Some("file:/base/relative#f"),
    );
}

#[test]
fn resolve_other_uris() {
    assert_eq!(resolve_database_uri(":memory:", "/base"), None);
    assert_eq!(resolve_database_uri("/db", "/base"), None);
    assert_eq!(resolve_database_uri("db", "/base").as_deref(), Some("/base/db"));
    assert_eq!(resolve_database_uri("db", "/base/").as_deref(), Some("/base/db"));
    assert_eq!(resolve_database_uri("db", "").as_deref(), Some("db"));
    assert_eq!(resolve_database_uri("", "base").as_deref(), Some("base/"));
    // A query is looked for before a fragment, wherever they are.
    assert_eq!(
        resolve_database_uri("file:a#b?c", "base").as_deref(),
        Some("file:base/a#b?c"),
    );
    assert_eq!(resolve_database_uri("file:", "base").as_deref(), Some("file:base/"));
    assert_eq!(resolve_database_uri("file://other/x", "base").as_deref(), Some("base/file://other/x"));
}

#[test]
fn resolved_paths_are_not_resolved_again() {
    let new = resolve_path("a/b", "/base").unwrap();
    assert_eq!(new, "/base/a/b");
    assert_eq!(resolve_path(&new, "/base"), None);
    assert!(new.starts_with("/base") && new.ends_with("a/b"));
}

#[test]
fn resolve_paths_of_a_manifest() {
    let mut manifest = Manifest::new();
    manifest.resolve_paths("/etc");
    assert_eq!(manifest.database_url, None);
    manifest.database_url = Some("db.sqlite3".to_owned());
    manifest.resolve_paths("/etc");
    assert_eq!(manifest.database_url.as_deref(), Some("/etc/db.sqlite3"));
    manifest.resolve_paths("/srv");
    assert_eq!(manifest.database_url.as_deref(), Some("/etc/db.sqlite3"));
}

#[test]
fn database_urls() {
    let mut manifest = Manifest::new();
    assert_eq!(manifest.database_url(None), "pipitor.sqlite3");
    assert_eq!(manifest.database_url(Some("env".to_owned())), "env");
    manifest.database_url = Some("own".to_owned());
    assert_eq!(manifest.database_url(Some("env".to_owned())), "own");
}

#[test]
fn sockets_of_manifests() {
    assert_eq!(ipc_path("Pipitor.toml"), ".Pipitor.toml.sock");
    assert_eq!(ipc_path("dir/Pipitor.toml"), "dir/.Pipitor.toml.sock");
    assert_eq!(ipc_path("/Pipitor.toml"), "/.Pipitor.toml.sock");
    for path in [
        "a", "a/", "a/.", "a//b", "a/./b", "./a", "/a", "//a", "/./a", ".//./a", "a/b/./", ".a/b.",
        "../a",
    ]
    .iter()
    {
        let path = std::path::Path::new(path);
        let name = path.file_name().unwrap().to_str().unwrap();
        let expected = path.with_file_name(format!(".{}.sock", name));
        assert_eq!(ipc_path(path.to_str().unwrap()), expected.to_str().unwrap());
    }
}

#[test]
fn extensions_of_paths() {
    for path in ["a.json", "a.b.json", ".json", "json", "a.json/", "a.json/..", "a.", "x/a.json/."].iter() {
        let expected = std::path::Path::new(path).extension().and_then(|e| e.to_str()) == Some("json");
        assert_eq!(has_extension(path, "json"), expected, "{}", path);
    }
}

#[test]
fn topics_and_outboxes() {
    let manifest = manifest();
    assert_eq!(
        manifest.topics(),
        vec![
            &TopicId::Twitter(1),
            &feed("http://example.com/feed.xml"),
            &TopicId::Twitter(1),
            &TopicId::Twitter(2)
        ]
    );
    assert_eq!(manifest.feed_topics(), vec!["http://example.com/feed.xml"]);
    assert_eq!(manifest.twitter_topics(), vec![1, 1, 2]);
    assert_eq!(
        manifest.outboxes(),
        vec![Outbox::Twitter(10), Outbox::Twitter(11), Outbox::Twitter(12)]
    );
    assert_eq!(manifest.twitter_outboxes(), vec![10, 11, 12]);
    assert!(manifest.has_topic(&TopicId::Twitter(2)));
    assert!(!manifest.has_topic(&TopicId::Twitter(3)));
    assert!(manifest.has_topic(&feed("http://example.com/feed.xml")));
    assert!(!manifest.has_topic(&feed("http://example.com/")));
}

#[test]
fn validation() {
    let mut manifest = manifest();
    assert_eq!(manifest.validate(), Ok(()));
    manifest.twitter = None;
    assert_eq!(manifest.validate(), Err(ManifestError::TwitterTopics));
    assert_eq!(
        ManifestError::TwitterTopics.message(),
        "the manifest has Twitter topics, but API credentials are not provided"
    );
    for rule in &mut manifest.rule {
        rule.topics = vec![feed("http://example.com/feed.xml")];
    }
    assert_eq!(manifest.validate(), Err(ManifestError::TwitterOutboxes));
    assert_eq!(
        ManifestError::TwitterOutboxes.message(),
        "the manifest has Twitter outboxes, but API credentials are not provided"
    );
    assert_eq!(Manifest::new().validate(), Ok(()));
}

#[test]
fn values_of_topics_and_outboxes() {
    assert_eq!(TopicId::from_value(Value::Signed(-1)), Some(TopicId::Twitter(-1)));
    assert_eq!(TopicId::from_value(Value::Unsigned(1)), Some(TopicId::Twitter(1)));
    assert_eq!(TopicId::from_value(Value::Unsigned(1 << 63)), None);
    assert_eq!(TopicId::from_value(Value::Text("x".to_owned())), Some(feed("x")));
    assert_eq!(TopicId::from_value(Value::Other), None);

    assert_eq!(de_outbox(&Value::Signed(7)).unwrap().as_slice(), &[Outbox::Twitter(7)]);
    assert_eq!(
        de_outbox(&Value::List(vec![Value::Signed(7), Value::Unsigned(8)])).unwrap().as_slice(),
        &[Outbox::Twitter(7), Outbox::Twitter(8)]
    );
    assert!(de_outbox(&Value::List(vec![])).unwrap().as_slice().is_empty());
    assert!(de_outbox(&Value::List(vec![Value::Signed(7), Value::Other])).is_none());
    assert!(de_outbox(&Value::Text("7".to_owned())).is_none());

    assert_eq!(de_duration_from_secs(&Value::Signed(3)), Some(3_000_000_000));
    assert_eq!(de_duration_from_secs(&Value::Unsigned(3)), Some(3_000_000_000));
    assert_eq!(de_duration_from_secs(&Value::Signed(-3)), None);
    assert_eq!(de_duration_from_secs(&Value::Other), None);
    assert_eq!(one_hour(), 3_600_000_000_000);
    assert_eq!(one_sec(), 1_000_000_000);
    assert!(default_true());
}

#[test]
fn callbacks() {
    let uri = de_callback("http://example.com/cb/").unwrap();
    assert_eq!(uri.scheme.as_deref(), Some("http"));
    assert_eq!(uri.authority.as_deref(), Some("example.com"));
    assert_eq!(uri.path, "/cb/");
    assert_eq!(uri.query, None);
    assert_eq!(uri.to_text(), "http://example.com/cb/");
    assert_eq!(de_callback("http://example.com").unwrap().path, "/");
    assert_eq!(de_callback("/cb/").unwrap_err(), CallbackError::MissingScheme);
    assert_eq!(de_callback("http://example.com/?q").unwrap_err(), CallbackError::HasQuery);
    assert_eq!(de_callback("http://exa mple/").unwrap_err(), CallbackError::NotAUri);
    assert_eq!(CallbackError::MissingScheme.message(), "missing URI scheme");
    assert_eq!(
        CallbackError::HasQuery.message(),
        "`websub.callback` must not have a query part"
    );
    let relative = Uri { scheme: None, authority: None, path: "/".to_owned(), query: Some("q".to_owned()) };
    assert_eq!(relative.to_text(), "/?q");
    assert_eq!(check_callback(relative).unwrap_err(), CallbackError::MissingScheme);
}

#[test]
fn addresses() {
    let check = |addr: &str| if addr == "127.0.0.1:80" { Ok(()) } else { Err(addr.len()) };
    let tcp = Addr::Tcp("127.0.0.1:80".to_owned());
    assert_eq!(Addr::parse("tcp://127.0.0.1:80", check), Ok(tcp.clone()));
    assert_eq!(tcp.clone(), tcp);
    // What is not an IP address with a port is refused.
    assert_eq!(Addr::parse("tcp://x", check), Err(AddrError::Tcp(1)));
    assert_eq!(Addr::parse("tcp://", check), Err(AddrError::Tcp(0)));
    let unix = Addr::Unix("/run/x.sock".to_owned());
    assert_eq!(Addr::parse("unix:///run/x.sock", check), Ok(unix));
    assert_eq!(Addr::parse("unix://", check), Ok(Addr::Unix(String::new())));
    assert_eq!(Addr::parse("http://x", check), Err(AddrError::UnknownType));
    assert_eq!(Addr::parse("127.0.0.1:80", check), Err(AddrError::UnknownType));
    assert_eq!(UNKNOWN_TYPE, "unknown bind address type");
}

#[test]
fn durations() {
    let list = |parts: &[u64]| Value::List(parts.iter().map(|&n| Value::Unsigned(n)).collect());
    assert_eq!(de_duration_from_secs(&list(&[3, 7])), Some(3_000_000_007));
    // Nanoseconds may make up whole seconds.
    assert_eq!(de_duration_from_secs(&list(&[3, 2_500_000_000])), Some(5_500_000_000));
    assert_eq!(de_duration_from_secs(&list(&[3])), None);
    assert_eq!(de_duration_from_secs(&list(&[3, 0, 0])), None);
    assert_eq!(de_duration_from_secs(&list(&[])), None);
    assert_eq!(de_duration_from_secs(&list(&[0, 4_294_967_295])), Some(4_294_967_295));
    assert_eq!(de_duration_from_secs(&list(&[0, 4_294_967_296])), None);
    let longest: u128 = 18_446_744_073_709_551_615_999_999_999;
    assert_eq!(de_duration_from_secs(&list(&[u64::MAX, 999_999_999])), Some(longest));
    assert_eq!(de_duration_from_secs(&list(&[u64::MAX, 1_000_000_000])), None);
    let negative = Value::List(vec![Value::Signed(1), Value::Signed(-1)]);
    assert_eq!(de_duration_from_secs(&negative), None);
    assert_eq!(
        de_duration_from_secs(&Value::List(vec![Value::Signed(1), Value::Signed(2)])),
        Some(1_000_000_002)
    );

    let table = |fields: &[(&str, u64)]| {
        Value::Table(fields.iter().map(|&(k, n)| (k.to_owned(), Value::Unsigned(n))).collect())
    };
    assert_eq!(de_duration_from_secs(&table(&[("secs", 3), ("nanos", 7)])), Some(3_000_000_007));
    assert_eq!(de_duration_from_secs(&table(&[("nanos", 7), ("secs", 3)])), Some(3_000_000_007));
    assert_eq!(de_duration_from_secs(&table(&[("secs", 3)])), None);
    assert_eq!(de_duration_from_secs(&table(&[("secs", 3), ("secs", 3)])), None);
    assert_eq!(de_duration_from_secs(&table(&[("secs", 3), ("millis", 7)])), None);
    assert_eq!(
        de_duration_from_secs(&table(&[("secs", 3), ("nanos", 7), ("other", 1)])),
        None
    );
    assert_eq!(de_duration_from_secs(&Value::Text("3".to_owned())), None);
}

#[test]
fn manifests_can_be_copied() {
    let empty = Manifest::default();
    assert!(empty.rule.is_empty() && empty.database_url.is_none() && !empty.skip_duplicate);
    assert!(empty.websub.is_none() && empty.twitter.is_none());

    let mut outbox = OutboxList::new();
    outbox.extend(&vec![Outbox::Twitter(1), Outbox::Twitter(2)]);
    let filter = Filter::parse("^a", None).unwrap();
    let route = Arc::new(Route::new(Some(filter), None, outbox));
    let mut manifest = Manifest::new();
    manifest.rule.push(Rule { route, topics: vec![TopicId::Twitter(5)] });
    let copy = manifest.clone();
    assert_eq!(copy.rule[0].topics, manifest.rule[0].topics);

    let route = Route::clone(&copy.rule[0].route);
    assert_eq!(route.outbox.as_slice(), &[Outbox::Twitter(1), Outbox::Twitter(2)]);
    assert_eq!(route.filter.unwrap().title.as_str(), "^a");

    let router = Router::from_manifest(&manifest).clone();
    assert_eq!(router.route_tweet(&tweet(5, "abc")).len(), 2);
    assert!(Router::default().route_tweet(&tweet(5, "abc")).is_empty());
}

#[test]
fn resolved_uris_are_not_resolved_again() {
    for uri in ["db", "file:db?k=v", "file:", "file:?k=v", "file://other/x", ":memory:", "/db"] {
        for base in ["/base", "/", ""] {
            let once = resolve_database_uri(uri, base).unwrap_or_else(|| uri.to_owned());
            let twice = resolve_database_uri(&once, base).unwrap_or_else(|| once.clone());
            assert_eq!(once, twice);
        }
    }
    // A relative directory is put in front again.
    assert_eq!(resolve_database_uri("base/db", "base").as_deref(), Some("base/base/db"));
    // Two slashes are taken for the start of a host.
    assert_eq!(resolve_database_uri("file:a", "//b").as_deref(), Some("file://b/a"));
    assert_eq!(resolve_database_uri("file://b/a", "//b").as_deref(), Some("//b/file://b/a"));
}

#[test]
fn filters() {
    assert!(Pattern::parse("(").is_none());
    assert_eq!(Pattern::parse("^a").unwrap().as_str(), "^a");
    assert!(Filter::parse("(", None).is_none());
    assert!(Filter::parse("a", Some("(")).is_none());

    let title = Filter::parse("^rust", None).unwrap();
    assert!(title.matches_entry(&entry(Some("rustc"), None, None)));
    assert!(!title.matches_entry(&entry(Some("a rustc"), Some("rust"), Some("rust"))));
    assert!(!title.matches_entry(&entry(None, Some("rust"), None)));
    assert!(title.matches_tweet(&tweet(1, "rust!")));
    assert!(!title.matches_tweet(&tweet(1, "a rust")));

    let both = Filter::parse("^rust", Some("cargo")).unwrap();
    assert!(both.matches_entry(&entry(None, Some("use cargo"), None)));
    assert!(both.matches_entry(&entry(None, Some("x"), Some("use cargo"))));
    assert!(!both.matches_entry(&entry(Some("cargo"), None, None)));
    assert!(both.matches_tweet(&tweet(1, "use cargo")));
}

#[test]
fn passing_filters() {
    assert!(is_let_through(None, None));
    assert!(is_let_through(Some(true), None));
    assert!(is_let_through(Some(true), Some(false)));
    assert!(!is_let_through(Some(true), Some(true)));
    assert!(!is_let_through(Some(false), None));
    assert!(!is_let_through(None, Some(true)));
}

#[test]
fn outboxes_of_a_route_can_be_changed() {
    let mut route = Route::new(None, None, OutboxList::new());
    assert!(route.outbox().is_empty());
    route.outbox_mut().extend(&vec![Outbox::Twitter(1), Outbox::Twitter(2)]);
    route.outbox_mut().extend(&vec![Outbox::Twitter(1)]);
    assert_eq!(
        route.outbox(),
        &[Outbox::Twitter(1), Outbox::Twitter(2), Outbox::Twitter(1)]
    );
}

#[test]
fn routing() {
    let manifest = manifest();
    let router = Router::from_manifest(&manifest);
    assert_eq!(
        router.route_tweet(&tweet(1, "rust")),
        vec![Outbox::Twitter(10), Outbox::Twitter(11), Outbox::Twitter(12)]
    );
    assert_eq!(router.route_tweet(&tweet(1, "go")), vec![Outbox::Twitter(12)]);
    assert_eq!(
        router.route_tweet(&tweet(1, "rust spam")),
        vec![Outbox::Twitter(10), Outbox::Twitter(11)]
    );
    assert_eq!(router.route_tweet(&tweet(2, "spam")), vec![]);
    assert_eq!(router.route_tweet(&tweet(3, "rust")), vec![]);
    assert_eq!(
        router.route_entry("http://example.com/feed.xml", &entry(Some("rust"), None, None)),
        vec![Outbox::Twitter(10), Outbox::Twitter(11)]
    );
    assert_eq!(
        router.route_entry("http://example.com/", &entry(Some("rust"), None, None)),
        vec![]
    );
    // Each outbox is one of the manifest, and each topic has routes.
    for topic in manifest.topics() {
        assert!(router.get(topic).is_some());
    }
    assert!(router.get(&TopicId::Twitter(3)).is_none());
}

#[test]
fn routers_can_be_changed() {
    let mut router = Router::new();
    let a = route(None, None, &[1]);
    let b = route(None, None, &[2]);
    let topic = TopicId::Twitter(1);
    assert!(router.get(&topic).is_none());
    assert!(router.get_mut(&topic).is_none());
    router.append(TopicId::Twitter(1), a.clone());
    router.append(feed("f"), b.clone());
    router.append(TopicId::Twitter(1), b.clone());
    assert_eq!(router.get(&topic).unwrap().len(), 2);
    assert_eq!(router.get(&topic).unwrap()[1].outbox(), &[Outbox::Twitter(2)]);
    router.get_mut(&topic).unwrap().push(a.clone());
    assert_eq!(router.get(&topic).unwrap()[2].outbox(), &[Outbox::Twitter(1)]);
    assert_eq!(router.remove(&topic).unwrap().as_slice().len(), 3);
    assert!(router.get(&topic).is_none());
    assert!(router.remove(&topic).is_none());
    assert_eq!(router.get(&feed("f")).unwrap().len(), 1);
    assert!(Router::with_capacity(4).get(&topic).is_none());
}
