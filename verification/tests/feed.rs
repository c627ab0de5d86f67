use pipitor::feed::{AtomContent, AtomEntry, Entry, Feed, Guid, Link, MediaType, Mime, RawFeed, RssItem};
use pipitor::uri::Uri;
use pipitor::websub::discovery::{hub_links, media_type_of};
use pipitor::websub::service::{Content, Service};

const ATOM: &str = r#"<?xml version="1.0" encoding="utf-8"?>
<feed xmlns="http://www.w3.org/2005/Atom">
  <title>Example</title>
  <id>urn:example</id>
  <updated>2020-01-02T03:04:05Z</updated>
  <link rel="self" href="http://example.com/feed.xml"/>
  <link rel="hub" href="http://example.com/hub"/>
  <link rel="hub" href="http://example.com/hub2"/>
  <entry>
    <title>First</title>
    <id>urn:example:1</id>
    <updated>2020-01-02T03:04:05Z</updated>
    <link rel="related" href="http://example.com/other"/>
    <link rel="alternate" href="http://example.com/1"/>
    <summary>Sum</summary>
    <content>Text</content>
  </entry>
</feed>"#;

const RSS: &str = r#"<?xml version="1.0"?>
<rss version="2.0" xmlns:atom="http://www.w3.org/2005/Atom" xmlns:other="http://example.com/ns">
  <channel>
    <title>Channel</title>
    <link>http://example.com/</link>
    <description>About</description>
    <atom:link rel="self" href="http://example.com/rss.xml"/>
    <atom:link rel="hub" href="http://example.com/hub"/>
    <other:link rel="hub" href="http://example.com/no"/>
    <b:link xmlns:b="http://www.w3.org/2005/Atom" rel="hub" href="http://example.com/hub2"/>
    <item>
      <title>First</title>
      <guid isPermaLink="true">http://example.com/1</guid>
      <description>Sum</description>
    </item>
    <item>
      <title>Second</title>
      <link>http://example.com/2</link>
      <guid isPermaLink="false">two</guid>
    </item>
    <item>
      <title>Third</title>
      <guid isPermaLink="false">three</guid>
    </item>
  </channel>
</rss>"#;

fn some(s: &str) -> Option<String> {
    Some(s.to_owned())
}

#[test]
fn media_types() {
    assert_eq!(MediaType::from_str("application/atom+xml"), Ok(MediaType::Atom));
    assert_eq!(
        MediaType::from_str("Application/Atom+XML; charset=utf-8"),
        Ok(MediaType::Atom)
    );
    assert_eq!(MediaType::from_str("application/rss+xml"), Ok(MediaType::Rss));
    assert_eq!(MediaType::from_str("application/rdf+xml"), Ok(MediaType::Rss));
    assert_eq!(MediaType::from_str("application/xml"), Ok(MediaType::Xml));
    assert_eq!(MediaType::from_str("text/xml"), Ok(MediaType::Xml));
    assert_eq!(MediaType::from_str("text/html"), Err(()));
    assert_eq!(MediaType::from_str("text/atom+xml"), Err(()));
    assert_eq!(MediaType::from_str("application/atom+json"), Err(()));
    assert_eq!(MediaType::from_str("x"), Err(()));
    let mime = |t: &str, s: &str, x: Option<&str>| Mime {
        type_: t.to_owned(),
        subtype: s.to_owned(),
        suffix: x.map(|x| x.to_owned()),
    };
    assert_eq!(MediaType::from_mime(&mime("application", "rss", Some("xml"))), Ok(MediaType::Rss));
    assert_eq!(MediaType::from_mime(&mime("text", "xml", None)), Ok(MediaType::Xml));
    assert_eq!(MediaType::from_mime(&mime("application", "rss", None)), Err(()));
    assert_eq!(media_type_of(b"text/xml"), Some(MediaType::Xml));
    assert_eq!(media_type_of(b"text/xml\xff"), None);
}

#[test]
fn atom_feeds() {
    let expected = Feed {
        title: "Example".to_owned(),
        id: "urn:example".to_owned(),
        entries: vec![Entry {
            title: some("First"),
            id: some("urn:example:1"),
            link: some("http://example.com/1"),
            summary: some("Sum"),
            content: some("Text"),
            updated: Some(1577934245),
        }],
    };
    assert_eq!(Feed::parse(MediaType::Atom, ATOM.as_bytes()).as_ref(), Some(&expected));
    assert_eq!(Feed::parse(MediaType::Xml, ATOM.as_bytes()).as_ref(), Some(&expected));
    assert_eq!(Feed::parse(MediaType::Rss, ATOM.as_bytes()), None);
    let content = Content { kind: MediaType::Atom, content: ATOM.as_bytes().to_vec() };
    assert_eq!(content.parse_feed(), Some(expected));
}

#[test]
fn rss_feeds() {
    let feed = Feed::parse(MediaType::Rss, RSS.as_bytes()).unwrap();
    assert_eq!(feed.title, "Channel");
    assert_eq!(feed.id, "http://example.com/");
    assert_eq!(
        feed.entries[0],
        Entry {
            title: some("First"),
            id: some("http://example.com/1"),
            link: some("http://example.com/1"),
            summary: some("Sum"),
            content: None,
            updated: None,
        }
    );
    assert_eq!(feed.entries[1].link, some("http://example.com/2"));
    assert_eq!(feed.entries[1].id, some("two"));
    assert_eq!(feed.entries[2].link, None);
    assert_eq!(Feed::parse(MediaType::Xml, RSS.as_bytes()), Some(feed));
    assert_eq!(Feed::parse(MediaType::Atom, RSS.as_bytes()), None);
    assert_eq!(Feed::parse(MediaType::Xml, b"nothing"), None);
}

#[test]
fn links_of_entries() {
    let link = |rel: &str, href: &str| Link { rel: rel.to_owned(), href: href.to_owned() };
    let entry = |links| AtomEntry {
        title: "t".to_owned(),
        id: "i".to_owned(),
        links,
        summary: None,
        content: Some(AtomContent { value: None }),
        updated: 5,
    };
    assert_eq!(Entry::from_atom(&entry(vec![])).link, None);
    assert_eq!(Entry::from_atom(&entry(vec![link("self", "a"), link("via", "b")])).link, some("a"));
    assert_eq!(
        Entry::from_atom(&entry(vec![link("self", "a"), link("alternate", "b"), link("alternate", "c")])).link,
        some("b")
    );
    let converted = Entry::from_atom(&entry(vec![]));
    assert_eq!(converted.content, None);
    assert_eq!(converted.updated, Some(5));

    let item = RssItem {
        title: None,
        link: None,
        guid: Some(Guid { value: "g".to_owned(), permalink: true }),
        description: None,
        content: some("c"),
    };
    let converted = Entry::from_rss(&item);
    assert_eq!(converted.link, some("g"));
    assert_eq!(converted.content, some("c"));
}

fn service() -> Service {
    Service { callback: Uri::parse("http://example.com/").unwrap(), renewal_margin: 0 }
}

fn discover(content_type: Option<&str>, body: &str) -> Option<Vec<String>> {
    let content_type = content_type.map(|s| s.as_bytes().to_vec());
    let (topic, hubs) = service().discover("topic".to_owned(), &content_type, body.as_bytes());
    assert_eq!(topic, "topic");
    hubs
}

#[test]
fn hubs() {
    let hubs = vec!["http://example.com/hub".to_owned(), "http://example.com/hub2".to_owned()];
    assert_eq!(discover(Some("application/atom+xml"), ATOM), Some(hubs.clone()));
    // A response without a media type is taken as XML. In a feed of RSS, the hubs come in the order
    // of the prefixes of their elements.
    assert_eq!(discover(None, RSS), Some(hubs));
    assert_eq!(discover(Some("text/html"), ATOM), None);
    assert_eq!(discover(None, "nothing"), None);
    let raw = RawFeed::parse(MediaType::Rss, RSS.as_bytes()).unwrap();
    assert_eq!(hub_links(&raw).len(), 2);
}

#[test]
fn subscriptions_at_all_hubs() {
    let subs = service().discover_and_subscribe("topic".to_owned(), &None, ATOM.as_bytes());
    assert_eq!(subs.len(), 2);
    assert_eq!(subs[0].hub, "http://example.com/hub");
    assert_eq!(subs[1].hub, "http://example.com/hub2");
    assert!(subs.iter().all(|sub| sub.topic == "topic" && sub.id >= 0 && sub.secret.len() == 32));
    assert_ne!(subs[0].secret, subs[1].secret);
    assert!(service().discover_and_subscribe("topic".to_owned(), &None, b"nothing").is_empty());
}
