//! Web feeds in the Atom and RSS formats.

use rss::Channel;
use vstd::prelude::*;

use crate::strings::{clone_opt, str_eq};
#[allow(unused_imports)]
use crate::strings::opt_view;

verus! {

/// A feed in either format.
#[derive(Debug, PartialEq)]
pub struct Feed {
    pub title: String,
    pub id: String,
    pub entries: Vec<Entry>,
}

/// An entry of a feed.
#[derive(Debug, PartialEq)]
pub struct Entry {
    pub title: Option<String>,
    pub id: Option<String>,
    pub link: Option<String>,
    pub summary: Option<String>,
    pub content: Option<String>,
    pub updated: Option<i64>,
}

/// A feed as its format has it.
#[derive(Debug)]
pub enum RawFeed {
    Atom(AtomFeed),
    Rss(RssChannel),
}

/// MIME type for syndication formats.
#[derive(Copy, Clone, Debug, PartialEq, Eq, Structural)]
pub enum MediaType {
    Atom,
    Rss,
    Xml,
}

/// A MIME type without its parameters, in lower case.
#[derive(Debug)]
pub struct Mime {
    pub type_: String,
    pub subtype: String,
    pub suffix: Option<String>,
}

/// A link of an Atom feed or entry.
#[derive(Debug)]
pub struct Link {
    pub rel: String,
    pub href: String,
}

/// The content of an Atom entry.
#[derive(Debug)]
pub struct AtomContent {
    pub value: Option<String>,
}

/// An entry of an Atom feed.
#[derive(Debug)]
pub struct AtomEntry {
    pub title: String,
    pub id: String,
    pub links: Vec<Link>,
    pub summary: Option<String>,
    pub content: Option<AtomContent>,
    /// The Unix time of the last update.
    pub updated: i64,
}

/// An Atom feed.
#[derive(Debug)]
pub struct AtomFeed {
    pub title: String,
    pub id: String,
    pub links: Vec<Link>,
    pub entries: Vec<AtomEntry>,
}

/// The identifier of an RSS item.
#[derive(Debug)]
pub struct Guid {
    pub value: String,
    pub permalink: bool,
}

/// An item of an RSS channel.
#[derive(Debug)]
pub struct RssItem {
    pub title: Option<String>,
    pub link: Option<String>,
    pub guid: Option<Guid>,
    pub description: Option<String>,
    pub content: Option<String>,
}

/// The attributes of an element, each under its own name.
pub type Attrs = Vec<(String, String)>;

/// The extension elements of a channel: by prefix, and then by local name.
pub type Extensions = Vec<(String, Vec<(String, Vec<Attrs>)>)>;

/// An RSS channel.
#[derive(Debug)]
pub struct RssChannel {
    pub title: String,
    pub link: String,
    pub items: Vec<RssItem>,
    /// The namespace that each prefix stands for.
    pub namespaces: Attrs,
    pub extensions: Extensions,
}

/// The value of `Feed`.
pub struct FeedView {
    pub title: Seq<char>,
    pub id: Seq<char>,
    pub entries: Seq<EntryView>,
}

/// The value of `Entry`.
pub struct EntryView {
    pub title: Option<Seq<char>>,
    pub id: Option<Seq<char>>,
    pub link: Option<Seq<char>>,
    pub summary: Option<Seq<char>>,
    pub content: Option<Seq<char>>,
    pub updated: Option<i64>,
}

/// The value of `RawFeed`.
pub enum RawFeedView {
    Atom(AtomFeedView),
    Rss(RssChannelView),
}

/// The value of `Mime`.
pub struct MimeView {
    pub type_: Seq<char>,
    pub subtype: Seq<char>,
    pub suffix: Option<Seq<char>>,
}

/// The value of `Link`.
pub struct LinkView {
    pub rel: Seq<char>,
    pub href: Seq<char>,
}

/// The value of `AtomEntry`; `content` is present where the entry has a content element.
pub struct AtomEntryView {
    pub title: Seq<char>,
    pub id: Seq<char>,
    pub links: Seq<LinkView>,
    pub summary: Option<Seq<char>>,
    pub content: Option<Option<Seq<char>>>,
    pub updated: i64,
}

/// The value of `AtomFeed`.
pub struct AtomFeedView {
    pub title: Seq<char>,
    pub id: Seq<char>,
    pub links: Seq<LinkView>,
    pub entries: Seq<AtomEntryView>,
}

/// The value of `Guid`.
pub struct GuidView {
    pub value: Seq<char>,
    pub permalink: bool,
}

/// The value of `RssItem`.
pub struct RssItemView {
    pub title: Option<Seq<char>>,
    pub link: Option<Seq<char>>,
    pub guid: Option<GuidView>,
    pub description: Option<Seq<char>>,
    pub content: Option<Seq<char>>,
}

/// The value of `Attrs`.
pub type AttrsView = Seq<(Seq<char>, Seq<char>)>;

/// The value of the elements under one prefix.
pub type NamesView = Seq<(Seq<char>, Seq<AttrsView>)>;

/// The value of `RssChannel`.
pub struct RssChannelView {
    pub title: Seq<char>,
    pub link: Seq<char>,
    pub items: Seq<RssItemView>,
    pub namespaces: AttrsView,
    pub extensions: Seq<(Seq<char>, NamesView)>,
}

impl View for Feed {
    type V = FeedView;

    open spec fn view(&self) -> FeedView {
        FeedView {
            title: self.title@,
            id: self.id@,
            entries: Seq::new(self.entries@.len(), |i: int| self.entries@[i]@),
        }
    }
}

impl View for Entry {
    type V = EntryView;

    open spec fn view(&self) -> EntryView {
        EntryView {
            title: opt_view(self.title),
            id: opt_view(self.id),
            link: opt_view(self.link),
            summary: opt_view(self.summary),
            content: opt_view(self.content),
            updated: self.updated,
        }
    }
}

impl View for RawFeed {
    type V = RawFeedView;

    open spec fn view(&self) -> RawFeedView {
        match self {
            RawFeed::Atom(feed) => RawFeedView::Atom(feed@),
            RawFeed::Rss(channel) => RawFeedView::Rss(channel@),
        }
    }
}

impl View for Mime {
    type V = MimeView;

    open spec fn view(&self) -> MimeView {
        MimeView { type_: self.type_@, subtype: self.subtype@, suffix: opt_view(self.suffix) }
    }
}

impl View for Link {
    type V = LinkView;

    open spec fn view(&self) -> LinkView {
        LinkView { rel: self.rel@, href: self.href@ }
    }
}

/// The values of links.
pub open spec fn links_view(links: Seq<Link>) -> Seq<LinkView> {
    Seq::new(links.len(), |i: int| links[i]@)
}

impl View for AtomEntry {
    type V = AtomEntryView;

    open spec fn view(&self) -> AtomEntryView {
        AtomEntryView {
            title: self.title@,
            id: self.id@,
            links: links_view(self.links@),
            summary: opt_view(self.summary),
            content: match self.content {
                Some(content) => Some(opt_view(content.value)),
                None => None,
            },
            updated: self.updated,
        }
    }
}

impl View for AtomFeed {
    type V = AtomFeedView;

    open spec fn view(&self) -> AtomFeedView {
        AtomFeedView {
            title: self.title@,
            id: self.id@,
            links: links_view(self.links@),
            entries: Seq::new(self.entries@.len(), |i: int| self.entries@[i]@),
        }
    }
}

impl View for Guid {
    type V = GuidView;

    open spec fn view(&self) -> GuidView {
        GuidView { value: self.value@, permalink: self.permalink }
    }
}

impl View for RssItem {
    type V = RssItemView;

    open spec fn view(&self) -> RssItemView {
        RssItemView {
            title: opt_view(self.title),
            link: opt_view(self.link),
            guid: match self.guid {
                Some(guid) => Some(guid@),
                None => None,
            },
            description: opt_view(self.description),
            content: opt_view(self.content),
        }
    }
}

/// The value of the attributes of an element.
pub open spec fn attrs_view(attrs: Attrs) -> AttrsView {
    Seq::new(attrs@.len(), |i: int| (attrs@[i].0@, attrs@[i].1@))
}

/// The value of the elements under one prefix.
pub open spec fn names_view(names: Vec<(String, Vec<Attrs>)>) -> NamesView {
    Seq::new(
        names@.len(),
        |i: int|
            (
                names@[i].0@,
                Seq::new(names@[i].1@.len(), |j: int| attrs_view(names@[i].1@[j])),
            ),
    )
}

impl View for RssChannel {
    type V = RssChannelView;

    open spec fn view(&self) -> RssChannelView {
        RssChannelView {
            title: self.title@,
            link: self.link@,
            items: Seq::new(self.items@.len(), |i: int| self.items@[i]@),
            namespaces: attrs_view(self.namespaces),
            extensions: Seq::new(
                self.extensions@.len(),
                |i: int| (self.extensions@[i].0@, names_view(self.extensions@[i].1)),
            ),
        }
    }
}

/// The Atom feed that a document holds.
pub uninterp spec fn atom_document(content: Seq<u8>) -> Option<AtomFeedView>;

/// The RSS channel that a document holds.
pub uninterp spec fn rss_document(content: Seq<u8>) -> Option<RssChannelView>;

/// The MIME type that a text denotes.
pub uninterp spec fn mime_text(text: Seq<char>) -> Option<MimeView>;

/// `atom_syndication::Feed::read_from`: the feed that the document holds, or nothing where it
/// returns an error. The time of an update is that of `timestamp`.
#[verifier::external_body]
pub(crate) fn read_atom(content: &[u8]) -> (r: Option<AtomFeed>)
    ensures
        match r {
            Some(feed) => atom_document(content@) == Some(feed@),
            None => atom_document(content@) is None,
        },
{
    let f = atom_syndication::Feed::read_from(content).ok()?;
    let link = |l: atom_syndication::Link| Link { rel: l.rel, href: l.href };
    let entry = |e: atom_syndication::Entry| AtomEntry {
        title: e.title,
        id: e.id,
        links: e.links.into_iter().map(link).collect(),
        summary: e.summary,
        content: e.content.map(|c| AtomContent { value: c.value }),
        updated: e.updated.timestamp(),
    };
    let links = f.links.into_iter().map(link).collect();
    let entries = f.entries.into_iter().map(entry).collect();
    Some(AtomFeed { title: f.title, id: f.id, links, entries })
}

/// `rss::Channel::read_from`: the channel that the document holds, or nothing where it returns an
/// error. Attributes, namespaces and extension elements come in the order of their names.
#[verifier::external_body]
pub(crate) fn read_rss(content: &[u8]) -> (r: Option<RssChannel>)
    ensures
        match r {
            Some(channel) => rss_document(content@) == Some(channel@),
            None => rss_document(content@) is None,
        },
{
    let Channel { title, link, items, namespaces, extensions, .. } = Channel::read_from(content).ok()?;
    Some(RssChannel {
        title,
        link,
        items: items.into_iter().map(|i| RssItem {
            title: i.title,
            link: i.link,
            guid: i.guid.map(|g| Guid { value: g.value, permalink: g.permalink }),
            description: i.description,
            content: i.content
        }).collect(),
        namespaces: Vec::from_iter(namespaces),
        extensions: extensions.into_iter().map(|(p, m)| (p, m.into_iter().map(|(n, v)|
            (n, v.into_iter().map(|e| Vec::from_iter(e.attrs)).collect())).collect())).collect()
    })
}

/// `mime::Mime` parsed from the text, or nothing where the text is refused: its type, subtype and
/// suffix, which `mime` keeps in lower case.
#[verifier::external_body]
pub(crate) fn read_mime(text: &str) -> (r: Option<Mime>)
    ensures
        match r {
            Some(mime) => mime_text(text@) == Some(mime@),
            None => mime_text(text@) is None,
        },
{
    let mime = text.parse::<mime::Mime>().ok()?;
    Some(
        Mime {
            type_: mime.type_().as_str().to_owned(),
            subtype: mime.subtype().as_str().to_owned(),
            suffix: mime.suffix().map(|s| s.as_str().to_owned()),
        },
    )
}

/// The format that a MIME type stands for.
pub open spec fn media_type(mime: MimeView) -> Option<MediaType> {
    let application = mime.type_ == "application"@;
    let xml_suffix = mime.suffix == Some("xml"@);
    if application && mime.subtype == "atom"@ && xml_suffix {
        Some(MediaType::Atom)
    } else if application && (mime.subtype == "rss"@ || mime.subtype == "rdf"@) && xml_suffix {
        Some(MediaType::Rss)
    } else if (application || mime.type_ == "text"@) && mime.subtype == "xml"@ {
        Some(MediaType::Xml)
    } else {
        None
    }
}

/// The format that the text of a MIME type stands for.
pub open spec fn media_type_text(text: Seq<char>) -> Option<MediaType> {
    match mime_text(text) {
        Some(mime) => media_type(mime),
        None => None,
    }
}

impl MediaType {
    /// Reads the text of a MIME type.
    pub fn from_str(s: &str) -> (r: Result<MediaType, ()>)
        ensures
            match r {
                Ok(kind) => media_type_text(s@) == Some(kind),
                Err(()) => media_type_text(s@) is None,
            },
    {
        match read_mime(s) {
            Some(mime) => MediaType::from_mime(&mime),
            None => Err(()),
        }
    }

    /// Returns the format that a MIME type stands for.
    pub fn from_mime(mime: &Mime) -> (r: Result<MediaType, ()>)
        ensures
            match r {
                Ok(kind) => media_type(mime@) == Some(kind),
                Err(()) => media_type(mime@) is None,
            },
    {
        let application = str_eq(mime.type_.as_str(), "application");
        let xml_suffix = match &mime.suffix {
            Some(suffix) => str_eq(suffix.as_str(), "xml"),
            None => false,
        };
        let subtype = mime.subtype.as_str();
        if application && str_eq(subtype, "atom") && xml_suffix {
            Ok(MediaType::Atom)
        } else if application && (str_eq(subtype, "rss") || str_eq(subtype, "rdf")) && xml_suffix {
            Ok(MediaType::Rss)
        } else if (application || str_eq(mime.type_.as_str(), "text")) && str_eq(subtype, "xml") {
            Ok(MediaType::Xml)
        } else {
            Err(())
        }
    }
}

/// The feed that a document holds, read as a format.
pub open spec fn raw_document(kind: MediaType, content: Seq<u8>) -> Option<RawFeedView> {
    let atom = match atom_document(content) {
        Some(feed) => Some(RawFeedView::Atom(feed)),
        None => None,
    };
    let rss = match rss_document(content) {
        Some(channel) => Some(RawFeedView::Rss(channel)),
        None => None,
    };
    match kind {
        MediaType::Atom => atom,
        MediaType::Rss => rss,
        MediaType::Xml => if atom is Some {
            atom
        } else {
            rss
        },
    }
}

impl RawFeed {
    /// Reads a document. One of a generic XML type is tried as Atom and then as RSS.
    pub fn parse(kind: MediaType, content: &[u8]) -> (r: Option<Self>)
        ensures
            match r {
                Some(feed) => raw_document(kind, content@) == Some(feed@),
                None => raw_document(kind, content@) is None,
            },
    {
        match kind {
            MediaType::Atom => match read_atom(content) {
                Some(feed) => Some(RawFeed::Atom(feed)),
                None => None,
            },
            MediaType::Rss => match read_rss(content) {
                Some(channel) => Some(RawFeed::Rss(channel)),
                None => None,
            },
            MediaType::Xml => match read_atom(content) {
                Some(feed) => Some(RawFeed::Atom(feed)),
                None => match read_rss(content) {
                    Some(channel) => Some(RawFeed::Rss(channel)),
                    None => None,
                },
            },
        }
    }
}

/// The position of the first link of a relation.
pub open spec fn first_rel(links: Seq<LinkView>, rel: Seq<char>) -> Option<int>
    decreases links.len(),
{
    if links.len() == 0 {
        None
    } else if first_rel(links.drop_last(), rel) is Some {
        first_rel(links.drop_last(), rel)
    } else if links.last().rel == rel {
        Some(links.len() - 1)
    } else {
        None
    }
}

/// The target of the first alternate link, or else of the first link.
pub open spec fn entry_link(links: Seq<LinkView>) -> Option<Seq<char>> {
    match first_rel(links, "alternate"@) {
        Some(i) => Some(links[i].href),
        None => if links.len() > 0 {
            Some(links[0].href)
        } else {
            None
        },
    }
}

/// The entry that an Atom entry stands for.
pub open spec fn atom_entry(entry: AtomEntryView) -> EntryView {
    EntryView {
        title: Some(entry.title),
        id: Some(entry.id),
        link: entry_link(entry.links),
        summary: entry.summary,
        content: match entry.content {
            Some(value) => value,
            None => None,
        },
        updated: Some(entry.updated),
    }
}

/// The entry that an RSS item stands for: its own link, or else an identifier that is a permalink.
pub open spec fn rss_entry(item: RssItemView) -> EntryView {
    EntryView {
        title: item.title,
        id: match item.guid {
            Some(guid) => Some(guid.value),
            None => None,
        },
        link: match (item.link, item.guid) {
            (Some(link), _) => Some(link),
            (None, Some(guid)) => if guid.permalink {
                Some(guid.value)
            } else {
                None
            },
            (None, None) => None,
        },
        summary: item.description,
        content: item.content,
        updated: None,
    }
}

/// The feed that an Atom feed stands for.
pub open spec fn atom_feed(feed: AtomFeedView) -> FeedView {
    FeedView {
        title: feed.title,
        id: feed.id,
        entries: Seq::new(feed.entries.len(), |i: int| atom_entry(feed.entries[i])),
    }
}

/// The feed that an RSS channel stands for.
pub open spec fn rss_feed(channel: RssChannelView) -> FeedView {
    FeedView {
        title: channel.title,
        id: channel.link,
        entries: Seq::new(channel.items.len(), |i: int| rss_entry(channel.items[i])),
    }
}

/// The feed that a feed of either format stands for.
pub open spec fn raw_feed(raw: RawFeedView) -> FeedView {
    match raw {
        RawFeedView::Atom(feed) => atom_feed(feed),
        RawFeedView::Rss(channel) => rss_feed(channel),
    }
}

/// The feed of a document, read as a format.
pub open spec fn feed_document(kind: MediaType, content: Seq<u8>) -> Option<FeedView> {
    match raw_document(kind, content) {
        Some(raw) => Some(raw_feed(raw)),
        None => None,
    }
}

impl Feed {
    /// Reads a document.
    pub fn parse(kind: MediaType, content: &[u8]) -> (r: Option<Self>)
        ensures
            match r {
                Some(feed) => feed_document(kind, content@) == Some(feed@),
                None => feed_document(kind, content@) is None,
            },
    {
        match RawFeed::parse(kind, content) {
            Some(raw) => Some(Feed::from_raw(raw)),
            None => None,
        }
    }

    /// Converts a feed of either format.
    pub fn from_raw(raw: RawFeed) -> (r: Self)
        ensures
            r@ == raw_feed(raw@),
    {
        match raw {
            RawFeed::Atom(feed) => Feed::from_atom(feed),
            RawFeed::Rss(channel) => Feed::from_rss(channel),
        }
    }

    /// Converts an Atom feed.
    pub fn from_atom(feed: AtomFeed) -> (r: Self)
        ensures
            r@ == atom_feed(feed@),
            r.title == feed.title,
            r.id == feed.id,
            r.entries@.len() == feed.entries@.len(),
            forall|i: int|
                0 <= i < r.entries@.len() ==> {
                    let entry = #[trigger] r.entries@[i];
                    &&& opt_view(entry.title) == Some(feed.entries@[i].title@)
                    &&& opt_view(entry.id) == Some(feed.entries@[i].id@)
                    &&& opt_view(entry.summary) == opt_view(feed.entries@[i].summary)
                    &&& entry.updated == Some(feed.entries@[i].updated)
                },
    {
        let mut entries: Vec<Entry> = Vec::new();
        let mut i: usize = 0;
        while i < feed.entries.len()
            invariant
                i <= feed.entries@.len(),
                entries@.len() == i,
                forall|j: int| 0 <= j < i ==> entries@[j]@ == atom_entry(feed.entries@[j]@),
            decreases feed.entries@.len() - i,
        {
            entries.push(Entry::from_atom(&feed.entries[i]));
            i += 1;
        }
        let r = Feed { title: feed.title, id: feed.id, entries };
        assert(r@.entries == atom_feed(feed@).entries);
        assert forall|i: int| 0 <= i < r.entries@.len() implies opt_view(
            (#[trigger] r.entries@[i]).title,
        ) == Some(feed.entries@[i].title@) && opt_view(r.entries@[i].id) == Some(
            feed.entries@[i].id@,
        ) && opt_view(r.entries@[i].summary) == opt_view(feed.entries@[i].summary)
            && r.entries@[i].updated == Some(feed.entries@[i].updated) by {
            assert(r.entries@[i]@ == atom_entry(feed.entries@[i]@));
        }
        r
    }

    /// Converts an RSS channel.
    pub fn from_rss(channel: RssChannel) -> (r: Self)
        ensures
            r@ == rss_feed(channel@),
            r.title == channel.title,
            r.id == channel.link,
            r.entries@.len() == channel.items@.len(),
            forall|i: int|
                0 <= i < r.entries@.len() ==> {
                    let entry = #[trigger] r.entries@[i];
                    &&& opt_view(entry.title) == opt_view(channel.items@[i].title)
                    &&& opt_view(entry.summary) == opt_view(channel.items@[i].description)
                    &&& opt_view(entry.content) == opt_view(channel.items@[i].content)
                },
    {
        let mut entries: Vec<Entry> = Vec::new();
        let mut i: usize = 0;
        while i < channel.items.len()
            invariant
                i <= channel.items@.len(),
                entries@.len() == i,
                forall|j: int| 0 <= j < i ==> entries@[j]@ == rss_entry(channel.items@[j]@),
            decreases channel.items@.len() - i,
        {
            entries.push(Entry::from_rss(&channel.items[i]));
            i += 1;
        }
        let r = Feed { title: channel.title, id: channel.link, entries };
        assert(r@.entries == rss_feed(channel@).entries);
        assert forall|i: int| 0 <= i < r.entries@.len() implies opt_view(
            (#[trigger] r.entries@[i]).title,
        ) == opt_view(channel.items@[i].title) && opt_view(r.entries@[i].summary) == opt_view(
            channel.items@[i].description,
        ) && opt_view(r.entries@[i].content) == opt_view(channel.items@[i].content) by {
            assert(r.entries@[i]@ == rss_entry(channel.items@[i]@));
        }
        r
    }
}

/// Returns the position of the first link of a relation.
fn find_rel(links: &Vec<Link>, rel: &str) -> (r: Option<usize>)
    ensures
        match r {
            Some(i) => first_rel(links_view(links@), rel@) == Some(i as int) && i < links@.len(),
            None => first_rel(links_view(links@), rel@) is None,
        },
{
    let ghost view = links_view(links@);
    let mut found: Option<usize> = None;
    let mut i: usize = 0;
    while i < links.len()
        invariant
            i <= links@.len(),
            view == links_view(links@),
            match found {
                Some(k) => first_rel(view.take(i as int), rel@) == Some(k as int) && k < i,
                None => first_rel(view.take(i as int), rel@) is None,
            },
        decreases links@.len() - i,
    {
        assert(view.take(i + 1).drop_last() == view.take(i as int));
        assert(view.take(i + 1).last() == links@[i as int]@);
        if found.is_none() && str_eq(links[i].rel.as_str(), rel) {
            found = Some(i);
        }
        i += 1;
    }
    assert(view.take(i as int) == view);
    found
}

impl Entry {
    /// Converts an Atom entry.
    pub fn from_atom(entry: &AtomEntry) -> (r: Self)
        ensures
            r@ == atom_entry(entry@),
    {
        let link = match find_rel(&entry.links, "alternate") {
            Some(i) => Some(entry.links[i].href.clone()),
            None => if entry.links.len() > 0 {
                Some(entry.links[0].href.clone())
            } else {
                None
            },
        };
        let content = match &entry.content {
            Some(content) => clone_opt(&content.value),
            None => None,
        };
        Entry {
            title: Some(entry.title.clone()),
            id: Some(entry.id.clone()),
            link,
            summary: clone_opt(&entry.summary),
            content,
            updated: Some(entry.updated),
        }
    }

    /// Converts an RSS item.
    pub fn from_rss(item: &RssItem) -> (r: Self)
        ensures
            r@ == rss_entry(item@),
    {
        let id = match &item.guid {
            Some(guid) => Some(guid.value.clone()),
            None => None,
        };
        let link = match &item.link {
            Some(link) => Some(link.clone()),
            None => match &item.guid {
                Some(guid) => if guid.permalink {
                    Some(guid.value.clone())
                } else {
                    None
                },
                None => None,
            },
        };
        Entry {
            title: clone_opt(&item.title),
            id,
            link,
            summary: clone_opt(&item.description),
            content: clone_opt(&item.content),
            updated: None,
        }
    }
}

/// `first_rel` is the first position of a relation, or nothing where no link has it.
proof fn first_rel_is_first(links: Seq<LinkView>, rel: Seq<char>)
    ensures
        match first_rel(links, rel) {
            Some(i) => 0 <= i < links.len() && links[i].rel == rel && forall|j: int|
                0 <= j < i ==> (#[trigger] links[j]).rel != rel,
            None => forall|j: int| 0 <= j < links.len() ==> (#[trigger] links[j]).rel != rel,
        },
    decreases links.len(),
{
    if links.len() > 0 {
        let before = links.drop_last();
        first_rel_is_first(before, rel);
        assert forall|j: int| 0 <= j < before.len() implies before[j] == #[trigger] links[j] by {}
        assert(links[links.len() - 1] == links.last());
    }
}

/// An Atom feed keeps its title and ID and all of its entries, in the order of the document, each with
/// its title, ID, time of update, summary and the value of its content.
pub proof fn atom_entries_are_kept(feed: AtomFeedView)
    ensures
        raw_feed(RawFeedView::Atom(feed)).title == feed.title,
        raw_feed(RawFeedView::Atom(feed)).id == feed.id,
        raw_feed(RawFeedView::Atom(feed)).entries.len() == feed.entries.len(),
        forall|i: int|
            0 <= i < feed.entries.len() ==> {
                let entry = #[trigger] raw_feed(RawFeedView::Atom(feed)).entries[i];
                &&& entry.title == Some(feed.entries[i].title)
                &&& entry.id == Some(feed.entries[i].id)
                &&& entry.updated == Some(feed.entries[i].updated)
                &&& entry.summary == feed.entries[i].summary
                &&& feed.entries[i].content is None ==> entry.content is None
                &&& feed.entries[i].content is Some ==> entry.content == feed.entries[i].content->0
            },
{
}

/// The link of an Atom entry is that of its first link that is an alternate; where none is, that of its
/// first link. It has none only where the entry has no link at all.
pub proof fn atom_entries_link_to_an_alternate(feed: AtomFeedView, i: int, j: int)
    requires
        0 <= i < feed.entries.len(),
    ensures
        ({
            let links = feed.entries[i].links;
            let link = raw_feed(RawFeedView::Atom(feed)).entries[i].link;
            &&& link is None <==> links.len() == 0
            &&& 0 <= j < links.len() && links[j].rel == "alternate"@ && (forall|k: int|
                0 <= k < j ==> (#[trigger] links[k]).rel != "alternate"@) ==> link == Some(
                links[j].href,
            )
            &&& links.len() > 0 && (forall|k: int|
                0 <= k < links.len() ==> (#[trigger] links[k]).rel != "alternate"@) ==> link
                == Some(links[0].href)
        }),
{
    first_rel_is_first(feed.entries[i].links, "alternate"@);
}

/// An RSS channel keeps its title, is identified by its link, and keeps all of its items, in the order
/// of the document, each with its title, description and content, and identified by its GUID. An item
/// links to its own link; one without a link, to its GUID where that is a permalink.
pub proof fn rss_items_are_kept(channel: RssChannelView)
    ensures
        raw_feed(RawFeedView::Rss(channel)).title == channel.title,
        raw_feed(RawFeedView::Rss(channel)).id == channel.link,
        raw_feed(RawFeedView::Rss(channel)).entries.len() == channel.items.len(),
        forall|i: int|
            0 <= i < channel.items.len() ==> {
                let item = channel.items[i];
                let entry = #[trigger] raw_feed(RawFeedView::Rss(channel)).entries[i];
                &&& entry.title == item.title
                &&& entry.summary == item.description
                &&& entry.content == item.content
                &&& entry.updated is None
                &&& item.guid is None ==> entry.id is None && entry.link == item.link
                &&& item.guid is Some ==> entry.id == Some(item.guid->0.value)
                &&& item.link is Some ==> entry.link == item.link
                &&& item.link is None && item.guid is Some && item.guid->0.permalink ==> entry.link
                    == Some(item.guid->0.value)
                &&& item.link is None && item.guid is Some && !item.guid->0.permalink ==> entry.link
                    is None
            },
{
}

/// A document of either format is read as that format; one of a generic XML type as the format that it
/// has, where Atom comes first. What is not a feed of the format is not read.
pub proof fn documents_are_read_by_their_format(content: Seq<u8>)
    ensures
        atom_document(content) matches Some(feed) ==> {
            &&& feed_document(MediaType::Atom, content) == Some(raw_feed(RawFeedView::Atom(feed)))
            &&& feed_document(MediaType::Xml, content) == Some(raw_feed(RawFeedView::Atom(feed)))
            &&& raw_document(MediaType::Atom, content) == Some(RawFeedView::Atom(feed))
            &&& raw_document(MediaType::Xml, content) == Some(RawFeedView::Atom(feed))
        },
        rss_document(content) matches Some(channel) ==> {
            &&& feed_document(MediaType::Rss, content) == Some(raw_feed(RawFeedView::Rss(channel)))
            &&& raw_document(MediaType::Rss, content) == Some(RawFeedView::Rss(channel))
            &&& atom_document(content) is None ==> feed_document(MediaType::Xml, content) == Some(
                raw_feed(RawFeedView::Rss(channel)),
            ) && raw_document(MediaType::Xml, content) == Some(RawFeedView::Rss(channel))
        },
        atom_document(content) is None ==> feed_document(MediaType::Atom, content) is None
            && raw_document(MediaType::Atom, content) is None,
        rss_document(content) is None ==> feed_document(MediaType::Rss, content) is None
            && raw_document(MediaType::Rss, content) is None,
        atom_document(content) is None && rss_document(content) is None ==> feed_document(
            MediaType::Xml,
            content,
        ) is None && raw_document(MediaType::Xml, content) is None,
{
}

/// Atom and RSS have types of their own under `application`, with the suffix of XML; RDF counts as RSS.
/// XML under `application` or `text` stands for either format, with whatever suffix. Nothing else is the
/// type of a feed.
pub proof fn media_types_of_feeds(mime: MimeView)
    ensures
        media_type(mime) == Some(MediaType::Atom) <==> mime.type_ == "application"@ && mime.subtype
            == "atom"@ && mime.suffix == Some("xml"@),
        media_type(mime) == Some(MediaType::Rss) <==> mime.type_ == "application"@ && (mime.subtype
            == "rss"@ || mime.subtype == "rdf"@) && mime.suffix == Some("xml"@),
        media_type(mime) == Some(MediaType::Xml) <==> (mime.type_ == "application"@ || mime.type_
            == "text"@) && mime.subtype == "xml"@,
{
    reveal_strlit("atom");
    reveal_strlit("rss");
    reveal_strlit("rdf");
    reveal_strlit("xml");
    assert("atom"@.len() == 4);
    assert("rss"@[0] == 'r' && "rdf"@[0] == 'r' && "xml"@[0] == 'x');
}

/// A text is the type of a feed exactly where it is a MIME type that is.
pub proof fn media_types_are_read_from_text(text: Seq<char>)
    ensures
        mime_text(text) matches Some(mime) ==> media_type_text(text) == media_type(mime),
        mime_text(text) is None ==> media_type_text(text) is None,
{
}

} // verus!
