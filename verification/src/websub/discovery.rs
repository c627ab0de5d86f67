//! Discovery of the hubs of a feed.

use vstd::prelude::*;

use super::hub::NewSubscription;
#[allow(unused_imports)]
use super::hub::SECRET_LEN;
use super::service::Service;
use crate::bytes::header_text;
#[allow(unused_imports)]
use crate::bytes::header_value;
#[allow(unused_imports)]
use crate::encoding::{is_base64url_char, opt_bytes};
#[allow(unused_imports)]
use crate::feed::{
    attrs_view, links_view, media_type_text, names_view, raw_document, AtomFeedView, AttrsView,
    LinkView, NamesView, RawFeedView, RssChannelView,
};
use crate::feed::{Attrs, Link, MediaType, RawFeed, RssChannel};
use crate::strings::{concat, str_eq};
#[allow(unused_imports)]
use crate::strings::strings_view;

verus! {

/// The XML namespace of Atom.
pub const NS_ATOM: &'static str = "http://www.w3.org/2005/Atom";

/// The value of the first attribute of a name.
pub open spec fn attr(attrs: AttrsView, name: Seq<char>) -> Option<Seq<char>>
    decreases attrs.len(),
{
    if attrs.len() == 0 {
        None
    } else if attr(attrs.drop_last(), name) is Some {
        attr(attrs.drop_last(), name)
    } else if attrs.last().0 == name {
        Some(attrs.last().1)
    } else {
        None
    }
}

/// Returns the value of the first attribute of a name.
fn find_attr<'a>(attrs: &'a Attrs, name: &str) -> (r: Option<&'a str>)
    ensures
        crate::strings::opt_str_view(r) == attr(attrs_view(*attrs), name@),
{
    let ghost view = attrs_view(*attrs);
    let mut found: Option<&'a str> = None;
    let mut i: usize = 0;
    while i < attrs.len()
        invariant
            i <= attrs@.len(),
            view == attrs_view(*attrs),
            crate::strings::opt_str_view(found) == attr(view.take(i as int), name@),
        decreases attrs@.len() - i,
    {
        assert(view.take(i + 1).drop_last() == view.take(i as int));
        assert(view.take(i + 1).last() == view[i as int]);
        if found.is_none() && str_eq(attrs[i].0.as_str(), name) {
            found = Some(attrs[i].1.as_str());
        }
        i += 1;
    }
    assert(view.take(i as int) == view);
    found
}

/// Tells whether the prefix of an element stands for Atom's namespace: by the declaration on the
/// element itself, or else by that on the document.
pub open spec fn is_atom_prefix(prefix: Seq<char>, attrs: AttrsView, namespaces: AttrsView) -> bool {
    match attr(attrs, "xmlns:"@ + prefix) {
        Some(ns) => ns == NS_ATOM@,
        None => attr(namespaces, prefix) == Some(NS_ATOM@),
    }
}

/// The hub that a link element of a channel names.
pub open spec fn element_hub(
    prefix: Seq<char>,
    attrs: AttrsView,
    namespaces: AttrsView,
) -> Option<Seq<char>> {
    if is_atom_prefix(prefix, attrs, namespaces) && attr(attrs, "rel"@) == Some("hub"@) {
        attr(attrs, "href"@)
    } else {
        None
    }
}

/// The hubs that link elements name.
pub open spec fn elements_hubs(
    prefix: Seq<char>,
    elements: Seq<AttrsView>,
    namespaces: AttrsView,
) -> Seq<Seq<char>>
    decreases elements.len(),
{
    if elements.len() == 0 {
        Seq::empty()
    } else {
        let rest = elements_hubs(prefix, elements.drop_last(), namespaces);
        match element_hub(prefix, elements.last(), namespaces) {
            Some(hub) => rest.push(hub),
            None => rest,
        }
    }
}

/// The hubs that the elements under a prefix name.
pub open spec fn names_hubs(
    prefix: Seq<char>,
    names: NamesView,
    namespaces: AttrsView,
) -> Seq<Seq<char>>
    decreases names.len(),
{
    if names.len() == 0 {
        Seq::empty()
    } else {
        let rest = names_hubs(prefix, names.drop_last(), namespaces);
        if names.last().0 == "link"@ {
            rest + elements_hubs(prefix, names.last().1, namespaces)
        } else {
            rest
        }
    }
}

/// The hubs that the extension elements of a channel name.
pub open spec fn extensions_hubs(
    extensions: Seq<(Seq<char>, NamesView)>,
    namespaces: AttrsView,
) -> Seq<Seq<char>>
    decreases extensions.len(),
{
    if extensions.len() == 0 {
        Seq::empty()
    } else {
        extensions_hubs(extensions.drop_last(), namespaces) + names_hubs(
            extensions.last().0,
            extensions.last().1,
            namespaces,
        )
    }
}

/// The hubs that the links of an Atom feed name.
pub open spec fn links_hubs(links: Seq<LinkView>) -> Seq<Seq<char>>
    decreases links.len(),
{
    if links.len() == 0 {
        Seq::empty()
    } else if links.last().rel == "hub"@ {
        links_hubs(links.drop_last()).push(links.last().href)
    } else {
        links_hubs(links.drop_last())
    }
}

/// The hubs that a feed names.
pub open spec fn feed_hubs(feed: RawFeedView) -> Seq<Seq<char>> {
    match feed {
        RawFeedView::Atom(feed) => links_hubs(feed.links),
        RawFeedView::Rss(channel) => extensions_hubs(channel.extensions, channel.namespaces),
    }
}

/// Returns the hub that a link element of a channel names.
fn find_element_hub<'a>(prefix: &str, attrs: &'a Attrs, namespaces: &Attrs) -> (r: Option<&'a str>)
    ensures
        crate::strings::opt_str_view(r) == element_hub(
            prefix@,
            attrs_view(*attrs),
            attrs_view(*namespaces),
        ),
{
    let declaration = concat("xmlns:", prefix);
    let is_atom = match find_attr(attrs, declaration.as_str()) {
        Some(ns) => str_eq(ns, NS_ATOM),
        None => match find_attr(namespaces, prefix) {
            Some(ns) => str_eq(ns, NS_ATOM),
            None => false,
        },
    };
    let is_hub = match find_attr(attrs, "rel") {
        Some(rel) => str_eq(rel, "hub"),
        None => false,
    };
    if is_atom && is_hub {
        find_attr(attrs, "href")
    } else {
        None
    }
}

/// Adds the hubs that link elements name.
fn push_elements_hubs(
    hubs: &mut Vec<String>,
    prefix: &str,
    elements: &Vec<Attrs>,
    namespaces: &Attrs,
)
    ensures
        strings_view(final(hubs)@) == strings_view(old(hubs)@) + elements_hubs(
            prefix@,
            Seq::new(elements@.len(), |i: int| attrs_view(elements@[i])),
            attrs_view(*namespaces),
        ),
{
    let ghost view = Seq::new(elements@.len(), |i: int| attrs_view(elements@[i]));
    let ghost ns = attrs_view(*namespaces);
    let ghost start = strings_view(hubs@);
    let mut i: usize = 0;
    assert(strings_view(hubs@) == start + elements_hubs(prefix@, view.take(0), ns));
    while i < elements.len()
        invariant
            i <= elements@.len(),
            view == Seq::new(elements@.len(), |i: int| attrs_view(elements@[i])),
            ns == attrs_view(*namespaces),
            strings_view(hubs@) == start + elements_hubs(prefix@, view.take(i as int), ns),
        decreases elements@.len() - i,
    {
        assert(view.take(i + 1).drop_last() == view.take(i as int));
        assert(view.take(i + 1).last() == view[i as int]);
        let ghost before = hubs@;
        if let Some(hub) = find_element_hub(prefix, &elements[i], namespaces) {
            hubs.push(hub.to_owned());
            assert(strings_view(hubs@) == strings_view(before).push(hub@));
        }
        i += 1;
        assert(strings_view(hubs@) == start + elements_hubs(prefix@, view.take(i as int), ns));
    }
    assert(view.take(i as int) == view);
}

/// Adds the hubs that the elements under a prefix name.
fn push_names_hubs(
    hubs: &mut Vec<String>,
    prefix: &str,
    names: &Vec<(String, Vec<Attrs>)>,
    namespaces: &Attrs,
)
    ensures
        strings_view(final(hubs)@) == strings_view(old(hubs)@) + names_hubs(
            prefix@,
            names_view(*names),
            attrs_view(*namespaces),
        ),
{
    let ghost view = names_view(*names);
    let ghost ns = attrs_view(*namespaces);
    let ghost start = strings_view(hubs@);
    let mut i: usize = 0;
    assert(strings_view(hubs@) == start + names_hubs(prefix@, view.take(0), ns));
    while i < names.len()
        invariant
            i <= names@.len(),
            view == names_view(*names),
            ns == attrs_view(*namespaces),
            strings_view(hubs@) == start + names_hubs(prefix@, view.take(i as int), ns),
        decreases names@.len() - i,
    {
        assert(view.take(i + 1).drop_last() == view.take(i as int));
        assert(view.take(i + 1).last() == view[i as int]);
        if str_eq(names[i].0.as_str(), "link") {
            push_elements_hubs(hubs, prefix, &names[i].1, namespaces);
        }
        i += 1;
        assert(strings_view(hubs@) == start + names_hubs(prefix@, view.take(i as int), ns));
    }
    assert(view.take(i as int) == view);
}

/// Returns the hubs that a channel names.
pub fn rss_hub_links(channel: &RssChannel) -> (r: Vec<String>)
    ensures
        strings_view(r@) == extensions_hubs(channel@.extensions, channel@.namespaces),
{
    let ghost view = channel@.extensions;
    let ghost ns = channel@.namespaces;
    let mut hubs: Vec<String> = Vec::new();
    let mut i: usize = 0;
    assert(strings_view(hubs@) == extensions_hubs(view.take(0), ns));
    while i < channel.extensions.len()
        invariant
            i <= channel.extensions@.len(),
            view == channel@.extensions,
            ns == channel@.namespaces,
            strings_view(hubs@) == extensions_hubs(view.take(i as int), ns),
        decreases channel.extensions@.len() - i,
    {
        assert(view.take(i + 1).drop_last() == view.take(i as int));
        assert(view.take(i + 1).last() == view[i as int]);
        let extension = &channel.extensions[i];
        push_names_hubs(&mut hubs, extension.0.as_str(), &extension.1, &channel.namespaces);
        i += 1;
    }
    assert(view.take(i as int) == view);
    hubs
}

/// Returns the hubs that the links of an Atom feed name.
pub fn atom_hub_links(links: &Vec<Link>) -> (r: Vec<String>)
    ensures
        strings_view(r@) == links_hubs(links_view(links@)),
{
    let ghost view = links_view(links@);
    let mut hubs: Vec<String> = Vec::new();
    let mut i: usize = 0;
    assert(strings_view(hubs@) == links_hubs(view.take(0)));
    while i < links.len()
        invariant
            i <= links@.len(),
            view == links_view(links@),
            strings_view(hubs@) == links_hubs(view.take(i as int)),
        decreases links@.len() - i,
    {
        assert(view.take(i + 1).drop_last() == view.take(i as int));
        assert(view.take(i + 1).last() == view[i as int]);
        let ghost before = hubs@;
        if str_eq(links[i].rel.as_str(), "hub") {
            hubs.push(links[i].href.clone());
            assert(strings_view(hubs@) == strings_view(before).push(view[i as int].href));
        }
        i += 1;
    }
    assert(view.take(i as int) == view);
    hubs
}

/// Returns the hubs that a feed names.
pub fn hub_links(feed: &RawFeed) -> (r: Vec<String>)
    ensures
        strings_view(r@) == feed_hubs(feed@),
{
    match feed {
        RawFeed::Atom(feed) => atom_hub_links(&feed.links),
        RawFeed::Rss(channel) => rss_hub_links(channel),
    }
}

/// The media type of a response: generic XML where it has none, and nothing where it is not that
/// of a feed.
pub open spec fn response_kind(content_type: Option<Seq<u8>>) -> Option<MediaType> {
    match content_type {
        Some(value) => header_kind(value),
        None => Some(MediaType::Xml),
    }
}

/// The media type that a header names.
pub open spec fn header_kind(value: Seq<u8>) -> Option<MediaType> {
    match header_value(value) {
        Some(text) => media_type_text(text),
        None => None,
    }
}

/// Returns the media type that a header names.
pub fn media_type_of(value: &[u8]) -> (r: Option<MediaType>)
    ensures
        r == header_kind(value@),
{
    match header_text(value) {
        Some(text) => match MediaType::from_str(text.as_str()) {
            Ok(kind) => Some(kind),
            Err(()) => None,
        },
        None => None,
    }
}

/// The hubs that a response names.
pub open spec fn response_hubs(content_type: Option<Seq<u8>>, body: Seq<u8>) -> Option<
    Seq<Seq<char>>,
> {
    match response_kind(content_type) {
        Some(kind) => match raw_document(kind, body) {
            Some(feed) => Some(feed_hubs(feed)),
            None => None,
        },
        None => None,
    }
}

impl Service {
    /// Returns a topic and the hubs that the response to a request for it names, or no hubs where it
    /// is not a feed that can be read.
    pub fn discover(&self, topic: String, content_type: &Option<Vec<u8>>, body: &[u8]) -> (r: (
        String,
        Option<Vec<String>>,
    ))
        ensures
            r.0 == topic,
            match r.1 {
                Some(hubs) => response_hubs(opt_bytes(*content_type), body@) == Some(
                    strings_view(hubs@),
                ),
                None => response_hubs(opt_bytes(*content_type), body@) is None,
            },
    {
        let kind = match content_type {
            Some(value) => match media_type_of(value.as_slice()) {
                Some(kind) => kind,
                None => return (topic, None),
            },
            None => MediaType::Xml,
        };
        match RawFeed::parse(kind, body) {
            Some(feed) => (topic, Some(hub_links(&feed))),
            None => (topic, None),
        }
    }

    /// Returns a subscription to a topic for each of the hubs that the response to a request for it
    /// names, in their order; none where it is not a feed that can be read.
    pub fn discover_and_subscribe(
        &self,
        topic: String,
        content_type: &Option<Vec<u8>>,
        body: &[u8],
    ) -> (r: Vec<NewSubscription>)
        ensures
            subscription_hubs(r@) == match response_hubs(opt_bytes(*content_type), body@) {
                Some(hubs) => hubs,
                None => Seq::empty(),
            },
            forall|i: int| 0 <= i < r@.len() ==> is_fresh(#[trigger] r@[i], topic@),
            match response_hubs(opt_bytes(*content_type), body@) {
                Some(hubs) => r@.len() == hubs.len() && forall|i: int|
                    0 <= i < hubs.len() ==> (#[trigger] r@[i]).hub@ == hubs[i] && r@[i].topic@
                        == topic@ && r@[i].id >= 0 && r@[i].secret@.len() == 32,
                None => r@.len() == 0,
            },
    {
        let mut subscriptions: Vec<NewSubscription> = Vec::new();
        let (topic, hubs) = self.discover(topic, content_type, body);
        let hubs = match hubs {
            Some(hubs) => hubs,
            None => {
                assert(subscription_hubs(subscriptions@) == Seq::<Seq<char>>::empty());
                return subscriptions;
            },
        };
        let mut i: usize = 0;
        while i < hubs.len()
            invariant
                i <= hubs@.len(),
                subscription_hubs(subscriptions@) == strings_view(hubs@).take(i as int),
                forall|j: int|
                    0 <= j < subscriptions@.len() ==> is_fresh(
                        #[trigger] subscriptions@[j],
                        topic@,
                    ),
            decreases hubs@.len() - i,
        {
            let ghost before = subscriptions@;
            subscriptions.push(NewSubscription::draw(hubs[i].clone(), topic.clone()));
            assert(subscription_hubs(subscriptions@) == subscription_hubs(before).push(
                hubs@[i as int]@,
            ));
            i += 1;
        }
        assert(strings_view(hubs@).take(i as int) == strings_view(hubs@));
        subscriptions
    }
}

/// The hubs of subscriptions.
pub open spec fn subscription_hubs(subscriptions: Seq<NewSubscription>) -> Seq<Seq<char>> {
    Seq::new(subscriptions.len(), |i: int| subscriptions[i].hub@)
}

/// Tells whether a subscription to a topic has an ID that a callback can name, and a secret.
pub open spec fn is_fresh(sub: NewSubscription, topic: Seq<char>) -> bool {
    &&& sub.topic@ == topic
    &&& sub.id >= 0
    &&& sub.secret@.len() == SECRET_LEN
    &&& forall|i: int| 0 <= i < sub.secret@.len() ==> #[trigger] is_base64url_char(sub.secret@[i])
}

/// `attr` is the value of the first attribute of a name, or nothing where no attribute has the name.
pub proof fn attr_is_first(attrs: AttrsView, name: Seq<char>)
    ensures
        forall|i: int|
            0 <= i < attrs.len() && (#[trigger] attrs[i]).0 == name && (forall|j: int|
                0 <= j < i ==> (#[trigger] attrs[j]).0 != name) ==> attr(attrs, name) == Some(
                attrs[i].1,
            ),
        attr(attrs, name) is None <==> forall|i: int|
            0 <= i < attrs.len() ==> (#[trigger] attrs[i]).0 != name,
    decreases attrs.len(),
{
    if attrs.len() > 0 {
        let before = attrs.drop_last();
        let n = attrs.len() - 1;
        attr_is_first(before, name);
        assert forall|i: int| 0 <= i < n implies before[i] == #[trigger] attrs[i] by {}
        assert(attrs[n] == attrs.last());
        assert forall|i: int|
            0 <= i < attrs.len() && (#[trigger] attrs[i]).0 == name && (forall|j: int|
                0 <= j < i ==> (#[trigger] attrs[j]).0 != name) implies attr(attrs, name) == Some(
            attrs[i].1,
        ) by {
            if i < n {
                assert(before[i].0 == name);
            }
        }
        if attr(attrs, name) is None {
            assert forall|i: int| 0 <= i < attrs.len() implies (#[trigger] attrs[i]).0 != name by {
                if i < n {
                    assert(before[i].0 != name);
                }
            }
        }
        if forall|i: int| 0 <= i < attrs.len() ==> (#[trigger] attrs[i]).0 != name {
            assert forall|i: int| 0 <= i < before.len() implies (#[trigger] before[i]).0
                != name by {
                assert(attrs[i].0 != name);
            }
        }
    }
}

/// A link element of a channel that stands in Atom's namespace, is of the relation `hub` and has a
/// target names that target as a hub, whatever the prefix of the element is called: the prefix may be
/// declared on the element itself, or on the document.
pub proof fn atom_links_of_a_channel_are_hubs(channel: RssChannelView, p: int, n: int, e: int)
    requires
        0 <= p < channel.extensions.len(),
        0 <= n < channel.extensions[p].1.len(),
        channel.extensions[p].1[n].0 == "link"@,
        0 <= e < channel.extensions[p].1[n].1.len(),
        attr(channel.extensions[p].1[n].1[e], "rel"@) == Some("hub"@),
        attr(channel.extensions[p].1[n].1[e], "href"@) is Some,
        attr(channel.extensions[p].1[n].1[e], "xmlns:"@ + channel.extensions[p].0) == Some(
            "http://www.w3.org/2005/Atom"@,
        ) || attr(channel.extensions[p].1[n].1[e], "xmlns:"@ + channel.extensions[p].0) is None
            && attr(channel.namespaces, channel.extensions[p].0) == Some(
            "http://www.w3.org/2005/Atom"@,
        ),
    ensures
        feed_hubs(RawFeedView::Rss(channel)).contains(
            attr(channel.extensions[p].1[n].1[e], "href"@)->0,
        ),
{
    let prefix = channel.extensions[p].0;
    let names = channel.extensions[p].1;
    let elements = names[n].1;
    let hub = attr(elements[e], "href"@)->0;
    element_hub_is_kept(prefix, elements, channel.namespaces, e, hub);
    name_hub_is_kept(prefix, names, channel.namespaces, n, hub);
    extension_hub_is_kept(channel.extensions, channel.namespaces, p, hub);
}

/// The hub of an element is among those of the elements.
proof fn element_hub_is_kept(
    prefix: Seq<char>,
    elements: Seq<AttrsView>,
    namespaces: AttrsView,
    e: int,
    hub: Seq<char>,
)
    requires
        0 <= e < elements.len(),
        element_hub(prefix, elements[e], namespaces) == Some(hub),
    ensures
        elements_hubs(prefix, elements, namespaces).contains(hub),
    decreases elements.len(),
{
    let before = elements.drop_last();
    let rest = elements_hubs(prefix, before, namespaces);
    let all = elements_hubs(prefix, elements, namespaces);
    if e < before.len() {
        element_hub_is_kept(prefix, before, namespaces, e, hub);
        let k = choose|k: int| 0 <= k < rest.len() && rest[k] == hub;
        assert(all[k] == hub);
    } else {
        assert(all[rest.len() as int] == hub);
    }
}

/// The hubs of the elements of a name are among those of the names.
proof fn name_hub_is_kept(
    prefix: Seq<char>,
    names: NamesView,
    namespaces: AttrsView,
    n: int,
    hub: Seq<char>,
)
    requires
        0 <= n < names.len(),
        names[n].0 == "link"@,
        elements_hubs(prefix, names[n].1, namespaces).contains(hub),
    ensures
        names_hubs(prefix, names, namespaces).contains(hub),
    decreases names.len(),
{
    let before = names.drop_last();
    let rest = names_hubs(prefix, before, namespaces);
    let all = names_hubs(prefix, names, namespaces);
    if n < before.len() {
        name_hub_is_kept(prefix, before, namespaces, n, hub);
        let k = choose|k: int| 0 <= k < rest.len() && rest[k] == hub;
        assert(all[k] == hub);
    } else {
        let added = elements_hubs(prefix, names[n].1, namespaces);
        let k = choose|k: int| 0 <= k < added.len() && added[k] == hub;
        assert(all[rest.len() + k] == hub);
    }
}

/// The hubs under a prefix are among those of the extensions.
proof fn extension_hub_is_kept(
    extensions: Seq<(Seq<char>, NamesView)>,
    namespaces: AttrsView,
    p: int,
    hub: Seq<char>,
)
    requires
        0 <= p < extensions.len(),
        names_hubs(extensions[p].0, extensions[p].1, namespaces).contains(hub),
    ensures
        extensions_hubs(extensions, namespaces).contains(hub),
    decreases extensions.len(),
{
    let before = extensions.drop_last();
    let rest = extensions_hubs(before, namespaces);
    let all = extensions_hubs(extensions, namespaces);
    if p < before.len() {
        extension_hub_is_kept(before, namespaces, p, hub);
        let k = choose|k: int| 0 <= k < rest.len() && rest[k] == hub;
        assert(all[k] == hub);
    } else {
        let added = names_hubs(extensions[p].0, extensions[p].1, namespaces);
        let k = choose|k: int| 0 <= k < added.len() && added[k] == hub;
        assert(all[rest.len() + k] == hub);
    }
}

/// Every hub of a channel is the target of a link element in Atom's namespace of the relation `hub`.
pub proof fn hubs_of_a_channel_are_atom_links(channel: RssChannelView, hub: Seq<char>)
    requires
        feed_hubs(RawFeedView::Rss(channel)).contains(hub),
    ensures
        exists|p: int, n: int, e: int|
            0 <= p < channel.extensions.len() && 0 <= n < channel.extensions[p].1.len()
                && channel.extensions[p].1[n].0 == "link"@ && 0 <= e
                < channel.extensions[p].1[n].1.len() && attr(
                #[trigger] channel.extensions[p].1[n].1[e],
                "rel"@,
            ) == Some("hub"@) && attr(channel.extensions[p].1[n].1[e], "href"@) == Some(hub) && (
            attr(channel.extensions[p].1[n].1[e], "xmlns:"@ + channel.extensions[p].0) == Some(
                "http://www.w3.org/2005/Atom"@,
            ) || attr(channel.extensions[p].1[n].1[e], "xmlns:"@ + channel.extensions[p].0) is None
                && attr(channel.namespaces, channel.extensions[p].0) == Some(
                "http://www.w3.org/2005/Atom"@,
            )),
{
    let p = extension_of_hub(channel.extensions, channel.namespaces, hub);
    let n = name_of_hub(
        channel.extensions[p].0,
        channel.extensions[p].1,
        channel.namespaces,
        hub,
    );
    let e = element_of_hub(
        channel.extensions[p].0,
        channel.extensions[p].1[n].1,
        channel.namespaces,
        hub,
    );
    assert(element_hub(
        channel.extensions[p].0,
        channel.extensions[p].1[n].1[e],
        channel.namespaces,
    ) == Some(hub));
}

/// The extension that a hub comes from.
proof fn extension_of_hub(
    extensions: Seq<(Seq<char>, NamesView)>,
    namespaces: AttrsView,
    hub: Seq<char>,
) -> (p: int)
    requires
        extensions_hubs(extensions, namespaces).contains(hub),
    ensures
        0 <= p < extensions.len(),
        names_hubs(extensions[p].0, extensions[p].1, namespaces).contains(hub),
    decreases extensions.len(),
{
    let before = extensions.drop_last();
    let rest = extensions_hubs(before, namespaces);
    let added = names_hubs(extensions.last().0, extensions.last().1, namespaces);
    let all = extensions_hubs(extensions, namespaces);
    let k = choose|k: int| 0 <= k < all.len() && all[k] == hub;
    if k < rest.len() {
        assert(rest[k] == hub);
        extension_of_hub(before, namespaces, hub)
    } else {
        assert(added[k - rest.len()] == hub);
        extensions.len() - 1
    }
}

/// The name that a hub comes from.
proof fn name_of_hub(
    prefix: Seq<char>,
    names: NamesView,
    namespaces: AttrsView,
    hub: Seq<char>,
) -> (n: int)
    requires
        names_hubs(prefix, names, namespaces).contains(hub),
    ensures
        0 <= n < names.len(),
        names[n].0 == "link"@,
        elements_hubs(prefix, names[n].1, namespaces).contains(hub),
    decreases names.len(),
{
    let before = names.drop_last();
    let rest = names_hubs(prefix, before, namespaces);
    let added = elements_hubs(prefix, names.last().1, namespaces);
    let all = names_hubs(prefix, names, namespaces);
    let k = choose|k: int| 0 <= k < all.len() && all[k] == hub;
    if k < rest.len() {
        assert(rest[k] == hub);
        name_of_hub(prefix, before, namespaces, hub)
    } else {
        assert(added[k - rest.len()] == hub);
        names.len() - 1
    }
}

/// The element that a hub comes from.
proof fn element_of_hub(
    prefix: Seq<char>,
    elements: Seq<AttrsView>,
    namespaces: AttrsView,
    hub: Seq<char>,
) -> (e: int)
    requires
        elements_hubs(prefix, elements, namespaces).contains(hub),
    ensures
        0 <= e < elements.len(),
        element_hub(prefix, elements[e], namespaces) == Some(hub),
    decreases elements.len(),
{
    let before = elements.drop_last();
    let rest = elements_hubs(prefix, before, namespaces);
    let all = elements_hubs(prefix, elements, namespaces);
    let k = choose|k: int| 0 <= k < all.len() && all[k] == hub;
    if k < rest.len() {
        assert(rest[k] == hub);
        element_of_hub(prefix, before, namespaces, hub)
    } else {
        elements.len() - 1
    }
}

/// The hubs of a channel do not depend on what its prefixes are called: where a prefix is called
/// otherwise throughout, and no element declares it itself, the hubs stay the same.
pub proof fn prefixes_may_be_renamed(channel: RssChannelView, renamed: RssChannelView)
    requires
        channel.extensions.len() == renamed.extensions.len(),
        forall|p: int|
            0 <= p < channel.extensions.len() ==> (#[trigger] channel.extensions[p]).1
                == renamed.extensions[p].1,
        forall|p: int|
            0 <= p < channel.extensions.len() ==> attr(
                channel.namespaces,
                (#[trigger] channel.extensions[p]).0,
            ) == attr(renamed.namespaces, renamed.extensions[p].0),
        forall|p: int, n: int, e: int|
            0 <= p < channel.extensions.len() && 0 <= n < channel.extensions[p].1.len() && 0 <= e
                < channel.extensions[p].1[n].1.len() ==> attr(
                #[trigger] channel.extensions[p].1[n].1[e],
                "xmlns:"@ + channel.extensions[p].0,
            ) is None && attr(
                channel.extensions[p].1[n].1[e],
                "xmlns:"@ + renamed.extensions[p].0,
            ) is None,
    ensures
        feed_hubs(RawFeedView::Rss(channel)) == feed_hubs(RawFeedView::Rss(renamed)),
    decreases channel.extensions.len(),
{
    if channel.extensions.len() > 0 {
        let k = channel.extensions.len() - 1;
        let a = RssChannelView { extensions: channel.extensions.drop_last(), ..channel };
        let b = RssChannelView { extensions: renamed.extensions.drop_last(), ..renamed };
        assert forall|p: int| 0 <= p < a.extensions.len() implies (#[trigger] a.extensions[p]).1
            == b.extensions[p].1 && attr(a.namespaces, a.extensions[p].0) == attr(
            b.namespaces,
            b.extensions[p].0,
        ) by {
            assert(a.extensions[p] == channel.extensions[p]);
        }
        assert forall|p: int, n: int, e: int|
            0 <= p < a.extensions.len() && 0 <= n < a.extensions[p].1.len() && 0 <= e
                < a.extensions[p].1[n].1.len() implies attr(
            #[trigger] a.extensions[p].1[n].1[e],
            "xmlns:"@ + a.extensions[p].0,
        ) is None && attr(a.extensions[p].1[n].1[e], "xmlns:"@ + b.extensions[p].0) is None by {
            assert(a.extensions[p].1[n].1[e] == channel.extensions[p].1[n].1[e]);
        }
        prefixes_may_be_renamed(a, b);
        assert(channel.extensions[k] == channel.extensions.last());
        assert(renamed.extensions[k] == renamed.extensions.last());
        names_may_be_renamed(
            channel.extensions[k].0,
            renamed.extensions[k].0,
            channel.extensions[k].1,
            channel.namespaces,
            renamed.namespaces,
        );
    }
}

/// The hubs under a prefix do not depend on what it is called.
proof fn names_may_be_renamed(
    prefix: Seq<char>,
    other: Seq<char>,
    names: NamesView,
    namespaces: AttrsView,
    others: AttrsView,
)
    requires
        attr(namespaces, prefix) == attr(others, other),
        forall|n: int, e: int|
            0 <= n < names.len() && 0 <= e < names[n].1.len() ==> attr(
                #[trigger] names[n].1[e],
                "xmlns:"@ + prefix,
            ) is None && attr(names[n].1[e], "xmlns:"@ + other) is None,
    ensures
        names_hubs(prefix, names, namespaces) == names_hubs(other, names, others),
    decreases names.len(),
{
    if names.len() > 0 {
        let before = names.drop_last();
        let k = names.len() - 1;
        assert forall|n: int, e: int|
            0 <= n < before.len() && 0 <= e < before[n].1.len() implies attr(
            #[trigger] before[n].1[e],
            "xmlns:"@ + prefix,
        ) is None && attr(before[n].1[e], "xmlns:"@ + other) is None by {
            assert(before[n].1[e] == names[n].1[e]);
        }
        names_may_be_renamed(prefix, other, before, namespaces, others);
        assert(names[k] == names.last());
        assert forall|e: int| 0 <= e < names[k].1.len() implies attr(
            #[trigger] names[k].1[e],
            "xmlns:"@ + prefix,
        ) is None && attr(names[k].1[e], "xmlns:"@ + other) is None by {}
        elements_may_be_renamed(prefix, other, names[k].1, namespaces, others);
    }
}

/// The hubs of elements do not depend on what their prefix is called.
proof fn elements_may_be_renamed(
    prefix: Seq<char>,
    other: Seq<char>,
    elements: Seq<AttrsView>,
    namespaces: AttrsView,
    others: AttrsView,
)
    requires
        attr(namespaces, prefix) == attr(others, other),
        forall|e: int|
            0 <= e < elements.len() ==> attr(#[trigger] elements[e], "xmlns:"@ + prefix) is None
                && attr(elements[e], "xmlns:"@ + other) is None,
    ensures
        elements_hubs(prefix, elements, namespaces) == elements_hubs(other, elements, others),
    decreases elements.len(),
{
    if elements.len() > 0 {
        let before = elements.drop_last();
        assert forall|e: int| 0 <= e < before.len() implies attr(
            #[trigger] before[e],
            "xmlns:"@ + prefix,
        ) is None && attr(before[e], "xmlns:"@ + other) is None by {
            assert(before[e] == elements[e]);
        }
        elements_may_be_renamed(prefix, other, before, namespaces, others);
        assert(elements[elements.len() - 1] == elements.last());
    }
}

/// The hubs of an Atom feed are exactly the targets of its links of the relation `hub`.
pub proof fn hub_links_of_a_feed_are_hubs(feed: AtomFeedView, hub: Seq<char>)
    ensures
        feed_hubs(RawFeedView::Atom(feed)).contains(hub) <==> exists|i: int|
            0 <= i < feed.links.len() && (#[trigger] feed.links[i]).rel == "hub"@
                && feed.links[i].href == hub,
{
    links_hubs_are_targets(feed.links, hub);
}

/// The hubs of links are exactly the targets of those of the relation `hub`.
proof fn links_hubs_are_targets(links: Seq<LinkView>, hub: Seq<char>)
    ensures
        links_hubs(links).contains(hub) <==> exists|i: int|
            0 <= i < links.len() && (#[trigger] links[i]).rel == "hub"@ && links[i].href == hub,
    decreases links.len(),
{
    if links.len() > 0 {
        let before = links.drop_last();
        let n = links.len() - 1;
        let rest = links_hubs(before);
        let all = links_hubs(links);
        links_hubs_are_targets(before, hub);
        assert(links[n] == links.last());
        if all.contains(hub) {
            let k = choose|k: int| 0 <= k < all.len() && all[k] == hub;
            if k < rest.len() {
                assert(rest[k] == hub);
                assert(rest.contains(hub));
                let i = choose|i: int|
                    0 <= i < before.len() && (#[trigger] before[i]).rel == "hub"@
                        && before[i].href == hub;
                assert(links[i] == before[i]);
            } else {
                assert(links[n].href == hub);
            }
        }
        if exists|i: int|
            0 <= i < links.len() && (#[trigger] links[i]).rel == "hub"@ && links[i].href == hub {
            let i = choose|i: int|
                0 <= i < links.len() && (#[trigger] links[i]).rel == "hub"@ && links[i].href == hub;
            if i < n {
                assert(before[i] == links[i]);
                let k = choose|k: int| 0 <= k < rest.len() && rest[k] == hub;
                assert(all[k] == hub);
            } else {
                assert(all[rest.len() as int] == hub);
            }
        }
    }
}

/// The hubs of links that follow others come behind those of the others, each link of the relation
/// `hub` for one.
pub proof fn hubs_keep_the_order_of_links(a: Seq<LinkView>, b: Seq<LinkView>)
    ensures
        links_hubs(a + b) == links_hubs(a) + links_hubs(b),
        b.len() == 1 && b[0].rel == "hub"@ ==> links_hubs(b) == seq![b[0].href],
        b.len() == 1 && b[0].rel != "hub"@ ==> links_hubs(b) == Seq::<Seq<char>>::empty(),
    decreases b.len(),
{
    if b.len() == 0 {
        assert(a + b == a);
        assert(links_hubs(a) + links_hubs(b) == links_hubs(a));
    } else {
        let before = b.drop_last();
        hubs_keep_the_order_of_links(a, before);
        assert((a + b).drop_last() == a + before);
        assert((a + b).last() == b.last());
        if b.len() == 1 {
            assert(before == Seq::<LinkView>::empty());
            assert(b.last() == b[0]);
            assert(links_hubs(before) == Seq::<Seq<char>>::empty());
        }
        assert(links_hubs(a + b) == links_hubs(a) + links_hubs(b));
    }
}

/// The hubs of extensions that follow others come behind those of the others.
pub proof fn hubs_keep_the_order_of_extensions(
    a: Seq<(Seq<char>, NamesView)>,
    b: Seq<(Seq<char>, NamesView)>,
    namespaces: AttrsView,
)
    ensures
        extensions_hubs(a + b, namespaces) == extensions_hubs(a, namespaces) + extensions_hubs(
            b,
            namespaces,
        ),
    decreases b.len(),
{
    if b.len() == 0 {
        assert(a + b == a);
        assert(extensions_hubs(a, namespaces) + extensions_hubs(b, namespaces) == extensions_hubs(
            a,
            namespaces,
        ));
    } else {
        let before = b.drop_last();
        hubs_keep_the_order_of_extensions(a, before, namespaces);
        assert((a + b).drop_last() == a + before);
        assert((a + b).last() == b.last());
        assert(extensions_hubs(a + b, namespaces) == extensions_hubs(a, namespaces)
            + extensions_hubs(b, namespaces));
    }
}

/// A response without a type may be either format. One with a type is of that type, and no hubs are
/// found where that is not the type of a feed, nor where the body is not one.
pub proof fn hubs_are_found_in_feeds(value: Seq<u8>, body: Seq<u8>)
    ensures
        response_kind(None) == Some(MediaType::Xml),
        header_value(value) is None ==> response_hubs(Some(value), body) is None,
        header_value(value) matches Some(text) ==> match media_type_text(text) {
            None => response_hubs(Some(value), body) is None,
            Some(kind) => match raw_document(kind, body) {
                Some(feed) => response_hubs(Some(value), body) == Some(feed_hubs(feed)),
                None => response_hubs(Some(value), body) is None,
            },
        },
        raw_document(MediaType::Xml, body) matches Some(feed) ==> response_hubs(None, body) == Some(
            feed_hubs(feed),
        ),
        raw_document(MediaType::Xml, body) is None ==> response_hubs(None, body) is None,
{
}

/// A header names a type where it is a text that does.
pub proof fn headers_name_types(value: Seq<u8>, text: Seq<char>)
    ensures
        header_value(value) is None ==> header_kind(value) is None,
        header_value(value) == Some(text) ==> header_kind(value) == media_type_text(text),
        response_kind(Some(value)) == header_kind(value),
{
}

/// A fresh subscription is one to its topic, with an ID that is no negative number and a secret of
/// thirty-two characters.
pub proof fn fresh_subscriptions_have_secrets(sub: NewSubscription, topic: Seq<char>)
    requires
        is_fresh(sub, topic),
    ensures
        sub.topic@ == topic,
        sub.id >= 0,
        sub.secret@.len() == 32,
        forall|i: int| 0 <= i < sub.secret@.len() ==> is_base64url_char(#[trigger] sub.secret@[i]),
{
    assert forall|i: int| 0 <= i < sub.secret@.len() implies is_base64url_char(
        #[trigger] sub.secret@[i],
    ) by {}
}

} // verus!
