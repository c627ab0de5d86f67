//! Uniform resource identifiers.

use vstd::prelude::*;

use crate::strings::clone_opt;
#[allow(unused_imports)]
use crate::strings::opt_view;

verus! {

/// A URI in its parts.
#[derive(Clone, Debug)]
pub struct Uri {
    pub scheme: Option<String>,
    pub authority: Option<String>,
    pub path: String,
    pub query: Option<String>,
}

/// The value of `Uri`.
pub struct UriView {
    pub scheme: Option<Seq<char>>,
    pub authority: Option<Seq<char>>,
    pub path: Seq<char>,
    pub query: Option<Seq<char>>,
}

impl View for Uri {
    type V = UriView;

    open spec fn view(&self) -> UriView {
        UriView {
            scheme: opt_view(self.scheme),
            authority: opt_view(self.authority),
            path: self.path@,
            query: opt_view(self.query),
        }
    }
}

/// The URI that a text denotes.
pub uninterp spec fn uri_parts(text: Seq<char>) -> Option<UriView>;

/// `http::Uri` parsed from the text, or nothing where the text is refused: its scheme, authority,
/// path and query.
#[verifier::external_body]
fn read_uri(text: &str) -> (r: Option<Uri>)
    ensures
        match r {
            Some(uri) => uri_parts(text@) == Some(uri@),
            None => uri_parts(text@) is None,
        },
{
    let uri = text.parse::<http::Uri>().ok()?;
    Some(
        Uri {
            scheme: uri.scheme_str().map(|s| s.to_owned()),
            authority: uri.authority().map(|a| a.as_str().to_owned()),
            path: uri.path().to_owned(),
            query: uri.query().map(|q| q.to_owned()),
        },
    )
}

/// The text of a URI.
pub open spec fn uri_text(uri: UriView) -> Seq<char> {
    let scheme = match uri.scheme {
        Some(scheme) => scheme + "://"@,
        None => Seq::empty(),
    };
    let authority = match uri.authority {
        Some(authority) => authority,
        None => Seq::empty(),
    };
    let query = match uri.query {
        Some(query) => "?"@ + query,
        None => Seq::empty(),
    };
    scheme + authority + uri.path + query
}

impl Uri {
    /// Reads a URI.
    pub fn parse(text: &str) -> (r: Option<Uri>)
        ensures
            match r {
                Some(uri) => uri_parts(text@) == Some(uri@),
                None => uri_parts(text@) is None,
            },
    {
        read_uri(text)
    }

    /// Returns the text of the URI.
    pub fn to_text(&self) -> (r: String)
        ensures
            r@ == uri_text(self@),
    {
        let mut text = String::new();
        if let Some(scheme) = &self.scheme {
            text.append(scheme.as_str());
            text.append("://");
        }
        let ghost scheme = text@;
        if let Some(authority) = &self.authority {
            text.append(authority.as_str());
        }
        let ghost authority = text@;
        text.append(self.path.as_str());
        let ghost path = text@;
        if let Some(query) = &self.query {
            text.append("?");
            text.append(query.as_str());
        }
        proof {
            let v = self@;
            assert(v.scheme is None ==> scheme == Seq::<char>::empty());
            assert(v.scheme is Some ==> scheme == v.scheme->0 + "://"@);
            assert(v.authority is None ==> authority == scheme + Seq::<char>::empty());
            assert(v.query is None ==> text@ == path + Seq::<char>::empty());
            assert(v.query is Some ==> text@ == path + ("?"@ + v.query->0));
        }
        text
    }

    /// Returns a URI with the same parts.
    pub fn duplicate(&self) -> (r: Uri)
        ensures
            r@ == self@,
    {
        Uri {
            scheme: clone_opt(&self.scheme),
            authority: clone_opt(&self.authority),
            path: self.path.clone(),
            query: clone_opt(&self.query),
        }
    }
}

/// The text of a URI is made of its parts in their order: the scheme in front of `://`, the authority,
/// the path, and the query behind a question mark. A part that is missing leaves nothing behind.
pub proof fn parts_of_a_uri_follow_one_another(
    scheme: Seq<char>,
    authority: Seq<char>,
    path: Seq<char>,
    query: Seq<char>,
)
    ensures
        uri_text(
            UriView {
                scheme: Some(scheme),
                authority: Some(authority),
                path,
                query: Some(query),
            },
        ) == scheme + "://"@ + authority + path + "?"@ + query,
        uri_text(UriView { scheme: Some(scheme), authority: Some(authority), path, query: None })
            == scheme + "://"@ + authority + path,
        uri_text(UriView { scheme: None, authority: None, path, query: Some(query) }) == path
            + "?"@ + query,
        uri_text(UriView { scheme: None, authority: Some(authority), path, query: None })
            == authority + path,
        uri_text(UriView { scheme: None, authority: None, path, query: None }) == path,
{
    assert(uri_text(
        UriView { scheme: Some(scheme), authority: Some(authority), path, query: Some(query) },
    ) == scheme + "://"@ + authority + path + "?"@ + query);
    assert(uri_text(
        UriView { scheme: Some(scheme), authority: Some(authority), path, query: None },
    ) == scheme + "://"@ + authority + path);
    assert(uri_text(UriView { scheme: None, authority: None, path, query: Some(query) }) == path
        + "?"@ + query);
    assert(uri_text(UriView { scheme: None, authority: Some(authority), path, query: None })
        == authority + path);
    assert(uri_text(UriView { scheme: None, authority: None, path, query: None }) == path);
}

} // verus!
