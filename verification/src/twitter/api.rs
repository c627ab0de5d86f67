//! Requests to the Twitter API.

pub mod account;
pub mod lists;
pub mod oauth;
pub mod statuses;
pub mod tweets;
pub mod users;

use vstd::prelude::*;

use super::Credentials;
use crate::decimal::{push_i64, push_u64};
#[allow(unused_imports)]
use crate::decimal::{decimal, signed_decimal};
use crate::encoding::push_field;
#[allow(unused_imports)]
use crate::encoding::{pairs_view, Pair};
#[allow(unused_imports)]
use crate::strings::{opt_str_view, opt_view};

verus! {

/// An HTTP method.
#[derive(Copy, Clone, Debug, PartialEq, Eq, Structural)]
pub enum Method {
    Get,
    Post,
}

/// A request: where it goes and its parameters.
#[derive(Debug)]
pub struct Call {
    pub method: Method,
    pub uri: &'static str,
    pub params: Vec<(String, String)>,
}

/// The value of `Call`.
pub struct CallView {
    pub method: Method,
    pub uri: Seq<char>,
    pub params: Seq<Pair>,
}

impl View for Call {
    type V = CallView;

    open spec fn view(&self) -> CallView {
        CallView { method: self.method, uri: self.uri@, params: pairs_view(self.params@) }
    }
}

/// A request as it is sent.
#[derive(Debug)]
pub struct HttpRequest {
    pub method: Method,
    pub uri: String,
    pub authorization: String,
    /// A form, where there is one.
    pub body: Option<String>,
}

/// The form that parameters make.
pub uninterp spec fn oauth_form(params: Seq<(Seq<char>, Seq<char>)>) -> Seq<char>;

/// A URI with parameters in its query.
pub uninterp spec fn oauth_query(
    uri: Seq<char>,
    params: Seq<(Seq<char>, Seq<char>)>,
) -> Seq<char>;

/// `oauth1_request::to_form` of an `oauth1_request::ParameterList`.
#[verifier::external_body]
fn to_form(params: &Vec<(String, String)>) -> (r: String)
    ensures
        r@ == oauth_form(pairs_view(params@)),
{
    let list = oauth1_request::ParameterList::new(params.clone());
    oauth1_request::to_form(&list)
}

/// `oauth1_request::to_query` of an `oauth1_request::ParameterList`.
#[verifier::external_body]
fn to_query(uri: &str, params: &Vec<(String, String)>) -> (r: String)
    ensures
        r@ == oauth_query(uri@, pairs_view(params@)),
{
    let list = oauth1_request::ParameterList::new(params.clone());
    oauth1_request::to_query(uri.to_owned(), &list)
}

/// The value of an `Authorization` header, signed with HMAC-SHA1: of a request with a method, URI and
/// parameters, a client, a user, a callback and a verifier, at a time and with a random text.
pub uninterp spec fn oauth_header(
    method: Seq<char>,
    uri: Seq<char>,
    params: Seq<(Seq<char>, Seq<char>)>,
    client: (Seq<char>, Seq<char>),
    token: Option<(Seq<char>, Seq<char>)>,
    callback: Option<Seq<char>>,
    verifier: Option<Seq<char>>,
    nonce: Seq<char>,
    timestamp: u64,
) -> Seq<char>;

/// `oauth1_request::Builder::authorize` with HMAC-SHA1: the value of an `Authorization` header. It
/// is a function of the arguments, of a random text and of the time. The URI must not have a query,
/// and no parameter may have a name that starts like those of the protocol.
#[verifier::external_body]
fn authorize(
    method: &str,
    uri: &str,
    params: &Vec<(String, String)>,
    client: &Credentials<String>,
    token: Option<&Credentials<String>>,
    callback: Option<&str>,
    verifier: Option<&str>,
) -> (r: String)
    requires
        !uri@.contains('?'),
        forall|i: int|
            0 <= i < params@.len() ==> !"oauth_"@.is_prefix_of((#[trigger] params@[i]).0@),
    ensures
        exists|nonce: Seq<char>, timestamp: u64|
            r@ == #[trigger] oauth_header(
                method@,
                uri@,
                pairs_view(params@),
                credentials_view(*client),
                opt_credentials(token),
                opt_str_view(callback),
                opt_str_view(verifier),
                nonce,
                timestamp,
            ),
        "OAuth "@.is_prefix_of(r@),
{
    let list = oauth1_request::ParameterList::new(params.clone());
    let client = oauth1_request::Credentials::new(client.key.as_str(), client.secret.as_str());
    let token = token.map(|t| oauth1_request::Credentials::new(t.key.as_str(), t.secret.as_str()));
    let mut builder = oauth1_request::Builder::new(client, oauth1_request::HMAC_SHA1);
    builder.token(token).callback(callback).verifier(verifier);
    builder.authorize(method, uri, &list)
}

/// The value of credentials.
pub open spec fn credentials_view(credentials: Credentials<String>) -> (Seq<char>, Seq<char>) {
    (credentials.key@, credentials.secret@)
}

/// The value of optional credentials.
pub open spec fn opt_credentials(credentials: Option<&Credentials<String>>) -> Option<
    (Seq<char>, Seq<char>),
> {
    match credentials {
        Some(credentials) => Some(credentials_view(*credentials)),
        None => None,
    }
}

/// The name of a method.
pub open spec fn method_text(method: Method) -> Seq<char> {
    match method {
        Method::Get => "GET"@,
        Method::Post => "POST"@,
    }
}

/// Tells whether a request is `call` as it is sent on behalf of a client and a user, with a callback
/// and a verifier: signed at some time, and with the parameters of a `GET` request in its query and
/// those of a `POST` request in its body.
pub open spec fn is_sent(
    request: HttpRequest,
    call: CallView,
    client: (Seq<char>, Seq<char>),
    token: Option<(Seq<char>, Seq<char>)>,
    callback: Option<Seq<char>>,
    verifier: Option<Seq<char>>,
) -> bool {
    &&& request.method == call.method
    &&& exists|nonce: Seq<char>, timestamp: u64|
        request.authorization@ == #[trigger] oauth_header(
            method_text(call.method),
            call.uri,
            call.params,
            client,
            token,
            callback,
            verifier,
            nonce,
            timestamp,
        )
    &&& "OAuth "@.is_prefix_of(request.authorization@)
    &&& match call.method {
        Method::Get => request.uri@ == oauth_query(call.uri, call.params) && request.body is None,
        Method::Post => request.uri@ == call.uri && opt_view(request.body) == Some(
            oauth_form(call.params),
        ),
    }
}

/// Tells whether a request can be signed: its URI has no query, and no parameter has a name that
/// starts like those of the protocol.
pub open spec fn can_be_signed(call: CallView) -> bool {
    &&& !call.uri.contains('?')
    &&& forall|i: int|
        0 <= i < call.params.len() ==> !"oauth_"@.is_prefix_of((#[trigger] call.params[i]).0)
}

impl Method {
    /// Returns the name of the method.
    pub fn as_str(self) -> (r: &'static str)
        ensures
            r@ == method_text(self),
    {
        match self {
            Method::Get => "GET",
            Method::Post => "POST",
        }
    }
}

impl Call {
    /// Signs the request on behalf of a user. The parameters of a `GET` request go to its query,
    /// those of a `POST` request to its body.
    pub fn send(&self, client: &Credentials<String>, token: &Credentials<String>) -> (r: HttpRequest)
        requires
            can_be_signed(self@),
        ensures
            is_sent(
                r,
                self@,
                credentials_view(*client),
                Some(credentials_view(*token)),
                None,
                None,
            ),
    {
        self.sign(client, Some(token), None, None)
    }

    /// Signs the request.
    fn sign(
        &self,
        client: &Credentials<String>,
        token: Option<&Credentials<String>>,
        callback: Option<&str>,
        verifier: Option<&str>,
    ) -> (r: HttpRequest)
        requires
            can_be_signed(self@),
        ensures
            is_sent(
                r,
                self@,
                credentials_view(*client),
                opt_credentials(token),
                opt_str_view(callback),
                opt_str_view(verifier),
            ),
    {
        sign(self.method, self.uri, &self.params, client, token, callback, verifier)
    }
}

/// Signs a request.
fn sign(
    method: Method,
    uri: &str,
    params: &Vec<(String, String)>,
    client: &Credentials<String>,
    token: Option<&Credentials<String>>,
    callback: Option<&str>,
    verifier: Option<&str>,
) -> (r: HttpRequest)
    requires
        can_be_signed((CallView { method, uri: uri@, params: pairs_view(params@) })),
    ensures
        is_sent(
            r,
            (CallView { method, uri: uri@, params: pairs_view(params@) }),
            credentials_view(*client),
            opt_credentials(token),
            opt_str_view(callback),
            opt_str_view(verifier),
        ),
{
    let ghost call = CallView { method, uri: uri@, params: pairs_view(params@) };
    assert forall|i: int| 0 <= i < params@.len() implies !"oauth_"@.is_prefix_of(
        (#[trigger] params@[i]).0@,
    ) by {
        assert(call.params[i].0 == params@[i].0@);
    }
    let authorization = authorize(
        method.as_str(),
        uri,
        params,
        client,
        token,
        callback,
        verifier,
    );
    match method {
        Method::Get => HttpRequest {
            method,
            uri: to_query(uri, params),
            authorization,
            body: None,
        },
        Method::Post => HttpRequest {
            method,
            uri: uri.to_owned(),
            authorization,
            body: Some(to_form(params)),
        },
    }
}

/// The text of a truth value.
pub open spec fn bool_text(v: bool) -> Seq<char> {
    if v {
        "true"@
    } else {
        "false"@
    }
}

/// The parameters with one more, if it has a value.
pub open spec fn with_opt(
    params: Seq<Pair>,
    name: Seq<char>,
    value: Option<Seq<char>>,
) -> Seq<Pair> {
    match value {
        Some(value) => params.push((name, value)),
        None => params,
    }
}

/// Adds a parameter that is a natural number.
fn push_unsigned(params: &mut Vec<(String, String)>, name: &str, value: u64)
    ensures
        pairs_view(final(params)@) == pairs_view(old(params)@).push(
            (name@, decimal(value as nat)),
        ),
{
    let mut text = String::new();
    push_u64(&mut text, value);
    assert(text@ == decimal(value as nat));
    push_field(params, name, text.as_str());
}

/// Adds a parameter that is an integer.
fn push_signed(params: &mut Vec<(String, String)>, name: &str, value: i64)
    ensures
        pairs_view(final(params)@) == pairs_view(old(params)@).push(
            (name@, signed_decimal(value as int)),
        ),
{
    let mut text = String::new();
    push_i64(&mut text, value);
    assert(text@ == signed_decimal(value as int));
    push_field(params, name, text.as_str());
}

/// Adds a parameter that is a truth value.
fn push_bool(params: &mut Vec<(String, String)>, name: &str, value: bool)
    ensures
        pairs_view(final(params)@) == pairs_view(old(params)@).push((name@, bool_text(value))),
{
    push_field(
        params,
        name,
        if value {
            "true"
        } else {
            "false"
        },
    );
}

/// A parameter with a value is found under its name, and nothing else changes; one without a value
/// leaves no trace.
pub proof fn optional_parameters_are_found(
    params: Seq<Pair>,
    name: Seq<char>,
    value: Option<Seq<char>>,
    asked: Seq<char>,
)
    ensures
        value is None ==> with_opt(params, name, value) == params,
        asked != name ==> crate::encoding::values_of(with_opt(params, name, value), asked)
            == crate::encoding::values_of(params, asked),
        value is Some ==> crate::encoding::values_of(with_opt(params, name, value), name)
            == crate::encoding::values_of(params, name).push(value->0),
{
    if let Some(value) = value {
        crate::encoding::added_fields_are_found(params, name, value, asked);
        crate::encoding::added_fields_are_found(params, name, value, name);
    }
}

/// A request is sent by its method, with a signature over all that it consists of. A `GET` request has
/// its parameters in its query and no body; a `POST` request goes to the very URI and has its
/// parameters in its body.
pub proof fn requests_are_sent_as_called(
    request: HttpRequest,
    call: CallView,
    client: (Seq<char>, Seq<char>),
    token: Option<(Seq<char>, Seq<char>)>,
    callback: Option<Seq<char>>,
    verifier: Option<Seq<char>>,
)
    requires
        is_sent(request, call, client, token, callback, verifier),
    ensures
        request.method == call.method,
        "OAuth "@.is_prefix_of(request.authorization@),
        call.method is Get ==> {
            &&& request.uri@ == oauth_query(call.uri, call.params)
            &&& request.body is None
            &&& exists|nonce: Seq<char>, timestamp: u64|
                request.authorization@ == #[trigger] oauth_header(
                    "GET"@,
                    call.uri,
                    call.params,
                    client,
                    token,
                    callback,
                    verifier,
                    nonce,
                    timestamp,
                )
        },
        call.method is Post ==> {
            &&& request.uri@ == call.uri
            &&& request.body matches Some(body) && body@ == oauth_form(call.params)
            &&& exists|nonce: Seq<char>, timestamp: u64|
                request.authorization@ == #[trigger] oauth_header(
                    "POST"@,
                    call.uri,
                    call.params,
                    client,
                    token,
                    callback,
                    verifier,
                    nonce,
                    timestamp,
                )
        },
{
}

/// A request can be signed exactly where its URI has no question mark and no parameter has a name of
/// the protocol.
pub proof fn names_of_the_protocol_cannot_be_signed(call: CallView, i: int)
    ensures
        call.uri.contains('?') ==> !can_be_signed(call),
        0 <= i < call.params.len() && "oauth_"@.is_prefix_of(call.params[i].0) ==> !can_be_signed(
            call,
        ),
        call.params.len() == 0 && !call.uri.contains('?') ==> can_be_signed(call),
{
    if 0 <= i < call.params.len() && "oauth_"@.is_prefix_of(call.params[i].0) {
        assert("oauth_"@.is_prefix_of((call.params[i]).0));
    }
}

} // verus!
