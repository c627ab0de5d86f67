//! Requests to the hubs.

use vstd::prelude::*;

use super::store::Statement;
use crate::decimal::push_i64;
#[allow(unused_imports)]
use crate::decimal::{decimal, parse_u64, push_u64, signed_decimal, unsigned_value};
#[allow(unused_imports)]
use crate::encoding::{
    base64url, form_pairs, form_text, is_base64url_char, only_value, pairs_view, values_of, Pair,
};
use crate::encoding::{decode_form, encode_base64url, encode_form, find_only_value, push_field};
use crate::strings::str_eq;
use crate::uri::Uri;
#[allow(unused_imports)]
use crate::uri::{uri_text, UriView};

verus! {

/// A request of the subscriber.
#[derive(Debug)]
pub enum Form {
    Subscribe { callback: Uri, topic: String, secret: String },
    Unsubscribe { callback: Uri, topic: String },
}

/// The value of `Form`.
pub enum FormView {
    Subscribe { callback: UriView, topic: Seq<char>, secret: Seq<char> },
    Unsubscribe { callback: UriView, topic: Seq<char> },
}

impl View for Form {
    type V = FormView;

    open spec fn view(&self) -> FormView {
        match self {
            Form::Subscribe { callback, topic, secret } => FormView::Subscribe {
                callback: callback@,
                topic: topic@,
                secret: secret@,
            },
            Form::Unsubscribe { callback, topic } => FormView::Unsubscribe {
                callback: callback@,
                topic: topic@,
            },
        }
    }
}

/// The fields of a request.
pub open spec fn form_fields(form: FormView) -> Seq<Pair> {
    match form {
        FormView::Subscribe { callback, topic, secret } => seq![
            ("hub.mode"@, "subscribe"@),
            ("hub.callback"@, uri_text(callback)),
            ("hub.topic"@, topic),
            ("hub.secret"@, secret),
        ],
        FormView::Unsubscribe { callback, topic } => seq![
            ("hub.mode"@, "unsubscribe"@),
            ("hub.callback"@, uri_text(callback)),
            ("hub.topic"@, topic),
        ],
    }
}

impl Form {
    /// Returns the body of the request, which reads back as its fields.
    pub fn to_body(&self) -> (r: String)
        ensures
            r@ == form_text(form_fields(self@)),
            form_pairs(vstd::utf8::encode_utf8(r@)) == Some(form_fields(self@)),
    {
        let mut fields: Vec<(String, String)> = Vec::new();
        match self {
            Form::Subscribe { callback, topic, secret } => {
                push_field(&mut fields, "hub.mode", "subscribe");
                push_field(&mut fields, "hub.callback", callback.to_text().as_str());
                push_field(&mut fields, "hub.topic", topic.as_str());
                push_field(&mut fields, "hub.secret", secret.as_str());
            },
            Form::Unsubscribe { callback, topic } => {
                push_field(&mut fields, "hub.mode", "unsubscribe");
                push_field(&mut fields, "hub.callback", callback.to_text().as_str());
                push_field(&mut fields, "hub.topic", topic.as_str());
            },
        }
        assert(pairs_view(fields@) == form_fields(self@));
        encode_form(&fields)
    }
}

/// A hub's question whether a request was meant.
#[derive(Debug)]
pub enum Verify {
    Subscribe { topic: String, challenge: String, lease_seconds: u64 },
    Unsubscribe { topic: String, challenge: String },
}

/// The value of `Verify`.
pub enum VerifyView {
    Subscribe { topic: Seq<char>, challenge: Seq<char>, lease_seconds: u64 },
    Unsubscribe { topic: Seq<char>, challenge: Seq<char> },
}

impl View for Verify {
    type V = VerifyView;

    open spec fn view(&self) -> VerifyView {
        match self {
            Verify::Subscribe { topic, challenge, lease_seconds } => VerifyView::Subscribe {
                topic: topic@,
                challenge: challenge@,
                lease_seconds: *lease_seconds,
            },
            Verify::Unsubscribe { topic, challenge } => VerifyView::Unsubscribe {
                topic: topic@,
                challenge: challenge@,
            },
        }
    }
}

/// The value of an optional question.
pub open spec fn opt_verify_view(verify: Option<Verify>) -> Option<VerifyView> {
    match verify {
        Some(verify) => Some(verify@),
        None => None,
    }
}

/// The fields of a question.
pub open spec fn verify_fields(verify: VerifyView) -> Seq<Pair> {
    match verify {
        VerifyView::Subscribe { topic, challenge, lease_seconds } => seq![
            ("hub.mode"@, "subscribe"@),
            ("hub.topic"@, topic),
            ("hub.challenge"@, challenge),
            ("hub.lease_seconds"@, decimal(lease_seconds as nat)),
        ],
        VerifyView::Unsubscribe { topic, challenge } => seq![
            ("hub.mode"@, "unsubscribe"@),
            ("hub.topic"@, topic),
            ("hub.challenge"@, challenge),
        ],
    }
}

/// The question that the fields of a form ask. A field that a question needs occurs exactly once;
/// other fields are ignored.
pub open spec fn fields_verify(fields: Seq<Pair>) -> Option<VerifyView> {
    match (only_value(fields, "hub.topic"@), only_value(fields, "hub.challenge"@)) {
        (Some(topic), Some(challenge)) => {
            if only_value(fields, "hub.mode"@) == Some("subscribe"@) {
                match only_value(fields, "hub.lease_seconds"@) {
                    Some(text) => match unsigned_value(text) {
                        Some(n) => if n <= u64::MAX {
                            Some(
                                VerifyView::Subscribe {
                                    topic,
                                    challenge,
                                    lease_seconds: n as u64,
                                },
                            )
                        } else {
                            None
                        },
                        None => None,
                    },
                    None => None,
                }
            } else if only_value(fields, "hub.mode"@) == Some("unsubscribe"@) {
                Some(VerifyView::Unsubscribe { topic, challenge })
            } else {
                None
            }
        },
        _ => None,
    }
}

/// The question that a query string asks.
pub open spec fn query_verify(query: Seq<char>) -> Option<VerifyView> {
    match form_pairs(vstd::utf8::encode_utf8(query)) {
        Some(fields) => fields_verify(fields),
        None => None,
    }
}

/// Names of fields that differ.
proof fn field_names_differ()
    ensures
        "hub.mode"@ != "hub.topic"@,
        "hub.mode"@ != "hub.challenge"@,
        "hub.mode"@ != "hub.lease_seconds"@,
        "hub.topic"@ != "hub.challenge"@,
        "hub.topic"@ != "hub.lease_seconds"@,
        "hub.challenge"@ != "hub.lease_seconds"@,
        "subscribe"@ != "unsubscribe"@,
{
    reveal_strlit("hub.mode");
    reveal_strlit("hub.topic");
    reveal_strlit("hub.challenge");
    reveal_strlit("hub.lease_seconds");
    reveal_strlit("subscribe");
    reveal_strlit("unsubscribe");
    assert("hub.mode"@.len() == 8);
    assert("hub.topic"@.len() == 9);
    assert("hub.challenge"@.len() == 13);
    assert("hub.lease_seconds"@.len() == 17);
    assert("subscribe"@.len() == 9);
    assert("unsubscribe"@.len() == 11);
}

/// The fields of a question ask that question.
pub proof fn verify_is_read_back(verify: VerifyView)
    ensures
        fields_verify(verify_fields(verify)) == Some(verify),
{
    field_names_differ();
    reveal_with_fuel(values_of, 5);
    let fields = verify_fields(verify);
    match verify {
        VerifyView::Subscribe { topic, challenge, lease_seconds } => {
            crate::decimal::decimal_is_read_back(lease_seconds as nat);
            assert(fields.drop_last() == seq![
                ("hub.mode"@, "subscribe"@),
                ("hub.topic"@, topic),
                ("hub.challenge"@, challenge),
            ]);
            assert(fields.drop_last().drop_last() == seq![
                ("hub.mode"@, "subscribe"@),
                ("hub.topic"@, topic),
            ]);
            assert(fields.drop_last().drop_last().drop_last() == seq![
                ("hub.mode"@, "subscribe"@),
            ]);
            assert(fields.drop_last().drop_last().drop_last().drop_last() == Seq::<Pair>::empty());
            assert(values_of(fields, "hub.mode"@) == seq!["subscribe"@]);
            assert(values_of(fields, "hub.topic"@) == seq![topic]);
            assert(values_of(fields, "hub.challenge"@) == seq![challenge]);
            assert(values_of(fields, "hub.lease_seconds"@) == seq![decimal(lease_seconds as nat)]);
        },
        VerifyView::Unsubscribe { topic, challenge } => {
            assert(fields.drop_last() == seq![
                ("hub.mode"@, "unsubscribe"@),
                ("hub.topic"@, topic),
            ]);
            assert(fields.drop_last().drop_last() == seq![("hub.mode"@, "unsubscribe"@)]);
            assert(fields.drop_last().drop_last().drop_last() == Seq::<Pair>::empty());
            assert(values_of(fields, "hub.mode"@) == seq!["unsubscribe"@]);
            assert(values_of(fields, "hub.topic"@) == seq![topic]);
            assert(values_of(fields, "hub.challenge"@) == seq![challenge]);
        },
    }
}

impl Verify {
    /// Reads a query string.
    pub fn parse(query: &str) -> (r: Option<Verify>)
        ensures
            opt_verify_view(r) == query_verify(query@),
    {
        match decode_form(query.as_bytes()) {
            Some(fields) => Verify::from_fields(&fields),
            None => None,
        }
    }

    /// Reads the fields of a form.
    pub fn from_fields(fields: &Vec<(String, String)>) -> (r: Option<Verify>)
        ensures
            opt_verify_view(r) == fields_verify(pairs_view(fields@)),
    {
        proof {
            field_names_differ();
        }
        let mode = find_only_value(fields, "hub.mode");
        let topic = match find_only_value(fields, "hub.topic") {
            Some(topic) => topic,
            None => return None,
        };
        let challenge = match find_only_value(fields, "hub.challenge") {
            Some(challenge) => challenge,
            None => return None,
        };
        let mode = match mode {
            Some(mode) => mode,
            None => return None,
        };
        if str_eq(mode.as_str(), "subscribe") {
            match find_only_value(fields, "hub.lease_seconds") {
                Some(text) => match parse_u64(text.as_str()) {
                    Some(lease_seconds) => Some(
                        Verify::Subscribe { topic, challenge, lease_seconds },
                    ),
                    None => None,
                },
                None => None,
            }
        } else if str_eq(mode.as_str(), "unsubscribe") {
            Some(Verify::Unsubscribe { topic, challenge })
        } else {
            None
        }
    }

    /// Returns the query string of the question, which reads back as the question.
    pub fn to_query(&self) -> (r: String)
        ensures
            r@ == form_text(verify_fields(self@)),
            query_verify(r@) == Some(self@),
    {
        let mut fields: Vec<(String, String)> = Vec::new();
        match self {
            Verify::Subscribe { topic, challenge, lease_seconds } => {
                let mut lease = String::new();
                push_u64(&mut lease, *lease_seconds);
                assert(lease@ == decimal(*lease_seconds as nat));
                push_field(&mut fields, "hub.mode", "subscribe");
                push_field(&mut fields, "hub.topic", topic.as_str());
                push_field(&mut fields, "hub.challenge", challenge.as_str());
                push_field(&mut fields, "hub.lease_seconds", lease.as_str());
            },
            Verify::Unsubscribe { topic, challenge } => {
                push_field(&mut fields, "hub.mode", "unsubscribe");
                push_field(&mut fields, "hub.topic", topic.as_str());
                push_field(&mut fields, "hub.challenge", challenge.as_str());
            },
        }
        assert(pairs_view(fields@) == verify_fields(self@));
        proof {
            verify_is_read_back(self@);
        }
        encode_form(&fields)
    }
}

/// The URI at which a hub reaches a subscription: the prefix with the ID behind it.
pub open spec fn callback_uri(prefix: UriView, id: i64) -> UriView {
    let id_text = signed_decimal(id as int);
    match prefix.query {
        Some(query) => UriView { query: Some(query + id_text), ..prefix },
        None => UriView { path: prefix.path + id_text, ..prefix },
    }
}

/// Returns the URI at which a hub reaches a subscription.
pub fn make_callback(prefix: &Uri, id: i64) -> (r: Uri)
    ensures
        r@ == callback_uri(prefix@, id),
{
    let mut uri = prefix.duplicate();
    match uri.query {
        Some(query) => {
            let mut query = query;
            push_i64(&mut query, id);
            uri.query = Some(query);
        },
        None => {
            let mut path = uri.path;
            push_i64(&mut path, id);
            uri.path = path;
        },
    }
    uri
}

/// A request to a hub. Its body is a form.
#[derive(Debug)]
pub struct HubRequest {
    pub hub: String,
    pub topic: String,
    pub body: String,
}

/// The value of `HubRequest`.
pub struct RequestView {
    pub hub: Seq<char>,
    pub topic: Seq<char>,
    pub body: Seq<char>,
}

impl View for HubRequest {
    type V = RequestView;

    open spec fn view(&self) -> RequestView {
        RequestView { hub: self.hub@, topic: self.topic@, body: self.body@ }
    }
}

/// The number of characters of a secret.
pub const SECRET_LEN: usize = 32;

/// A subscription that is about to be made.
#[derive(Debug)]
pub struct NewSubscription {
    pub id: i64,
    pub hub: String,
    pub topic: String,
    pub secret: String,
}

/// What came of inserting a subscription.
#[derive(Copy, Clone, Debug, PartialEq, Eq, Structural)]
pub enum Inserted {
    Done,
    /// The ID was taken.
    UniqueViolation,
    Failed,
}

/// What follows the insertion of a subscription.
#[derive(Debug)]
pub enum Creation {
    /// The subscription has its ID and is to be marked as pending.
    Created(NewSubscription),
    /// The subscription is to be inserted with another ID.
    Retry(NewSubscription),
    Failed,
}

/// `next_u64` of `rand::thread_rng`: any number at all.
#[verifier::external_body]
fn random_u64() -> u64 {
    rand::RngCore::next_u64(&mut rand::thread_rng())
}

/// `fill_bytes` of `rand::thread_rng` on `n` bytes: any bytes at all.
#[verifier::external_body]
fn random_bytes(n: usize) -> (r: Vec<u8>)
    ensures
        r@.len() == n,
{
    let mut bytes = vec![0_u8; n];
    rand::RngCore::fill_bytes(&mut rand::thread_rng(), &mut bytes);
    bytes
}

/// Returns the ID that a random number gives: its upper 63 bits.
pub fn id_from_random(random: u64) -> (r: i64)
    ensures
        r == random / 2,
        r >= 0,
{
    (random / 2) as i64
}

/// Draws an ID.
pub fn draw_id() -> (r: i64)
    ensures
        r >= 0,
{
    id_from_random(random_u64())
}

/// Returns the secret that random bytes give, with six bits in each character.
pub fn secret_from_random(random: &[u8]) -> (r: String)
    requires
        random@.len() == SECRET_LEN * 6 / 8,
    ensures
        r@ == base64url(random@),
        r@.len() == SECRET_LEN,
        forall|i: int| 0 <= i < r@.len() ==> #[trigger] is_base64url_char(r@[i]),
{
    encode_base64url(random)
}

/// Draws a secret.
pub fn gen_secret() -> (r: String)
    ensures
        r@.len() == SECRET_LEN,
        forall|i: int| 0 <= i < r@.len() ==> #[trigger] is_base64url_char(r@[i]),
{
    let random = random_bytes(SECRET_LEN * 6 / 8);
    secret_from_random(random.as_slice())
}

impl NewSubscription {
    /// Draws the ID and the secret of a subscription.
    pub fn draw(hub: String, topic: String) -> (r: NewSubscription)
        ensures
            r.hub == hub,
            r.topic == topic,
            r.id >= 0,
            r.secret@.len() == SECRET_LEN,
            forall|i: int|
                0 <= i < r.secret@.len() ==> #[trigger] is_base64url_char(r.secret@[i]),
    {
        let secret = gen_secret();
        NewSubscription { id: draw_id(), hub, topic, secret }
    }

    /// Returns the statement that inserts the subscription.
    pub fn insertion(&self) -> (r: Statement)
        ensures
            r == (Statement::InsertSubscription {
                id: self.id,
                hub: self.hub,
                topic: self.topic,
                secret: self.secret,
            }),
    {
        Statement::InsertSubscription {
            id: self.id,
            hub: self.hub.clone(),
            topic: self.topic.clone(),
            secret: self.secret.clone(),
        }
    }

    /// Returns the statement that marks the subscription as pending.
    pub fn pending(&self) -> (r: Statement)
        ensures
            r == (Statement::InsertPending { id: self.id }),
    {
        Statement::InsertPending { id: self.id }
    }
}

/// Decides what follows the insertion of a subscription. Where its ID was taken, it is tried again
/// with the ID at hand; its secret stays.
pub fn create_subscription(sub: NewSubscription, result: Inserted, id: i64) -> (r: Creation)
    ensures
        r == match result {
            Inserted::Done => Creation::Created(sub),
            Inserted::UniqueViolation => Creation::Retry(
                NewSubscription { id, hub: sub.hub, topic: sub.topic, secret: sub.secret },
            ),
            Inserted::Failed => Creation::Failed,
        },
{
    match result {
        Inserted::Done => Creation::Created(sub),
        Inserted::UniqueViolation => Creation::Retry(
            NewSubscription { id, hub: sub.hub, topic: sub.topic, secret: sub.secret },
        ),
        Inserted::Failed => Creation::Failed,
    }
}

/// The request to subscribe.
pub open spec fn subscribe_request(callback: UriView, sub: NewSubscription) -> RequestView {
    RequestView {
        hub: sub.hub@,
        topic: sub.topic@,
        body: form_text(
            form_fields(
                FormView::Subscribe {
                    callback: callback_uri(callback, sub.id),
                    topic: sub.topic@,
                    secret: sub.secret@,
                },
            ),
        ),
    }
}

/// The request to unsubscribe.
pub open spec fn unsubscribe_request(
    callback: UriView,
    id: i64,
    hub: Seq<char>,
    topic: Seq<char>,
) -> RequestView {
    RequestView {
        hub,
        topic,
        body: form_text(
            form_fields(FormView::Unsubscribe { callback: callback_uri(callback, id), topic }),
        ),
    }
}

/// Returns the request to subscribe.
pub fn subscribe(callback: &Uri, sub: &NewSubscription) -> (r: HubRequest)
    ensures
        r@ == subscribe_request(callback@, *sub),
{
    let form = Form::Subscribe {
        callback: make_callback(callback, sub.id),
        topic: sub.topic.clone(),
        secret: sub.secret.clone(),
    };
    HubRequest { hub: sub.hub.clone(), topic: sub.topic.clone(), body: form.to_body() }
}

/// Returns the statement that notes the renewal of a subscription by another, and the request to
/// subscribe anew.
pub fn renew(callback: &Uri, old_id: i64, sub: &NewSubscription) -> (r: (Statement, HubRequest))
    ensures
        r.0 == (Statement::InsertRenewing { old: old_id, new: sub.id }),
        r.1@ == subscribe_request(callback@, *sub),
{
    (Statement::InsertRenewing { old: old_id, new: sub.id }, subscribe(callback, sub))
}

/// Returns the statement that deletes a subscription, and the request to unsubscribe.
pub fn unsubscribe(callback: &Uri, id: i64, hub: &str, topic: &str) -> (r: (Statement, HubRequest))
    ensures
        r.0 == (Statement::DeleteSubscription { id }),
        r.1@ == unsubscribe_request(callback@, id, hub@, topic@),
{
    let form = Form::Unsubscribe {
        callback: make_callback(callback, id),
        topic: topic.to_owned(),
    };
    let request = HubRequest {
        hub: hub.to_owned(),
        topic: topic.to_owned(),
        body: form.to_body(),
    };
    (Statement::DeleteSubscription { id }, request)
}

/// Returns the statement that deletes the subscriptions to a topic, and a request to unsubscribe
/// for each of them, given by its ID and hub.
pub fn unsubscribe_all(
    callback: &Uri,
    topic: &str,
    subscriptions: &Vec<(i64, String)>,
) -> (r: (Statement, Vec<HubRequest>))
    ensures
        r.0@ == (super::store::StatementView::DeleteTopic { topic: topic@ }),
        r.1@.len() == subscriptions@.len(),
        forall|i: int|
            0 <= i < r.1@.len() ==> (#[trigger] r.1@[i])@ == unsubscribe_request(
                callback@,
                subscriptions@[i].0,
                subscriptions@[i].1@,
                topic@,
            ),
{
    let mut requests: Vec<HubRequest> = Vec::new();
    let mut i: usize = 0;
    while i < subscriptions.len()
        invariant
            i <= subscriptions@.len(),
            requests@.len() == i,
            forall|j: int|
                0 <= j < i ==> (#[trigger] requests@[j])@ == unsubscribe_request(
                    callback@,
                    subscriptions@[j].0,
                    subscriptions@[j].1@,
                    topic@,
                ),
        decreases subscriptions@.len() - i,
    {
        let row = &subscriptions[i];
        let (_, request) = unsubscribe(callback, row.0, row.1.as_str(), topic);
        requests.push(request);
        i += 1;
    }
    (Statement::DeleteTopic { topic: topic.to_owned() }, requests)
}

/// The request to subscribe names the mode, the callback, the topic and the secret, and the request to
/// unsubscribe the mode, the callback and the topic, each once and nothing else.
pub proof fn requests_name_their_fields(callback: UriView, topic: Seq<char>, secret: Seq<char>)
    ensures
        ({
            let fields = form_fields(FormView::Subscribe { callback, topic, secret });
            &&& only_value(fields, "hub.mode"@) == Some("subscribe"@)
            &&& only_value(fields, "hub.callback"@) == Some(uri_text(callback))
            &&& only_value(fields, "hub.topic"@) == Some(topic)
            &&& only_value(fields, "hub.secret"@) == Some(secret)
            &&& fields.len() == 4
        }),
        ({
            let fields = form_fields(FormView::Unsubscribe { callback, topic });
            &&& only_value(fields, "hub.mode"@) == Some("unsubscribe"@)
            &&& only_value(fields, "hub.callback"@) == Some(uri_text(callback))
            &&& only_value(fields, "hub.topic"@) == Some(topic)
            &&& fields.len() == 3
        }),
{
    reveal_strlit("hub.mode");
    reveal_strlit("hub.topic");
    reveal_strlit("hub.callback");
    reveal_strlit("hub.secret");
    assert("hub.mode"@.len() == 8);
    assert("hub.topic"@.len() == 9);
    assert("hub.callback"@.len() == 12);
    assert("hub.secret"@.len() == 10);
    reveal_with_fuel(values_of, 5);
    let fields = form_fields(FormView::Subscribe { callback, topic, secret });
    let three = fields.drop_last();
    let two = three.drop_last();
    let one = two.drop_last();
    assert(one.drop_last() == Seq::<Pair>::empty());
    assert(values_of(fields, "hub.mode"@) == seq!["subscribe"@]);
    assert(values_of(fields, "hub.callback"@) == seq![uri_text(callback)]);
    assert(values_of(fields, "hub.topic"@) == seq![topic]);
    assert(values_of(fields, "hub.secret"@) == seq![secret]);
    let fields = form_fields(FormView::Unsubscribe { callback, topic });
    let two = fields.drop_last();
    let one = two.drop_last();
    assert(one.drop_last() == Seq::<Pair>::empty());
    assert(values_of(fields, "hub.mode"@) == seq!["unsubscribe"@]);
    assert(values_of(fields, "hub.callback"@) == seq![uri_text(callback)]);
    assert(values_of(fields, "hub.topic"@) == seq![topic]);
}

/// A callback is the prefix with the ID in decimal at its end: of its query where it has one, and of
/// its path otherwise. Nothing else of the prefix changes.
pub proof fn callbacks_extend_their_prefix(prefix: UriView, id: i64)
    ensures
        callback_uri(prefix, id).scheme == prefix.scheme,
        callback_uri(prefix, id).authority == prefix.authority,
        prefix.query is None ==> callback_uri(prefix, id).query is None && callback_uri(
            prefix,
            id,
        ).path == prefix.path + signed_decimal(id as int),
        prefix.query matches Some(query) ==> callback_uri(prefix, id).path == prefix.path
            && callback_uri(prefix, id).query == Some(query + signed_decimal(id as int)),
{
}

/// A request goes to the hub of its subscription, about its topic, and its form is that of the
/// subscription's own callback; the one that ends a subscription is about the same callback.
pub proof fn requests_are_about_their_subscription(callback: UriView, sub: NewSubscription)
    ensures
        subscribe_request(callback, sub).hub == sub.hub@,
        subscribe_request(callback, sub).topic == sub.topic@,
        subscribe_request(callback, sub).body == form_text(
            form_fields(
                FormView::Subscribe {
                    callback: callback_uri(callback, sub.id),
                    topic: sub.topic@,
                    secret: sub.secret@,
                },
            ),
        ),
        unsubscribe_request(callback, sub.id, sub.hub@, sub.topic@).hub == sub.hub@,
        unsubscribe_request(callback, sub.id, sub.hub@, sub.topic@).topic == sub.topic@,
        unsubscribe_request(callback, sub.id, sub.hub@, sub.topic@).body == form_text(
            form_fields(
                FormView::Unsubscribe {
                    callback: callback_uri(callback, sub.id),
                    topic: sub.topic@,
                },
            ),
        ),
{
}

/// A question is read from its fields wherever they stand and whatever else stands beside them. It needs
/// its mode, topic and challenge, and one about a subscription the length of the lease in decimal.
pub proof fn questions_are_read(fields: Seq<Pair>)
    ensures
        ({
            let mode = only_value(fields, "hub.mode"@);
            let topic = only_value(fields, "hub.topic"@);
            let challenge = only_value(fields, "hub.challenge"@);
            let lease = only_value(fields, "hub.lease_seconds"@);
            &&& mode is None || topic is None || challenge is None ==> fields_verify(fields) is None
            &&& mode == Some("subscribe"@) && topic is Some && challenge is Some && (
            lease matches Some(text) && unsigned_value(text) matches Some(n) && n <= u64::MAX)
                ==> fields_verify(fields) == Some(
                VerifyView::Subscribe {
                    topic: topic->0,
                    challenge: challenge->0,
                    lease_seconds: unsigned_value(lease->0)->0 as u64,
                },
            )
            &&& mode == Some("subscribe"@) && lease is None ==> fields_verify(fields) is None
            &&& mode == Some("subscribe"@) && (lease matches Some(text) && unsigned_value(text)
                is None) ==> fields_verify(fields) is None
            &&& mode == Some("unsubscribe"@) && topic is Some && challenge is Some
                ==> fields_verify(fields) == Some(
                VerifyView::Unsubscribe { topic: topic->0, challenge: challenge->0 },
            )
            &&& mode != Some("subscribe"@) && mode != Some("unsubscribe"@) ==> fields_verify(fields)
                is None
        }),
{
    field_names_differ();
}

} // verus!
