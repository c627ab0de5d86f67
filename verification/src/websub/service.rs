//! The server side of the subscriber, which the hubs call back.

use vstd::prelude::*;

use super::discovery::media_type_of;
#[allow(unused_imports)]
use super::discovery::header_kind;
use super::hub::{unsubscribe, HubRequest, Verify};
#[allow(unused_imports)]
use super::hub::{
    callback_uri, opt_verify_view, query_verify, unsubscribe_request, RequestView, VerifyView,
};
use super::store::Statement;
#[allow(unused_imports)]
use super::store::{statements_view, Row, StatementView, Tables};
use crate::bytes::{bytes_eq, find_byte};
#[allow(unused_imports)]
use crate::decimal::{decimal, decimal_is_read_back, parse_u64, unsigned_value};
#[allow(unused_imports)]
use crate::encoding::{
    hex_bytes, hex_text, hex_text_is_read_back, hmac_sha1_code, is_hex_text, opt_bytes, spells_hex,
};
use crate::encoding::{decode_hex, hmac_sha1, DIGEST_LEN};
use crate::feed::{Feed, MediaType};
#[allow(unused_imports)]
use crate::feed::feed_document;
use crate::strings::{str_eq, strip_prefix};
#[allow(unused_imports)]
use crate::strings::{
    first_position, first_position_found, first_position_is_first, opt_view, without_prefix,
};
use crate::uri::Uri;
#[allow(unused_imports)]
use crate::uri::UriView;

verus! {

/// The status of a reply.
pub const OK: u16 = 200;

pub const BAD_REQUEST: u16 = 400;

pub const NOT_FOUND: u16 = 404;

pub const NOT_ACCEPTABLE: u16 = 406;

pub const GONE: u16 = 410;

pub const UNSUPPORTED_MEDIA_TYPE: u16 = 415;

/// What the hubs call.
#[derive(Debug)]
pub struct Service {
    /// The URI under which the callbacks lie.
    pub callback: Uri,
    /// The number of seconds before its expiry at which a subscription is renewed.
    pub renewal_margin: u64,
}

/// A request of a hub.
#[derive(Debug)]
pub struct Request {
    pub path: String,
    pub query: Option<String>,
    pub content_type: Option<Vec<u8>>,
    pub signature: Option<Vec<u8>>,
}

/// The value of `Request`.
pub struct CallView {
    pub path: Seq<char>,
    pub query: Option<Seq<char>>,
    pub content_type: Option<Seq<u8>>,
    pub signature: Option<Seq<u8>>,
}

impl View for Request {
    type V = CallView;

    open spec fn view(&self) -> CallView {
        CallView {
            path: self.path@,
            query: opt_view(self.query),
            content_type: opt_bytes(self.content_type),
            signature: opt_bytes(self.signature),
        }
    }
}

/// What the tables hold of a subscription.
#[derive(Debug)]
pub struct Subscription {
    pub hub: String,
    pub topic: String,
    pub secret: String,
    pub active: bool,
    /// The subscription that this one replaces.
    pub renews: Option<i64>,
}

/// The value of `Subscription`.
pub struct SubscriptionView {
    pub row: Row,
    pub active: bool,
    pub renews: Option<i64>,
}

impl View for Subscription {
    type V = SubscriptionView;

    open spec fn view(&self) -> SubscriptionView {
        SubscriptionView {
            row: Row { hub: self.hub@, topic: self.topic@, secret: self.secret@ },
            active: self.active,
            renews: self.renews,
        }
    }
}

/// The value of an optional subscription.
pub open spec fn opt_subscription(sub: Option<&Subscription>) -> Option<SubscriptionView> {
    match sub {
        Some(sub) => Some(sub@),
        None => None,
    }
}

/// What to do once a hub has verified a subscription.
#[derive(Debug)]
pub struct Activation {
    /// The time to which the next renewal is to be hastened; nothing where the subscription
    /// expires earlier than the margin allows for.
    pub refresh_at: Option<u64>,
    /// What to change in the tables, in this order.
    pub statements: Vec<Statement>,
    /// The request that ends the subscription that this one replaces.
    pub unsubscribe: Option<HubRequest>,
}

/// The value of `Activation`.
pub struct ActivationView {
    pub refresh_at: Option<u64>,
    pub statements: Seq<StatementView>,
    pub unsubscribe: Option<RequestView>,
}

impl View for Activation {
    type V = ActivationView;

    open spec fn view(&self) -> ActivationView {
        ActivationView {
            refresh_at: self.refresh_at,
            statements: statements_view(self.statements@),
            unsubscribe: match self.unsubscribe {
                Some(request) => Some(request@),
                None => None,
            },
        }
    }
}

/// Content that a hub is about to send, and what it has to be signed with.
#[derive(Debug)]
pub struct Delivery {
    pub topic: String,
    pub secret: String,
    pub signature: Vec<u8>,
    pub kind: MediaType,
}

/// The value of `Delivery`.
pub struct DeliveryView {
    pub topic: Seq<char>,
    pub secret: Seq<char>,
    pub signature: Seq<u8>,
    pub kind: MediaType,
}

impl View for Delivery {
    type V = DeliveryView;

    open spec fn view(&self) -> DeliveryView {
        DeliveryView {
            topic: self.topic@,
            secret: self.secret@,
            signature: self.signature@,
            kind: self.kind,
        }
    }
}

/// What a call leads to, besides its reply.
#[derive(Debug)]
pub enum Action {
    Nothing,
    Activate(Activation),
    Receive(Delivery),
}

/// The value of `Action`.
pub enum ActionView {
    Nothing,
    Activate(ActivationView),
    Receive(DeliveryView),
}

impl View for Action {
    type V = ActionView;

    open spec fn view(&self) -> ActionView {
        match self {
            Action::Nothing => ActionView::Nothing,
            Action::Activate(activation) => ActionView::Activate(activation@),
            Action::Receive(delivery) => ActionView::Receive(delivery@),
        }
    }
}

/// The reply to a call.
#[derive(Debug)]
pub struct Reply {
    pub status: u16,
    pub body: String,
    pub action: Action,
}

/// The value of `Reply`.
pub struct ReplyView {
    pub status: u16,
    pub body: Seq<char>,
    pub action: ActionView,
}

impl View for Reply {
    type V = ReplyView;

    open spec fn view(&self) -> ReplyView {
        ReplyView { status: self.status, body: self.body@, action: self.action@ }
    }
}

/// A reply of a status alone.
pub open spec fn status_reply(status: u16) -> ReplyView {
    ReplyView { status, body: Seq::empty(), action: ActionView::Nothing }
}

/// Content of a topic that a hub has sent.
#[derive(Debug)]
pub struct Content {
    pub kind: MediaType,
    pub content: Vec<u8>,
}

impl Content {
    /// Reads the content as a feed.
    pub fn parse_feed(&self) -> (r: Option<Feed>)
        ensures
            match r {
                Some(feed) => feed_document(self.kind, self.content@) == Some(feed@),
                None => feed_document(self.kind, self.content@) is None,
            },
    {
        Feed::parse(self.kind, self.content.as_slice())
    }
}

/// The subscription that a path names, or the status of the reply to it.
pub open spec fn path_id(prefix: Seq<char>, path: Seq<char>) -> Result<i64, u16> {
    match without_prefix(path, prefix) {
        Some(id) => match unsigned_value(id) {
            Some(n) => if n <= i64::MAX {
                Ok(n as i64)
            } else {
                Err(BAD_REQUEST)
            },
            None => Err(BAD_REQUEST),
        },
        None => Err(NOT_FOUND),
    }
}

/// The name of the digest that is supported.
pub open spec fn sha1_method() -> Seq<u8> {
    seq![0x73u8, 0x68u8, 0x61u8, 0x31u8]
}

/// The digest that a signature header holds, or the status of the reply to it.
pub open spec fn header_signature(header: Seq<u8>) -> Result<Seq<u8>, u16> {
    match first_position(header, 0x3du8) {
        Some(i) => {
            let hex = header.skip(i + 1);
            if header.take(i) != sha1_method() {
                Err(NOT_ACCEPTABLE)
            } else if is_hex_text(hex, DIGEST_LEN as nat) {
                Ok(hex_bytes(hex))
            } else {
                Err(BAD_REQUEST)
            }
        },
        None => Err(BAD_REQUEST),
    }
}

/// The time at which a subscription expires.
pub open spec fn expiry(now: u64, lease_seconds: u64) -> i64 {
    if now + lease_seconds > i64::MAX {
        i64::MAX
    } else {
        (now + lease_seconds) as i64
    }
}

/// What to do once a hub has verified a subscription.
pub open spec fn activation(
    service: Service,
    id: i64,
    sub: SubscriptionView,
    expires_at: i64,
) -> ActivationView {
    ActivationView {
        refresh_at: if service.renewal_margin <= expires_at {
            Some((expires_at - service.renewal_margin) as u64)
        } else {
            None
        },
        statements: match sub.renews {
            Some(old_id) => seq![
                StatementView::DeleteSubscription { id: old_id },
                StatementView::DeletePending { id },
                StatementView::InsertActive { id, expires_at },
            ],
            None => seq![
                StatementView::DeletePending { id },
                StatementView::InsertActive { id, expires_at },
            ],
        },
        unsubscribe: match sub.renews {
            Some(old_id) => Some(
                unsubscribe_request(service.callback@, old_id, sub.row.hub, sub.row.topic),
            ),
            None => None,
        },
    }
}

/// The reply to a hub's question. It is confirmed that a subscription that is not active yet was
/// meant, and that a subscription that is not there was meant to end.
pub open spec fn verify_reply(
    service: Service,
    id: i64,
    question: Option<VerifyView>,
    sub: Option<SubscriptionView>,
    now: u64,
) -> ReplyView {
    match question {
        Some(VerifyView::Subscribe { topic, challenge, lease_seconds }) => {
            if sub is Some && sub->0.row.topic == topic && !sub->0.active {
                ReplyView {
                    status: OK,
                    body: challenge,
                    action: ActionView::Activate(
                        activation(service, id, sub->0, expiry(now, lease_seconds)),
                    ),
                }
            } else {
                status_reply(NOT_FOUND)
            }
        },
        Some(VerifyView::Unsubscribe { topic, challenge }) => {
            if sub is Some && sub->0.row.topic == topic {
                status_reply(NOT_FOUND)
            } else {
                ReplyView { status: OK, body: challenge, action: ActionView::Nothing }
            }
        },
        None => status_reply(NOT_FOUND),
    }
}

/// The reply to a hub that sends content.
pub open spec fn content_reply(req: CallView, sub: Option<SubscriptionView>) -> ReplyView {
    let kind = match req.content_type {
        Some(value) => header_kind(value),
        None => None,
    };
    if kind is None {
        status_reply(UNSUPPORTED_MEDIA_TYPE)
    } else if req.signature is None {
        status_reply(OK)
    } else {
        match header_signature(req.signature->0) {
            Err(status) => status_reply(status),
            Ok(signature) => match sub {
                Some(sub) => ReplyView {
                    status: OK,
                    body: Seq::empty(),
                    action: ActionView::Receive(
                        DeliveryView {
                            topic: sub.row.topic,
                            secret: sub.row.secret,
                            signature,
                            kind: kind->0,
                        },
                    ),
                },
                None => status_reply(GONE),
            },
        }
    }
}

/// The reply to a call, given what the tables hold of the subscription that it names.
pub open spec fn call_reply(
    service: Service,
    req: CallView,
    sub: Option<SubscriptionView>,
    now: u64,
) -> ReplyView {
    match path_id(service.callback@.path, req.path) {
        Err(status) => status_reply(status),
        Ok(id) => match req.query {
            Some(query) => verify_reply(service, id, query_verify(query), sub, now),
            None => content_reply(req, sub),
        },
    }
}

/// Returns a reply of a status alone.
fn reply_status(status: u16) -> (r: Reply)
    ensures
        r@ == status_reply(status),
{
    Reply { status, body: String::new(), action: Action::Nothing }
}

/// Returns the digest that a signature header holds, or the status of the reply to it.
fn parse_signature(header: &[u8]) -> (r: Result<Vec<u8>, u16>)
    ensures
        match r {
            Ok(signature) => header_signature(header@) == Ok::<Seq<u8>, u16>(signature@),
            Err(status) => header_signature(header@) == Err::<Seq<u8>, u16>(status),
        },
{
    let len: usize = header.len();
    let i = match find_byte(header, 0x3d) {
        Some(i) => i,
        None => return Err(BAD_REQUEST),
    };
    let method = vstd::slice::slice_subrange(header, 0, i);
    let hex = vstd::slice::slice_subrange(header, i + 1, len);
    assert(method@ == header@.take(i as int));
    assert(hex@ == header@.skip(i + 1));
    let sha1: [u8; 4] = [0x73, 0x68, 0x61, 0x31];
    assert(sha1@ == sha1_method());
    if !bytes_eq(method, &sha1) {
        return Err(NOT_ACCEPTABLE);
    }
    match decode_hex(hex, DIGEST_LEN) {
        Some(signature) => {
            assert(signature@ == hex_bytes(hex@));
            Ok(signature)
        },
        None => Err(BAD_REQUEST),
    }
}

impl Service {
    /// Returns the time at which a subscription is to be renewed.
    pub fn refresh_time(&self, expires_at: u64) -> (r: u64)
        requires
            self.renewal_margin <= expires_at,
        ensures
            r == expires_at - self.renewal_margin,
    {
        expires_at - self.renewal_margin
    }

    /// Returns the subscription that a path names, or the status of the reply to it.
    pub fn callback_id(&self, path: &str) -> (r: Result<i64, u16>)
        ensures
            r == path_id(self.callback@.path, path@),
    {
        match strip_prefix(path, self.callback.path.as_str()) {
            Some(id) => match parse_u64(id) {
                Some(id) => if id <= i64::MAX as u64 {
                    Ok(id as i64)
                } else {
                    Err(BAD_REQUEST)
                },
                None => Err(BAD_REQUEST),
            },
            None => Err(NOT_FOUND),
        }
    }

    /// Replies to a call, given what the tables hold of the subscription that it names.
    pub fn call(&self, req: &Request, sub: Option<&Subscription>, now: u64) -> (r: Reply)
        ensures
            r@ == call_reply(*self, req@, opt_subscription(sub), now),
    {
        let id = match self.callback_id(req.path.as_str()) {
            Ok(id) => id,
            Err(status) => return reply_status(status),
        };
        if let Some(query) = &req.query {
            return self.verify_intent(id, Verify::parse(query.as_str()), sub, now);
        }
        let kind = match &req.content_type {
            Some(value) => match media_type_of(value.as_slice()) {
                Some(kind) => kind,
                None => return reply_status(UNSUPPORTED_MEDIA_TYPE),
            },
            None => return reply_status(UNSUPPORTED_MEDIA_TYPE),
        };
        let signature_header = match &req.signature {
            Some(value) => value,
            None => return reply_status(OK),
        };
        let signature = match parse_signature(signature_header.as_slice()) {
            Ok(signature) => signature,
            Err(status) => return reply_status(status),
        };
        match sub {
            Some(sub) => Reply {
                status: OK,
                body: String::new(),
                action: Action::Receive(
                    Delivery {
                        topic: sub.topic.clone(),
                        secret: sub.secret.clone(),
                        signature,
                        kind,
                    },
                ),
            },
            // The code lets the hub end the subscription if the ID is of a previously removed one.
            None => reply_status(GONE),
        }
    }

    /// Replies to a hub's question.
    pub fn verify_intent(
        &self,
        id: i64,
        question: Option<Verify>,
        sub: Option<&Subscription>,
        now: u64,
    ) -> (r: Reply)
        ensures
            r@ == verify_reply(
                *self,
                id,
                opt_verify_view(question),
                opt_subscription(sub),
                now,
            ),
    {
        match question {
            Some(Verify::Subscribe { topic, challenge, lease_seconds }) => match sub {
                Some(sub) => if str_eq(sub.topic.as_str(), topic.as_str()) && !sub.active {
                    Reply {
                        status: OK,
                        body: challenge,
                        action: Action::Activate(self.activate(id, sub, now, lease_seconds)),
                    }
                } else {
                    reply_status(NOT_FOUND)
                },
                None => reply_status(NOT_FOUND),
            },
            Some(Verify::Unsubscribe { topic, challenge }) => {
                let listed = match sub {
                    Some(sub) => str_eq(sub.topic.as_str(), topic.as_str()),
                    None => false,
                };
                if listed {
                    reply_status(NOT_FOUND)
                } else {
                    Reply { status: OK, body: challenge, action: Action::Nothing }
                }
            },
            None => reply_status(NOT_FOUND),
        }
    }

    /// Returns what to do once a hub has verified a subscription.
    fn activate(&self, id: i64, sub: &Subscription, now: u64, lease_seconds: u64) -> (r: Activation)
        ensures
            r@ == activation(*self, id, sub@, expiry(now, lease_seconds)),
    {
        let sum: u64 = now.saturating_add(lease_seconds);
        let expires_at: i64 = if sum > i64::MAX as u64 {
            i64::MAX
        } else {
            sum as i64
        };
        let refresh_at = if self.renewal_margin <= expires_at as u64 {
            Some(self.refresh_time(expires_at as u64))
        } else {
            None
        };
        let mut statements: Vec<Statement> = Vec::new();
        let mut request: Option<HubRequest> = None;
        if let Some(old_id) = sub.renews {
            let (statement, end) = unsubscribe(
                &self.callback,
                old_id,
                sub.hub.as_str(),
                sub.topic.as_str(),
            );
            statements.push(statement);
            request = Some(end);
        }
        statements.push(Statement::DeletePending { id });
        statements.push(Statement::InsertActive { id, expires_at });
        let r = Activation { refresh_at, statements, unsubscribe: request };
        assert(r@.statements == activation(
            *self,
            id,
            sub@,
            expiry(now, lease_seconds),
        ).statements);
        r
    }
}

impl Delivery {
    /// Takes the content that a hub has sent, if its signature is right.
    pub fn receive(self, content: Vec<u8>) -> (r: Option<(String, Content)>)
        ensures
            r is Some <==> hmac_sha1_code(vstd::utf8::encode_utf8(self.secret@), content@)
                == self.signature@,
            r matches Some((topic, received)) ==> topic == self.topic && received.kind == self.kind
                && received.content == content,
    {
        let code = hmac_sha1(self.secret.as_str().as_bytes(), content.as_slice());
        if bytes_eq(code.as_slice(), self.signature.as_slice()) {
            Some((self.topic, Content { kind: self.kind, content }))
        } else {
            None
        }
    }
}

/// Tells whether `sub` is what the tables hold of a subscription.
pub open spec fn shows(tables: Tables, id: i64, sub: Option<SubscriptionView>) -> bool {
    match sub {
        Some(sub) => {
            &&& tables.subscriptions.contains_key(id)
            &&& sub.row == tables.subscriptions[id]
            &&& sub.active == tables.active.contains_key(id)
            &&& match sub.renews {
                Some(old_id) => tables.renewing.contains((old_id, id)),
                None => forall|old_id: i64| !tables.renewing.contains((old_id, id)),
            }
        },
        None => !tables.subscriptions.contains_key(id),
    }
}

/// The statements that make a subscription.
pub open spec fn creation(id: i64, row: Row) -> Seq<StatementView> {
    seq![StatementView::InsertSubscription { id, row }, StatementView::InsertPending { id }]
}

/// The statements that renew a subscription by another.
pub open spec fn renewal(old_id: i64, id: i64, row: Row) -> Seq<StatementView> {
    creation(id, row).push(StatementView::InsertRenewing { old: old_id, new: id })
}

/// A callback names the subscription that it was made for.
pub proof fn callback_is_recognised(prefix: UriView, id: i64)
    requires
        id >= 0,
        prefix.query is None,
    ensures
        path_id(prefix.path, callback_uri(prefix, id).path) == Ok::<i64, u16>(id),
{
    let text = decimal(id as nat);
    let path = prefix.path + text;
    decimal_is_read_back(id as nat);
    assert(prefix.path.is_prefix_of(path)) by {
        assert(path.subrange(0, prefix.path.len() as int) == prefix.path);
    }
    assert(path.skip(prefix.path.len() as int) == text);
}

/// Two subscriptions have different callbacks.
pub proof fn callbacks_differ(prefix: UriView, a: i64, b: i64)
    requires
        a >= 0,
        b >= 0,
        a != b,
        prefix.query is None,
    ensures
        callback_uri(prefix, a) != callback_uri(prefix, b),
{
    callback_is_recognised(prefix, a);
    callback_is_recognised(prefix, b);
}

/// Unrolls two or three statements.
proof fn run_unrolled(tables: Tables, statements: Seq<StatementView>)
    ensures
        statements.len() == 2 ==> tables.run(statements) == tables.apply(statements[0]).apply(
            statements[1],
        ),
        statements.len() == 3 ==> tables.run(statements) == tables.apply(statements[0]).apply(
            statements[1],
        ).apply(statements[2]),
{
    reveal_with_fuel(Tables::run, 4);
    if statements.len() >= 2 {
        assert(statements.drop_last().drop_last() =~= statements.take(statements.len() - 2));
    }
    if statements.len() == 2 {
        assert(statements.drop_last().drop_last() =~= Seq::empty());
    }
    if statements.len() == 3 {
        assert(statements.drop_last().drop_last().drop_last() =~= Seq::empty());
    }
}

/// A subscription that has just been made is confirmed to the hub that asks for it, and is active
/// until the end of its lease once the tables are changed as the reply says.
pub proof fn new_subscription_is_confirmed(
    service: Service,
    tables: Tables,
    id: i64,
    row: Row,
    sub: Option<SubscriptionView>,
    challenge: Seq<char>,
    lease_seconds: u64,
    now: u64,
)
    requires
        tables.wf(),
        !tables.subscriptions.contains_key(id),
        shows(tables.run(creation(id, row)), id, sub),
    ensures
        ({
            let made = tables.run(creation(id, row));
            let question = VerifyView::Subscribe { topic: row.topic, challenge, lease_seconds };
            let reply = verify_reply(service, id, Some(question), sub, now);
            &&& made.wf()
            &&& made.pending.contains(id)
            &&& reply.status == OK
            &&& reply.body == challenge
            &&& reply.action matches ActionView::Activate(todo)
            &&& service.renewal_margin <= expiry(now, lease_seconds) ==> todo.refresh_at == Some(
                (expiry(now, lease_seconds) - service.renewal_margin) as u64,
            )
            &&& todo.unsubscribe is None
            &&& made.run(todo.statements).wf()
            &&& made.run(todo.statements).active == tables.active.insert(
                id,
                expiry(now, lease_seconds),
            )
            &&& made.run(todo.statements).pending == tables.pending
            &&& made.run(todo.statements).renewing == tables.renewing
        }),
{
    let made = tables.run(creation(id, row));
    run_unrolled(tables, creation(id, row));
    assert forall|old_id: i64| !made.renewing.contains((old_id, id)) by {
        assert(tables.renewing.contains((old_id, id)) ==> tables.pending.contains(id));
    }
    let expires_at = expiry(now, lease_seconds);
    let statements = activation(service, id, sub->0, expires_at).statements;
    run_unrolled(made, statements);
    let done = made.run(statements);
    assert(done.pending == tables.pending) by {
        assert(!tables.pending.contains(id));
    }
    assert(done.renewing == tables.renewing);
}

/// A subscription that renews another takes its place: once the hub has asked for it, the new one
/// is active, the hub is asked to end the old one, and nothing is left of the old one.
pub proof fn renewal_replaces_the_old_subscription(
    service: Service,
    tables: Tables,
    old_id: i64,
    id: i64,
    row: Row,
    sub: Option<SubscriptionView>,
    challenge: Seq<char>,
    lease_seconds: u64,
    now: u64,
)
    requires
        tables.wf(),
        tables.active.contains_key(old_id),
        !tables.subscriptions.contains_key(id),
        shows(tables.run(renewal(old_id, id, row)), id, sub),
    ensures
        ({
            let made = tables.run(renewal(old_id, id, row));
            let question = VerifyView::Subscribe { topic: row.topic, challenge, lease_seconds };
            let reply = verify_reply(service, id, Some(question), sub, now);
            &&& made.wf()
            &&& reply.status == OK
            &&& reply.body == challenge
            &&& reply.action matches ActionView::Activate(todo)
            &&& service.renewal_margin <= expiry(now, lease_seconds) ==> todo.refresh_at == Some(
                (expiry(now, lease_seconds) - service.renewal_margin) as u64,
            )
            &&& todo.unsubscribe == Some(
                unsubscribe_request(service.callback@, old_id, row.hub, row.topic),
            )
            &&& made.run(todo.statements).wf()
            &&& made.run(todo.statements).active == tables.active.remove(old_id).insert(
                id,
                expiry(now, lease_seconds),
            )
            &&& !made.run(todo.statements).subscriptions.contains_key(old_id)
            &&& forall|pair: (i64, i64)| #[trigger]
                made.run(todo.statements).renewing.contains(pair) ==> pair.0 != old_id
        }),
{
    let made = tables.run(renewal(old_id, id, row));
    run_unrolled(tables, renewal(old_id, id, row));
    assert(made.renewing.contains((old_id, id)));
    assert forall|other: i64| made.renewing.contains((other, id)) implies other == old_id by {
        if other != old_id {
            assert(tables.renewing.contains((other, id)));
            assert(tables.pending.contains(id));
        }
    }
    let expires_at = expiry(now, lease_seconds);
    let statements = activation(service, id, sub->0, expires_at).statements;
    run_unrolled(made, statements);
    let done = made.run(statements);
    assert(done.active == tables.active.remove(old_id).insert(id, expires_at));
}

/// A subscription that was ended is confirmed to have been meant to end, whatever its topic was.
pub proof fn ended_subscription_is_confirmed(
    service: Service,
    tables: Tables,
    id: i64,
    sub: Option<SubscriptionView>,
    topic: Seq<char>,
    challenge: Seq<char>,
    now: u64,
)
    requires
        tables.wf(),
        shows(tables.apply(StatementView::DeleteSubscription { id }), id, sub),
    ensures
        tables.apply(StatementView::DeleteSubscription { id }).wf(),
        verify_reply(service, id, Some(VerifyView::Unsubscribe { topic, challenge }), sub, now)
            == (ReplyView { status: OK, body: challenge, action: ActionView::Nothing }),
{
}

/// A hub that asks for a subscription of another topic, or for one that is active already, is told
/// that there is none.
pub proof fn unmeant_subscription_is_denied(
    service: Service,
    id: i64,
    sub: Option<SubscriptionView>,
    topic: Seq<char>,
    challenge: Seq<char>,
    lease_seconds: u64,
    now: u64,
)
    requires
        sub matches Some(sub) ==> sub.active || sub.row.topic != topic,
    ensures
        verify_reply(
            service,
            id,
            Some(VerifyView::Subscribe { topic, challenge, lease_seconds }),
            sub,
            now,
        ) == status_reply(NOT_FOUND),
{
}

/// Content on a callback, signed with a digest in hexadecimal, is received under that digest.
pub proof fn signed_content_is_received(
    service: Service,
    id: i64,
    content_type: Seq<u8>,
    digest: Seq<u8>,
    sub: SubscriptionView,
    now: u64,
)
    requires
        id >= 0,
        service.callback@.query is None,
        digest.len() == DIGEST_LEN,
    ensures
        header_kind(content_type) matches Some(kind) ==> ({
            let req = CallView {
                path: callback_uri(service.callback@, id).path,
                query: None,
                content_type: Some(content_type),
                signature: Some(sha1_method().push(0x3du8) + hex_text(digest)),
            };
            call_reply(service, req, Some(sub), now) == ReplyView {
                status: OK,
                body: Seq::empty(),
                action: ActionView::Receive(
                    DeliveryView {
                        topic: sub.row.topic,
                        secret: sub.row.secret,
                        signature: digest,
                        kind,
                    },
                ),
            }
        }),
{
    callback_is_recognised(service.callback@, id);
    let header = sha1_method().push(0x3du8) + hex_text(digest);
    first_position_found(header, 0x3du8, 4);
    assert(header.take(4) == sha1_method());
    assert(header.skip(5) == hex_text(digest));
    hex_text_is_read_back(digest, hex_bytes(hex_text(digest)));
    assert(spells_hex(hex_text(digest), digest)) by {
        hex_text_is_read_back(digest, digest);
    }
    assert(hex_bytes(hex_text(digest)) == digest);
}

/// A lease ends as many seconds after it was granted as it lasts; one that would end later than can be
/// told, at the last moment that can be.
pub proof fn leases_end(now: u64, lease_seconds: u64)
    ensures
        now + lease_seconds <= i64::MAX ==> expiry(now, lease_seconds) == now + lease_seconds,
        now + lease_seconds > i64::MAX ==> expiry(now, lease_seconds) == i64::MAX,
{
}

/// However a subscription came to be, whichever one it is and whatever it replaces: once it is confirmed
/// it is active until its lease ends, it is no longer pending, and its renewal is due a margin before
/// that. Only where its lease ends before a margin has passed since the epoch is no renewal scheduled.
pub proof fn confirmed_subscriptions_are_renewed_in_time(
    service: Service,
    id: i64,
    sub: SubscriptionView,
    challenge: Seq<char>,
    lease_seconds: u64,
    now: u64,
)
    requires
        !sub.active,
        now + lease_seconds <= i64::MAX,
    ensures
        ({
            let question = VerifyView::Subscribe { topic: sub.row.topic, challenge, lease_seconds };
            let reply = verify_reply(service, id, Some(question), Some(sub), now);
            &&& reply.status == 200
            &&& reply.body == challenge
            &&& reply.action matches ActionView::Activate(todo)
            &&& match todo.refresh_at {
                Some(time) => time + service.renewal_margin == now + lease_seconds,
                None => now + lease_seconds < service.renewal_margin,
            }
            &&& todo.statements.contains(
                StatementView::InsertActive { id, expires_at: (now + lease_seconds) as i64 },
            )
            &&& todo.statements.contains(StatementView::DeletePending { id })
            &&& sub.renews matches Some(old_id) ==> todo.statements.contains(
                StatementView::DeleteSubscription { id: old_id },
            ) && todo.unsubscribe is Some
            &&& sub.renews is None ==> todo.unsubscribe is None
        }),
{
    let todo = activation(service, id, sub, expiry(now, lease_seconds));
    let n = todo.statements.len() as int;
    assert(todo.statements[n - 1] == StatementView::InsertActive {
        id,
        expires_at: (now + lease_seconds) as i64,
    });
    assert(todo.statements[n - 2] == StatementView::DeletePending { id });
    if let Some(old_id) = sub.renews {
        assert(todo.statements[0] == StatementView::DeleteSubscription { id: old_id });
    }
}

/// A hub that asks whether a subscription is to end is told that it is not meant to while the
/// subscription to that topic is there, active or not. It is confirmed for every other topic.
pub proof fn only_what_is_not_listed_is_meant_to_end(
    service: Service,
    id: i64,
    sub: SubscriptionView,
    topic: Seq<char>,
    challenge: Seq<char>,
    now: u64,
)
    ensures
        ({
            let question = VerifyView::Unsubscribe { topic, challenge };
            let reply = verify_reply(service, id, Some(question), Some(sub), now);
            &&& reply.action is Nothing
            &&& sub.row.topic == topic ==> reply.status == 404 && reply.body == Seq::<char>::empty()
            &&& sub.row.topic != topic ==> reply.status == 200 && reply.body == challenge
        }),
{
}

/// A call with a query is a question, which is answered for the subscription that the path names. One
/// that cannot be read is answered like a question about a subscription that is not there.
pub proof fn questions_are_answered(
    service: Service,
    id: i64,
    req: CallView,
    sub: Option<SubscriptionView>,
    now: u64,
)
    requires
        id >= 0,
        service.callback@.query is None,
        req.path == callback_uri(service.callback@, id).path,
        req.query is Some,
    ensures
        query_verify(req.query->0) matches Some(question) ==> call_reply(service, req, sub, now)
            == verify_reply(service, id, Some(question), sub, now),
        query_verify(req.query->0) is None ==> call_reply(service, req, sub, now).status == 404
            && call_reply(service, req, sub, now).action is Nothing,
{
    callback_is_recognised(service.callback@, id);
}

/// A path that does not lie under that of the callbacks is not found. One that does and whose rest is
/// not the decimal number of an ID is a bad request.
pub proof fn other_paths_are_refused(
    service: Service,
    req: CallView,
    sub: Option<SubscriptionView>,
    now: u64,
)
    ensures
        !service.callback@.path.is_prefix_of(req.path) ==> call_reply(service, req, sub, now)
            == status_reply(404),
        service.callback@.path.is_prefix_of(req.path) && unsigned_value(
            req.path.skip(service.callback@.path.len() as int),
        ) is None ==> call_reply(service, req, sub, now) == status_reply(400),
        service.callback@.path.is_prefix_of(req.path) && (unsigned_value(
            req.path.skip(service.callback@.path.len() as int),
        ) matches Some(n) && n > i64::MAX) ==> call_reply(service, req, sub, now) == status_reply(
            400,
        ),
{
}

/// Content whose type is not that of a feed is refused, and so is content whose signature cannot be
/// read. Content without a signature is ignored. Content for a subscription that is not there is
/// answered such that the hub ends the subscription.
pub proof fn other_content_is_refused(
    service: Service,
    id: i64,
    req: CallView,
    sub: Option<SubscriptionView>,
    now: u64,
)
    requires
        id >= 0,
        service.callback@.query is None,
        req.path == callback_uri(service.callback@, id).path,
        req.query is None,
    ensures
        req.content_type is None ==> call_reply(service, req, sub, now) == status_reply(415),
        req.content_type matches Some(value) ==> header_kind(value) is None ==> call_reply(
            service,
            req,
            sub,
            now,
        ) == status_reply(415),
        req.content_type is Some && header_kind(req.content_type->0) is Some && req.signature
            is None ==> call_reply(service, req, sub, now) == status_reply(200),
        req.content_type is Some && header_kind(req.content_type->0) is Some && (
        req.signature matches Some(header) && header_signature(header) is Err) ==> call_reply(
            service,
            req,
            sub,
            now,
        ) == status_reply(header_signature(req.signature->0)->Err_0),
        req.content_type is Some && header_kind(req.content_type->0) is Some && (
        req.signature matches Some(header) && header_signature(header) is Ok) && sub is None
            ==> call_reply(service, req, sub, now) == status_reply(410),
{
    callback_is_recognised(service.callback@, id);
}

/// A signature is a digest in hexadecimal behind `sha1=`. Without the equals sign it is a bad request,
/// and so is any other text behind it; another method than SHA-1 is not acceptable.
pub proof fn signatures_are_sha1_digests(header: Seq<u8>, method: Seq<u8>, hex: Seq<u8>)
    ensures
        !header.contains(0x3du8) ==> header_signature(header) == Err::<Seq<u8>, u16>(400),
        header == method.push(0x3du8) + hex && !method.contains(0x3du8) ==> {
            &&& method != seq![0x73u8, 0x68u8, 0x61u8, 0x31u8] ==> header_signature(header) == Err::<
                Seq<u8>,
                u16,
            >(406)
            &&& method == seq![0x73u8, 0x68u8, 0x61u8, 0x31u8] && is_hex_text(hex, 20)
                ==> header_signature(header) == Ok::<Seq<u8>, u16>(hex_bytes(hex))
            &&& method == seq![0x73u8, 0x68u8, 0x61u8, 0x31u8] && !is_hex_text(hex, 20)
                ==> header_signature(header) == Err::<Seq<u8>, u16>(400)
        },
{
    first_position_is_first(header, 0x3du8);
    if header == method.push(0x3du8) + hex && !method.contains(0x3du8) {
        let n = method.len() as int;
        assert(header[n] == 0x3du8);
        assert forall|j: int| 0 <= j < n implies header[j] != 0x3du8 by {
            assert(header[j] == method[j]);
            assert(method.contains(method[j]));
        }
        first_position_found(header, 0x3du8, n);
        assert(header.take(n) == method);
        assert(header.skip(n + 1) == hex);
    }
}

/// A reply that is a mere status has that status, no body, and leaves nothing to be done.
pub proof fn refusals_do_nothing(status: u16)
    ensures
        status_reply(status).status == status,
        status_reply(status).body.len() == 0,
        status_reply(status).action is Nothing,
{
}

} // verus!
