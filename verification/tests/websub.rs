use std::collections::{BTreeMap, BTreeSet};

use hmac::{Mac, NewMac};
use pipitor::bytes::{bytes_eq, find_byte, header_text};
use pipitor::decimal::{parse_i64, parse_u64, push_i64, push_u64};
use pipitor::feed::MediaType;
use pipitor::poll::Poll;
use pipitor::time::{as_secs, from_secs, instant_from_unix, now_unix, Clock};
use pipitor::uri::Uri;
use pipitor::websub::hub::{
    create_subscription, draw_id, gen_secret, id_from_random, make_callback, renew,
    secret_from_random, subscribe, unsubscribe, unsubscribe_all, Creation, Form, Inserted,
    NewSubscription, Verify,
};
use pipitor::websub::renewer::{instant_from_epoch, Expiry, Renewer};
use pipitor::websub::scheduler::{Handle, Scheduler, Wait};
use pipitor::websub::service::{
    Action, Delivery, Reply, Request, Service, Subscription, BAD_REQUEST, GONE, NOT_ACCEPTABLE,
    NOT_FOUND, OK, UNSUPPORTED_MEDIA_TYPE,
};
use pipitor::websub::store::Statement;
use pipitor::websub::subscriber::{expires_at, next_update, Active, Subscriber, RENEW};
use pipitor::websub::{decode_callback_id, encode_callback_id, le_bytes};

const TOPIC: &str = "http://example.com/feed.xml";
const HUB: &str = "http://example.com/hub";
const FEED: &str = "<feed/>";
const MARGIN: u64 = 42;
const NOW: u64 = 1_600_000_000;

/// The tables, in memory.
#[derive(Default)]
struct Store {
    subscriptions: BTreeMap<i64, (String, String, String)>,
    pending: BTreeSet<i64>,
    active: BTreeMap<i64, i64>,
    renewing: BTreeSet<(i64, i64)>,
}

impl Store {
    fn remove(&mut self, gone: &[i64]) {
        for id in gone {
            self.subscriptions.remove(id);
            self.pending.remove(id);
            self.active.remove(id);
            self.renewing.retain(|(old, new)| old != id && new != id);
        }
    }

    fn execute(&mut self, statement: &Statement) {
        match statement {
            Statement::InsertSubscription { id, hub, topic, secret } => {
                let row = (hub.clone(), topic.clone(), secret.clone());
                assert!(self.subscriptions.insert(*id, row).is_none());
            }
            Statement::InsertPending { id } => assert!(self.pending.insert(*id)),
            Statement::InsertActive { id, expires_at } => {
                assert!(self.active.insert(*id, *expires_at).is_none())
            }
            Statement::InsertRenewing { old, new } => assert!(self.renewing.insert((*old, *new))),
            Statement::DeleteSubscription { id } => self.remove(&[*id]),
            Statement::DeletePending { id } => {
                self.pending.remove(id);
                self.renewing.retain(|(_, new)| new != id);
            }
            Statement::DeleteTopic { topic } => {
                let gone: Vec<i64> = self
                    .subscriptions
                    .iter()
                    .filter(|(_, row)| row.1 == *topic)
                    .map(|(id, _)| *id)
                    .collect();
                self.remove(&gone);
            }
            Statement::DeleteDangling => {
                let gone: Vec<i64> = self
                    .subscriptions
                    .keys()
                    .filter(|id| !self.active.contains_key(id))
                    .copied()
                    .collect();
                self.remove(&gone);
            }
        }
    }

    fn subscription(&self, id: i64) -> Option<Subscription> {
        self.subscriptions.get(&id).map(|row| Subscription {
            hub: row.0.clone(),
            topic: row.1.clone(),
            secret: row.2.clone(),
            active: self.active.contains_key(&id),
            renews: self.renewing.iter().find(|(_, new)| *new == id).map(|(old, _)| *old),
        })
    }

    fn call(&self, service: &Service, req: &Request, now: u64) -> Reply {
        let sub = service.callback_id(&req.path).ok().and_then(|id| self.subscription(id));
        service.call(req, sub.as_ref(), now)
    }

    fn active(&self) -> Vec<Active> {
        self.active
            .iter()
            .map(|(id, expires_at)| Active {
                id: *id,
                hub: self.subscriptions[id].0.clone(),
                topic: self.subscriptions[id].1.clone(),
                expires_at: *expires_at,
            })
            .collect()
    }
}

fn callback() -> Uri {
    Uri {
        scheme: Some("http".to_owned()),
        authority: Some("example.com".to_owned()),
        path: "/".to_owned(),
        query: None,
    }
}

fn service() -> Service {
    Service { callback: callback(), renewal_margin: MARGIN }
}

fn fields(body: &str) -> BTreeMap<String, String> {
    serde_urlencoded::from_str(body).unwrap()
}

fn get(path: &str, query: String) -> Request {
    Request { path: path.to_owned(), query: Some(query), content_type: None, signature: None }
}

fn post(path: &str, content_type: Option<&str>, signature: Option<&str>) -> Request {
    Request {
        path: path.to_owned(),
        query: None,
        content_type: content_type.map(|s| s.as_bytes().to_vec()),
        signature: signature.map(|s| s.as_bytes().to_vec()),
    }
}

fn path_of(callback: &str) -> String {
    Uri::parse(callback).unwrap().path
}

fn hmac_hex(secret: &str, body: &[u8]) -> String {
    let mut mac = hmac::Hmac::<sha1::Sha1>::new_varkey(secret.as_bytes()).unwrap();
    mac.update(body);
    hex::encode(mac.finalize().into_bytes())
}

#[test]
fn subscription_flow() {
    let mut store = Store::default();
    let service = service();

    // Subscribe to the topic.
    let sub = NewSubscription::draw(HUB.to_owned(), TOPIC.to_owned());
    store.execute(&sub.insertion());
    store.execute(&sub.pending());
    let request = service.subscribe(&sub);
    assert_eq!(request.hub, HUB);
    let form = fields(&request.body);
    assert_eq!(form["hub.mode"], "subscribe");
    assert_eq!(form["hub.topic"], TOPIC);
    let callback = form["hub.callback"].clone();
    let secret = form["hub.secret"].clone();

    // The hub verifies the intent of the subscriber.
    let query = Verify::Subscribe {
        topic: TOPIC.to_owned(),
        challenge: "subscription_challenge".to_owned(),
        lease_seconds: 2 * MARGIN,
    }
    .to_query();
    let reply = store.call(&service, &get(&path_of(&callback), query), NOW);
    assert_eq!(reply.status, OK);
    assert_eq!(reply.body, "subscription_challenge");
    match reply.action {
        Action::Activate(todo) => {
            assert_eq!(todo.refresh_at, Some(NOW + MARGIN));
            assert!(todo.unsubscribe.is_none());
            todo.statements.iter().for_each(|s| store.execute(s));
        }
        action => panic!("{:?}", action),
    }
    let id: i64 = callback.rsplit('/').next().unwrap().parse().unwrap();
    assert_eq!(store.active[&id], (NOW + 2 * MARGIN) as i64);
    assert!(store.pending.is_empty());

    // Content distribution.
    let signature = format!("sha1={}", hmac_hex(&secret, FEED.as_bytes()));
    let req = post(&path_of(&callback), Some("application/atom+xml"), Some(&signature));
    let reply = store.call(&service, &req, NOW);
    assert_eq!(reply.status, OK);
    match reply.action {
        Action::Receive(delivery) => {
            let (topic, content) = delivery.receive(FEED.as_bytes().to_vec()).unwrap();
            assert_eq!(topic, TOPIC);
            assert_eq!(content.kind, MediaType::Atom);
            assert_eq!(content.content, FEED.as_bytes());
        }
        action => panic!("{:?}", action),
    }

    // Subscription renewal.
    assert_eq!(service.next_tick(&store.active(), &vec![]), Some(NOW + MARGIN));
    let due = service.renew_subscriptions(&store.active(), &vec![], NOW + MARGIN);
    assert_eq!(due.len(), 1);
    assert_eq!(due[0].id, id);
    let new = NewSubscription::draw(due[0].hub.clone(), due[0].topic.clone());
    store.execute(&new.insertion());
    store.execute(&new.pending());
    let (statement, request) = service.renew(id, &new);
    store.execute(&statement);
    let form = fields(&request.body);
    let new_callback = form["hub.callback"].clone();
    assert_ne!(new_callback, callback);
    assert_eq!(form["hub.topic"], TOPIC);
    let renewing: Vec<i64> = store.renewing.iter().map(|(old, _)| *old).collect();
    assert!(service.renew_subscriptions(&store.active(), &renewing, NOW + 2 * MARGIN).is_empty());

    // The hub verifies the intent of the subscriber, which ends the old subscription.
    let query = Verify::Subscribe {
        topic: TOPIC.to_owned(),
        challenge: "renewal_challenge".to_owned(),
        lease_seconds: 2 * MARGIN,
    }
    .to_query();
    let reply = store.call(&service, &get(&path_of(&new_callback), query), NOW + MARGIN);
    assert_eq!(reply.status, OK);
    assert_eq!(reply.body, "renewal_challenge");
    match reply.action {
        Action::Activate(todo) => {
            let request = todo.unsubscribe.unwrap();
            assert_eq!(request.hub, HUB);
            let form = fields(&request.body);
            assert_eq!(form["hub.mode"], "unsubscribe");
            assert_eq!(form["hub.callback"], callback);
            assert_eq!(form["hub.topic"], TOPIC);
            todo.statements.iter().for_each(|s| store.execute(s));
        }
        action => panic!("{:?}", action),
    }

    // The hub verifies that the old subscription was meant to end.
    let query = Verify::Unsubscribe {
        topic: TOPIC.to_owned(),
        challenge: "unsubscription_challenge".to_owned(),
    }
    .to_query();
    let reply = store.call(&service, &get(&path_of(&callback), query), NOW + MARGIN);
    assert_eq!(reply.status, OK);
    assert_eq!(reply.body, "unsubscription_challenge");

    // The old subscription is deleted.
    assert!(!store.subscriptions.contains_key(&id));
    assert!(!store.active.contains_key(&id));
    assert!(store.renewing.is_empty());
    assert!(store.active.contains_key(&new.id));

    // Nothing but active subscriptions is kept.
    store.execute(&service.remove_dangling_subscriptions());
    assert_eq!(store.subscriptions.len(), 1);
}

#[test]
fn callbacks_name_their_subscriptions() {
    let service = service();
    let uri = make_callback(&service.callback, 123);
    assert_eq!(uri.to_text(), "http://example.com/123");
    assert_eq!(service.callback_id(&uri.path), Ok(123));
    assert_eq!(service.callback_id("/0"), Ok(0));
    assert_eq!(service.callback_id("/+7"), Ok(7));
    assert_eq!(service.callback_id("/9223372036854775807"), Ok(i64::MAX));
    assert_eq!(service.callback_id("/9223372036854775808"), Err(BAD_REQUEST));
    assert_eq!(service.callback_id("/99999999999999999999"), Err(BAD_REQUEST));
    assert_eq!(service.callback_id("/"), Err(BAD_REQUEST));
    assert_eq!(service.callback_id("/-1"), Err(BAD_REQUEST));
    assert_eq!(service.callback_id("x"), Err(NOT_FOUND));
    let mut prefix = callback();
    prefix.query = Some("id=".to_owned());
    assert_eq!(make_callback(&prefix, 5).to_text(), "http://example.com/?id=5");
}

#[test]
fn callback_ids() {
    for n in [0, 1, 255, 256, 0x0102_0304, i64::MAX as u64, u64::MAX].iter() {
        let text = encode_callback_id(&le_bytes(*n));
        assert_eq!(decode_callback_id(&text), Some(*n));
        assert_eq!(le_bytes(*n), n.to_le_bytes().to_vec());
    }
    assert_eq!(encode_callback_id(&le_bytes(1)), "AQ");
    assert_eq!(encode_callback_id(&le_bytes(0)), "");
    assert_eq!(decode_callback_id("AQ"), Some(1));
    assert_eq!(decode_callback_id("AQ=="), Some(1));
    assert_eq!(decode_callback_id("A==="), None);
    assert_eq!(decode_callback_id("!"), None);
    assert_eq!(decode_callback_id("AAAAAAAAAAAA"), None);
}

#[test]
fn refused_calls() {
    let service = service();
    let sub = Subscription {
        hub: HUB.to_owned(),
        topic: TOPIC.to_owned(),
        secret: "Jefe".to_owned(),
        active: true,
        renews: None,
    };
    let digest = "effcdf6ae5eb2fa2d27416d5f184df9c259a7c79";
    let good = format!("sha1={}", digest);
    let status = |req: &Request, sub: Option<&Subscription>| {
        let reply = service.call(req, sub, NOW);
        assert_eq!(reply.body, "");
        reply.status
    };
    assert_eq!(status(&post("x", Some("text/xml"), Some(&good)), Some(&sub)), NOT_FOUND);
    assert_eq!(status(&post("/x", Some("text/xml"), Some(&good)), Some(&sub)), BAD_REQUEST);
    assert_eq!(status(&post("/1", None, Some(&good)), Some(&sub)), UNSUPPORTED_MEDIA_TYPE);
    assert_eq!(status(&post("/1", Some("text/html"), None), Some(&sub)), UNSUPPORTED_MEDIA_TYPE);
    assert_eq!(status(&post("/1", Some("text/xml"), None), Some(&sub)), OK);
    assert_eq!(status(&post("/1", Some("text/xml"), Some(digest)), Some(&sub)), BAD_REQUEST);
    assert_eq!(status(&post("/1", Some("text/xml"), Some("sha1=00")), Some(&sub)), BAD_REQUEST);
    assert_eq!(status(&post("/1", Some("text/xml"), Some("sha256=00")), Some(&sub)), NOT_ACCEPTABLE);
    assert_eq!(status(&post("/1", Some("text/xml"), Some(&good)), None), GONE);
    assert_eq!(status(&post("/1", Some("text/xml"), Some(&good)), Some(&sub)), OK);

    // A call without a signature has no effect.
    match service.call(&post("/1", Some("text/xml"), None), Some(&sub), NOW).action {
        Action::Nothing => {}
        action => panic!("{:?}", action),
    }
    match service.call(&post("/1", Some("text/xml"), Some(&good.to_uppercase().replace("SHA1", "sha1"))), Some(&sub), NOW).action {
        Action::Receive(delivery) => {
            assert_eq!(hex::encode(&delivery.signature), digest);
            let content = b"what do ya want for nothing?".to_vec();
            assert!(delivery.receive(content).is_some());
        }
        action => panic!("{:?}", action),
    }
    let delivery = Delivery {
        topic: TOPIC.to_owned(),
        secret: "Jefe".to_owned(),
        signature: hex::decode(digest).unwrap(),
        kind: MediaType::Xml,
    };
    assert!(delivery.receive(b"what do ya want for something?".to_vec()).is_none());
}

#[test]
fn denied_questions() {
    let service = service();
    let sub = |active| Subscription {
        hub: HUB.to_owned(),
        topic: TOPIC.to_owned(),
        secret: "s".to_owned(),
        active,
        renews: None,
    };
    let ask = |topic: &str, lease_seconds| Some(Verify::Subscribe {
        topic: topic.to_owned(),
        challenge: "c".to_owned(),
        lease_seconds,
    });
    assert_eq!(service.verify_intent(1, ask(TOPIC, 1), None, NOW).status, NOT_FOUND);
    assert_eq!(service.verify_intent(1, ask(TOPIC, 1), Some(&sub(true)), NOW).status, NOT_FOUND);
    assert_eq!(service.verify_intent(1, ask("x", 1), Some(&sub(false)), NOW).status, NOT_FOUND);
    assert_eq!(service.verify_intent(1, None, Some(&sub(false)), NOW).status, NOT_FOUND);
    let leave = |topic: &str| Some(Verify::Unsubscribe {
        topic: topic.to_owned(),
        challenge: "c".to_owned(),
    });
    assert_eq!(service.verify_intent(1, leave(TOPIC), Some(&sub(true)), NOW).status, NOT_FOUND);
    assert_eq!(service.verify_intent(1, leave("x"), Some(&sub(true)), NOW).status, OK);
    assert_eq!(service.verify_intent(1, leave(TOPIC), None, NOW).status, OK);

    // Leases that never end, and leases that end before they can be renewed.
    match service.verify_intent(1, ask(TOPIC, u64::MAX), Some(&sub(false)), NOW).action {
        Action::Activate(todo) => {
            assert_eq!(todo.refresh_at, Some(i64::MAX as u64 - MARGIN));
            assert_eq!(format!("{:?}", todo.statements[1]), format!(
                "{:?}",
                Statement::InsertActive { id: 1, expires_at: i64::MAX }
            ));
        }
        action => panic!("{:?}", action),
    }
    match service.verify_intent(1, ask(TOPIC, 1), Some(&sub(false)), 0).action {
        Action::Activate(todo) => assert_eq!(todo.refresh_at, None),
        action => panic!("{:?}", action),
    }
    assert_eq!(service.refresh_time(50), 8);
}

#[test]
fn questions() {
    let read = |query: &str| Verify::parse(query);
    match read("hub.mode=subscribe&hub.topic=a%20b&hub.challenge=c&hub.lease_seconds=10&x=y") {
        Some(Verify::Subscribe { topic, challenge, lease_seconds }) => {
            assert_eq!((topic.as_str(), challenge.as_str(), lease_seconds), ("a b", "c", 10));
        }
        verify => panic!("{:?}", verify),
    }
    match read("hub.topic=a&hub.mode=unsubscribe&hub.challenge=c") {
        Some(Verify::Unsubscribe { topic, challenge }) => {
            assert_eq!((topic.as_str(), challenge.as_str()), ("a", "c"));
        }
        verify => panic!("{:?}", verify),
    }
    assert!(read("hub.mode=denied&hub.topic=a&hub.challenge=c").is_none());
    assert!(read("hub.topic=a&hub.challenge=c").is_none());
    assert!(read("hub.mode=unsubscribe&hub.challenge=c").is_none());
    assert!(read("hub.mode=unsubscribe&hub.topic=a").is_none());
    assert!(read("hub.mode=unsubscribe&hub.topic=a&hub.topic=b&hub.challenge=c").is_none());
    assert!(read("hub.mode=subscribe&hub.topic=a&hub.challenge=c").is_none());
    assert!(read("hub.mode=subscribe&hub.topic=a&hub.challenge=c&hub.lease_seconds=x").is_none());
    let query = Verify::Subscribe {
        topic: "a b".to_owned(),
        challenge: "c".to_owned(),
        lease_seconds: 10,
    }
    .to_query();
    assert_eq!(query, "hub.mode=subscribe&hub.topic=a+b&hub.challenge=c&hub.lease_seconds=10");
}

#[test]
fn requests_to_hubs() {
    let form = Form::Subscribe {
        callback: make_callback(&callback(), 1),
        topic: TOPIC.to_owned(),
        secret: "s&t".to_owned(),
    };
    assert_eq!(
        form.to_body(),
        "hub.mode=subscribe&hub.callback=http%3A%2F%2Fexample.com%2F1\
         &hub.topic=http%3A%2F%2Fexample.com%2Ffeed.xml&hub.secret=s%26t"
    );
    let (statement, request) = unsubscribe(&callback(), 2, HUB, TOPIC);
    match statement {
        Statement::DeleteSubscription { id } => assert_eq!(id, 2),
        statement => panic!("{:?}", statement),
    }
    assert_eq!(
        request.body,
        "hub.mode=unsubscribe&hub.callback=http%3A%2F%2Fexample.com%2F2\
         &hub.topic=http%3A%2F%2Fexample.com%2Ffeed.xml"
    );
    let rows = vec![(1, "h1".to_owned()), (2, "h2".to_owned())];
    let (statement, requests) = unsubscribe_all(&callback(), TOPIC, &rows);
    match statement {
        Statement::DeleteTopic { topic } => assert_eq!(topic, TOPIC),
        statement => panic!("{:?}", statement),
    }
    assert_eq!(requests.len(), 2);
    assert_eq!(requests[1].hub, "h2");
    assert_eq!(requests[1].body, request.body);
    let (_, again) = service().unsubscribe_all(TOPIC, &rows);
    assert_eq!(again[0].body, requests[0].body);

    let sub = NewSubscription::draw(HUB.to_owned(), TOPIC.to_owned());
    let (statement, request) = renew(&callback(), 3, &sub);
    match statement {
        Statement::InsertRenewing { old, new } => assert_eq!((old, new), (3, sub.id)),
        statement => panic!("{:?}", statement),
    }
    assert_eq!(request.body, subscribe(&callback(), &sub).body);
}

#[test]
fn leaving_a_topic() {
    let mut store = Store::default();
    for (id, topic) in [(1, TOPIC), (2, "other"), (3, TOPIC)].iter() {
        store.subscriptions.insert(*id, (HUB.to_owned(), topic.to_string(), "s".to_owned()));
        store.active.insert(*id, 9);
    }
    let (statement, requests) =
        service().unsubscribe_all(TOPIC, &vec![(1, HUB.to_owned()), (3, HUB.to_owned())]);
    store.execute(&statement);
    assert_eq!(requests.len(), 2);
    assert_eq!(store.subscriptions.keys().copied().collect::<Vec<_>>(), vec![2]);
    assert_eq!(store.active.keys().copied().collect::<Vec<_>>(), vec![2]);
}

#[test]
fn new_subscriptions() {
    assert_eq!(id_from_random(u64::MAX), i64::MAX);
    assert_eq!(id_from_random(5), 2);
    assert!(draw_id() >= 0);
    assert_eq!(
        secret_from_random(&[0xff; 24]),
        "________________________________"
    );
    let a = gen_secret();
    let b = gen_secret();
    assert_eq!(a.len(), 32);
    assert!(a.bytes().all(|c| c.is_ascii_alphanumeric() || c == b'-' || c == b'_'));
    assert_ne!(a, b);
    assert_ne!(draw_id(), draw_id());

    let sub = NewSubscription::draw(HUB.to_owned(), TOPIC.to_owned());
    let (id, secret) = (sub.id, sub.secret.clone());
    let sub = match create_subscription(sub, Inserted::UniqueViolation, id / 2) {
        Creation::Retry(sub) => sub,
        creation => panic!("{:?}", creation),
    };
    assert_eq!(sub.id, id / 2);
    assert_eq!(sub.secret, secret);
    let sub = match create_subscription(sub, Inserted::Done, 7) {
        Creation::Created(sub) => sub,
        creation => panic!("{:?}", creation),
    };
    assert_eq!(sub.id, id / 2);
    match create_subscription(sub, Inserted::Failed, 7) {
        Creation::Failed => {}
        creation => panic!("{:?}", creation),
    }
}

fn clock(instant: i128, secs: u64) -> Clock {
    Clock { instant, unix: from_secs(secs) }
}

#[test]
fn clocks() {
    assert_eq!(now_unix(7), 7);
    assert_eq!(as_secs(2_999_999_999), 2);
    let clock = clock(5, 100);
    assert_eq!(instant_from_unix(&clock, from_secs(101)), 1_000_000_005);
    assert_eq!(instant_from_unix(&clock, from_secs(99)), -999_999_995);
    assert_eq!(instant_from_epoch(&clock, -1), 5 - 101_000_000_000);
}

#[test]
fn scheduling() {
    let now = clock(0, 100);
    let mut handle = Handle::new(None);
    let mut scheduler = Scheduler::new(&handle, &now);
    assert_eq!(scheduler.poll(Some(&handle), &now), Wait::Idle);
    assert!(handle.hasten(110));
    assert!(!handle.hasten(120));
    assert!(!handle.hasten(110));
    assert_eq!(scheduler.poll(Some(&handle), &now), Wait::Until(10_000_000_000));
    assert!(handle.hasten(105));
    assert_eq!(scheduler.poll(Some(&handle), &now), Wait::Until(5_000_000_000));
    scheduler.tick(&mut handle, Some(130), &now);
    assert_eq!(scheduler.poll(Some(&handle), &now), Wait::Until(30_000_000_000));
    scheduler.tick(&mut handle, None, &now);
    assert_eq!(scheduler.poll(Some(&handle), &now), Wait::Idle);
    assert_eq!(handle.decode_next_tick(&now), None);
    assert_eq!(scheduler.poll(None, &now), Wait::Done);
    assert_eq!(Handle::new(Some(101)).decode_next_tick(&now), Some(1_000_000_000));
}

#[test]
fn renewing() {
    let now = clock(0, 100);
    let mut expiry = Expiry::new(Some(120));
    let mut renewer = Renewer::new(&expiry, 5, &now);
    assert_eq!(renewer.poll(Some(&expiry), &now), Wait::Until(15_000_000_000));
    let earlier = Expiry::new(Some(110));
    assert_eq!(renewer.poll(Some(&earlier), &now), Wait::Until(5_000_000_000));
    assert_eq!(renewer.renewed(&mut expiry, Some(200), &now), Wait::Until(95_000_000_000));
    assert_eq!(expiry.decode_expires_at(), Some(200));
    assert_eq!(renewer.renewed(&mut expiry, None, &now), Wait::Idle);
    assert_eq!(expiry.decode_expires_at(), None);
    assert_eq!(renewer.poll(None, &now), Wait::Done);
}

fn active(id: i64, expires_at: i64) -> Active {
    Active { id, hub: HUB.to_owned(), topic: TOPIC.to_owned(), expires_at }
}

#[test]
fn first_renewals() {
    let rows = vec![active(1, 300), active(2, 200), active(3, 250)];
    assert_eq!(expires_at(&rows, &vec![]), Some(200));
    assert_eq!(expires_at(&rows, &vec![2]), Some(250));
    assert_eq!(expires_at(&rows, &vec![1, 2, 3]), None);
    let service = service();
    assert_eq!(service.next_tick(&rows, &vec![2]), Some(250 - MARGIN));
    assert_eq!(service.next_tick(&vec![active(1, -5)], &vec![]), Some(0));
    assert_eq!(service.next_tick(&vec![], &vec![]), None);
    let subscriber = Subscriber::new(callback(), MARGIN, &rows);
    assert_eq!(subscriber.service().renewal_margin, MARGIN);
    assert_eq!(
        subscriber.handle.decode_next_tick(&clock(0, 200 - MARGIN)),
        Some(0)
    );
}

#[test]
fn renewals_come_with_their_ticks() {
    let service = service();
    let ids = |active: &Vec<Active>, renewing: &Vec<i64>, now| -> Vec<i64> {
        service.renew_subscriptions(active, renewing, now).iter().map(|r| r.id).collect()
    };
    // The one that expires first is renewed once its tick has come, or comes within the tolerance.
    let rows = vec![active(1, 1_300), active(2, 1_084), active(3, 1_094), active(4, 1_095)];
    assert_eq!(service.next_tick(&rows, &vec![]), Some(1_042));
    assert_eq!(ids(&rows, &vec![], 1_031), Vec::<i64>::new());
    assert_eq!(ids(&rows, &vec![], 1_032), vec![2]);
    assert_eq!(ids(&rows, &vec![], 1_042), vec![2, 3]);
    // The next tick lies beyond the tolerance then.
    assert_eq!(service.next_tick(&rows, &vec![2, 3]), Some(1_042 + RENEW + 1));
    assert_eq!(ids(&rows, &vec![2, 3], 1_042), Vec::<i64>::new());
    assert_eq!(ids(&rows, &vec![2, 3], 1_053), vec![4]);
    // What has expired already is renewed too.
    assert_eq!(ids(&vec![active(5, -5), active(6, 0)], &vec![], 0), vec![5, 6]);

    let eager = Service { callback: callback(), renewal_margin: u64::MAX };
    let rows = vec![active(1, i64::MAX)];
    assert_eq!(eager.renew_subscriptions(&rows, &vec![], 0).len(), 1);
}

#[test]
fn updates() {
    let pending = || Poll::<Result<(), u8>>::Pending;
    let done = || Poll::<Result<(), u8>>::Ready(Ok(()));
    assert_eq!(next_update(pending(), Poll::Ready(Some(1)), 2), Poll::Ready(Some(Ok(1))));
    assert_eq!(next_update(done(), Poll::Ready(Some(1)), 1), Poll::Ready(Some(Ok(1))));
    assert_eq!(next_update::<u8, u8>(pending(), Poll::Pending, 1), Poll::Pending);
    assert_eq!(next_update::<u8, u8>(done(), Poll::Pending, 2), Poll::Pending);
    assert_eq!(next_update::<u8, u8>(done(), Poll::Pending, 1), Poll::Ready(None));
    assert_eq!(next_update::<u8, u8>(pending(), Poll::Ready(None), 2), Poll::Ready(None));
    assert_eq!(
        next_update::<u8, u8>(Poll::Ready(Err(9)), Poll::Ready(Some(1)), 2),
        Poll::Ready(Some(Err(9)))
    );
}

#[test]
fn numbers() {
    assert_eq!(parse_u64("18446744073709551615"), Some(u64::MAX));
    assert_eq!(parse_u64("18446744073709551616"), None);
    assert_eq!(parse_u64("+1"), Some(1));
    assert_eq!(parse_u64(""), None);
    assert_eq!(parse_u64("+"), None);
    assert_eq!(parse_u64("-1"), None);
    assert_eq!(parse_i64("-9223372036854775808"), Some(i64::MIN));
    assert_eq!(parse_i64("-9223372036854775809"), None);
    assert_eq!(parse_i64("9223372036854775808"), None);
    assert_eq!(parse_i64("-+1"), None);
    assert_eq!(parse_i64("-"), None);
    let mut out = String::new();
    push_u64(&mut out, 1200);
    push_i64(&mut out, i64::MIN);
    assert_eq!(out, "1200-9223372036854775808");
}

#[test]
fn header_values() {
    assert_eq!(header_text(b"a b\tc").as_deref(), Some("a b\tc"));
    assert_eq!(header_text(b"a\x7f"), None);
    assert_eq!(header_text(b"\xc3\xa9"), None);
    assert_eq!(header_text(b"\n"), None);
    assert_eq!(find_byte(b"a=b=c", b'='), Some(1));
    assert_eq!(find_byte(b"abc", b'='), None);
    assert!(bytes_eq(b"ab", b"ab") && !bytes_eq(b"ab", b"ac") && !bytes_eq(b"ab", b"abc"));
}
