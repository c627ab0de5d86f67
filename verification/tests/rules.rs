use pipitor::pattern::Pattern;
use pipitor::rules::{Filter, Outbox, Rule, RuleMap, TopicId};
use pipitor::twitter::{Tweet, User};

fn tweet(user: i64, text: &str) -> Tweet {
    Tweet {
        id: 1,
        text: text.to_owned(),
        user: User { id: user },
        in_reply_to_user_id: None,
        in_reply_to_status_id: None,
        quoted_status_id: None,
        retweeted_status: None,
    }
}

fn rule(filter: Filter, outboxes: &[Outbox]) -> Rule {
    let mut rule = Rule::new(filter);
    rule.outbox_mut().extend(outboxes);
    rule
}

fn title(pattern: &str) -> Filter {
    Filter::from_title(Pattern::parse(pattern).unwrap())
}

#[test]
fn ids_of_outboxes() {
    assert_eq!(Outbox::from_id(0), Outbox::Nowhere);
    assert_eq!(Outbox::from_id(5), Outbox::Twitter(5));
}

#[test]
fn filters_of_rules() {
    assert!(Filter::any().matches_tweet(&tweet(1, "x")));
    assert!(title("a").matches_tweet(&tweet(1, "abc")));
    assert!(!title("a").matches_tweet(&tweet(1, "bc")));
    let both = Filter::from_patterns(Pattern::parse("a").unwrap(), Pattern::parse("b").unwrap());
    assert!(both.matches_tweet(&tweet(1, "b")));
    assert!(both.duplicate().matches_tweet(&tweet(1, "a")));
    assert!(!both.duplicate().matches_tweet(&tweet(1, "c")));
}

#[test]
fn rules_can_be_changed() {
    let mut rule = rule(title("a"), &[Outbox::Twitter(1)]);
    assert!(!rule.filter().matches_tweet(&tweet(1, "x")));
    *rule.filter_mut() = Filter::any();
    assert!(rule.filter().matches_tweet(&tweet(1, "x")));
    assert_eq!(rule.outbox(), &[Outbox::Twitter(1)]);
}

#[test]
fn rules_can_be_copied() {
    assert!(Filter::default().matches_tweet(&tweet(1, "x")));
    let mut map = RuleMap::default();
    assert!(!map.contains_topic(&TopicId::Twitter(1)));
    map.insert(TopicId::Twitter(1), rule(title("a"), &[Outbox::Nowhere, Outbox::Twitter(10)]));
    let copy = map.clone();
    let rules = copy.get(&TopicId::Twitter(1)).unwrap();
    assert_eq!(rules.len(), 1);
    let rule = rules[0].clone();
    assert_eq!(rule.outbox(), &[Outbox::Nowhere, Outbox::Twitter(10)]);
    assert!(rule.filter().clone().matches_tweet(&tweet(1, "abc")));
    assert!(!rule.filter().matches_tweet(&tweet(1, "x")));
}

#[test]
fn maps_of_rules() {
    let mut map = RuleMap::new();
    assert!(!map.contains_topic(&TopicId::Twitter(1)));
    map.insert(TopicId::Twitter(1), rule(title("a"), &[Outbox::Twitter(10)]));
    map.insert(TopicId::Twitter(1), rule(Filter::any(), &[Outbox::Nowhere, Outbox::Twitter(11)]));
    map.insert(TopicId::Twitter(2), rule(Filter::any(), &[Outbox::Twitter(12)]));
    assert_eq!(map.get(&TopicId::Twitter(1)).unwrap().len(), 2);
    assert!(map.get(&TopicId::Twitter(3)).is_none());
    assert!(map.get_mut(&TopicId::Twitter(3)).is_none());
    assert_eq!(
        map.route_tweet(&tweet(1, "a")),
        vec![Outbox::Twitter(10), Outbox::Nowhere, Outbox::Twitter(11)]
    );
    assert_eq!(map.route_tweet(&tweet(1, "b")), vec![Outbox::Nowhere, Outbox::Twitter(11)]);
    assert_eq!(map.route_tweet(&tweet(3, "b")), vec![]);

    let mut users = map.twitter_topics();
    users.sort();
    assert_eq!(users, vec![1, 2]);
    assert_eq!(map.topics().len(), 2);
    assert_eq!(map.rules().len(), 3);
    assert_eq!(map.outboxes().len(), 4);
    let mut outboxes = map.twitter_outboxes();
    outboxes.sort();
    assert_eq!(outboxes, vec![10, 11, 12]);

    map.get_mut(&TopicId::Twitter(2)).unwrap().push(rule(Filter::any(), &[Outbox::Twitter(13)]));
    assert_eq!(
        map.route_tweet(&tweet(2, "b")),
        vec![Outbox::Twitter(12), Outbox::Twitter(13)]
    );
    assert_eq!(map.remove(&TopicId::Twitter(2)).unwrap().as_slice().len(), 2);
    assert!(map.remove(&TopicId::Twitter(2)).is_none());
    assert!(!map.contains_topic(&TopicId::Twitter(2)));
}

#[test]
fn rules_of_several_topics() {
    let map = RuleMap::from_prototypes(vec![
        (
            vec![TopicId::Twitter(1), TopicId::Twitter(2)],
            rule(title("a"), &[Outbox::Twitter(10)]),
        ),
        (vec![], rule(Filter::any(), &[Outbox::Twitter(11)])),
        (vec![TopicId::Twitter(2)], rule(Filter::any(), &[Outbox::Twitter(12)])),
    ]);
    assert_eq!(map.route_tweet(&tweet(1, "a")), vec![Outbox::Twitter(10)]);
    assert_eq!(map.route_tweet(&tweet(1, "b")), vec![]);
    assert_eq!(
        map.route_tweet(&tweet(2, "a")),
        vec![Outbox::Twitter(10), Outbox::Twitter(12)]
    );
}
