use ahash::AHashMap;
use event_source::changes::Changes;
use event_source::notification::PushNotification;
use event_source::types::{CalendarAlert, DataType};

fn tokens(entries: &[(DataType, &str)]) -> AHashMap<DataType, String> {
    let mut m = AHashMap::new();
    for (t, s) in entries {
        m.insert(*t, s.to_string());
    }
    m
}

fn sample() -> Changes {
    let mut m = AHashMap::new();
    m.insert("acct-A".to_string(), tokens(&[(DataType::Email, "s1")]));
    m.insert("acct-B".to_string(), tokens(&[(DataType::Calendar, "s2")]));
    Changes::new(Some("n1".to_string()), m)
}

fn sorted(mut v: Vec<String>) -> Vec<String> {
    v.sort();
    v
}

#[test]
fn scenario_two_accounts() {
    let mut c = sample();
    assert!(!c.is_empty());
    assert!(c.has_type(DataType::Email));
    assert!(!c.has_type(DataType::Task));
    assert_eq!(
        sorted(c.changed_accounts()),
        vec!["acct-A".to_string(), "acct-B".to_string()]
    );
    let a = c.account_changes("acct-A");
    assert_eq!(a, Some(tokens(&[(DataType::Email, "s1")])));
    assert_eq!(c.account_changes("acct-A"), None);
    assert!(!c.has_type(DataType::Email));
    assert!(c.has_type(DataType::Calendar));
    assert_eq!(c.changed_accounts(), vec!["acct-B".to_string()]);
}

#[test]
fn id_is_kept() {
    let c = sample();
    assert_eq!(c.id(), Some("n1"));
    let d = Changes::new(None, AHashMap::new());
    assert_eq!(d.id(), None);
}

#[test]
fn empty_when_no_accounts() {
    let c = Changes::new(None, AHashMap::new());
    assert!(c.is_empty());
    assert!(c.changed_accounts().is_empty());
    assert!(!c.has_type(DataType::Email));
}

#[test]
fn empty_when_accounts_hold_no_tokens() {
    let mut m = AHashMap::new();
    m.insert("a".to_string(), AHashMap::new());
    m.insert("b".to_string(), AHashMap::new());
    let c = Changes::new(None, m);
    assert!(c.is_empty());
    assert_eq!(c.changes("a"), Some(vec![]));
    assert_eq!(sorted(c.changed_accounts()), vec!["a".to_string(), "b".to_string()]);
}

#[test]
fn not_empty_when_one_account_holds_a_token() {
    let mut m = AHashMap::new();
    m.insert("a".to_string(), AHashMap::new());
    m.insert("b".to_string(), tokens(&[(DataType::Mailbox, "m9")]));
    let c = Changes::new(None, m);
    assert!(!c.is_empty());
}

#[test]
fn empty_after_draining_every_account() {
    let mut c = sample();
    assert!(c.account_changes("acct-B").is_some());
    assert!(!c.is_empty());
    assert!(c.account_changes("acct-A").is_some());
    assert!(c.is_empty());
    assert!(c.changed_accounts().is_empty());
}

#[test]
fn changes_lists_every_pair() {
    let mut m = AHashMap::new();
    m.insert(
        "a".to_string(),
        tokens(&[(DataType::Email, "e1"), (DataType::Mailbox, "m1"), (DataType::Thread, "t1")]),
    );
    let c = Changes::new(None, m);
    let mut pairs = c.changes("a").unwrap();
    pairs.sort_by(|x, y| x.1.cmp(&y.1));
    assert_eq!(
        pairs,
        vec![
            (DataType::Email, "e1".to_string()),
            (DataType::Mailbox, "m1".to_string()),
            (DataType::Thread, "t1".to_string()),
        ]
    );
    assert_eq!(c.changes("b"), None);
}

#[test]
fn changes_does_not_drain() {
    let c = sample();
    assert_eq!(c.changes("acct-B"), Some(vec![(DataType::Calendar, "s2".to_string())]));
    assert_eq!(c.changes("acct-B"), Some(vec![(DataType::Calendar, "s2".to_string())]));
    assert!(c.has_type(DataType::Calendar));
}

#[test]
fn draining_an_unknown_account_changes_nothing() {
    let mut c = sample();
    assert_eq!(c.account_changes("acct-C"), None);
    assert_eq!(c, sample());
}

#[test]
fn has_type_false_after_draining_all_holders() {
    let mut m = AHashMap::new();
    m.insert("a".to_string(), tokens(&[(DataType::Email, "1"), (DataType::Quota, "q")]));
    m.insert("b".to_string(), tokens(&[(DataType::Email, "2")]));
    m.insert("c".to_string(), tokens(&[(DataType::Identity, "3")]));
    let mut c = Changes::new(None, m);
    assert!(c.has_type(DataType::Email));
    c.account_changes("a");
    assert!(c.has_type(DataType::Email));
    assert!(!c.has_type(DataType::Quota));
    c.account_changes("b");
    assert!(!c.has_type(DataType::Email));
    assert!(c.has_type(DataType::Identity));
}

#[test]
fn into_inner_returns_what_was_not_drained() {
    let mut c = sample();
    c.account_changes("acct-A");
    let inner = c.into_inner();
    let mut expected = AHashMap::new();
    expected.insert("acct-B".to_string(), tokens(&[(DataType::Calendar, "s2")]));
    assert_eq!(inner, expected);
}

#[test]
fn into_inner_without_drains_returns_everything() {
    let inner = sample().into_inner();
    assert_eq!(inner.len(), 2);
    assert_eq!(inner.get("acct-A"), Some(&tokens(&[(DataType::Email, "s1")])));
    assert_eq!(inner.get("acct-B"), Some(&tokens(&[(DataType::Calendar, "s2")])));
}

#[test]
fn later_token_replaces_earlier_one() {
    let m = tokens(&[(DataType::Email, "old"), (DataType::Email, "new")]);
    let mut outer = AHashMap::new();
    outer.insert("a".to_string(), m);
    let c = Changes::new(None, outer);
    assert_eq!(c.changes("a"), Some(vec![(DataType::Email, "new".to_string())]));
}

#[test]
fn equal_regardless_of_insertion_order() {
    let mut m1 = AHashMap::new();
    m1.insert("acct-A".to_string(), tokens(&[(DataType::Email, "s1"), (DataType::Task, "t")]));
    m1.insert("acct-B".to_string(), tokens(&[(DataType::Calendar, "s2")]));
    let mut m2 = AHashMap::new();
    m2.insert("acct-B".to_string(), tokens(&[(DataType::Calendar, "s2")]));
    m2.insert("acct-A".to_string(), tokens(&[(DataType::Task, "t"), (DataType::Email, "s1")]));
    let a = Changes::new(Some("n1".to_string()), m1);
    let b = Changes::new(Some("n1".to_string()), m2);
    assert!(a == b);
}

#[test]
fn unequal_when_id_or_tokens_differ() {
    let a = sample();
    let mut m = AHashMap::new();
    m.insert("acct-A".to_string(), tokens(&[(DataType::Email, "s1")]));
    m.insert("acct-B".to_string(), tokens(&[(DataType::Calendar, "s2")]));
    let no_id = Changes::new(None, m);
    assert!(a != no_id);
    let mut m = AHashMap::new();
    m.insert("acct-A".to_string(), tokens(&[(DataType::Email, "s1")]));
    m.insert("acct-B".to_string(), tokens(&[(DataType::Calendar, "s3")]));
    let other_token = Changes::new(Some("n1".to_string()), m);
    assert!(a != other_token);
    let other_id = Changes::new(Some("n2".to_string()), sample().into_inner());
    assert!(a != other_id);
}

fn alert(event_id: u32) -> CalendarAlert {
    CalendarAlert {
        account_id: 1,
        event_id,
        alert_id: 3,
        event_start: 1_700_000_000,
        event_end: 1_700_003_600,
    }
}

#[test]
fn notifications_compare_by_variant_and_payload() {
    let s1 = PushNotification::StateChange(sample());
    let s2 = PushNotification::StateChange(sample());
    let a1 = PushNotification::CalendarAlert(alert(2));
    let a2 = PushNotification::CalendarAlert(alert(2));
    let a3 = PushNotification::CalendarAlert(alert(4));
    assert!(s1 == s2);
    assert!(a1 == a2);
    assert!(a1 != a3);
    assert!(s1 != a1);
    assert!(a1 != s1);
    let empty = PushNotification::StateChange(Changes::new(None, AHashMap::new()));
    assert!(empty != s1);
}

#[test]
fn clone_keeps_content() {
    let c = sample();
    let d = c.clone();
    assert_eq!(c, d);
    let n = PushNotification::StateChange(c);
    assert_eq!(n.clone(), n);
}
