use webrtc_hub::{
    answer_belongs_to, consume_answer, is_owner, is_self_answer, publish_answer, publish_offer,
    Answer, HubError, StreamInfo,
};

fn s(x: &str) -> String {
    x.to_string()
}

fn record(owner: &str, offer: Option<&str>, ans: Option<(&str, &str, &str)>) -> StreamInfo {
    StreamInfo {
        owner_id: s(owner),
        offer: offer.map(s),
        answer: ans.map(|(account, stream, key)| Answer {
            account_id: s(account),
            stream: s(stream),
            restream_key: s(key),
        }),
        restreams: Vec::new(),
    }
}

#[test]
fn publish_offer_creates_fresh_record() {
    let rec = publish_offer(None, Some(s("o1")), true, s("alice")).unwrap();
    assert_eq!(rec.owner_id, s("alice"));
    assert_eq!(rec.offer, Some(s("o1")));
    assert!(rec.answer.is_none());
    assert!(rec.restreams.is_empty());
}

#[test]
fn publish_offer_update_needs_record() {
    let r = publish_offer(None, Some(s("o1")), false, s("alice"));
    assert_eq!(r.err(), Some(HubError::NotFound));
}

#[test]
fn publish_offer_update_replaces_only_offer() {
    let prev = record("alice", Some("o1"), Some(("bob", "a1", "r1")));
    let rec = publish_offer(Some(&prev), Some(s("o2")), false, s("alice")).unwrap();
    assert_eq!(rec.owner_id, s("alice"));
    assert_eq!(rec.offer, Some(s("o2")));
    assert!(rec.answer.is_some());
}

#[test]
fn publish_offer_reset_guarded_by_ownership() {
    let prev = record("alice", Some("o1"), None);
    let r = publish_offer(Some(&prev), Some(s("o2")), true, s("bob"));
    assert_eq!(r.err(), Some(HubError::Unauthorized));
}

#[test]
fn publish_answer_records_caller() {
    let prev = record("alice", Some("o1"), None);
    let rec = publish_answer(&prev, s("a1"), true, s("o1"), s("r1"), s("bob")).unwrap();
    let a = rec.answer.as_ref().unwrap();
    assert_eq!(a.account_id, s("bob"));
    assert_eq!(a.stream, s("a1"));
    assert_eq!(a.restream_key, s("r1"));
    assert_eq!(rec.owner_id, s("alice"));
    assert_eq!(rec.offer, Some(s("o1")));
}

#[test]
fn publish_answer_requires_exact_offer() {
    let prev = record("alice", Some("o1"), None);
    let r = publish_answer(&prev, s("a1"), true, s("o2"), s("r1"), s("bob"));
    assert_eq!(r.err(), Some(HubError::OfferMismatch));
}

#[test]
fn consume_answer_appends_history_and_resets() {
    let prev = record("alice", Some("o1"), Some(("bob", "a1", "r1")));
    let expected = Answer { account_id: s("bob"), stream: s("a1"), restream_key: s("r1") };
    let rec = consume_answer(&prev, expected, s("alice")).unwrap();
    assert!(rec.offer.is_none());
    assert!(rec.answer.is_none());
    assert_eq!(rec.owner_id, s("alice"));
    assert_eq!(rec.restreams, vec![s("r1")]);
}

#[test]
fn consume_answer_checks_exact_snapshot() {
    let prev = record("alice", Some("o1"), Some(("bob", "a1", "r1")));
    let expected = Answer { account_id: s("bob"), stream: s("a1"), restream_key: s("r2") };
    let r = consume_answer(&prev, expected, s("alice"));
    assert_eq!(r.err(), Some(HubError::AnswerChanged));
}

#[test]
fn policy_predicates() {
    let rec = record("alice", Some("o1"), Some(("bob", "a1", "r1")));
    assert!(is_owner(&rec, &s("alice")));
    assert!(!is_owner(&rec, &s("bob")));
    assert!(is_self_answer(&rec, &s("alice")));
    assert!(!is_self_answer(&rec, &s("bob")));
    assert!(answer_belongs_to(&rec, &s("bob")));
    assert!(!answer_belongs_to(&rec, &s("alice")));
    let empty = record("alice", Some("o1"), None);
    assert!(!answer_belongs_to(&empty, &s("bob")));
}

#[test]
fn answers_compare_by_all_fields() {
    let a = Answer { account_id: s("bob"), stream: s("a1"), restream_key: s("r1") };
    assert!(a.same_as(&a.duplicate()));
    let b = Answer { account_id: s("bob"), stream: s("a1"), restream_key: s("r2") };
    assert!(!a.same_as(&b));
    let c = Answer { account_id: s("carol"), stream: s("a1"), restream_key: s("r1") };
    assert!(!a.same_as(&c));
    let d = Answer { account_id: s("bob"), stream: s("a2"), restream_key: s("r1") };
    assert!(!a.same_as(&d));
}

#[test]
fn records_duplicate_by_value() {
    let mut rec = record("alice", Some("o1"), Some(("bob", "a1", "r1")));
    rec.restreams.push(s("r0"));
    let copy = rec.duplicate();
    assert_eq!(copy.owner_id, rec.owner_id);
    assert_eq!(copy.offer, rec.offer);
    assert!(copy.answer.as_ref().unwrap().same_as(rec.answer.as_ref().unwrap()));
    assert_eq!(copy.restreams, rec.restreams);
}
