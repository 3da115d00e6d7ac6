use delayed_webhook::db::{ResolveError, WebhookDBItem};
use delayed_webhook::pool::{Delivery, Group, Pool, PoolItem, CONTENT_TYPE};
use delayed_webhook::time::Timestamp;

fn config(delay_seconds: i64, instant: &[&str], delayed: &[&str]) -> WebhookDBItem {
    WebhookDBItem {
        id: String::from("w1"),
        name: String::from("first"),
        delay_seconds,
        delay_webhooks: delayed.iter().map(|u| u.to_string()).collect(),
        instant_webhooks: instant.iter().map(|u| u.to_string()).collect(),
    }
}

fn delivery(group: Group, url: &str, body: &[u8]) -> Delivery {
    Delivery { group, url: url.to_string(), body: body.to_vec() }
}

fn hello_at(millis: i64) -> PoolItem {
    PoolItem::stamped(String::from("w1"), b"hello".to_vec(), Timestamp::from_millis(millis))
}

#[test]
fn content_type_is_json() {
    assert_eq!(CONTENT_TYPE, "application/json");
    // declared for every delivery, also where the payload is no JSON
    let raw = delivery(Group::Delayed, "http://b/d", &[0xff, 0x00]);
    assert_eq!(raw.content_type(), "application/json");
    let text = delivery(Group::Instant, "http://a/i", b"{\"k\":1}");
    assert_eq!(text.content_type(), "application/json");
}

#[test]
fn stamped_item_is_fresh() {
    let item = PoolItem::stamped(String::from("w9"), vec![1, 2, 3], Timestamp::from_parts(4, 5));
    assert_eq!(item.id(), "w9");
    assert_eq!(item.data(), &vec![1u8, 2, 3]);
    assert_eq!(item.received_at(), Timestamp::from_parts(4, 5));
    assert!(!item.instant_sent());
    assert!(!item.delay_sent());
}

#[test]
fn new_item_is_stamped_by_the_clock() {
    let before = chrono::Utc::now();
    let item = PoolItem::new(String::from("w1"), b"payload".to_vec());
    let after = chrono::Utc::now();
    assert_eq!(item.id(), "w1");
    assert_eq!(item.data(), &b"payload".to_vec());
    assert!(!item.instant_sent());
    assert!(!item.delay_sent());
    let lower = Timestamp::from_parts(before.timestamp(), before.timestamp_subsec_nanos());
    let upper = Timestamp::from_parts(after.timestamp(), after.timestamp_subsec_nanos());
    assert!(!item.received_at().is_before(lower));
    assert!(!upper.is_before(item.received_at()));
}

#[test]
fn later_items_are_not_stamped_earlier() {
    let first = PoolItem::new(String::from("w1"), Vec::new());
    let second = PoolItem::new(String::from("w1"), Vec::new());
    assert!(!second.received_at().is_before(first.received_at()));
    // later than 2020-01-01: a reading of the clock, not a default
    assert!(Timestamp::from_parts(1_577_836_800, 0).is_before(first.received_at()));
}

#[test]
fn instant_group_goes_out_first() {
    let cfg = config(5, &["http://a/i"], &["http://b/d"]);
    let mut item = hello_at(0);
    let requests = Pool::dispatch(&mut item, &cfg, Timestamp::from_millis(100));
    assert_eq!(requests, vec![delivery(Group::Instant, "http://a/i", b"hello")]);
    assert!(item.instant_sent());
    assert!(!item.delay_sent());
}

#[test]
fn delayed_group_waits_for_the_delay() {
    let cfg = config(5, &["http://a/i"], &["http://b/d"]);
    let mut item = hello_at(0);
    Pool::dispatch(&mut item, &cfg, Timestamp::from_millis(100));
    // at exactly five seconds the delay has not passed yet
    let at_five = Pool::dispatch(&mut item, &cfg, Timestamp::from_millis(5000));
    assert_eq!(at_five, vec![]);
    assert!(!item.delay_sent());
    let after_five = Pool::dispatch(&mut item, &cfg, Timestamp::from_millis(5100));
    assert_eq!(after_five, vec![delivery(Group::Delayed, "http://b/d", b"hello")]);
    assert!(item.delay_sent());
}

#[test]
fn both_groups_go_out_together_when_both_are_due() {
    let cfg = config(1, &["http://a/1", "http://a/2"], &["http://b/1", "http://b/2", "http://b/3"]);
    let mut item = hello_at(0);
    let requests = Pool::dispatch(&mut item, &cfg, Timestamp::from_millis(1001));
    assert_eq!(
        requests,
        vec![
            delivery(Group::Instant, "http://a/1", b"hello"),
            delivery(Group::Instant, "http://a/2", b"hello"),
            delivery(Group::Delayed, "http://b/1", b"hello"),
            delivery(Group::Delayed, "http://b/2", b"hello"),
            delivery(Group::Delayed, "http://b/3", b"hello"),
        ]
    );
    assert!(item.instant_sent());
    assert!(item.delay_sent());
}

#[test]
fn processing_again_issues_nothing_more() {
    let cfg = config(0, &["http://a/i"], &["http://b/d"]);
    let mut item = hello_at(0);
    let first = Pool::dispatch(&mut item, &cfg, Timestamp::from_millis(100));
    assert_eq!(first.len(), 2);
    let second = Pool::dispatch(&mut item, &cfg, Timestamp::from_millis(200));
    assert_eq!(second, vec![]);
    let third = Pool::dispatch(&mut item, &cfg, Timestamp::from_millis(99_000));
    assert_eq!(third, vec![]);
    assert!(item.instant_sent());
    assert!(item.delay_sent());
}

#[test]
fn instant_latch_is_set_without_endpoints() {
    let cfg = config(0, &[], &["http://b/d"]);
    let mut item = hello_at(0);
    let requests = Pool::dispatch(&mut item, &cfg, Timestamp::from_millis(100));
    assert_eq!(requests, vec![delivery(Group::Delayed, "http://b/d", b"hello")]);
    assert!(item.instant_sent());
    assert!(item.delay_sent());
}

#[test]
fn delayed_latch_is_set_without_endpoints() {
    let cfg = config(3, &["http://a/i"], &[]);
    let mut item = hello_at(0);
    let early = Pool::dispatch(&mut item, &cfg, Timestamp::from_millis(100));
    assert_eq!(early.len(), 1);
    assert!(!item.delay_sent());
    let late = Pool::dispatch(&mut item, &cfg, Timestamp::from_millis(3001));
    assert_eq!(late, vec![]);
    assert!(item.delay_sent());
}

#[test]
fn payload_travels_as_bytes() {
    let cfg = config(0, &["http://a/i"], &[]);
    let raw = vec![0xffu8, 0x00, 0xfe, b'{'];
    let mut item = PoolItem::stamped(String::from("w1"), raw.clone(), Timestamp::from_millis(0));
    let requests = Pool::dispatch(&mut item, &cfg, Timestamp::from_millis(0));
    assert_eq!(requests, vec![delivery(Group::Instant, "http://a/i", &raw)]);
    assert_eq!(item.data(), &raw);
}

#[test]
fn dispatch_keeps_id_time_and_payload() {
    let cfg = config(0, &["http://a/i"], &["http://b/d"]);
    let mut item = hello_at(42);
    Pool::dispatch(&mut item, &cfg, Timestamp::from_millis(1000));
    assert_eq!(item.id(), "w1");
    assert_eq!(item.received_at(), Timestamp::from_millis(42));
    assert_eq!(item.data(), &b"hello".to_vec());
}

#[test]
fn failed_lookup_leaves_the_item_alone() {
    let mut item = hello_at(0);
    let missing = Pool::process_pool_item(
        &mut item,
        &Err(ResolveError::NotFound),
        Timestamp::from_millis(9000),
    );
    assert_eq!(missing, Err(ResolveError::NotFound));
    assert!(!item.instant_sent());
    assert!(!item.delay_sent());
    let down = Pool::process_pool_item(
        &mut item,
        &Err(ResolveError::Unavailable),
        Timestamp::from_millis(9100),
    );
    assert_eq!(down, Err(ResolveError::Unavailable));
    assert!(!item.instant_sent());
    assert!(!item.delay_sent());
    assert_eq!(item.received_at(), Timestamp::from_millis(0));
}

#[test]
fn lookup_that_succeeds_late_is_processed_in_full() {
    let cfg = config(5, &["http://a/i"], &["http://b/d"]);
    let mut item = hello_at(0);
    let tick1 = Pool::process_pool_item(&mut item, &Err(ResolveError::Unavailable), Timestamp::from_millis(100));
    let tick2 = Pool::process_pool_item(&mut item, &Err(ResolveError::NotFound), Timestamp::from_millis(200));
    assert_eq!(tick1, Err(ResolveError::Unavailable));
    assert_eq!(tick2, Err(ResolveError::NotFound));
    assert!(!item.instant_sent());
    let tick3 = Pool::process_pool_item(&mut item, &Ok(cfg), Timestamp::from_millis(300));
    assert_eq!(tick3, Ok(vec![delivery(Group::Instant, "http://a/i", b"hello")]));
    assert!(item.instant_sent());
    assert!(!item.delay_sent());
}

#[test]
fn instant_group_goes_out_once_over_many_ticks() {
    let cfg = config(2, &["http://a/i"], &["http://b/d"]);
    let mut item = hello_at(0);
    let mut instant = 0;
    let mut delayed = 0;
    let mut tick = 0;
    while tick < 60 {
        let now = Timestamp::from_millis(100 * (tick + 1));
        // every third lookup fails
        let answer = if tick % 3 == 0 { Err(ResolveError::Unavailable) } else { Ok(config(2, &["http://a/i"], &["http://b/d"])) };
        if let Ok(requests) = Pool::process_pool_item(&mut item, &answer, now) {
            for request in requests {
                match request.group {
                    Group::Instant => instant += 1,
                    Group::Delayed => delayed += 1,
                }
            }
        }
        tick += 1;
    }
    assert_eq!(instant, 1);
    assert_eq!(delayed, 1);
    assert!(item.instant_sent());
    assert!(item.delay_sent());
    let _ = cfg;
}

#[test]
fn a_changed_configuration_is_read_afresh() {
    let mut item = hello_at(0);
    let first = config(10, &["http://a/i"], &["http://old/d"]);
    let early = Pool::process_pool_item(&mut item, &Ok(first), Timestamp::from_millis(100));
    assert_eq!(early, Ok(vec![delivery(Group::Instant, "http://a/i", b"hello")]));
    // the delay is cut to one second and the endpoint changed before the group is due
    let second = config(1, &["http://a/other"], &["http://new/d"]);
    let late = Pool::process_pool_item(&mut item, &Ok(second), Timestamp::from_millis(1100));
    assert_eq!(late, Ok(vec![delivery(Group::Delayed, "http://new/d", b"hello")]));
}
