use logid::log_id::{LogId, LogLevel};
use logid::publisher::{SubscriptionKey, Subscriptions};

#[test]
fn subscribers_in_order_of_subscription() {
    let a = LogId::new("m", "a", LogLevel::Info);
    let b = LogId::new("m", "b", LogLevel::Info);
    let mut subs = Subscriptions::new();
    subs.subscribe_to_crates(&vec![("crate_x", vec![a, b])], 0);
    subs.subscribe_to_crates(&vec![("crate_x", vec![a]), ("crate_y", vec![a])], 1);
    subs.subscribe(SubscriptionKey::new("crate_x", a), 2);
    subs.subscribe_to_all_events(7);
    assert_eq!(subs.subscribers(&SubscriptionKey::new("crate_x", a)), vec![0, 1, 2]);
    assert_eq!(subs.subscribers(&SubscriptionKey::new("crate_x", b)), vec![0]);
    assert_eq!(subs.subscribers(&SubscriptionKey::new("crate_y", a)), vec![1]);
    assert_eq!(subs.subscribers(&SubscriptionKey::new("crate_y", b)), Vec::<usize>::new());
    assert_eq!(subs.all_event_subscribers(), &vec![7]);
}

#[test]
fn undelivered_subscribers_are_dropped_in_order() {
    let a = LogId::new("m", "a", LogLevel::Info);
    let key = SubscriptionKey::new("crate_x", a);
    let mut subs = Subscriptions::new();
    for s in 0..5 {
        subs.subscribe(SubscriptionKey::new("crate_x", a), s);
    }
    // Two dead channels; the subscriber past the outcomes subscribed later and stays.
    subs.remove_undelivered(&key, &vec![true, false, false, true]);
    assert_eq!(subs.subscribers(&key), vec![0, 3, 4]);
    subs.remove_undelivered(&key, &vec![true, true, true]);
    assert_eq!(subs.subscribers(&key), vec![0, 3, 4]);
    subs.subscribe_to_all_events(5);
    subs.subscribe_to_all_events(6);
    subs.remove_undelivered_any(&vec![false, true]);
    assert_eq!(subs.all_event_subscribers(), &vec![6]);
    let other = SubscriptionKey::new("crate_z", a);
    subs.remove_undelivered(&other, &vec![false]);
    assert_eq!(subs.subscribers(&other), Vec::<usize>::new());
    assert_eq!(subs.subscribers(&key), vec![0, 3, 4]);
}

#[test]
fn subscribing_to_logs_of_one_crate() {
    let a = LogId::new("m", "a", LogLevel::Info);
    let b = LogId::new("m", "b", LogLevel::Warn);
    let mut one = Subscriptions::new();
    one.subscribe_to_logs("crate_x", vec![a, b, a], 3);
    let mut list = Subscriptions::new();
    list.subscribe_to_crates(&vec![("crate_x", vec![a, b, a])], 3);
    for id in [a, b] {
        let key = SubscriptionKey::new("crate_x", id);
        assert_eq!(one.subscribers(&key), list.subscribers(&key));
    }
    assert_eq!(one.subscribers(&SubscriptionKey::new("crate_x", a)), vec![3, 3]);
}
