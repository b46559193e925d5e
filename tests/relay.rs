use chatoy::relay::Relay;

fn drain(relay: &mut Relay<u32>, id: usize) -> Vec<u32> {
    let mut out = Vec::new();
    while let Some(m) = relay.recv(id) {
        out.push(*m);
    }
    out
}

#[test]
fn subscriber_sees_only_later_messages() {
    let mut relay = Relay::new(256);
    relay.publish(1u32);
    let id = relay.subscribe();
    relay.publish(2);
    relay.publish(3);
    assert_eq!(drain(&mut relay, id), vec![2, 3]);
    assert_eq!(relay.recv(id), None);
}

#[test]
fn publish_without_subscribers_reaches_nobody() {
    let mut relay = Relay::new(4);
    relay.publish(7u32);
    let id = relay.subscribe();
    assert_eq!(relay.recv(id), None);
    assert_eq!(relay.published_count(), 1);
}

#[test]
fn full_queue_drops_oldest() {
    let mut relay = Relay::new(3);
    let id = relay.subscribe();
    for m in 1u32..=5 {
        relay.publish(m);
    }
    assert_eq!(drain(&mut relay, id), vec![3, 4, 5]);
}

#[test]
fn backlog_never_exceeds_capacity() {
    let mut relay = Relay::new(8);
    let slow = relay.subscribe();
    for m in 0u32..100 {
        relay.publish(m);
    }
    let got = drain(&mut relay, slow);
    assert_eq!(got.len(), 8);
    assert_eq!(got, (92u32..100).collect::<Vec<_>>());
}

#[test]
fn subscribers_keep_publish_order_with_gaps() {
    let mut relay = Relay::new(2);
    let fast = relay.subscribe();
    let slow = relay.subscribe();
    let mut fast_got = Vec::new();
    for m in 0u32..6 {
        relay.publish(m);
        fast_got.extend(drain(&mut relay, fast));
    }
    assert_eq!(fast_got, vec![0, 1, 2, 3, 4, 5]);
    assert_eq!(drain(&mut relay, slow), vec![4, 5]);
}

#[test]
fn unsubscribe_closes_handle() {
    let mut relay = Relay::new(4);
    let a = relay.subscribe();
    let b = relay.subscribe();
    assert!(relay.is_subscribed(a));
    relay.unsubscribe(a);
    assert!(!relay.is_subscribed(a));
    assert!(relay.is_subscribed(b));
    relay.publish(9u32);
    assert_eq!(drain(&mut relay, b), vec![9]);
    assert_eq!(relay.capacity(), 4);
}
