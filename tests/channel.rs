use rust_snippets::channel::{make_channel, recv, send, Capacity, ChannelClosed, SendAfterClose};
use rust_snippets::drain::{checksum, Drain, DrainStep};

fn drain_all(rx: &crossbeam_channel::Receiver<u64>) -> Drain {
    let mut drain = Drain::new();
    while drain.step(recv(rx)) == DrainStep::Continue {}
    drain
}

#[test]
fn unbounded_channel_sums_every_message_once() {
    let (tx, rx) = make_channel::<u64>(Capacity::Unbounded);
    let senders: Vec<_> = (1..10u64).map(|_| tx.clone()).collect();
    drop(tx);
    for (i, s) in (1..10u64).zip(senders.iter()) {
        send(s, i * 10).unwrap();
    }
    drop(senders);
    let drain = drain_all(&rx);
    assert_eq!(drain.received(), &vec![10, 20, 30, 40, 50, 60, 70, 80, 90]);
    assert_eq!(drain.checksum(), Some(450));
}

#[test]
fn bounded_one_channel_takes_both_sends() {
    let (tx, rx) = make_channel::<u64>(Capacity::Bounded(1));
    let second = tx.clone();
    send(&tx, 1).unwrap();
    drop(tx);
    let mut drain = Drain::new();
    assert_eq!(drain.step(recv(&rx)), DrainStep::Continue);
    send(&second, 2).unwrap();
    drop(second);
    while drain.step(recv(&rx)) == DrainStep::Continue {}
    assert_eq!(drain.received(), &vec![1, 2]);
    assert_eq!(drain.checksum(), Some(3));
}

#[test]
fn rendezvous_channel_without_peer_does_not_block() {
    let (s1, r1) = make_channel::<u64>(Capacity::Bounded(0));
    drop(r1);
    assert_eq!(send(&s1, 1), Err(SendAfterClose(1)));
    let (s2, r2) = make_channel::<u64>(Capacity::Bounded(0));
    drop(s2);
    assert_eq!(recv(&r2), Err(ChannelClosed));
}

#[test]
fn recv_on_closed_channel_fails() {
    let (tx, rx) = make_channel::<u64>(Capacity::Unbounded);
    send(&tx, 5).unwrap();
    drop(tx);
    assert_eq!(recv(&rx), Ok(5));
    assert_eq!(recv(&rx), Err(ChannelClosed));
}

#[test]
fn send_without_receiver_hands_the_message_back() {
    let (tx, rx) = make_channel::<u64>(Capacity::Bounded(3));
    drop(rx);
    assert_eq!(send(&tx, 77), Err(SendAfterClose(77)));
}

#[test]
fn drain_stops_at_close_and_ignores_later_events() {
    let mut drain = Drain::new();
    assert_eq!(drain.step(Ok(3)), DrainStep::Continue);
    assert_eq!(drain.step(Ok(4)), DrainStep::Continue);
    assert!(!drain.is_closed());
    assert_eq!(drain.step(Err(ChannelClosed)), DrainStep::Finished);
    assert!(drain.is_closed());
    assert_eq!(drain.step(Ok(9)), DrainStep::Finished);
    assert_eq!(drain.received(), &vec![3, 4]);
    assert_eq!(drain.checksum(), Some(7));
}

#[test]
fn drain_of_empty_closed_channel_finishes_at_once() {
    let (tx, rx) = make_channel::<u64>(Capacity::Unbounded);
    drop(tx);
    let drain = drain_all(&rx);
    assert!(drain.received().is_empty());
    assert_eq!(drain.checksum(), Some(0));
}

#[test]
fn checksum_exact_and_overflow() {
    let values: Vec<u64> = (1..10u64).map(|i| i * 10).collect();
    assert_eq!(checksum(&values), Some(450));
    assert_eq!(checksum(&vec![90, 10, 80, 20, 70, 30, 60, 40, 50]), Some(450));
    assert_eq!(checksum(&Vec::new()), Some(0));
    assert_eq!(checksum(&vec![u64::MAX, 0]), Some(u64::MAX));
    assert_eq!(checksum(&vec![u64::MAX, 1]), None);
    assert_eq!(checksum(&vec![1, u64::MAX, 0]), None);
}
