use emitter_and_signal::ProducerExited;
use emitter_and_signal::activation::WaitPoll;
use emitter_and_signal::emitter::Emitter;
use emitter_and_signal::emitter::NextError;

#[test]
fn backlog_overflow_reports_skipped_then_survivors() {
    // Capacity 4, six items published before the subscription reads:
    // the first poll reports exactly two skipped items, then the four
    // survivors arrive in publish order.
    let mut em: Emitter<u64> = Emitter::new(4);
    let mut sub = em.listen().unwrap();
    for v in 1..=6u64 {
        em.publish(v);
    }
    assert_eq!(
        em.next(&mut sub),
        Some(Err(NextError::Lagged { skipped_events: 2 }))
    );
    assert_eq!(em.next(&mut sub), Some(Ok(&3)));
    assert_eq!(em.next(&mut sub), Some(Ok(&4)));
    assert_eq!(em.next(&mut sub), Some(Ok(&5)));
    assert_eq!(em.next(&mut sub), Some(Ok(&6)));
    assert_eq!(em.next(&mut sub), None);
}

#[test]
fn overflow_by_one_skips_one() {
    let mut em: Emitter<u64> = Emitter::new(2);
    let mut sub = em.listen().unwrap();
    em.publish(10);
    em.publish(20);
    em.publish(30);
    assert_eq!(
        em.next(&mut sub),
        Some(Err(NextError::Lagged { skipped_events: 1 }))
    );
    assert_eq!(em.next(&mut sub), Some(Ok(&20)));
    assert_eq!(em.next(&mut sub), Some(Ok(&30)));
    assert_eq!(em.next(&mut sub), None);
}

#[test]
fn keeping_up_sees_every_item_in_order() {
    // A subscription that reads as fast as items are published never
    // observes a lag and sees each item exactly once, in order.
    let mut em: Emitter<u64> = Emitter::new(2);
    let mut sub = em.listen().unwrap();
    for v in 0..100u64 {
        em.publish(v);
        assert_eq!(em.next(&mut sub), Some(Ok(&v)));
        assert_eq!(em.next(&mut sub), None);
    }
}

#[test]
fn publish_with_no_subscriber_is_discarded() {
    let mut em: Emitter<u64> = Emitter::new(4);
    em.publish(1);
    em.publish(2);
    let mut sub = em.listen().unwrap();
    assert_eq!(em.next(&mut sub), None);
}

#[test]
fn late_subscription_starts_now() {
    let mut em: Emitter<u64> = Emitter::new(4);
    let mut first = em.listen().unwrap();
    em.publish(1);
    em.publish(2);
    let mut late = em.listen().unwrap();
    em.publish(3);
    assert_eq!(em.next(&mut late), Some(Ok(&3)));
    assert_eq!(em.next(&mut late), None);
    assert_eq!(em.next(&mut first), Some(Ok(&1)));
    assert_eq!(em.next(&mut first), Some(Ok(&2)));
    assert_eq!(em.next(&mut first), Some(Ok(&3)));
}

#[test]
fn epoch_cycle_hands_off_exactly_once() {
    // Dropping the sole subscription resolves the producer's wait for
    // zero subscribers; a later subscription triggers exactly one new
    // activation handoff.
    let mut em: Emitter<u64> = Emitter::new(4);
    assert_eq!(em.wait(), WaitPoll::Pending);

    let sub = em.listen().unwrap();
    assert_eq!(em.wait(), WaitPoll::Activated);
    assert_eq!(em.wait(), WaitPoll::Pending);
    assert!(!em.all_unsubscribed());

    em.unsubscribe(sub);
    assert!(em.all_unsubscribed());

    let second = em.listen().unwrap();
    assert_eq!(em.wait(), WaitPoll::Activated);
    assert_eq!(em.wait(), WaitPoll::Pending);
    em.unsubscribe(second);
}

#[test]
fn second_subscriber_does_not_reactivate() {
    let mut em: Emitter<u64> = Emitter::new(4);
    let first = em.listen().unwrap();
    let second = em.listen().unwrap();
    assert_eq!(em.wait(), WaitPoll::Activated);
    assert_eq!(em.wait(), WaitPoll::Pending);
    em.unsubscribe(first);
    assert!(!em.all_unsubscribed());
    em.unsubscribe(second);
    assert!(em.all_unsubscribed());
}

#[test]
fn resubscribe_fails_only_after_producer_exit() {
    // Resubscribing after all subscribers dropped never reports
    // ProducerExited unless the producer task has actually returned.
    let mut em: Emitter<u64> = Emitter::new(4);
    let sub = em.listen().unwrap();
    em.unsubscribe(sub);
    let again = em.listen().unwrap();
    em.unsubscribe(again);

    em.record_exit();
    assert!(matches!(em.listen(), Err(ProducerExited)));
}

#[test]
fn existing_subscribers_survive_producer_exit() {
    let mut em: Emitter<u64> = Emitter::new(4);
    let _sub = em.listen().unwrap();
    em.record_exit();
    // While subscribers remain, further subscriptions need no
    // activation and still succeed.
    assert!(em.listen().is_ok());
}

#[test]
fn next_cloned_hands_out_owned_items() {
    let mut em: Emitter<String> = Emitter::new(2);
    let mut sub = em.listen().unwrap();
    em.publish(String::from("on"));
    em.publish(String::from("off"));
    assert_eq!(em.next_cloned(&mut sub), Some(Ok(String::from("on"))));
    // The item stays in the ring: a reader that got a clone did not
    // consume it for anyone else.
    let mut other = em.listen().unwrap();
    em.publish(String::from("on"));
    assert_eq!(em.next_cloned(&mut other), Some(Ok(String::from("on"))));
    assert_eq!(em.next_cloned(&mut sub), Some(Ok(String::from("off"))));
    assert_eq!(em.next_cloned(&mut sub), Some(Ok(String::from("on"))));
}

#[test]
fn producer_exit_is_terminal_for_a_drained_reader() {
    let mut em: Emitter<u64> = Emitter::new(4);
    let mut sub = em.listen().unwrap();
    assert_eq!(em.wait(), WaitPoll::Activated);
    em.publish(1);
    em.record_exit();
    // The retained item is still delivered; then the end is reported,
    // and reported again on every later poll.
    assert_eq!(em.next(&mut sub), Some(Ok(&1)));
    assert_eq!(
        em.next(&mut sub),
        Some(Err(NextError::ProducerExited(ProducerExited)))
    );
    // A publish after the producer's exit has no effect: the error
    // cannot be revoked.
    em.publish(2);
    assert_eq!(
        em.next(&mut sub),
        Some(Err(NextError::ProducerExited(ProducerExited)))
    );
}

#[test]
fn publish_after_close_has_no_effect() {
    let mut em: Emitter<u64> = Emitter::new(4);
    let mut sub = em.listen().unwrap();
    assert_eq!(em.wait(), WaitPoll::Activated);
    em.close();
    em.publish(1);
    assert_eq!(
        em.next(&mut sub),
        Some(Err(NextError::ProducerExited(ProducerExited)))
    );
}

#[test]
fn no_subscription_after_close() {
    let mut em: Emitter<u64> = Emitter::new(4);
    em.close();
    // The producer's stream has ended for good...
    assert_eq!(em.wait(), WaitPoll::Finished);
    assert_eq!(em.wait(), WaitPoll::Finished);
    // ...and no subscription can ever be made again.
    assert!(matches!(em.listen(), Err(ProducerExited)));
}

#[test]
fn close_drains_then_reports_exit() {
    let mut em: Emitter<u64> = Emitter::new(4);
    let mut sub = em.listen().unwrap();
    assert_eq!(em.wait(), WaitPoll::Activated);
    em.publish(7);
    em.publish(8);
    em.close();
    assert_eq!(em.next(&mut sub), Some(Ok(&7)));
    assert_eq!(em.next(&mut sub), Some(Ok(&8)));
    assert_eq!(
        em.next(&mut sub),
        Some(Err(NextError::ProducerExited(ProducerExited)))
    );
    assert_eq!(em.wait(), WaitPoll::Finished);
}
