use emitter_and_signal::ProducerExited;
use emitter_and_signal::activation::WaitPoll;
use emitter_and_signal::signal::Signal;

#[test]
fn get_twice_returns_the_same_value() {
    // Two reads with no intervening wake-up observe the same value.
    let mut sig: Signal<u64> = Signal::new(11);
    let mut sub = sig.subscribe().unwrap();
    let first = *sig.get(&mut sub);
    let second = *sig.get(&mut sub);
    assert_eq!(first, 11);
    assert_eq!(second, 11);
}

#[test]
fn coalescing_observes_only_the_latest_value() {
    // Five publishes with nobody reading in between: one wake-up, and
    // only the fifth value is observed.
    let mut sig: Signal<u64> = Signal::new(0);
    let mut sub = sig.subscribe().unwrap();
    for v in 1..=5u64 {
        sig.publish(v);
    }
    assert_eq!(sig.changed(&mut sub), Some(Ok(())));
    assert_eq!(*sig.get(&mut sub), 5);
    assert_eq!(sig.changed(&mut sub), None);
}

#[test]
fn new_subscriber_sees_current_value_immediately() {
    let mut sig: Signal<u64> = Signal::new(1);
    sig.publish(2);
    let mut sub = sig.subscribe().unwrap();
    // The current value is read without waiting, and is already marked
    // seen: nothing newer exists yet.
    assert_eq!(*sig.get(&mut sub), 2);
    assert_eq!(sig.changed(&mut sub), None);
    sig.unsubscribe(sub);
}

#[test]
fn publish_if_unchanged_does_not_wake() {
    let mut sig: Signal<u64> = Signal::new(3);
    let mut sub = sig.subscribe().unwrap();
    assert_eq!(sig.changed(&mut sub), None);

    // The predicate reports "unchanged": no wake-up.
    sig.publish_with(|_current: &u64| None);
    assert_eq!(sig.changed(&mut sub), None);
    assert_eq!(*sig.get(&mut sub), 3);

    // The predicate reports "changed": the pending poll wakes.
    sig.publish_with(|current: &u64| Some(*current + 1));
    assert_eq!(sig.changed(&mut sub), Some(Ok(())));
    assert_eq!(*sig.get(&mut sub), 4);
}

#[test]
fn get_cloned_hands_out_an_owned_value() {
    let mut sig: Signal<String> = Signal::new(String::from("dark"));
    let mut sub = sig.subscribe().unwrap();
    assert_eq!(sig.get_cloned(&mut sub), "dark");
    sig.publish(String::from("bright"));
    // The channel keeps its value; the caller got a copy of its own.
    let owned = sig.get_cloned(&mut sub);
    assert_eq!(owned, "bright");
    assert_eq!(sig.get_cloned(&mut sub), "bright");
}

#[test]
fn signal_epoch_cycle_hands_off_exactly_once() {
    let mut sig: Signal<u64> = Signal::new(0);
    assert_eq!(sig.wait(), WaitPoll::Pending);

    let sub = sig.subscribe().unwrap();
    assert_eq!(sig.wait(), WaitPoll::Activated);
    assert_eq!(sig.wait(), WaitPoll::Pending);
    assert!(!sig.all_unsubscribed());

    sig.unsubscribe(sub);
    assert!(sig.all_unsubscribed());

    let second = sig.subscribe().unwrap();
    assert_eq!(sig.wait(), WaitPoll::Activated);
    assert_eq!(sig.wait(), WaitPoll::Pending);
    sig.unsubscribe(second);
}

#[test]
fn signal_resubscribe_fails_only_after_producer_exit() {
    let mut sig: Signal<u64> = Signal::new(0);
    let sub = sig.subscribe().unwrap();
    sig.unsubscribe(sub);
    let again = sig.subscribe().unwrap();
    sig.unsubscribe(again);

    sig.record_exit();
    assert!(matches!(sig.subscribe(), Err(ProducerExited)));
}

#[test]
fn publish_without_subscribers_still_updates_the_value() {
    let mut sig: Signal<u64> = Signal::new(1);
    sig.publish(9);
    let mut sub = sig.subscribe().unwrap();
    assert_eq!(*sig.get(&mut sub), 9);
}

#[test]
fn producer_exit_is_terminal_for_a_caught_up_reader() {
    let mut sig: Signal<u64> = Signal::new(1);
    let mut sub = sig.subscribe().unwrap();
    assert_eq!(sig.wait(), WaitPoll::Activated);
    sig.publish(2);
    sig.record_exit();
    // The unseen value is still observed; then the end is reported,
    // and reported again on every later poll.
    assert_eq!(sig.changed(&mut sub), Some(Ok(())));
    assert_eq!(*sig.get(&mut sub), 2);
    assert_eq!(sig.changed(&mut sub), Some(Err(ProducerExited)));
    // A publish after the producer's exit has no effect: the error
    // cannot be revoked, and the value stays what it was.
    sig.publish(9);
    assert_eq!(sig.changed(&mut sub), Some(Err(ProducerExited)));
    assert_eq!(*sig.get(&mut sub), 2);
}

#[test]
fn signal_no_subscription_after_close() {
    let mut sig: Signal<u64> = Signal::new(0);
    sig.close();
    assert_eq!(sig.wait(), WaitPoll::Finished);
    assert!(matches!(sig.subscribe(), Err(ProducerExited)));
}

#[test]
fn close_reports_exit_once_caught_up() {
    let mut sig: Signal<u64> = Signal::new(1);
    let mut sub = sig.subscribe().unwrap();
    assert_eq!(sig.wait(), WaitPoll::Activated);
    sig.publish(2);
    sig.close();
    // The unseen value is still observed first; only then is the end
    // reported.
    assert_eq!(sig.changed(&mut sub), Some(Ok(())));
    assert_eq!(*sig.get(&mut sub), 2);
    assert_eq!(sig.changed(&mut sub), Some(Err(ProducerExited)));
    assert_eq!(sig.wait(), WaitPoll::Finished);
}
