//! The value broadcast: a coalescing "latest value" channel.
//!
//! One slot holds the most recent published value together with a
//! version counter.  Publishing replaces the value and bumps the
//! version; a subscription tracks the last version it observed, so
//! `changed` resolves exactly when something newer than what it saw
//! exists.  Nothing is ever reported lost, because only the latest value
//! matters: there is no backlog to fall behind.
//!
//! `changed` is a poll: it returns `None` where the asynchronous operation
//! would suspend, and the asynchronous shell around the library parks
//! the caller until the state can have changed.

use vstd::prelude::*;

use crate::ProducerExited;
use crate::activation::Activation;
use crate::activation::ActivationState;
use crate::activation::WaitPoll;
use crate::activation::all_unsubscribed_now;
use crate::activation::can_publish;
use crate::activation::close_step;
use crate::activation::exit_step;
use crate::activation::subscribe_step;
use crate::activation::unsubscribe_step;
use crate::activation::wait_step;

verus! {

/// Abstract state of one value broadcast instance.
pub ghost struct SignalState<T> {
    pub act: ActivationState,
    /// The latest published value (initially the construction value).
    pub value: T,
    /// Bumped once per effective publish.
    pub version: nat,
}

/// What publishing one value does: it replaces the stored value and
/// bumps the version, whether or not anyone is subscribed — a later
/// subscriber still sees the latest value.  Once no publish handle can
/// exist — producer exited, or the instance and with it every handle
/// dropped — publishing has no effect at all, so what a reader was told
/// about the end of the channel can never be revoked.
pub open spec fn value_publish_step<T>(s: SignalState<T>, value: T) -> SignalState<T> {
    if !can_publish(s.act) {
        s
    } else {
        SignalState { value: value, version: s.version + 1, ..s }
    }
}

/// Publishing a sequence of values, one after the other.
pub open spec fn value_publish_all<T>(s: SignalState<T>, values: Seq<T>) -> SignalState<T>
    decreases values.len(),
{
    if values.len() == 0 {
        s
    } else {
        value_publish_all(value_publish_step(s, values.first()), values.drop_first())
    }
}

/// What one poll of `changed` reports for a subscription that last
/// observed `seen`: ready once a newer version exists, terminal once
/// nothing can ever be published again and nothing newer remains,
/// suspended otherwise.
pub open spec fn changed_outcome<T>(s: SignalState<T>, seen: nat) -> Option<
    Result<(), ProducerExited>,
> {
    if seen < s.version {
        Some(Ok(()))
    } else if !can_publish(s.act) {
        Some(Err(ProducerExited))
    } else {
        None
    }
}

/// Where one poll of `changed` leaves the subscription's observed
/// version: caught up if it resolved, untouched otherwise.
pub open spec fn changed_seen<T>(s: SignalState<T>, seen: nat) -> nat {
    if seen < s.version {
        s.version
    } else {
        seen
    }
}

/// What one read of the value observes, and where it leaves the
/// subscription: always the current value, marked seen.  Reading
/// touches nothing in the channel.
pub open spec fn get_read<T>(s: SignalState<T>, seen: nat) -> (T, nat) {
    (s.value, s.version)
}

/// A caller's receive handle: the last version it observed.
pub struct Subscription {
    seen: u64,
}

impl Subscription {
    /// The channel version up to which this subscription has observed
    /// the value.
    pub closed spec fn seen(&self) -> nat {
        self.seen as nat
    }
}

/// One value broadcast instance.
pub struct Signal<T> {
    act: Activation,
    value: T,
    version: u64,
}

impl<T> View for Signal<T> {
    type V = SignalState<T>;

    closed spec fn view(&self) -> SignalState<T> {
        SignalState { act: self.act@, value: self.value, version: self.version as nat }
    }
}

impl<T> Signal<T> {
    /// A fresh instance carrying its initial value; the producer is
    /// dormant.
    pub fn new(initial: T) -> (s: Signal<T>)
        ensures
            s@ == (SignalState {
                act: ActivationState {
                    subscribers: 0,
                    handoff: false,
                    exited: false,
                    closed: false,
                },
                value: initial,
                version: 0,
            }),
    {
        Signal { act: Activation::new(), value: initial, version: 0 }
    }

    /// One subscription attempt.  The caller that takes the subscriber
    /// count from zero to one triggers the activation handoff; if the
    /// producer has already exited, the attempt reports that and leaves
    /// the state untouched.  A new subscription has the current value
    /// marked as seen — it reads it at once with `get`, and `changed`
    /// resolves only for something newer.
    pub fn subscribe(&mut self) -> (r: Result<Subscription, ProducerExited>)
        requires
            old(self)@.act.subscribers < usize::MAX,
        ensures
            final(self)@ == (SignalState { act: subscribe_step(old(self)@.act).0, ..old(self)@ }),
            r is Ok <==> subscribe_step(old(self)@.act).1,
            r matches Ok(sub) ==> sub.seen() == old(self)@.version,
    {
        match self.act.subscribe() {
            Ok(()) => Ok(Subscription { seen: self.version }),
            Err(exited) => Err(exited),
        }
    }

    /// Dropping a subscription: the count goes down by one; the epoch
    /// ends when it reaches zero.
    pub fn unsubscribe(&mut self, subscription: Subscription)
        requires
            old(self)@.act.subscribers > 0,
        ensures
            final(self)@ == (SignalState { act: unsubscribe_step(old(self)@.act), ..old(self)@ }),
    {
        let Subscription { seen: _ } = subscription;
        self.act.unsubscribe();
    }

    /// Publishes one value; never blocks, never fails, wakes every poll
    /// suspended in `changed`.
    pub fn publish(&mut self, value: T)
        requires
            old(self)@.version < u64::MAX,
        ensures
            final(self)@ == value_publish_step(old(self)@, value),
    {
        if self.act.can_publish() {
            self.value = value;
            self.version = self.version + 1;
        }
    }

    /// Conditional publish: the predicate inspects the stored value and
    /// either reports it unchanged — then nothing happens, in particular
    /// no pending `changed` poll becomes ready — or hands back a
    /// replacement, which is then published as usual.
    pub fn publish_with<F: Fn(&T) -> Option<T>>(&mut self, maybe_modify: F)
        requires
            old(self)@.version < u64::MAX,
            call_requires(maybe_modify, (&old(self)@.value,)),
        ensures
            !can_publish(old(self)@.act) ==> final(self)@ == old(self)@,
            can_publish(old(self)@.act) ==> exists|decision: Option<T>|
                {
                    &&& #[trigger] call_ensures(maybe_modify, (&old(self)@.value,), decision)
                    &&& match decision {
                        Some(replacement) => final(self)@ == value_publish_step(
                            old(self)@,
                            replacement,
                        ),
                        None => final(self)@ == old(self)@,
                    }
                },
    {
        if !self.act.can_publish() {
            return ;
        }
        let decision = maybe_modify(&self.value);
        match decision {
            Some(replacement) => {
                self.value = replacement;
                self.version = self.version + 1;
            },
            None => {},
        }
    }

    /// Reads the current value without waiting, marking it seen.
    /// Repeated calls with no effective publish in between return the
    /// same value: reading never changes the channel.
    pub fn get<'a>(&'a self, sub: &mut Subscription) -> (r: &'a T)
        ensures
            *r == get_read(self@, old(sub).seen()).0,
            final(sub).seen() == get_read(self@, old(sub).seen()).1,
    {
        sub.seen = self.version;
        &self.value
    }

    /// Like `get`, but hands the current value out as a clone of
    /// itself.
    pub fn get_cloned(&self, sub: &mut Subscription) -> (r: T) where T: Clone,
        ensures
            cloned(get_read(self@, old(sub).seen()).0, r),
            final(sub).seen() == get_read(self@, old(sub).seen()).1,
    {
        let current = self.get(sub);
        let duplicate = current.clone();
        proof {
            assert(cloned(*current, duplicate));
        }
        duplicate
    }

    /// Polls for a version newer than what this subscription observed.
    /// Returns `None` where the asynchronous operation suspends.
    pub fn changed(&self, sub: &mut Subscription) -> (r: Option<Result<(), ProducerExited>>)
        requires
            old(sub).seen() <= self@.version,
        ensures
            r == changed_outcome(self@, old(sub).seen()),
            final(sub).seen() == changed_seen(self@, old(sub).seen()),
            final(sub).seen() <= self@.version,
    {
        if sub.seen < self.version {
            sub.seen = self.version;
            Some(Ok(()))
        } else if !self.act.can_publish() {
            Some(Err(ProducerExited))
        } else {
            None
        }
    }

    /// Polls the producer's wait for the zero-subscriber condition.
    pub fn all_unsubscribed(&self) -> (r: bool)
        ensures
            r == all_unsubscribed_now(self@.act),
    {
        self.act.all_unsubscribed()
    }

    /// Number of live subscriptions.
    pub fn subscriber_count(&self) -> (n: usize)
        ensures
            n == self@.act.subscribers,
    {
        self.act.subscriber_count()
    }

    /// How many effective publishes there have been.
    pub fn version(&self) -> (n: u64)
        ensures
            n == self@.version,
    {
        self.version
    }

    /// Polls the producer's wait for its next activation handle.
    pub fn wait(&mut self) -> (r: WaitPoll)
        ensures
            final(self)@ == (SignalState { act: wait_step(old(self)@.act).0, ..old(self)@ }),
            r == wait_step(old(self)@.act).1,
    {
        self.act.wait()
    }

    /// Records that the producer task has returned; terminal.  Nothing
    /// can be published any more, and a caught-up reader's `changed` is
    /// told nothing more can come.
    pub fn record_exit(&mut self)
        ensures
            final(self)@ == (SignalState { act: exit_step(old(self)@.act), ..old(self)@ }),
    {
        self.act.record_exit();
    }

    /// Records that the instance has been dropped: `changed` becomes
    /// terminal once nothing newer remains to observe.
    pub fn close(&mut self)
        ensures
            final(self)@ == (SignalState { act: close_step(old(self)@.act), ..old(self)@ }),
    {
        self.act.close();
    }
}

/// Coalescing: publishing any number of values with nobody reading in
/// between leaves exactly the last one, and a subscription that then
/// polls `changed` wakes once and reads only that last value.
pub proof fn lemma_coalescing<T>(s: SignalState<T>, values: Seq<T>, seen: nat)
    requires
        values.len() > 0,
        can_publish(s.act),
        seen == s.version,
    ensures
        ({
            let s1 = value_publish_all(s, values);
            &&& s1.value == values.last()
            &&& s1.version == s.version + values.len()
            &&& s1.act == s.act
            &&& changed_outcome(s1, seen) == Some(Ok::<(), ProducerExited>(()))
            &&& changed_seen(s1, seen) == s1.version
        }),
    decreases values.len(),
{
    let s2 = value_publish_step(s, values.first());
    assert(value_publish_all(s, values) == value_publish_all(s2, values.drop_first()));
    if values.len() == 1 {
        assert(value_publish_all(s2, values.drop_first()) == s2);
        assert(values.last() == values.first());
    } else {
        lemma_coalescing(s2, values.drop_first(), s2.version);
        assert(values.drop_first().last() == values.last());
    }
}

/// Reading is repeatable: what a read observes does not depend on the
/// subscription's counter, and a read changes nothing a later read
/// could observe, so two reads with no publish in between return the
/// same value both times.
pub proof fn lemma_get_twice<T>(s: SignalState<T>, seen: nat)
    ensures
        ({
            let (first, seen_after) = get_read(s, seen);
            let (second, _) = get_read(s, seen_after);
            first == second
        }),
{
}

/// A conditional publish whose predicate reports "unchanged" must not
/// wake a pending `changed` poll, and one that reports "changed" must:
/// a caught-up subscription stays suspended across the former and
/// becomes ready across the latter.
pub proof fn lemma_publish_if_wake<T>(s: SignalState<T>, replacement: T, seen: nat)
    requires
        seen == s.version,
        can_publish(s.act),
    ensures
        changed_outcome(s, seen) is None,
        changed_outcome(value_publish_step(s, replacement), seen) == Some(
            Ok::<(), ProducerExited>(()),
        ),
{
}

/// `ProducerExited` is terminal: once a poll reports it, no publish has
/// any effect on the channel, and every later poll of that subscription
/// reports it again.
pub proof fn lemma_producer_exited_is_terminal<T>(s: SignalState<T>, value: T, seen: nat)
    requires
        changed_outcome(s, seen) == Some(Err::<(), ProducerExited>(ProducerExited)),
    ensures
        value_publish_step(s, value) == s,
        changed_outcome(value_publish_step(s, value), seen) == Some(
            Err::<(), ProducerExited>(ProducerExited),
        ),
        changed_seen(s, seen) == seen,
{
}

} // verus!
