//! The event broadcast: discrete values delivered to many subscribers
//! through a bounded backlog.
//!
//! All subscriptions of one instance share a ring of the most recently
//! published items, at most `capacity` of them; each subscription keeps
//! its own cursor into the sequence of everything published.  Publishing
//! never blocks and never fails: with no subscriber it silently does
//! nothing, and with a full ring it overwrites the oldest item.  A
//! subscription whose cursor has fallen behind the oldest surviving item
//! is told how many items it irrecoverably missed, resynchronised, and
//! then reads on normally.
//!
//! `next` is a poll: it returns `None` where the asynchronous operation
//! would suspend, and the asynchronous shell around the library parks
//! the caller until the state can have changed.

use vstd::prelude::*;

use crate::ProducerExited;
use crate::activation::Activation;
use crate::activation::ActivationState;
use crate::activation::WaitPoll;
use crate::activation::all_unsubscribed_now;
use crate::activation::can_publish;
use crate::activation::close_step;
use crate::activation::exit_step;
use crate::activation::subscribe_step;
use crate::activation::unsubscribe_step;
use crate::activation::wait_step;

verus! {

/// Abstract state of one event broadcast instance: the activation
/// protocol, the bound on the backlog, the full sequence of items ever
/// accepted, and how many of them have been overwritten.
pub ghost struct EmitterState<T> {
    pub act: ActivationState,
    /// Maximum number of unread items retained; at least one.
    pub capacity: nat,
    /// Every item accepted by `publish` so far, in publish order.  The
    /// ring retains its suffix starting at `dropped`.
    pub log: Seq<T>,
    /// Number of items overwritten and gone forever.
    pub dropped: nat,
}

impl<T> EmitterState<T> {
    pub open spec fn wf(self) -> bool {
        &&& 1 <= self.capacity
        &&& self.dropped <= self.log.len()
        &&& self.log.len() - self.dropped <= self.capacity
        &&& self.log.len() <= u64::MAX
    }

    /// The items still available to a reader: the retained suffix.
    pub open spec fn available(self) -> Seq<T> {
        self.log.skip(self.dropped as int)
    }
}

/// What publishing one item does.  With no subscriber the item is
/// discarded without a trace, and once no publish handle can exist —
/// producer exited, or the instance and with it every handle dropped —
/// publishing has no effect at all, so what a reader was told about the
/// end of the channel can never be revoked.  Otherwise the item is
/// appended, overwriting the oldest retained item when the ring is
/// full.
pub open spec fn publish_step<T>(s: EmitterState<T>, event: T) -> EmitterState<T> {
    if s.act.subscribers == 0 || !can_publish(s.act) {
        s
    } else {
        EmitterState {
            log: s.log.push(event),
            dropped: if s.log.len() - s.dropped == s.capacity {
                s.dropped + 1
            } else {
                s.dropped
            },
            ..s
        }
    }
}

/// Publishing a sequence of items, one after the other.
pub open spec fn publish_all<T>(s: EmitterState<T>, events: Seq<T>) -> EmitterState<T>
    decreases events.len(),
{
    if events.len() == 0 {
        s
    } else {
        publish_all(publish_step(s, events.first()), events.drop_first())
    }
}

/// What one poll of `next` reports for a subscription cursor.
pub ghost enum NextOutcome<T> {
    /// Nothing unread and the channel may still produce: suspend.
    Pending,
    /// The next unread item, in publish order.
    Item(T),
    /// The cursor fell behind the oldest retained item; this many items
    /// are irrecoverably gone.
    Lagged(nat),
    /// Nothing unread and nothing can ever be published again.
    Exited,
}

pub open spec fn next_outcome<T>(s: EmitterState<T>, cursor: nat) -> NextOutcome<T> {
    if cursor < s.dropped {
        NextOutcome::Lagged((s.dropped - cursor) as nat)
    } else if cursor < s.log.len() {
        NextOutcome::Item(s.log[cursor as int])
    } else if !can_publish(s.act) {
        NextOutcome::Exited
    } else {
        NextOutcome::Pending
    }
}

/// Where one poll of `next` leaves the cursor: resynchronised to the
/// oldest retained item after a lag, advanced past a delivered item,
/// untouched otherwise.
pub open spec fn next_cursor<T>(s: EmitterState<T>, cursor: nat) -> nat {
    if cursor < s.dropped {
        s.dropped
    } else if cursor < s.log.len() {
        cursor + 1
    } else {
        cursor
    }
}

/// Why a poll of `next` did not deliver an item.
#[derive(Debug, Clone, Copy, PartialEq, Eq, Structural)]
pub enum NextError {
    /// Terminal: no unread item remains and none can ever be published.
    ProducerExited(ProducerExited),
    /// Advisory: this many items were overwritten before being read.
    /// Always at least one; the subscription has been resynchronised and
    /// the next poll reads the oldest surviving item.
    Lagged { skipped_events: u64 },
}

/// A caller's receive handle: a cursor into the published sequence.
pub struct Subscription {
    cursor: u64,
}

impl Subscription {
    /// Position in the published sequence up to which this subscription
    /// has read.
    pub closed spec fn cursor(&self) -> nat {
        self.cursor as nat
    }
}

/// One event broadcast instance.
pub struct Emitter<T> {
    act: Activation,
    capacity: usize,
    buffer: Vec<T>,
    dropped: u64,
    log: Ghost<Seq<T>>,
}

impl<T> View for Emitter<T> {
    type V = EmitterState<T>;

    closed spec fn view(&self) -> EmitterState<T> {
        EmitterState {
            act: self.act@,
            capacity: self.capacity as nat,
            log: self.log@,
            dropped: self.dropped as nat,
        }
    }
}

impl<T> Emitter<T> {
    /// The ring holds exactly the retained suffix of the log.
    pub closed spec fn wf(&self) -> bool {
        &&& self@.wf()
        &&& self.buffer@ == self@.available()
    }

    /// A fresh instance with the given backlog capacity.  The producer
    /// is dormant; nothing has been published.
    pub fn new(capacity: usize) -> (em: Emitter<T>)
        requires
            1 <= capacity,
        ensures
            em.wf(),
            em@ == (EmitterState {
                act: ActivationState {
                    subscribers: 0,
                    handoff: false,
                    exited: false,
                    closed: false,
                },
                capacity: capacity as nat,
                log: Seq::<T>::empty(),
                dropped: 0,
            }),
    {
        let em = Emitter {
            act: Activation::new(),
            capacity,
            buffer: Vec::new(),
            dropped: 0,
            log: Ghost(Seq::empty()),
        };
        proof {
            assert(em.buffer@ =~= em.log@.skip(0));
        }
        em
    }

    /// One subscription attempt.  The caller that takes the subscriber
    /// count from zero to one triggers the activation handoff; if the
    /// producer has already exited, the attempt reports that and leaves
    /// the state untouched.  A new subscription starts at the present
    /// end of the published sequence: it sees only what is published
    /// after it.
    pub fn listen(&mut self) -> (r: Result<Subscription, ProducerExited>)
        requires
            old(self).wf(),
            old(self)@.act.subscribers < usize::MAX,
        ensures
            final(self).wf(),
            final(self)@ == (EmitterState { act: subscribe_step(old(self)@.act).0, ..old(self)@ }),
            r is Ok <==> subscribe_step(old(self)@.act).1,
            r matches Ok(sub) ==> sub.cursor() == old(self)@.log.len(),
    {
        match self.act.subscribe() {
            Ok(()) => Ok(Subscription { cursor: self.dropped + self.buffer.len() as u64 }),
            Err(exited) => Err(exited),
        }
    }

    /// Dropping a subscription: the count goes down by one; the epoch
    /// ends when it reaches zero.
    pub fn unsubscribe(&mut self, subscription: Subscription)
        requires
            old(self).wf(),
            old(self)@.act.subscribers > 0,
        ensures
            final(self).wf(),
            final(self)@ == (EmitterState { act: unsubscribe_step(old(self)@.act), ..old(self)@ }),
    {
        let Subscription { cursor: _ } = subscription;
        self.act.unsubscribe();
    }

    /// Publishes one item; never blocks, never fails.
    pub fn publish(&mut self, event: T)
        requires
            old(self).wf(),
            old(self)@.log.len() < u64::MAX,
        ensures
            final(self).wf(),
            final(self)@ == publish_step(old(self)@, event),
    {
        if self.act.subscriber_count() > 0 && self.act.can_publish() {
            if self.buffer.len() == self.capacity {
                self.buffer.remove(0);
                self.dropped = self.dropped + 1;
            }
            self.buffer.push(event);
            self.log = Ghost(self.log@.push(event));
            proof {
                assert(self.buffer@ =~= self.log@.skip(self.dropped as int));
            }
        }
    }

    /// Polls the producer's wait for the zero-subscriber condition.
    pub fn all_unsubscribed(&self) -> (r: bool)
        ensures
            r == all_unsubscribed_now(self@.act),
    {
        self.act.all_unsubscribed()
    }

    /// Number of live subscriptions.
    pub fn subscriber_count(&self) -> (n: usize)
        ensures
            n == self@.act.subscribers,
    {
        self.act.subscriber_count()
    }

    /// How many items have been accepted so far.
    pub fn published(&self) -> (n: u64)
        requires
            self.wf(),
        ensures
            n == self@.log.len(),
    {
        self.dropped + self.buffer.len() as u64
    }

    /// Polls the producer's wait for its next activation handle.
    pub fn wait(&mut self) -> (r: WaitPoll)
        requires
            old(self).wf(),
        ensures
            final(self).wf(),
            final(self)@ == (EmitterState { act: wait_step(old(self)@.act).0, ..old(self)@ }),
            r == wait_step(old(self)@.act).1,
    {
        self.act.wait()
    }

    /// Records that the producer task has returned; terminal.  Nothing
    /// can be published any more, and a reader that has drained the
    /// retained items is told nothing more can come.
    pub fn record_exit(&mut self)
        requires
            old(self).wf(),
        ensures
            final(self).wf(),
            final(self)@ == (EmitterState { act: exit_step(old(self)@.act), ..old(self)@ }),
    {
        self.act.record_exit();
    }

    /// Records that the instance has been dropped: once the retained
    /// items are read out, readers are told nothing more can come.
    pub fn close(&mut self)
        requires
            old(self).wf(),
        ensures
            final(self).wf(),
            final(self)@ == (EmitterState { act: close_step(old(self)@.act), ..old(self)@ }),
    {
        self.act.close();
    }

    /// Polls for the subscription's next item.  Returns `None` where the
    /// asynchronous operation suspends: nothing unread yet, but more may
    /// come.
    pub fn next<'a>(&'a self, sub: &mut Subscription) -> (r: Option<Result<&'a T, NextError>>)
        requires
            self.wf(),
            old(sub).cursor() <= self@.log.len(),
        ensures
            final(sub).cursor() == next_cursor(self@, old(sub).cursor()),
            final(sub).cursor() <= self@.log.len(),
            match r {
                None => next_outcome(self@, old(sub).cursor()) is Pending,
                Some(Ok(v)) => next_outcome(self@, old(sub).cursor()) == NextOutcome::Item(*v),
                Some(Err(NextError::Lagged { skipped_events })) => skipped_events > 0
                    && next_outcome(self@, old(sub).cursor()) == NextOutcome::<T>::Lagged(
                    skipped_events as nat,
                ),
                Some(Err(NextError::ProducerExited(_))) => next_outcome(
                    self@,
                    old(sub).cursor(),
                ) is Exited,
            },
    {
        if sub.cursor < self.dropped {
            let skipped: u64 = self.dropped - sub.cursor;
            sub.cursor = self.dropped;
            Some(Err(NextError::Lagged { skipped_events: skipped }))
        } else {
            let pos: u64 = sub.cursor - self.dropped;
            if pos < self.buffer.len() as u64 {
                let item = &self.buffer[pos as usize];
                sub.cursor = sub.cursor + 1;
                Some(Ok(item))
            } else if !self.act.can_publish() {
                Some(Err(NextError::ProducerExited(ProducerExited)))
            } else {
                None
            }
        }
    }

    /// Like `next`, but hands the delivered item out as a clone of
    /// itself, leaving it in the ring for the other subscriptions.
    pub fn next_cloned(&self, sub: &mut Subscription) -> (r: Option<Result<T, NextError>>) where
        T: Clone,

        requires
            self.wf(),
            old(sub).cursor() <= self@.log.len(),
        ensures
            final(sub).cursor() == next_cursor(self@, old(sub).cursor()),
            final(sub).cursor() <= self@.log.len(),
            r is None ==> next_outcome(self@, old(sub).cursor()) is Pending,
            r matches Some(Ok(item)) ==> next_outcome(self@, old(sub).cursor()) matches
                NextOutcome::Item(delivered) && cloned(delivered, item),
            r matches Some(Err(NextError::Lagged { skipped_events })) ==> skipped_events > 0
                && next_outcome(self@, old(sub).cursor()) == NextOutcome::<T>::Lagged(
                skipped_events as nat,
            ),
            r matches Some(Err(NextError::ProducerExited(_))) ==> next_outcome(
                self@,
                old(sub).cursor(),
            ) is Exited,
    {
        match self.next(sub) {
            Some(Ok(item)) => {
                let duplicate = item.clone();
                proof {
                    assert(cloned(*item, duplicate));
                }
                Some(Ok(duplicate))
            },
            Some(Err(error)) => Some(Err(error)),
            None => None,
        }
    }
}

/// Publishing a sequence to a live, subscribed channel appends it to
/// the log, touches nothing else, and drops exactly as many of the
/// oldest items as the capacity forces it to.
pub proof fn lemma_publish_all<T>(s: EmitterState<T>, events: Seq<T>)
    requires
        s.wf(),
        s.act.subscribers > 0,
        can_publish(s.act),
        s.log.len() + events.len() <= u64::MAX,
    ensures
        ({
            let s1 = publish_all(s, events);
            &&& s1.wf()
            &&& s1.act == s.act
            &&& s1.capacity == s.capacity
            &&& s1.log == s.log + events
            &&& s1.dropped == if s.log.len() + events.len() - s.dropped <= s.capacity {
                s.dropped
            } else {
                (s.log.len() + events.len() - s.capacity) as nat
            }
        }),
    decreases events.len(),
{
    if events.len() == 0 {
        assert(s.log + events =~= s.log);
    } else {
        let s2 = publish_step(s, events.first());
        lemma_publish_all(s2, events.drop_first());
        assert(s.log + events =~= s2.log + events.drop_first());
    }
}

/// Overflowing the backlog (general form of the lag property): after
/// `capacity + k` items, `k > 0`, are published past a subscription that
/// was caught up and did not read, its first poll reports `Lagged` with
/// exactly `k` skipped items and resynchronises it; the `capacity`
/// surviving items are then read in publish order.
pub proof fn lemma_backlog_overflow<T>(s: EmitterState<T>, events: Seq<T>, c: nat)
    requires
        s.wf(),
        s.act.subscribers > 0,
        can_publish(s.act),
        c == s.log.len(),
        s.capacity < events.len(),
        s.log.len() + events.len() <= u64::MAX,
    ensures
        ({
            let s1 = publish_all(s, events);
            let k = events.len() - s.capacity;
            &&& next_outcome(s1, c) == NextOutcome::<T>::Lagged(k as nat)
            &&& next_cursor(s1, c) == s1.dropped
            &&& forall|j: int|
                0 <= j < s.capacity ==> #[trigger] next_outcome(s1, (s1.dropped + j) as nat)
                    == NextOutcome::Item(events[k + j]) && next_cursor(s1, (s1.dropped + j) as nat)
                    == s1.dropped + j + 1
        }),
{
    lemma_publish_all(s, events);
    let s1 = publish_all(s, events);
    assert forall|j: int| 0 <= j < s.capacity implies #[trigger] next_outcome(
        s1,
        (s1.dropped + j) as nat,
    ) == NextOutcome::Item(events[events.len() - s.capacity + j]) && next_cursor(
        s1,
        (s1.dropped + j) as nat,
    ) == s1.dropped + j + 1 by {
        assert(s1.log[(s1.dropped + j) as int] == events[events.len() - s.capacity + j]);
    }
}

/// A subscription that reads as fast as items are published never lags:
/// if it was caught up when an item arrived, its next poll delivers
/// exactly that item and leaves it caught up again.
pub proof fn lemma_keeping_up<T>(s: EmitterState<T>, event: T, c: nat)
    requires
        s.wf(),
        s.act.subscribers > 0,
        can_publish(s.act),
        c == s.log.len(),
        s.log.len() < u64::MAX,
    ensures
        ({
            let s1 = publish_step(s, event);
            &&& !(next_outcome(s1, c) is Lagged)
            &&& next_outcome(s1, c) == NextOutcome::Item(event)
            &&& next_cursor(s1, c) == s1.log.len()
        }),
{
}

/// A burst that fits in the backlog is delivered whole: after at most
/// `capacity` items are published past a caught-up subscription, it
/// reads every one of them, in publish order, without ever lagging.
pub proof fn lemma_burst_within_capacity<T>(s: EmitterState<T>, events: Seq<T>, c: nat)
    requires
        s.wf(),
        s.act.subscribers > 0,
        can_publish(s.act),
        c == s.log.len(),
        events.len() <= s.capacity,
        s.log.len() + events.len() <= u64::MAX,
    ensures
        ({
            let s1 = publish_all(s, events);
            forall|j: int|
                0 <= j < events.len() ==> #[trigger] next_outcome(s1, (c + j) as nat)
                    == NextOutcome::Item(events[j]) && next_cursor(s1, (c + j) as nat) == c + j + 1
        }),
{
    lemma_publish_all(s, events);
    let s1 = publish_all(s, events);
    assert forall|j: int| 0 <= j < events.len() implies #[trigger] next_outcome(s1, (c + j) as nat)
        == NextOutcome::Item(events[j]) && next_cursor(s1, (c + j) as nat) == c + j + 1 by {
        assert(s1.log[(c + j) as int] == events[j]);
    }
}

/// `ProducerExited` is terminal: once a poll reports it, no publish has
/// any effect on the channel, and every later poll of that subscription
/// reports it again.
pub proof fn lemma_producer_exited_is_terminal<T>(s: EmitterState<T>, event: T, c: nat)
    requires
        next_outcome(s, c) is Exited,
    ensures
        publish_step(s, event) == s,
        next_outcome(publish_step(s, event), c) is Exited,
        next_cursor(s, c) == c,
{
}

/// Well-formedness of an instance carries to its abstract state, so a
/// caller holding `wf()` may use the state bounds it implies.
pub proof fn lemma_wf_implies_state_wf<T>(em: &Emitter<T>)
    requires
        em.wf(),
    ensures
        em@.wf(),
{
}

/// Between the oldest retained item and the end of the log, polling
/// delivers each published item exactly once, in publish order, with the
/// cursor advancing one position per item.
pub proof fn lemma_in_order_exactly_once<T>(s: EmitterState<T>, c: nat)
    requires
        s.wf(),
        s.dropped <= c < s.log.len(),
    ensures
        next_outcome(s, c) == NextOutcome::Item(s.log[c as int]),
        next_cursor(s, c) == c + 1,
{
}

} // verus!
