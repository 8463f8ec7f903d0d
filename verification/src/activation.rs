//! The activation protocol: the leaf component that governs a producer's
//! lifecycle.
//!
//! A producer is dormant until the first subscriber appears.  That first
//! subscription places a fresh activation handle into a single-slot
//! handoff; the producer collects it (`wait`), publishes through it for
//! the duration of the epoch, and learns that the epoch is over when all
//! subscribers are gone (`all_unsubscribed`).  When the producer task
//! itself returns, no activation can ever happen again and subscribing
//! from zero reports [`ProducerExited`].
//!
//! Suspension is modelled by polling: `wait` and `all_unsubscribed`
//! return immediately and say whether the awaited condition holds; the
//! asynchronous shell around the library suspends on their behalf.

use vstd::prelude::*;

use crate::ProducerExited;

verus! {

/// Abstract state of one activation protocol instance.
pub ghost struct ActivationState {
    /// Number of live subscriptions.
    pub subscribers: nat,
    /// Whether an activation handle sits in the single-slot handoff,
    /// placed there by a first subscriber and not yet collected by the
    /// producer.  At most one handle is ever pending.
    pub handoff: bool,
    /// Whether the producer task has returned; terminal.
    pub exited: bool,
    /// Whether the channel instance itself has been dropped, so that no
    /// subscription can ever be made again.
    pub closed: bool,
}

/// What one subscription attempt does to the state, and whether it
/// succeeds.  Once the instance is closed no subscription can ever be
/// made again.  Otherwise only the subscriber that takes the count from
/// zero to one tries to deliver a handle; if the producer has already
/// exited the attempt fails and the count is rolled back.  If a handle
/// is still pending from an earlier epoch it simply remains the pending
/// one.
pub open spec fn subscribe_step(a: ActivationState) -> (ActivationState, bool) {
    if a.closed || (a.subscribers == 0 && a.exited) {
        (a, false)
    } else {
        (
            ActivationState {
                subscribers: a.subscribers + 1,
                handoff: a.handoff || a.subscribers == 0,
                ..a
            },
            true,
        )
    }
}

/// Dropping one subscription only decrements the count.
pub open spec fn unsubscribe_step(a: ActivationState) -> ActivationState {
    ActivationState { subscribers: (a.subscribers - 1) as nat, ..a }
}

/// The producer's wait for the zero-subscriber condition resolves
/// exactly when no subscription is live.
pub open spec fn all_unsubscribed_now(a: ActivationState) -> bool {
    a.subscribers == 0
}

/// Outcome of one poll of the producer's wait for its next activation
/// handle.
#[derive(Debug, Clone, Copy, PartialEq, Eq, Structural)]
pub enum WaitPoll {
    /// A fresh activation handle was collected; a new epoch begins.
    Activated,
    /// No more subscriptions can ever be made; the producer may return.
    Finished,
    /// Nothing to collect yet; the caller suspends.
    Pending,
}

/// What one poll of the producer's wait does: a pending handle is
/// collected (emptying the slot), a closed instance ends the stream, and
/// otherwise the producer stays suspended.
pub open spec fn wait_step(a: ActivationState) -> (ActivationState, WaitPoll) {
    if a.handoff {
        (ActivationState { handoff: false, ..a }, WaitPoll::Activated)
    } else if a.closed {
        (a, WaitPoll::Finished)
    } else {
        (a, WaitPoll::Pending)
    }
}

/// The producer task returning is terminal: any handle still pending is
/// discarded with the handoff slot.
pub open spec fn exit_step(a: ActivationState) -> ActivationState {
    ActivationState { exited: true, handoff: false, ..a }
}

/// Dropping the channel instance: nobody can subscribe any more.
pub open spec fn close_step(a: ActivationState) -> ActivationState {
    ActivationState { closed: true, ..a }
}

/// Whether a publish handle can still exist: the producer's task has
/// not returned and the instance, which every handle keeps alive, has
/// not been dropped.  Once this is false, nothing can ever be published
/// again, and a reader that has drained what remains is told so for
/// good.
pub open spec fn can_publish(a: ActivationState) -> bool {
    !a.exited && !a.closed
}

/// Exact executable counterpart of [`ActivationState`].
pub struct Activation {
    subscribers: usize,
    handoff: bool,
    exited: bool,
    closed: bool,
}

impl View for Activation {
    type V = ActivationState;

    closed spec fn view(&self) -> ActivationState {
        ActivationState {
            subscribers: self.subscribers as nat,
            handoff: self.handoff,
            exited: self.exited,
            closed: self.closed,
        }
    }
}

impl Activation {
    /// A fresh instance: dormant producer, no subscribers, empty slot.
    pub fn new() -> (a: Activation)
        ensures
            a@ == (ActivationState { subscribers: 0, handoff: false, exited: false, closed: false }),
    {
        Activation { subscribers: 0, handoff: false, exited: false, closed: false }
    }

    /// One subscription attempt; see [`subscribe_step`].
    pub fn subscribe(&mut self) -> (r: Result<(), ProducerExited>)
        requires
            old(self)@.subscribers < usize::MAX,
        ensures
            final(self)@ == subscribe_step(old(self)@).0,
            r is Ok <==> subscribe_step(old(self)@).1,
    {
        if self.closed {
            return Err(ProducerExited);
        }
        if self.subscribers == 0 {
            if self.exited {
                return Err(ProducerExited);
            }
            self.handoff = true;
        }
        self.subscribers = self.subscribers + 1;
        Ok(())
    }

    /// Dropping one live subscription.
    pub fn unsubscribe(&mut self)
        requires
            old(self)@.subscribers > 0,
        ensures
            final(self)@ == unsubscribe_step(old(self)@),
    {
        self.subscribers = self.subscribers - 1;
    }

    /// Polls the producer-side wait for the zero-subscriber condition.
    pub fn all_unsubscribed(&self) -> (r: bool)
        ensures
            r == all_unsubscribed_now(self@),
    {
        self.subscribers == 0
    }

    /// Number of live subscriptions.
    pub fn subscriber_count(&self) -> (n: usize)
        ensures
            n == self@.subscribers,
    {
        self.subscribers
    }

    /// Polls the producer-side wait for the next activation handle; see
    /// [`wait_step`].
    pub fn wait(&mut self) -> (r: WaitPoll)
        ensures
            final(self)@ == wait_step(old(self)@).0,
            r == wait_step(old(self)@).1,
    {
        if self.handoff {
            self.handoff = false;
            WaitPoll::Activated
        } else if self.closed {
            WaitPoll::Finished
        } else {
            WaitPoll::Pending
        }
    }

    /// Records that the producer task has returned.
    pub fn record_exit(&mut self)
        ensures
            final(self)@ == exit_step(old(self)@),
    {
        self.exited = true;
        self.handoff = false;
    }

    /// Records that the channel instance has been dropped.
    pub fn close(&mut self)
        ensures
            final(self)@ == close_step(old(self)@),
    {
        self.closed = true;
    }

    /// Whether anything can still be published; see [`can_publish`].
    pub fn can_publish(&self) -> (r: bool)
        ensures
            r == can_publish(self@),
    {
        !self.exited && !self.closed
    }
}

/// The epoch cycle of the activation protocol.
///
/// While the sole subscriber of an epoch is live, the producer's wait for
/// zero subscribers does not resolve.  Dropping that subscription
/// resolves it.  A later subscription then triggers exactly one new
/// activation handoff: the producer's wait collects exactly one handle,
/// and polling again leaves it suspended until yet another epoch starts.
pub proof fn lemma_epoch_cycle(a: ActivationState)
    requires
        a.subscribers == 1,
        !a.exited,
        !a.closed,
    ensures
        !all_unsubscribed_now(a),
        all_unsubscribed_now(unsubscribe_step(a)),
        subscribe_step(unsubscribe_step(a)).1,
        subscribe_step(unsubscribe_step(a)).0.handoff,
        wait_step(subscribe_step(unsubscribe_step(a)).0).1 == WaitPoll::Activated,
        !wait_step(subscribe_step(unsubscribe_step(a)).0).0.handoff,
        wait_step(wait_step(subscribe_step(unsubscribe_step(a)).0).0).1 == WaitPoll::Pending,
{
}

/// On a live instance, subscribing from zero reports [`ProducerExited`]
/// exactly when the producer task has actually returned; while
/// subscribers remain, or while the producer is merely dormant,
/// subscription always succeeds.  (On a closed instance no subscription
/// handle exists to subscribe through, and an attempt always fails.)
pub proof fn lemma_resubscribe_failure_is_exit(a: ActivationState)
    ensures
        !subscribe_step(a).1 <==> (a.closed || (a.subscribers == 0 && a.exited)),
        !a.closed ==> (!subscribe_step(a).1 <==> (a.subscribers == 0 && a.exited)),
{
}

/// The end of the producer's stream is final: once `wait` reports that
/// no more subscriptions can ever be made, every later `wait` reports
/// the same, and no subscription attempt can succeed.
pub proof fn lemma_finished_is_final(a: ActivationState)
    requires
        wait_step(a).1 == WaitPoll::Finished,
    ensures
        wait_step(a).0 == a,
        wait_step(wait_step(a).0).1 == WaitPoll::Finished,
        !subscribe_step(a).1,
{
}

} // verus!
