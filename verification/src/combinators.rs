//! Derived stream combinators: the per-event decisions of a producer
//! that consumes one event broadcast and feeds another.
//!
//! A combinator's producer loops over its own activation epochs; within
//! an epoch it races "my subscribers are all gone" against "the upstream
//! delivered something".  What to do with each upstream delivery is
//! decided here: transform and forward it, swallow an upstream lag
//! without forwarding or terminating, and treat an upstream producer
//! exit as the permanent end of the combinator's own producer.  The
//! racing itself, like all suspension, belongs to the asynchronous shell
//! around the library.

use vstd::prelude::*;

use crate::emitter::NextError;

verus! {

/// What a combinator's producer does with one upstream delivery.
pub enum Forward<M> {
    /// Publish this item downstream.
    Deliver(M),
    /// Forward nothing and keep consuming upstream.
    Skip,
    /// Return permanently: no further activation of the combinator's
    /// producer is possible.
    Stop,
}

/// The mapping combinator's decision: every upstream item is forwarded
/// through the given function; an upstream lag is swallowed; an
/// upstream producer exit stops the combinator for good.
pub fn map_step<T, M, F: Fn(&T) -> M>(event: Result<&T, NextError>, func: F) -> (r: Forward<M>)
    requires
        event matches Ok(item) ==> call_requires(func, (item,)),
    ensures
        match event {
            Ok(item) => r matches Forward::Deliver(mapped) && call_ensures(
                func,
                (item,),
                mapped,
            ),
            Err(NextError::Lagged { .. }) => r is Skip,
            Err(NextError::ProducerExited(_)) => r is Stop,
        },
{
    match event {
        Ok(item) => Forward::Deliver(func(item)),
        Err(NextError::Lagged { .. }) => Forward::Skip,
        Err(NextError::ProducerExited(_)) => Forward::Stop,
    }
}

/// The filtering combinator's decision: an upstream item is forwarded
/// (as a clone of itself) exactly when the predicate accepts it — an
/// item the predicate rejects is never forwarded.  An upstream lag is
/// swallowed: it neither terminates the combinator nor is it forwarded
/// downstream.  An upstream producer exit stops the combinator for
/// good.
pub fn filter_step<T: Clone, F: Fn(&T) -> bool>(event: Result<&T, NextError>, pred: F) -> (r:
    Forward<T>)
    requires
        event matches Ok(item) ==> call_requires(pred, (item,)),
    ensures
        match event {
            Ok(item) => {
                &&& r is Deliver || r is Skip
                &&& r matches Forward::Deliver(kept) ==> call_ensures(pred, (item,), true)
                    && cloned(*item, kept)
                &&& r is Skip ==> call_ensures(pred, (item,), false)
            },
            Err(NextError::Lagged { .. }) => r is Skip,
            Err(NextError::ProducerExited(_)) => r is Stop,
        },
{
    match event {
        Ok(item) => if pred(item) {
            Forward::Deliver(item.clone())
        } else {
            Forward::Skip
        },
        Err(NextError::Lagged { .. }) => Forward::Skip,
        Err(NextError::ProducerExited(_)) => Forward::Stop,
    }
}

/// The filtering-and-mapping combinator's decision: an upstream item is
/// forwarded exactly when the function yields a value for it.  Lag and
/// producer exit are handled as in the other combinators.  The variant
/// that rewrites an item in place and reports whether to keep it is
/// this same decision with the rewritten item as the yielded value.
pub fn filter_map_step<T, M, F: Fn(&T) -> Option<M>>(
    event: Result<&T, NextError>,
    func: F,
) -> (r: Forward<M>)
    requires
        event matches Ok(item) ==> call_requires(func, (item,)),
    ensures
        match event {
            Ok(item) => {
                &&& r is Deliver || r is Skip
                &&& r matches Forward::Deliver(mapped) ==> call_ensures(
                    func,
                    (item,),
                    Some(mapped),
                )
                &&& r is Skip ==> call_ensures(func, (item,), Option::<M>::None)
            },
            Err(NextError::Lagged { .. }) => r is Skip,
            Err(NextError::ProducerExited(_)) => r is Stop,
        },
{
    match event {
        Ok(item) => match func(item) {
            Some(mapped) => Forward::Deliver(mapped),
            None => Forward::Skip,
        },
        Err(NextError::Lagged { .. }) => Forward::Skip,
        Err(NextError::ProducerExited(_)) => Forward::Stop,
    }
}

} // verus!
