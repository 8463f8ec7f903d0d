//! A demand-driven, single-producer/multi-subscriber broadcast primitive.
//!
//! Two channel flavours share one activation protocol: an event broadcast
//! that delivers discrete values through a bounded backlog (slow readers
//! lose items and are told so), and a value broadcast that coalesces to a
//! single latest value.  A producer is dormant until the first subscriber
//! appears, receives a fresh publish handle for each such epoch, and is
//! told — by awaiting, not polling — when its subscribers are all gone.
//!
//! The state of each channel and every decision taken on it live here and
//! are verified; the surrounding asynchronous shell (tasks, wake-ups and
//! actual suspension) drives these state machines from outside.

use vstd::prelude::*;

pub mod activation;
pub mod combinators;
pub mod domain;
pub mod emitter;
pub mod kasa;
pub mod light;
pub mod signal;
pub mod slug;

verus! {

/// Terminal condition: the producer task of a channel has returned or
/// failed.  Once raised it is reported to every future subscription
/// attempt that would need to activate the producer again.
#[derive(Debug, Clone, Copy, PartialEq, Eq, Structural)]
pub struct ProducerExited;

} // verus!
