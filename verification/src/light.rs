//! The light protocol's power state: the one piece of the device
//! vocabulary with logic of its own.

use vstd::prelude::*;

verus! {

/// Whether a light is on or off.
#[derive(Debug, Clone, Copy, PartialEq, Eq, Hash, Structural)]
pub enum State {
    Off,
    On,
}

/// The opposite power state.
pub open spec fn inverted(s: State) -> State {
    match s {
        State::Off => State::On,
        State::On => State::Off,
    }
}

impl State {
    /// The opposite power state: what toggling a light turns it to.
    pub fn invert(self) -> (r: State)
        ensures
            r == inverted(self),
    {
        match self {
            State::Off => State::On,
            State::On => State::Off,
        }
    }

    /// The state a truth value stands for: `true` is on.
    pub fn from_bool(on: bool) -> (r: State)
        ensures
            r is On <==> on,
    {
        if on {
            State::On
        } else {
            State::Off
        }
    }

    /// Whether the light is on.
    pub fn is_on(&self) -> (r: bool)
        ensures
            r <==> *self is On,
    {
        match self {
            State::On => true,
            State::Off => false,
        }
    }

    /// Whether the light is off.
    pub fn is_off(&self) -> (r: bool)
        ensures
            r <==> *self is Off,
    {
        match self {
            State::On => false,
            State::Off => true,
        }
    }
}

/// Inverting is an involution: toggling twice restores the state.
pub proof fn lemma_invert_involution(s: State)
    ensures
        inverted(inverted(s)) == s,
{
}

} // verus!
