//! The lifecycle phase a node advertises to its peers, and its compact wire
//! form. The process-wide atomic holder of the current phase lives with the
//! runtime around this library; over the wire only the tag below travels.

use vstd::prelude::*;

verus! {

/// The current phase of a node's lifecycle. On the wire it travels as a
/// 32-bit little-endian tag equal to the variant's position below.
#[derive(Clone, Copy, Debug, PartialEq, Eq, Structural)]
pub enum State {
    /// The node is ready to handle requests.
    Ready,
    /// The node is mining blocks.
    Mining,
    /// The node is discovering peers.
    Peering,
    /// The node is syncing blocks with a connected peer.
    Syncing,
    /// The node is shutting down.
    ShuttingDown,
}

/// The wire tag of a state.
pub open spec fn state_tag(s: State) -> u32 {
    match s {
        State::Ready => 0,
        State::Mining => 1,
        State::Peering => 2,
        State::Syncing => 3,
        State::ShuttingDown => 4,
    }
}

/// The state a wire tag denotes, if any.
pub open spec fn state_from_tag(tag: u32) -> Option<State> {
    if tag == 0 {
        Some(State::Ready)
    } else if tag == 1 {
        Some(State::Mining)
    } else if tag == 2 {
        Some(State::Peering)
    } else if tag == 3 {
        Some(State::Syncing)
    } else if tag == 4 {
        Some(State::ShuttingDown)
    } else {
        None
    }
}

impl State {
    /// Returns the wire tag of this state.
    pub fn to_tag(self) -> (r: u32)
        ensures
            r == state_tag(self),
    {
        match self {
            State::Ready => 0,
            State::Mining => 1,
            State::Peering => 2,
            State::Syncing => 3,
            State::ShuttingDown => 4,
        }
    }

    /// Returns the state a wire tag denotes; `None` on a tag out of range.
    pub fn from_tag(tag: u32) -> (r: Option<State>)
        ensures
            r == state_from_tag(tag),
    {
        match tag {
            0 => Some(State::Ready),
            1 => Some(State::Mining),
            2 => Some(State::Peering),
            3 => Some(State::Syncing),
            4 => Some(State::ShuttingDown),
            _ => None,
        }
    }
}

/// A state survives the trip through its wire tag.
pub proof fn lemma_state_tag_roundtrip(s: State)
    ensures
        state_from_tag(state_tag(s)) == Some(s),
{
}

/// A tag in range is exactly reproduced by the state it denotes.
pub proof fn lemma_state_from_tag_roundtrip(tag: u32)
    requires
        state_from_tag(tag) is Some,
    ensures
        state_tag(state_from_tag(tag).unwrap()) == tag,
{
}

} // verus!
