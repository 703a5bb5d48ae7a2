//! The tick-driven event loop's state machine. The surrounding host runs
//! the fixed-interval timer and the transport; the transitions a tick may
//! take are decided here.

use vstd::prelude::*;

verus! {

/// Where a session's event loop stands.
#[derive(Clone, Copy, PartialEq, Eq, Structural, Debug)]
pub enum LoopState {
    Joining,
    Connected,
    ShuttingDown,
    Stopped,
}

/// The transition one tick takes: stopped is terminal, a loop that was
/// shutting down stops, an observed shutdown signal starts the shutdown,
/// and a joining loop connects once signaling has completed.
pub open spec fn spec_next_loop_state(s: LoopState, shutdown: bool, signaling_done: bool) -> LoopState {
    match s {
        LoopState::Stopped => LoopState::Stopped,
        LoopState::ShuttingDown => LoopState::Stopped,
        LoopState::Joining => if shutdown {
            LoopState::ShuttingDown
        } else if signaling_done {
            LoopState::Connected
        } else {
            LoopState::Joining
        },
        LoopState::Connected => if shutdown {
            LoopState::ShuttingDown
        } else {
            LoopState::Connected
        },
    }
}

/// Take one tick's transition, from the loop's state, whether the shutdown
/// signal has resolved, and whether signaling has completed.
pub fn next_loop_state(s: LoopState, shutdown: bool, signaling_done: bool) -> (r: LoopState)
    ensures
        r == spec_next_loop_state(s, shutdown, signaling_done),
{
    match s {
        LoopState::Stopped => LoopState::Stopped,
        LoopState::ShuttingDown => LoopState::Stopped,
        LoopState::Joining => if shutdown {
            LoopState::ShuttingDown
        } else if signaling_done {
            LoopState::Connected
        } else {
            LoopState::Joining
        },
        LoopState::Connected => if shutdown {
            LoopState::ShuttingDown
        } else {
            LoopState::Connected
        },
    }
}

} // verus!
