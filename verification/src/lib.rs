//! Keeps video playback state consistent across independent viewers that
//! share a room: a wire codec for playback commands, a deterministic merge
//! rule that makes every peer converge on one playback state, room
//! rendezvous helpers, and the tick-driven event-loop state machine.

pub mod codec;
pub mod engine;
pub mod event_loop;
pub mod network;
pub mod player;
pub mod room;
pub mod state;
