//! The transport abstraction a session is driven through. The library
//! decides what to send and what a received payload means; a host supplies
//! the connections by implementing this trait around its socket.

use vstd::prelude::*;

use crate::state::SyncEvent;

verus! {

/// One session's view of the peer mesh: room rendezvous, broadcasting the
/// three playback commands, and draining inbound events one at a time.
pub trait NetworkInterface: Sized {
    /// Open a session in a freshly named room and return the room id.
    fn create_room() -> (Self, String);

    /// Open a session in the room of the given id.
    fn join_room(room_id: &String) -> Self;

    /// The room this session sits in.
    fn get_room_id(&self) -> &String;

    /// Broadcast a pause command to the connected peers.
    fn pause_video(&mut self);

    /// Broadcast a play command to the connected peers.
    fn play_video(&mut self);

    /// Broadcast a seek command, to the given offset in milliseconds.
    fn seek_video(&mut self, to_ms: u64);

    /// Drain transport progress and hand out the next merged event, if one
    /// arrived.
    fn get_next_event(&mut self) -> Option<SyncEvent>;
}

} // verus!
