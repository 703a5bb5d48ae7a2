//! The synchronization engine one session owns: it allocates sequence
//! numbers for locally issued commands, turns commands into wire bytes and
//! back, and merges every command — its own and its peers' — through the
//! one rule that makes all peers converge.

use vstd::prelude::*;

use crate::codec::{decode, encode, spec_decode, spec_encode, DecodeError};
use crate::state::{
    initial_state, op_wins, spec_action, spec_apply, OpKind, SyncEvent, VideoOp, VideoState,
};

verus! {

/// The merged state after draining a batch of inbound payloads in order:
/// each payload that decodes is merged, and one that does not is dropped.
pub open spec fn spec_pump_state(s: VideoState, msgs: Seq<Seq<u8>>) -> VideoState
    decreases msgs.len(),
{
    if msgs.len() == 0 {
        s
    } else {
        let s1 = match spec_decode(msgs[0]) {
            Some(op) => spec_apply(s, op),
            None => s,
        };
        spec_pump_state(s1, msgs.drop_first())
    }
}

/// The player actions a batch of inbound payloads gives rise to, in order:
/// one action for each decoded command that wins against the state it meets.
pub open spec fn spec_pump_actions(s: VideoState, msgs: Seq<Seq<u8>>) -> Seq<SyncEvent>
    decreases msgs.len(),
{
    if msgs.len() == 0 {
        Seq::empty()
    } else {
        match spec_decode(msgs[0]) {
            Some(op) => {
                let rest = spec_pump_actions(spec_apply(s, op), msgs.drop_first());
                if op_wins(s, op) {
                    seq![spec_action(op)] + rest
                } else {
                    rest
                }
            },
            None => spec_pump_actions(s, msgs.drop_first()),
        }
    }
}

/// One session's synchronization engine: the room it sits in, its own peer
/// id, the sequence counter for its locally issued commands, and the merged
/// playback state.
pub struct SyncEngine {
    room_id: String,
    peer_id: u64,
    seq: u64,
    state: VideoState,
}

impl SyncEngine {
    /// The room identifier this engine was opened with.
    pub closed spec fn spec_room(&self) -> Seq<char> {
        self.room_id@
    }

    /// This session's own peer id.
    pub closed spec fn spec_peer(&self) -> u64 {
        self.peer_id
    }

    /// The sequence number of the most recently issued local command; zero
    /// before the first.
    pub closed spec fn spec_seq(&self) -> u64 {
        self.seq
    }

    /// The merged playback state.
    pub closed spec fn spec_state(&self) -> VideoState {
        self.state
    }

    /// A fresh engine for one session: no command issued yet, state at its
    /// initial value.
    pub fn new(room_id: String, peer_id: u64) -> (e: SyncEngine)
        ensures
            e.spec_room() == room_id@,
            e.spec_peer() == peer_id,
            e.spec_seq() == 0,
            e.spec_state() == initial_state(),
    {
        SyncEngine { room_id, peer_id, seq: 0, state: VideoState::new() }
    }

    /// The room this session sits in.
    pub fn get_room_id(&self) -> (r: &String)
        ensures
            r@ == self.spec_room(),
    {
        &self.room_id
    }

    /// The merged playback state, as this session currently holds it.
    pub fn current_state(&self) -> (s: VideoState)
        ensures
            s == self.spec_state(),
    {
        self.state
    }

    /// This session's own peer id.
    pub fn local_peer_id(&self) -> (p: u64)
        ensures
            p == self.spec_peer(),
    {
        self.peer_id
    }

    /// The sequence number of the most recently issued local command; zero
    /// before the first.
    pub fn local_seq(&self) -> (s: u64)
        ensures
            s == self.spec_seq(),
    {
        self.seq
    }

    /// Issue a local command: allocate the next sequence number, merge the
    /// command into the local state exactly as a remote one would be, and
    /// return the wire bytes to broadcast beside the command itself.
    pub fn local_op(&mut self, kind: OpKind) -> (r: (Vec<u8>, VideoOp))
        requires
            old(self).spec_seq() < u64::MAX,
        ensures
            r.1 == (VideoOp {
                kind,
                origin: old(self).spec_peer(),
                seq: (old(self).spec_seq() + 1) as u64,
            }),
            r.0@ == spec_encode(r.1),
            final(self).spec_seq() == old(self).spec_seq() + 1,
            final(self).spec_peer() == old(self).spec_peer(),
            final(self).spec_room() == old(self).spec_room(),
            final(self).spec_state() == spec_apply(old(self).spec_state(), r.1),
    {
        self.seq = self.seq + 1;
        let op = VideoOp { kind, origin: self.peer_id, seq: self.seq };
        let bytes = encode(&op);
        let _ = self.state.apply(op);
        (bytes, op)
    }

    /// Merge one already decoded command. Returns whether it won and, if it
    /// did, the action to hand to the player; a duplicate or stale command
    /// returns neither and leaves the state untouched.
    pub fn apply(&mut self, op: VideoOp) -> (r: (bool, Option<SyncEvent>))
        ensures
            final(self).spec_state() == spec_apply(old(self).spec_state(), op),
            final(self).spec_seq() == old(self).spec_seq(),
            final(self).spec_peer() == old(self).spec_peer(),
            final(self).spec_room() == old(self).spec_room(),
            r.0 == op_wins(old(self).spec_state(), op),
            r.1 == (if op_wins(old(self).spec_state(), op) {
                Some(spec_action(op))
            } else {
                None::<SyncEvent>
            }),
    {
        self.state.apply(op)
    }

    /// Decode one inbound payload and merge it. A payload nothing encodes
    /// to is reported as an unknown command and changes nothing.
    pub fn apply_remote(&mut self, bytes: &[u8]) -> (r: Result<
        (bool, Option<SyncEvent>),
        DecodeError,
    >)
        ensures
            final(self).spec_seq() == old(self).spec_seq(),
            final(self).spec_peer() == old(self).spec_peer(),
            final(self).spec_room() == old(self).spec_room(),
            match spec_decode(bytes@) {
                Some(op) => {
                    &&& final(self).spec_state() == spec_apply(old(self).spec_state(), op)
                    &&& r == Ok::<(bool, Option<SyncEvent>), DecodeError>(
                        (
                            op_wins(old(self).spec_state(), op),
                            if op_wins(old(self).spec_state(), op) {
                                Some(spec_action(op))
                            } else {
                                None::<SyncEvent>
                            },
                        ),
                    )
                },
                None => {
                    &&& final(self).spec_state() == old(self).spec_state()
                    &&& r == Err::<(bool, Option<SyncEvent>), DecodeError>(
                        DecodeError::UnknownCommand,
                    )
                },
            },
    {
        match decode(bytes) {
            Ok(op) => Ok(self.apply(op)),
            Err(e) => Err(e),
        }
    }

    /// Drain one tick's inbound payloads in arrival order: decode and merge
    /// each, drop each payload that does not decode, and collect, in order,
    /// the actions of the commands that won.
    pub fn pump(&mut self, msgs: &Vec<Vec<u8>>) -> (actions: Vec<SyncEvent>)
        ensures
            final(self).spec_seq() == old(self).spec_seq(),
            final(self).spec_peer() == old(self).spec_peer(),
            final(self).spec_room() == old(self).spec_room(),
            final(self).spec_state() == spec_pump_state(old(self).spec_state(), msgs.deep_view()),
            actions@ == spec_pump_actions(old(self).spec_state(), msgs.deep_view()),
    {
        let ghost all = msgs.deep_view();
        let ghost init = *self;
        let mut actions: Vec<SyncEvent> = Vec::new();
        let mut i: usize = 0;
        proof {
            assert(all.skip(0) =~= all);
        }
        while i < msgs.len()
            invariant
                i <= msgs@.len(),
                all == msgs.deep_view(),
                self.spec_seq() == init.spec_seq(),
                self.spec_peer() == init.spec_peer(),
                self.spec_room() == init.spec_room(),
                spec_pump_state(self.spec_state(), all.skip(i as int)) == spec_pump_state(
                    init.spec_state(),
                    all,
                ),
                actions@ + spec_pump_actions(self.spec_state(), all.skip(i as int))
                    == spec_pump_actions(init.spec_state(), all),
            decreases msgs@.len() - i,
        {
            proof {
                assert(all.skip(i as int).drop_first() =~= all.skip(i as int + 1));
                assert(all.skip(i as int)[0] =~= msgs@[i as int]@);
            }
            let ghost pre = self.spec_state();
            let msg = &msgs[i];
            match decode(msg.as_slice()) {
                Ok(op) => {
                    let (_, action) = self.apply(op);
                    if let Some(a) = action {
                        actions.push(a);
                    }
                    proof {
                        assert(actions@ + spec_pump_actions(self.spec_state(), all.skip(i as int + 1))
                            =~= spec_pump_actions(init.spec_state(), all));
                    }
                },
                Err(_) => {},
            }
            i = i + 1;
        }
        proof {
            assert(all.skip(msgs@.len() as int) =~= Seq::<Seq<u8>>::empty());
            assert(actions@ + Seq::<SyncEvent>::empty() =~= actions@);
        }
        actions
    }
}

} // verus!
