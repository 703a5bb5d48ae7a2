//! Playback commands, the merged playback state, and the merge rule that
//! decides which of two conflicting commands wins.

use vstd::prelude::*;

verus! {

/// What a playback command asks for.
#[derive(Clone, Copy, PartialEq, Eq, Structural, Debug)]
pub enum OpKind {
    Play,
    Pause,
    Seek { offset_ms: u64 },
}

/// A playback command together with its causal metadata: the peer that
/// issued it and that peer's sequence number for it.
#[derive(Clone, Copy, PartialEq, Eq, Structural, Debug)]
pub struct VideoOp {
    pub kind: OpKind,
    pub origin: u64,
    pub seq: u64,
}

/// The action a freshly merged command asks the surrounding player to
/// perform; the seek variant carries the target position in milliseconds.
#[derive(Clone, Copy, PartialEq, Eq, Structural, Debug)]
pub enum SyncEvent {
    Play,
    Pause,
    Seek(u64),
}

/// The merged playback state one peer holds: whether the video is playing,
/// the position last sought to (milliseconds), and the key of the command
/// that produced the state.
#[derive(Clone, Copy, PartialEq, Eq, Structural, Debug)]
pub struct VideoState {
    pub playing: bool,
    pub position_ms: u64,
    pub last_seq: u64,
    pub last_peer: u64,
}

/// The total order over command keys: sequence number first, origin peer id
/// as the deterministic tie-break.
pub open spec fn key_gt(seq_a: u64, peer_a: u64, seq_b: u64, peer_b: u64) -> bool {
    seq_a > seq_b || (seq_a == seq_b && peer_a > peer_b)
}

/// A command replaces the current state exactly when its key is strictly
/// greater than the key recorded in the state; an equal key is a duplicate
/// and a lesser key is stale, and both leave the state unchanged.
pub open spec fn op_wins(s: VideoState, op: VideoOp) -> bool {
    key_gt(op.seq, op.origin, s.last_seq, s.last_peer)
}

/// The state after merging one command: a winning play or pause sets the
/// playing flag, a winning seek sets the position, and the winner's key is
/// recorded; a losing command changes nothing.
pub open spec fn spec_apply(s: VideoState, op: VideoOp) -> VideoState {
    if op_wins(s, op) {
        match op.kind {
            OpKind::Play => VideoState {
                playing: true,
                position_ms: s.position_ms,
                last_seq: op.seq,
                last_peer: op.origin,
            },
            OpKind::Pause => VideoState {
                playing: false,
                position_ms: s.position_ms,
                last_seq: op.seq,
                last_peer: op.origin,
            },
            OpKind::Seek { offset_ms } => VideoState {
                playing: s.playing,
                position_ms: offset_ms,
                last_seq: op.seq,
                last_peer: op.origin,
            },
        }
    } else {
        s
    }
}

/// The player action a winning command gives rise to.
pub open spec fn spec_action(op: VideoOp) -> SyncEvent {
    match op.kind {
        OpKind::Play => SyncEvent::Play,
        OpKind::Pause => SyncEvent::Pause,
        OpKind::Seek { offset_ms } => SyncEvent::Seek(offset_ms),
    }
}

/// The state a session starts from: paused at position zero, holding the
/// smallest possible key, so that every issued command beats it.
pub open spec fn initial_state() -> VideoState {
    VideoState { playing: false, position_ms: 0, last_seq: 0, last_peer: 0 }
}

impl VideoState {
    /// A fresh state, as a session starts with it.
    pub fn new() -> (s: VideoState)
        ensures
            s == initial_state(),
    {
        VideoState { playing: false, position_ms: 0, last_seq: 0, last_peer: 0 }
    }

    /// Merge one command into the state. Returns whether the command won
    /// and, if it did, the action to hand to the player.
    pub fn apply(&mut self, op: VideoOp) -> (r: (bool, Option<SyncEvent>))
        ensures
            *final(self) == spec_apply(*old(self), op),
            r.0 == op_wins(*old(self), op),
            r.1 == (if op_wins(*old(self), op) {
                Some(spec_action(op))
            } else {
                None::<SyncEvent>
            }),
    {
        let wins = op.seq > self.last_seq || (op.seq == self.last_seq
            && op.origin > self.last_peer);
        if wins {
            let action = match op.kind {
                OpKind::Play => {
                    self.playing = true;
                    SyncEvent::Play
                },
                OpKind::Pause => {
                    self.playing = false;
                    SyncEvent::Pause
                },
                OpKind::Seek { offset_ms } => {
                    self.position_ms = offset_ms;
                    SyncEvent::Seek(offset_ms)
                },
            };
            self.last_seq = op.seq;
            self.last_peer = op.origin;
            (true, Some(action))
        } else {
            (false, None)
        }
    }
}

/// Merging is idempotent: once a command has been merged, merging the very
/// same command again never wins and leaves the state unchanged.
pub proof fn lemma_apply_idempotent(s: VideoState, op: VideoOp)
    ensures
        !op_wins(spec_apply(s, op), op),
        spec_apply(spec_apply(s, op), op) == spec_apply(s, op),
{
}

/// Whether merging the command would change the state field it speaks of:
/// a play or pause that flips the playing flag, or a seek away from the
/// current position.
pub open spec fn op_changes_field(s: VideoState, op: VideoOp) -> bool {
    match op.kind {
        OpKind::Play => !s.playing,
        OpKind::Pause => s.playing,
        OpKind::Seek { offset_ms } => offset_ms != s.position_ms,
    }
}

/// The inputs on which delivery order shows through: of two commands from
/// different peers, the one with the lesser key wins against the state the
/// pair meets, speaks of the other state field than the greater one, and
/// actually changes that field. Merged lesser-first, that change survives
/// under the greater command; merged greater-first, it never happens.
pub open spec fn order_sensitive(s: VideoState, a: VideoOp, b: VideoOp) -> bool {
    let lo = if key_gt(a.seq, a.origin, b.seq, b.origin) {
        b
    } else {
        a
    };
    let hi = if key_gt(a.seq, a.origin, b.seq, b.origin) {
        a
    } else {
        b
    };
    &&& op_wins(s, lo)
    &&& !((lo.kind is Seek) <==> (hi.kind is Seek))
    &&& op_changes_field(s, lo)
}

/// Convergence: two commands from different peers merge to the same state
/// whichever of the two delivery orders a peer sees, on every input but the
/// order-sensitive ones, where a staler winning command of the other kind
/// leaves its field behind in one order only.
pub proof fn lemma_apply_commutes(s: VideoState, a: VideoOp, b: VideoOp)
    requires
        a.origin != b.origin,
        !order_sensitive(s, a, b),
    ensures
        spec_apply(spec_apply(s, a), b) == spec_apply(spec_apply(s, b), a),
{
}

/// The key a state records never goes backward: merging any command leaves
/// the recorded key the same or replaces it with a strictly greater one, so
/// the state always names the greatest command observed so far.
pub proof fn lemma_last_key_monotonic(s: VideoState, op: VideoOp)
    ensures
        !key_gt(
            s.last_seq,
            s.last_peer,
            spec_apply(s, op).last_seq,
            spec_apply(s, op).last_peer,
        ),
        op_wins(s, op) ==> spec_apply(s, op).last_seq == op.seq && spec_apply(s, op).last_peer
            == op.origin,
{
}

/// The key recorded after merging two commands from different peers is the
/// same in either delivery order: every peer agrees on which key won, even
/// where the two commands speak of different state fields.
pub proof fn lemma_winning_key_commutes(s: VideoState, a: VideoOp, b: VideoOp)
    requires
        a.origin != b.origin,
    ensures
        spec_apply(spec_apply(s, a), b).last_seq == spec_apply(spec_apply(s, b), a).last_seq,
        spec_apply(spec_apply(s, a), b).last_peer == spec_apply(spec_apply(s, b), a).last_peer,
{
}

} // verus!
