use sync_vid_extension::codec::{decode, encode, DecodeError};
use sync_vid_extension::engine::SyncEngine;
use sync_vid_extension::state::{OpKind, SyncEvent, VideoOp, VideoState};

#[test]
fn round_trip_play() {
    let op = VideoOp { kind: OpKind::Play, origin: 42, seq: 7 };
    let bytes = encode(&op);
    assert_eq!(decode(bytes.as_slice()), Ok(op));
}

#[test]
fn round_trip_pause() {
    let op = VideoOp { kind: OpKind::Pause, origin: u64::MAX, seq: u64::MAX };
    let bytes = encode(&op);
    assert_eq!(decode(bytes.as_slice()), Ok(op));
}

#[test]
fn round_trip_seek_carries_offset() {
    let op = VideoOp { kind: OpKind::Seek { offset_ms: 12500 }, origin: 3, seq: 9 };
    let bytes = encode(&op);
    let back = decode(bytes.as_slice()).unwrap();
    assert_eq!(back, op);
    assert_eq!(back.kind, OpKind::Seek { offset_ms: 12500 });
}

#[test]
fn encode_play_exact_bytes() {
    let op = VideoOp { kind: OpKind::Play, origin: 0x0102, seq: 1 };
    let bytes = encode(&op);
    let expected = vec![
        1u8, // play tag
        0x02, 0x01, 0, 0, 0, 0, 0, 0, // origin, little-endian
        1, 0, 0, 0, 0, 0, 0, 0, // seq, little-endian
    ];
    assert_eq!(bytes, expected);
}

#[test]
fn decode_rejects_unknown_tag() {
    let mut bytes = vec![0u8; 17];
    bytes[0] = 9;
    assert_eq!(decode(bytes.as_slice()), Err(DecodeError::UnknownCommand));
}

#[test]
fn decode_rejects_wrong_length() {
    assert_eq!(decode(&[]), Err(DecodeError::UnknownCommand));
    // a play payload truncated by one byte
    let op = VideoOp { kind: OpKind::Play, origin: 1, seq: 1 };
    let mut bytes = encode(&op);
    bytes.pop();
    assert_eq!(decode(bytes.as_slice()), Err(DecodeError::UnknownCommand));
    // a seek tag on a play-sized payload
    let mut short = vec![0u8; 17];
    short[0] = 3;
    assert_eq!(decode(short.as_slice()), Err(DecodeError::UnknownCommand));
}

#[test]
fn apply_is_idempotent() {
    let mut state = VideoState::new();
    let op = VideoOp { kind: OpKind::Pause, origin: 4, seq: 6 };
    let (applied, action) = state.apply(op);
    assert!(applied);
    assert_eq!(action, Some(SyncEvent::Pause));
    let after_first = state;
    let (applied_again, action_again) = state.apply(op);
    assert!(!applied_again);
    assert_eq!(action_again, None);
    assert_eq!(state, after_first);
}

#[test]
fn convergence_both_orders_same_kind() {
    let a = VideoOp { kind: OpKind::Play, origin: 2, seq: 5 };
    let b = VideoOp { kind: OpKind::Pause, origin: 8, seq: 3 };
    let mut first = VideoState::new();
    first.apply(a);
    first.apply(b);
    let mut second = VideoState::new();
    second.apply(b);
    second.apply(a);
    assert_eq!(first, second);
    assert!(first.playing);
}

#[test]
fn tie_break_by_peer_id() {
    // both peers issue play with the same sequence number; the greater
    // peer id wins on every peer, whatever order the two ops arrive in
    let from_low = VideoOp { kind: OpKind::Play, origin: 5, seq: 2 };
    let from_high = VideoOp { kind: OpKind::Play, origin: 9, seq: 2 };
    let mut first = VideoState::new();
    first.apply(from_low);
    first.apply(from_high);
    let mut second = VideoState::new();
    second.apply(from_high);
    second.apply(from_low);
    assert_eq!(first.last_seq, 2);
    assert_eq!(first.last_peer, 9);
    assert_eq!(second.last_seq, 2);
    assert_eq!(second.last_peer, 9);
    assert_eq!(first, second);
}

#[test]
fn winning_key_agrees_across_kinds() {
    // a play and a seek: the recorded key agrees in either order
    let play = VideoOp { kind: OpKind::Play, origin: 1, seq: 2 };
    let seek = VideoOp { kind: OpKind::Seek { offset_ms: 900 }, origin: 6, seq: 1 };
    let mut first = VideoState::new();
    first.apply(play);
    first.apply(seek);
    let mut second = VideoState::new();
    second.apply(seek);
    second.apply(play);
    assert_eq!(first.last_seq, second.last_seq);
    assert_eq!(first.last_peer, second.last_peer);
    assert_eq!((first.last_seq, first.last_peer), (2, 1));
}

#[test]
fn mixed_kinds_converge_when_the_lesser_is_stale() {
    // a seek that is already stale where the pair meets cannot leave its
    // position behind in either order
    let mut base = VideoState::new();
    base.apply(VideoOp { kind: OpKind::Pause, origin: 3, seq: 3 });
    let play = VideoOp { kind: OpKind::Play, origin: 2, seq: 9 };
    let seek = VideoOp { kind: OpKind::Seek { offset_ms: 5 }, origin: 1, seq: 1 };
    let mut first = base;
    first.apply(play);
    first.apply(seek);
    let mut second = base;
    second.apply(seek);
    second.apply(play);
    assert_eq!(first, second);
    assert_eq!(first.position_ms, 0);
}

#[test]
fn stale_op_is_inert() {
    let mut state = VideoState::new();
    state.apply(VideoOp { kind: OpKind::Pause, origin: 1, seq: 8 });
    let before = state;
    let (applied, action) = state.apply(VideoOp { kind: OpKind::Play, origin: 3, seq: 2 });
    assert!(!applied);
    assert_eq!(action, None);
    assert_eq!(state, before);
}

#[test]
fn local_seq_strictly_increases() {
    let mut engine = SyncEngine::new(String::from("room"), 1);
    let (_, first) = engine.local_op(OpKind::Play);
    let (_, second) = engine.local_op(OpKind::Pause);
    let (_, third) = engine.local_op(OpKind::Seek { offset_ms: 10 });
    assert!(first.seq < second.seq);
    assert!(second.seq < third.seq);
    assert_eq!((first.seq, second.seq, third.seq), (1, 2, 3));
}

#[test]
fn pause_is_applied_once_on_the_receiver() {
    let mut a = SyncEngine::new(String::from("shared"), 1);
    let mut b = SyncEngine::new(String::from("shared"), 2);
    let (bytes, op) = a.local_op(OpKind::Pause);
    assert_eq!(op.seq, 1);
    let (applied, action) = b.apply_remote(bytes.as_slice()).unwrap();
    assert!(applied);
    assert_eq!(action, Some(SyncEvent::Pause));
    assert!(!b.current_state().playing);
    // duplicate network delivery: the second apply is a no-op
    let state_after_first = b.current_state();
    let (applied_again, action_again) = b.apply_remote(bytes.as_slice()).unwrap();
    assert!(!applied_again);
    assert_eq!(action_again, None);
    assert_eq!(b.current_state(), state_after_first);
}

#[test]
fn seek_offset_survives_the_wire() {
    let mut a = SyncEngine::new(String::from("shared"), 1);
    let mut b = SyncEngine::new(String::from("shared"), 2);
    let (bytes, _) = a.local_op(OpKind::Seek { offset_ms: 12500 });
    let (applied, action) = b.apply_remote(bytes.as_slice()).unwrap();
    assert!(applied);
    assert_eq!(action, Some(SyncEvent::Seek(12500)));
    assert_eq!(b.current_state().position_ms, 12500);
}

#[test]
fn concurrent_plays_converge_on_one_winner() {
    // both sessions issue play as their second op; the peer ids break the tie
    let mut a = SyncEngine::new(String::from("shared"), 5);
    let mut b = SyncEngine::new(String::from("shared"), 9);
    a.local_op(OpKind::Pause);
    b.local_op(OpKind::Pause);
    let (bytes_a, op_a) = a.local_op(OpKind::Play);
    let (bytes_b, op_b) = b.local_op(OpKind::Play);
    assert_eq!(op_a.seq, 2);
    assert_eq!(op_b.seq, 2);
    a.apply_remote(bytes_b.as_slice()).unwrap();
    b.apply_remote(bytes_a.as_slice()).unwrap();
    let state_a = a.current_state();
    let state_b = b.current_state();
    assert_eq!((state_a.last_seq, state_a.last_peer), (2, 9));
    assert_eq!((state_b.last_seq, state_b.last_peer), (2, 9));
}

#[test]
fn pump_merges_in_order_and_skips_malformed() {
    let mut sender = SyncEngine::new(String::from("shared"), 3);
    let (pause_bytes, _) = sender.local_op(OpKind::Pause);
    let (play_bytes, _) = sender.local_op(OpKind::Play);
    let garbage = vec![0xffu8, 0xee];
    let mut receiver = SyncEngine::new(String::from("shared"), 4);
    let msgs = vec![pause_bytes.clone(), garbage, play_bytes, pause_bytes];
    let actions = receiver.pump(&msgs);
    // the stale duplicate pause at the end and the garbage yield nothing
    assert_eq!(actions, vec![SyncEvent::Pause, SyncEvent::Play]);
    assert!(receiver.current_state().playing);
    assert_eq!(receiver.current_state().last_seq, 2);
}

#[test]
fn local_op_merges_through_the_same_rule() {
    // a remote op with a higher sequence number keeps a later local op
    // with a lower key from diverging the local state
    let mut a = SyncEngine::new(String::from("shared"), 1);
    let remote = VideoOp { kind: OpKind::Pause, origin: 2, seq: 10 };
    a.apply(remote);
    let (_, op) = a.local_op(OpKind::Play);
    assert_eq!(op.seq, 1);
    let state = a.current_state();
    assert!(!state.playing);
    assert_eq!((state.last_seq, state.last_peer), (10, 2));
}

#[test]
fn get_room_id_returns_the_given_id() {
    let engine = SyncEngine::new(String::from("aZ3kQ9b"), 1);
    assert_eq!(engine.get_room_id().as_str(), "aZ3kQ9b");
}
