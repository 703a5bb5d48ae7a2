//! The wire format for playback commands: a one-byte tag, the origin peer
//! id and sequence number, and, for a seek, the target offset, all integers
//! little-endian. Decoding accepts exactly the payloads that encoding
//! produces and rejects everything else without panicking.

use vstd::bytes::{
    lemma_auto_spec_u64_to_from_le_bytes, spec_u64_from_le_bytes, spec_u64_to_le_bytes,
    u64_from_le_bytes, u64_to_le_bytes,
};
use vstd::prelude::*;
use vstd::slice::{slice_index_get, slice_subrange};

use crate::state::{OpKind, VideoOp};

verus! {

/// Wire tag of a play command.
pub const PLAY_TAG: u8 = 1;

/// Wire tag of a pause command.
pub const PAUSE_TAG: u8 = 2;

/// Wire tag of a seek command.
pub const SEEK_TAG: u8 = 3;

/// Payload length of a play or pause command: tag, origin, sequence number.
pub const SHORT_LEN: usize = 17;

/// Payload length of a seek command: tag, origin, sequence number, offset.
pub const SEEK_LEN: usize = 25;

/// Why a payload was rejected.
#[derive(Clone, Copy, PartialEq, Eq, Structural, Debug)]
pub enum DecodeError {
    UnknownCommand,
}

/// The bytes a command serializes to.
pub open spec fn spec_encode(op: VideoOp) -> Seq<u8> {
    match op.kind {
        OpKind::Play => seq![PLAY_TAG] + spec_u64_to_le_bytes(op.origin) + spec_u64_to_le_bytes(
            op.seq,
        ),
        OpKind::Pause => seq![PAUSE_TAG] + spec_u64_to_le_bytes(op.origin) + spec_u64_to_le_bytes(
            op.seq,
        ),
        OpKind::Seek { offset_ms } => seq![SEEK_TAG] + spec_u64_to_le_bytes(op.origin)
            + spec_u64_to_le_bytes(op.seq) + spec_u64_to_le_bytes(offset_ms),
    }
}

/// The command a byte sequence stands for, if any: the tag must be known
/// and the length must be exactly what that tag's payload takes.
pub open spec fn spec_decode(bytes: Seq<u8>) -> Option<VideoOp> {
    if bytes.len() == SHORT_LEN && bytes[0] == PLAY_TAG {
        Some(
            VideoOp {
                kind: OpKind::Play,
                origin: spec_u64_from_le_bytes(bytes.subrange(1, 9)),
                seq: spec_u64_from_le_bytes(bytes.subrange(9, 17)),
            },
        )
    } else if bytes.len() == SHORT_LEN && bytes[0] == PAUSE_TAG {
        Some(
            VideoOp {
                kind: OpKind::Pause,
                origin: spec_u64_from_le_bytes(bytes.subrange(1, 9)),
                seq: spec_u64_from_le_bytes(bytes.subrange(9, 17)),
            },
        )
    } else if bytes.len() == SEEK_LEN && bytes[0] == SEEK_TAG {
        Some(
            VideoOp {
                kind: OpKind::Seek { offset_ms: spec_u64_from_le_bytes(bytes.subrange(17, 25)) },
                origin: spec_u64_from_le_bytes(bytes.subrange(1, 9)),
                seq: spec_u64_from_le_bytes(bytes.subrange(9, 17)),
            },
        )
    } else {
        None
    }
}

/// Serialize one command to its wire bytes.
pub fn encode(op: &VideoOp) -> (r: Vec<u8>)
    ensures
        r@ == spec_encode(*op),
{
    let mut out: Vec<u8> = Vec::new();
    match op.kind {
        OpKind::Play => out.push(PLAY_TAG),
        OpKind::Pause => out.push(PAUSE_TAG),
        OpKind::Seek { .. } => out.push(SEEK_TAG),
    }
    let origin_bytes = u64_to_le_bytes(op.origin);
    out.extend_from_slice(origin_bytes.as_slice());
    let seq_bytes = u64_to_le_bytes(op.seq);
    out.extend_from_slice(seq_bytes.as_slice());
    if let OpKind::Seek { offset_ms } = op.kind {
        let offset_bytes = u64_to_le_bytes(offset_ms);
        out.extend_from_slice(offset_bytes.as_slice());
    }
    proof {
        assert(out@ =~= spec_encode(*op));
    }
    out
}

/// Parse wire bytes back into a command; a payload nothing encodes to is
/// rejected as an unknown command.
pub fn decode(bytes: &[u8]) -> (r: Result<VideoOp, DecodeError>)
    ensures
        r == (match spec_decode(bytes@) {
            Some(op) => Ok::<VideoOp, DecodeError>(op),
            None => Err::<VideoOp, DecodeError>(DecodeError::UnknownCommand),
        }),
{
    let n = bytes.len();
    if n == SHORT_LEN {
        let tag = *slice_index_get(bytes, 0);
        if tag == PLAY_TAG || tag == PAUSE_TAG {
            let origin = u64_from_le_bytes(slice_subrange(bytes, 1, 9));
            let seq = u64_from_le_bytes(slice_subrange(bytes, 9, 17));
            let kind = if tag == PLAY_TAG {
                OpKind::Play
            } else {
                OpKind::Pause
            };
            Ok(VideoOp { kind, origin, seq })
        } else {
            Err(DecodeError::UnknownCommand)
        }
    } else if n == SEEK_LEN {
        let tag = *slice_index_get(bytes, 0);
        if tag == SEEK_TAG {
            let origin = u64_from_le_bytes(slice_subrange(bytes, 1, 9));
            let seq = u64_from_le_bytes(slice_subrange(bytes, 9, 17));
            let offset_ms = u64_from_le_bytes(slice_subrange(bytes, 17, 25));
            Ok(VideoOp { kind: OpKind::Seek { offset_ms }, origin, seq })
        } else {
            Err(DecodeError::UnknownCommand)
        }
    } else {
        Err(DecodeError::UnknownCommand)
    }
}

/// Round trip: every command decodes back from its own encoding, the seek
/// offset included.
pub proof fn lemma_codec_round_trip(op: VideoOp)
    ensures
        spec_decode(spec_encode(op)) == Some(op),
{
    lemma_auto_spec_u64_to_from_le_bytes();
    let e = spec_encode(op);
    match op.kind {
        OpKind::Play => {
            assert(e.subrange(1, 9) =~= spec_u64_to_le_bytes(op.origin));
            assert(e.subrange(9, 17) =~= spec_u64_to_le_bytes(op.seq));
        },
        OpKind::Pause => {
            assert(e.subrange(1, 9) =~= spec_u64_to_le_bytes(op.origin));
            assert(e.subrange(9, 17) =~= spec_u64_to_le_bytes(op.seq));
        },
        OpKind::Seek { offset_ms } => {
            assert(e.subrange(1, 9) =~= spec_u64_to_le_bytes(op.origin));
            assert(e.subrange(9, 17) =~= spec_u64_to_le_bytes(op.seq));
            assert(e.subrange(17, 25) =~= spec_u64_to_le_bytes(offset_ms));
        },
    }
}

} // verus!
