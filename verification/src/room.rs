//! Room rendezvous helpers: fresh room identifiers drawn from the
//! alphanumeric alphabet, the rendezvous address a room maps to, and the
//! readiness rule behind waiting for peers.

use vstd::prelude::*;
use vstd::string::StringExecFns;

verus! {

/// The length of a generated room identifier.
pub const ROOM_ID_LEN: usize = 7;

/// A byte of the room-id alphabet: an ASCII digit or letter.
pub open spec fn is_alnum_byte(b: u8) -> bool {
    (48 <= b && b <= 57) || (65 <= b && b <= 90) || (97 <= b && b <= 122)
}

/// A character of the room-id alphabet: a digit or letter of either case.
pub open spec fn is_alnum_char(c: char) -> bool {
    (48 <= c as u32 && c as u32 <= 57) || (65 <= c as u32 && c as u32 <= 90) || (97 <= c as u32
        && c as u32 <= 122)
}

/// Relies on rand's `Alphanumeric` distribution: sampling it yields a byte
/// drawn from the ASCII digits and letters.
#[verifier::external_body]
fn sample_alnum_byte() -> (b: u8)
    ensures
        is_alnum_byte(b),
{
    rand::Rng::sample(&mut rand::thread_rng(), rand::distributions::Alphanumeric)
}

/// Relies on `String::from_utf8`: ASCII bytes decode to the string whose
/// characters carry exactly those code points, one per byte.
#[verifier::external_body]
fn ascii_bytes_to_string(bytes: Vec<u8>) -> (r: String)
    requires
        forall|i: int| 0 <= i < bytes@.len() ==> bytes@[i] < 128,
    ensures
        r@.len() == bytes@.len(),
        forall|i: int| 0 <= i < bytes@.len() ==> #[trigger] r@[i] as u32 == bytes@[i] as u32,
{
    String::from_utf8(bytes).unwrap()
}

/// Generate a fresh room identifier: seven characters drawn from the
/// alphanumeric alphabet.
pub fn create_room_id() -> (id: String)
    ensures
        id@.len() == ROOM_ID_LEN,
        forall|i: int| 0 <= i < id@.len() ==> is_alnum_char(#[trigger] id@[i]),
{
    let mut bytes: Vec<u8> = Vec::new();
    let mut i: usize = 0;
    while i < ROOM_ID_LEN
        invariant
            i <= ROOM_ID_LEN,
            bytes@.len() == i,
            forall|j: int| 0 <= j < bytes@.len() ==> is_alnum_byte(#[trigger] bytes@[j]),
        decreases ROOM_ID_LEN - i,
    {
        let b = sample_alnum_byte();
        bytes.push(b);
        i = i + 1;
    }
    ascii_bytes_to_string(bytes)
}

/// The rendezvous address a room maps to: the scheme, the signaling host,
/// then the room id as the path.
pub fn signaling_url(host: &str, room_id: &str) -> (url: String)
    ensures
        url@ == "ws://"@ + host@ + "/"@ + room_id@,
{
    let mut url = String::from_str("ws://");
    url.append(host);
    url.append("/");
    url.append(room_id);
    proof {
        assert(url@ =~= "ws://"@ + host@ + "/"@ + room_id@);
    }
    url
}

/// The readiness rule behind waiting for peers: satisfied exactly when the
/// connected-peer count has reached the wanted number.
pub fn peers_ready(connected: usize, wanted: usize) -> (r: bool)
    ensures
        r == (connected >= wanted),
{
    connected >= wanted
}

} // verus!
