//! Picking a player for the page a session runs on. Locating and driving
//! the page's media element belongs to the surrounding host; the decision
//! which player fits which host is made here.

use vstd::prelude::*;
use vstd::string::StringExecFns;

verus! {

/// The players this library knows how to pick.
#[derive(Clone, Copy, PartialEq, Eq, Structural, Debug)]
pub enum PlayerKind {
    YouTube,
}

/// Why no player could be picked.
#[derive(Clone, Copy, PartialEq, Eq, Structural, Debug)]
pub enum PlayerError {
    UnsupportedPlayer,
}

/// The player that drives pages of the given host: exactly the YouTube
/// host is supported, and every other host is rejected.
pub fn detect_player(host: &String) -> (r: Result<PlayerKind, PlayerError>)
    ensures
        host@ == "www.youtube.com"@ ==> r == Ok::<PlayerKind, PlayerError>(PlayerKind::YouTube),
        host@ != "www.youtube.com"@ ==> r == Err::<PlayerKind, PlayerError>(
            PlayerError::UnsupportedPlayer,
        ),
{
    let youtube_host = String::from_str("www.youtube.com");
    if *host == youtube_host {
        Ok(PlayerKind::YouTube)
    } else {
        Err(PlayerError::UnsupportedPlayer)
    }
}

} // verus!
