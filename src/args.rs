use vstd::prelude::*;

verus! {

/// The server's settings: where to listen, where the daemon is, whose
/// snapshots to act on, and where the game is installed.
#[derive(Debug, Clone, PartialEq, Eq)]
pub struct Args {
    pub listen_address: String,
    pub mpd_address: String,
    pub steam_id: String,
    pub game_path: String,
}

} // verus!
