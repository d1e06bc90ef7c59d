use vstd::prelude::*;
use crate::controller::PlaybackState;
use crate::gamestate::{phase_name, RoundPhase};
use crate::interpreter::{intent, intent_for};

verus! {

/// The player's vitals, in the flat snapshot.
#[derive(Debug, Clone, Copy, PartialEq, Eq, Structural)]
pub struct PlayerState {
    pub health: i32,
}

/// The player, in the flat snapshot.
#[derive(Debug, Clone, PartialEq, Eq)]
pub struct PlayerData {
    pub steamid: String,
    pub state: PlayerState,
}

/// The round, in the flat snapshot: the phase by its wire name.
#[derive(Debug, Clone, PartialEq, Eq)]
pub struct RoundData {
    pub phase: String,
}

/// A flat snapshot, in which the player and the round are always present.
#[derive(Debug, Clone, PartialEq, Eq)]
pub struct CsgoData {
    pub player: PlayerData,
    pub round: RoundData,
}

/// A round is being played unless its phase is named as one of the
/// pauses in play (freeze time, warm-up, round over).
pub open spec fn flat_in_play(phase: Seq<char>) -> bool {
    phase != phase_name(RoundPhase::FreezeTime) && phase != phase_name(RoundPhase::WarmUp)
        && phase != phase_name(RoundPhase::Over)
}

/// The music state wanted for a flat snapshot: paused only while the
/// player is alive in a round being played.
pub fn try_play_or_pause(game_data: &CsgoData) -> (r: PlaybackState)
    ensures
        r == intent_for(
            flat_in_play(game_data.round.phase@),
            Some(game_data.player.state.health as int),
        ),
{
    let in_play = match RoundPhase::from_name(game_data.round.phase.as_str()) {
        Some(RoundPhase::FreezeTime) | Some(RoundPhase::WarmUp) | Some(RoundPhase::Over) => false,
        _ => true,
    };
    intent(in_play, Some(game_data.player.state.health as i64))
}

} // verus!
