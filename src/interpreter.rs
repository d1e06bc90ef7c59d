use vstd::prelude::*;
use crate::controller::PlaybackState;
use crate::gamestate::{GameData, RoundPhase};

verus! {

/// The watched player's identity, fixed for the life of the process.
#[derive(Debug, Clone, PartialEq, Eq)]
pub struct AppState {
    pub steam_id: String,
}

/// The music to aim for given whether a round is being played and the
/// player's health, when known: silence only while the player is alive
/// in a live round.
pub open spec fn intent_for(in_play: bool, health: Option<int>) -> PlaybackState {
    if in_play && health is Some && health->0 > 0 {
        PlaybackState::Pause
    } else {
        PlaybackState::Play
    }
}

/// The snapshot is about the watched player.
pub open spec fn is_watched(game_data: GameData, steam_id: Seq<char>) -> bool {
    game_data.player is Some && game_data.player->0.steam_id@ == steam_id
}

/// The round of the snapshot is live.
pub open spec fn round_is_live(game_data: GameData) -> bool {
    game_data.round is Some && game_data.round->0.phase == RoundPhase::Live
}

/// The health of the player of the snapshot, when it is reported.
pub open spec fn reported_health(game_data: GameData) -> Option<int> {
    match game_data.player {
        Some(p) => match p.state {
            Some(s) => Some(s.health as int),
            None => None,
        },
        None => None,
    }
}

/// The music state wanted for a snapshot: paused only while the watched
/// player is alive in a live round.
pub open spec fn desired_state_of(game_data: GameData, steam_id: Seq<char>) -> PlaybackState {
    intent_for(
        is_watched(game_data, steam_id) && round_is_live(game_data),
        reported_health(game_data),
    )
}

/// The decision for a snapshot: nothing for a snapshot about another
/// player or about no player, else the wanted music state.
pub open spec fn decision_of(game_data: GameData, steam_id: Seq<char>) -> Option<PlaybackState> {
    if is_watched(game_data, steam_id) {
        Some(desired_state_of(game_data, steam_id))
    } else {
        None
    }
}

/// The music state for a round, given whether it is being played and the
/// player's health.
pub fn intent(in_play: bool, health: Option<i64>) -> (r: PlaybackState)
    ensures
        r == intent_for(
            in_play,
            match health {
                Some(h) => Some(h as int),
                None => None,
            },
        ),
{
    match health {
        Some(h) if in_play && h > 0 => PlaybackState::Pause,
        _ => PlaybackState::Play,
    }
}

impl AppState {
    pub fn new(steam_id: String) -> (r: AppState)
        ensures
            r.steam_id == steam_id,
    {
        AppState { steam_id }
    }

    /// The music state wanted for a snapshot.
    pub fn desired_state(&self, game_data: &GameData) -> (r: PlaybackState)
        ensures
            r == desired_state_of(*game_data, self.steam_id@),
    {
        let mut in_play = false;
        let mut health: Option<i64> = None;
        if let Some(player) = &game_data.player {
            if let Some(state) = &player.state {
                health = Some(state.health as i64);
            }
            if let Some(round) = &game_data.round {
                in_play = round.phase == RoundPhase::Live && player.steam_id == self.steam_id;
            }
        }
        intent(in_play, health)
    }

    /// What to ask of the music player for a snapshot, if anything.
    pub fn decide(&self, game_data: &GameData) -> (r: Option<PlaybackState>)
        ensures
            r == decision_of(*game_data, self.steam_id@),
            !is_watched(*game_data, self.steam_id@) ==> r is None,
            is_watched(*game_data, self.steam_id@) && !round_is_live(*game_data) ==> r
                == Some(PlaybackState::Play),
            is_watched(*game_data, self.steam_id@) && round_is_live(*game_data) ==> {
                &&& r is Some
                &&& (r == Some(PlaybackState::Pause) <==> (reported_health(*game_data) is Some
                    && reported_health(*game_data)->0 > 0))
            },
    {
        match &game_data.player {
            Some(player) => {
                if player.steam_id == self.steam_id {
                    Some(self.desired_state(game_data))
                } else {
                    None
                }
            },
            None => None,
        }
    }
}

} // verus!
