use cs2_mpd::controller::PlaybackState;
use cs2_mpd::csgo_data::{self, CsgoData};
use cs2_mpd::gamestate::{
    same_text, GameActivity, GameData, PlayerData, PlayerState, RoundData, RoundPhase, Team,
};
use cs2_mpd::interpreter::{intent, AppState};

fn vitals(health: u8) -> PlayerState {
    PlayerState {
        health,
        armor: 100,
        helmet: true,
        flashed: 0,
        smoked: 0,
        burning: 0,
        round_kills: 0,
        round_hs_kills: 0,
        equip_value: 4700,
        money: 800,
    }
}

fn player(steam_id: &str, state: Option<PlayerState>) -> PlayerData {
    PlayerData {
        steam_id: steam_id.to_string(),
        name: "n00b".to_string(),
        activity: GameActivity::Playing,
        xp_overload: None,
        observer_slot: Some(1),
        team: Some(Team::CT),
        state,
    }
}

fn snapshot(phase: Option<RoundPhase>, player: Option<PlayerData>) -> GameData {
    GameData { player, round: phase.map(|phase| RoundData { phase }) }
}

fn watching(id: &str) -> AppState {
    AppState::new(id.to_string())
}

#[test]
fn live_and_alive_pauses() {
    let g = snapshot(Some(RoundPhase::Live), Some(player("X", Some(vitals(80)))));
    assert_eq!(watching("X").decide(&g), Some(PlaybackState::Pause));
}

#[test]
fn live_and_dead_plays() {
    let g = snapshot(Some(RoundPhase::Live), Some(player("X", Some(vitals(0)))));
    assert_eq!(watching("X").decide(&g), Some(PlaybackState::Play));
}

#[test]
fn warmup_plays_regardless_of_vitals() {
    let without = snapshot(Some(RoundPhase::WarmUp), Some(player("X", None)));
    let alive = snapshot(Some(RoundPhase::WarmUp), Some(player("X", Some(vitals(100)))));
    assert_eq!(watching("X").decide(&without), Some(PlaybackState::Play));
    assert_eq!(watching("X").decide(&alive), Some(PlaybackState::Play));
}

#[test]
fn other_player_is_ignored() {
    let g = snapshot(Some(RoundPhase::Live), Some(player("Y", Some(vitals(80)))));
    assert_eq!(watching("X").decide(&g), None);
}

#[test]
fn absent_player_is_ignored() {
    let g = snapshot(Some(RoundPhase::Live), None);
    assert_eq!(watching("X").decide(&g), None);
    assert_eq!(watching("X").decide(&snapshot(None, None)), None);
}

#[test]
fn downtime_phases_play() {
    for phase in [RoundPhase::FreezeTime, RoundPhase::WarmUp, RoundPhase::Over] {
        let g = snapshot(Some(phase), Some(player("X", Some(vitals(100)))));
        assert_eq!(watching("X").decide(&g), Some(PlaybackState::Play));
    }
    let no_round = snapshot(None, Some(player("X", Some(vitals(100)))));
    assert_eq!(watching("X").decide(&no_round), Some(PlaybackState::Play));
}

#[test]
fn live_without_vitals_plays() {
    let g = snapshot(Some(RoundPhase::Live), Some(player("X", None)));
    assert_eq!(watching("X").decide(&g), Some(PlaybackState::Play));
}

#[test]
fn live_with_one_health_pauses() {
    let g = snapshot(Some(RoundPhase::Live), Some(player("X", Some(vitals(1)))));
    assert_eq!(watching("X").decide(&g), Some(PlaybackState::Pause));
}

#[test]
fn desired_state_of_other_player_is_play() {
    let g = snapshot(Some(RoundPhase::Live), Some(player("Y", Some(vitals(80)))));
    assert_eq!(watching("X").desired_state(&g), PlaybackState::Play);
    let mine = snapshot(Some(RoundPhase::Live), Some(player("X", Some(vitals(80)))));
    assert_eq!(watching("X").desired_state(&mine), PlaybackState::Pause);
}

#[test]
fn identity_match_is_exact() {
    let g = snapshot(Some(RoundPhase::Live), Some(player("12345", Some(vitals(80)))));
    assert_eq!(watching("1234").decide(&g), None);
    assert_eq!(watching("123456").decide(&g), None);
    assert_eq!(watching("12345").decide(&g), Some(PlaybackState::Pause));
}

#[test]
fn intent_table() {
    assert_eq!(intent(true, Some(5)), PlaybackState::Pause);
    assert_eq!(intent(true, Some(0)), PlaybackState::Play);
    assert_eq!(intent(true, Some(-3)), PlaybackState::Play);
    assert_eq!(intent(true, None), PlaybackState::Play);
    assert_eq!(intent(false, Some(5)), PlaybackState::Play);
}

#[test]
fn phase_names() {
    assert_eq!(RoundPhase::from_name("live"), Some(RoundPhase::Live));
    assert_eq!(RoundPhase::from_name("freezetime"), Some(RoundPhase::FreezeTime));
    assert_eq!(RoundPhase::from_name("warmup"), Some(RoundPhase::WarmUp));
    assert_eq!(RoundPhase::from_name("over"), Some(RoundPhase::Over));
    assert_eq!(RoundPhase::from_name("Live"), None);
    assert_eq!(RoundPhase::from_name(""), None);
    assert_eq!(RoundPhase::from_name("lives"), None);
}

#[test]
fn text_equality() {
    assert!(same_text("", ""));
    assert!(same_text("76561198", "76561198"));
    assert!(!same_text("7656", "76561198"));
    assert!(!same_text("abc", "abd"));
}

fn flat(phase: &str, health: i32) -> CsgoData {
    CsgoData {
        player: csgo_data::PlayerData {
            steamid: "X".to_string(),
            state: csgo_data::PlayerState { health },
        },
        round: csgo_data::RoundData { phase: phase.to_string() },
    }
}

#[test]
fn flat_snapshot_decisions() {
    assert_eq!(csgo_data::try_play_or_pause(&flat("live", 80)), PlaybackState::Pause);
    assert_eq!(csgo_data::try_play_or_pause(&flat("live", 0)), PlaybackState::Play);
    assert_eq!(csgo_data::try_play_or_pause(&flat("live", -1)), PlaybackState::Play);
    assert_eq!(csgo_data::try_play_or_pause(&flat("freezetime", 80)), PlaybackState::Play);
    assert_eq!(csgo_data::try_play_or_pause(&flat("warmup", 80)), PlaybackState::Play);
    assert_eq!(csgo_data::try_play_or_pause(&flat("over", 80)), PlaybackState::Play);
}
