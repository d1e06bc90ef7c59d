use vstd::prelude::*;

verus! {

/// The vitals and economy of the player in one snapshot.
#[derive(Debug, Clone, PartialEq, Eq)]
pub struct PlayerState {
    pub health: u8,
    pub armor: u8,
    pub helmet: bool,
    pub flashed: u8,
    pub smoked: u8,
    pub burning: u8,
    pub round_kills: u8,
    pub round_hs_kills: u8,
    pub equip_value: u16,
    pub money: u16,
}

/// What the player is doing in the game client.
#[derive(Debug, Clone, Copy, PartialEq, Eq, Structural)]
pub enum GameActivity {
    Menu,
    Playing,
    Typing,
}

/// The side the player is on.
#[derive(Debug, Clone, Copy, PartialEq, Eq, Structural)]
pub enum Team {
    T,
    CT,
}

/// The player a snapshot is about.
#[derive(Debug, Clone, PartialEq, Eq)]
pub struct PlayerData {
    pub steam_id: String,
    pub name: String,
    pub activity: GameActivity,
    pub xp_overload: Option<u8>,
    pub observer_slot: Option<u8>,
    pub team: Option<Team>,
    pub state: Option<PlayerState>,
}

/// The phase of the current round.
#[derive(Debug, Clone, Copy, PartialEq, Eq, Structural)]
pub enum RoundPhase {
    Live,
    FreezeTime,
    WarmUp,
    Over,
}

/// The current round.
#[derive(Debug, Clone, Copy, PartialEq, Eq, Structural)]
pub struct RoundData {
    pub phase: RoundPhase,
}

/// One snapshot of the game, as the webhook delivers it. A missing part
/// means that the game has nothing to say about it yet (main menu).
#[derive(Debug, Clone, PartialEq, Eq)]
pub struct GameData {
    pub player: Option<PlayerData>,
    pub round: Option<RoundData>,
}

/// The wire name of each round phase.
pub open spec fn phase_name(phase: RoundPhase) -> Seq<char> {
    match phase {
        RoundPhase::Live => seq!['l', 'i', 'v', 'e'],
        RoundPhase::FreezeTime => seq!['f', 'r', 'e', 'e', 'z', 'e', 't', 'i', 'm', 'e'],
        RoundPhase::WarmUp => seq!['w', 'a', 'r', 'm', 'u', 'p'],
        RoundPhase::Over => seq!['o', 'v', 'e', 'r'],
    }
}

/// The character-by-character equality of two strings.
pub fn same_text(a: &str, b: &str) -> (r: bool)
    ensures
        r == (a@ == b@),
{
    let n = a.unicode_len();
    if n != b.unicode_len() {
        return false;
    }
    let mut i: usize = 0;
    while i < n
        invariant
            n == a@.len(),
            n == b@.len(),
            i <= n,
            forall|j: int| 0 <= j < i ==> a@[j] == b@[j],
        decreases n - i,
    {
        if a.get_char(i) != b.get_char(i) {
            return false;
        }
        i = i + 1;
    }
    assert(a@ =~= b@);
    true
}

impl RoundPhase {
    /// The phase whose wire name is `name`, if any.
    pub fn from_name(name: &str) -> (r: Option<RoundPhase>)
        ensures
            match r {
                Some(p) => phase_name(p) == name@,
                None => forall|p: RoundPhase| phase_name(p) != name@,
            },
    {
        let live = "live";
        let freeze = "freezetime";
        let warmup = "warmup";
        let over = "over";
        proof {
            reveal_strlit("live");
            reveal_strlit("freezetime");
            reveal_strlit("warmup");
            reveal_strlit("over");
            assert(live@ =~= phase_name(RoundPhase::Live));
            assert(freeze@ =~= phase_name(RoundPhase::FreezeTime));
            assert(warmup@ =~= phase_name(RoundPhase::WarmUp));
            assert(over@ =~= phase_name(RoundPhase::Over));
        }
        if same_text(name, live) {
            Some(RoundPhase::Live)
        } else if same_text(name, freeze) {
            Some(RoundPhase::FreezeTime)
        } else if same_text(name, warmup) {
            Some(RoundPhase::WarmUp)
        } else if same_text(name, over) {
            Some(RoundPhase::Over)
        } else {
            None
        }
    }
}

} // verus!
