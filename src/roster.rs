//! Read-only descriptors of a match, its server and its player slots.
use vstd::prelude::*;

verus! {

#[derive(Debug, Clone, Copy, PartialEq, Eq, Structural)]
pub enum Race {
    Human,
    Orc,
    NightElf,
    Undead,
    Random,
}

/// Name under which a race is shown to players.
pub open spec fn race_name(r: Race) -> Seq<char> {
    match r {
        Race::Human => "Human"@,
        Race::Orc => "Orc"@,
        Race::NightElf => "NightElf"@,
        Race::Undead => "Undead"@,
        Race::Random => "Random"@,
    }
}

/// Appends the name of `r` to `s`.
pub fn push_race_name(s: &mut String, r: Race)
    ensures
        final(s)@ == old(s)@ + race_name(r),
{
    match r {
        Race::Human => s.append("Human"),
        Race::Orc => s.append("Orc"),
        Race::NightElf => s.append("NightElf"),
        Race::Undead => s.append("Undead"),
        Race::Random => s.append("Random"),
    }
}

/// One slot of the match: the player in it, if any, and its settings.
pub struct GameSlot {
    pub player_name: Option<String>,
    pub team: u32,
    pub race: Race,
}

/// The match: its name, id and slots.
pub struct GameDescriptor {
    pub name: String,
    pub game_id: u64,
    pub slots: Vec<GameSlot>,
}

/// A player of the match and the slot id it plays under.
pub struct PlayerInfo {
    pub slot_player_id: u8,
    pub name: String,
}

/// The players of the match and the local player's own slot id.
pub struct SlotRoster {
    pub slot_player_id: u8,
    pub player_infos: Vec<PlayerInfo>,
}

/// What the session knows of its match.
pub struct LanGameInfo {
    pub game: GameDescriptor,
    pub slot_info: SlotRoster,
}

/// The relay server that the session goes through.
pub struct NodeInfo {
    pub id: u64,
    pub name: String,
    pub location: String,
    pub country_id: String,
}

} // verus!
