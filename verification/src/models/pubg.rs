//! The payloads of the external match API, as far as the tracker reads them.
//!
//! Amounts that the API reports with a fractional part (damage dealt, time
//! survived) are carried as whole numbers of thousandths.

use vstd::prelude::*;

verus! {

/// Answer to a player lookup by name.
#[derive(Clone, Debug)]
pub struct PubgPlayerResponse {
    pub data: Vec<PubgPlayerData>,
}

#[derive(Clone, Debug)]
pub struct PubgPlayerData {
    pub type_: String,
    /// The player's external account identifier.
    pub id: String,
    pub attributes: PubgPlayerAttributes,
    pub relationships: PubgPlayerRelationships,
}

#[derive(Clone, Debug)]
pub struct PubgPlayerAttributes {
    pub name: String,
    pub shard_id: String,
    pub created_at: Option<String>,
    pub updated_at: Option<String>,
}

#[derive(Clone, Debug)]
pub struct PubgPlayerRelationships {
    pub matches: PubgMatchesData,
}

/// The player's recent matches, most recent first.
#[derive(Clone, Debug)]
pub struct PubgMatchesData {
    pub data: Vec<PubgMatchRef>,
}

#[derive(Clone, Debug)]
pub struct PubgMatchRef {
    pub type_: String,
    pub id: String,
}

/// One completed match with everything the API includes about it.
#[derive(Clone, Debug)]
pub struct PubgMatchResponse {
    pub data: PubgMatchData,
    pub included: Vec<PubgMatchIncluded>,
}

#[derive(Clone, Debug)]
pub struct PubgMatchData {
    pub type_: String,
    pub id: String,
    pub attributes: PubgMatchAttributes,
}

#[derive(Clone, Debug)]
pub struct PubgMatchAttributes {
    /// When the match was created, as RFC 3339 text.
    pub created_at: String,
    pub duration: i32,
    pub game_mode: String,
    pub map_name: String,
    pub is_custom_match: bool,
    pub match_type: Option<String>,
    pub shard_id: String,
}

/// An object that accompanies a match.
#[derive(Clone, Debug)]
#[allow(inconsistent_fields)]
pub enum PubgMatchIncluded {
    Participant { id: String, attributes: PubgParticipantAttributes },
    Roster { id: String, attributes: PubgRosterAttributes },
    Other,
}

#[derive(Clone, Debug)]
pub struct PubgParticipantAttributes {
    pub stats: PubgParticipantStats,
    pub actor: Option<String>,
    pub shard_id: String,
}

/// How one player did in one match.
#[derive(Clone, Debug)]
pub struct PubgParticipantStats {
    pub dbnos: i32,
    pub assists: i32,
    pub boosts: i32,
    /// Damage dealt, in thousandths of a hit point.
    pub damage_dealt: u32,
    /// `"alive"` if the player survived the match.
    pub death_type: String,
    pub headshot_kills: i32,
    pub heals: i32,
    pub kill_place: i32,
    pub kill_streaks: i32,
    pub kills: i32,
    pub name: String,
    /// The external account identifier of the player.
    pub player_id: String,
    pub revives: i32,
    pub road_kills: i32,
    pub team_kills: i32,
    /// Time survived, in thousandths of a second.
    pub time_survived: u32,
    pub vehicle_destroys: i32,
    pub weapons_acquired: i32,
    /// Finishing placement; 1 is a win.
    pub win_place: i32,
}

#[derive(Clone, Debug)]
pub struct PubgRosterAttributes {
    pub stats: PubgRosterStats,
    pub shard_id: String,
    pub won: Option<String>,
}

#[derive(Clone, Debug)]
pub struct PubgRosterStats {
    pub rank: i32,
    pub team_id: i32,
}

/// Error body of the external API.
#[derive(Clone, Debug)]
pub struct PubgErrorResponse {
    pub errors: Vec<PubgError>,
}

#[derive(Clone, Debug)]
pub struct PubgError {
    pub title: String,
    pub detail: String,
}

} // verus!
