//! What the registry of tracked players decides: which player a lookup by
//! name yields, and which of the player's matches are kept.

use crate::clock::Timestamp;
use crate::models::player::Player;
use crate::models::pubg::{PubgMatchRef, PubgPlayerData, PubgPlayerResponse};
use vstd::prelude::*;
use vstd::string::*;

verus! {

/// How many of a player's most recent matches the registry keeps.
pub const RECENT_MATCHES: usize = 5;

/// Why the registry has no answer.
#[derive(Clone, Copy, Debug, PartialEq, Eq, Structural)]
pub enum PlayerError {
    /// The player is not tracked, or the API knows no player of that name.
    NotFound,
    /// The API no longer knows a tracked player.
    NotFoundInApi,
}

impl PlayerError {
    /// The error in words.
    pub open spec fn message(self) -> Seq<char> {
        match self {
            PlayerError::NotFound => "Player not found"@,
            PlayerError::NotFoundInApi => "Player not found in PUBG API"@,
        }
    }

    /// The error in words.
    pub fn to_string(&self) -> (text: String)
        ensures
            text@ == self.message(),
    {
        match self {
            PlayerError::NotFound => String::from_str("Player not found"),
            PlayerError::NotFoundInApi => String::from_str("Player not found in PUBG API"),
        }
    }
}

/// How many matches are kept of `available` ones.
pub open spec fn kept_matches(available: nat) -> nat {
    if available < 5 {
        available
    } else {
        5
    }
}

/// `ids` are the identifiers of the first matches of `refs`, in their order:
/// all of them, or the first five if there are more.
pub open spec fn is_recent_ids(ids: Seq<String>, refs: Seq<PubgMatchRef>) -> bool {
    &&& ids.len() == kept_matches(refs.len())
    &&& forall|i: int| 0 <= i < ids.len() ==> (#[trigger] ids[i])@ == refs[i].id@
}

/// The identifiers of the player's most recent matches that the registry
/// keeps.
pub fn recent_match_ids(data: &PubgPlayerData) -> (ids: Vec<String>)
    ensures
        is_recent_ids(ids@, data.relationships.matches.data@),
{
    let refs = &data.relationships.matches.data;
    let mut ids: Vec<String> = Vec::new();
    let mut i: usize = 0;
    while i < refs.len() && i < RECENT_MATCHES
        invariant
            i <= refs@.len(),
            i <= RECENT_MATCHES,
            ids@.len() == i,
            forall|j: int| 0 <= j < i ==> (#[trigger] ids@[j])@ == refs@[j].id@,
        decreases refs@.len() - i,
    {
        ids.push(refs[i].id.clone());
        i += 1;
    }
    ids
}

/// The player that a lookup by name found: the first of the answer.
pub fn found_player<'a>(response: &'a PubgPlayerResponse) -> (found: Option<
    &'a PubgPlayerData,
>)
    ensures
        match found {
            Some(data) => response.data@.len() > 0 && *data == response.data@[0],
            None => response.data@.len() == 0,
        },
{
    if response.data.len() == 0 {
        None
    } else {
        Some(&response.data[0])
    }
}

/// The record of a player that a lookup by name on `shard` answered with
/// `response`, first seen at `created_at` and refreshed at
/// `refreshed_at`. A lookup that found nobody is an error.
pub fn add_player_at(
    response: &PubgPlayerResponse,
    shard: &str,
    created_at: Timestamp,
    refreshed_at: Timestamp,
) -> (r: Result<Player, PlayerError>)
    ensures
        match r {
            Ok(player) => {
                &&& response.data@.len() > 0
                &&& player.id.is_none()
                &&& player.account_id@ == response.data@[0].id@
                &&& player.name@ == response.data@[0].attributes.name@
                &&& player.shard@ == shard@
                &&& is_recent_ids(
                    player.last_matches@,
                    response.data@[0].relationships.matches.data@,
                )
                &&& player.last_refreshed_at == Some(refreshed_at)
                &&& player.created_at == created_at
                &&& player.summary.is_none()
            },
            Err(error) => response.data@.len() == 0 && error == PlayerError::NotFound,
        },
{
    match found_player(response) {
        Some(data) => {
            let mut player = Player::new_at(
                data.id.clone(),
                data.attributes.name.clone(),
                String::from_str(shard),
                created_at,
            );
            player.last_matches = recent_match_ids(data);
            player.last_refreshed_at = Some(refreshed_at);
            Ok(player)
        },
        None => Err(PlayerError::NotFound),
    }
}

/// The record of a player that a lookup by name on `shard` answered with
/// `response`, first seen and refreshed now.
pub fn add_player(response: &PubgPlayerResponse, shard: &str) -> (r: Result<
    Player,
    PlayerError,
>)
    ensures
        match r {
            Ok(player) => {
                &&& response.data@.len() > 0
                &&& player.id.is_none()
                &&& player.account_id@ == response.data@[0].id@
                &&& player.name@ == response.data@[0].attributes.name@
                &&& player.shard@ == shard@
                &&& is_recent_ids(
                    player.last_matches@,
                    response.data@[0].relationships.matches.data@,
                )
                &&& player.last_refreshed_at matches Some(at) && at.in_range()
                &&& player.created_at.in_range()
                &&& player.summary.is_none()
            },
            Err(error) => response.data@.len() == 0 && error == PlayerError::NotFound,
        },
{
    let created_at = Timestamp::now();
    let refreshed_at = Timestamp::now();
    add_player_at(response, shard, created_at, refreshed_at)
}

/// What becomes of a request to track a player.
#[derive(Debug)]
pub enum Tracking {
    /// The registry has the player's account already: this is its record.
    Already(Player),
    /// The player is new to the registry: this record is to be stored.
    Create(Player),
}

/// `player` is the record of a player new to the registry, made of what a
/// lookup on `shard` found.
pub open spec fn is_new_record(player: Player, found: PubgPlayerData, shard: Seq<char>) -> bool {
    &&& player.id.is_none()
    &&& player.account_id@ == found.id@
    &&& player.name@ == found.attributes.name@
    &&& player.shard@ == shard
    &&& is_recent_ids(player.last_matches@, found.relationships.matches.data@)
    &&& player.summary.is_none()
}

/// Decides what becomes of a request to track the player that a lookup by
/// name on `shard` answered with `response`. `known` is what the registry
/// holds for the account that was found. A lookup that found nobody is an
/// error. An account that the registry holds keeps its record; else a record
/// is made, first seen at `created_at` and refreshed at `refreshed_at`.
pub fn track_player_at(
    response: &PubgPlayerResponse,
    shard: &str,
    known: Option<Player>,
    created_at: Timestamp,
    refreshed_at: Timestamp,
) -> (r: Result<Tracking, PlayerError>)
    ensures
        if response.data@.len() == 0 {
            r matches Err(error) && error == PlayerError::NotFound
        } else {
            match known {
                Some(record) => r matches Ok(Tracking::Already(same)) && same == record,
                None => {
                    &&& r matches Ok(Tracking::Create(player))
                    &&& is_new_record(player, response.data@[0], shard@)
                    &&& player.last_refreshed_at == Some(refreshed_at)
                    &&& player.created_at == created_at
                },
            }
        },
{
    if response.data.len() == 0 {
        return Err(PlayerError::NotFound);
    }
    match known {
        Some(record) => Ok(Tracking::Already(record)),
        None => match add_player_at(response, shard, created_at, refreshed_at) {
            Ok(player) => Ok(Tracking::Create(player)),
            Err(error) => Err(error),
        },
    }
}

/// Decides what becomes of a request to track a player, reading the clock
/// for a record that is made. See `track_player_at`.
pub fn track_player(response: &PubgPlayerResponse, shard: &str, known: Option<Player>) -> (r:
    Result<Tracking, PlayerError>)
    ensures
        if response.data@.len() == 0 {
            r matches Err(error) && error == PlayerError::NotFound
        } else {
            match known {
                Some(record) => r matches Ok(Tracking::Already(same)) && same == record,
                None => {
                    &&& r matches Ok(Tracking::Create(player))
                    &&& is_new_record(player, response.data@[0], shard@)
                    &&& player.last_refreshed_at matches Some(at) && at.in_range()
                    &&& player.created_at.in_range()
                },
            }
        },
{
    let created_at = Timestamp::now();
    let refreshed_at = Timestamp::now();
    track_player_at(response, shard, known, created_at, refreshed_at)
}

/// The record of `player` after a lookup by name answered with
/// `response` at `now`: the recent matches are replaced, the rest stays.
/// A lookup that found nobody is an error.
pub fn refresh_player_at(player: Player, response: &PubgPlayerResponse, now: Timestamp) -> (r:
    Result<Player, PlayerError>)
    ensures
        match r {
            Ok(updated) => {
                &&& response.data@.len() > 0
                &&& updated.id == player.id
                &&& updated.account_id == player.account_id
                &&& updated.name == player.name
                &&& updated.shard == player.shard
                &&& is_recent_ids(
                    updated.last_matches@,
                    response.data@[0].relationships.matches.data@,
                )
                &&& updated.last_refreshed_at == Some(now)
                &&& updated.created_at == player.created_at
                &&& updated.summary == player.summary
            },
            Err(error) => response.data@.len() == 0 && error == PlayerError::NotFoundInApi,
        },
{
    match found_player(response) {
        Some(data) => {
            let mut updated = player;
            updated.last_matches = recent_match_ids(data);
            updated.last_refreshed_at = Some(now);
            Ok(updated)
        },
        None => Err(PlayerError::NotFoundInApi),
    }
}

/// The record of `player` after a lookup by name answered with
/// `response` now.
pub fn refresh_player(player: Player, response: &PubgPlayerResponse) -> (r: Result<
    Player,
    PlayerError,
>)
    ensures
        match r {
            Ok(updated) => {
                &&& response.data@.len() > 0
                &&& updated.id == player.id
                &&& updated.account_id == player.account_id
                &&& updated.name == player.name
                &&& updated.shard == player.shard
                &&& is_recent_ids(
                    updated.last_matches@,
                    response.data@[0].relationships.matches.data@,
                )
                &&& updated.last_refreshed_at matches Some(at) && at.in_range()
                &&& updated.created_at == player.created_at
                &&& updated.summary == player.summary
            },
            Err(error) => response.data@.len() == 0 && error == PlayerError::NotFoundInApi,
        },
{
    let now = Timestamp::now();
    refresh_player_at(player, response, now)
}

/// The recent matches of the player that the registry found, if it
/// found one.
pub fn get_player_matches(found: Option<Player>) -> (r: Result<Vec<String>, PlayerError>)
    ensures
        match found {
            Some(player) => r == Ok::<Vec<String>, PlayerError>(player.last_matches),
            None => r == Err::<Vec<String>, PlayerError>(PlayerError::NotFound),
        },
{
    match found {
        Some(player) => Ok(player.last_matches),
        None => Err(PlayerError::NotFound),
    }
}

} // verus!
