//! Tracked players as the registry keeps them.

use crate::clock::Timestamp;
use crate::models::stats::Ratio;
use vstd::prelude::*;

verus! {

/// A tracked player.
#[derive(Clone, Debug)]
pub struct Player {
    /// Identifier in the registry (24 hexadecimal digits), once stored.
    pub id: Option<String>,
    /// The player's external account identifier.
    pub account_id: String,
    pub name: String,
    pub shard: String,
    /// Identifiers of the player's most recent matches.
    pub last_matches: Vec<String>,
    pub last_refreshed_at: Option<Timestamp>,
    pub created_at: Timestamp,
    pub summary: Option<PlayerSummary>,
}

/// Career figures of a player. `avg_damage` is in thousandths of a hit point.
#[derive(Clone, Copy, Debug, PartialEq, Eq, Structural)]
pub struct PlayerSummary {
    pub total_matches: i32,
    pub total_kills: i32,
    pub total_deaths: i32,
    pub kd_ratio: Ratio,
    pub win_rate: Ratio,
    pub avg_damage: u64,
}

/// Request to track a player.
#[derive(Clone, Debug)]
pub struct CreatePlayerRequest {
    /// The player's name: 1 to 100 characters.
    pub name: String,
    /// The shard to look the player up on: at least one character.
    pub shard: String,
}

/// What is wrong with a request to track a player.
#[derive(Clone, Copy, Debug, PartialEq, Eq, Structural)]
pub struct InvalidRequest {
    /// The name is empty or longer than 100 characters.
    pub name: bool,
    /// The shard is empty.
    pub shard: bool,
}

/// Longest name of a player.
pub const MAX_NAME_LENGTH: u64 = 100;

/// The number of characters lies within the bounds that are given.
pub open spec fn length_within(text: Seq<char>, min: Option<u64>, max: Option<u64>) -> bool {
    &&& min matches Some(least) ==> text.len() >= least
    &&& max matches Some(most) ==> text.len() <= most
}

/// Checks a length with `validator::validate_length`, which counts the
/// characters of the text and compares the count with the bounds that are
/// given.
#[verifier::external_body]
fn validate_length(text: &String, min: Option<u64>, max: Option<u64>) -> (ok: bool)
    ensures
        ok == length_within(text@, min, max),
{
    validator::validate_length(text, min, max, None)
}

impl CreatePlayerRequest {
    /// The request keeps the rules: a name of 1 to 100 characters and a
    /// shard that is not empty.
    pub open spec fn valid(&self) -> bool {
        1 <= self.name@.len() <= 100 && self.shard@.len() >= 1
    }

    /// Checks the request against the rules.
    pub fn validate(&self) -> (r: Result<(), InvalidRequest>)
        ensures
            match r {
                Ok(_) => self.valid(),
                Err(invalid) => {
                    &&& !self.valid()
                    &&& invalid.name == !(1 <= self.name@.len() <= 100)
                    &&& invalid.shard == (self.shard@.len() == 0)
                },
            },
    {
        let name_ok = validate_length(&self.name, Some(1), Some(MAX_NAME_LENGTH));
        let shard_ok = validate_length(&self.shard, Some(1), None);
        if name_ok && shard_ok {
            Ok(())
        } else {
            Err(InvalidRequest { name: !name_ok, shard: !shard_ok })
        }
    }
}

/// A player as shown to callers.
#[derive(Clone, Debug)]
pub struct PlayerResponse {
    /// The registry identifier; empty for a player that was never stored.
    pub id: String,
    pub account_id: String,
    pub name: String,
    pub shard: String,
    pub last_refreshed_at: Option<Timestamp>,
    pub created_at: Timestamp,
    pub summary: Option<PlayerSummary>,
}

impl Player {
    /// A player that was just looked up: not stored, without matches, first
    /// seen now.
    pub fn new(account_id: String, name: String, shard: String) -> (r: Player)
        ensures
            r.id.is_none(),
            r.account_id == account_id,
            r.name == name,
            r.shard == shard,
            r.last_matches@.len() == 0,
            r.last_refreshed_at.is_none(),
            r.created_at.in_range(),
            r.summary.is_none(),
    {
        let now = Timestamp::now();
        Player::new_at(account_id, name, shard, now)
    }

    /// A player first seen at `now`: not stored, without matches.
    pub fn new_at(account_id: String, name: String, shard: String, now: Timestamp) -> (r: Player)
        ensures
            r.id.is_none(),
            r.account_id == account_id,
            r.name == name,
            r.shard == shard,
            r.last_matches@.len() == 0,
            r.last_refreshed_at.is_none(),
            r.created_at == now,
            r.summary.is_none(),
    {
        Player {
            id: None,
            account_id,
            name,
            shard,
            last_matches: Vec::new(),
            last_refreshed_at: None,
            created_at: now,
            summary: None,
        }
    }
}

impl PlayerResponse {
    /// `self` is what is shown of `player`: everything but the recent
    /// matches. A player that was never stored is shown with an empty
    /// identifier.
    pub open spec fn shows(self, player: Player) -> bool {
        &&& self.id@ == (match player.id {
            Some(id) => id@,
            None => Seq::<char>::empty(),
        })
        &&& self.account_id@ == player.account_id@
        &&& self.name@ == player.name@
        &&& self.shard@ == player.shard@
        &&& self.last_refreshed_at == player.last_refreshed_at
        &&& self.created_at == player.created_at
        &&& self.summary == player.summary
    }

    /// What is shown of `player`.
    pub fn from(player: Player) -> (r: PlayerResponse)
        ensures
            r.shows(player),
    {
        let id = match player.id {
            Some(id) => id,
            None => String::new(),
        };
        PlayerResponse {
            id,
            account_id: player.account_id,
            name: player.name,
            shard: player.shard,
            last_refreshed_at: player.last_refreshed_at,
            created_at: player.created_at,
            summary: player.summary,
        }
    }

    /// What is shown of `player`, which stays with the caller.
    pub fn of(player: &Player) -> (r: PlayerResponse)
        ensures
            r.shows(*player),
    {
        let id = match &player.id {
            Some(id) => id.clone(),
            None => String::new(),
        };
        PlayerResponse {
            id,
            account_id: player.account_id.clone(),
            name: player.name.clone(),
            shard: player.shard.clone(),
            last_refreshed_at: player.last_refreshed_at,
            created_at: player.created_at,
            summary: player.summary,
        }
    }
}

} // verus!
