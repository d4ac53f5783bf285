//! What the dashboard endpoint decides: which players a query names, how
//! many may be compared, and how a request is answered.

use crate::handlers::player_handler::{
    parse_player_id, ErrorResponse, Failure, STATUS_BAD_REQUEST, STATUS_NOT_FOUND,
};
use crate::models::player::{Player, PlayerResponse};
use crate::models::stats::{PlayerStats, StatsResponse};
use crate::object_id::{names_object_id, object_id_of};
use crate::text::{lemma_split_on_nonempty, split_trimmed, trimmed_pieces};
use vstd::prelude::*;
use vstd::string::*;

verus! {

/// The most players that one dashboard compares.
pub const MAX_COMPARED_PLAYERS: usize = 10;

/// The query of the dashboard.
#[derive(Debug)]
pub struct DashboardQuery {
    /// The players' identifiers, separated by commas.
    pub player_ids: String,
    pub period: String,
    pub mode: String,
    pub shard: String,
}

#[derive(Debug)]
pub struct DashboardResponse {
    pub players: Vec<PlayerWithStats>,
}

#[derive(Debug)]
pub struct PlayerWithStats {
    pub player: PlayerResponse,
    pub stats: StatsResponse,
}

/// The period of a query that names none.
pub fn default_period() -> (period: String)
    ensures
        period@ == "7d"@,
{
    String::from_str("7d")
}

/// The mode of a query that names none.
pub fn default_mode() -> (mode: String)
    ensures
        mode@ == "all"@,
{
    String::from_str("all")
}

/// The shard of a query that names none.
pub fn default_shard() -> (shard: String)
    ensures
        shard@ == "steam"@,
{
    String::from_str("steam")
}

/// Checks how many players are to be compared: at least one, at most ten.
pub fn check_player_count(count: usize) -> (r: Result<(), Failure>)
    ensures
        match r {
            Ok(_) => 1 <= count <= MAX_COMPARED_PLAYERS,
            Err(failure) => if count == 0 {
                failure.says(STATUS_BAD_REQUEST, "At least one player ID is required"@)
            } else {
                count > MAX_COMPARED_PLAYERS && failure.says(
                    STATUS_BAD_REQUEST,
                    "Maximum 10 players can be compared"@,
                )
            },
        },
{
    if count == 0 {
        Err(
            Failure {
                status: STATUS_BAD_REQUEST,
                body: ErrorResponse {
                    error: String::from_str("At least one player ID is required"),
                },
            },
        )
    } else if count > MAX_COMPARED_PLAYERS {
        Err(
            Failure {
                status: STATUS_BAD_REQUEST,
                body: ErrorResponse {
                    error: String::from_str("Maximum 10 players can be compared"),
                },
            },
        )
    } else {
        Ok(())
    }
}

/// Every piece names an identifier.
pub open spec fn all_name_ids(pieces: Seq<Seq<char>>) -> bool {
    forall|i: int| 0 <= i < pieces.len() ==> names_object_id(#[trigger] pieces[i])
}

/// Reads the players that a dashboard query names: identifiers separated by
/// commas, with white space around them ignored. A piece that is no
/// identifier fails the request, and so do more than ten players.
pub fn parse_player_ids(text: &str) -> (r: Result<Vec<String>, Failure>)
    ensures
        match r {
            Ok(ids) => {
                let pieces = trimmed_pieces(text@, ',');
                &&& all_name_ids(pieces)
                &&& 1 <= pieces.len() <= MAX_COMPARED_PLAYERS
                &&& ids@.len() == pieces.len()
                &&& forall|i: int|
                    0 <= i < ids@.len() ==> (#[trigger] ids@[i])@ == object_id_of(pieces[i])
            },
            Err(failure) => {
                let pieces = trimmed_pieces(text@, ',');
                if all_name_ids(pieces) {
                    pieces.len() > MAX_COMPARED_PLAYERS && failure.says(
                        STATUS_BAD_REQUEST,
                        "Maximum 10 players can be compared"@,
                    )
                } else {
                    failure.says(STATUS_BAD_REQUEST, "Invalid player ID format"@)
                }
            },
        },
{
    let pieces = split_trimmed(text, ',');
    proof {
        lemma_split_on_nonempty(text@, ',');
    }
    let ghost wanted = trimmed_pieces(text@, ',');
    let mut ids: Vec<String> = Vec::new();
    let mut i: usize = 0;
    while i < pieces.len()
        invariant
            i <= pieces@.len(),
            wanted == trimmed_pieces(text@, ','),
            pieces@.len() == wanted.len(),
            forall|k: int| 0 <= k < pieces@.len() ==> (#[trigger] pieces@[k])@ == wanted[k],
            ids@.len() == i,
            forall|k: int| 0 <= k < i ==> names_object_id(#[trigger] wanted[k]),
            forall|k: int| 0 <= k < i ==> (#[trigger] ids@[k])@ == object_id_of(wanted[k]),
        decreases pieces@.len() - i,
    {
        assert(pieces@[i as int]@ == wanted[i as int]);
        match parse_player_id(pieces[i].as_str()) {
            Ok(id) => {
                ids.push(id);
            },
            Err(failure) => {
                assert(!names_object_id(wanted[i as int]));
                return Err(failure);
            },
        }
        i += 1;
    }
    match check_player_count(ids.len()) {
        Ok(_) => Ok(ids),
        Err(failure) => Err(failure),
    }
}

/// The failure of a dashboard request that names a player whom the
/// registry does not know.
pub fn player_not_found(player_id: &str) -> (failure: Failure)
    ensures
        failure.says(STATUS_NOT_FOUND, "Player "@ + player_id@ + " not found"@),
{
    let mut error = String::from_str("Player ");
    error.append(player_id);
    error.append(" not found");
    Failure {
        status: STATUS_NOT_FOUND,
        body: ErrorResponse { error },
    }
}

/// What the lookup of one of the compared players comes to.
pub fn compared_player(player_id: &str, found: Result<Option<Player>, String>) -> (r: Result<
    Player,
    Failure,
>)
    ensures
        match found {
            Ok(Some(player)) => r matches Ok(same) && same == player,
            Ok(None) => r matches Err(failure) && failure.says(
                STATUS_NOT_FOUND,
                "Player "@ + player_id@ + " not found"@,
            ),
            Err(detail) => r matches Err(failure) && failure.is_failed_to(
                "fetch player"@,
                detail@,
            ),
        },
{
    match found {
        Ok(Some(player)) => Ok(player),
        Ok(None) => Err(player_not_found(player_id)),
        Err(detail) => Err(Failure::failed_to("fetch player", detail.as_str())),
    }
}

/// One row of the dashboard: a player with the summary that was looked up
/// or computed for it.
pub fn compared_stats(player: Player, computed: Result<PlayerStats, String>) -> (r: Result<
    PlayerWithStats,
    Failure,
>)
    ensures
        match computed {
            Ok(stats) => r matches Ok(row) && is_row_of(row, player, stats),
            Err(detail) => r matches Err(failure) && failure.is_failed_to("fetch stats"@, detail@),
        },
{
    match computed {
        Ok(stats) => Ok(
            PlayerWithStats {
                player: PlayerResponse::from(player),
                stats: StatsResponse::from(stats),
            },
        ),
        Err(detail) => Err(Failure::failed_to("fetch stats", detail.as_str())),
    }
}

/// A dashboard request that waits for the record of one of its players.
#[derive(Debug)]
pub struct AwaitingComparedPlayer {
    /// The players to compare, in the order of the query.
    pub player_ids: Vec<String>,
    /// The rows that are finished: one for each of the first players.
    pub rows: Vec<PlayerWithStats>,
}

/// A dashboard request that waits for the summary of one of its players.
#[derive(Debug)]
pub struct AwaitingComparedStats {
    /// The players to compare, in the order of the query.
    pub player_ids: Vec<String>,
    /// The rows that are finished: one for each of the first players.
    pub rows: Vec<PlayerWithStats>,
    /// The record of the player whose summary is awaited.
    pub player: Player,
}

/// What follows a row of the dashboard.
#[derive(Debug)]
pub enum DashboardOutcome {
    /// Look the next player up, then go on with the answer.
    NextPlayer(AwaitingComparedPlayer),
    /// Every player has a row: the request is answered.
    Done(DashboardResponse),
}

/// A row is still missing, and no more players are compared than may be.
pub open spec fn rows_are_missing(player_ids: Seq<String>, rows: Seq<PlayerWithStats>) -> bool {
    rows.len() < player_ids.len() <= MAX_COMPARED_PLAYERS
}

/// `row` shows `player` with the summary `stats`.
pub open spec fn is_row_of(row: PlayerWithStats, player: Player, stats: PlayerStats) -> bool {
    row.player.shows(player) && row.stats.shows(stats)
}

/// Begins a dashboard request: reads the players that the query names. A
/// query that names something else than identifiers, or more than ten
/// players, fails before any player is looked up.
pub fn get_dashboard_stats(player_ids: &str) -> (r: Result<AwaitingComparedPlayer, Failure>)
    ensures
        match r {
            Ok(pending) => {
                let pieces = trimmed_pieces(player_ids@, ',');
                &&& all_name_ids(pieces)
                &&& 1 <= pieces.len() <= MAX_COMPARED_PLAYERS
                &&& pending.player_ids@.len() == pieces.len()
                &&& forall|i: int|
                    0 <= i < pieces.len() ==> (#[trigger] pending.player_ids@[i])@ == object_id_of(
                        pieces[i],
                    )
                &&& pending.rows@.len() == 0
                &&& pending.wf()
            },
            Err(failure) => {
                let pieces = trimmed_pieces(player_ids@, ',');
                if all_name_ids(pieces) {
                    pieces.len() > MAX_COMPARED_PLAYERS && failure.says(
                        STATUS_BAD_REQUEST,
                        "Maximum 10 players can be compared"@,
                    )
                } else {
                    failure.says(STATUS_BAD_REQUEST, "Invalid player ID format"@)
                }
            },
        },
{
    match parse_player_ids(player_ids) {
        Ok(ids) => Ok(AwaitingComparedPlayer { player_ids: ids, rows: Vec::new() }),
        Err(failure) => Err(failure),
    }
}

impl AwaitingComparedPlayer {
    /// A row is still missing, and no more players are compared than may be.
    pub open spec fn wf(&self) -> bool {
        rows_are_missing(self.player_ids@, self.rows@)
    }

    /// Checks that the request is well formed.
    pub fn is_valid(&self) -> (ok: bool)
        ensures
            ok == self.wf(),
    {
        self.rows.len() < self.player_ids.len() && self.player_ids.len() <= MAX_COMPARED_PLAYERS
    }

    /// The player to look up: the first without a row.
    pub fn player_id(&self) -> (id: &String)
        requires
            self.wf(),
        ensures
            *id == self.player_ids@[self.rows@.len() as int],
    {
        &self.player_ids[self.rows.len()]
    }

    /// Goes on with the record of the player that was looked up. With the
    /// record, the player's summary is asked for next. An unknown player
    /// and a failure of the registry end the request; no row is handed out.
    pub fn with_player(self, found: Result<Option<Player>, String>) -> (r: Result<
        AwaitingComparedStats,
        Failure,
    >)
        requires
            self.wf(),
        ensures
            match found {
                Ok(Some(player)) => {
                    &&& r matches Ok(next)
                    &&& next.wf()
                    &&& next.player_ids == self.player_ids
                    &&& next.rows == self.rows
                    &&& next.player == player
                },
                Ok(None) => r matches Err(failure) && failure.says(
                    STATUS_NOT_FOUND,
                    "Player "@ + self.player_ids@[self.rows@.len() as int]@ + " not found"@,
                ),
                Err(detail) => r matches Err(failure) && failure.is_failed_to(
                    "fetch player"@,
                    detail@,
                ),
            },
    {
        match compared_player(self.player_id().as_str(), found) {
            Ok(player) => Ok(
                AwaitingComparedStats { player_ids: self.player_ids, rows: self.rows, player },
            ),
            Err(failure) => Err(failure),
        }
    }
}

impl AwaitingComparedStats {
    /// A row is still missing, and no more players are compared than may be.
    pub open spec fn wf(&self) -> bool {
        rows_are_missing(self.player_ids@, self.rows@)
    }

    /// Checks that the request is well formed.
    pub fn is_valid(&self) -> (ok: bool)
        ensures
            ok == self.wf(),
    {
        self.rows.len() < self.player_ids.len() && self.player_ids.len() <= MAX_COMPARED_PLAYERS
    }

    /// Goes on with the summary of the player whose record is in hand. The
    /// player's row is put behind the rows that are finished. With a row for
    /// every player the request is answered with the rows in the order of
    /// the query; else the next player is looked up. A summary that could
    /// not be had ends the request; no row is handed out.
    pub fn with_stats(self, computed: Result<PlayerStats, String>) -> (r: Result<
        DashboardOutcome,
        Failure,
    >)
        requires
            self.wf(),
        ensures
            match computed {
                Ok(stats) => if self.rows@.len() + 1 < self.player_ids@.len() {
                    &&& r matches Ok(DashboardOutcome::NextPlayer(next))
                    &&& next.wf()
                    &&& next.player_ids == self.player_ids
                    &&& next.rows@.len() == self.rows@.len() + 1
                    &&& next.rows@.drop_last() == self.rows@
                    &&& is_row_of(next.rows@.last(), self.player, stats)
                } else {
                    &&& r matches Ok(DashboardOutcome::Done(response))
                    &&& response.players@.len() == self.player_ids@.len()
                    &&& response.players@.drop_last() == self.rows@
                    &&& is_row_of(response.players@.last(), self.player, stats)
                },
                Err(detail) => r matches Err(failure) && failure.is_failed_to(
                    "fetch stats"@,
                    detail@,
                ),
            },
    {
        let AwaitingComparedStats { player_ids, rows, player } = self;
        match compared_stats(player, computed) {
            Ok(row) => {
                let mut rows = rows;
                rows.push(row);
                assert(rows@.drop_last() =~= self.rows@);
                if rows.len() < player_ids.len() {
                    Ok(DashboardOutcome::NextPlayer(AwaitingComparedPlayer { player_ids, rows }))
                } else {
                    Ok(DashboardOutcome::Done(DashboardResponse { players: rows }))
                }
            },
            Err(failure) => Err(failure),
        }
    }
}

} // verus!
