//! What the player endpoints decide: how a request is answered once the
//! registry and the cache have done their part.

use crate::models::player::{Player, PlayerResponse};
use crate::models::stats::{PlayerStats, StatsResponse};
use crate::object_id::{names_object_id, object_id_of, parse_object_id};
use vstd::prelude::*;
use vstd::string::*;

verus! {

pub const STATUS_OK: u16 = 200;

pub const STATUS_CREATED: u16 = 201;

pub const STATUS_NO_CONTENT: u16 = 204;

pub const STATUS_BAD_REQUEST: u16 = 400;

pub const STATUS_NOT_FOUND: u16 = 404;

pub const STATUS_INTERNAL_SERVER_ERROR: u16 = 500;

/// The body of a failed request.
#[derive(Debug)]
pub struct ErrorResponse {
    pub error: String,
}

/// A failed request: the status to answer with, and the body.
#[derive(Debug)]
pub struct Failure {
    pub status: u16,
    pub body: ErrorResponse,
}

impl Failure {
    /// The failure answers with `status` and says `message`.
    pub open spec fn says(self, status: u16, message: Seq<char>) -> bool {
        self.status == status && self.body.error@ == message
    }

    /// The failure is an internal error that says what was being done and
    /// what went wrong.
    pub open spec fn is_failed_to(self, action: Seq<char>, detail: Seq<char>) -> bool {
        self.says(STATUS_INTERNAL_SERVER_ERROR, "Failed to "@ + action + ": "@ + detail)
    }

    /// The text is not an identifier.
    pub fn invalid_player_id() -> (failure: Failure)
        ensures
            failure.says(STATUS_BAD_REQUEST, "Invalid player ID format"@),
    {
        Failure {
            status: STATUS_BAD_REQUEST,
            body: ErrorResponse { error: String::from_str("Invalid player ID format") },
        }
    }

    /// The registry does not know the player.
    pub fn player_not_found() -> (failure: Failure)
        ensures
            failure.says(STATUS_NOT_FOUND, "Player not found"@),
    {
        Failure {
            status: STATUS_NOT_FOUND,
            body: ErrorResponse { error: String::from_str("Player not found") },
        }
    }

    /// The request's body breaks a rule; `detail` says which.
    pub fn validation(detail: &str) -> (failure: Failure)
        ensures
            failure.says(STATUS_BAD_REQUEST, "Validation error: "@ + detail@),
    {
        let mut error = String::from_str("Validation error: ");
        error.append(detail);
        Failure { status: STATUS_BAD_REQUEST, body: ErrorResponse { error } }
    }

    /// Something went wrong inside while doing `action`; `detail` says what.
    pub fn failed_to(action: &str, detail: &str) -> (failure: Failure)
        ensures
            failure.is_failed_to(action@, detail@),
    {
        let mut error = String::from_str("Failed to ");
        error.append(action);
        error.append(": ");
        error.append(detail);
        Failure { status: STATUS_INTERNAL_SERVER_ERROR, body: ErrorResponse { error } }
    }
}

/// Reads the identifier of a player from a request: 24 hexadecimal digits.
/// The identifier is handed on in lower case.
pub fn parse_player_id(text: &str) -> (r: Result<String, Failure>)
    ensures
        match r {
            Ok(id) => names_object_id(text@) && id@ == object_id_of(text@),
            Err(failure) => !names_object_id(text@) && failure.says(
                STATUS_BAD_REQUEST,
                "Invalid player ID format"@,
            ),
        },
{
    match parse_object_id(text) {
        Some(id) => Ok(id),
        None => Err(Failure::invalid_player_id()),
    }
}

/// The answer to a request to track a player: the player, as created, or
/// the reason why it could not be added.
pub fn create_player(added: Result<Player, String>) -> (r: Result<(u16, PlayerResponse), Failure>)
    ensures
        match added {
            Ok(player) => r matches Ok(answer) && answer.0 == STATUS_CREATED && answer.1.shows(
                player,
            ),
            Err(detail) => r matches Err(failure) && failure.is_failed_to("add player"@, detail@),
        },
{
    match added {
        Ok(player) => Ok((STATUS_CREATED, PlayerResponse::from(player))),
        Err(detail) => Err(Failure::failed_to("add player", detail.as_str())),
    }
}

/// The answer to a request for all players: each of them, in the
/// registry's order.
pub fn get_players(found: Result<Vec<Player>, String>) -> (r: Result<Vec<PlayerResponse>, Failure>)
    ensures
        match found {
            Ok(players) => r matches Ok(shown) && shown@.len() == players@.len() && forall|i: int|
                0 <= i < shown@.len() ==> (#[trigger] shown@[i]).shows(players@[i]),
            Err(detail) => r matches Err(failure) && failure.is_failed_to(
                "fetch players"@,
                detail@,
            ),
        },
{
    match found {
        Ok(players) => {
            let mut shown: Vec<PlayerResponse> = Vec::new();
            let mut i: usize = 0;
            while i < players.len()
                invariant
                    i <= players@.len(),
                    shown@.len() == i,
                    forall|j: int| 0 <= j < i ==> (#[trigger] shown@[j]).shows(players@[j]),
                decreases players@.len() - i,
            {
                shown.push(PlayerResponse::of(&players[i]));
                i += 1;
            }
            Ok(shown)
        },
        Err(detail) => Err(Failure::failed_to("fetch players", detail.as_str())),
    }
}

/// What a lookup of one player comes to: the player, or the failure to
/// answer with.
pub fn found_player(found: Result<Option<Player>, String>) -> (r: Result<Player, Failure>)
    ensures
        match found {
            Ok(Some(player)) => r matches Ok(same) && same == player,
            Ok(None) => r matches Err(failure) && failure.says(
                STATUS_NOT_FOUND,
                "Player not found"@,
            ),
            Err(detail) => r matches Err(failure) && failure.is_failed_to(
                "fetch player"@,
                detail@,
            ),
        },
{
    match found {
        Ok(Some(player)) => Ok(player),
        Ok(None) => Err(Failure::player_not_found()),
        Err(detail) => Err(Failure::failed_to("fetch player", detail.as_str())),
    }
}

/// The answer to a request for one player.
pub fn get_player(found: Result<Option<Player>, String>) -> (r: Result<PlayerResponse, Failure>)
    ensures
        match found {
            Ok(Some(player)) => r matches Ok(shown) && shown.shows(player),
            Ok(None) => r matches Err(failure) && failure.says(
                STATUS_NOT_FOUND,
                "Player not found"@,
            ),
            Err(detail) => r matches Err(failure) && failure.is_failed_to(
                "fetch player"@,
                detail@,
            ),
        },
{
    match found_player(found) {
        Ok(player) => Ok(PlayerResponse::from(player)),
        Err(failure) => Err(failure),
    }
}

/// The answer to a request to refresh a player.
pub fn refresh_player(refreshed: Result<Player, String>) -> (r: Result<PlayerResponse, Failure>)
    ensures
        match refreshed {
            Ok(player) => r matches Ok(shown) && shown.shows(player),
            Err(detail) => r matches Err(failure) && failure.is_failed_to(
                "refresh player"@,
                detail@,
            ),
        },
{
    match refreshed {
        Ok(player) => Ok(PlayerResponse::from(player)),
        Err(detail) => Err(Failure::failed_to("refresh player", detail.as_str())),
    }
}

/// The answer to a request to delete a player: a status without a body.
pub fn delete_player(deleted: Result<(), String>) -> (r: Result<u16, Failure>)
    ensures
        match deleted {
            Ok(_) => r matches Ok(status) && status == STATUS_NO_CONTENT,
            Err(detail) => r matches Err(failure) && failure.is_failed_to(
                "delete player"@,
                detail@,
            ),
        },
{
    match deleted {
        Ok(_) => Ok(STATUS_NO_CONTENT),
        Err(detail) => Err(Failure::failed_to("delete player", detail.as_str())),
    }
}

/// The answer to a request for a player's recent matches.
pub fn get_player_matches(found: Result<Vec<String>, String>) -> (r: Result<Vec<String>, Failure>)
    ensures
        match found {
            Ok(matches) => r matches Ok(same) && same == matches,
            Err(detail) => r matches Err(failure) && failure.is_failed_to(
                "fetch matches"@,
                detail@,
            ),
        },
{
    match found {
        Ok(matches) => Ok(matches),
        Err(detail) => Err(Failure::failed_to("fetch matches", detail.as_str())),
    }
}

/// The answer to a request for a player's summary, once the summary was
/// looked up or computed.
pub fn get_player_stats(computed: Result<PlayerStats, String>) -> (r: Result<StatsResponse, Failure>)
    ensures
        match computed {
            Ok(stats) => r matches Ok(shown) && shown.shows(stats),
            Err(detail) => r matches Err(failure) && failure.is_failed_to("fetch stats"@, detail@),
        },
{
    match computed {
        Ok(stats) => Ok(StatsResponse::from(stats)),
        Err(detail) => Err(Failure::failed_to("fetch stats", detail.as_str())),
    }
}

/// The answer to a request to clear the cache of summaries, from the number
/// of summaries that the persistent tier deleted.
pub fn clear_all_stats_cache(deleted: Result<usize, String>) -> (r: Result<
    RefreshAllResponse,
    Failure,
>)
    ensures
        match deleted {
            Ok(count) => r matches Ok(report) && report.wf() && report.total == count
                && report.success == count && report.failed == 0 && report.errors.is_none(),
            Err(detail) => r matches Err(failure) && failure.is_failed_to(
                "clear stats cache"@,
                detail@,
            ),
        },
{
    match deleted {
        Ok(count) => Ok(RefreshAllResponse::cleared(count)),
        Err(detail) => Err(Failure::failed_to("clear stats cache", detail.as_str())),
    }
}

/// One player's turn in a refresh of all players.
#[derive(Debug)]
pub struct RefreshOutcome {
    /// The player's name.
    pub name: String,
    /// What went wrong, if anything did.
    pub failure: Option<String>,
}

/// The report that `outcomes` add up to.
pub open spec fn refresh_report_of(outcomes: Seq<RefreshOutcome>) -> (int, int, Seq<Seq<char>>)
    decreases outcomes.len(),
{
    if outcomes.len() == 0 {
        (0, 0, Seq::empty())
    } else {
        let (success, failed, lines) = refresh_report_of(outcomes.drop_last());
        match outcomes.last().failure {
            Some(reason) => (
                success,
                failed + 1,
                lines.push(failure_line(outcomes.last().name@, reason@)),
            ),
            None => (success + 1, failed, lines),
        }
    }
}

/// The answer to a request to refresh all players: how many were refreshed,
/// how many were not, and a line for each of the latter.
pub fn refresh_all_players(listed: Result<Vec<RefreshOutcome>, String>) -> (r: Result<
    RefreshAllResponse,
    Failure,
>)
    ensures
        match listed {
            Ok(outcomes) => {
                &&& r matches Ok(report)
                &&& report.wf()
                &&& report.success == refresh_report_of(outcomes@).0
                &&& report.failed == refresh_report_of(outcomes@).1
                &&& reported_lines(report.errors).len() == refresh_report_of(outcomes@).2.len()
                &&& forall|i: int|
                    0 <= i < report.failed ==> (#[trigger] reported_lines(report.errors)[i])@
                        == refresh_report_of(outcomes@).2[i]
            },
            Err(detail) => r matches Err(failure) && failure.is_failed_to(
                "list players"@,
                detail@,
            ),
        },
{
    match listed {
        Ok(outcomes) => {
            let mut report = RefreshAllResponse::new();
            let mut i: usize = 0;
            assert(outcomes@.take(0) =~= Seq::empty());
            while i < outcomes.len()
                invariant
                    i <= outcomes@.len(),
                    report.wf(),
                    report.total == i,
                    report.success == refresh_report_of(outcomes@.take(i as int)).0,
                    report.failed == refresh_report_of(outcomes@.take(i as int)).1,
                    reported_lines(report.errors).len() == refresh_report_of(
                        outcomes@.take(i as int),
                    ).2.len(),
                    forall|j: int|
                        0 <= j < report.failed ==> (#[trigger] reported_lines(report.errors)[j])@
                            == refresh_report_of(outcomes@.take(i as int)).2[j],
                decreases outcomes@.len() - i,
            {
                proof {
                    assert(outcomes@.take(i + 1).drop_last() =~= outcomes@.take(i as int));
                    assert(outcomes@.take(i + 1).last() == outcomes@[i as int]);
                }
                let ghost before = reported_lines(report.errors);
                match &outcomes[i].failure {
                    Some(reason) => {
                        report.record_failure(outcomes[i].name.as_str(), reason.as_str());
                        proof {
                            let after = reported_lines(report.errors);
                            assert(after.drop_last() == before);
                            assert forall|j: int| 0 <= j < report.failed implies (
                            #[trigger] after[j])@ == refresh_report_of(outcomes@.take(i + 1)).2[j] by {
                                if j < report.failed - 1 {
                                    assert(after[j] == after.drop_last()[j]);
                                }
                            }
                        }
                    },
                    None => {
                        report.record_success();
                    },
                }
                i += 1;
            }
            assert(outcomes@.take(i as int) =~= outcomes@);
            Ok(report)
        },
        Err(detail) => Err(Failure::failed_to("list players", detail.as_str())),
    }
}

/// Which summary of a player is asked for.
#[derive(Debug)]
pub struct StatsQuery {
    pub period: String,
    pub mode: String,
    pub shard: String,
}

/// The period of a query that names none.
pub fn default_period() -> (period: String)
    ensures
        period@ == "7d"@,
{
    String::from_str("7d")
}

/// The mode of a query that names none.
pub fn default_mode() -> (mode: String)
    ensures
        mode@ == "all"@,
{
    String::from_str("all")
}

/// The shard of a query that names none.
pub fn default_shard() -> (shard: String)
    ensures
        shard@ == "steam"@,
{
    String::from_str("steam")
}

impl StatsQuery {
    /// The query with a default in place of each part that is not given.
    pub fn with_defaults(period: Option<String>, mode: Option<String>, shard: Option<String>) -> (query:
        StatsQuery)
        ensures
            query.period@ == (match period {
                Some(text) => text@,
                None => "7d"@,
            }),
            query.mode@ == (match mode {
                Some(text) => text@,
                None => "all"@,
            }),
            query.shard@ == (match shard {
                Some(text) => text@,
                None => "steam"@,
            }),
    {
        StatsQuery {
            period: match period {
                Some(text) => text,
                None => default_period(),
            },
            mode: match mode {
                Some(text) => text,
                None => default_mode(),
            },
            shard: match shard {
                Some(text) => text,
                None => default_shard(),
            },
        }
    }
}

/// The report of an operation over many records.
#[derive(Debug)]
pub struct RefreshAllResponse {
    pub total: usize,
    pub success: usize,
    pub failed: usize,
    /// What went wrong, one line for each failure; `None` if nothing did.
    pub errors: Option<Vec<String>>,
}

/// The line that reports the failed refresh of a player.
pub open spec fn failure_line(name: Seq<char>, reason: Seq<char>) -> Seq<char> {
    name + ": "@ + reason
}

/// The failures so far, one line each.
pub open spec fn reported_lines(errors: Option<Vec<String>>) -> Seq<String> {
    match errors {
        Some(lines) => lines@,
        None => Seq::empty(),
    }
}

impl RefreshAllResponse {
    /// The counts add up, and there is a line for each failure.
    pub open spec fn wf(&self) -> bool {
        &&& self.total == self.success + self.failed
        &&& reported_lines(self.errors).len() == self.failed
        &&& self.errors matches Some(lines) ==> lines@.len() > 0
    }

    /// The report before any player was refreshed.
    pub fn new() -> (report: RefreshAllResponse)
        ensures
            report.wf(),
            report.total == 0,
            report.success == 0,
            report.failed == 0,
            report.errors.is_none(),
    {
        RefreshAllResponse { total: 0, success: 0, failed: 0, errors: None }
    }

    /// Counts a player that was refreshed.
    pub fn record_success(&mut self)
        requires
            old(self).wf(),
            old(self).total < usize::MAX,
        ensures
            final(self).wf(),
            final(self).success == old(self).success + 1,
            final(self).failed == old(self).failed,
            final(self).errors == old(self).errors,
    {
        self.success = self.success + 1;
        self.total = self.total + 1;
    }

    /// Counts a player that could not be refreshed, and says why.
    pub fn record_failure(&mut self, name: &str, reason: &str)
        requires
            old(self).wf(),
            old(self).total < usize::MAX,
        ensures
            final(self).wf(),
            final(self).success == old(self).success,
            final(self).failed == old(self).failed + 1,
            final(self).errors matches Some(lines) && lines@.len() == old(self).failed + 1
                && lines@.last()@ == failure_line(name@, reason@) && lines@.drop_last()
                == reported_lines(old(self).errors),
    {
        let mut line = String::from_str(name);
        line.append(": ");
        line.append(reason);
        let mut lines = match self.errors.take() {
            Some(lines) => lines,
            None => Vec::new(),
        };
        lines.push(line);
        assert(lines@.drop_last() =~= reported_lines(old(self).errors));
        self.errors = Some(lines);
        self.failed = self.failed + 1;
        self.total = self.total + 1;
    }

    /// The report of clearing the cache of summaries, from the number of
    /// summaries that the persistent tier deleted.
    pub fn cleared(deleted_count: usize) -> (report: RefreshAllResponse)
        ensures
            report.wf(),
            report.total == deleted_count,
            report.success == deleted_count,
            report.failed == 0,
            report.errors.is_none(),
    {
        RefreshAllResponse { total: deleted_count, success: deleted_count, failed: 0, errors: None }
    }
}

} // verus!
