//! Requests for summaries: the two tiers are asked in turn, and what neither
//! holds is computed from the player's recent matches.
//!
//! Asking the persistent tier, the registry and the external API is left to
//! the caller. Each function says what to ask next and goes on with the
//! answer.

use crate::clock::Timestamp;
use crate::models::player::Player;
use crate::models::pubg::PubgMatchResponse;
use crate::models::stats::{PlayerStats, PlayerStatsView};
use crate::object_id::{fresh_object_id, is_object_id_text};
use crate::services::match_aggregator::{aggregate_at, aggregate_of, MAX_MATCHES};
use crate::services::pubg_api_service::PubgApiError;
use crate::services::stats_cache::{
    cache_key, cache_key_of, filed, player_keys, MemoryTier, StatsKey, StatsKeyView, SummaryMap,
};
use crate::services::stats_store::{StoreCommand, StoreCommandView};
use vstd::prelude::*;
use vstd::string::*;

verus! {

/// The two-tier cache of summaries, of which this value owns the memory tier.
pub struct StatsService {
    memory: MemoryTier,
}

/// Entries that the memory tier holds at most.
pub const MEMORY_CAPACITY: u64 = 1000;

/// Seconds after which the memory tier forgets an entry on its own.
pub const MEMORY_TIME_TO_LIVE_SECS: u64 = 3600;

/// Why no summary could be had.
#[derive(Debug)]
pub enum StatsError {
    /// The registry does not know the player.
    PlayerNotFound { player_id: String },
    /// None of the player's recent matches could be fetched, or the player
    /// has none.
    NoMatchData,
    /// The persistent store failed; `detail` is what it reported.
    Store { detail: String },
}

pub enum StatsErrorView {
    PlayerNotFound { player_id: Seq<char> },
    NoMatchData,
    Store { detail: Seq<char> },
}

impl View for StatsError {
    type V = StatsErrorView;

    open spec fn view(&self) -> StatsErrorView {
        match self {
            StatsError::PlayerNotFound { player_id } => StatsErrorView::PlayerNotFound {
                player_id: player_id@,
            },
            StatsError::NoMatchData => StatsErrorView::NoMatchData,
            StatsError::Store { detail } => StatsErrorView::Store { detail: detail@ },
        }
    }
}

impl StatsErrorView {
    /// The error in words.
    pub open spec fn message(self) -> Seq<char> {
        match self {
            StatsErrorView::PlayerNotFound { player_id } => "Player not found: "@ + player_id,
            StatsErrorView::NoMatchData =>
                "No match data available for this player. Please ensure the player has recent matches."@,
            StatsErrorView::Store { detail } => detail,
        }
    }
}

impl StatsError {
    /// The error in words.
    pub fn to_string(&self) -> (text: String)
        ensures
            text@ == self@.message(),
    {
        match self {
            StatsError::PlayerNotFound { player_id } => {
                let mut text = String::from_str("Player not found: ");
                text.append(player_id.as_str());
                text
            },
            StatsError::NoMatchData => String::from_str(
                "No match data available for this player. Please ensure the player has recent matches.",
            ),
            StatsError::Store { detail } => detail.clone(),
        }
    }
}

/// A request that missed the memory tier and waits for the answer of the
/// persistent tier.
#[derive(Debug)]
pub struct AwaitingStored {
    pub key: StatsKey,
}

/// A request that missed both tiers and waits for the player's record.
#[derive(Debug)]
pub struct AwaitingPlayer {
    pub key: StatsKey,
}

/// A request that waits for one of the player's recent matches.
#[derive(Debug)]
pub struct AwaitingMatch {
    pub key: StatsKey,
    /// The player's external account identifier.
    pub account_id: String,
    /// The shard that the player's matches are fetched from.
    pub shard: String,
    /// The player's recent matches.
    pub match_ids: Vec<String>,
    /// Position in `match_ids` of the match that is awaited.
    pub next: usize,
    /// The matches fetched so far, in the order of `match_ids`.
    pub fetched: Vec<PubgMatchResponse>,
}

impl AwaitingMatch {
    /// The awaited match is one of the player's, and no more matches were
    /// fetched than were asked for.
    pub open spec fn wf(&self) -> bool {
        &&& self.next < self.match_ids@.len()
        &&& self.fetched@.len() <= self.next
        &&& self.match_ids@.len() <= MAX_MATCHES
    }

    /// Checks that the request is well formed.
    pub fn is_valid(&self) -> (ok: bool)
        ensures
            ok == self.wf(),
    {
        self.next < self.match_ids.len() && self.fetched.len() <= self.next && self.match_ids.len()
            <= MAX_MATCHES
    }

    /// The identifier of the match to fetch.
    pub fn match_id(&self) -> (id: &String)
        requires
            self.wf(),
        ensures
            *id == self.match_ids@[self.next as int],
    {
        &self.match_ids[self.next]
    }
}

/// How the lookup in the memory tier ended.
#[derive(Debug)]
pub enum MemoryOutcome {
    /// The summary was there: the request is answered.
    Hit(PlayerStats),
    /// Ask the persistent tier for the summary, then go on with the answer.
    Miss(AwaitingStored),
}

/// How the lookup in the persistent tier ended.
#[derive(Debug)]
pub enum StoredOutcome {
    /// A summary that has not expired was there: the request is answered.
    Hit(PlayerStats),
    /// Ask the registry for the player, then go on with the answer.
    Miss(AwaitingPlayer),
    Failed(StatsError),
}

/// What follows the player's record.
#[derive(Debug)]
pub enum PlayerOutcome {
    /// Fetch the awaited match, then go on with the answer.
    Fetch(AwaitingMatch),
    Failed(StatsError),
}

/// What follows a match that was fetched or could not be.
#[derive(Debug)]
pub enum MatchOutcome {
    /// Fetch the awaited match, then go on with the answer.
    Fetch(AwaitingMatch),
    /// The request is answered with a summary that was just computed. It is
    /// in the memory tier; `persist` writes it to the persistent tier, which
    /// the requester does not wait for.
    Computed { stats: PlayerStats, persist: StoreCommand },
    Failed(StatsError),
}

/// The summary computed at `now` for the request `key` from the matches
/// that were fetched for the player's account.
pub open spec fn computed_summary(
    key: StatsKeyView,
    account: Seq<char>,
    matches: Seq<PubgMatchResponse>,
    now: Timestamp,
) -> PlayerStatsView {
    aggregate_of(account, matches, key.player_id, key.period, now).stamped(
        key.player_id,
        key.mode,
        key.shard,
    )
}

/// The matches in hand after one more fetch ended as `fetched` says: a match
/// that could not be fetched is left out.
pub open spec fn collected(
    so_far: Seq<PubgMatchResponse>,
    fetched: Result<PubgMatchResponse, PubgApiError>,
) -> Seq<PubgMatchResponse> {
    match fetched {
        Ok(m) => so_far.push(m),
        Err(_) => so_far,
    }
}

impl StatsService {
    /// The summaries that the memory tier may hand out, by cache key.
    pub closed spec fn cached(&self) -> SummaryMap {
        self.memory.entries()
    }

    /// The limits of the memory tier: how many entries it holds at most, and
    /// after how many seconds it forgets an entry.
    pub closed spec fn limits(&self) -> (Option<u64>, Option<u64>) {
        self.memory.limits()
    }

    /// A service whose memory tier is empty, holds a thousand entries at
    /// most and forgets an entry after an hour.
    pub fn new() -> (service: StatsService)
        ensures
            service.cached() == SummaryMap::empty(),
            service.limits() == (Some(MEMORY_CAPACITY), Some(MEMORY_TIME_TO_LIVE_SECS)),
    {
        StatsService { memory: MemoryTier::new(MEMORY_CAPACITY, MEMORY_TIME_TO_LIVE_SECS) }
    }

    /// How many entries the memory tier holds at most.
    pub fn capacity(&self) -> (capacity: Option<u64>)
        ensures
            capacity == self.limits().0,
    {
        self.memory.capacity()
    }

    /// After how many seconds the memory tier forgets an entry.
    pub fn time_to_live_secs(&self) -> (seconds: Option<u64>)
        ensures
            seconds == self.limits().1,
    {
        self.memory.time_to_live_secs()
    }

    /// Aggregates what `player_account_id` did in `matches` during the window
    /// over `period` that ends now. The summary is filed under a new
    /// identifier, mode "all" and shard "steam", for the caller to replace.
    pub fn compute_stats_from_matches(
        &self,
        player_account_id: &str,
        matches: &[PubgMatchResponse],
        period: &str,
    ) -> (r: PlayerStats)
        requires
            matches@.len() <= MAX_MATCHES,
        ensures
            r.computed_at.in_range(),
            is_object_id_text(r.player_id@),
            r@ == aggregate_of(player_account_id@, matches@, r.player_id@, period@, r.computed_at),
            r@.consistent(),
    {
        let now = Timestamp::now();
        let placeholder = fresh_object_id();
        aggregate_at(player_account_id, matches, placeholder, period, now)
    }

    /// Looks a summary up in the memory tier. What is found is what was last
    /// stored under the key; the tier may have dropped it.
    pub fn lookup(&self, player_id: &str, period: &str, mode: &str, shard: &str) -> (found: Option<
        PlayerStats,
    >)
        ensures
            found matches Some(stats) ==> {
                let key = cache_key_of(player_id@, period@, mode@, shard@);
                self.cached().contains_key(key) && self.cached()[key] == stats@
            },
    {
        let key = cache_key(player_id, period, mode, shard);
        self.memory.get(key.as_str())
    }

    /// Stores `stats` once the persistent tier has answered the command of
    /// `store_command` for it. A summary that was written is filed in the
    /// memory tier under its own player, period, mode and shard, in place of
    /// what was filed there. A failure of the persistent tier is handed on,
    /// and the memory tier stays as it was, so that the tiers do not part.
    pub fn save_stats(&mut self, stats: &PlayerStats, written: Result<(), String>) -> (r: Result<
        (),
        StatsError,
    >)
        ensures
            match written {
                Ok(_) => r is Ok && final(self).cached() == filed(old(self).cached(), stats@),
                Err(detail) => r matches Err(StatsError::Store { detail: reported }) && reported
                    == detail && final(self).cached() == old(self).cached(),
            },
            final(self).limits() == old(self).limits(),
    {
        match written {
            Ok(_) => {
                let key = cache_key(
                    stats.player_id.as_str(),
                    stats.period.as_str(),
                    stats.mode.as_str(),
                    stats.shard.as_str(),
                );
                self.memory.insert(key, stats.duplicate());
                Ok(())
            },
            Err(detail) => Err(StatsError::Store { detail }),
        }
    }

    /// Drops every summary of the player from the memory tier: all 36
    /// combinations of period, mode and shard. Other entries stay. The
    /// command that is returned does the same on the persistent tier.
    pub fn invalidate_cache(&mut self, player_id: &str) -> (command: StoreCommand)
        ensures
            final(self).cached() == old(self).cached().remove_keys(player_keys(player_id@)),
            final(self).limits() == old(self).limits(),
            command@ == (StoreCommandView::DeleteByPlayer { player_id: player_id@ }),
    {
        self.memory.invalidate_player(player_id);
        StoreCommand::DeleteByPlayer { player_id: String::from_str(player_id) }
    }

    /// Drops every summary from the memory tier, which is given up for a
    /// new, empty one of the service's limits. The command that is returned
    /// does the same on the persistent tier.
    pub fn invalidate_all(&mut self) -> (command: StoreCommand)
        ensures
            final(self).cached() == SummaryMap::empty(),
            final(self).limits() == (Some(MEMORY_CAPACITY), Some(MEMORY_TIME_TO_LIVE_SECS)),
            command@ == StoreCommandView::DeleteAll,
    {
        self.memory = MemoryTier::new(MEMORY_CAPACITY, MEMORY_TIME_TO_LIVE_SECS);
        StoreCommand::DeleteAll
    }

    /// The command that writes a summary to the persistent tier.
    pub fn store_command(stats: &PlayerStats) -> (command: StoreCommand)
        ensures
            command@ == StoreCommandView::Upsert(stats@),
    {
        StoreCommand::Upsert(stats.duplicate())
    }
    /// Begins a request for the summary of a player over a period, for a
    /// mode and a shard, with a lookup in the memory tier. A key that the
    /// tier does not hold is a miss; one that it holds is a hit unless the
    /// tier has dropped the entry.
    pub fn get_or_compute_stats(&self, player_id: &str, period: &str, mode: &str, shard: &str) -> (outcome:
        MemoryOutcome)
        ensures
            match outcome {
                MemoryOutcome::Hit(stats) => {
                    let key = cache_key_of(player_id@, period@, mode@, shard@);
                    self.cached().contains_key(key) && self.cached()[key] == stats@
                },
                MemoryOutcome::Miss(pending) => pending.key@ == (StatsKeyView {
                    player_id: player_id@,
                    period: period@,
                    mode: mode@,
                    shard: shard@,
                }),
            },
    {
        let found = self.lookup(player_id, period, mode, shard);
        let key = StatsKey {
            player_id: String::from_str(player_id),
            period: String::from_str(period),
            mode: String::from_str(mode),
            shard: String::from_str(shard),
        };
        StatsService::after_memory_lookup(found, key)
    }

    /// What follows the lookup in the memory tier: a summary that was found
    /// answers the request, else the persistent tier is asked.
    pub fn after_memory_lookup(found: Option<PlayerStats>, key: StatsKey) -> (outcome:
        MemoryOutcome)
        ensures
            match found {
                Some(stats) => outcome matches MemoryOutcome::Hit(hit) && hit == stats,
                None => outcome matches MemoryOutcome::Miss(pending) && pending.key == key,
            },
    {
        match found {
            Some(stats) => MemoryOutcome::Hit(stats),
            None => MemoryOutcome::Miss(AwaitingStored { key }),
        }
    }

    /// Goes on with the answer of the persistent tier, read against the
    /// clock. See `resume_with_stored_at`.
    pub fn resume_with_stored(
        &mut self,
        pending: AwaitingStored,
        found: Result<Option<PlayerStats>, String>,
    ) -> (outcome: StoredOutcome)
        ensures
            match found {
                Ok(Some(stats)) => match outcome {
                    StoredOutcome::Hit(hit) => hit == stats && final(self).cached() == old(
                        self,
                    ).cached().insert(pending.key@.cache_key(), stats@),
                    StoredOutcome::Miss(next) => next.key == pending.key && final(self).cached()
                        == old(self).cached(),
                    StoredOutcome::Failed(_) => false,
                },
                Ok(None) => outcome matches StoredOutcome::Miss(next) && next.key == pending.key
                    && final(self).cached() == old(self).cached(),
                Err(detail) => outcome matches StoredOutcome::Failed(
                    StatsError::Store { detail: reported },
                ) && reported == detail && final(self).cached() == old(self).cached(),
            },
            final(self).limits() == old(self).limits(),
    {
        let now = Timestamp::now();
        self.resume_with_stored_at(pending, found, now)
    }

    /// Goes on with the answer of the persistent tier, read at `now`. A
    /// summary that expires after `now` answers the request and is put into
    /// the memory tier. With an expired summary or none, the registry is
    /// asked for the player. A failure of the store ends the request.
    pub fn resume_with_stored_at(
        &mut self,
        pending: AwaitingStored,
        found: Result<Option<PlayerStats>, String>,
        now: Timestamp,
    ) -> (outcome: StoredOutcome)
        ensures
            match found {
                Ok(Some(stats)) => if now.before(stats.expires_at) {
                    &&& outcome matches StoredOutcome::Hit(hit)
                    &&& hit == stats
                    &&& final(self).cached() == old(self).cached().insert(
                        pending.key@.cache_key(),
                        stats@,
                    )
                } else {
                    &&& outcome matches StoredOutcome::Miss(next)
                    &&& next.key == pending.key
                    &&& final(self).cached() == old(self).cached()
                },
                Ok(None) => outcome matches StoredOutcome::Miss(next) && next.key == pending.key
                    && final(self).cached() == old(self).cached(),
                Err(detail) => outcome matches StoredOutcome::Failed(
                    StatsError::Store { detail: reported },
                ) && reported == detail && final(self).cached() == old(self).cached(),
            },
            final(self).limits() == old(self).limits(),
    {
        match found {
            Ok(Some(stats)) => {
                if stats.is_fresh_at(&now) {
                    let key = cache_key(
                        pending.key.player_id.as_str(),
                        pending.key.period.as_str(),
                        pending.key.mode.as_str(),
                        pending.key.shard.as_str(),
                    );
                    self.memory.insert(key, stats.duplicate());
                    StoredOutcome::Hit(stats)
                } else {
                    StoredOutcome::Miss(AwaitingPlayer { key: pending.key })
                }
            },
            Ok(None) => StoredOutcome::Miss(AwaitingPlayer { key: pending.key }),
            Err(detail) => StoredOutcome::Failed(StatsError::Store { detail }),
        }
    }

    /// Goes on with the player's record. An unknown player and a failure of
    /// the registry end the request, and so does a player without recent
    /// matches. Else the first of the recent matches is fetched.
    pub fn resume_with_player(pending: AwaitingPlayer, found: Result<Option<Player>, String>) -> (outcome:
        PlayerOutcome)
        requires
            found matches Ok(Some(player)) ==> player.last_matches@.len() <= MAX_MATCHES,
        ensures
            match found {
                Ok(Some(player)) => if player.last_matches@.len() == 0 {
                    outcome matches PlayerOutcome::Failed(StatsError::NoMatchData)
                } else {
                    &&& outcome matches PlayerOutcome::Fetch(next)
                    &&& next.wf()
                    &&& next.key == pending.key
                    &&& next.account_id == player.account_id
                    &&& next.shard == player.shard
                    &&& next.match_ids == player.last_matches
                    &&& next.next == 0
                    &&& next.fetched@.len() == 0
                },
                Ok(None) => outcome matches PlayerOutcome::Failed(
                    StatsError::PlayerNotFound { player_id },
                ) && player_id == pending.key.player_id,
                Err(detail) => outcome matches PlayerOutcome::Failed(
                    StatsError::Store { detail: reported },
                ) && reported == detail,
            },
    {
        match found {
            Ok(Some(player)) => {
                if player.last_matches.len() == 0 {
                    PlayerOutcome::Failed(StatsError::NoMatchData)
                } else {
                    PlayerOutcome::Fetch(
                        AwaitingMatch {
                            key: pending.key,
                            account_id: player.account_id,
                            shard: player.shard,
                            match_ids: player.last_matches,
                            next: 0,
                            fetched: Vec::new(),
                        },
                    )
                }
            },
            Ok(None) => PlayerOutcome::Failed(
                StatsError::PlayerNotFound { player_id: pending.key.player_id },
            ),
            Err(detail) => PlayerOutcome::Failed(StatsError::Store { detail }),
        }
    }

    /// Goes on with a match that was fetched or could not be, computing
    /// against the clock once the last match is in. See
    /// `resume_with_match_at`.
    pub fn resume_with_match(
        &mut self,
        pending: AwaitingMatch,
        fetched: Result<PubgMatchResponse, PubgApiError>,
    ) -> (outcome: MatchOutcome)
        requires
            pending.wf(),
        ensures
            match outcome {
                MatchOutcome::Fetch(next) => {
                    &&& pending.next + 1 < pending.match_ids@.len()
                    &&& next.wf()
                    &&& next.key == pending.key
                    &&& next.account_id == pending.account_id
                    &&& next.shard == pending.shard
                    &&& next.match_ids == pending.match_ids
                    &&& next.next == pending.next + 1
                    &&& next.fetched@ == collected(pending.fetched@, fetched)
                    &&& final(self).cached() == old(self).cached()
                },
                MatchOutcome::Computed { stats, persist } => {
                    &&& persist@ == StoreCommandView::Upsert(stats@)
                    &&& pending.next + 1 == pending.match_ids@.len()
                    &&& collected(pending.fetched@, fetched).len() > 0
                    &&& stats.computed_at.in_range()
                    &&& stats@ == computed_summary(
                        pending.key@,
                        pending.account_id@,
                        collected(pending.fetched@, fetched),
                        stats.computed_at,
                    )
                    &&& stats@.consistent()
                    &&& final(self).cached() == old(self).cached().insert(
                        pending.key@.cache_key(),
                        stats@,
                    )
                },
                MatchOutcome::Failed(error) => {
                    &&& pending.next + 1 == pending.match_ids@.len()
                    &&& collected(pending.fetched@, fetched).len() == 0
                    &&& error matches StatsError::NoMatchData
                    &&& final(self).cached() == old(self).cached()
                },
            },
            final(self).limits() == old(self).limits(),
    {
        let now = Timestamp::now();
        self.resume_with_match_at(pending, fetched, now)
    }

    /// Goes on with a match that was fetched or could not be. A match that
    /// could not be fetched is left out. While matches remain, the next one
    /// is fetched. After the last one, the matches in hand are aggregated at
    /// `now` into the summary that answers the request, and the summary is
    /// put into the memory tier; with no match in hand the request fails.
    pub fn resume_with_match_at(
        &mut self,
        pending: AwaitingMatch,
        fetched: Result<PubgMatchResponse, PubgApiError>,
        now: Timestamp,
    ) -> (outcome: MatchOutcome)
        requires
            pending.wf(),
            now.in_range(),
        ensures
            if pending.next + 1 < pending.match_ids@.len() {
                &&& outcome matches MatchOutcome::Fetch(next)
                &&& next.wf()
                &&& next.key == pending.key
                &&& next.account_id == pending.account_id
                &&& next.shard == pending.shard
                &&& next.match_ids == pending.match_ids
                &&& next.next == pending.next + 1
                &&& next.fetched@ == collected(pending.fetched@, fetched)
                &&& final(self).cached() == old(self).cached()
            } else if collected(pending.fetched@, fetched).len() == 0 {
                &&& outcome matches MatchOutcome::Failed(StatsError::NoMatchData)
                &&& final(self).cached() == old(self).cached()
            } else {
                &&& outcome matches MatchOutcome::Computed { stats, persist }
                &&& persist@ == StoreCommandView::Upsert(stats@)
                &&& stats@ == computed_summary(
                    pending.key@,
                    pending.account_id@,
                    collected(pending.fetched@, fetched),
                    now,
                )
                &&& stats@.consistent()
                &&& final(self).cached() == old(self).cached().insert(
                    pending.key@.cache_key(),
                    stats@,
                )
            },
            final(self).limits() == old(self).limits(),
    {
        let AwaitingMatch { key, account_id, shard, match_ids, next, fetched: so_far } = pending;
        let mut matches = so_far;
        match fetched {
            Ok(m) => {
                matches.push(m);
            },
            Err(_) => {},
        }
        if next + 1 < match_ids.len() {
            MatchOutcome::Fetch(
                AwaitingMatch { key, account_id, shard, match_ids, next: next + 1, fetched: matches },
            )
        } else if matches.len() == 0 {
            MatchOutcome::Failed(StatsError::NoMatchData)
        } else {
            let computed = aggregate_at(
                account_id.as_str(),
                matches.as_slice(),
                key.player_id.clone(),
                key.period.as_str(),
                now,
            );
            let stats = PlayerStats { mode: key.mode.clone(), shard: key.shard.clone(), ..computed };
            let cache_key = cache_key(
                key.player_id.as_str(),
                key.period.as_str(),
                key.mode.as_str(),
                key.shard.as_str(),
            );
            self.memory.insert(cache_key, stats.duplicate());
            let persist = StoreCommand::Upsert(stats.duplicate());
            MatchOutcome::Computed { stats, persist }
        }
    }
}

/// The matches in hand after the fetches ended as `results` say, one after
/// the other, beginning with none.
pub open spec fn collected_all(results: Seq<Result<PubgMatchResponse, PubgApiError>>) -> Seq<
    PubgMatchResponse,
>
    decreases results.len(),
{
    if results.len() == 0 {
        Seq::empty()
    } else {
        collected(collected_all(results.drop_last()), results.last())
    }
}

/// Failed fetches are skipped and nothing else is: the matches in hand are
/// exactly the matches that were fetched, in the order of the fetches.
pub proof fn lemma_collected_all_are_the_fetched(
    results: Seq<Result<PubgMatchResponse, PubgApiError>>,
)
    ensures
        collected_all(results) == results.filter(
            |r: Result<PubgMatchResponse, PubgApiError>| r is Ok,
        ).map_values(|r: Result<PubgMatchResponse, PubgApiError>| r->Ok_0),
        collected_all(results).len() <= results.len(),
    decreases results.len(),
{
    let is_ok = |r: Result<PubgMatchResponse, PubgApiError>| r is Ok;
    let value = |r: Result<PubgMatchResponse, PubgApiError>| r->Ok_0;
    reveal(Seq::filter);
    if results.len() > 0 {
        lemma_collected_all_are_the_fetched(results.drop_last());
        let before = results.drop_last();
        if results.last() is Ok {
            assert(results.filter(is_ok) =~= before.filter(is_ok).push(results.last()));
            assert(results.filter(is_ok).map_values(value) =~= before.filter(is_ok).map_values(
                value,
            ).push(results.last()->Ok_0));
        } else {
            assert(results.filter(is_ok) =~= before.filter(is_ok));
        }
    } else {
        assert(results.filter(is_ok) =~= Seq::empty());
        assert(results.filter(is_ok).map_values(value) =~= Seq::empty());
    }
}

/// A summary that was just computed for a request is what the memory tier
/// holds for the same request: a lookup that hits returns it, and a hit ends
/// the request with nothing to fetch.
pub proof fn lemma_computed_summary_is_cached(
    cache: SummaryMap,
    key: StatsKeyView,
    stats: PlayerStatsView,
)
    ensures
        cache.insert(key.cache_key(), stats).contains_key(
            cache_key_of(key.player_id, key.period, key.mode, key.shard),
        ),
        cache.insert(key.cache_key(), stats)[cache_key_of(
            key.player_id,
            key.period,
            key.mode,
            key.shard,
        )] == stats,
{
}

} // verus!
