//! Performance summaries: what is computed for one player over one period,
//! cached, and handed to callers.

use crate::clock::{Timestamp, MAX_SHIFT_HOURS, SECONDS_PER_HOUR};
use vstd::prelude::*;
use vstd::std_specs::convert::FromSpecImpl;

verus! {

/// An exact fraction. A ratio that a summary derives has a positive
/// denominator.
#[derive(Clone, Copy, Debug, PartialEq, Eq, Structural)]
pub struct Ratio {
    pub numerator: i64,
    pub denominator: i64,
}

/// An exact fraction of mathematical integers.
pub struct RatioView {
    pub numerator: int,
    pub denominator: int,
}

impl View for Ratio {
    type V = RatioView;

    open spec fn view(&self) -> RatioView {
        RatioView { numerator: self.numerator as int, denominator: self.denominator as int }
    }
}

impl RatioView {
    pub open spec fn zero() -> RatioView {
        RatioView { numerator: 0, denominator: 1 }
    }

    /// Kills per death; the kill count itself while there is no death.
    pub open spec fn kills_per_death(kills: int, deaths: int) -> RatioView
        recommends
            deaths >= 0,
    {
        if deaths == 0 {
            RatioView { numerator: kills, denominator: 1 }
        } else {
            RatioView { numerator: kills, denominator: deaths }
        }
    }

    /// Wins as a percentage of the matches played; zero while there is no
    /// match.
    pub open spec fn win_percentage(wins: int, matches: int) -> RatioView
        recommends
            matches >= 0,
    {
        if matches == 0 {
            RatioView::zero()
        } else {
            RatioView { numerator: 100 * wins, denominator: matches }
        }
    }

    /// The fraction denotes the same number as `n / d`.
    pub open spec fn denotes(self, n: int, d: int) -> bool
        recommends
            d != 0,
            self.denominator != 0,
    {
        self.numerator * d == n * self.denominator
    }
}

impl Ratio {
    /// Kills per death; the kill count itself while there is no death.
    pub fn from_kills_and_deaths(kills: i64, deaths: i64) -> (ratio: Ratio)
        requires
            deaths >= 0,
        ensures
            ratio@ == RatioView::kills_per_death(kills as int, deaths as int),
            ratio.denominator > 0,
    {
        if deaths > 0 {
            Ratio { numerator: kills, denominator: deaths }
        } else {
            Ratio { numerator: kills, denominator: 1 }
        }
    }

    /// Wins as a percentage of the matches played; zero while there is no
    /// match.
    pub fn from_wins_and_matches(wins: i64, matches: i64) -> (ratio: Ratio)
        requires
            matches >= 0,
            -0x7fff_ffff_ffff <= wins <= 0x7fff_ffff_ffff,
        ensures
            ratio@ == RatioView::win_percentage(wins as int, matches as int),
            ratio.denominator > 0,
    {
        if matches > 0 {
            Ratio { numerator: 100 * wins, denominator: matches }
        } else {
            Ratio { numerator: 0, denominator: 1 }
        }
    }
}

/// What the derived ratios are worth, whatever the counts: without a death
/// the kill ratio is the kill count, else kills over deaths; without a match
/// the win rate is zero, else a hundred times the wins over the matches.
/// Neither has a denominator of zero.
pub proof fn lemma_ratio_values(kills: int, deaths: nat, wins: int, matches: nat)
    ensures
        deaths == 0 ==> RatioView::kills_per_death(kills, deaths as int).denotes(kills, 1),
        deaths > 0 ==> RatioView::kills_per_death(kills, deaths as int).denotes(
            kills,
            deaths as int,
        ),
        matches == 0 ==> RatioView::win_percentage(wins, matches as int).denotes(0, 1),
        matches > 0 ==> RatioView::win_percentage(wins, matches as int).denotes(
            100 * wins,
            matches as int,
        ),
        RatioView::kills_per_death(kills, deaths as int).denominator > 0,
        RatioView::win_percentage(wins, matches as int).denominator > 0,
{
}

/// The summary of one player's recent matches over one period.
///
/// `damage_dealt` and `survival_time` are whole numbers of thousandths.
#[derive(Clone, Debug)]
pub struct PlayerStats {
    /// Identifier that the persistent store gave the record, if it has one.
    pub id: Option<String>,
    /// The player's identifier in the registry: 24 hexadecimal digits.
    pub player_id: String,
    /// `"7d"`, `"30d"` or `"90d"`.
    pub period: String,
    /// `"solo"`, `"duo"`, `"squad"` or `"all"`.
    pub mode: String,
    /// `"steam"`, `"xbox"` or `"psn"`.
    pub shard: String,
    pub kills: i64,
    pub deaths: i64,
    pub kd_ratio: Ratio,
    pub win_rate: Ratio,
    pub damage_dealt: u64,
    pub survival_time: u64,
    pub top1_count: i64,
    pub matches_played: i64,
    pub computed_at: Timestamp,
    pub expires_at: Timestamp,
}

/// A summary as a mathematical value.
pub struct PlayerStatsView {
    pub id: Option<Seq<char>>,
    pub player_id: Seq<char>,
    pub period: Seq<char>,
    pub mode: Seq<char>,
    pub shard: Seq<char>,
    pub kills: int,
    pub deaths: int,
    pub kd_ratio: RatioView,
    pub win_rate: RatioView,
    pub damage_dealt: nat,
    pub survival_time: nat,
    pub top1_count: int,
    pub matches_played: int,
    pub computed_at: Timestamp,
    pub expires_at: Timestamp,
}

impl View for PlayerStats {
    type V = PlayerStatsView;

    open spec fn view(&self) -> PlayerStatsView {
        PlayerStatsView {
            id: match self.id {
                Some(id) => Some(id@),
                None => None,
            },
            player_id: self.player_id@,
            period: self.period@,
            mode: self.mode@,
            shard: self.shard@,
            kills: self.kills as int,
            deaths: self.deaths as int,
            kd_ratio: self.kd_ratio@,
            win_rate: self.win_rate@,
            damage_dealt: self.damage_dealt as nat,
            survival_time: self.survival_time as nat,
            top1_count: self.top1_count as int,
            matches_played: self.matches_played as int,
            computed_at: self.computed_at,
            expires_at: self.expires_at,
        }
    }
}

impl PlayerStatsView {
    /// The derived fields agree with the counts, no more deaths or wins are
    /// counted than matches, and the summary expires after it was computed.
    pub open spec fn consistent(self) -> bool {
        &&& 0 <= self.deaths <= self.matches_played
        &&& 0 <= self.top1_count <= self.matches_played
        &&& self.kd_ratio == RatioView::kills_per_death(self.kills, self.deaths)
        &&& self.win_rate == RatioView::win_percentage(self.top1_count, self.matches_played)
        &&& self.computed_at.before(self.expires_at)
    }

    /// The same summary filed under another player, mode and shard.
    pub open spec fn stamped(self, player_id: Seq<char>, mode: Seq<char>, shard: Seq<char>) -> PlayerStatsView {
        PlayerStatsView { player_id, mode, shard, ..self }
    }

    /// The summary with no match in it that is computed at `now` and lives for
    /// `ttl_hours` hours.
    pub open spec fn empty(
        player_id: Seq<char>,
        period: Seq<char>,
        mode: Seq<char>,
        shard: Seq<char>,
        now: Timestamp,
        ttl_hours: int,
    ) -> PlayerStatsView {
        PlayerStatsView {
            id: None,
            player_id,
            period,
            mode,
            shard,
            kills: 0,
            deaths: 0,
            kd_ratio: RatioView::zero(),
            win_rate: RatioView::zero(),
            damage_dealt: 0,
            survival_time: 0,
            top1_count: 0,
            matches_played: 0,
            computed_at: now,
            expires_at: now.shifted(ttl_hours * SECONDS_PER_HOUR),
        }
    }
}

impl PlayerStats {
    /// An empty summary that is computed now and lives for `ttl_hours` hours.
    pub fn new(player_id: String, period: String, mode: String, shard: String, ttl_hours: i64) -> (r:
        PlayerStats)
        requires
            -MAX_SHIFT_HOURS <= ttl_hours <= MAX_SHIFT_HOURS,
        ensures
            r.computed_at.in_range(),
            r@ == PlayerStatsView::empty(
                player_id@,
                period@,
                mode@,
                shard@,
                r.computed_at,
                ttl_hours as int,
            ),
    {
        let now = Timestamp::now();
        PlayerStats::new_at(player_id, period, mode, shard, ttl_hours, now)
    }

    /// An empty summary that is computed at `now` and lives for `ttl_hours`
    /// hours.
    pub fn new_at(
        player_id: String,
        period: String,
        mode: String,
        shard: String,
        ttl_hours: i64,
        now: Timestamp,
    ) -> (r: PlayerStats)
        requires
            now.in_range(),
            -MAX_SHIFT_HOURS <= ttl_hours <= MAX_SHIFT_HOURS,
        ensures
            r@ == PlayerStatsView::empty(player_id@, period@, mode@, shard@, now, ttl_hours as int),
    {
        PlayerStats {
            id: None,
            player_id,
            period,
            mode,
            shard,
            kills: 0,
            deaths: 0,
            kd_ratio: Ratio { numerator: 0, denominator: 1 },
            win_rate: Ratio { numerator: 0, denominator: 1 },
            damage_dealt: 0,
            survival_time: 0,
            top1_count: 0,
            matches_played: 0,
            computed_at: now,
            expires_at: now.plus_hours(ttl_hours),
        }
    }

    /// A copy of the summary.
    pub fn duplicate(&self) -> (r: PlayerStats)
        ensures
            r@ == self@,
    {
        let id = match &self.id {
            Some(id) => Some(id.clone()),
            None => None,
        };
        PlayerStats {
            id,
            player_id: self.player_id.clone(),
            period: self.period.clone(),
            mode: self.mode.clone(),
            shard: self.shard.clone(),
            kills: self.kills,
            deaths: self.deaths,
            kd_ratio: self.kd_ratio,
            win_rate: self.win_rate,
            damage_dealt: self.damage_dealt,
            survival_time: self.survival_time,
            top1_count: self.top1_count,
            matches_played: self.matches_played,
            computed_at: self.computed_at,
            expires_at: self.expires_at,
        }
    }

    /// The summary is still valid at `now`: it expires later.
    pub fn is_fresh_at(&self, now: &Timestamp) -> (fresh: bool)
        ensures
            fresh == now.before(self.expires_at),
    {
        self.expires_at.is_after(now)
    }
}

/// Which summaries a caller asks for; `None` leaves the choice to a default.
#[derive(Clone, Debug)]
pub struct StatsFilter {
    pub period: Option<String>,
    pub mode: Option<String>,
    pub shard: Option<String>,
}

/// A summary as it is shown to callers: without the store's identifier and
/// the expiry.
#[derive(Clone, Debug)]
pub struct StatsResponse {
    pub player_id: String,
    pub period: String,
    pub mode: String,
    pub shard: String,
    pub kills: i64,
    pub deaths: i64,
    pub kd_ratio: Ratio,
    pub win_rate: Ratio,
    pub damage_dealt: u64,
    pub survival_time: u64,
    pub top1_count: i64,
    pub matches_played: i64,
    pub computed_at: Timestamp,
}

impl StatsResponse {
    /// `self` is what is shown of `stats`: everything but the store's
    /// identifier and the expiry.
    pub open spec fn shows(self, stats: PlayerStats) -> bool {
        &&& self.player_id@ == stats.player_id@
        &&& self.period@ == stats.period@
        &&& self.mode@ == stats.mode@
        &&& self.shard@ == stats.shard@
        &&& self.kills == stats.kills
        &&& self.deaths == stats.deaths
        &&& self.kd_ratio == stats.kd_ratio
        &&& self.win_rate == stats.win_rate
        &&& self.damage_dealt == stats.damage_dealt
        &&& self.survival_time == stats.survival_time
        &&& self.top1_count == stats.top1_count
        &&& self.matches_played == stats.matches_played
        &&& self.computed_at == stats.computed_at
    }
}

impl From<PlayerStats> for StatsResponse {
    fn from(stats: PlayerStats) -> (r: StatsResponse) {
        StatsResponse {
            player_id: stats.player_id,
            period: stats.period,
            mode: stats.mode,
            shard: stats.shard,
            kills: stats.kills,
            deaths: stats.deaths,
            kd_ratio: stats.kd_ratio,
            win_rate: stats.win_rate,
            damage_dealt: stats.damage_dealt,
            survival_time: stats.survival_time,
            top1_count: stats.top1_count,
            matches_played: stats.matches_played,
            computed_at: stats.computed_at,
        }
    }
}

impl FromSpecImpl<PlayerStats> for StatsResponse {
    open spec fn obeys_from_spec() -> bool {
        true
    }

    open spec fn from_spec(stats: PlayerStats) -> StatsResponse {
        StatsResponse {
            player_id: stats.player_id,
            period: stats.period,
            mode: stats.mode,
            shard: stats.shard,
            kills: stats.kills,
            deaths: stats.deaths,
            kd_ratio: stats.kd_ratio,
            win_rate: stats.win_rate,
            damage_dealt: stats.damage_dealt,
            survival_time: stats.survival_time,
            top1_count: stats.top1_count,
            matches_played: stats.matches_played,
            computed_at: stats.computed_at,
        }
    }
}

} // verus!
