//! Aggregating raw match records into a summary of one player over one
//! period.

use crate::clock::{rfc3339_instant, Timestamp, SECONDS_PER_DAY, SECONDS_PER_HOUR};
use crate::models::pubg::{PubgMatchIncluded, PubgMatchResponse, PubgParticipantStats};
use crate::models::stats::{PlayerStats, PlayerStatsView, Ratio, RatioView};
use crate::text::same_text;
use vstd::prelude::*;
use vstd::string::*;

verus! {

/// The most matches that one aggregation takes. The counts of a summary are
/// 64-bit numbers; up to this many matches cannot overflow them.
pub const MAX_MATCHES: usize = 0x7fff_ffff;

/// Length in days of the window that `period` names: 7, 30 or 90 for `"7d"`,
/// `"30d"` and `"90d"`, and 7 for any other text.
pub open spec fn window_days_of(period: Seq<char>) -> int {
    if period == "30d"@ {
        30
    } else if period == "90d"@ {
        90
    } else {
        7
    }
}

/// Hours that a summary over `period` stays valid: 24, 72 or 168 for `"7d"`,
/// `"30d"` and `"90d"`, and 24 for any other text.
pub open spec fn ttl_hours_of(period: Seq<char>) -> int {
    if period == "30d"@ {
        72
    } else if period == "90d"@ {
        168
    } else {
        24
    }
}

/// The table of the periods: a summary over `"7d"` looks back 7 days and is
/// kept for 24 hours, one over `"30d"` 30 days and 72 hours, one over `"90d"`
/// 90 days and 168 hours.
pub proof fn lemma_period_table()
    ensures
        window_days_of("7d"@) == 7 && ttl_hours_of("7d"@) == 24,
        window_days_of("30d"@) == 30 && ttl_hours_of("30d"@) == 72,
        window_days_of("90d"@) == 90 && ttl_hours_of("90d"@) == 168,
{
    reveal_strlit("7d");
    reveal_strlit("30d");
    reveal_strlit("90d");
    assert("7d"@.len() != "30d"@.len());
    assert("90d"@[0] != "30d"@[0]);
}

/// The first instant of the window over `period` that ends at `now`.
pub open spec fn window_start(now: Timestamp, period: Seq<char>) -> Timestamp {
    now.shifted(-(window_days_of(period) * SECONDS_PER_DAY))
}

/// Length in days of the window that `period` names.
pub fn window_days(period: &str) -> (days: i64)
    ensures
        days == window_days_of(period@),
{
    if same_text(period, "30d") {
        30
    } else if same_text(period, "90d") {
        90
    } else {
        7
    }
}

/// Hours that a summary over `period` stays valid.
pub fn ttl_hours(period: &str) -> (hours: i64)
    ensures
        hours == ttl_hours_of(period@),
{
    if same_text(period, "30d") {
        72
    } else if same_text(period, "90d") {
        168
    } else {
        24
    }
}

/// The death indicator of a player who survived the match.
pub open spec fn alive_text() -> Seq<char> {
    "alive"@
}

/// Running totals over the matches counted so far, as mathematical integers.
pub struct Tally {
    pub kills: int,
    pub deaths: int,
    pub damage_dealt: int,
    pub survival_time: int,
    pub top1_count: int,
    pub matches_played: int,
}

impl Tally {
    pub open spec fn zero() -> Tally {
        Tally {
            kills: 0,
            deaths: 0,
            damage_dealt: 0,
            survival_time: 0,
            top1_count: 0,
            matches_played: 0,
        }
    }

    /// The totals after one more match in which the player did as `entry`
    /// says: a win is a first place, a death is any indicator but "alive".
    pub open spec fn with_entry(self, entry: PubgParticipantStats) -> Tally {
        Tally {
            kills: self.kills + entry.kills,
            deaths: self.deaths + (if entry.death_type@ == alive_text() {
                0int
            } else {
                1int
            }),
            damage_dealt: self.damage_dealt + entry.damage_dealt,
            survival_time: self.survival_time + entry.time_survived,
            top1_count: self.top1_count + (if entry.win_place == 1 {
                1int
            } else {
                0int
            }),
            matches_played: self.matches_played + 1,
        }
    }
}

/// `item` is a participant entry of the player with the external identifier
/// `account`.
pub open spec fn belongs_to(item: PubgMatchIncluded, account: Seq<char>) -> bool {
    match item {
        PubgMatchIncluded::Participant { attributes, .. } => attributes.stats.player_id@ == account,
        _ => false,
    }
}

/// The figures of a participant entry.
pub open spec fn entry_stats(item: PubgMatchIncluded) -> PubgParticipantStats
    recommends
        item is Participant,
{
    item->Participant_attributes.stats
}

/// `included[i]` is the entry that counts for `account`: the first of its
/// participant entries.
pub open spec fn is_subject_entry(included: Seq<PubgMatchIncluded>, account: Seq<char>, i: int) -> bool {
    &&& 0 <= i < included.len()
    &&& belongs_to(included[i], account)
    &&& forall|j: int| 0 <= j < i ==> !belongs_to(#[trigger] included[j], account)
}

/// The figures that count for `account` in a match, if it took part.
pub open spec fn subject_stats(included: Seq<PubgMatchIncluded>, account: Seq<char>) -> Option<
    PubgParticipantStats,
> {
    if exists|i: int| is_subject_entry(included, account, i) {
        let i = choose|i: int| is_subject_entry(included, account, i);
        Some(entry_stats(included[i]))
    } else {
        None
    }
}

/// A match is inside the window unless its creation time can be read and
/// lies before the start of the window.
pub open spec fn in_window(created: Option<Timestamp>, start: Timestamp) -> bool {
    match created {
        Some(at) => !at.before(start),
        None => true,
    }
}

/// What a match adds to the totals of `account`: the player's figures if the
/// match is inside the window and the player took part, else nothing.
pub open spec fn contribution(m: PubgMatchResponse, account: Seq<char>, start: Timestamp) -> Option<
    PubgParticipantStats,
> {
    if in_window(rfc3339_instant(m.data.attributes.created_at@), start) {
        subject_stats(m.included@, account)
    } else {
        None
    }
}

/// The totals of `account` over `matches`, counting from `start` on.
pub open spec fn tally_of(matches: Seq<PubgMatchResponse>, account: Seq<char>, start: Timestamp) -> Tally
    decreases matches.len(),
{
    if matches.len() == 0 {
        Tally::zero()
    } else {
        let before = tally_of(matches.drop_last(), account, start);
        match contribution(matches.last(), account, start) {
            Some(entry) => before.with_entry(entry),
            None => before,
        }
    }
}

/// A match that was created before the window begins adds nothing to the
/// totals, whoever took part in it.
pub proof fn lemma_match_before_window_adds_nothing(
    matches: Seq<PubgMatchResponse>,
    m: PubgMatchResponse,
    account: Seq<char>,
    start: Timestamp,
)
    requires
        rfc3339_instant(m.data.attributes.created_at@) matches Some(at) && at.before(start),
    ensures
        tally_of(matches.push(m), account, start) == tally_of(matches, account, start),
{
    assert(matches.push(m).drop_last() =~= matches);
}

/// A match in which the player took no part adds nothing to the totals.
pub proof fn lemma_match_without_player_adds_nothing(
    matches: Seq<PubgMatchResponse>,
    m: PubgMatchResponse,
    account: Seq<char>,
    start: Timestamp,
)
    requires
        forall|i: int| 0 <= i < m.included@.len() ==> !belongs_to(#[trigger] m.included@[i], account),
    ensures
        tally_of(matches.push(m), account, start) == tally_of(matches, account, start),
{
    assert(matches.push(m).drop_last() =~= matches);
}

/// A match inside the window in which the player took part adds the figures
/// of the player's first entry, and counts as one match.
pub proof fn lemma_match_in_window_adds_entry(
    matches: Seq<PubgMatchResponse>,
    m: PubgMatchResponse,
    account: Seq<char>,
    start: Timestamp,
    i: int,
)
    requires
        in_window(rfc3339_instant(m.data.attributes.created_at@), start),
        is_subject_entry(m.included@, account, i),
    ensures
        tally_of(matches.push(m), account, start) == tally_of(matches, account, start).with_entry(
            entry_stats(m.included@[i]),
        ),
        tally_of(matches.push(m), account, start).matches_played == tally_of(
            matches,
            account,
            start,
        ).matches_played + 1,
{
    assert(matches.push(m).drop_last() =~= matches);
    lemma_subject_entry_unique(m.included@, account, i);
}

/// At most one entry of a match counts for an account.
pub proof fn lemma_subject_entry_unique(included: Seq<PubgMatchIncluded>, account: Seq<char>, i: int)
    requires
        is_subject_entry(included, account, i),
    ensures
        subject_stats(included, account) == Some(entry_stats(included[i])),
{
    let k = choose|k: int| is_subject_entry(included, account, k);
    assert(is_subject_entry(included, account, k));
    if k < i {
        assert(!belongs_to(included[k], account));
    } else if i < k {
        assert(!belongs_to(included[i], account));
    }
}

/// Running totals over the matches counted so far.
#[derive(Clone, Copy, Debug, PartialEq, Eq, Structural)]
pub struct MatchTotals {
    pub kills: i64,
    pub deaths: i64,
    /// In thousandths of a hit point.
    pub damage_dealt: u64,
    /// In thousandths of a second.
    pub survival_time: u64,
    pub top1_count: i64,
    pub matches_played: i64,
}

impl View for MatchTotals {
    type V = Tally;

    open spec fn view(&self) -> Tally {
        Tally {
            kills: self.kills as int,
            deaths: self.deaths as int,
            damage_dealt: self.damage_dealt as int,
            survival_time: self.survival_time as int,
            top1_count: self.top1_count as int,
            matches_played: self.matches_played as int,
        }
    }
}

impl Tally {
    /// Totals that `n` matches can reach at most.
    pub open spec fn within(self, n: int) -> bool {
        &&& -n * 0x8000_0000 <= self.kills <= n * 0x8000_0000
        &&& 0 <= self.deaths <= n
        &&& 0 <= self.damage_dealt <= n * 0x1_0000_0000
        &&& 0 <= self.survival_time <= n * 0x1_0000_0000
        &&& 0 <= self.top1_count <= n
        &&& 0 <= self.matches_played <= n
        &&& self.top1_count <= self.matches_played
        &&& self.deaths <= self.matches_played
    }
}

/// Totals over a number of matches stay within what that many matches allow.
pub proof fn lemma_tally_within(matches: Seq<PubgMatchResponse>, account: Seq<char>, start: Timestamp)
    ensures
        tally_of(matches, account, start).within(matches.len() as int),
    decreases matches.len(),
{
    if matches.len() > 0 {
        lemma_tally_within(matches.drop_last(), account, start);
    }
}

impl MatchTotals {
    pub fn zero() -> (r: MatchTotals)
        ensures
            r@ == Tally::zero(),
    {
        MatchTotals {
            kills: 0,
            deaths: 0,
            damage_dealt: 0,
            survival_time: 0,
            top1_count: 0,
            matches_played: 0,
        }
    }

    /// Counts one more match in which the player did as `entry` says.
    pub fn add_entry(&mut self, entry: &PubgParticipantStats)
        requires
            old(self)@.within(MAX_MATCHES as int - 1),
        ensures
            final(self)@ == old(self)@.with_entry(*entry),
    {
        self.kills = self.kills + entry.kills as i64;
        if !same_text(entry.death_type.as_str(), "alive") {
            self.deaths = self.deaths + 1;
        }
        self.damage_dealt = self.damage_dealt + entry.damage_dealt as u64;
        self.survival_time = self.survival_time + entry.time_survived as u64;
        if entry.win_place == 1 {
            self.top1_count = self.top1_count + 1;
        }
        self.matches_played = self.matches_played + 1;
    }
}

/// Whether a match whose creation time was read as `created` is counted in
/// the window that starts at `start`.
pub fn counts_in_window(created: Option<Timestamp>, start: &Timestamp) -> (counted: bool)
    ensures
        counted == in_window(created, *start),
{
    match created {
        Some(at) => !at.is_before(start),
        None => true,
    }
}

/// Finds the entry of a match that counts for `account`.
pub fn find_subject<'a>(included: &'a Vec<PubgMatchIncluded>, account: &str) -> (r: Option<
    &'a PubgParticipantStats,
>)
    ensures
        match r {
            Some(entry) => subject_stats(included@, account@) == Some(*entry),
            None => subject_stats(included@, account@).is_none(),
        },
{
    let mut i: usize = 0;
    while i < included.len()
        invariant
            i <= included@.len(),
            forall|j: int| 0 <= j < i ==> !belongs_to(#[trigger] included@[j], account@),
        decreases included@.len() - i,
    {
        match &included[i] {
            PubgMatchIncluded::Participant { id: _, attributes } => {
                if same_text(attributes.stats.player_id.as_str(), account) {
                    proof {
                        assert(is_subject_entry(included@, account@, i as int));
                        lemma_subject_entry_unique(included@, account@, i as int);
                    }
                    return Some(&attributes.stats);
                }
            },
            _ => {},
        }
        i += 1;
    }
    None
}

/// Adds up what `account` did in `matches`, counting the matches from
/// `start` on.
pub fn tally_matches(account: &str, matches: &[PubgMatchResponse], start: Timestamp) -> (r:
    MatchTotals)
    requires
        matches@.len() <= MAX_MATCHES,
    ensures
        r@ == tally_of(matches@, account@, start),
{
    let mut totals = MatchTotals::zero();
    let mut i: usize = 0;
    assert(matches@.take(0) =~= Seq::empty());
    while i < matches.len()
        invariant
            i <= matches@.len() <= MAX_MATCHES,
            totals@ == tally_of(matches@.take(i as int), account@, start),
        decreases matches@.len() - i,
    {
        let m = &matches[i];
        proof {
            lemma_tally_within(matches@.take(i as int), account@, start);
            assert(matches@.take(i + 1).drop_last() =~= matches@.take(i as int));
            assert(matches@.take(i + 1).last() == matches@[i as int]);
        }
        let created = Timestamp::parse_rfc3339(m.data.attributes.created_at.as_str());
        if counts_in_window(created, &start) {
            match find_subject(&m.included, account) {
                Some(entry) => {
                    totals.add_entry(entry);
                },
                None => {},
            }
        }
        i += 1;
    }
    assert(matches@.take(i as int) =~= matches@);
    totals
}

/// The mode that a summary carries until the caller files it.
pub open spec fn default_mode_text() -> Seq<char> {
    "all"@
}

/// The shard that a summary carries until the caller files it.
pub open spec fn default_shard_text() -> Seq<char> {
    "steam"@
}

/// The summary that totals make when they are computed at `now` over
/// `period`: the ratios derived from the counts, and an expiry that lies the
/// period's time to live after `now`.
pub open spec fn summary_of(
    totals: Tally,
    player_id: Seq<char>,
    period: Seq<char>,
    now: Timestamp,
) -> PlayerStatsView {
    PlayerStatsView {
        id: None,
        player_id,
        period,
        mode: default_mode_text(),
        shard: default_shard_text(),
        kills: totals.kills,
        deaths: totals.deaths,
        kd_ratio: RatioView::kills_per_death(totals.kills, totals.deaths),
        win_rate: RatioView::win_percentage(totals.top1_count, totals.matches_played),
        damage_dealt: totals.damage_dealt as nat,
        survival_time: totals.survival_time as nat,
        top1_count: totals.top1_count,
        matches_played: totals.matches_played,
        computed_at: now,
        expires_at: now.shifted(ttl_hours_of(period) * SECONDS_PER_HOUR),
    }
}

/// The summary of what `account` did in `matches` during the window over
/// `period` that ends at `now`.
pub open spec fn aggregate_of(
    account: Seq<char>,
    matches: Seq<PubgMatchResponse>,
    player_id: Seq<char>,
    period: Seq<char>,
    now: Timestamp,
) -> PlayerStatsView {
    summary_of(tally_of(matches, account, window_start(now, period)), player_id, period, now)
}

/// The kill ratio of every summary that is aggregated: without a death it
/// is the kill count, as the fraction kills over one; else it is the
/// fraction kills over deaths. It is never a division by zero.
pub proof fn lemma_kill_ratio_of_aggregate(
    account: Seq<char>,
    matches: Seq<PubgMatchResponse>,
    player_id: Seq<char>,
    period: Seq<char>,
    now: Timestamp,
)
    ensures
        ({
            let r = aggregate_of(account, matches, player_id, period, now);
            &&& r.deaths >= 0
            &&& r.deaths == 0 ==> r.kd_ratio == (RatioView { numerator: r.kills, denominator: 1 })
            &&& r.deaths > 0 ==> r.kd_ratio == (RatioView {
                numerator: r.kills,
                denominator: r.deaths,
            })
            &&& r.kd_ratio.denominator > 0
        }),
{
    lemma_tally_within(matches, account, window_start(now, period));
}

/// The win rate of every summary that is aggregated: without a match it is
/// zero; else it is the fraction of a hundred times the wins over the
/// matches, and lies between 0 and 100, for no more wins are counted than
/// matches.
pub proof fn lemma_win_rate_of_aggregate(
    account: Seq<char>,
    matches: Seq<PubgMatchResponse>,
    player_id: Seq<char>,
    period: Seq<char>,
    now: Timestamp,
)
    ensures
        ({
            let r = aggregate_of(account, matches, player_id, period, now);
            &&& 0 <= r.top1_count <= r.matches_played
            &&& r.matches_played == 0 ==> r.win_rate == (RatioView { numerator: 0, denominator: 1 })
            &&& r.matches_played > 0 ==> r.win_rate == (RatioView {
                numerator: 100 * r.top1_count,
                denominator: r.matches_played,
            })
            &&& 0 <= r.win_rate.numerator <= 100 * r.win_rate.denominator
            &&& r.win_rate.denominator > 0
        }),
{
    lemma_tally_within(matches, account, window_start(now, period));
}

/// Matches of which none adds anything leave the totals at zero.
pub proof fn lemma_tally_of_nothing(matches: Seq<PubgMatchResponse>, account: Seq<char>, start: Timestamp)
    requires
        forall|i: int|
            0 <= i < matches.len() ==> (#[trigger] contribution(matches[i], account, start)) is None,
    ensures
        tally_of(matches, account, start) == Tally::zero(),
    decreases matches.len(),
{
    if matches.len() > 0 {
        let before = matches.drop_last();
        assert forall|i: int| 0 <= i < before.len() implies (#[trigger] contribution(
            before[i],
            account,
            start,
        )) is None by {
            assert(before[i] == matches[i]);
        }
        lemma_tally_of_nothing(before, account, start);
        assert(contribution(matches[matches.len() - 1], account, start) is None);
    }
}

/// Where no match adds anything (there is none, each lies before the window
/// or is without the player), the summary counts nothing: no match, kill,
/// death or win, and both ratios are zero.
pub proof fn lemma_aggregate_of_nothing(
    account: Seq<char>,
    matches: Seq<PubgMatchResponse>,
    player_id: Seq<char>,
    period: Seq<char>,
    now: Timestamp,
)
    requires
        forall|i: int|
            0 <= i < matches.len() ==> (#[trigger] contribution(
                matches[i],
                account,
                window_start(now, period),
            )) is None,
    ensures
        ({
            let r = aggregate_of(account, matches, player_id, period, now);
            &&& r.matches_played == 0
            &&& r.kills == 0
            &&& r.deaths == 0
            &&& r.top1_count == 0
            &&& r.damage_dealt == 0
            &&& r.survival_time == 0
            &&& r.kd_ratio == RatioView::zero()
            &&& r.win_rate == RatioView::zero()
        }),
{
    lemma_tally_of_nothing(matches, account, window_start(now, period));
}

/// Derives the summary from totals that were computed at `now` over `period`.
pub fn summarize(totals: MatchTotals, player_id: String, period: &str, now: Timestamp) -> (r:
    PlayerStats)
    requires
        now.in_range(),
        totals@.within(MAX_MATCHES as int),
    ensures
        r@ == summary_of(totals@, player_id@, period@, now),
        r@.consistent(),
{
    let kd_ratio = Ratio::from_kills_and_deaths(totals.kills, totals.deaths);
    let win_rate = Ratio::from_wins_and_matches(totals.top1_count, totals.matches_played);
    let hours = ttl_hours(period);
    PlayerStats {
        id: None,
        player_id,
        period: String::from_str(period),
        mode: String::from_str("all"),
        shard: String::from_str("steam"),
        kills: totals.kills,
        deaths: totals.deaths,
        kd_ratio,
        win_rate,
        damage_dealt: totals.damage_dealt,
        survival_time: totals.survival_time,
        top1_count: totals.top1_count,
        matches_played: totals.matches_played,
        computed_at: now,
        expires_at: now.plus_hours(hours),
    }
}

/// Aggregates what `account` did in `matches` during the window over
/// `period` that ends at `now`, into a summary filed under `player_id`.
pub fn aggregate_at(
    account: &str,
    matches: &[PubgMatchResponse],
    player_id: String,
    period: &str,
    now: Timestamp,
) -> (r: PlayerStats)
    requires
        now.in_range(),
        matches@.len() <= MAX_MATCHES,
    ensures
        r@ == aggregate_of(account@, matches@, player_id@, period@, now),
        r@.consistent(),
{
    let days = window_days(period);
    let start = now.minus_days(days);
    let totals = tally_matches(account, matches, start);
    proof {
        lemma_tally_within(matches@, account@, start);
    }
    summarize(totals, player_id, period, now)
}

} // verus!
