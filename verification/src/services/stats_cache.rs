//! The memory tier of the cache of summaries, and the keys under which it
//! files them.

use crate::models::stats::{PlayerStats, PlayerStatsView};
use vstd::prelude::*;
use vstd::string::*;

verus! {

/// `moka::sync::Cache`, declared so that it can stand in fields and
/// signatures. Nothing is known of what a value of it holds inside.
#[verifier::external_type_specification]
#[verifier::external_body]
#[verifier::reject_recursive_types(K)]
#[verifier::reject_recursive_types(V)]
#[verifier::reject_recursive_types(S)]
pub struct ExSyncCache<K, V, S>(moka::sync::Cache<K, V, S>);

/// Summaries by cache key.
pub type SummaryMap = Map<Seq<char>, PlayerStatsView>;

/// The summaries that the memory tier may still hand out, by cache key: what
/// was put in and neither replaced nor invalidated since. The cache may drop
/// any of them earlier, when its time to live has passed or it is full.
pub uninterp spec fn cached_summaries(cache: moka::sync::Cache<String, PlayerStats>) -> SummaryMap;

/// The limits that the memory tier was built with: the number of entries
/// that it holds at most, and the seconds after which it forgets an entry.
pub uninterp spec fn cache_limits(cache: moka::sync::Cache<String, PlayerStats>) -> (
    Option<u64>,
    Option<u64>,
);

/// Longest time to live that the memory tier can be built with: a thousand
/// years of 365 days.
pub const MAX_TIME_TO_LIVE_SECS: u64 = 31_536_000_000;

/// Builds the memory tier with `moka::sync::Cache::builder()`, `max_capacity`,
/// `time_to_live` and `build`. A new cache holds nothing and keeps the two
/// limits it was built with. `build` refuses a time to live above a thousand
/// years.
#[verifier::external_body]
fn build_cache(max_capacity: u64, time_to_live_secs: u64) -> (cache: moka::sync::Cache<
    String,
    PlayerStats,
>)
    requires
        time_to_live_secs <= MAX_TIME_TO_LIVE_SECS,
    ensures
        cached_summaries(cache) == SummaryMap::empty(),
        cache_limits(cache) == (Some(max_capacity), Some(time_to_live_secs)),
{
    moka::sync::Cache::builder()
        .max_capacity(max_capacity)
        .time_to_live(std::time::Duration::from_secs(time_to_live_secs))
        .build()
}

/// Reads the capacity from `moka::sync::Cache::policy`.
#[verifier::external_body]
fn cache_max_capacity(cache: &moka::sync::Cache<String, PlayerStats>) -> (capacity: Option<u64>)
    ensures
        capacity == cache_limits(*cache).0,
{
    cache.policy().max_capacity()
}

/// Reads the time to live from `moka::sync::Cache::policy`, in whole seconds.
#[verifier::external_body]
fn cache_ttl_secs(cache: &moka::sync::Cache<String, PlayerStats>) -> (seconds: Option<u64>)
    ensures
        seconds == cache_limits(*cache).1,
{
    match cache.policy().time_to_live() {
        Some(time_to_live) => Some(time_to_live.as_secs()),
        None => None,
    }
}

/// Looks `key` up with `moka::sync::Cache::get`, which returns a clone of the
/// value stored under the key unless the entry has expired or was evicted.
#[verifier::external_body]
fn cache_get(cache: &moka::sync::Cache<String, PlayerStats>, key: &str) -> (found: Option<
    PlayerStats,
>)
    ensures
        found matches Some(stats) ==> cached_summaries(*cache).contains_key(key@)
            && cached_summaries(*cache)[key@] == stats@,
{
    cache.get(key)
}

/// Stores `stats` under `key` with `moka::sync::Cache::insert`, replacing
/// what the key held. The limits of a cache do not change after it is built.
#[verifier::external_body]
fn cache_insert(cache: &mut moka::sync::Cache<String, PlayerStats>, key: String, stats: PlayerStats)
    ensures
        cached_summaries(*final(cache)) == cached_summaries(*old(cache)).insert(key@, stats@),
        cache_limits(*final(cache)) == cache_limits(*old(cache)),
{
    cache.insert(key, stats)
}

/// Drops what `key` holds with `moka::sync::Cache::invalidate`.
#[verifier::external_body]
fn cache_invalidate(cache: &mut moka::sync::Cache<String, PlayerStats>, key: &str)
    ensures
        cached_summaries(*final(cache)) == cached_summaries(*old(cache)).remove(key@),
        cache_limits(*final(cache)) == cache_limits(*old(cache)),
{
    cache.invalidate(key)
}

/// Which summary a request asks for.
#[derive(Debug)]
pub struct StatsKey {
    /// The player's identifier in the registry.
    pub player_id: String,
    pub period: String,
    pub mode: String,
    pub shard: String,
}

/// A request's key as a mathematical value.
pub struct StatsKeyView {
    pub player_id: Seq<char>,
    pub period: Seq<char>,
    pub mode: Seq<char>,
    pub shard: Seq<char>,
}

impl View for StatsKey {
    type V = StatsKeyView;

    open spec fn view(&self) -> StatsKeyView {
        StatsKeyView {
            player_id: self.player_id@,
            period: self.period@,
            mode: self.mode@,
            shard: self.shard@,
        }
    }
}

impl StatsKeyView {
    /// The key under which the memory tier files the summary.
    pub open spec fn cache_key(self) -> Seq<char> {
        cache_key_of(self.player_id, self.period, self.mode, self.shard)
    }
}

/// The key under which the memory tier files the summary of a player over a
/// period, a mode and a shard: the four texts joined by colons.
pub open spec fn cache_key_of(
    player_id: Seq<char>,
    period: Seq<char>,
    mode: Seq<char>,
    shard: Seq<char>,
) -> Seq<char> {
    player_id + ":"@ + period + ":"@ + mode + ":"@ + shard
}

/// The key under which the memory tier files a summary.
pub fn cache_key(player_id: &str, period: &str, mode: &str, shard: &str) -> (key: String)
    ensures
        key@ == cache_key_of(player_id@, period@, mode@, shard@),
{
    let mut key = String::from_str(player_id);
    key.append(":");
    key.append(period);
    key.append(":");
    key.append(mode);
    key.append(":");
    key.append(shard);
    key
}

/// The periods that summaries are kept for.
pub open spec fn known_periods() -> Seq<Seq<char>> {
    seq!["7d"@, "30d"@, "90d"@]
}

/// The game modes that summaries are kept for.
pub open spec fn known_modes() -> Seq<Seq<char>> {
    seq!["solo"@, "duo"@, "squad"@, "all"@]
}

/// The shards that summaries are kept for.
pub open spec fn known_shards() -> Seq<Seq<char>> {
    seq!["steam"@, "xbox"@, "psn"@]
}

/// How many keys one player can have in the memory tier: every period with
/// every mode and every shard.
pub const KEYS_PER_PLAYER: usize = 36;

/// The `n`-th of a player's keys, counting through the periods, then the
/// modes, then the shards.
pub open spec fn player_key(player_id: Seq<char>, n: int) -> Seq<char>
    recommends
        0 <= n < 36,
{
    cache_key_of(player_id, known_periods()[n / 12], known_modes()[(n / 3) % 4], known_shards()[n % 3])
}

/// All keys under which the memory tier may hold a summary of the player.
pub open spec fn player_keys(player_id: Seq<char>) -> Set<Seq<char>> {
    Set::new(
        |key: Seq<char>|
            exists|p: int, m: int, s: int|
                0 <= p < 3 && 0 <= m < 4 && 0 <= s < 3 && key == #[trigger] cache_key_of(
                    player_id,
                    known_periods()[p],
                    known_modes()[m],
                    known_shards()[s],
                ),
    )
}

/// The first `n` of a player's keys.
pub open spec fn first_player_keys(player_id: Seq<char>, n: int) -> Set<Seq<char>> {
    Set::new(|key: Seq<char>| exists|t: int| 0 <= t < n && key == #[trigger] player_key(player_id, t))
}

/// Counting to 36 reaches every key of the player and no other.
pub proof fn lemma_all_player_keys(player_id: Seq<char>)
    ensures
        first_player_keys(player_id, 36) == player_keys(player_id),
{
    assert forall|key: Seq<char>| first_player_keys(player_id, 36).contains(key) implies player_keys(
        player_id,
    ).contains(key) by {
        let t = choose|t: int| 0 <= t < 36 && key == #[trigger] player_key(player_id, t);
        assert(key == cache_key_of(
            player_id,
            known_periods()[t / 12],
            known_modes()[(t / 3) % 4],
            known_shards()[t % 3],
        ));
    }
    assert forall|key: Seq<char>| player_keys(player_id).contains(key) implies first_player_keys(
        player_id,
        36,
    ).contains(key) by {
        let (p, m, s) = choose|p: int, m: int, s: int|
            0 <= p < 3 && 0 <= m < 4 && 0 <= s < 3 && key == #[trigger] cache_key_of(
                player_id,
                known_periods()[p],
                known_modes()[m],
                known_shards()[s],
            );
        let t = p * 12 + m * 3 + s;
        assert(t / 12 == p && (t / 3) % 4 == m && t % 3 == s);
        assert(key == player_key(player_id, t));
    }
    assert(first_player_keys(player_id, 36) =~= player_keys(player_id));
}

fn period_name(p: usize) -> (name: &'static str)
    requires
        p < 3,
    ensures
        name@ == known_periods()[p as int],
{
    if p == 0 {
        "7d"
    } else if p == 1 {
        "30d"
    } else {
        "90d"
    }
}

fn mode_name(m: usize) -> (name: &'static str)
    requires
        m < 4,
    ensures
        name@ == known_modes()[m as int],
{
    if m == 0 {
        "solo"
    } else if m == 1 {
        "duo"
    } else if m == 2 {
        "squad"
    } else {
        "all"
    }
}

fn shard_name(s: usize) -> (name: &'static str)
    requires
        s < 3,
    ensures
        name@ == known_shards()[s as int],
{
    if s == 0 {
        "steam"
    } else if s == 1 {
        "xbox"
    } else {
        "psn"
    }
}

/// The memory tier: a cache of bounded capacity that forgets an entry after
/// a fixed time to live.
pub struct MemoryTier {
    cache: moka::sync::Cache<String, PlayerStats>,
}

impl MemoryTier {
    /// The summaries that the tier may hand out, by cache key: what was put
    /// in and neither replaced nor invalidated since. The tier may drop any
    /// of them earlier, when its time to live has passed or it is full.
    pub closed spec fn entries(&self) -> SummaryMap {
        cached_summaries(self.cache)
    }

    /// The limits of the tier: how many entries it holds at most, and after
    /// how many seconds it forgets an entry.
    pub closed spec fn limits(&self) -> (Option<u64>, Option<u64>) {
        cache_limits(self.cache)
    }

    /// An empty tier with the given limits. To empty a tier, put a new one in
    /// its place.
    pub fn new(max_capacity: u64, time_to_live_secs: u64) -> (tier: MemoryTier)
        requires
            time_to_live_secs <= MAX_TIME_TO_LIVE_SECS,
        ensures
            tier.entries() == SummaryMap::empty(),
            tier.limits() == (Some(max_capacity), Some(time_to_live_secs)),
    {
        MemoryTier { cache: build_cache(max_capacity, time_to_live_secs) }
    }

    /// How many entries the tier holds at most.
    pub fn capacity(&self) -> (capacity: Option<u64>)
        ensures
            capacity == self.limits().0,
    {
        cache_max_capacity(&self.cache)
    }

    /// After how many seconds the tier forgets an entry.
    pub fn time_to_live_secs(&self) -> (seconds: Option<u64>)
        ensures
            seconds == self.limits().1,
    {
        cache_ttl_secs(&self.cache)
    }

    /// Looks a key up. What is found is what was last stored under the key;
    /// the tier may have dropped it.
    pub fn get(&self, key: &str) -> (found: Option<PlayerStats>)
        ensures
            found matches Some(stats) ==> self.entries().contains_key(key@) && self.entries()[key@]
                == stats@,
    {
        cache_get(&self.cache, key)
    }

    /// Stores a summary under a key, in place of what the key held.
    pub fn insert(&mut self, key: String, stats: PlayerStats)
        ensures
            final(self).entries() == old(self).entries().insert(key@, stats@),
            final(self).limits() == old(self).limits(),
    {
        cache_insert(&mut self.cache, key, stats);
    }

    /// Drops what a key holds.
    pub fn invalidate(&mut self, key: &str)
        ensures
            final(self).entries() == old(self).entries().remove(key@),
            final(self).limits() == old(self).limits(),
    {
        cache_invalidate(&mut self.cache, key);
    }

    /// Drops every summary of the player: all 36 combinations of period,
    /// mode and shard. Other entries stay.
    pub fn invalidate_player(&mut self, player_id: &str)
        ensures
            final(self).entries() == old(self).entries().remove_keys(player_keys(player_id@)),
            final(self).limits() == old(self).limits(),
    {
        let mut n: usize = 0;
        assert(self.entries() =~= old(self).entries().remove_keys(first_player_keys(player_id@, 0)));
        while n < KEYS_PER_PLAYER
            invariant
                n <= KEYS_PER_PLAYER,
                self.entries() == old(self).entries().remove_keys(
                    first_player_keys(player_id@, n as int),
                ),
                self.limits() == old(self).limits(),
            decreases KEYS_PER_PLAYER - n,
        {
            let key = cache_key(player_id, period_name(n / 12), mode_name((n / 3) % 4), shard_name(n % 3));
            assert(key@ == player_key(player_id@, n as int));
            self.invalidate(key.as_str());
            proof {
                let done = first_player_keys(player_id@, n as int);
                let more = first_player_keys(player_id@, n + 1);
                assert(more =~= done.insert(key@)) by {
                    assert forall|k: Seq<char>| more.contains(k) implies done.insert(key@).contains(
                        k,
                    ) by {
                        let t = choose|t: int| 0 <= t < n + 1 && k == #[trigger] player_key(player_id@, t);
                        if t < n {
                            assert(done.contains(k));
                        }
                    }
                    assert forall|k: Seq<char>| done.insert(key@).contains(k) implies more.contains(
                        k,
                    ) by {
                        if k == key@ {
                            assert(k == player_key(player_id@, n as int));
                        } else {
                            let t = choose|t: int| 0 <= t < n && k == #[trigger] player_key(player_id@, t);
                            assert(0 <= t < n + 1);
                        }
                    }
                }
                assert(self.entries() =~= old(self).entries().remove_keys(more));
            }
            n += 1;
        }
        proof {
            lemma_all_player_keys(player_id@);
        }
    }
}

/// The memory tier after `stats` was filed in it.
pub open spec fn filed(cache: SummaryMap, stats: PlayerStatsView) -> SummaryMap {
    cache.insert(cache_key_of(stats.player_id, stats.period, stats.mode, stats.shard), stats)
}

/// Storing is idempotent: of two summaries stored for the same player,
/// period, mode and shard, one entry remains, and it holds the one stored
/// last. Nothing else changes.
pub proof fn lemma_store_twice_keeps_latest(
    cache: SummaryMap,
    first: PlayerStatsView,
    second: PlayerStatsView,
)
    requires
        first.player_id == second.player_id,
        first.period == second.period,
        first.mode == second.mode,
        first.shard == second.shard,
    ensures
        filed(filed(cache, first), second) == filed(cache, second),
        filed(filed(cache, first), second).dom() == filed(cache, first).dom(),
        filed(filed(cache, first), second)[cache_key_of(
            second.player_id,
            second.period,
            second.mode,
            second.shard,
        )] == second,
{
    let key = cache_key_of(second.player_id, second.period, second.mode, second.shard);
    assert(filed(filed(cache, first), second) =~= filed(cache, second));
    assert(filed(filed(cache, first), second).dom() =~= filed(cache, first).dom());
}

/// Invalidation is complete: once a player's summaries were invalidated, the
/// memory tier holds none of them, whichever of the known periods, modes and
/// shards is asked for, so that a request for it misses.
pub proof fn lemma_invalidated_player_misses(cache: SummaryMap, player_id: Seq<char>, p: int, m: int, s: int)
    requires
        0 <= p < 3,
        0 <= m < 4,
        0 <= s < 3,
    ensures
        !cache.remove_keys(player_keys(player_id)).contains_key(
            cache_key_of(player_id, known_periods()[p], known_modes()[m], known_shards()[s]),
        ),
{
    let key = cache_key_of(player_id, known_periods()[p], known_modes()[m], known_shards()[s]);
    assert(player_keys(player_id).contains(key));
}

/// Invalidating one player leaves every entry under another key as it was.
pub proof fn lemma_invalidation_spares_other_keys(cache: SummaryMap, player_id: Seq<char>, key: Seq<char>)
    requires
        !player_keys(player_id).contains(key),
    ensures
        cache.remove_keys(player_keys(player_id)).contains_key(key) == cache.contains_key(key),
        cache.contains_key(key) ==> cache.remove_keys(player_keys(player_id))[key] == cache[key],
{
}

/// No colon occurs in the text.
pub open spec fn colon_free(text: Seq<char>) -> bool {
    forall|i: int| 0 <= i < text.len() ==> #[trigger] text[i] != ':'
}

/// Two texts that agree once a colon and something more is put behind each,
/// and that hold no colon themselves, are the same, and so is what was put
/// behind them.
pub proof fn lemma_split_at_first_colon(a: Seq<char>, rest_a: Seq<char>, b: Seq<char>, rest_b: Seq<char>)
    requires
        colon_free(a),
        colon_free(b),
        a + ":"@ + rest_a == b + ":"@ + rest_b,
    ensures
        a == b,
        rest_a == rest_b,
{
    reveal_strlit(":");
    let colon = ":"@;
    assert(colon.len() == 1 && colon[0] == ':');
    let left = a + colon + rest_a;
    let right = b + colon + rest_b;
    assert(left.len() == a.len() + 1 + rest_a.len());
    assert(right.len() == b.len() + 1 + rest_b.len());
    if a.len() < b.len() {
        assert(left[a.len() as int] == colon[0]);
        assert(right[a.len() as int] == b[a.len() as int]);
    } else if b.len() < a.len() {
        assert(right[b.len() as int] == colon[0]);
        assert(left[b.len() as int] == a[b.len() as int]);
    }
    assert(a.len() == b.len());
    assert(rest_a.len() == rest_b.len());
    assert(a =~= b) by {
        assert forall|i: int| 0 <= i < a.len() implies a[i] == b[i] by {
            assert(left[i] == a[i]);
            assert(right[i] == b[i]);
        }
    }
    assert(rest_a =~= rest_b) by {
        assert forall|i: int| 0 <= i < rest_a.len() implies rest_a[i] == rest_b[i] by {
            assert(left[a.len() + 1 + i] == rest_a[i]);
            assert(right[a.len() + 1 + i] == rest_b[i]);
        }
    }
}

/// A cache key names one summary only: requests whose player, period and
/// mode hold no colon get the same key only if they are the same request.
pub proof fn lemma_cache_key_injective(a: StatsKeyView, b: StatsKeyView)
    requires
        colon_free(a.player_id) && colon_free(a.period) && colon_free(a.mode),
        colon_free(b.player_id) && colon_free(b.period) && colon_free(b.mode),
        a.cache_key() == b.cache_key(),
    ensures
        a == b,
{
    let tail_a2 = a.mode + ":"@ + a.shard;
    let tail_b2 = b.mode + ":"@ + b.shard;
    let tail_a1 = a.period + ":"@ + tail_a2;
    let tail_b1 = b.period + ":"@ + tail_b2;
    assert(a.cache_key() =~= a.player_id + ":"@ + tail_a1);
    assert(b.cache_key() =~= b.player_id + ":"@ + tail_b1);
    lemma_split_at_first_colon(a.player_id, tail_a1, b.player_id, tail_b1);
    lemma_split_at_first_colon(a.period, tail_a2, b.period, tail_b2);
    lemma_split_at_first_colon(a.mode, a.shard, b.mode, b.shard);
}

} // verus!
