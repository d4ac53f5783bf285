//! What the cache asks of the persistent tier, and what it may count on once
//! that is done.

use crate::models::stats::{PlayerStats, PlayerStatsView};
use crate::services::stats_cache::StatsKeyView;
use vstd::prelude::*;

verus! {

/// What is to be done on the persistent tier.
#[derive(Debug)]
pub enum StoreCommand {
    /// Write the summary in place of the one with the same player, period,
    /// mode and shard, or as a new one if there is none.
    Upsert(PlayerStats),
    /// Delete every summary of the player.
    DeleteByPlayer { player_id: String },
    /// Delete every summary.
    DeleteAll,
}

pub enum StoreCommandView {
    Upsert(PlayerStatsView),
    DeleteByPlayer { player_id: Seq<char> },
    DeleteAll,
}

impl View for StoreCommand {
    type V = StoreCommandView;

    open spec fn view(&self) -> StoreCommandView {
        match self {
            StoreCommand::Upsert(stats) => StoreCommandView::Upsert(stats@),
            StoreCommand::DeleteByPlayer { player_id } => StoreCommandView::DeleteByPlayer {
                player_id: player_id@,
            },
            StoreCommand::DeleteAll => StoreCommandView::DeleteAll,
        }
    }
}

/// The summaries of the persistent tier: at most one for each player,
/// period, mode and shard.
pub type StoredSummaries = Map<StatsKeyView, PlayerStatsView>;

/// The request that a summary answers.
pub open spec fn key_of(stats: PlayerStatsView) -> StatsKeyView {
    StatsKeyView {
        player_id: stats.player_id,
        period: stats.period,
        mode: stats.mode,
        shard: stats.shard,
    }
}

/// The keys of the summaries of one player.
pub open spec fn keys_of_player(player_id: Seq<char>) -> Set<StatsKeyView> {
    Set::new(|key: StatsKeyView| key.player_id == player_id)
}

/// What the persistent tier holds once a command was carried out.
pub open spec fn stored_after(stored: StoredSummaries, command: StoreCommandView) -> StoredSummaries {
    match command {
        StoreCommandView::Upsert(stats) => stored.insert(key_of(stats), stats),
        StoreCommandView::DeleteByPlayer { player_id } => stored.remove_keys(
            keys_of_player(player_id),
        ),
        StoreCommandView::DeleteAll => Map::empty(),
    }
}

/// Storing is idempotent on the persistent tier as well: of two summaries
/// written for the same player, period, mode and shard, one remains, and it
/// is the one written last. No other summary changes.
pub proof fn lemma_upsert_twice_keeps_latest(
    stored: StoredSummaries,
    first: PlayerStatsView,
    second: PlayerStatsView,
)
    requires
        key_of(first) == key_of(second),
    ensures
        ({
            let once = stored_after(stored, StoreCommandView::Upsert(first));
            let twice = stored_after(once, StoreCommandView::Upsert(second));
            &&& twice.dom() == once.dom()
            &&& twice[key_of(second)] == second
            &&& forall|key: StatsKeyView|
                key != key_of(second) && stored.contains_key(key) ==> twice[key] == stored[key]
        }),
{
    let once = stored_after(stored, StoreCommandView::Upsert(first));
    let twice = stored_after(once, StoreCommandView::Upsert(second));
    assert(twice.dom() =~= once.dom());
}

/// The command that invalidates a player leaves none of the player's
/// summaries in the persistent tier, whatever the period, mode and shard,
/// and leaves the summaries of other players alone.
pub proof fn lemma_delete_by_player_is_complete(stored: StoredSummaries, player_id: Seq<char>)
    ensures
        forall|key: StatsKeyView|
            key.player_id == player_id ==> !(#[trigger] stored_after(
                stored,
                StoreCommandView::DeleteByPlayer { player_id },
            ).contains_key(key)),
        forall|key: StatsKeyView|
            key.player_id != player_id && stored.contains_key(key) ==> (#[trigger] stored_after(
                stored,
                StoreCommandView::DeleteByPlayer { player_id },
            ).contains_key(key)) && stored_after(
                stored,
                StoreCommandView::DeleteByPlayer { player_id },
            )[key] == stored[key],
{
    let after = stored_after(stored, StoreCommandView::DeleteByPlayer { player_id });
    assert forall|key: StatsKeyView| key.player_id == player_id implies !(#[trigger] after.contains_key(
        key,
    )) by {
        assert(keys_of_player(player_id).contains(key));
    }
    assert forall|key: StatsKeyView|
        key.player_id != player_id && stored.contains_key(key) implies (#[trigger] after.contains_key(
        key,
    )) && after[key] == stored[key] by {
        assert(!keys_of_player(player_id).contains(key));
    }
}

} // verus!
