//! The layout of the persistent store: its collections and the indexes that
//! the service relies on.

use vstd::prelude::*;
use vstd::string::*;

verus! {

/// Most connections that the pool of the store keeps.
pub const MAX_POOL_SIZE: u32 = 10;

/// Connections that the pool of the store keeps at least.
pub const MIN_POOL_SIZE: u32 = 2;

/// An index of the persistent store.
#[derive(Debug)]
pub struct IndexSpec {
    pub collection: String,
    pub name: String,
    /// The indexed fields, each ascending.
    pub keys: Vec<String>,
    /// No two records agree on all indexed fields.
    pub unique: bool,
    /// The store removes a record this many seconds after the time in the
    /// indexed field.
    pub expire_after_secs: Option<u64>,
}

/// The index is on `keys` of `collection`, under `name`.
pub open spec fn is_index(
    index: IndexSpec,
    collection: Seq<char>,
    name: Seq<char>,
    keys: Seq<Seq<char>>,
) -> bool {
    &&& index.collection@ == collection
    &&& index.name@ == name
    &&& index.keys@.len() == keys.len()
    &&& forall|i: int| 0 <= i < keys.len() ==> (#[trigger] index.keys@[i])@ == keys[i]
}

/// The indexes of the store: players are unique by their external account,
/// summaries are unique by player, period, mode and shard, and the store
/// removes a summary as soon as it has expired.
pub open spec fn is_index_plan(plan: Seq<IndexSpec>) -> bool {
    &&& plan.len() == 3
    &&& is_index(plan[0], "players"@, "account_id_unique"@, seq!["account_id"@])
    &&& plan[0].unique
    &&& plan[0].expire_after_secs.is_none()
    &&& is_index(
        plan[1],
        "player_stats"@,
        "player_stats_composite"@,
        seq!["player_id"@, "period"@, "mode"@, "shard"@],
    )
    &&& plan[1].unique
    &&& plan[1].expire_after_secs.is_none()
    &&& is_index(plan[2], "player_stats"@, "stats_ttl"@, seq!["expires_at"@])
    &&& !plan[2].unique
    &&& plan[2].expire_after_secs == Some(0u64)
}

/// The indexes to create when the service starts.
pub fn create_indexes() -> (plan: Vec<IndexSpec>)
    ensures
        is_index_plan(plan@),
{
    let mut account_keys: Vec<String> = Vec::new();
    account_keys.push(String::from_str("account_id"));
    let mut tuple_keys: Vec<String> = Vec::new();
    tuple_keys.push(String::from_str("player_id"));
    tuple_keys.push(String::from_str("period"));
    tuple_keys.push(String::from_str("mode"));
    tuple_keys.push(String::from_str("shard"));
    let mut expiry_keys: Vec<String> = Vec::new();
    expiry_keys.push(String::from_str("expires_at"));
    let mut plan: Vec<IndexSpec> = Vec::new();
    plan.push(
        IndexSpec {
            collection: String::from_str("players"),
            name: String::from_str("account_id_unique"),
            keys: account_keys,
            unique: true,
            expire_after_secs: None,
        },
    );
    plan.push(
        IndexSpec {
            collection: String::from_str("player_stats"),
            name: String::from_str("player_stats_composite"),
            keys: tuple_keys,
            unique: true,
            expire_after_secs: None,
        },
    );
    plan.push(
        IndexSpec {
            collection: String::from_str("player_stats"),
            name: String::from_str("stats_ttl"),
            keys: expiry_keys,
            unique: false,
            expire_after_secs: Some(0),
        },
    );
    plan
}

} // verus!
