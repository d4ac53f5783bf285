pub mod match_aggregator;
pub mod player_service;
pub mod pubg_api_service;
pub mod stats_cache;
pub mod stats_service;
pub mod stats_store;

pub use match_aggregator::{MatchTotals, Tally};
pub use player_service::PlayerError;
pub use pubg_api_service::{PubgApiError, PubgApiService};
pub use stats_cache::MemoryTier;
pub use stats_service::StatsService;
pub use stats_store::StoreCommand;
