pub mod player;
pub mod pubg;
pub mod stats;

pub use player::{CreatePlayerRequest, InvalidRequest, Player, PlayerResponse, PlayerSummary};
pub use pubg::{
    PubgError, PubgErrorResponse, PubgMatchAttributes, PubgMatchData, PubgMatchIncluded,
    PubgMatchRef, PubgMatchResponse, PubgMatchesData, PubgParticipantAttributes,
    PubgParticipantStats, PubgPlayerAttributes, PubgPlayerData, PubgPlayerRelationships,
    PubgPlayerResponse, PubgRosterAttributes, PubgRosterStats,
};
pub use stats::{PlayerStats, PlayerStatsView, Ratio, RatioView, StatsFilter, StatsResponse};
