pub mod dashboard_handler;
pub mod player_handler;

pub use dashboard_handler::{
    AwaitingComparedPlayer, AwaitingComparedStats, DashboardOutcome, DashboardQuery,
    DashboardResponse, PlayerWithStats,
};
pub use player_handler::{ErrorResponse, Failure, RefreshAllResponse, StatsQuery};
