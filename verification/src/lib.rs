//! Tracks players of a competitive game: pulls their recent matches from a
//! rate-limited external API, aggregates them into summaries over a trailing
//! period, and keeps the summaries in a two-tier cache.
//!
//! The library holds the rules and proves them: how matches are aggregated,
//! when a failed request is tried again, what the cache holds after each
//! operation, and how a request is answered. Waiting for the network and the
//! database is left to the caller, who reports each result back and is told
//! what to do next.

pub mod clock;
pub mod config;
pub mod db;
pub mod handlers;
pub mod middleware;
pub mod models;
pub mod object_id;
pub mod services;
pub mod text;
