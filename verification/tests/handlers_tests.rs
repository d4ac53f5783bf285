use pubg_tracker_api::clock::Timestamp;
use pubg_tracker_api::config::env::{Config, ConfigError, Environment};
use pubg_tracker_api::db::connection::{create_indexes, MAX_POOL_SIZE, MIN_POOL_SIZE};
use pubg_tracker_api::handlers::dashboard_handler::{
    check_player_count, compared_player, compared_stats, get_dashboard_stats, parse_player_ids,
    player_not_found, AwaitingComparedPlayer, DashboardOutcome, MAX_COMPARED_PLAYERS,
};
use pubg_tracker_api::handlers::player_handler::{
    clear_all_stats_cache, create_player, default_mode, default_period, default_shard,
    delete_player, found_player, get_player, get_player_matches, get_player_stats, get_players,
    parse_player_id, refresh_all_players, refresh_player, Failure, RefreshAllResponse,
    RefreshOutcome, StatsQuery,
};
use pubg_tracker_api::middleware::cors::{create_cors_layer, CorsPolicy};
use pubg_tracker_api::models::player::Player;
use pubg_tracker_api::models::stats::{PlayerStats, Ratio};

const PLAYER: &str = "65a4f1c2e4b0a1b2c3d4e5f6";

fn at(secs: i64) -> Timestamp {
    Timestamp::new(secs, 0).unwrap()
}

fn player(name: &str) -> Player {
    Player {
        id: Some(PLAYER.to_string()),
        account_id: format!("account.{}", name),
        name: name.to_string(),
        shard: "steam".to_string(),
        last_matches: vec!["m1".to_string()],
        last_refreshed_at: None,
        created_at: at(10),
        summary: None,
    }
}

fn summary() -> PlayerStats {
    PlayerStats {
        id: None,
        player_id: PLAYER.to_string(),
        period: "7d".to_string(),
        mode: "all".to_string(),
        shard: "steam".to_string(),
        kills: 10,
        deaths: 5,
        kd_ratio: Ratio { numerator: 10, denominator: 5 },
        win_rate: Ratio { numerator: 200, denominator: 10 },
        damage_dealt: 1,
        survival_time: 2,
        top1_count: 2,
        matches_played: 10,
        computed_at: at(100),
        expires_at: at(200),
    }
}

fn assert_failure(failure: Failure, status: u16, message: &str) {
    assert_eq!(failure.status, status);
    assert_eq!(failure.body.error, message);
}

#[test]
fn test_query_defaults() {
    assert_eq!(default_period(), "7d");
    assert_eq!(default_mode(), "all");
    assert_eq!(default_shard(), "steam");
    assert_eq!(pubg_tracker_api::handlers::dashboard_handler::default_period(), "7d");
    assert_eq!(pubg_tracker_api::handlers::dashboard_handler::default_mode(), "all");
    assert_eq!(pubg_tracker_api::handlers::dashboard_handler::default_shard(), "steam");
    let query = StatsQuery::with_defaults(None, None, None);
    assert_eq!((query.period.as_str(), query.mode.as_str(), query.shard.as_str()), ("7d", "all", "steam"));
    let query = StatsQuery::with_defaults(Some("90d".to_string()), None, Some("psn".to_string()));
    assert_eq!((query.period.as_str(), query.mode.as_str(), query.shard.as_str()), ("90d", "all", "psn"));
}

#[test]
fn test_parse_player_id() {
    assert_eq!(parse_player_id(PLAYER).unwrap(), PLAYER);
    // Upper-case digits name the same identifier; it is handed on in lower case.
    assert_eq!(parse_player_id("65A4F1C2E4B0A1B2C3D4E5F6").unwrap(), PLAYER);
    assert_eq!(parse_player_id("65a4F1c2E4b0A1b2C3d4E5f6").unwrap(), PLAYER);
    assert_eq!(parse_player_id("000000000000000000000000").unwrap(), "000000000000000000000000");
    for text in [
        "",
        "65a4f1c2e4b0a1b2c3d4e5f",
        "65a4f1c2e4b0a1b2c3d4e5f6a",
        "65a4f1c2e4b0a1b2c3d4e5fg",
        " 65a4f1c2e4b0a1b2c3d4e5f6",
        "65a4f1c2e4b0a1b2c3d4e5f6 ",
        "not-an-id",
        "６５a4f1c2e4b0a1b2c3d4e5f6",
    ] {
        assert_failure(parse_player_id(text).unwrap_err(), 400, "Invalid player ID format");
    }
}

#[test]
fn test_parse_player_ids() {
    assert_eq!(parse_player_ids(PLAYER).unwrap(), vec![PLAYER]);
    assert_eq!(
        parse_player_ids(" 65A4F1C2E4B0A1B2C3D4E5F6 ,\t0123456789abcdef01234567\n").unwrap(),
        vec![PLAYER, "0123456789abcdef01234567"]
    );
    let ten = vec![PLAYER; 10].join(",");
    assert_eq!(parse_player_ids(&ten).unwrap().len(), 10);
    let eleven = vec![PLAYER; 11].join(",");
    assert_failure(parse_player_ids(&eleven).unwrap_err(), 400, "Maximum 10 players can be compared");
    // A piece that is no identifier comes first, however many pieces there are.
    let eleven_with_a_bad_one = format!("{},nobody", ten);
    assert_failure(
        parse_player_ids(&eleven_with_a_bad_one).unwrap_err(),
        400,
        "Invalid player ID format",
    );
    for text in ["", ",", "nobody", &format!("{},", PLAYER), &format!(",{}", PLAYER), &format!("{},,{}", PLAYER, PLAYER)] {
        assert_failure(parse_player_ids(text).unwrap_err(), 400, "Invalid player ID format");
    }
}

#[test]
fn test_check_player_count() {
    assert_eq!(MAX_COMPARED_PLAYERS, 10);
    assert_failure(check_player_count(0).unwrap_err(), 400, "At least one player ID is required");
    assert!(check_player_count(1).is_ok());
    assert!(check_player_count(10).is_ok());
    assert_failure(check_player_count(11).unwrap_err(), 400, "Maximum 10 players can be compared");
    assert_failure(check_player_count(usize::MAX).unwrap_err(), 400, "Maximum 10 players can be compared");
}

#[test]
fn test_failures() {
    assert_failure(Failure::invalid_player_id(), 400, "Invalid player ID format");
    assert_failure(Failure::player_not_found(), 404, "Player not found");
    assert_failure(Failure::validation("name: too long"), 400, "Validation error: name: too long");
    assert_failure(Failure::failed_to("fetch stats", "timed out"), 500, "Failed to fetch stats: timed out");
    assert_failure(player_not_found(PLAYER), 404, "Player 65a4f1c2e4b0a1b2c3d4e5f6 not found");
}

#[test]
fn test_player_endpoints() {
    let (status, shown) = create_player(Ok(player("A"))).unwrap();
    assert_eq!(status, 201);
    assert_eq!(shown.name, "A");
    assert_eq!(shown.id, PLAYER);
    assert_failure(create_player(Err("Player not found".to_string())).unwrap_err(), 500, "Failed to add player: Player not found");

    let shown = get_players(Ok(vec![player("A"), player("B"), player("C")])).unwrap();
    assert_eq!(shown.iter().map(|p| p.name.as_str()).collect::<Vec<_>>(), vec!["A", "B", "C"]);
    assert_eq!(shown[1].account_id, "account.B");
    assert!(get_players(Ok(vec![])).unwrap().is_empty());
    assert_failure(get_players(Err("down".to_string())).unwrap_err(), 500, "Failed to fetch players: down");

    assert_eq!(get_player(Ok(Some(player("A")))).unwrap().name, "A");
    assert_failure(get_player(Ok(None)).unwrap_err(), 404, "Player not found");
    assert_failure(get_player(Err("down".to_string())).unwrap_err(), 500, "Failed to fetch player: down");
    assert_eq!(found_player(Ok(Some(player("A")))).unwrap().last_matches, vec!["m1"]);
    assert_failure(found_player(Ok(None)).unwrap_err(), 404, "Player not found");
    assert_failure(found_player(Err("down".to_string())).unwrap_err(), 500, "Failed to fetch player: down");

    assert_eq!(refresh_player(Ok(player("A"))).unwrap().name, "A");
    assert_failure(refresh_player(Err("Player not found in PUBG API".to_string())).unwrap_err(), 500, "Failed to refresh player: Player not found in PUBG API");

    assert_eq!(delete_player(Ok(())).unwrap(), 204);
    assert_failure(delete_player(Err("down".to_string())).unwrap_err(), 500, "Failed to delete player: down");

    assert_eq!(get_player_matches(Ok(vec!["m1".to_string()])).unwrap(), vec!["m1"]);
    assert_failure(get_player_matches(Err("Player not found".to_string())).unwrap_err(), 500, "Failed to fetch matches: Player not found");

    let shown = get_player_stats(Ok(summary())).unwrap();
    assert_eq!(shown.kills, 10);
    assert_eq!(shown.player_id, PLAYER);
    assert_failure(
        get_player_stats(Err("No match data available for this player. Please ensure the player has recent matches.".to_string())).unwrap_err(),
        500,
        "Failed to fetch stats: No match data available for this player. Please ensure the player has recent matches.",
    );
}

#[test]
fn test_clear_cache_report() {
    let report = clear_all_stats_cache(Ok(42)).unwrap();
    assert_eq!((report.total, report.success, report.failed), (42, 42, 0));
    assert!(report.errors.is_none());
    assert_failure(clear_all_stats_cache(Err("down".to_string())).unwrap_err(), 500, "Failed to clear stats cache: down");
    let report = RefreshAllResponse::cleared(0);
    assert_eq!((report.total, report.success, report.failed), (0, 0, 0));
}

#[test]
fn test_refresh_all_report() {
    let outcome = |name: &str, failure: Option<&str>| RefreshOutcome {
        name: name.to_string(),
        failure: failure.map(|reason| reason.to_string()),
    };
    let report = refresh_all_players(Ok(vec![
        outcome("A", None),
        outcome("B", Some("Player not found in PUBG API")),
        outcome("C", None),
        outcome("D", Some("Rate limit exceeded, retry after 60 seconds")),
    ]))
    .unwrap();
    assert_eq!((report.total, report.success, report.failed), (4, 2, 2));
    assert_eq!(
        report.errors,
        Some(vec![
            "B: Player not found in PUBG API".to_string(),
            "D: Rate limit exceeded, retry after 60 seconds".to_string(),
        ])
    );

    let report = refresh_all_players(Ok(vec![outcome("A", None)])).unwrap();
    assert_eq!((report.total, report.success, report.failed), (1, 1, 0));
    assert!(report.errors.is_none());

    let report = refresh_all_players(Ok(vec![])).unwrap();
    assert_eq!((report.total, report.success, report.failed), (0, 0, 0));
    assert!(report.errors.is_none());

    assert_failure(refresh_all_players(Err("down".to_string())).unwrap_err(), 500, "Failed to list players: down");

    let mut report = RefreshAllResponse::new();
    report.record_success();
    report.record_failure("X", "boom");
    report.record_success();
    assert_eq!((report.total, report.success, report.failed), (3, 2, 1));
    assert_eq!(report.errors, Some(vec!["X: boom".to_string()]));
}

#[test]
fn test_dashboard_rows() {
    assert_eq!(compared_player(PLAYER, Ok(Some(player("A")))).unwrap().name, "A");
    assert_failure(compared_player(PLAYER, Ok(None)).unwrap_err(), 404, "Player 65a4f1c2e4b0a1b2c3d4e5f6 not found");
    assert_failure(compared_player(PLAYER, Err("down".to_string())).unwrap_err(), 500, "Failed to fetch player: down");

    let row = compared_stats(player("A"), Ok(summary())).unwrap();
    assert_eq!(row.player.name, "A");
    assert_eq!(row.stats.kills, 10);
    assert_failure(compared_stats(player("A"), Err("down".to_string())).unwrap_err(), 500, "Failed to fetch stats: down");

}

const OTHER: &str = "0123456789abcdef01234567";

#[test]
fn test_dashboard_rejects_a_bad_query_before_any_lookup() {
    for text in ["", "nobody", "65a4f1c2e4b0a1b2c3d4e5f6,", "65a4f1c2e4b0a1b2c3d4e5f6,,x"] {
        assert_failure(get_dashboard_stats(text).unwrap_err(), 400, "Invalid player ID format");
    }
    let eleven = vec![PLAYER; 11].join(",");
    assert_failure(
        get_dashboard_stats(&eleven).unwrap_err(),
        400,
        "Maximum 10 players can be compared",
    );
    let eleven_with_a_bad_one = format!("{},nobody", vec![PLAYER; 10].join(","));
    assert_failure(
        get_dashboard_stats(&eleven_with_a_bad_one).unwrap_err(),
        400,
        "Invalid player ID format",
    );
}

#[test]
fn test_dashboard_rows_follow_the_query() {
    let pending = get_dashboard_stats(&format!(" {} , 0123456789ABCDEF01234567", PLAYER)).unwrap();
    assert!(pending.is_valid());
    assert_eq!(pending.player_ids, vec![PLAYER, OTHER]);
    assert!(pending.rows.is_empty());
    assert_eq!(pending.player_id(), PLAYER);

    let awaiting = pending.with_player(Ok(Some(player("A")))).unwrap();
    assert!(awaiting.is_valid());
    assert_eq!(awaiting.player.name, "A");
    let pending = match awaiting.with_stats(Ok(summary())).unwrap() {
        DashboardOutcome::NextPlayer(pending) => pending,
        other => panic!("unexpected outcome: {:?}", other),
    };
    assert_eq!(pending.rows.len(), 1);
    assert_eq!(pending.player_id(), OTHER);

    let mut second = summary();
    second.kills = 77;
    let awaiting = pending.with_player(Ok(Some(player("B")))).unwrap();
    match awaiting.with_stats(Ok(second)).unwrap() {
        DashboardOutcome::Done(response) => {
            assert_eq!(response.players.len(), 2);
            assert_eq!(response.players[0].player.name, "A");
            assert_eq!(response.players[0].stats.kills, 10);
            assert_eq!(response.players[1].player.name, "B");
            assert_eq!(response.players[1].stats.kills, 77);
        }
        other => panic!("unexpected outcome: {:?}", other),
    }
}

#[test]
fn test_dashboard_of_one_player() {
    let pending = get_dashboard_stats(PLAYER).unwrap();
    let awaiting = pending.with_player(Ok(Some(player("A")))).unwrap();
    match awaiting.with_stats(Ok(summary())).unwrap() {
        DashboardOutcome::Done(response) => assert_eq!(response.players.len(), 1),
        other => panic!("unexpected outcome: {:?}", other),
    }
}

#[test]
fn test_dashboard_ends_at_the_first_failure() {
    let query = format!("{},{}", PLAYER, OTHER);
    // The second player is unknown: the request fails and names that player.
    let pending = get_dashboard_stats(&query).unwrap();
    let awaiting = pending.with_player(Ok(Some(player("A")))).unwrap();
    let pending = match awaiting.with_stats(Ok(summary())).unwrap() {
        DashboardOutcome::NextPlayer(pending) => pending,
        other => panic!("unexpected outcome: {:?}", other),
    };
    assert_failure(
        pending.with_player(Ok(None)).unwrap_err(),
        404,
        "Player 0123456789abcdef01234567 not found",
    );

    let pending = get_dashboard_stats(&query).unwrap();
    assert_failure(
        pending.with_player(Err("down".to_string())).unwrap_err(),
        500,
        "Failed to fetch player: down",
    );

    let pending = get_dashboard_stats(&query).unwrap();
    let awaiting = pending.with_player(Ok(Some(player("A")))).unwrap();
    assert_failure(
        awaiting.with_stats(Err("Player not found: x".to_string())).unwrap_err(),
        500,
        "Failed to fetch stats: Player not found: x",
    );
}

#[test]
fn test_dashboard_request_validity() {
    let pending = get_dashboard_stats(PLAYER).unwrap();
    assert!(pending.is_valid());
    let finished = AwaitingComparedPlayer { player_ids: vec![PLAYER.to_string()], rows: vec![
        compared_stats(player("A"), Ok(summary())).unwrap(),
    ] };
    assert!(!finished.is_valid());
    let too_many =
        AwaitingComparedPlayer { player_ids: vec![PLAYER.to_string(); 11], rows: Vec::new() };
    assert!(!too_many.is_valid());
}

#[test]
fn test_cors_policy() {
    assert!(matches!(create_cors_layer("*"), CorsPolicy::Permissive));
    match create_cors_layer("https://tracker.example") {
        CorsPolicy::Restricted { origin } => assert_eq!(origin, "https://tracker.example"),
        CorsPolicy::Permissive => panic!("one origin was configured"),
    }
    assert!(matches!(create_cors_layer(""), CorsPolicy::Restricted { .. }));
    assert!(matches!(create_cors_layer("**"), CorsPolicy::Restricted { .. }));
}

#[test]
fn test_index_plan() {
    assert_eq!((MAX_POOL_SIZE, MIN_POOL_SIZE), (10, 2));
    let plan = create_indexes();
    assert_eq!(plan.len(), 3);
    assert_eq!(plan[0].collection, "players");
    assert_eq!(plan[0].name, "account_id_unique");
    assert_eq!(plan[0].keys, vec!["account_id"]);
    assert!(plan[0].unique);
    assert_eq!(plan[0].expire_after_secs, None);
    assert_eq!(plan[1].collection, "player_stats");
    assert_eq!(plan[1].name, "player_stats_composite");
    assert_eq!(plan[1].keys, vec!["player_id", "period", "mode", "shard"]);
    assert!(plan[1].unique);
    assert_eq!(plan[1].expire_after_secs, None);
    assert_eq!(plan[2].collection, "player_stats");
    assert_eq!(plan[2].name, "stats_ttl");
    assert_eq!(plan[2].keys, vec!["expires_at"]);
    assert!(!plan[2].unique);
    assert_eq!(plan[2].expire_after_secs, Some(0));
}

fn environment() -> Environment {
    Environment {
        rust_env: None,
        host: None,
        port: None,
        mongodb_uri: Some("mongodb://localhost:27017".to_string()),
        pubg_api_key: Some("test-api-key".to_string()),
        pubg_api_base_url: None,
        cors_origin: None,
        rust_log: None,
    }
}

#[test]
fn test_config_defaults() {
    let config = Config::from_env(environment()).unwrap();
    assert_eq!(config.rust_env, "development");
    assert_eq!(config.host, "0.0.0.0");
    assert_eq!(config.port, 8080);
    assert_eq!(config.mongodb_uri, "mongodb://localhost:27017");
    assert_eq!(config.pubg_api_key, "test-api-key");
    assert_eq!(config.pubg_api_base_url, "https://api.pubg.com/shards");
    assert_eq!(config.cors_origin, "*");
    assert_eq!(config.rust_log, "info");
    assert!(config.is_development());
    assert!(!config.is_production());
}

#[test]
fn test_config_from_set_variables() {
    let config = Config::from_env(Environment {
        rust_env: Some("production".to_string()),
        host: Some("127.0.0.1".to_string()),
        port: Some("3000".to_string()),
        mongodb_uri: Some("mongodb://db:27017".to_string()),
        pubg_api_key: Some("test-api-key".to_string()),
        pubg_api_base_url: Some("http://localhost:9999".to_string()),
        cors_origin: Some("https://tracker.example".to_string()),
        rust_log: Some("debug".to_string()),
    })
    .unwrap();
    assert_eq!(config.rust_env, "production");
    assert_eq!(config.host, "127.0.0.1");
    assert_eq!(config.port, 3000);
    assert_eq!(config.mongodb_uri, "mongodb://db:27017");
    assert_eq!(config.pubg_api_base_url, "http://localhost:9999");
    assert_eq!(config.cors_origin, "https://tracker.example");
    assert_eq!(config.rust_log, "debug");
    assert!(config.is_production());
    assert!(!config.is_development());

    let mut env = environment();
    env.rust_env = Some("staging".to_string());
    let config = Config::from_env(env).unwrap();
    assert!(!config.is_production());
    assert!(!config.is_development());
}

#[test]
fn test_config_missing_variables() {
    let mut env = environment();
    env.mongodb_uri = None;
    assert_eq!(Config::from_env(env).unwrap_err(), ConfigError::MissingMongodbUri);
    let mut env = environment();
    env.pubg_api_key = None;
    assert_eq!(Config::from_env(env).unwrap_err(), ConfigError::MissingPubgApiKey);
    let mut env = environment();
    env.mongodb_uri = None;
    env.pubg_api_key = None;
    assert_eq!(Config::from_env(env).unwrap_err(), ConfigError::MissingMongodbUri);
}

#[test]
fn test_parse_port() {
    for text in ["0", "80", "8080", "65535", "+443", "0080", "65536", "", "-1", "80 ", "http", "8_080"] {
        assert_eq!(Config::parse_port(text), text.parse::<u16>().ok(), "{:?}", text);
    }
}
