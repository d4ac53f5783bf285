use pubg_tracker_api::clock::Timestamp;
use pubg_tracker_api::models::player::Player;
use pubg_tracker_api::models::pubg::{
    PubgMatchAttributes, PubgMatchData, PubgMatchIncluded, PubgMatchResponse,
    PubgParticipantAttributes, PubgParticipantStats, PubgRosterAttributes, PubgRosterStats,
};
use pubg_tracker_api::models::stats::{PlayerStats, Ratio};
use pubg_tracker_api::services::match_aggregator::{
    aggregate_at, counts_in_window, find_subject, summarize, tally_matches, ttl_hours,
    window_days, MatchTotals,
};
use pubg_tracker_api::services::pubg_api_service::PubgApiError;
use pubg_tracker_api::services::stats_cache::{cache_key, MemoryTier, StatsKey};
use pubg_tracker_api::services::stats_service::{
    AwaitingMatch, AwaitingPlayer, AwaitingStored, MatchOutcome, MemoryOutcome, PlayerOutcome,
    StatsError, StatsService, StoredOutcome,
};
use pubg_tracker_api::services::stats_store::StoreCommand;

const ACCOUNT: &str = "account.test123";
const PLAYER: &str = "65a4f1c2e4b0a1b2c3d4e5f6";

fn participant(
    account: &str,
    kills: i32,
    damage: u32,
    survived: u32,
    win_place: i32,
    death_type: &str,
) -> PubgMatchIncluded {
    PubgMatchIncluded::Participant {
        id: "participant1".to_string(),
        attributes: PubgParticipantAttributes {
            stats: PubgParticipantStats {
                dbnos: 0,
                assists: 2,
                boosts: 3,
                damage_dealt: damage,
                death_type: death_type.to_string(),
                headshot_kills: 2,
                heals: 5,
                kill_place: 1,
                kill_streaks: 2,
                kills,
                name: "TestPlayer".to_string(),
                player_id: account.to_string(),
                revives: 0,
                road_kills: 0,
                team_kills: 0,
                time_survived: survived,
                vehicle_destroys: 0,
                weapons_acquired: 5,
                win_place,
            },
            actor: None,
            shard_id: "steam".to_string(),
        },
    }
}

fn roster() -> PubgMatchIncluded {
    PubgMatchIncluded::Roster {
        id: "roster1".to_string(),
        attributes: PubgRosterAttributes {
            stats: PubgRosterStats { rank: 1, team_id: 7 },
            shard_id: "steam".to_string(),
            won: Some("true".to_string()),
        },
    }
}

fn game(id: &str, created_at: &str, included: Vec<PubgMatchIncluded>) -> PubgMatchResponse {
    PubgMatchResponse {
        data: PubgMatchData {
            type_: "match".to_string(),
            id: id.to_string(),
            attributes: PubgMatchAttributes {
                created_at: created_at.to_string(),
                duration: 1800,
                game_mode: "solo".to_string(),
                map_name: "Erangel".to_string(),
                is_custom_match: false,
                match_type: None,
                shard_id: "steam".to_string(),
            },
        },
        included,
    }
}

fn days_ago(days: i64) -> String {
    (chrono::Utc::now() - chrono::Duration::days(days)).to_rfc3339()
}

fn at(secs: i64) -> Timestamp {
    Timestamp::new(secs, 0).unwrap()
}

fn as_number(ratio: Ratio) -> f64 {
    ratio.numerator as f64 / ratio.denominator as f64
}

fn stored_summary(player_id: &str, kills: i64, expires_in_hours: i64) -> PlayerStats {
    let now = chrono::Utc::now().timestamp();
    PlayerStats {
        id: None,
        player_id: player_id.to_string(),
        period: "7d".to_string(),
        mode: "solo".to_string(),
        shard: "steam".to_string(),
        kills,
        deaths: 5,
        kd_ratio: Ratio { numerator: kills, denominator: 5 },
        win_rate: Ratio { numerator: 200, denominator: 10 },
        damage_dealt: 1_500_000,
        survival_time: 1_800_000,
        top1_count: 2,
        matches_played: 10,
        computed_at: at(now),
        expires_at: at(now + expires_in_hours * 3600),
    }
}

fn key() -> StatsKey {
    StatsKey {
        player_id: PLAYER.to_string(),
        period: "7d".to_string(),
        mode: "solo".to_string(),
        shard: "steam".to_string(),
    }
}

fn tracked_player(match_ids: &[&str]) -> Player {
    Player {
        id: Some(PLAYER.to_string()),
        account_id: ACCOUNT.to_string(),
        name: "TestPlayer".to_string(),
        shard: "xbox".to_string(),
        last_matches: match_ids.iter().map(|id| id.to_string()).collect(),
        last_refreshed_at: None,
        created_at: at(1_700_000_000),
        summary: None,
    }
}

#[test]
fn test_compute_stats_calculations() {
    let service = StatsService::new();
    let matches = vec![game(
        "match1",
        &days_ago(1),
        vec![roster(), participant(ACCOUNT, 5, 750_500, 1_500_000, 1, "alive")],
    )];
    let stats = service.compute_stats_from_matches(ACCOUNT, &matches, "7d");
    assert_eq!(stats.kills, 5);
    assert_eq!(stats.deaths, 0);
    assert_eq!(as_number(stats.kd_ratio), 5.0);
    assert_eq!(stats.top1_count, 1);
    assert_eq!(stats.matches_played, 1);
    assert_eq!(as_number(stats.win_rate), 100.0);
    assert_eq!(stats.damage_dealt, 750_500);
    assert_eq!(stats.survival_time, 1_500_000);
    assert_eq!(stats.period, "7d");
    assert_eq!(stats.mode, "all");
    assert_eq!(stats.shard, "steam");
    assert!(stats.id.is_none());
}

#[test]
fn test_match_outside_window_is_excluded() {
    let service = StatsService::new();
    let matches = vec![
        game("old", &days_ago(10), vec![participant(ACCOUNT, 9, 100_000, 900_000, 1, "alive")]),
        game("other", &days_ago(2), vec![participant("account.other", 3, 1, 1, 1, "alive")]),
    ];
    let stats = service.compute_stats_from_matches(ACCOUNT, &matches, "7d");
    assert_eq!(stats.matches_played, 0);
    assert_eq!(as_number(stats.win_rate), 0.0);
    assert_eq!(stats.win_rate, Ratio { numerator: 0, denominator: 1 });
    assert_eq!(stats.kills, 0);
    assert_eq!(stats.kd_ratio, Ratio { numerator: 0, denominator: 1 });

    let wider = service.compute_stats_from_matches(ACCOUNT, &matches, "30d");
    assert_eq!(wider.matches_played, 1);
    assert_eq!(wider.kills, 9);
}

#[test]
fn test_computed_summary_is_stamped_with_clock_and_new_id() {
    let service = StatsService::new();
    let before = chrono::Utc::now().timestamp();
    let first = service.compute_stats_from_matches(ACCOUNT, &Vec::new(), "7d");
    let second = service.compute_stats_from_matches(ACCOUNT, &Vec::new(), "7d");
    let after = chrono::Utc::now().timestamp();
    assert!(before <= first.computed_at.secs && first.computed_at.secs <= after);
    assert_eq!(first.expires_at.secs, first.computed_at.secs + 24 * 3600);
    assert_eq!(first.expires_at.nanos, first.computed_at.nanos);
    assert_eq!(first.player_id.len(), 24);
    assert!(first.player_id.chars().all(|c| c.is_ascii_digit() || ('a'..='f').contains(&c)));
    assert_ne!(first.player_id, second.player_id);
}

#[test]
fn test_ttl_follows_the_period() {
    assert_eq!(ttl_hours("7d"), 24);
    assert_eq!(ttl_hours("30d"), 72);
    assert_eq!(ttl_hours("90d"), 168);
    assert_eq!(ttl_hours("1y"), 24);
    assert_eq!(ttl_hours(""), 24);
    let now = at(1_700_000_000);
    for (period, hours) in [("7d", 24i64), ("30d", 72), ("90d", 168), ("weekly", 24)] {
        let stats = aggregate_at(ACCOUNT, &Vec::new(), PLAYER.to_string(), period, now);
        assert_eq!(stats.computed_at, now);
        assert_eq!(stats.expires_at, at(1_700_000_000 + hours * 3600));
        assert!(stats.expires_at.is_after(&stats.computed_at));
    }
}

#[test]
fn test_window_follows_the_period() {
    assert_eq!(window_days("7d"), 7);
    assert_eq!(window_days("30d"), 30);
    assert_eq!(window_days("90d"), 90);
    assert_eq!(window_days("7D"), 7);
    assert_eq!(window_days("365d"), 7);
}

#[test]
fn test_kd_ratio_and_win_rate() {
    let now = at(1_700_000_000);
    let no_deaths = MatchTotals {
        kills: 7,
        deaths: 0,
        damage_dealt: 0,
        survival_time: 0,
        top1_count: 0,
        matches_played: 3,
    };
    let stats = summarize(no_deaths, PLAYER.to_string(), "7d", now);
    assert_eq!(stats.kd_ratio, Ratio { numerator: 7, denominator: 1 });
    assert_eq!(stats.win_rate, Ratio { numerator: 0, denominator: 3 });
    assert_eq!(as_number(stats.win_rate), 0.0);

    let some_deaths = MatchTotals {
        kills: 10,
        deaths: 4,
        damage_dealt: 0,
        survival_time: 0,
        top1_count: 1,
        matches_played: 4,
    };
    let stats = summarize(some_deaths, PLAYER.to_string(), "7d", now);
    assert_eq!(stats.kd_ratio, Ratio { numerator: 10, denominator: 4 });
    assert_eq!(as_number(stats.kd_ratio), 2.5);
    assert_eq!(stats.win_rate, Ratio { numerator: 100, denominator: 4 });
    assert_eq!(as_number(stats.win_rate), 25.0);

    let nothing = summarize(MatchTotals::zero(), PLAYER.to_string(), "7d", now);
    assert_eq!(nothing.kd_ratio, Ratio { numerator: 0, denominator: 1 });
    assert_eq!(nothing.win_rate, Ratio { numerator: 0, denominator: 1 });
}

#[test]
fn test_tally_counts_deaths_wins_and_sums() {
    let start = at(1_704_067_200); // 2024-01-01T00:00:00Z
    let matches = vec![
        game(
            "m1",
            "2024-01-15T10:00:00Z",
            vec![participant(ACCOUNT, 5, 750_500, 1_500_000, 1, "alive")],
        ),
        game(
            "m2",
            "2024-01-16T10:00:00Z",
            vec![participant(ACCOUNT, 2, 100_250, 600_000, 14, "byplayer")],
        ),
        game(
            "m3",
            "2024-01-17T10:00:00+02:00",
            vec![participant(ACCOUNT, 0, 0, 30_000, 80, "suicide")],
        ),
    ];
    let totals = tally_matches(ACCOUNT, &matches, start);
    assert_eq!(
        totals,
        MatchTotals {
            kills: 7,
            deaths: 2,
            damage_dealt: 850_750,
            survival_time: 2_130_000,
            top1_count: 1,
            matches_played: 3,
        }
    );
}

#[test]
fn test_tally_window_edges() {
    let start = at(1_704_067_200); // 2024-01-01T00:00:00Z
    let one = |created: &str| {
        let matches = vec![game("m", created, vec![participant(ACCOUNT, 1, 1, 1, 2, "alive")])];
        tally_matches(ACCOUNT, &matches, start).matches_played
    };
    // Exactly at the start of the window: counted.
    assert_eq!(one("2024-01-01T00:00:00Z"), 1);
    // The same instant written with an offset.
    assert_eq!(one("2024-01-01T02:00:00+02:00"), 1);
    // One second, and one nanosecond, before the start: not counted.
    assert_eq!(one("2023-12-31T23:59:59Z"), 0);
    assert_eq!(one("2023-12-31T23:59:59.999999999Z"), 0);
    assert_eq!(one("2024-01-01T01:59:59+02:00"), 0);
    // A creation time that cannot be read does not exclude the match.
    assert_eq!(one("yesterday"), 1);
    assert_eq!(one(""), 1);
    assert_eq!(one("2024-01-15 10:00:00"), 1);
}

#[test]
fn test_window_compares_nanoseconds() {
    let start = Timestamp::new(1_704_067_200, 500).unwrap();
    assert!(!counts_in_window(Timestamp::new(1_704_067_200, 499), &start));
    assert!(counts_in_window(Timestamp::new(1_704_067_200, 500), &start));
    assert!(counts_in_window(Timestamp::new(1_704_067_201, 0), &start));
    assert!(!counts_in_window(Timestamp::new(1_704_067_199, 999_999_999), &start));
    assert!(counts_in_window(None, &start));
}

#[test]
fn test_only_the_first_entry_of_the_player_counts() {
    let included = vec![
        roster(),
        participant("account.other", 9, 9, 9, 1, "alive"),
        participant(ACCOUNT, 4, 40, 400, 3, "byplayer"),
        participant(ACCOUNT, 8, 80, 800, 1, "alive"),
        PubgMatchIncluded::Other,
    ];
    let found = find_subject(&included, ACCOUNT).unwrap();
    assert_eq!(found.kills, 4);
    assert!(find_subject(&included, "account.nobody").is_none());
    assert!(find_subject(&Vec::new(), ACCOUNT).is_none());

    let matches = vec![game("m", "2024-01-15T10:00:00Z", included)];
    let totals = tally_matches(ACCOUNT, &matches, at(0));
    assert_eq!(totals.kills, 4);
    assert_eq!(totals.matches_played, 1);
    assert_eq!(totals.top1_count, 0);
    assert_eq!(totals.deaths, 1);
}

#[test]
fn test_cache_key_joins_the_tuple() {
    assert_eq!(cache_key(PLAYER, "7d", "solo", "steam"), format!("{}:7d:solo:steam", PLAYER));
    assert_eq!(cache_key("", "", "", ""), ":::");
}

#[test]
fn test_cache_operations() {
    let mut service = StatsService::new();

    // Nothing is cached at first.
    assert!(service.lookup(PLAYER, "7d", "solo", "steam").is_none());
    assert!(matches!(
        service.get_or_compute_stats(PLAYER, "7d", "solo", "steam"),
        MemoryOutcome::Miss(_)
    ));

    let test_stats = stored_summary(PLAYER, 10, 1);
    assert!(service.save_stats(&test_stats, Ok(())).is_ok());

    // Hit from memory.
    match service.get_or_compute_stats(PLAYER, "7d", "solo", "steam") {
        MemoryOutcome::Hit(cached_stats) => {
            assert_eq!(cached_stats.kills, 10);
            assert_eq!(as_number(cached_stats.kd_ratio), 2.0);
            assert_eq!(cached_stats.matches_played, 10);
        }
        MemoryOutcome::Miss(_) => panic!("the summary was just stored"),
    }
    // Another tuple of the same player is not affected.
    assert!(service.lookup(PLAYER, "30d", "solo", "steam").is_none());

    match service.invalidate_cache(PLAYER) {
        StoreCommand::DeleteByPlayer { player_id } => assert_eq!(player_id, PLAYER),
        other => panic!("unexpected command: {:?}", other),
    }
    assert!(matches!(
        service.get_or_compute_stats(PLAYER, "7d", "solo", "steam"),
        MemoryOutcome::Miss(_)
    ));
}

#[test]
fn test_store_twice_keeps_the_latest() {
    let mut service = StatsService::new();
    service.save_stats(&stored_summary(PLAYER, 10, 1), Ok(())).unwrap();
    service.save_stats(&stored_summary(PLAYER, 25, 1), Ok(())).unwrap();
    let found = service.lookup(PLAYER, "7d", "solo", "steam").unwrap();
    assert_eq!(found.kills, 25);
    assert_eq!(found.kd_ratio, Ratio { numerator: 25, denominator: 5 });
}

#[test]
fn test_failed_write_leaves_the_memory_tier_alone() {
    let mut service = StatsService::new();
    service.save_stats(&stored_summary(PLAYER, 10, 1), Ok(())).unwrap();
    match service.save_stats(&stored_summary(PLAYER, 25, 1), Err("write refused".to_string())) {
        Err(StatsError::Store { detail }) => assert_eq!(detail, "write refused"),
        other => panic!("unexpected result: {:?}", other),
    }
    // The summary that was stored before is still the one that is found.
    assert_eq!(service.lookup(PLAYER, "7d", "solo", "steam").unwrap().kills, 10);

    let mut empty = StatsService::new();
    assert!(empty.save_stats(&stored_summary(PLAYER, 3, 1), Err("down".to_string())).is_err());
    assert!(empty.lookup(PLAYER, "7d", "solo", "steam").is_none());
}

#[test]
fn test_invalidation_covers_every_combination() {
    let mut service = StatsService::new();
    let other = "0123456789abcdef01234567";
    for period in ["7d", "30d", "90d"] {
        for mode in ["solo", "duo", "squad", "all"] {
            for shard in ["steam", "xbox", "psn"] {
                for player in [PLAYER, other] {
                    let mut stats = stored_summary(player, 1, 1);
                    stats.period = period.to_string();
                    stats.mode = mode.to_string();
                    stats.shard = shard.to_string();
                    service.save_stats(&stats, Ok(())).unwrap();
                }
            }
        }
    }
    assert!(service.lookup(PLAYER, "90d", "squad", "psn").is_some());
    let _ = service.invalidate_cache(PLAYER);
    for period in ["7d", "30d", "90d"] {
        for mode in ["solo", "duo", "squad", "all"] {
            for shard in ["steam", "xbox", "psn"] {
                assert!(matches!(
                    service.get_or_compute_stats(PLAYER, period, mode, shard),
                    MemoryOutcome::Miss(_)
                ));
                assert!(service.lookup(other, period, mode, shard).is_some());
            }
        }
    }
}

#[test]
fn test_invalidate_all_empties_the_memory_tier() {
    let mut service = StatsService::new();
    service.save_stats(&stored_summary(PLAYER, 10, 1), Ok(())).unwrap();
    service.save_stats(&stored_summary("0123456789abcdef01234567", 3, 1), Ok(())).unwrap();
    assert!(matches!(service.invalidate_all(), StoreCommand::DeleteAll));
    assert!(service.lookup(PLAYER, "7d", "solo", "steam").is_none());
    assert!(service.lookup("0123456789abcdef01234567", "7d", "solo", "steam").is_none());
}

#[test]
fn test_stats_ttl_expiration() {
    let mut service = StatsService::new();
    let now = at(1_700_000_000);

    // A stored summary that expired an hour ago is not served.
    let mut expired_stats = stored_summary(PLAYER, 5, 1);
    expired_stats.computed_at = at(1_700_000_000 - 2 * 3600);
    expired_stats.expires_at = at(1_700_000_000 - 3600);
    let outcome =
        service.resume_with_stored_at(AwaitingStored { key: key() }, Ok(Some(expired_stats)), now);
    assert!(matches!(outcome, StoredOutcome::Miss(_)));
    assert!(service.lookup(PLAYER, "7d", "solo", "steam").is_none());

    // One that expires exactly now is not served either.
    let mut on_the_edge = stored_summary(PLAYER, 5, 1);
    on_the_edge.expires_at = now;
    let outcome =
        service.resume_with_stored_at(AwaitingStored { key: key() }, Ok(Some(on_the_edge)), now);
    assert!(matches!(outcome, StoredOutcome::Miss(_)));

    // One that expires later is served and promoted into the memory tier.
    let mut fresh = stored_summary(PLAYER, 5, 1);
    fresh.expires_at = Timestamp::new(1_700_000_000, 1).unwrap();
    match service.resume_with_stored_at(AwaitingStored { key: key() }, Ok(Some(fresh)), now) {
        StoredOutcome::Hit(stats) => assert_eq!(stats.kills, 5),
        other => panic!("unexpected outcome: {:?}", other),
    }
    assert_eq!(service.lookup(PLAYER, "7d", "solo", "steam").unwrap().kills, 5);
}

#[test]
fn test_stored_lookup_against_the_clock() {
    let mut service = StatsService::new();
    match service.resume_with_stored(
        AwaitingStored { key: key() },
        Ok(Some(stored_summary(PLAYER, 10, 1))),
    ) {
        StoredOutcome::Hit(stats) => assert_eq!(stats.kills, 10),
        other => panic!("unexpected outcome: {:?}", other),
    }
    let mut service = StatsService::new();
    let outcome = service.resume_with_stored(
        AwaitingStored { key: key() },
        Ok(Some(stored_summary(PLAYER, 10, -1))),
    );
    assert!(matches!(outcome, StoredOutcome::Miss(_)));
    let outcome = service.resume_with_stored(AwaitingStored { key: key() }, Ok(None));
    assert!(matches!(outcome, StoredOutcome::Miss(_)));
    match service
        .resume_with_stored(AwaitingStored { key: key() }, Err("connection reset".to_string()))
    {
        StoredOutcome::Failed(StatsError::Store { detail }) => {
            assert_eq!(detail, "connection reset")
        }
        other => panic!("unexpected outcome: {:?}", other),
    }
}

#[test]
fn test_player_lookup_outcomes() {
    match StatsService::resume_with_player(AwaitingPlayer { key: key() }, Ok(None)) {
        PlayerOutcome::Failed(error) => {
            assert!(matches!(error, StatsError::PlayerNotFound { .. }));
            assert_eq!(error.to_string(), format!("Player not found: {}", PLAYER));
        }
        other => panic!("unexpected outcome: {:?}", other),
    }
    match StatsService::resume_with_player(
        AwaitingPlayer { key: key() },
        Err("timed out".to_string()),
    ) {
        PlayerOutcome::Failed(error) => assert_eq!(error.to_string(), "timed out"),
        other => panic!("unexpected outcome: {:?}", other),
    }
    match StatsService::resume_with_player(
        AwaitingPlayer { key: key() },
        Ok(Some(tracked_player(&[]))),
    ) {
        PlayerOutcome::Failed(error) => {
            assert!(matches!(error, StatsError::NoMatchData));
            assert_eq!(
                error.to_string(),
                "No match data available for this player. Please ensure the player has recent matches."
            );
        }
        other => panic!("unexpected outcome: {:?}", other),
    }
    match StatsService::resume_with_player(
        AwaitingPlayer { key: key() },
        Ok(Some(tracked_player(&["m1", "m2"]))),
    ) {
        PlayerOutcome::Fetch(pending) => {
            assert_eq!(pending.match_id(), "m1");
            assert_eq!(pending.shard, "xbox");
            assert_eq!(pending.account_id, ACCOUNT);
            assert_eq!(pending.next, 0);
            assert!(pending.fetched.is_empty());
        }
        other => panic!("unexpected outcome: {:?}", other),
    }
}

fn awaiting(match_ids: &[&str]) -> AwaitingMatch {
    match StatsService::resume_with_player(
        AwaitingPlayer { key: key() },
        Ok(Some(tracked_player(match_ids))),
    ) {
        PlayerOutcome::Fetch(pending) => pending,
        other => panic!("unexpected outcome: {:?}", other),
    }
}

#[test]
fn test_failed_match_fetches_are_skipped() {
    let mut service = StatsService::new();
    let now = at(1_705_000_000); // 2024-01-11
    let pending = awaiting(&["m1", "m2", "m3"]);
    let pending = match service.resume_with_match_at(
        pending,
        Err(PubgApiError::NotFound("gone".to_string())),
        now,
    ) {
        MatchOutcome::Fetch(pending) => pending,
        other => panic!("unexpected outcome: {:?}", other),
    };
    assert_eq!(pending.match_id(), "m2");
    assert!(pending.fetched.is_empty());
    let pending = match service.resume_with_match_at(
        pending,
        Ok(game(
            "m2",
            "2024-01-10T10:00:00Z",
            vec![participant(ACCOUNT, 5, 750_500, 1_500_000, 1, "alive")],
        )),
        now,
    ) {
        MatchOutcome::Fetch(pending) => pending,
        other => panic!("unexpected outcome: {:?}", other),
    };
    assert_eq!(pending.match_id(), "m3");
    assert_eq!(pending.fetched.len(), 1);
    match service.resume_with_match_at(pending, Err(PubgApiError::Unauthorized), now) {
        MatchOutcome::Computed { stats, persist } => {
            match persist {
                StoreCommand::Upsert(written) => {
                    assert_eq!(written.player_id, PLAYER);
                    assert_eq!(written.mode, "solo");
                    assert_eq!(written.kills, 5);
                    assert_eq!(written.expires_at, stats.expires_at);
                }
                other => panic!("unexpected command: {:?}", other),
            }
            assert_eq!(stats.player_id, PLAYER);
            assert_eq!(stats.period, "7d");
            assert_eq!(stats.mode, "solo");
            assert_eq!(stats.shard, "steam");
            assert_eq!(stats.kills, 5);
            assert_eq!(stats.matches_played, 1);
            assert_eq!(stats.computed_at, now);
            assert_eq!(stats.expires_at, at(1_705_000_000 + 24 * 3600));
        }
        other => panic!("unexpected outcome: {:?}", other),
    }
    // The fresh summary is in the memory tier.
    assert_eq!(service.lookup(PLAYER, "7d", "solo", "steam").unwrap().kills, 5);
}

#[test]
fn test_no_usable_match_is_an_error() {
    let mut service = StatsService::new();
    let pending = awaiting(&["m1", "m2"]);
    let pending = match service
        .resume_with_match(pending, Err(PubgApiError::NetworkError("down".to_string())))
    {
        MatchOutcome::Fetch(pending) => pending,
        other => panic!("unexpected outcome: {:?}", other),
    };
    match service.resume_with_match(pending, Err(PubgApiError::RateLimit { retry_after: 60 })) {
        MatchOutcome::Failed(StatsError::NoMatchData) => {}
        other => panic!("unexpected outcome: {:?}", other),
    }
    assert!(service.lookup(PLAYER, "7d", "solo", "steam").is_none());
}

#[test]
fn test_second_request_is_answered_from_memory() {
    let mut service = StatsService::new();
    // First request: miss, miss, player, one match.
    let pending = match service.get_or_compute_stats(PLAYER, "7d", "solo", "steam") {
        MemoryOutcome::Miss(pending) => pending,
        MemoryOutcome::Hit(_) => panic!("nothing was stored yet"),
    };
    let pending = match service.resume_with_stored(pending, Ok(None)) {
        StoredOutcome::Miss(pending) => pending,
        other => panic!("unexpected outcome: {:?}", other),
    };
    let pending =
        match StatsService::resume_with_player(pending, Ok(Some(tracked_player(&["m1"])))) {
            PlayerOutcome::Fetch(pending) => pending,
            other => panic!("unexpected outcome: {:?}", other),
        };
    let computed = match service.resume_with_match(
        pending,
        Ok(game("m1", &days_ago(1), vec![participant(ACCOUNT, 5, 750_500, 1_500_000, 1, "alive")])),
    ) {
        MatchOutcome::Computed { stats, .. } => stats,
        other => panic!("unexpected outcome: {:?}", other),
    };
    assert_eq!(computed.kills, 5);
    assert_eq!(as_number(computed.win_rate), 100.0);

    // Second request with the same arguments: answered at once, nothing to fetch.
    match service.get_or_compute_stats(PLAYER, "7d", "solo", "steam") {
        MemoryOutcome::Hit(stats) => {
            assert_eq!(stats.kills, 5);
            assert_eq!(stats.computed_at, computed.computed_at);
            assert_eq!(stats.expires_at, computed.expires_at);
            assert_eq!(stats.player_id, PLAYER);
        }
        MemoryOutcome::Miss(_) => panic!("the summary was just computed"),
    }
}

#[test]
fn test_memory_tier_limits() {
    let mut service = StatsService::new();
    assert_eq!(service.capacity(), Some(1000));
    assert_eq!(service.time_to_live_secs(), Some(3600));
    service.save_stats(&stored_summary(PLAYER, 10, 1), Ok(())).unwrap();
    let _ = service.invalidate_all();
    assert_eq!(service.capacity(), Some(1000));
    assert_eq!(service.time_to_live_secs(), Some(3600));
}

#[test]
fn test_memory_tier() {
    let mut tier = MemoryTier::new(10, 60);
    assert_eq!(tier.capacity(), Some(10));
    assert_eq!(tier.time_to_live_secs(), Some(60));
    assert!(tier.get("a").is_none());
    tier.insert("a".to_string(), stored_summary(PLAYER, 1, 1));
    tier.insert("b".to_string(), stored_summary(PLAYER, 2, 1));
    tier.insert("a".to_string(), stored_summary(PLAYER, 3, 1));
    assert_eq!(tier.get("a").unwrap().kills, 3);
    assert_eq!(tier.get("b").unwrap().kills, 2);
    tier.invalidate("a");
    assert!(tier.get("a").is_none());
    assert_eq!(tier.get("b").unwrap().kills, 2);
    tier.invalidate("never stored");
    tier.insert(cache_key(PLAYER, "30d", "duo", "psn"), stored_summary(PLAYER, 4, 1));
    tier.invalidate_player(PLAYER);
    assert!(tier.get(&cache_key(PLAYER, "30d", "duo", "psn")).is_none());
    assert_eq!(tier.get("b").unwrap().kills, 2);
    assert_eq!(tier.capacity(), Some(10));
    assert_eq!(tier.time_to_live_secs(), Some(60));
}

#[test]
fn test_store_command() {
    match StatsService::store_command(&stored_summary(PLAYER, 10, 1)) {
        StoreCommand::Upsert(written) => {
            assert_eq!(written.player_id, PLAYER);
            assert_eq!(written.period, "7d");
            assert_eq!(written.kills, 10);
        }
        other => panic!("unexpected command: {:?}", other),
    }
}

#[test]
fn test_awaiting_match_validity() {
    let pending = awaiting(&["m1", "m2"]);
    assert!(pending.is_valid());
    let beyond = AwaitingMatch { next: 2, ..awaiting(&["m1", "m2"]) };
    assert!(!beyond.is_valid());
    let ahead = AwaitingMatch {
        fetched: vec![game("m1", "2024-01-10T10:00:00Z", vec![])],
        ..awaiting(&["m1", "m2"])
    };
    assert!(!ahead.is_valid());
}

#[test]
fn test_after_memory_lookup() {
    match StatsService::after_memory_lookup(Some(stored_summary(PLAYER, 10, 1)), key()) {
        MemoryOutcome::Hit(stats) => assert_eq!(stats.kills, 10),
        MemoryOutcome::Miss(_) => panic!("a summary was found"),
    }
    match StatsService::after_memory_lookup(None, key()) {
        MemoryOutcome::Miss(pending) => {
            assert_eq!(pending.key.player_id, PLAYER);
            assert_eq!(pending.key.period, "7d");
            assert_eq!(pending.key.mode, "solo");
            assert_eq!(pending.key.shard, "steam");
        }
        MemoryOutcome::Hit(_) => panic!("nothing was found"),
    }
}
