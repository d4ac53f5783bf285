use pubg_tracker_api::clock::Timestamp;
use pubg_tracker_api::models::player::Player;
use pubg_tracker_api::models::pubg::{
    PubgMatchRef, PubgMatchesData, PubgPlayerAttributes, PubgPlayerData, PubgPlayerRelationships,
    PubgPlayerResponse,
};
use pubg_tracker_api::services::player_service::{
    add_player, add_player_at, found_player, get_player_matches, recent_match_ids,
    refresh_player, refresh_player_at, track_player, track_player_at, PlayerError, Tracking,
    RECENT_MATCHES,
};

fn at(secs: i64) -> Timestamp {
    Timestamp::new(secs, 0).unwrap()
}

fn player_data(id: &str, name: &str, match_ids: &[&str]) -> PubgPlayerData {
    PubgPlayerData {
        type_: "player".to_string(),
        id: id.to_string(),
        attributes: PubgPlayerAttributes {
            name: name.to_string(),
            shard_id: "steam".to_string(),
            created_at: None,
            updated_at: None,
        },
        relationships: PubgPlayerRelationships {
            matches: PubgMatchesData {
                data: match_ids
                    .iter()
                    .map(|id| PubgMatchRef { type_: "match".to_string(), id: id.to_string() })
                    .collect(),
            },
        },
    }
}

fn answer(players: Vec<PubgPlayerData>) -> PubgPlayerResponse {
    PubgPlayerResponse { data: players }
}

#[test]
fn test_recent_matches_are_the_first_five() {
    assert_eq!(RECENT_MATCHES, 5);
    assert!(recent_match_ids(&player_data("a", "n", &[])).is_empty());
    assert_eq!(recent_match_ids(&player_data("a", "n", &["m1", "m2"])), vec!["m1", "m2"]);
    assert_eq!(
        recent_match_ids(&player_data("a", "n", &["m1", "m2", "m3", "m4", "m5"])),
        vec!["m1", "m2", "m3", "m4", "m5"]
    );
    assert_eq!(
        recent_match_ids(&player_data("a", "n", &["m1", "m2", "m3", "m4", "m5", "m6", "m7"])),
        vec!["m1", "m2", "m3", "m4", "m5"]
    );
}

#[test]
fn test_found_player_is_the_first() {
    assert!(found_player(&answer(vec![])).is_none());
    let response = answer(vec![player_data("first", "A", &[]), player_data("second", "B", &[])]);
    assert_eq!(found_player(&response).unwrap().id, "first");
}

#[test]
fn test_add_player() {
    let response = answer(vec![player_data(
        "account.test123",
        "TestPlayer",
        &["match1", "match2", "match3", "match4", "match5", "match6"],
    )]);
    let player = add_player_at(&response, "xbox", at(100), at(101)).unwrap();
    assert!(player.id.is_none());
    assert_eq!(player.account_id, "account.test123");
    assert_eq!(player.name, "TestPlayer");
    assert_eq!(player.shard, "xbox");
    assert_eq!(player.last_matches, vec!["match1", "match2", "match3", "match4", "match5"]);
    assert_eq!(player.last_refreshed_at, Some(at(101)));
    assert_eq!(player.created_at, at(100));
    assert!(player.summary.is_none());

    assert_eq!(add_player_at(&answer(vec![]), "xbox", at(1), at(2)).unwrap_err(), PlayerError::NotFound);

    let before = chrono::Utc::now().timestamp();
    let player = add_player(&response, "steam").unwrap();
    let after = chrono::Utc::now().timestamp();
    assert!(before <= player.created_at.secs && player.created_at.secs <= after);
    let refreshed = player.last_refreshed_at.unwrap();
    assert!(player.created_at.secs <= refreshed.secs && refreshed.secs <= after);
    assert_eq!(player.last_matches.len(), 5);
    assert_eq!(add_player(&answer(vec![]), "steam").unwrap_err(), PlayerError::NotFound);
}

fn known_player() -> Player {
    Player {
        id: Some("65a4f1c2e4b0a1b2c3d4e5f6".to_string()),
        account_id: "account.test123".to_string(),
        name: "TestPlayer".to_string(),
        shard: "steam".to_string(),
        last_matches: vec!["old1".to_string(), "old2".to_string()],
        last_refreshed_at: Some(at(50)),
        created_at: at(10),
        summary: None,
    }
}

#[test]
fn test_track_player() {
    let response = answer(vec![player_data("account.test123", "TestPlayer", &["m1", "m2"])]);

    // The registry holds the account already: its record stays as it is.
    match track_player_at(&response, "xbox", Some(known_player()), at(100), at(101)).unwrap() {
        Tracking::Already(player) => {
            assert_eq!(player.id.as_deref(), Some("65a4f1c2e4b0a1b2c3d4e5f6"));
            assert_eq!(player.last_matches, vec!["old1", "old2"]);
            assert_eq!(player.shard, "steam");
            assert_eq!(player.created_at, at(10));
        }
        other => panic!("unexpected outcome: {:?}", other),
    }

    // A new account: a record is made of what was found.
    match track_player_at(&response, "xbox", None, at(100), at(101)).unwrap() {
        Tracking::Create(player) => {
            assert!(player.id.is_none());
            assert_eq!(player.account_id, "account.test123");
            assert_eq!(player.name, "TestPlayer");
            assert_eq!(player.shard, "xbox");
            assert_eq!(player.last_matches, vec!["m1", "m2"]);
            assert_eq!(player.created_at, at(100));
            assert_eq!(player.last_refreshed_at, Some(at(101)));
        }
        other => panic!("unexpected outcome: {:?}", other),
    }

    // Nobody was found: an error, whatever the registry holds.
    assert_eq!(
        track_player_at(&answer(vec![]), "xbox", None, at(1), at(2)).unwrap_err(),
        PlayerError::NotFound
    );
    assert_eq!(
        track_player_at(&answer(vec![]), "xbox", Some(known_player()), at(1), at(2)).unwrap_err(),
        PlayerError::NotFound
    );

    assert!(matches!(track_player(&response, "steam", None), Ok(Tracking::Create(_))));
    assert!(matches!(
        track_player(&response, "steam", Some(known_player())),
        Ok(Tracking::Already(_))
    ));
    assert_eq!(track_player(&answer(vec![]), "steam", None).unwrap_err(), PlayerError::NotFound);
}

#[test]
fn test_refresh_player() {
    let response = answer(vec![player_data("account.other", "Renamed", &["new1"])]);
    let updated = refresh_player_at(known_player(), &response, at(200)).unwrap();
    assert_eq!(updated.id.as_deref(), Some("65a4f1c2e4b0a1b2c3d4e5f6"));
    assert_eq!(updated.account_id, "account.test123");
    assert_eq!(updated.name, "TestPlayer");
    assert_eq!(updated.shard, "steam");
    assert_eq!(updated.last_matches, vec!["new1"]);
    assert_eq!(updated.last_refreshed_at, Some(at(200)));
    assert_eq!(updated.created_at, at(10));

    assert_eq!(
        refresh_player_at(known_player(), &answer(vec![]), at(200)).unwrap_err(),
        PlayerError::NotFoundInApi
    );

    let before = chrono::Utc::now().timestamp();
    let updated = refresh_player(known_player(), &response).unwrap();
    assert!(updated.last_refreshed_at.unwrap().secs >= before);
    assert_eq!(updated.last_matches, vec!["new1"]);
    assert_eq!(refresh_player(known_player(), &answer(vec![])).unwrap_err(), PlayerError::NotFoundInApi);
}

#[test]
fn test_player_matches() {
    assert_eq!(get_player_matches(Some(known_player())), Ok(vec!["old1".to_string(), "old2".to_string()]));
    assert_eq!(get_player_matches(None), Err(PlayerError::NotFound));
}

#[test]
fn test_player_error_messages() {
    assert_eq!(PlayerError::NotFound.to_string(), "Player not found");
    assert_eq!(PlayerError::NotFoundInApi.to_string(), "Player not found in PUBG API");
}
