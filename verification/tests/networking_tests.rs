use ue_types::networking::{GameSessionInfo, NetworkGUID, PlayerRole};

#[test]
fn networking_test_network_guid() {
    let guid1 = NetworkGUID::new(12345);
    let guid2 = NetworkGUID::generate();

    assert!(guid1.is_valid());
    assert!(guid2.is_valid());
    assert!(!NetworkGUID::invalid().is_valid());
    assert_ne!(guid1, guid2);
}

#[test]
fn network_guid_test_network_guid() {
    let guid1 = NetworkGUID::new(12345);
    let guid2 = NetworkGUID::generate();

    assert!(guid1.is_valid());
    assert!(guid2.is_valid());
    assert!(!NetworkGUID::invalid().is_valid());
    assert_ne!(guid1, guid2);
}

#[test]
fn network_guid_test_display_formatting() {
    let guid = NetworkGUID::new(12345);
    assert_eq!(guid.to_display_string(), "NetworkGUID(12345)");
}

#[test]
fn test_player_role_display() {
    let role = PlayerRole::Admin;
    assert_eq!(role.to_display_string(), "Admin");
}

#[test]
fn test_player_role_display_all() {
    assert_eq!(PlayerRole::Player.to_display_string(), "Player");
    assert_eq!(PlayerRole::Spectator.to_display_string(), "Spectator");
    assert_eq!(PlayerRole::Moderator.to_display_string(), "Moderator");
    assert_eq!(PlayerRole::Bot.to_display_string(), "Bot");
}

#[test]
fn networking_test_game_session_info() {
    let mut session = GameSessionInfo::new(
        "Test Game".to_string(),
        "Deathmatch".to_string(),
        "dm_arena".to_string(),
        8,
    );

    assert!(session.has_available_slots());
    assert!(!session.is_full());

    for _ in 0..8 {
        assert!(session.add_player());
    }

    assert!(!session.has_available_slots());
    assert!(session.is_full());
    assert!(!session.add_player()); // Should fail

    assert!(session.remove_player());
    assert!(session.has_available_slots());
}

#[test]
fn game_session_info_test_game_session_info() {
    let mut session = GameSessionInfo::new(
        "Test Game".to_string(),
        "Deathmatch".to_string(),
        "dm_arena".to_string(),
        8,
    );

    assert!(session.has_available_slots());
    assert!(!session.is_full());

    for _ in 0..8 {
        assert!(session.add_player());
    }

    assert!(!session.has_available_slots());
    assert!(session.is_full());
    assert!(!session.add_player()); // Should fail

    assert!(session.remove_player());
    assert!(session.has_available_slots());
}

#[test]
fn test_game_session_settings() {
    let mut session = GameSessionInfo::new(
        "Test Game".to_string(),
        "Deathmatch".to_string(),
        "dm_arena".to_string(),
        4,
    );
    assert!(!session.is_private);
    assert_eq!(session.region, "Unknown");
    assert_eq!(session.difficulty, 1);
    assert_eq!(session.current_players, 0);

    session.set_private(true);
    assert!(session.is_private);
    session.set_region("eu-west".to_string());
    assert_eq!(session.region, "eu-west");

    assert_eq!(session.get_custom_property("mode"), None);
    session.set_custom_property("mode".to_string(), "ranked".to_string());
    assert_eq!(
        session.get_custom_property("mode"),
        Some(&"ranked".to_string())
    );
    session.set_custom_property("mode".to_string(), "casual".to_string());
    assert_eq!(
        session.get_custom_property("mode"),
        Some(&"casual".to_string())
    );
}

#[test]
fn test_game_session_empty_session() {
    let mut session = GameSessionInfo::new(
        "Empty".to_string(),
        "Duel".to_string(),
        "arena".to_string(),
        0,
    );
    assert!(session.is_full());
    assert!(!session.add_player());
    assert!(!session.remove_player());
}
