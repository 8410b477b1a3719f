use wrldbldr_engine::ids::{ClientId, SessionId, WorldId};
use wrldbldr_engine::session::{
    ConversationTurn, GameSession, ParticipantRole, PendingApproval, ProposedTool, SessionError,
    SessionManager, WorldSnapshot,
};
use wrldbldr_engine::world::World;

fn create_test_world() -> World {
    World {
        id: WorldId::new(),
        name: "Test World".to_string(),
        description: "A test world".to_string(),
    }
}

fn create_test_snapshot(world: World) -> WorldSnapshot {
    WorldSnapshot {
        world,
        locations: vec![],
        characters: vec![],
        scenes: vec![],
        current_scene_id: None,
    }
}

#[test]
fn test_create_session() {
    let mut manager = SessionManager::new();
    let world = create_test_world();
    let world_id = world.id;
    let snapshot = create_test_snapshot(world);

    let session_id = manager.create_session(world_id, snapshot);

    assert!(manager.get_session(session_id).is_some());
    assert_eq!(manager.session_count(), 1);
}

#[test]
fn test_join_session() {
    let mut manager = SessionManager::new();
    let world = create_test_world();
    let world_id = world.id;
    let snapshot = create_test_snapshot(world);

    let session_id = manager.create_session(world_id, snapshot);
    let client_id = ClientId::new();

    let result = manager.join_session(
        session_id,
        client_id,
        "test_user".to_string(),
        ParticipantRole::Player,
    );

    assert!(result.is_ok());
    assert_eq!(manager.get_client_session(client_id), Some(session_id));
}

#[test]
fn test_leave_session() {
    let mut manager = SessionManager::new();
    let world = create_test_world();
    let world_id = world.id;
    let snapshot = create_test_snapshot(world);

    let session_id = manager.create_session(world_id, snapshot);
    let client_id = ClientId::new();

    let _ = manager.join_session(
        session_id,
        client_id,
        "test_user".to_string(),
        ParticipantRole::Player,
    );

    let result = manager.leave_session(client_id);

    assert!(result.is_some());
    assert!(manager.get_client_session(client_id).is_none());
    // Session should be removed when empty
    assert!(manager.get_session(session_id).is_none());
}

#[test]
fn test_dm_restriction() {
    let mut manager = SessionManager::new();
    let world = create_test_world();
    let world_id = world.id;
    let snapshot = create_test_snapshot(world);

    let session_id = manager.create_session(world_id, snapshot);

    // First DM joins
    let dm1_id = ClientId::new();
    let result1 = manager.join_session(
        session_id,
        dm1_id,
        "dm1".to_string(),
        ParticipantRole::DungeonMaster,
    );
    assert!(result1.is_ok());

    // Second DM tries to join
    let dm2_id = ClientId::new();
    let result2 = manager.join_session(
        session_id,
        dm2_id,
        "dm2".to_string(),
        ParticipantRole::DungeonMaster,
    );
    assert!(matches!(result2, Err(SessionError::DmAlreadyPresent)));
}

#[test]
fn test_add_player_action() {
    let mut session = GameSession::new(WorldId::new(), create_test_snapshot(create_test_world()));

    session.add_player_action("Alice", "I try to negotiate with the merchant");

    assert_eq!(session.history_length(), 1);
    let history = session.get_full_history();
    assert_eq!(history[0].speaker, "Alice");
    assert_eq!(history[0].content, "I try to negotiate with the merchant");
    assert!(history[0].is_player);
}

#[test]
fn test_add_npc_response() {
    let mut session = GameSession::new(WorldId::new(), create_test_snapshot(create_test_world()));

    session.add_npc_response("Merchant", "That will cost you 50 gold pieces");

    assert_eq!(session.history_length(), 1);
    let history = session.get_full_history();
    assert_eq!(history[0].speaker, "Merchant");
    assert_eq!(history[0].content, "That will cost you 50 gold pieces");
    assert!(!history[0].is_player);
}

#[test]
fn test_conversation_history_sequence() {
    let mut session = GameSession::new(WorldId::new(), create_test_snapshot(create_test_world()));

    session.add_player_action("Bob", "I cast fireball");
    session.add_npc_response("Guard", "That's not happening");
    session.add_player_action("Bob", "I try running away");
    session.add_npc_response("Guard", "You cannot escape!");

    assert_eq!(session.history_length(), 4);

    let history = session.get_full_history();
    assert_eq!(history[0].speaker, "Bob");
    assert_eq!(history[1].speaker, "Guard");
    assert_eq!(history[2].speaker, "Bob");
    assert_eq!(history[3].speaker, "Guard");
}

#[test]
fn test_history_length_limit() {
    let mut session = GameSession::new(WorldId::new(), create_test_snapshot(create_test_world()));

    // Set a small limit for testing
    session.set_max_history_length(5);

    // Add 10 turns
    for i in 1..=10 {
        session.add_player_action("Player", &format!("Action {}", i));
    }

    // Should only have 5 turns
    assert_eq!(session.history_length(), 5);

    // Check that we have the last 5 turns
    let history = session.get_full_history();
    assert_eq!(history[0].content, "Action 6");
    assert_eq!(history[4].content, "Action 10");
}

#[test]
fn test_get_recent_history() {
    let mut session = GameSession::new(WorldId::new(), create_test_snapshot(create_test_world()));

    // Add 5 turns
    for i in 1..=5 {
        session.add_player_action("Player", &format!("Action {}", i));
    }

    // Get last 3 turns
    let recent = session.get_recent_history(3);
    assert_eq!(recent.len(), 3);
    assert_eq!(recent[0].content, "Action 3");
    assert_eq!(recent[2].content, "Action 5");
}

#[test]
fn test_get_recent_history_all() {
    let mut session = GameSession::new(WorldId::new(), create_test_snapshot(create_test_world()));

    session.add_player_action("Player", "Action 1");
    session.add_player_action("Player", "Action 2");

    // Get all history with 0 (means all)
    let all = session.get_recent_history(0);
    assert_eq!(all.len(), 2);
}

#[test]
fn test_clear_history() {
    let mut session = GameSession::new(WorldId::new(), create_test_snapshot(create_test_world()));

    session.add_player_action("Player", "Action 1");
    session.add_npc_response("NPC", "Response 1");
    assert_eq!(session.history_length(), 2);

    session.clear_history();
    assert_eq!(session.history_length(), 0);
    assert!(session.get_full_history().is_empty());
}

#[test]
fn test_set_max_history_length() {
    let mut session = GameSession::new(WorldId::new(), create_test_snapshot(create_test_world()));

    // Add 10 turns with default limit (30)
    for i in 1..=10 {
        session.add_player_action("Player", &format!("Action {}", i));
    }
    assert_eq!(session.history_length(), 10);

    // Change limit to 5
    session.set_max_history_length(5);

    // Should trim excess
    assert_eq!(session.history_length(), 5);

    // Verify we have the last 5
    let history = session.get_full_history();
    assert_eq!(history[0].content, "Action 6");
    assert_eq!(history[4].content, "Action 10");
}

#[test]
fn test_conversation_turn_creation() {
    let turn = ConversationTurn::new("Alice".to_string(), "Hello, world!".to_string(), true);

    assert_eq!(turn.speaker, "Alice");
    assert_eq!(turn.content, "Hello, world!");
    assert!(turn.is_player);
    // Timestamp should be very recent
    let elapsed_ms = chrono::Utc::now().timestamp_millis() - turn.timestamp;
    assert!(elapsed_ms / 1000 < 1);
}

#[test]
fn history_limit_keeps_latest_turn_after_overflow() {
    let mut session = GameSession::new(WorldId::new(), create_test_snapshot(create_test_world()));
    for i in 1..=31 {
        session.add_npc_response("NPC", &format!("Line {}", i));
    }
    assert_eq!(session.history_length(), 30);
    let h = session.get_full_history();
    assert_eq!(h[0].content, "Line 2");
    assert_eq!(h[29].content, "Line 31");
}

#[test]
fn rejoin_replaces_participant_and_dm_lookup() {
    let mut session = GameSession::new(WorldId::new(), create_test_snapshot(create_test_world()));
    let c = ClientId::from_u128(7);
    let d = ClientId::from_u128(9);
    session.add_participant(c, "u1".to_string(), ParticipantRole::Player);
    session.add_participant(d, "dm".to_string(), ParticipantRole::DungeonMaster);
    session.add_participant(c, "u1b".to_string(), ParticipantRole::Spectator);
    assert_eq!(session.participant_count(), 2);
    assert_eq!(session.participant(c).unwrap().user_id, "u1b");
    assert!(session.has_dm());
    assert_eq!(session.get_dm().unwrap().client_id, d);
    assert_eq!(session.send_to_dm(), Some(d));
    assert_eq!(session.broadcast(), vec![c, d]);
    assert_eq!(session.broadcast_except(c), vec![d]);
    assert!(session.broadcast_to_players().is_empty());
    let removed = session.remove_participant(d).unwrap();
    assert_eq!(removed.user_id, "dm");
    assert!(!session.has_dm());
    assert!(session.remove_participant(d).is_none());
    assert!(!session.is_empty());
}

#[test]
fn pending_approvals_are_keyed_by_request_id() {
    let mut session = GameSession::new(WorldId::new(), create_test_snapshot(create_test_world()));
    let tool = ProposedTool {
        id: "t1".to_string(),
        name: "give_item".to_string(),
        description: "Give an item".to_string(),
        arguments: "{}".to_string(),
    };
    let a = PendingApproval::new(
        "req-1".to_string(),
        "Merchant".to_string(),
        "Hello".to_string(),
        "thinking".to_string(),
        vec![tool],
    );
    assert_eq!(a.retry_count, 0);
    session.add_pending_approval(a);
    let b = PendingApproval::new(
        "req-1".to_string(),
        "Merchant".to_string(),
        "Hello again".to_string(),
        "thinking".to_string(),
        vec![],
    );
    session.add_pending_approval(b);
    assert_eq!(session.get_pending_approval("req-1").unwrap().proposed_dialogue, "Hello again");
    assert!(session.get_pending_approval("req-2").is_none());
    let r = session.remove_pending_approval("req-1").unwrap();
    assert_eq!(r.proposed_dialogue, "Hello again");
    assert!(session.get_pending_approval("req-1").is_none());
}

#[test]
fn join_missing_session_is_not_found() {
    let mut manager = SessionManager::new();
    let sid = SessionId::from_u128(42);
    let r = manager.join_session(sid, ClientId::new(), "u".to_string(), ParticipantRole::Player);
    assert!(matches!(r, Err(SessionError::NotFound(s)) if s == sid));
    assert_eq!(manager.client_count(), 0);
}

#[test]
fn leave_keeps_session_with_others_and_world_lookup() {
    let mut manager = SessionManager::new();
    let world = create_test_world();
    let world_id = world.id;
    let sid = manager.create_session(world_id, create_test_snapshot(world));
    assert_eq!(manager.find_session_for_world(world_id), Some(sid));
    let a = ClientId::new();
    let b = ClientId::new();
    manager.join_session(sid, a, "a".to_string(), ParticipantRole::Player).unwrap();
    manager.join_session(sid, b, "b".to_string(), ParticipantRole::DungeonMaster).unwrap();
    assert_eq!(manager.client_count(), 2);
    assert_eq!(manager.broadcast_to_session(sid), vec![a, b]);
    assert_eq!(manager.broadcast_to_session_except(sid, a), vec![b]);
    let (left_sid, p) = manager.leave_session(a).unwrap();
    assert_eq!(left_sid, sid);
    assert_eq!(p.user_id, "a");
    assert!(manager.get_session(sid).is_some());
    assert_eq!(manager.find_session_for_world(world_id), Some(sid));
    assert!(manager.leave_session(a).is_none());
    manager.leave_session(b).unwrap();
    assert_eq!(manager.session_count(), 0);
    assert_eq!(manager.find_session_for_world(world_id), None);
}

#[test]
fn session_ids_list_each_session_once() {
    let mut manager = SessionManager::new();
    let w = create_test_world();
    let wid = w.id;
    let s1 = manager.create_session(wid, create_test_snapshot(w));
    let s2 = manager.create_session(WorldId::new(), create_test_snapshot(create_test_world()));
    let mut ids = manager.get_session_ids();
    ids.sort_by_key(|s| s.0);
    let mut expected = vec![s1, s2];
    expected.sort_by_key(|s| s.0);
    assert_eq!(ids, expected);
}

#[test]
fn session_mut_changes_are_kept() {
    let mut manager = SessionManager::new();
    let w = create_test_world();
    let sid = manager.create_session(w.id, create_test_snapshot(w));
    manager.get_session_mut(sid).unwrap().set_current_scene_id(Some("scene".to_string()));
    assert_eq!(manager.get_session(sid).unwrap().current_scene_id(), &Some("scene".to_string()));
    assert!(manager.get_session_mut(SessionId::from_u128(1)).is_none());
}

#[test]
fn ids_round_trip_through_text() {
    let c = ClientId::from_u128(0x1234);
    let t = c.to_string();
    assert_eq!(t, "00000000-0000-0000-0000-000000001234");
    assert_eq!(wrldbldr_engine::ids::parse_client_id(&t), Some(c));
    assert_eq!(wrldbldr_engine::ids::parse_client_id("nope"), None);
}

#[test]
fn join_hands_back_the_world_snapshot() {
    let mut manager = SessionManager::new();
    let world = create_test_world();
    let world_id = world.id;
    let sid = manager.create_session(world_id, create_test_snapshot(world));
    let snap = manager
        .join_session(sid, ClientId::new(), "u".to_string(), ParticipantRole::Spectator)
        .unwrap();
    assert_eq!(snap.world.name, "Test World");
    assert_eq!(snap.world.id, world_id);
    assert!(snap.current_scene_id.is_none());
}
