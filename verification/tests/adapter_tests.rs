use wrldbldr_engine::ws::{from_service_participant, ServiceParticipantInfo};
use wrldbldr_engine::ids::{ClientId, SessionId, WorldId};
use wrldbldr_engine::roles::{
    add_to_conversation_history, broadcast_except_targets, broadcast_to_players_targets,
    canonical_to_wire_role, convert_error, from_infra_role, get_client_session,
    get_client_user_id, get_participant_info, get_session_participants, get_session_world_id,
    is_client_dm, join_session, send_to_dm_target, session_has_dm, to_infra_role,
    wire_to_canonical_role, AsyncSessionError, SessionParticipantRole,
};
use wrldbldr_engine::session::{ParticipantRole, SessionError, SessionManager, WorldSnapshot};
use wrldbldr_engine::world::World;

fn snapshot() -> WorldSnapshot {
    WorldSnapshot {
        world: World {
            id: WorldId::from_u128(5),
            name: "W".to_string(),
            description: "D".to_string(),
        },
        locations: vec![],
        characters: vec![],
        scenes: vec![],
        current_scene_id: None,
    }
}

#[test]
fn role_conversions_round_trip() {
    for r in [
        SessionParticipantRole::DungeonMaster,
        SessionParticipantRole::Player,
        SessionParticipantRole::Spectator,
    ] {
        assert_eq!(from_infra_role(to_infra_role(r)), r);
        assert_eq!(wire_to_canonical_role(canonical_to_wire_role(r)), r);
    }
    assert_eq!(to_infra_role(SessionParticipantRole::Player), ParticipantRole::Player);
    assert_eq!(from_infra_role(ParticipantRole::DungeonMaster), SessionParticipantRole::DungeonMaster);
}

#[test]
fn convert_error_keeps_messages() {
    let sid = SessionId::from_u128(1);
    match convert_error(SessionError::NotFound(sid)) {
        AsyncSessionError::SessionNotFound(m) => {
            assert_eq!(m, "Session not found: 00000000-0000-0000-0000-000000000001")
        }
        _ => panic!("wrong error"),
    }
    assert!(matches!(convert_error(SessionError::DmAlreadyPresent), AsyncSessionError::DmAlreadyPresent));
    assert!(matches!(
        convert_error(SessionError::ClientNotInSession(ClientId::from_u128(3))),
        AsyncSessionError::ClientNotInSession
    ));
    match convert_error(SessionError::WorldNotFound("w".to_string())) {
        AsyncSessionError::WorldNotFound(w) => assert_eq!(w, "w"),
        _ => panic!("wrong error"),
    }
    match convert_error(SessionError::Database("db down".to_string())) {
        AsyncSessionError::Internal(m) => assert_eq!(m, "db down"),
        _ => panic!("wrong error"),
    }
}

#[test]
fn adapter_queries_by_client_text() {
    let mut m = SessionManager::new();
    let sid = m.create_session(WorldId::from_u128(5), snapshot());
    let dm = ClientId::from_u128(10);
    let pl = ClientId::from_u128(11);
    let dm_text = dm.to_string();
    let pl_text = pl.to_string();
    join_session(&mut m, sid, &dm_text, "gm".to_string(), SessionParticipantRole::DungeonMaster).unwrap();
    join_session(&mut m, sid, &pl_text, "alice".to_string(), SessionParticipantRole::Player).unwrap();

    assert_eq!(get_client_session(&m, &dm_text), Some(sid));
    assert_eq!(get_client_session(&m, "not-a-uuid"), None);
    assert!(is_client_dm(&m, &dm_text));
    assert!(!is_client_dm(&m, &pl_text));
    assert!(!is_client_dm(&m, "garbage"));
    assert_eq!(get_client_user_id(&m, &pl_text), Some("alice".to_string()));
    let info = get_participant_info(&m, &pl_text).unwrap();
    assert_eq!(info.client_id, pl_text);
    assert_eq!(info.user_id, "alice");
    assert_eq!(info.role, SessionParticipantRole::Player);
    assert_eq!(get_session_world_id(&m, sid), Some(WorldId::from_u128(5)));
    assert!(session_has_dm(&m, sid));
    assert!(!session_has_dm(&m, SessionId::from_u128(99)));
    let ps = get_session_participants(&m, sid);
    assert_eq!(ps.len(), 2);
    assert_eq!(ps[0].user_id, "gm");
    assert_eq!(ps[1].client_id, pl_text);
    assert_eq!(broadcast_to_players_targets(&m, sid), vec![pl]);
    assert_eq!(send_to_dm_target(&m, sid), Some(dm));
    assert_eq!(broadcast_except_targets(&m, sid, &dm_text).unwrap(), vec![pl]);
    match broadcast_except_targets(&m, sid, "bad") {
        Err(AsyncSessionError::Internal(msg)) => assert_eq!(msg, "Invalid exclude client ID"),
        _ => panic!("expected error"),
    }
}

#[test]
fn adapter_join_errors() {
    let mut m = SessionManager::new();
    let sid = m.create_session(WorldId::from_u128(5), snapshot());
    match join_session(&mut m, sid, "xyz", "u".to_string(), SessionParticipantRole::Player) {
        Err(AsyncSessionError::Internal(msg)) => assert_eq!(msg, "Invalid client ID format"),
        _ => panic!("expected error"),
    }
    let missing = SessionId::from_u128(77);
    match join_session(&mut m, missing, &ClientId::from_u128(1).to_string(), "u".to_string(), SessionParticipantRole::Player) {
        Err(AsyncSessionError::SessionNotFound(msg)) => {
            assert_eq!(msg, "Session not found: 00000000-0000-0000-0000-00000000004d")
        }
        _ => panic!("expected error"),
    }
    join_session(&mut m, sid, &ClientId::from_u128(1).to_string(), "a".to_string(), SessionParticipantRole::DungeonMaster).unwrap();
    assert!(matches!(
        join_session(&mut m, sid, &ClientId::from_u128(2).to_string(), "b".to_string(), SessionParticipantRole::DungeonMaster),
        Err(AsyncSessionError::DmAlreadyPresent)
    ));
}

#[test]
fn adapter_history() {
    let mut m = SessionManager::new();
    let sid = m.create_session(WorldId::from_u128(5), snapshot());
    add_to_conversation_history(&mut m, sid, "Guard", "Halt!").unwrap();
    let h = m.get_session(sid).unwrap().get_full_history();
    assert_eq!(h.len(), 1);
    assert_eq!(h[0].speaker, "Guard");
    assert!(!h[0].is_player);
    match add_to_conversation_history(&mut m, SessionId::from_u128(3), "a", "b") {
        Err(AsyncSessionError::SessionNotFound(msg)) => {
            assert_eq!(msg, "00000000-0000-0000-0000-000000000003")
        }
        _ => panic!("expected error"),
    }
}

#[test]
fn service_participants_go_over_the_wire() {
    let p = from_service_participant(ServiceParticipantInfo {
        user_id: "u".to_string(),
        role: SessionParticipantRole::Spectator,
        character_name: Some("Sam".to_string()),
    });
    assert_eq!(p.role, ParticipantRole::Spectator);
    assert_eq!(p.user_id, "u");
    assert_eq!(p.character_name, Some("Sam".to_string()));
}
