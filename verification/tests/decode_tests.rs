use wrldbldr_engine::asset::{
    mark_read_failed, plan_batch_selection, read_marks, BatchStatus, GenerationBatch,
    GenerationBatchResponse, GenerationReadKind, GenerationReadStateUpdate, SelectFromBatchRequest,
};
use wrldbldr_engine::session_api::{create_dm_session, existing_dm_session};
use wrldbldr_engine::health::{queue_health, QueueDepths, QueueKeys};
use wrldbldr_engine::ids::{ClientId, SessionId, WorldId};
use wrldbldr_engine::session::{ParticipantRole, SessionManager, WorldSnapshot};
use wrldbldr_engine::snapshot::world_snapshot_from;
use wrldbldr_engine::stored::TriggerLogic;
use wrldbldr_engine::stored_nodes::{
    narrative_event_from_stored, player_character_from_stored, DecodeError, NodeProperty,
    StoredNarrativeEvent, StoredPlayerCharacter,
};
use wrldbldr_engine::story::{DmMarkerType, ItemSource, ItemSourceResponse, MarkerImportance};
use wrldbldr_engine::story_types::{StoryEventType, StoryEventTypeResponse};
use wrldbldr_engine::world::{CampbellArchetype, Character, Location, LocationType, Scene, TimeContext, World};
use wrldbldr_engine::ws_step::{
    action_queue_failed, client_message_step, join_failed, no_pc, ClientMessage, ServerReply,
    WsStep,
};

const A: &str = "00000000-0000-0000-0000-000000000001";
const B: &str = "00000000-0000-0000-0000-000000000002";
const T1: &str = "2024-01-02T03:04:05Z";
const T2: &str = "2024-01-02T03:04:05.5+01:00";

fn s(t: &str) -> Option<String> {
    Some(t.to_string())
}

fn event_node() -> StoredNarrativeEvent {
    StoredNarrativeEvent {
        id: s(A),
        world_id: s(B),
        name: s("Storm"),
        description: None,
        tags_json: s("[\"weather\",\"omen\"]"),
        triggers_json: None,
        trigger_logic: s("AtLeast(2)"),
        scene_direction: s("Thunder"),
        suggested_opening: s(""),
        featured_npcs: Some(vec![A.to_string(), "bad".to_string()]),
        outcomes_json: s("[]"),
        default_outcome: s("calm"),
        is_active: None,
        is_triggered: Some(true),
        triggered_at: s(T1),
        selected_outcome: None,
        is_repeatable: None,
        trigger_count: Some(3),
        delay_turns: None,
        expires_after_turns: Some(-1),
        scene_id: s(""),
        location_id: s(B),
        act_id: s("bad"),
        priority: Some(-2),
        is_favorite: None,
        chain_id: None,
        chain_position: Some(4),
        created_at: s(T1),
        updated_at: s(T2),
    }
}

#[test]
fn narrative_event_node_decodes() {
    let ev = narrative_event_from_stored(&event_node(), Some(vec![7u8]), Some(Vec::<u8>::new())).unwrap();
    assert_eq!((ev.id, ev.world_id), (1, 2));
    assert_eq!(ev.name, "Storm");
    assert_eq!(ev.description, "");
    assert_eq!(ev.tags, vec!["weather".to_string(), "omen".to_string()]);
    assert_eq!(ev.trigger_conditions, vec![7]);
    assert!(ev.outcomes.is_empty());
    assert_eq!(ev.trigger_logic, TriggerLogic::AtLeast(2));
    assert!(ev.suggested_opening.is_none());
    assert_eq!(ev.featured_npcs, vec![1]);
    assert_eq!(ev.default_outcome.as_deref(), Some("calm"));
    assert!(ev.is_active);
    assert!(ev.is_triggered);
    assert_eq!(ev.triggered_at.unwrap().seconds, 1704164645);
    assert!(!ev.is_repeatable);
    assert_eq!((ev.trigger_count, ev.delay_turns), (3, 0));
    assert_eq!(ev.expires_after_turns, None);
    assert_eq!((ev.scene_id, ev.location_id, ev.act_id), (None, Some(2), None));
    assert_eq!(ev.priority, -2);
    assert_eq!(ev.chain_position, Some(4));
    assert_eq!(ev.created_at.seconds, 1704164645);
    assert_eq!(ev.updated_at.seconds, 1704164645 - 3600);
    assert_eq!(ev.updated_at.nanos, 500_000_000);
}

#[test]
fn narrative_event_node_errors_in_order() {
    let mut n = event_node();
    n.trigger_logic = None;
    assert_eq!(narrative_event_from_stored(&n, Some(Vec::<u8>::new()), Some(Vec::<u8>::new())).unwrap().trigger_logic, TriggerLogic::All);
    n.is_active = Some(false);
    assert!(!narrative_event_from_stored(&n, Some(Vec::<u8>::new()), Some(Vec::<u8>::new())).unwrap().is_active);

    let mut n = event_node();
    n.tags_json = None;
    assert!(narrative_event_from_stored(&n, Some(Vec::<u8>::new()), Some(Vec::<u8>::new())).unwrap().tags.is_empty());

    let mut n = event_node();
    n.id = s("nope");
    n.tags_json = s("{");
    assert_eq!(narrative_event_from_stored(&n, Some(Vec::<u8>::new()), Some(Vec::<u8>::new())).unwrap_err(), DecodeError::BadJson(NodeProperty::TagsJson));
    n.updated_at = None;
    assert_eq!(narrative_event_from_stored(&n, Some(Vec::<u8>::new()), Some(Vec::<u8>::new())).unwrap_err(), DecodeError::Missing(NodeProperty::UpdatedAt));
    n.id = None;
    assert_eq!(narrative_event_from_stored(&n, Some(Vec::<u8>::new()), Some(Vec::<u8>::new())).unwrap_err(), DecodeError::Missing(NodeProperty::Id));

    let n = event_node();
    assert_eq!(
        narrative_event_from_stored(&n, None::<Vec<u8>>, Some(Vec::<u8>::new())).unwrap_err(),
        DecodeError::BadJson(NodeProperty::TriggersJson)
    );
    assert_eq!(
        narrative_event_from_stored(&n, Some(Vec::<u8>::new()), None::<Vec<u8>>).unwrap_err(),
        DecodeError::BadJson(NodeProperty::OutcomesJson)
    );
    let mut n = event_node();
    n.world_id = s("w");
    assert_eq!(narrative_event_from_stored(&n, Some(Vec::<u8>::new()), Some(Vec::<u8>::new())).unwrap_err(), DecodeError::BadUuid(NodeProperty::WorldId));
    let mut n = event_node();
    n.created_at = s("yesterday");
    assert_eq!(narrative_event_from_stored(&n, Some(Vec::<u8>::new()), Some(Vec::<u8>::new())).unwrap_err(), DecodeError::BadTimestamp(NodeProperty::CreatedAt));
}

fn pc_node() -> StoredPlayerCharacter {
    StoredPlayerCharacter {
        id: s(A),
        session_id: s(B),
        user_id: s("u1"),
        world_id: s(A),
        name: s("Ada"),
        description: s(""),
        sheet_data: s("{}"),
        current_location_id: s(B),
        starting_location_id: s(A),
        sprite_asset: s("ada.png"),
        portrait_asset: None,
        created_at: s(T1),
        last_active_at: s(T1),
    }
}

#[test]
fn player_character_node_decodes() {
    let pc = player_character_from_stored(&pc_node(), None::<u8>).unwrap();
    assert_eq!((pc.id, pc.session_id, pc.world_id), (1, 2, 1));
    assert_eq!(pc.user_id, "u1");
    assert!(pc.description.is_none());
    assert!(pc.sheet_data.is_none());
    assert_eq!((pc.current_location_id, pc.starting_location_id), (2, 1));
    assert_eq!(pc.sprite_asset.as_deref(), Some("ada.png"));
    assert!(pc.portrait_asset.is_none());

    let mut n = pc_node();
    n.sheet_data = s("{\"hp\":3}");
    assert_eq!(player_character_from_stored(&n, Some(3u8)).unwrap().sheet_data, Some(3));
    assert_eq!(player_character_from_stored(&n, None::<u8>).unwrap_err(), DecodeError::BadJson(NodeProperty::SheetData));
    n.session_id = s("x");
    assert_eq!(player_character_from_stored(&n, Some(3u8)).unwrap_err(), DecodeError::BadUuid(NodeProperty::SessionId));
    let mut n = pc_node();
    n.user_id = None;
    n.last_active_at = s("bad");
    assert_eq!(player_character_from_stored(&n, None::<u8>).unwrap_err(), DecodeError::Missing(NodeProperty::UserId));
    let mut n = pc_node();
    n.last_active_at = s("bad");
    assert_eq!(player_character_from_stored(&n, None::<u8>).unwrap_err(), DecodeError::BadTimestamp(NodeProperty::LastActiveAt));
}

#[test]
fn queue_health_report() {
    let h = queue_health(
        QueueDepths {
            player_actions_pending: 2,
            llm_pending: 3,
            llm_processing: 1,
            approvals_pending: 4,
            asset_pending: 5,
            asset_processing: 2,
        },
        &QueueKeys {
            player_actions: vec!["s1".to_string(), "s2".to_string(), "s1".to_string()],
            llm_requests: vec!["GLOBAL".to_string()],
            asset_generation: vec![],
            approvals: vec![(SessionId(1), 0), (SessionId(2), 3)],
        },
    );
    assert_eq!(h.status, "healthy");
    assert_eq!(h.total_pending, 14);
    assert_eq!(h.total_processing, 3);
    assert_eq!((h.player_actions.pending, h.player_actions.processing), (2, 0));
    assert_eq!(h.player_actions.by_session, vec![("s1".to_string(), 2), ("s2".to_string(), 1)]);
    assert_eq!(h.llm_requests.processing, 1);
    assert_eq!(h.approvals.processing, 0);
    assert_eq!(h.approvals.by_session, vec![(B.to_string(), 3)]);
    assert!(h.asset_generation.by_session.is_empty());
}

fn scene(id: u128) -> Scene {
    Scene {
        id,
        act_id: 9,
        name: format!("scene {}", id),
        location_id: 1,
        time_context: TimeContext::Unspecified,
        backdrop_override: None,
        featured_characters: vec![],
        directorial_notes: String::new(),
        order: 0,
    }
}

#[test]
fn world_snapshot_gathers_acts_in_order() {
    let e = world_snapshot_from::<()>(1, None, &vec![], &vec![], vec![], None).unwrap_err();
    assert_eq!(e, format!("World not found: {}", A));

    let world = World { id: WorldId(1), name: "W".to_string(), description: String::new() };
    let locations = vec![Location {
        id: 2,
        name: "Hall".to_string(),
        description: String::new(),
        location_type: LocationType::Interior,
        backdrop_asset: None,
        parent_id: None,
    }];
    let characters = vec![Character {
        id: 3,
        name: "Bo".to_string(),
        description: String::new(),
        sprite_asset: None,
        portrait_asset: None,
        current_archetype: CampbellArchetype::Hero,
        wants: vec![],
        is_alive: true,
        is_active: false,
    }];
    let snap = world_snapshot_from(
        1,
        Some((world, "fate")),
        &locations,
        &characters,
        vec![vec![scene(10), scene(11)], vec![], vec![scene(12)]],
        Some(12),
    )
    .unwrap();
    assert_eq!(snap.world.name, "W");
    assert_eq!(snap.world.rule_system, "fate");
    assert_eq!(snap.locations.len(), 1);
    assert_eq!(snap.characters.len(), 1);
    let names: Vec<&str> = snap.scenes.iter().map(|s| s.name.as_str()).collect();
    assert_eq!(names, vec!["scene 10", "scene 11", "scene 12"]);
    assert_eq!(snap.current_scene.unwrap().name, "scene 12");
}

#[test]
fn batch_response_counts_assets() {
    let r = GenerationBatchResponse::from_batch(GenerationBatch {
        id: 1,
        entity_type: "character".to_string(),
        entity_id: "c".to_string(),
        asset_type: "portrait".to_string(),
        workflow: "wf".to_string(),
        prompt: "p".to_string(),
        count: 4,
        status: BatchStatus::Failed { error: "oom".to_string() },
        assets: vec![5, 6],
        requested_at: T1.to_string(),
        completed_at: None,
    });
    assert_eq!(r.id, A);
    assert_eq!(r.count, 4);
    assert_eq!(r.asset_count, 2);
    assert_eq!(r.status, "Failed: oom");
    assert_eq!(r.progress, None);
}

#[test]
fn story_event_types_as_the_api_shows_them() {
    let r = StoryEventTypeResponse::<(), ()>::from_event_type(StoryEventType::LocationChange {
        from_location: None,
        to_location: 2,
        character_id: 1,
        travel_method: Some("cart".to_string()),
    });
    match r {
        StoryEventTypeResponse::LocationChange { from_location, to_location, character_id, travel_method } => {
            assert!(from_location.is_none());
            assert_eq!(to_location, B);
            assert_eq!(character_id, A);
            assert_eq!(travel_method.as_deref(), Some("cart"));
        }
        _ => panic!("wrong kind"),
    }
    let r = StoryEventTypeResponse::<(), ()>::from_event_type(StoryEventType::DmMarker {
        title: "t".to_string(),
        note: "n".to_string(),
        importance: MarkerImportance::Critical,
        marker_type: DmMarkerType::PlotPoint,
    });
    match r {
        StoryEventTypeResponse::DmMarker { importance, marker_type, .. } => {
            assert_eq!(importance, "Critical");
            assert_eq!(marker_type, "PlotPoint");
        }
        _ => panic!("wrong kind"),
    }
    let r = StoryEventTypeResponse::<(f32, f32), ()>::from_event_type(StoryEventType::ItemAcquired {
        item_name: "key".to_string(),
        item_description: None,
        character_id: 1,
        source: ItemSource::Gifted { from: 2 },
        quantity: 1,
    });
    match r {
        StoryEventTypeResponse::ItemAcquired { source: ItemSourceResponse::Gifted { from }, .. } => {
            assert_eq!(from, B)
        }
        _ => panic!("wrong kind"),
    }
    let r = StoryEventTypeResponse::<(), u8>::from_event_type(StoryEventType::CombatEvent {
        combat_type: "Ambush".to_string(),
        participants: vec![1, 2],
        enemies: vec![],
        outcome: None,
        location_id: 1,
        rounds: Some(3),
    });
    match r {
        StoryEventTypeResponse::CombatEvent { participants, .. } => {
            assert_eq!(participants, vec![A.to_string(), B.to_string()])
        }
        _ => panic!("wrong kind"),
    }
}

type Msg = ClientMessage<Option<String>, (), u8, &'static str>;

#[test]
fn websocket_messages_step() {
    let mut m = SessionManager::new();
    let world = World { id: WorldId(1), name: "W".to_string(), description: String::new() };
    let sid = m.create_session(
        WorldId(1),
        WorldSnapshot { world, locations: vec![], characters: vec![], scenes: vec![], current_scene_id: None },
    );
    let dm = ClientId(7);
    let player = ClientId(8);
    let stranger = ClientId(9);
    m.join_session(sid, dm, "dm-user".to_string(), ParticipantRole::DungeonMaster).unwrap();
    m.join_session(sid, player, "pl-user".to_string(), ParticipantRole::Player).unwrap();

    assert!(matches!(client_message_step(&m, stranger, Msg::Heartbeat), WsStep::Reply(ServerReply::Pong)));
    let action = |t: &str, target: Option<&str>| Msg::PlayerAction {
        action_type: t.to_string(),
        target: target.map(|x| x.to_string()),
        dialogue: None,
    };
    match client_message_step(&m, stranger, action("talk", None)) {
        WsStep::Reply(ServerReply::Error(e)) => assert_eq!(e.code, "NOT_IN_SESSION"),
        _ => panic!("expected an error"),
    }
    match client_message_step(&m, player, action("travel", None)) {
        WsStep::Reply(ServerReply::Error(e)) => assert_eq!(e.code, "MISSING_TARGET"),
        _ => panic!("expected an error"),
    }
    match client_message_step(&m, player, action("travel", Some("x"))) {
        WsStep::Reply(ServerReply::Error(e)) => assert_eq!(e.code, "INVALID_LOCATION_ID"),
        _ => panic!("expected an error"),
    }
    match client_message_step(&m, player, action("travel", Some(B))) {
        WsStep::Travel { session_id, player_id, location_id, .. } => {
            assert_eq!((session_id, player_id.as_str(), location_id), (sid, "pl-user", 2))
        }
        _ => panic!("expected a travel"),
    }
    match client_message_step(&m, player, action("talk", Some("Bo"))) {
        WsStep::EnqueueAction { player_id, action_type, .. } => {
            assert_eq!((player_id.as_str(), action_type.as_str()), ("pl-user", "talk"))
        }
        _ => panic!("expected an enqueue"),
    }
    let decision = |_: ()| Msg::ApprovalDecision { request_id: "r1".to_string(), decision: 1 };
    match client_message_step(&m, player, decision(())) {
        WsStep::Reply(ServerReply::Error(e)) => assert_eq!(e.code, "NOT_AUTHORIZED"),
        _ => panic!("expected an error"),
    }
    match client_message_step(&m, dm, decision(())) {
        WsStep::EnqueueApproval { session_id, dm_id, request_id, decision } => {
            assert_eq!((session_id, dm_id.as_str(), request_id.as_str(), decision), (sid, "dm-user", "r1", 1))
        }
        _ => panic!("expected an enqueue"),
    }
    match client_message_step(&m, stranger, Msg::RequestSceneChange { scene_id: "s".to_string() }) {
        WsStep::Reply(ServerReply::Error(e)) => assert_eq!(e.code, "INVALID_SCENE_ID"),
        _ => panic!("expected an error"),
    }
    match client_message_step(&m, stranger, Msg::RequestSceneChange { scene_id: A.to_string() }) {
        WsStep::Reply(ServerReply::Error(e)) => assert_eq!(e.code, "NOT_IN_SESSION"),
        _ => panic!("expected an error"),
    }
    assert!(matches!(
        client_message_step(&m, dm, Msg::RequestSceneChange { scene_id: A.to_string() }),
        WsStep::ChangeScene { scene_id: 1, .. }
    ));
    assert!(matches!(client_message_step(&m, dm, Msg::DirectorialUpdate { context: () }), WsStep::Nothing));
    assert!(matches!(
        client_message_step(&m, dm, Msg::Challenge("roll")),
        WsStep::ToChallengeService { message: "roll", .. }
    ));
    match client_message_step(
        &m,
        stranger,
        Msg::JoinSession { user_id: "u".to_string(), role: ParticipantRole::Spectator, world_id: None },
    ) {
        WsStep::JoinOrCreate { client, user_id, .. } => {
            assert_eq!(client, "00000000-0000-0000-0000-000000000009");
            assert_eq!(user_id, "u");
        }
        _ => panic!("expected a join"),
    }
    assert_eq!(join_failed("boom").message, "Failed to join session: boom");
    assert_eq!(action_queue_failed("full").code, "QUEUE_ERROR");
    assert_eq!(no_pc().code, "NO_PC");
}

#[test]
fn read_markers_batches_then_suggestions() {
    let body = GenerationReadStateUpdate {
        user_id: "u".to_string(),
        world_id: String::new(),
        read_batches: vec!["b1".to_string(), "b2".to_string()],
        read_suggestions: vec!["s1".to_string()],
    };
    assert_eq!(
        read_marks(&body),
        vec![
            (GenerationReadKind::Batch, "b1".to_string()),
            (GenerationReadKind::Batch, "b2".to_string()),
            (GenerationReadKind::Suggestion, "s1".to_string()),
        ]
    );
    let e = mark_read_failed(GenerationReadKind::Suggestion, "down");
    assert_eq!((e.status, e.message.as_str()), (500, "Failed to mark suggestion read: down"));
}

#[test]
fn batch_selection_completes_the_batch() {
    let req = SelectFromBatchRequest { selected_assets: vec!["bad".to_string()], discard_others: true, labels: vec![] };
    let p = plan_batch_selection(&req, &vec![1, 2]);
    assert!(matches!(p.batch_status, BatchStatus::Completed));
    assert!(p.error.is_some());
}

#[test]
fn dm_session_names_its_creator() {
    let mut m = SessionManager::new();
    let world = World { id: WorldId(1), name: "W".to_string(), description: String::new() };
    let snapshot = WorldSnapshot { world, locations: vec![], characters: vec![], scenes: vec![], current_scene_id: None };
    let (sid, info) = create_dm_session(&mut m, WorldId(1), snapshot, "alice".to_string());
    assert_eq!(info.dm_user_id, "alice");
    assert_eq!(info.active_player_count, 0);
    assert_eq!(m.get_session(sid).unwrap().dm_user_id().as_deref(), Some("alice"));
    m.join_session(sid, ClientId(5), "p".to_string(), ParticipantRole::Player).unwrap();
    let again = existing_dm_session(&m, A, "bob").unwrap().unwrap();
    assert_eq!(again.session_id, info.session_id);
    assert_eq!(again.dm_user_id, "alice");
    assert_eq!(again.active_player_count, 1);
    assert_eq!(m.session_count(), 1);
    m.record_session_dm(sid, "carol".to_string());
    assert_eq!(m.get_session(sid).unwrap().dm_user_id().as_deref(), Some("alice"));
}
