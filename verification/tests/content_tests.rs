use wrldbldr_engine::asset::{check_cancel, check_generation_request, invalid_asset_type, GenerateAssetRequest};
use wrldbldr_engine::content::{FieldValue, FieldValueDto};
use wrldbldr_engine::content::{apply_challenge_changes, ChallengeChanges, ChallengeSettings};
use wrldbldr_engine::asset::{
    batch_status_fields, default_count, plan_batch_selection, read_state_keys, BatchStatus,
    GenerationReadStateUpdate, SelectFromBatchRequest,
};
use wrldbldr_engine::comfyui::{normalize_base_url, GenerationRequest, QueueResponse, WorkflowType};
use wrldbldr_engine::config::{AppConfig, ConfigError, EnvValues};
use wrldbldr_engine::content::{
    export_compressed, move_ids, new_act, new_scene,
    next_section_order, player_character_context, sheet_template_summary, suggestion_queued,
    template_in_world, CreateActRequest, CreatePlayerCharacterRequestDto,
    CreateSceneRequest, ExportQuery, UpdateLocationRequestDto,
};
use wrldbldr_engine::health::{count_by_key, session_key_text};
use wrldbldr_engine::workflow::{count_import, import_saves, test_workflow_response, ImportWorkflowsResponse};
use wrldbldr_engine::ids::{ClientId, SessionId, WorldId};
use wrldbldr_engine::kinds::{MonomythStage, SpatialRelationship};
use wrldbldr_engine::location::{
    default_bidirectional, new_connection, new_location, CreateConnectionRequest,
    CreateLocationRequest,
};
use wrldbldr_engine::narrative::{
    apply_narrative_update, default_true, NarrativeEventSettings, UpdateNarrativeEventRequest,
};
use wrldbldr_engine::prompt::{build_prompt_from_action, PlayerActionItem, QueueError};
use wrldbldr_engine::session::{ParticipantRole, ProposedTool, SessionManager, WorldSnapshot};
use wrldbldr_engine::session_api::{existing_dm_session, list_sessions, list_world_sessions, millis_to_seconds};
use wrldbldr_engine::snapshot::{assemble_player_snapshot, CharacterData, PlayerWorldSnapshot, WorldData, WorldSnapshotBuilder};
use wrldbldr_engine::workers::{plan_dm_action, record_pending_approval, ApprovalItem, DMAction, DMActionItem, DmActionStep};
use wrldbldr_engine::world::{CampbellArchetype, Character, Location, LocationType, Scene, TimeContext, TimeOfDay, World};
use wrldbldr_engine::ws::{
    action_sender, authorize_approval, group_by_location, regenerate_outcome, CharacterPosition,
    scene_change_session, scene_change_target, scene_not_found, scene_update, travel_destination,
};
use wrldbldr_engine::interaction::{
    apply_interaction_update, new_interaction, CreateInteractionRequest, InteractionTarget,
    InteractionTemplate, InteractionType,
};

fn id(n: u128) -> String {
    wrldbldr_engine::ids::uuid_to_string(n)
}

fn character(n: u128, name: &str, active: bool) -> Character {
    Character {
        id: n,
        name: name.to_string(),
        description: format!("{} desc", name),
        sprite_asset: None,
        portrait_asset: Some(format!("{}.png", name)),
        current_archetype: CampbellArchetype::Mentor,
        wants: vec!["gold".to_string()],
        is_alive: true,
        is_active: active,
    }
}

fn world_snapshot() -> WorldSnapshot {
    WorldSnapshot {
        world: World { id: WorldId::from_u128(1), name: "Realm".to_string(), description: "d".to_string() },
        locations: vec![Location {
            id: 20,
            name: "Tavern".to_string(),
            description: "warm".to_string(),
            location_type: LocationType::Interior,
            backdrop_asset: Some("tavern.png".to_string()),
            parent_id: None,
        }],
        characters: vec![character(30, "Gandalf", true), character(31, "Barkeep", false)],
        scenes: vec![
            Scene {
                id: 40,
                act_id: 60,
                name: "Arrival".to_string(),
                location_id: 20,
                time_context: TimeContext::TimeOfDay(TimeOfDay::Evening),
                backdrop_override: None,
                featured_characters: vec![31, 99, 30],
                directorial_notes: "Be cosy".to_string(),
                order: 0,
            },
            Scene {
                id: 41,
                act_id: 60,
                name: "Later".to_string(),
                location_id: 21,
                time_context: TimeContext::Custom("midnight".to_string()),
                backdrop_override: Some("night.png".to_string()),
                featured_characters: vec![],
                directorial_notes: "".to_string(),
                order: 1,
            },
        ],
        current_scene_id: None,
    }
}

#[test]
fn prompt_uses_first_scene_and_target_character() {
    let mut m = SessionManager::new();
    let sid = m.create_session(WorldId::from_u128(1), world_snapshot());
    m.get_session_mut(sid).unwrap().add_player_action("Frodo", "Hello");
    let action = PlayerActionItem {
        session_id: sid,
        player_id: "p".to_string(),
        action_type: "talk".to_string(),
        target: Some("gandalf".to_string()),
        dialogue: Some("Hi".to_string()),
    };
    let p = build_prompt_from_action::<(), ()>(&m, &action).unwrap();
    assert_eq!(p.scene_context.scene_name, "Arrival");
    assert_eq!(p.scene_context.location_name, "Tavern");
    assert_eq!(p.scene_context.time_context, "Evening");
    assert_eq!(p.scene_context.present_characters, vec!["Barkeep", "Gandalf"]);
    assert_eq!(p.responding_character.name, "Gandalf");
    assert_eq!(p.responding_character.archetype, "Mentor");
    assert_eq!(p.responding_character.wants, vec!["\"gold\""]);
    assert!(p.active_challenges.is_empty() && p.active_narrative_events.is_empty());
    assert_eq!(p.directorial_notes, "Be cosy");
    assert_eq!(p.conversation_history.len(), 1);
    assert_eq!(p.conversation_history[0].text, "Hello");
    assert_eq!(p.player_action.dialogue, Some("Hi".to_string()));

    let mut no_target = action.clone();
    no_target.target = None;
    assert_eq!(build_prompt_from_action::<(), ()>(&m, &no_target).unwrap().responding_character.name, "Barkeep");
    let mut unknown = action.clone();
    unknown.target = Some("Sauron".to_string());
    match build_prompt_from_action::<(), ()>(&m, &unknown) {
        Err(QueueError::Backend(msg)) => assert_eq!(msg, "No responding character found"),
        _ => panic!("expected error"),
    }
    let mut missing = action.clone();
    missing.session_id = SessionId::from_u128(5);
    match build_prompt_from_action::<(), ()>(&m, &missing) {
        Err(QueueError::Backend(msg)) => assert_eq!(msg, "Session not found"),
        _ => panic!("expected error"),
    }
}

#[test]
fn prompt_uses_named_current_scene() {
    let mut snap = world_snapshot();
    snap.current_scene_id = Some(id(41));
    let mut m = SessionManager::new();
    let sid = m.create_session(WorldId::from_u128(1), snap);
    let action = PlayerActionItem {
        session_id: sid,
        player_id: "p".to_string(),
        action_type: "talk".to_string(),
        target: Some("Barkeep".to_string()),
        dialogue: None,
    };
    let p = build_prompt_from_action::<(), ()>(&m, &action).unwrap();
    assert_eq!(p.scene_context.scene_name, "Later");
    assert_eq!(p.scene_context.location_name, "Unknown");
    assert_eq!(p.scene_context.time_context, "midnight");
    let mut snap2 = world_snapshot();
    snap2.current_scene_id = Some("missing".to_string());
    let mut m2 = SessionManager::new();
    let sid2 = m2.create_session(WorldId::from_u128(1), snap2);
    let mut a2 = action.clone();
    a2.session_id = sid2;
    match build_prompt_from_action::<(), ()>(&m2, &a2) {
        Err(QueueError::Backend(msg)) => assert_eq!(msg, "No scenes available in world snapshot"),
        _ => panic!("expected error"),
    }
}

#[test]
fn websocket_decisions() {
    assert!(travel_destination("talk", &None).is_none());
    let e = travel_destination("travel", &None).unwrap().unwrap_err();
    assert_eq!((e.code.as_str(), e.message.as_str()), ("MISSING_TARGET", "Travel action requires a target location"));
    let e = travel_destination("travel", &Some("x".to_string())).unwrap().unwrap_err();
    assert_eq!(e.code, "INVALID_LOCATION_ID");
    assert_eq!(travel_destination("travel", &Some(id(3))).unwrap().unwrap(), 3);
    assert_eq!(scene_change_target(&id(4)).unwrap(), 4);
    assert_eq!(scene_change_target("q").unwrap_err().code, "INVALID_SCENE_ID");
    let e = scene_not_found("abc");
    assert_eq!((e.code.as_str(), e.message.as_str()), ("SCENE_NOT_FOUND", "Scene abc not found"));

    let mut m = SessionManager::new();
    let sid = m.create_session(WorldId::from_u128(1), world_snapshot());
    let dm = ClientId::from_u128(100);
    let pl = ClientId::from_u128(101);
    let stranger = ClientId::from_u128(102);
    m.join_session(sid, dm, "gm".to_string(), ParticipantRole::DungeonMaster).unwrap();
    m.join_session(sid, pl, "alice".to_string(), ParticipantRole::Player).unwrap();
    assert_eq!(action_sender(&m, pl).unwrap(), (sid, "alice".to_string()));
    let e = action_sender(&m, stranger).unwrap_err();
    assert_eq!((e.code.as_str(), e.message.as_str()), ("NOT_IN_SESSION", "You must join a session before performing actions"));
    assert_eq!(scene_change_session(&m, pl).unwrap(), sid);
    assert_eq!(scene_change_session(&m, stranger).unwrap_err().message, "You must join a session before requesting scene changes");
    assert_eq!(authorize_approval(&m, dm).unwrap(), (sid, "gm".to_string()));
    let e = authorize_approval(&m, pl).unwrap_err();
    assert_eq!((e.code.as_str(), e.message.as_str()), ("NOT_AUTHORIZED", "Only the DM can approve responses"));
}

#[test]
fn regenerated_outcomes() {
    let (kind, o) = regenerate_outcome::<u8>(Some("  Fine, take it. "), Some("  be grumpy "), None);
    assert_eq!(kind, "all");
    assert!(o.proposed_tools.is_empty());
    assert_eq!(o.flavor_text, "Fine, take it. (regenerated) — Guidance: be grumpy");
    assert_eq!(o.scene_direction, "DM: narrate this regenerated outcome to the table.");
    let (kind, o) = regenerate_outcome::<u8>(None, Some("   "), Some("success".to_string()));
    assert_eq!(kind, "success");
    assert_eq!(o.flavor_text, "Regenerated outcome (no approval context found)");
}

#[test]
fn scene_updates_and_split_party() {
    let snap = world_snapshot();
    let interactions = vec![
        InteractionTemplate {
            id: 50,
            scene_id: 40,
            name: "Chat".to_string(),
            interaction_type: InteractionType::Dialogue,
            target: InteractionTarget::Character(30),
            prompt_hints: String::new(),
            allowed_tools: vec![],
            is_available: true,
            order: 0,
        },
    ];
    let u = scene_update(&snap.scenes[0], &snap.locations[0], &snap.characters, &interactions, true);
    assert_eq!(u.scene.id, id(40));
    assert_eq!(u.scene.location_name, "Tavern");
    assert_eq!(u.scene.backdrop_asset, Some("tavern.png".to_string()));
    assert_eq!(u.scene.time_context, "Evening");
    assert_eq!(u.characters.len(), 2);
    assert_eq!(u.characters[0].position, CharacterPosition::Center);
    assert!(!u.characters[0].is_speaking);
    assert_eq!(u.interactions[0].target_name, Some(format!("Character {}", id(30))));
    assert_eq!(u.interactions[0].interaction_type, "Dialogue");
    let u2 = scene_update(&snap.scenes[1], &snap.locations[0], &vec![], &interactions, false);
    assert_eq!(u2.scene.backdrop_asset, Some("night.png".to_string()));
    assert_eq!(u2.interactions[0].target_name, Some("Character".to_string()));
    let groups = group_by_location(&vec![
        (2, "Ann".to_string()),
        (1, "Bob".to_string()),
        (2, "Cid".to_string()),
    ]);
    assert_eq!(groups, vec![(2, vec!["Ann".to_string(), "Cid".to_string()]), (1, vec!["Bob".to_string()])]);
}

#[test]
fn approvals_are_recorded_once() {
    let mut m = SessionManager::new();
    let sid = m.create_session(WorldId::from_u128(1), world_snapshot());
    let dm = ClientId::from_u128(100);
    m.join_session(sid, dm, "gm".to_string(), ParticipantRole::DungeonMaster).unwrap();
    let item = ApprovalItem {
        id: 77,
        session_id: sid,
        npc_name: "Gandalf".to_string(),
        proposed_dialogue: "You shall not pass".to_string(),
        internal_reasoning: "drama".to_string(),
        proposed_tools: vec![ProposedTool {
            id: "t".to_string(),
            name: "n".to_string(),
            description: "d".to_string(),
            arguments: "{}".to_string(),
        }],
    };
    let notice = record_pending_approval(&mut m, &item).unwrap();
    assert_eq!(notice.request_id, id(77));
    assert_eq!(notice.dm, Some(dm));
    assert_eq!(notice.proposed_tools.len(), 1);
    assert!(m.get_session(sid).unwrap().get_pending_approval(&id(77)).is_some());
    assert!(record_pending_approval(&mut m, &item).is_none());
    let mut other = item.clone();
    other.session_id = SessionId::from_u128(9);
    assert!(record_pending_approval(&mut m, &other).is_none());
}

#[test]
fn dm_actions_are_planned() {
    let mut m = SessionManager::new();
    let sid = m.create_session(WorldId::from_u128(1), world_snapshot());
    let pl = ClientId::from_u128(101);
    m.join_session(sid, pl, "alice".to_string(), ParticipantRole::Player).unwrap();
    let item = |action: DMAction<u8>, s: SessionId| DMActionItem { session_id: s, dm_id: "gm".to_string(), action };
    match plan_dm_action(&m, item(DMAction::ApprovalDecision { request_id: id(5), decision: 1u8 }, sid)) {
        Ok(DmActionStep::ProcessDecision { approval_id, decision }) => assert_eq!((approval_id, decision), (5, 1)),
        _ => panic!("expected decision"),
    }
    match plan_dm_action(&m, item(DMAction::ApprovalDecision { request_id: "bad".to_string(), decision: 1u8 }, sid)) {
        Err(QueueError::NotFound(r)) => assert_eq!(r, "bad"),
        _ => panic!("expected not found"),
    }
    match plan_dm_action(&m, item(DMAction::ApprovalDecision { request_id: id(5), decision: 1u8 }, SessionId::from_u128(3))) {
        Err(QueueError::Backend(msg)) => assert_eq!(msg, format!("Session {} not found", id(3))),
        _ => panic!("expected missing session"),
    }
    match plan_dm_action(&m, item(DMAction::DirectNPCControl { npc_id: "x".to_string(), dialogue: "Hey".to_string() }, sid)) {
        Ok(DmActionStep::Broadcast { targets, text }) => {
            assert_eq!(targets, vec![pl]);
            assert_eq!(text, "Hey");
        }
        _ => panic!("expected broadcast"),
    }
    assert!(matches!(plan_dm_action(&m, item(DMAction::TriggerEvent { event_id: "e".to_string() }, sid)), Ok(DmActionStep::Nothing)));
}

#[test]
fn player_snapshot_and_builder() {
    let snap = world_snapshot();
    let p = assemble_player_snapshot(&snap.world, "d20", &snap.locations, &snap.characters, &snap.scenes, Some(41));
    assert_eq!(p.world.id, id(1));
    assert_eq!(p.world.rule_system, "d20");
    assert_eq!(p.locations[0].location_type, "Interior");
    assert_eq!(p.characters[0].archetype, "Mentor");
    assert_eq!(p.scenes[0].time_context, "TimeOfDay(Evening)");
    assert_eq!(p.scenes[1].time_context, "Custom(\"midnight\")");
    assert_eq!(p.scenes[0].featured_characters[0], id(31));
    assert_eq!(p.current_scene.as_ref().unwrap().name, "Later");
    let none = assemble_player_snapshot(&snap.world, "d20", &snap.locations, &snap.characters, &snap.scenes, Some(7));
    assert!(none.current_scene.is_none());
    let b = WorldSnapshotBuilder::new(WorldId::from_u128(1)).with_current_scene(41);
    assert_eq!(b.current_scene_id, Some(41));
    let filtered = b.finish(p.clone());
    assert_eq!(filtered.characters.len(), 1);
    assert_eq!(filtered.characters[0].name, "Gandalf");
    let all = b.include_inactive_characters().finish(p);
    assert_eq!(all.characters.len(), 2);
}

#[test]
fn snapshot_types_hold_data() {
    let s = PlayerWorldSnapshot {
        world: WorldData { id: "world-1".to_string(), name: "Fantasy Realm".to_string(), description: "A magical world".to_string(), rule_system: () },
        locations: vec![],
        characters: vec![CharacterData {
            id: "char-1".to_string(),
            name: "Gandalf".to_string(),
            description: "A wise wizard".to_string(),
            archetype: "Mentor".to_string(),
            sprite_asset: None,
            portrait_asset: Some("gandalf_portrait.png".to_string()),
            is_alive: true,
            is_active: true,
        }],
        scenes: vec![],
        current_scene: None,
    };
    assert_eq!(s.world.name, "Fantasy Realm");
    assert_eq!(s.characters.len(), 1);
}

#[test]
fn sessions_are_summarised() {
    let mut m = SessionManager::new();
    let sid = m.create_session(WorldId::from_u128(1), world_snapshot());
    let other = m.create_session(WorldId::from_u128(2), world_snapshot());
    m.join_session(sid, ClientId::from_u128(1), "gm".to_string(), ParticipantRole::DungeonMaster).unwrap();
    m.join_session(sid, ClientId::from_u128(2), "p".to_string(), ParticipantRole::Player).unwrap();
    let all = list_sessions(&m);
    assert_eq!(all.len(), 2);
    let mine = list_world_sessions(&m, &id(1));
    assert_eq!(mine.len(), 1);
    assert_eq!(mine[0].session_id, sid.to_string());
    assert_eq!(mine[0].dm_user_id, "gm");
    assert_eq!(mine[0].active_player_count, 1);
    assert!(list_world_sessions(&m, "nope").is_empty());
    let info = existing_dm_session(&m, &id(2), "boss").unwrap().unwrap();
    assert_eq!(info.session_id, other.to_string());
    assert_eq!(info.dm_user_id, "boss");
    assert!(existing_dm_session(&m, &id(3), "boss").unwrap().is_none());
    assert_eq!(existing_dm_session(&m, "x", "boss").unwrap_err().status, 400);
    assert_eq!(millis_to_seconds(1999), 1);
    assert_eq!(millis_to_seconds(-1), -1);
    assert_eq!(millis_to_seconds(-1000), -1);
    assert_eq!(millis_to_seconds(-1001), -2);
}

#[test]
fn assets_batches_and_read_state() {
    assert_eq!(default_count(), 4);
    assert_eq!(batch_status_fields(&BatchStatus::Generating { progress: 40 }), ("Generating".to_string(), Some(40)));
    assert_eq!(batch_status_fields(&BatchStatus::Completed), ("Completed".to_string(), Some(100)));
    assert_eq!(batch_status_fields(&BatchStatus::Failed { error: "gpu".to_string() }), ("Failed: gpu".to_string(), None));
    let req = SelectFromBatchRequest {
        selected_assets: vec![id(1), id(3)],
        discard_others: true,
        labels: vec![None, Some("best".to_string())],
    };
    let plan = plan_batch_selection(&req, &vec![1, 2, 3, 4]);
    assert!(plan.error.is_none());
    assert_eq!(plan.labels, vec![(3, "best".to_string())]);
    assert_eq!(plan.discard, vec![2, 4]);
    let bad = SelectFromBatchRequest {
        selected_assets: vec![id(3), "bad".to_string(), id(1)],
        discard_others: true,
        labels: vec![Some("a".to_string()), Some("b".to_string())],
    };
    let plan = plan_batch_selection(&bad, &vec![1, 2]);
    assert_eq!(plan.labels, vec![(3, "a".to_string())]);
    assert_eq!(plan.error.unwrap().message, "Invalid asset ID in selection");
    assert!(plan.discard.is_empty());
    let body = GenerationReadStateUpdate { user_id: "  ".to_string(), world_id: " ".to_string(), read_batches: vec![], read_suggestions: vec![] };
    assert_eq!(read_state_keys(None, &body).unwrap_err().message, "user_id is required");
    assert_eq!(read_state_keys(Some("hdr".to_string()), &body).unwrap(), ("hdr".to_string(), "GLOBAL".to_string()));
    let body2 = GenerationReadStateUpdate { user_id: "u".to_string(), world_id: "w1".to_string(), read_batches: vec![], read_suggestions: vec![] };
    assert_eq!(read_state_keys(None, &body2).unwrap(), ("u".to_string(), "w1".to_string()));
}

#[test]
fn locations_connections_and_events() {
    let req = CreateLocationRequest {
        name: "Keep".to_string(),
        description: String::new(),
        location_type: "Exterior".to_string(),
        parent_id: Some(id(8)),
        backdrop_asset: None,
        backdrop_regions: vec![],
    };
    let n = new_location(&id(1), req.clone()).unwrap();
    assert_eq!((n.world_id, n.parent_id, n.location_type), (1, Some(8), LocationType::Exterior));
    assert!(n.description.is_none());
    let mut bad = req.clone();
    bad.parent_id = Some("p".to_string());
    assert_eq!(new_location(&id(1), bad).unwrap_err().message, "Invalid parent ID");
    assert!(default_bidirectional());
    let c = new_connection(CreateConnectionRequest {
        from_location_id: id(1),
        to_location_id: id(2),
        connection_type: None,
        description: "path".to_string(),
        bidirectional: false,
        travel_time: Some(3),
    }).unwrap();
    assert_eq!(c.connection_type, SpatialRelationship::ConnectsTo);
    assert_eq!(c.description, Some("path".to_string()));
    let e = new_connection(CreateConnectionRequest {
        from_location_id: id(1),
        to_location_id: "x".to_string(),
        connection_type: Some("Enters".to_string()),
        description: String::new(),
        bidirectional: true,
        travel_time: None,
    }).unwrap_err();
    assert_eq!(e.message, "Invalid to location ID");
    assert!(default_true());
    let s = NarrativeEventSettings {
        name: "Ambush".to_string(),
        description: "d".to_string(),
        scene_direction: "sd".to_string(),
        suggested_opening: None,
        is_repeatable: false,
        delay_turns: 0,
        expires_after_turns: Some(5),
        priority: 1,
        is_active: true,
        tags: vec![],
    };
    let u = UpdateNarrativeEventRequest {
        name: Some("Trap".to_string()),
        description: None,
        scene_direction: None,
        suggested_opening: Some("Look out!".to_string()),
        is_repeatable: None,
        delay_turns: Some(2),
        expires_after_turns: None,
        priority: None,
        is_active: Some(false),
        tags: Some(vec!["combat".to_string()]),
    };
    let r = apply_narrative_update(s, u);
    assert_eq!(r.name, "Trap");
    assert_eq!(r.description, "d");
    assert_eq!(r.suggested_opening, Some("Look out!".to_string()));
    assert_eq!(r.delay_turns, 2);
    assert_eq!(r.expires_after_turns, Some(5));
    assert!(!r.is_active);
    assert_eq!(r.tags, vec!["combat"]);
}

#[test]
fn scenes_acts_characters_and_workflows() {
    let s = new_scene(&id(1), CreateSceneRequest {
        name: "Gate".to_string(),
        location_id: id(2),
        time_context: Some("dusk".to_string()),
        backdrop_override: None,
        featured_characters: vec![id(3), "junk".to_string()],
        directorial_notes: String::new(),
        order: 4,
    }).unwrap();
    assert_eq!(s.featured_characters, vec![3]);
    assert_eq!(s.time_context, Some(TimeContext::Custom("dusk".to_string())));
    assert!(s.directorial_notes.is_none());
    assert_eq!(new_scene("a", CreateSceneRequest {
        name: "Gate".to_string(), location_id: id(2), time_context: None, backdrop_override: None,
        featured_characters: vec![], directorial_notes: String::new(), order: 0,
    }).unwrap_err().message, "Invalid act ID");
    let a = new_act(&id(1), CreateActRequest { name: "I".to_string(), stage: "Reward".to_string(), description: "x".to_string(), order: 1 }).unwrap();
    assert_eq!(a.stage, MonomythStage::Reward);
    assert_eq!(a.description, Some("x".to_string()));

    let mut m = SessionManager::new();
    let sid = m.create_session(WorldId::from_u128(6), world_snapshot());
    let pc = CreatePlayerCharacterRequestDto {
        name: "Frodo".to_string(), description: None, starting_location_id: id(20),
        sheet_data: None, sprite_asset: None, portrait_asset: None,
    };
    assert_eq!(player_character_context(&m, &sid.to_string(), &pc).unwrap(), (sid, WorldId::from_u128(6), 20));
    assert_eq!(player_character_context(&m, &id(9), &pc).unwrap_err().status, 404);
    assert_eq!(player_character_context(&m, "s", &pc).unwrap_err().message, "Invalid session ID");
    assert_eq!(move_ids(&id(1), &UpdateLocationRequestDto { location_id: id(2) }).unwrap(), (1, 2));
    assert_eq!(move_ids("p", &UpdateLocationRequestDto { location_id: id(2) }).unwrap_err().message, "Invalid player character ID");

    assert!(export_compressed(&ExportQuery { format: Some("compressed".to_string()) }));
    assert!(!export_compressed(&ExportQuery { format: Some("pretty".to_string()) }));
    assert_eq!(suggestion_queued("r1".to_string()).status, "queued");
    assert!(!import_saves(true, false));
    assert!(import_saves(true, true));
    let c = count_import(ImportWorkflowsResponse { imported: 1, skipped: 0 }, false);
    assert_eq!((c.imported, c.skipped), (1, 1));
    let t = test_workflow_response(QueueResponse { prompt_id: "p9".to_string(), number: 3 });
    assert_eq!((t.prompt_id.as_str(), t.queue_position), ("p9", 3));
    let sum = sheet_template_summary("t".to_string(), "n".to_string(), "d".to_string(), true, &vec![2, 3, 0]);
    assert_eq!((sum.section_count, sum.field_count), (3, 5));
    assert_eq!(next_section_order(&vec![3, 9, 1]), 10);
    assert_eq!(next_section_order(&vec![]), 1);
    assert_eq!(template_in_world(&id(1), 1).unwrap(), 1);
    assert_eq!(template_in_world(&id(1), 2).unwrap_err().status, 403);
}

#[test]
fn generator_requests_config_and_health() {
    assert_eq!(WorkflowType::SceneBackdrop.workflow_file(), "scene_backdrop.json");
    let r = GenerationRequest::scene_backdrop("castle".to_string());
    assert_eq!((r.workflow_type.as_str(), r.width, r.height), ("scene_backdrop", 1920, 1080));
    assert_eq!(GenerationRequest::character_portrait("x".to_string()).width, 256);
    assert_eq!(GenerationRequest::character_sprite("x".to_string()).height, 512);
    assert_eq!(GenerationRequest::tilesheet("x".to_string()).workflow_type, "tilesheet");
    assert_eq!(normalize_base_url("http://h:8188///"), "http://h:8188");
    let env = EnvValues {
        neo4j_uri: None, neo4j_user: None, neo4j_password: Some("pw".to_string()), neo4j_database: None,
        ollama_base_url: None, ollama_model: None, comfyui_base_url: None, server_port: None,
    };
    let c = AppConfig::from_values(env.clone()).unwrap();
    assert_eq!(c.neo4j_uri, "bolt://localhost:7687");
    assert_eq!(c.ollama_model, "qwen3-vl:30b");
    assert_eq!(c.server_port, 3000);
    let mut bad = env.clone();
    bad.server_port = Some("70000".to_string());
    assert_eq!(AppConfig::from_values(bad).unwrap_err(), ConfigError::InvalidPort);
    let mut nopw = env.clone();
    nopw.neo4j_password = None;
    nopw.server_port = Some("x".to_string());
    assert_eq!(AppConfig::from_values(nopw).unwrap_err(), ConfigError::MissingPassword);
    assert_eq!(ConfigError::InvalidPort.message(), "SERVER_PORT must be a valid port number");
    assert_eq!(session_key_text(None), "GLOBAL");
    assert_eq!(session_key_text(Some(SessionId::from_u128(1))), id(1));
    let counts = count_by_key(&vec!["a".to_string(), "b".to_string(), "a".to_string()]);
    assert_eq!(counts, vec![("a".to_string(), 2), ("b".to_string(), 1)]);
}

#[test]
fn challenge_changes_and_parse_errors() {
    let s = ChallengeSettings {
        name: "Climb".to_string(),
        description: "d".to_string(),
        skill_id: 1,
        scene_id: Some(2),
        prerequisite_challenges: vec![],
        active: true,
        order: 0,
        is_favorite: false,
        tags: vec![],
    };
    let none = ChallengeChanges {
        name: None, description: None, skill_id: None, scene_id: None, prerequisite_challenges: None,
        active: None, order: None, is_favorite: None, tags: None,
    };
    let mut c = none.clone();
    c.scene_id = Some(String::new());
    c.prerequisite_challenges = Some(vec![id(5), "no".to_string()]);
    c.order = Some(3);
    let r = apply_challenge_changes(s.clone(), c).unwrap();
    assert_eq!(r.scene_id, None);
    assert_eq!(r.prerequisite_challenges, vec![5]);
    assert_eq!(r.order, 3);
    assert_eq!(r.name, "Climb");
    let mut bad = none.clone();
    bad.skill_id = Some("x".to_string());
    bad.scene_id = Some("y".to_string());
    assert_eq!(apply_challenge_changes(s.clone(), bad).unwrap_err().message, "Invalid skill ID");
    let mut bad2 = none.clone();
    bad2.scene_id = Some("y".to_string());
    assert_eq!(apply_challenge_changes(s, bad2).unwrap_err().message, "Invalid scene ID");
    let e = wrldbldr_engine::ws::parse_error("expected value");
    assert_eq!((e.code.as_str(), e.message.as_str()), ("PARSE_ERROR", "Invalid message format: expected value"));
}

#[test]
fn session_snapshot_json_shape() {
    let mut snap = world_snapshot();
    snap.current_scene_id = Some("s".to_string());
    let j = snap.to_json();
    assert_eq!(j.world.id, id(1));
    assert_eq!(j.world.name, "Realm");
    assert_eq!(j.locations[0].location_type, "Interior");
    assert_eq!(j.locations[0].backdrop_asset, Some("tavern.png".to_string()));
    assert_eq!(j.characters[1].archetype, "Mentor");
    assert_eq!(j.characters[0].portrait_asset, Some("Gandalf.png".to_string()));
    assert_eq!(j.scenes[1].location_id, id(21));
    assert_eq!(j.current_scene_id, Some("s".to_string()));
}

#[test]
fn sheet_values_convert_both_ways() {
    let v = FieldValue::from(FieldValueDto::Resource { current: 3, max: 10 });
    assert!(matches!(v, FieldValue::Resource { current: 3, max: 10 }));
    let d = FieldValueDto::from(FieldValue::SkillEntry { skill_id: "stealth".to_string(), proficient: true, bonus: 2 });
    assert!(matches!(d, FieldValueDto::SkillEntry { ref skill_id, proficient: true, bonus: 2 } if skill_id == "stealth"));
    let l = FieldValue::from(FieldValueDto::List(vec!["a".to_string()]));
    assert!(matches!(l, FieldValue::List(ref x) if x == &vec!["a".to_string()]));
}

#[test]
fn scene_responses() {
    let snap = world_snapshot();
    let r = wrldbldr_engine::content::SceneResponse::from_scene(&snap.scenes[1]);
    assert_eq!(r.act_id, id(60));
    assert_eq!(r.time_context, "Custom(\"midnight\")");
    assert_eq!(r.order, 1);
    assert_eq!(r.backdrop_override, Some("night.png".to_string()));
}

#[test]
fn generation_requests_are_checked_in_order() {
    let req = GenerateAssetRequest {
        entity_type: "Location".to_string(),
        entity_id: "e".to_string(),
        asset_type: "Backdrop".to_string(),
        workflow: "w".to_string(),
        prompt: "p".to_string(),
        negative_prompt: None,
        count: 4,
        style_reference_id: Some(id(9)),
    };
    let c = check_generation_request(&req, Some(7u8)).unwrap();
    assert_eq!((c.asset_type, c.style_reference), (7, Some(9)));
    assert_eq!(check_generation_request(&req, None::<u8>).unwrap_err().message, "Invalid asset type: Backdrop");
    let mut bad = req.clone();
    bad.entity_type = "Planet".to_string();
    assert_eq!(check_generation_request(&bad, None::<u8>).unwrap_err().message, "Invalid entity type: Planet");
    let mut bad_ref = req.clone();
    bad_ref.style_reference_id = Some("r".to_string());
    assert_eq!(check_generation_request(&bad_ref, Some(1u8)).unwrap_err().message, "Invalid style reference ID");
    assert!(check_cancel(&BatchStatus::Queued).is_ok());
    assert_eq!(check_cancel(&BatchStatus::Completed).unwrap_err().message, "Can only cancel queued batches");
    assert_eq!(invalid_asset_type("X").message, "Invalid asset type: X");
}

#[test]
fn interactions_created_and_updated() {
    let req = CreateInteractionRequest {
        name: "Search".to_string(),
        interaction_type: "Examine".to_string(),
        target_type: "Environment".to_string(),
        target_id: None,
        target_description: Some("the desk".to_string()),
        prompt_hints: String::new(),
        allowed_tools: vec!["reveal".to_string()],
        order: 2,
    };
    let n = new_interaction(&id(4), req.clone()).unwrap();
    assert_eq!(n.scene_id, 4);
    assert_eq!(n.interaction_type, InteractionType::Examine);
    assert_eq!(n.target, InteractionTarget::Environment("the desk".to_string()));
    assert!(n.prompt_hints.is_none());
    assert_eq!(new_interaction("s", req.clone()).unwrap_err().message, "Invalid scene ID");
    let mut bad = req.clone();
    bad.target_type = "Item".to_string();
    assert_eq!(new_interaction(&id(4), bad.clone()).unwrap_err().message, "Item target requires target_id");
    let t = InteractionTemplate {
        id: 1,
        scene_id: 4,
        name: "Old".to_string(),
        interaction_type: InteractionType::Attack,
        target: InteractionTarget::NoTarget,
        prompt_hints: "x".to_string(),
        allowed_tools: vec![],
        is_available: false,
        order: 9,
    };
    let u = apply_interaction_update(t.clone(), req).unwrap();
    assert_eq!((u.id, u.name.as_str(), u.order, u.is_available), (1, "Search", 2, false));
    assert_eq!(u.prompt_hints, "");
    assert!(apply_interaction_update(t, bad).is_err());
}
