use wrldbldr_engine::asset::{plan_upload, UploadAssetRequest};
use wrldbldr_engine::character_api::{
    archetype_change, character_changes, new_character, ChangeArchetypeRequestDto,
    CreateCharacterRequestDto,
};
use wrldbldr_engine::content::{
    apply_scene_update, enqueue_failed, scene_update_ids, CreateSceneRequest, SuggestionType,
};
use wrldbldr_engine::ids::WorldId;
use wrldbldr_engine::kinds::{EntityType, RuleSystemInput, RuleSystemType, RuleSystemVariant};
use wrldbldr_engine::rules::{rule_system_catalogue, system_details, PresetSummary};
use wrldbldr_engine::location::{location_changes, CreateLocationRequest};
use wrldbldr_engine::narrative::{new_event_settings, CreateNarrativeEventRequest};
use wrldbldr_engine::sheet::{
    check_no_template, find_section, new_field, new_section, CreateFieldRequest,
    CreateSectionRequest, SheetTemplateResponse,
};
use wrldbldr_engine::skill::{owned_skill, skill_ids, Skill, SkillResponse};
use wrldbldr_engine::world::{CampbellArchetype, LocationType, Scene, TimeContext, TimeOfDay, World};
use wrldbldr_engine::world_api::{
    new_world, world_changes, CreateWorldRequest, UpdateWorldRequest, WorldResponse,
};
use wrldbldr_engine::workflow::{
    deletion_status, invalid_slot, no_workflow, save_status, slot_config_index, slot_status,
    SlotInfo, WorkflowConfigResponse,
};

const W: &str = "00000000-0000-0000-0000-000000000001";
const C: &str = "00000000-0000-0000-0000-000000000002";
const L: &str = "00000000-0000-0000-0000-000000000003";

fn is_custom_id(id: &str) -> bool {
    id.len() == "custom_".len() + 36 && id.starts_with("custom_")
}

#[test]
fn sheet_sections_go_after_the_others() {
    let req = CreateSectionRequest {
        name: "Powers".to_string(),
        description: Some("Special abilities".to_string()),
        layout: Some("grid"),
        collapsible: true,
        collapsed_by_default: false,
    };
    let s = new_section(req, &vec![1, 4, 2]);
    assert!(is_custom_id(&s.id));
    assert_eq!(s.name, "Powers");
    assert_eq!(s.description.as_deref(), Some("Special abilities"));
    assert_eq!(s.layout, Some("grid"));
    assert!(s.collapsible);
    assert!(!s.collapsed);
    assert_eq!(s.order, 5);

    let first = new_section(
        CreateSectionRequest::<u8> {
            name: "Notes".to_string(),
            description: None,
            layout: None,
            collapsible: false,
            collapsed_by_default: true,
        },
        &vec![],
    );
    assert_eq!(first.order, 1);
    assert!(first.collapsed);
    assert_ne!(first.id, s.id);
}

#[test]
fn sheet_fields_go_after_the_others() {
    let f = new_field(
        CreateFieldRequest {
            name: "Sanity".to_string(),
            description: None,
            field_type: 7u8,
            required: true,
            read_only: false,
        },
        &vec![3, 9],
    );
    assert!(is_custom_id(&f.id));
    assert_eq!(f.name, "Sanity");
    assert_eq!(f.field_type, 7);
    assert!(f.required);
    assert!(!f.read_only);
    assert_eq!(f.order, 10);
}

#[test]
fn sheet_section_lookup() {
    let ids = vec!["stats".to_string(), "skills".to_string(), "skills".to_string()];
    assert_eq!(find_section(&ids, "skills").unwrap(), 1);
    assert_eq!(find_section(&ids, "stats").unwrap(), 0);
    let e = find_section(&ids, "gear").unwrap_err();
    assert_eq!(e.status, 404);
    assert_eq!(e.message, "Section not found");
    assert!(check_no_template(false).is_ok());
    let e = check_no_template(true).unwrap_err();
    assert_eq!(e.status, 409);
    assert_eq!(e.message, "World already has a sheet template");
}

#[test]
fn sheet_template_answer() {
    let r = SheetTemplateResponse::from_template(
        "tpl".to_string(),
        1,
        "Default".to_string(),
        "".to_string(),
        RuleSystemVariant::CallOfCthulhu7e,
        vec!["a", "b"],
        true,
    );
    assert_eq!(r.world_id, W);
    assert_eq!(r.variant, "CallOfCthulhu7e");
    assert_eq!(r.sections.len(), 2);
    assert_eq!(RuleSystemVariant::PoweredByApocalypse.debug_name(), "PoweredByApocalypse");
}

fn skill(world: u128) -> Skill<&'static str> {
    Skill {
        id: 2,
        world_id: world,
        name: "Stealth".to_string(),
        description: "Move unseen".to_string(),
        category: "Physical",
        base_attribute: Some("DEX".to_string()),
        is_custom: true,
        is_hidden: false,
        order: 3,
    }
}

#[test]
fn skills_belong_to_their_world() {
    assert_eq!(skill_ids(W, C).unwrap(), (1, 2));
    let e = skill_ids("nope", C).unwrap_err();
    assert_eq!((e.status, e.message.as_str()), (400, "Invalid world ID"));
    let e = skill_ids(W, "nope").unwrap_err();
    assert_eq!((e.status, e.message.as_str()), (400, "Invalid skill ID"));

    assert_eq!(owned_skill(1, Some(skill(1))).unwrap().name, "Stealth");
    let e = owned_skill(1, Some(skill(9))).unwrap_err();
    assert_eq!((e.status, e.message.as_str()), (403, "Skill does not belong to this world"));
    let e = owned_skill::<u8>(1, None).unwrap_err();
    assert_eq!((e.status, e.message.as_str()), (404, "Skill not found"));

    let r = SkillResponse::from_skill(skill(1));
    assert_eq!(r.id, C);
    assert_eq!(r.world_id, W);
    assert_eq!(r.category, "Physical");
    assert_eq!(r.order, 3);
}

#[test]
fn worlds_from_requests() {
    let preset = |v: RuleSystemVariant| format!("preset {:?}", v);
    let w = new_world(
        CreateWorldRequest {
            name: "Arkham".to_string(),
            description: "A town".to_string(),
            rule_system: Some(RuleSystemInput::VariantOnly { variant: RuleSystemVariant::FateCore }),
        },
        preset,
    );
    assert_eq!(w.name, "Arkham");
    assert_eq!(w.rule_system.as_deref(), Some("preset FateCore"));
    let w = new_world(
        CreateWorldRequest {
            name: "B".to_string(),
            description: "".to_string(),
            rule_system: Some(RuleSystemInput::Full("custom".to_string())),
        },
        preset,
    );
    assert_eq!(w.rule_system.as_deref(), Some("custom"));
    let w = new_world(
        CreateWorldRequest::<String> { name: "C".to_string(), description: "".to_string(), rule_system: None },
        preset,
    );
    assert!(w.rule_system.is_none());

    let (id, ch) = world_changes(
        W,
        UpdateWorldRequest { name: "N".to_string(), description: "D".to_string(), rule_system: 5u8 },
    )
    .unwrap();
    assert_eq!(id, 1);
    assert_eq!(ch.name.as_deref(), Some("N"));
    assert_eq!(ch.description.as_deref(), Some("D"));
    assert_eq!(ch.rule_system, Some(5));
    let e = world_changes("x", UpdateWorldRequest { name: "N".to_string(), description: "D".to_string(), rule_system: 5u8 })
        .unwrap_err();
    assert_eq!((e.status, e.message.as_str()), (400, "Invalid world ID"));

    let r = WorldResponse::from_world(
        World { id: WorldId(1), name: "Arkham".to_string(), description: "A town".to_string() },
        0u8,
        "2024-01-01T00:00:00+00:00".to_string(),
        "2024-01-02T00:00:00+00:00".to_string(),
    );
    assert_eq!(r.id, W);
    assert_eq!(r.name, "Arkham");
    assert_eq!(r.updated_at, "2024-01-02T00:00:00+00:00");
}

fn config(slot: &str) -> WorkflowConfigResponse<u8> {
    WorkflowConfigResponse {
        id: slot.to_string(),
        slot: slot.to_string(),
        slot_display_name: slot.to_string(),
        name: "cfg".to_string(),
        node_count: 4,
        input_count: 2,
        prompt_mappings: vec![],
        has_primary_prompt: true,
        has_negative_prompt: false,
        created_at: "".to_string(),
        updated_at: "".to_string(),
    }
}

#[test]
fn workflow_slots() {
    let slots = vec!["character_portrait".to_string(), "location_backdrop".to_string(), "character_portrait".to_string()];
    assert_eq!(slot_config_index("character_portrait", &slots), Some(0));
    assert_eq!(slot_config_index("location_backdrop", &slots), Some(1));
    assert_eq!(slot_config_index("item_icon", &slots), None);

    let info = SlotInfo {
        slot: "item_icon".to_string(),
        display_name: "Item Icon".to_string(),
        category: "Items".to_string(),
        default_width: 512,
        default_height: 512,
    };
    let s = slot_status(info.clone(), None::<WorkflowConfigResponse<u8>>);
    assert!(!s.configured);
    assert_eq!(s.display_name, "Item Icon");
    let s = slot_status(info, Some(config("item_icon")));
    assert!(s.configured);
    assert_eq!(s.config.unwrap().node_count, 4);

    let e = invalid_slot("bogus");
    assert_eq!((e.status, e.message.as_str()), (400, "Invalid slot: bogus"));
    let e = no_workflow("item_icon");
    assert_eq!((e.status, e.message.as_str()), (404, "No workflow configured for slot: item_icon"));
    assert_eq!(save_status(true), 200);
    assert_eq!(save_status(false), 201);
    assert_eq!(deletion_status(true, "x").unwrap(), 204);
    assert_eq!(deletion_status(false, "x").unwrap_err().message, "No workflow configured for slot: x");
}

fn character_request(description: &str, archetype: &str) -> CreateCharacterRequestDto {
    CreateCharacterRequestDto {
        name: "Igor".to_string(),
        description: description.to_string(),
        archetype: archetype.to_string(),
        sprite_asset: Some("igor.png".to_string()),
        portrait_asset: None,
    }
}

#[test]
fn characters_from_requests() {
    let c = new_character(W, character_request("", "Shadow")).unwrap();
    assert_eq!(c.world_id, 1);
    assert_eq!(c.name, "Igor");
    assert!(c.description.is_none());
    assert_eq!(c.archetype, CampbellArchetype::Shadow);
    assert_eq!(c.sprite_asset.as_deref(), Some("igor.png"));
    assert!(c.wants.is_empty());
    let e = new_character("w", character_request("", "Shadow")).unwrap_err();
    assert_eq!((e.status, e.message.as_str()), (400, "Invalid world ID"));

    let (id, ch) = character_changes(C, character_request("Hunchback", "x")).unwrap();
    assert_eq!(id, 2);
    assert_eq!(ch.name.as_deref(), Some("Igor"));
    assert_eq!(ch.description.as_deref(), Some("Hunchback"));
    assert!(ch.is_alive.is_none() && ch.is_active.is_none());
    let e = character_changes("c", character_request("", "x")).unwrap_err();
    assert_eq!((e.status, e.message.as_str()), (400, "Invalid character ID"));

    let (id, a) = archetype_change(
        C,
        ChangeArchetypeRequestDto { archetype: "Mentor".to_string(), reason: "grew wise".to_string() },
    )
    .unwrap();
    assert_eq!(id, 2);
    assert_eq!(a.new_archetype, CampbellArchetype::Mentor);
    assert_eq!(a.reason, "grew wise");
}

fn scene_request(location: &str, time: Option<&str>) -> CreateSceneRequest {
    CreateSceneRequest {
        name: "Crypt".to_string(),
        location_id: location.to_string(),
        time_context: time.map(|t| t.to_string()),
        backdrop_override: None,
        featured_characters: vec![C.to_string(), "bad".to_string()],
        directorial_notes: "".to_string(),
        order: 7,
    }
}

#[test]
fn scenes_changed_by_requests() {
    assert_eq!(scene_update_ids(W, &scene_request(L, None)).unwrap(), (1, 3));
    let e = scene_update_ids("s", &scene_request(L, None)).unwrap_err();
    assert_eq!(e.message, "Invalid scene ID");
    let e = scene_update_ids(W, &scene_request("l", None)).unwrap_err();
    assert_eq!(e.message, "Invalid location ID");

    let old = Scene {
        id: 1,
        act_id: 9,
        name: "Old".to_string(),
        location_id: 5,
        time_context: TimeContext::TimeOfDay(TimeOfDay::Night),
        backdrop_override: Some("old.png".to_string()),
        featured_characters: vec![8],
        directorial_notes: "keep it tense".to_string(),
        order: 1,
    };
    let s = apply_scene_update(old.clone(), 3, scene_request(L, None));
    assert_eq!((s.id, s.act_id, s.location_id, s.order), (1, 9, 3, 7));
    assert_eq!(s.name, "Crypt");
    assert_eq!(s.time_context, TimeContext::TimeOfDay(TimeOfDay::Night));
    assert_eq!(s.directorial_notes, "");
    assert!(s.backdrop_override.is_none());
    assert_eq!(s.featured_characters, vec![2]);
    let s = apply_scene_update(old, 3, scene_request(L, Some("Dusk")));
    assert_eq!(s.time_context, TimeContext::Custom("Dusk".to_string()));
}

fn location_request(parent: Option<&str>) -> CreateLocationRequest {
    CreateLocationRequest {
        name: "Library".to_string(),
        description: "".to_string(),
        location_type: "Exterior".to_string(),
        parent_id: parent.map(|p| p.to_string()),
        backdrop_asset: None,
        backdrop_regions: vec![],
    }
}

#[test]
fn locations_changed_by_requests() {
    let (id, c) = location_changes(L, location_request(Some(W))).unwrap();
    assert_eq!(id, 3);
    assert_eq!(c.name.as_deref(), Some("Library"));
    assert!(c.description.is_none());
    assert_eq!(c.location_type, Some(LocationType::Exterior));
    assert_eq!(c.parent_id, Some(Some(1)));
    assert!(c.grid_map_id.is_none());
    let (_, c) = location_changes(L, location_request(None)).unwrap();
    assert_eq!(c.parent_id, Some(None));
    let e = location_changes("l", location_request(None)).unwrap_err();
    assert_eq!(e.message, "Invalid location ID");
    let e = location_changes(L, location_request(Some("p"))).unwrap_err();
    assert_eq!(e.message, "Invalid parent ID");
}

#[test]
fn uploads_and_suggestions() {
    let req = UploadAssetRequest {
        asset_type: "portrait".to_string(),
        file_path: "/a.png".to_string(),
        label: Some("main".to_string()),
        set_active: true,
    };
    let n = plan_upload(EntityType::Character, C.to_string(), req.clone(), Some(1u8)).unwrap();
    assert_eq!(n.entity_type, EntityType::Character);
    assert_eq!(n.entity_id, C);
    assert_eq!(n.asset_type, 1);
    assert_eq!(n.file_path, "/a.png");
    assert_eq!(n.label.as_deref(), Some("main"));
    assert!(n.activate);
    let e = plan_upload::<u8>(EntityType::Item, "i".to_string(), req, None).unwrap_err();
    assert_eq!((e.status, e.message.as_str()), (400, "Invalid asset type: portrait"));

    assert_eq!(SuggestionType::CharacterBackstory.field_type(), "character_backstory");
    assert_eq!(SuggestionType::LocationSecrets.field_type(), "location_secrets");
    let e = enqueue_failed("queue full");
    assert_eq!((e.status, e.message.as_str()), (500, "Failed to enqueue suggestion: queue full"));
}

#[test]
fn narrative_events_from_requests() {
    let s = new_event_settings(CreateNarrativeEventRequest {
        name: "Storm".to_string(),
        description: "A storm breaks".to_string(),
        scene_direction: "Thunder".to_string(),
        suggested_opening: None,
        is_repeatable: true,
        delay_turns: 2,
        expires_after_turns: Some(5),
        priority: -1,
        is_active: true,
        tags: vec!["weather".to_string()],
    });
    assert_eq!(s.name, "Storm");
    assert_eq!(s.delay_turns, 2);
    assert_eq!(s.expires_after_turns, Some(5));
    assert_eq!(s.priority, -1);
    assert_eq!(s.tags, vec!["weather".to_string()]);
}

#[test]
fn rule_system_catalogue_lists_four_families() {
    let preset = |v: RuleSystemVariant, n: &str| PresetSummary {
        variant: v,
        name: n.to_string(),
        description: String::new(),
    };
    let c = rule_system_catalogue(
        vec![preset(RuleSystemVariant::Dnd5e, "D&D 5e")],
        vec![],
        vec![preset(RuleSystemVariant::FateCore, "FATE"), preset(RuleSystemVariant::KidsOnBikes, "KoB")],
    );
    assert_eq!(c.len(), 4);
    assert_eq!(c[0].system_type, RuleSystemType::D20);
    assert_eq!(c[0].name, "D20 System");
    assert_eq!(c[0].dice_notation, "1d20");
    assert_eq!(c[0].presets[0].name, "D&D 5e");
    assert_eq!(c[1].description, "Roll percentile dice under skill value. Used by Call of Cthulhu, RuneQuest, and similar games.");
    assert_eq!(c[2].presets.len(), 2);
    assert_eq!(c[2].dice_notation, "Varies");
    assert_eq!(c[3].name, "Custom System");
    assert!(c[3].presets.is_empty());

    let d = system_details(RuleSystemType::Narrative, vec![]);
    assert_eq!(d.name, "Narrative System");
    assert_eq!(d.dice_notation, "Varies by game");
    assert_eq!(d.description, "Fiction-first systems where outcomes are described rather than strictly calculated. Dice inform the narrative.");
}

#[test]
fn fresh_ids_are_version_4_uuids() {
    let values = [
        wrldbldr_engine::ids::SessionId::new().0,
        wrldbldr_engine::ids::WorldId::new().0,
        wrldbldr_engine::ids::ClientId::new().0,
    ];
    for v in values {
        assert_eq!((v >> 76) & 0xF, 4);
        assert_eq!((v >> 62) & 0x3, 2);
    }
    assert_ne!(values[0], values[1]);
}
