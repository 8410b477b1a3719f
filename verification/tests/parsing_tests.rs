use wrldbldr_engine::story::{ItemSource, ItemSourceResponse};
use wrldbldr_engine::story::{DmMarkerType, MarkerImportance};
use wrldbldr_engine::stored::{optional_text_from_node, stored_sheet_present};
use wrldbldr_engine::api::{
    connection_error, contains_text, location_delete_error, parse_id, parse_optional_id,
    service_error,
};
use wrldbldr_engine::interaction::{
    parse_interaction_type, parse_target, InteractionTarget, InteractionType,
};
use wrldbldr_engine::kinds::{
    parse_challenge_type, parse_entity_type, parse_monomyth_stage, parse_spatial_relationship,
    parse_system_type, parse_variant, ChallengeType, EntityType, MonomythStage, RuleSystemType,
    RuleSystemVariant, SpatialRelationship,
};
use wrldbldr_engine::stored::{
    ids_from_stored, ids_to_stored, optional_count_from_stored, optional_count_to_stored,
    optional_id_from_stored, optional_id_to_stored, optional_text_from_stored,
    optional_text_to_stored, TriggerLogic,
};
use wrldbldr_engine::story::{
    dm_marker_ids, plan_story_event_query, split_tags, toggled_visibility, CreateDmMarkerRequest,
    DmMarkerTypeRequest, ListStoryEventsQuery, MarkerImportanceRequest, StoryEventSource,
};
use wrldbldr_engine::text::{
    concat_str, eq_ignore_ascii_case, format_u64, parse_u16, parse_u32, parse_u64, trim,
};
use wrldbldr_engine::world::{
    parse_archetype, parse_location_type, CampbellArchetype, LocationType, TimeContext, TimeOfDay,
};

const W: &str = "00000000-0000-0000-0000-000000000001";
const S: &str = "00000000-0000-0000-0000-000000000002";

#[test]
fn text_helpers() {
    assert!(eq_ignore_ascii_case("Gandalf", "gANDALF"));
    assert!(!eq_ignore_ascii_case("Gandalf", "Gandalf "));
    assert_eq!(trim("  hi there \n"), "hi there");
    assert_eq!(trim("   "), "");
    assert_eq!(parse_u32("+42"), Some(42));
    assert_eq!(parse_u32("4294967295"), Some(u32::MAX));
    assert_eq!(parse_u32("4294967296"), None);
    assert_eq!(parse_u32("-1"), None);
    assert_eq!(parse_u32(""), None);
    assert_eq!(parse_u16("65535"), Some(65535));
    assert_eq!(parse_u16("65536"), None);
    assert_eq!(parse_u64("007"), Some(7));
    assert_eq!(format_u64(1234567890123), "1234567890123");
    assert_eq!(format_u64(0), "0");
    assert_eq!(parse_u64(&format_u64(98765)), Some(98765));
    assert_eq!(concat_str("ab", "cd"), "abcd");
    assert!(contains_text("Location not found here", "not found"));
    assert!(!contains_text("nope", "not found"));
    assert!(contains_text("x", ""));
}

#[test]
fn named_kinds_parse_and_round_trip() {
    assert_eq!(parse_location_type("Exterior"), LocationType::Exterior);
    assert_eq!(parse_location_type("exterior"), LocationType::Interior);
    assert_eq!(parse_location_type(&LocationType::Abstract.name()), LocationType::Abstract);
    assert_eq!(parse_archetype("Mentor"), CampbellArchetype::Mentor);
    assert_eq!(parse_archetype("Wizard"), CampbellArchetype::Ally);
    assert_eq!(parse_spatial_relationship("LeadsTo"), SpatialRelationship::LeadsTo);
    assert_eq!(parse_spatial_relationship("Teleports"), SpatialRelationship::ConnectsTo);
    assert_eq!(parse_monomyth_stage("Ordeal"), MonomythStage::Ordeal);
    assert_eq!(parse_monomyth_stage("?"), MonomythStage::OrdinaryWorld);
    assert_eq!(
        parse_monomyth_stage(&MonomythStage::ReturnWithElixir.name()),
        MonomythStage::ReturnWithElixir
    );
    assert_eq!(parse_challenge_type("SavingThrow"), ChallengeType::SavingThrow);
    assert_eq!(parse_challenge_type("Other"), ChallengeType::SkillCheck);
    assert_eq!(TimeOfDay::Evening.name(), "Evening");
    assert_eq!(TimeContext::TimeOfDay(TimeOfDay::Night).display_text(), "Night");
    assert_eq!(TimeContext::During("the feast".to_string()).display_text(), "the feast");
    assert_eq!(TimeContext::Unspecified.display_text(), "Unspecified");
}

#[test]
fn lowercased_kinds() {
    assert_eq!(parse_entity_type("Character"), Some(EntityType::Character));
    assert_eq!(parse_entity_type("ITEM"), Some(EntityType::Item));
    assert_eq!(parse_entity_type("monster"), None);
    assert_eq!(parse_system_type("D20").unwrap(), RuleSystemType::D20);
    let e = parse_system_type("Dice").unwrap_err();
    assert_eq!(e.status, 400);
    assert_eq!(e.message, "Unknown rule system type: Dice. Valid types: d20, d100, narrative, custom");
    assert_eq!(parse_variant("Call-Of-Cthulhu-7e").unwrap(), RuleSystemVariant::CallOfCthulhu7e);
    assert_eq!(parse_variant("fate").unwrap(), RuleSystemVariant::FateCore);
    assert_eq!(parse_variant("PBTA").unwrap(), RuleSystemVariant::PoweredByApocalypse);
    let e = parse_variant("gurps").unwrap_err();
    assert_eq!(e.status, 400);
    assert!(e.message.starts_with("Unknown variant: gurps. Valid variants: dnd5e"));
}

#[test]
fn interaction_kinds_and_targets() {
    assert_eq!(parse_interaction_type("Examine"), InteractionType::Examine);
    assert_eq!(parse_interaction_type("Dance"), InteractionType::Custom("Dance".to_string()));
    assert_eq!(InteractionType::Custom("Dance".to_string()).debug_name(), "Custom(\"Dance\")");
    assert_eq!(InteractionType::PickUp.debug_name(), "PickUp");
    assert_eq!(parse_target("Character", Some(W), None).unwrap(), InteractionTarget::Character(1));
    assert_eq!(parse_target("Character", None, None).unwrap_err().message, "Character target requires target_id");
    assert_eq!(parse_target("Item", Some("x"), None).unwrap_err().message, "Invalid item ID");
    assert_eq!(parse_target("Environment", None, None).unwrap_err().message, "Environment target requires target_description");
    assert_eq!(
        parse_target("Environment", None, Some("the old well")).unwrap(),
        InteractionTarget::Environment("the old well".to_string())
    );
    assert_eq!(parse_target("", None, None).unwrap(), InteractionTarget::NoTarget);
    assert_eq!(parse_target("Whatever", Some("x"), None).unwrap(), InteractionTarget::NoTarget);
    assert_eq!(InteractionTarget::Item(1).travel_name(), Some(format!("Item {}", W)));
    assert_eq!(InteractionTarget::Item(1).scene_name(), Some("Item".to_string()));
    assert_eq!(InteractionTarget::NoTarget.travel_name(), None);
}

#[test]
fn stored_codecs_round_trip() {
    for t in [TriggerLogic::All, TriggerLogic::Any, TriggerLogic::AtLeast(0), TriggerLogic::AtLeast(3), TriggerLogic::AtLeast(u32::MAX)] {
        assert_eq!(TriggerLogic::from_stored(&t.to_stored()), t);
    }
    assert_eq!(TriggerLogic::AtLeast(12).to_stored(), "AtLeast(12)");
    assert_eq!(TriggerLogic::from_stored("AtLeast(AtLeast(5)))"), TriggerLogic::AtLeast(5));
    assert_eq!(TriggerLogic::from_stored("AtLeast(x)"), TriggerLogic::AtLeast(1));
    assert_eq!(TriggerLogic::from_stored("Whatever"), TriggerLogic::All);
    assert_eq!(optional_count_from_stored(optional_count_to_stored(Some(9))), Some(9));
    assert_eq!(optional_count_to_stored(None), -1);
    assert_eq!(optional_count_from_stored(-5), None);
    assert_eq!(optional_count_from_stored(0x1_0000_0003), Some(3));
    assert_eq!(optional_text_to_stored(&None), "");
    assert_eq!(optional_text_from_stored(String::new()), None);
    assert_eq!(optional_text_from_stored("x".to_string()), Some("x".to_string()));
    assert_eq!(optional_id_to_stored(Some(2)), S);
    assert_eq!(optional_id_from_stored(S), Some(2));
    assert_eq!(optional_id_from_stored(""), None);
    assert_eq!(optional_id_from_stored("bad"), None);
    let ids = ids_from_stored(&vec![W.to_string(), "junk".to_string(), S.to_string()]);
    assert_eq!(ids, vec![1, 2]);
    assert_eq!(ids_to_stored(&ids), vec![W.to_string(), S.to_string()]);
}

#[test]
fn api_id_checks_and_error_classes() {
    assert_eq!(parse_id(W, "Invalid world ID").unwrap(), 1);
    let e = parse_id("w", "Invalid world ID").unwrap_err();
    assert_eq!((e.status, e.message.as_str()), (400, "Invalid world ID"));
    assert_eq!(parse_optional_id(&None, "m").unwrap(), None);
    assert_eq!(parse_optional_id(&Some(S.to_string()), "m").unwrap(), Some(2));
    let e = service_error("Character not found in store".to_string(), "Character not found");
    assert_eq!((e.status, e.message.as_str()), (404, "Character not found"));
    let e = service_error("boom".to_string(), "Character not found");
    assert_eq!((e.status, e.message.as_str()), (500, "boom"));
    assert_eq!(location_delete_error("has child locations".to_string()).status, 409);
    assert_eq!(location_delete_error("x not found".to_string()).message, "Location not found");
    assert_eq!(connection_error("cannot connect a location to itself".to_string()).status, 400);
    assert_eq!(connection_error("locations in different worlds".to_string()).status, 400);
    assert_eq!(connection_error("oops".to_string()).status, 500);
}

fn empty_query() -> ListStoryEventsQuery {
    ListStoryEventsQuery {
        limit: None,
        offset: None,
        session_id: None,
        character_id: None,
        location_id: None,
        visible_only: None,
        tags: None,
        search: None,
    }
}

#[test]
fn story_query_planning() {
    let p = plan_story_event_query(W, empty_query()).unwrap();
    assert_eq!((p.world_id, p.limit, p.offset), (1, 50, 0));
    assert!(matches!(p.source, StoryEventSource::Paginated));
    let mut q = empty_query();
    q.limit = Some(500);
    q.offset = Some(7);
    q.visible_only = Some(true);
    let p = plan_story_event_query(W, q).unwrap();
    assert_eq!((p.limit, p.offset), (200, 7));
    assert!(matches!(p.source, StoryEventSource::Visible));
    let mut q = empty_query();
    q.tags = Some(" battle, magic ,,".to_string());
    q.search = Some("dragon".to_string());
    match plan_story_event_query(W, q).unwrap().source {
        StoryEventSource::ByTags(t) => assert_eq!(t, vec!["battle", "magic", "", ""]),
        _ => panic!("tags win over search"),
    }
    let mut q = empty_query();
    q.session_id = Some(S.to_string());
    q.character_id = Some("bad".to_string());
    assert!(matches!(plan_story_event_query(W, q).unwrap().source, StoryEventSource::BySession(2)));
    let mut q = empty_query();
    q.character_id = Some("bad".to_string());
    assert_eq!(plan_story_event_query(W, q).unwrap_err().message, "Invalid character ID");
    assert_eq!(plan_story_event_query("w", empty_query()).unwrap_err().message, "Invalid world ID");
    assert_eq!(split_tags(""), vec![""]);
    assert!(toggled_visibility(false));
}

#[test]
fn dm_marker_checks_and_defaults() {
    assert_eq!(MarkerImportanceRequest::default(), MarkerImportanceRequest::Minor);
    assert_eq!(DmMarkerTypeRequest::default(), DmMarkerTypeRequest::Note);
    let mut req = CreateDmMarkerRequest {
        session_id: S.to_string(),
        title: "t".to_string(),
        note: "n".to_string(),
        importance: MarkerImportanceRequest::Major,
        marker_type: DmMarkerTypeRequest::PlotPoint,
        scene_id: Some(W.to_string()),
        location_id: None,
        game_time: None,
        tags: vec![],
        is_hidden: false,
    };
    let ids = dm_marker_ids(&req).unwrap();
    assert_eq!((ids.session_id, ids.scene_id, ids.location_id), (2, Some(1), None));
    req.location_id = Some("zz".to_string());
    assert_eq!(dm_marker_ids(&req).unwrap_err().message, "Invalid location ID");
    req.scene_id = Some("zz".to_string());
    assert_eq!(dm_marker_ids(&req).unwrap_err().message, "Invalid scene ID");
    req.session_id = "zz".to_string();
    assert_eq!(dm_marker_ids(&req).unwrap_err().message, "Invalid session ID");
}

#[test]
fn node_texts_and_sheets() {
    assert_eq!(optional_text_from_node(None), None);
    assert_eq!(optional_text_from_node(Some(String::new())), None);
    assert_eq!(optional_text_from_node(Some("a".to_string())), Some("a".to_string()));
    assert!(!stored_sheet_present(""));
    assert!(!stored_sheet_present("{}"));
    assert!(stored_sheet_present("{\"values\":{}}"));
}

#[test]
fn marker_kinds_convert_both_ways() {
    assert_eq!(MarkerImportance::from(MarkerImportanceRequest::Critical), MarkerImportance::Critical);
    assert_eq!(MarkerImportanceRequest::from(MarkerImportance::Notable), MarkerImportanceRequest::Notable);
    assert_eq!(DmMarkerType::from(DmMarkerTypeRequest::Foreshadowing), DmMarkerType::Foreshadowing);
    let back: DmMarkerTypeRequest = DmMarkerType::PlayerDecision.into();
    assert_eq!(back, DmMarkerTypeRequest::PlayerDecision);
}

#[test]
fn item_sources_name_givers_by_id() {
    match ItemSourceResponse::from_item_source(ItemSource::Gifted { from: 2 }) {
        ItemSourceResponse::Gifted { from } => assert_eq!(from, S),
        _ => panic!("wrong source"),
    }
    assert!(matches!(ItemSourceResponse::from_item_source(ItemSource::Crafted), ItemSourceResponse::Crafted));
    match ItemSourceResponse::from_item_source(ItemSource::Purchased { from: "shop".to_string(), cost: Some("5gp".to_string()) }) {
        ItemSourceResponse::Purchased { from, cost } => assert_eq!((from.as_str(), cost), ("shop", Some("5gp".to_string()))),
        _ => panic!("wrong source"),
    }
}
