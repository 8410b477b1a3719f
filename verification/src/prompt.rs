//! Assembling the language model's prompt for a player's action from the
//! session's world snapshot and conversation history.

use crate::ids::{uuid_text, SessionId};
use crate::interaction::{debug_str, str_debug};
use crate::session::{keep_last, ConversationTurn, GameSession, SessionManager};
use crate::text::{eq_ignore_ascii_case, eq_ignore_ascii_case_spec, str_eq, to_owned_string};
use crate::world::{archetype_name, time_context_text, Character, Location, Scene};
use vstd::prelude::*;

verus! {

/// The first element of `s` from position `i` on that satisfies `p`.
pub open spec fn find_from<A>(s: Seq<A>, p: spec_fn(A) -> bool, i: int) -> Option<A>
    decreases s.len() - i,
{
    if i < 0 || i >= s.len() {
        None
    } else if p(s[i]) {
        Some(s[i])
    } else {
        find_from(s, p, i + 1)
    }
}

/// The first element of `s` that satisfies `p`.
pub open spec fn find_first<A>(s: Seq<A>, p: spec_fn(A) -> bool) -> Option<A> {
    find_from(s, p, 0)
}

/// The first character of `chars` with ID `id`.
pub open spec fn character_with_id(chars: Seq<Character>, id: u128) -> Option<Character> {
    find_first(chars, |c: Character| c.id == id)
}

/// The names of the characters with the given IDs, in the IDs' order; an
/// ID that no character has is left out.
pub open spec fn present_names(chars: Seq<Character>, ids: Seq<u128>) -> Seq<String>
    decreases ids.len(),
{
    if ids.len() == 0 {
        Seq::empty()
    } else {
        let rest = present_names(chars, ids.drop_last());
        match character_with_id(chars, ids.last()) {
            Some(c) => rest.push(c.name),
            None => rest,
        }
    }
}

/// A player's action waiting in the queue.
#[derive(Clone, Debug)]
pub struct PlayerActionItem {
    pub session_id: SessionId,
    pub player_id: String,
    pub action_type: String,
    pub target: Option<String>,
    pub dialogue: Option<String>,
}

/// The action as the prompt states it.
#[derive(Clone, Debug)]
pub struct PlayerActionContext {
    pub action_type: String,
    pub target: Option<String>,
    pub dialogue: Option<String>,
}

/// Where the action happens.
#[derive(Clone, Debug)]
pub struct SceneContext {
    pub scene_name: String,
    pub location_name: String,
    pub time_context: String,
    pub present_characters: Vec<String>,
}

/// The character that answers.
#[derive(Clone, Debug)]
pub struct CharacterContext {
    pub name: String,
    pub archetype: String,
    pub current_mood: Option<String>,
    pub wants: Vec<String>,
    pub relationship_to_player: Option<String>,
}

/// One turn of the conversation as the prompt gives it.
#[derive(Clone, Debug)]
pub struct PromptTurn {
    pub speaker: String,
    pub text: String,
}

/// What the language model is asked to answer. The active challenges
/// (`Ch`) and narrative events (`Ev`) are the world model's kinds.
#[derive(Clone, Debug)]
pub struct GamePromptRequest<Ch, Ev> {
    pub player_action: PlayerActionContext,
    pub scene_context: SceneContext,
    pub directorial_notes: String,
    pub conversation_history: Vec<PromptTurn>,
    pub responding_character: CharacterContext,
    pub active_challenges: Vec<Ch>,
    pub active_narrative_events: Vec<Ev>,
}

/// Why no prompt could be built.
#[derive(Clone, Debug)]
pub enum QueueError {
    Backend(String),
    NotFound(String),
}

/// How many turns of the conversation a prompt carries.
pub open spec fn prompt_history_turns() -> nat {
    20
}

/// The scene the action happens in: the snapshot's current scene, found by
/// its ID text, or the first scene when none is set.
pub open spec fn current_scene(scenes: Seq<Scene>, current: Option<String>) -> Option<Scene> {
    match current {
        Some(t) => find_first(scenes, |s: Scene| uuid_text(s.id) == t@),
        None => if scenes.len() > 0 {
            Some(scenes[0])
        } else {
            None
        },
    }
}

/// The character that answers: the first whose name matches the action's
/// target ignoring ASCII case, or, without a target, the scene's first
/// featured character.
pub open spec fn responding_character(
    chars: Seq<Character>,
    scene: Scene,
    target: Option<String>,
) -> Option<Character> {
    match target {
        Some(name) => find_first(chars, |c: Character| eq_ignore_ascii_case_spec(c.name@, name@)),
        None => if scene.featured_characters@.len() > 0 {
            character_with_id(chars, scene.featured_characters@[0])
        } else {
            None
        },
    }
}

fn find_scene_by_text<'a>(scenes: &'a Vec<Scene>, id: &str) -> (r: Option<&'a Scene>)
    ensures
        match r {
            Some(s) => find_first(scenes@, |s: Scene| uuid_text(s.id) == id@) == Some(*s),
            None => find_first(scenes@, |s: Scene| uuid_text(s.id) == id@) is None,
        },
{
    let ghost p = |s: Scene| uuid_text(s.id) == id@;
    let mut i: usize = 0;
    while i < scenes.len()
        invariant
            p == (|s: Scene| uuid_text(s.id) == id@),
            i <= scenes@.len(),
            find_first(scenes@, p) == find_from(scenes@, p, i as int),
        decreases scenes@.len() - i,
    {
        let text = crate::ids::uuid_to_string(scenes[i].id);
        if str_eq(text.as_str(), id) {
            return Some(&scenes[i]);
        }
        i = i + 1;
    }
    None
}

fn find_character_by_id<'a>(chars: &'a Vec<Character>, id: u128) -> (r: Option<&'a Character>)
    ensures
        match r {
            Some(c) => character_with_id(chars@, id) == Some(*c),
            None => character_with_id(chars@, id) is None,
        },
{
    let ghost p = |c: Character| c.id == id;
    let mut i: usize = 0;
    while i < chars.len()
        invariant
            p == (|c: Character| c.id == id),
            i <= chars@.len(),
            find_first(chars@, p) == find_from(chars@, p, i as int),
        decreases chars@.len() - i,
    {
        if chars[i].id == id {
            return Some(&chars[i]);
        }
        i = i + 1;
    }
    None
}

fn find_character_by_name<'a>(chars: &'a Vec<Character>, name: &str) -> (r: Option<&'a Character>)
    ensures
        match r {
            Some(c) => find_first(
                chars@,
                |c: Character| eq_ignore_ascii_case_spec(c.name@, name@),
            ) == Some(*c),
            None => find_first(
                chars@,
                |c: Character| eq_ignore_ascii_case_spec(c.name@, name@),
            ) is None,
        },
{
    let ghost p = |c: Character| eq_ignore_ascii_case_spec(c.name@, name@);
    let mut i: usize = 0;
    while i < chars.len()
        invariant
            p == (|c: Character| eq_ignore_ascii_case_spec(c.name@, name@)),
            i <= chars@.len(),
            find_first(chars@, p) == find_from(chars@, p, i as int),
        decreases chars@.len() - i,
    {
        if eq_ignore_ascii_case(chars[i].name.as_str(), name) {
            return Some(&chars[i]);
        }
        i = i + 1;
    }
    None
}

fn find_location<'a>(locations: &'a Vec<Location>, id: u128) -> (r: Option<&'a Location>)
    ensures
        match r {
            Some(l) => find_first(locations@, |l: Location| l.id == id) == Some(*l),
            None => find_first(locations@, |l: Location| l.id == id) is None,
        },
{
    let ghost p = |l: Location| l.id == id;
    let mut i: usize = 0;
    while i < locations.len()
        invariant
            p == (|l: Location| l.id == id),
            i <= locations@.len(),
            find_first(locations@, p) == find_from(locations@, p, i as int),
        decreases locations@.len() - i,
    {
        if locations[i].id == id {
            return Some(&locations[i]);
        }
        i = i + 1;
    }
    None
}

/// Each of a character's wants as `{:?}` writes it, in order.
fn wants_text(v: &Vec<String>) -> (r: Vec<String>)
    ensures
        r@.len() == v@.len(),
        forall|i: int| 0 <= i < v@.len() ==> (#[trigger] r@[i])@ == str_debug(v@[i]@),
{
    let mut r: Vec<String> = Vec::new();
    let mut i: usize = 0;
    while i < v.len()
        invariant
            i <= v@.len(),
            r@.len() == i,
            forall|j: int| 0 <= j < i ==> (#[trigger] r@[j])@ == str_debug(v@[j]@),
        decreases v@.len() - i,
    {
        r.push(debug_str(v[i].as_str()));
        i = i + 1;
    }
    r
}

fn present_character_names(chars: &Vec<Character>, ids: &Vec<u128>) -> (r: Vec<String>)
    ensures
        r@ == present_names(chars@, ids@),
{
    let mut r: Vec<String> = Vec::new();
    let mut i: usize = 0;
    while i < ids.len()
        invariant
            i <= ids@.len(),
            r@ == present_names(chars@, ids@.take(i as int)),
        decreases ids@.len() - i,
    {
        assert(ids@.take(i + 1).drop_last() == ids@.take(i as int));
        match find_character_by_id(chars, ids[i]) {
            Some(c) => r.push(c.name.clone()),
            None => {},
        }
        i = i + 1;
    }
    assert(ids@.take(i as int) == ids@);
    r
}

fn copy_option(o: &Option<String>) -> (r: Option<String>)
    ensures
        r == *o,
{
    match o {
        Some(s) => Some(s.clone()),
        None => None,
    }
}

fn prompt_turns(turns: &[ConversationTurn]) -> (r: Vec<PromptTurn>)
    ensures
        r@.len() == turns@.len(),
        forall|i: int|
            0 <= i < turns@.len() ==> (#[trigger] r@[i]).speaker == turns@[i].speaker && r@[i].text
                == turns@[i].content,
{
    let mut r: Vec<PromptTurn> = Vec::new();
    let mut i: usize = 0;
    while i < turns.len()
        invariant
            i <= turns@.len(),
            r@.len() == i,
            forall|j: int|
                0 <= j < i ==> (#[trigger] r@[j]).speaker == turns@[j].speaker && r@[j].text
                    == turns@[j].content,
        decreases turns@.len() - i,
    {
        r.push(
            PromptTurn { speaker: turns[i].speaker.clone(), text: turns[i].content.clone() },
        );
        i = i + 1;
    }
    r
}

/// The prompt that `build_prompt_from_action` builds, given the session
/// the action belongs to.
pub open spec fn prompt_for<Ch, Ev>(
    session: GameSession,
    action: PlayerActionItem,
    r: GamePromptRequest<Ch, Ev>,
) -> bool {
    let snap = session.spec_snapshot();
    let scene = current_scene(snap.scenes@, snap.current_scene_id)->0;
    let ch = responding_character(snap.characters@, scene, action.target)->0;
    let loc = find_first(snap.locations@, |l: Location| l.id == scene.location_id);
    let history = keep_last(session.history(), prompt_history_turns());
    &&& r.player_action.action_type == action.action_type
    &&& r.player_action.target == action.target
    &&& r.player_action.dialogue == action.dialogue
    &&& r.scene_context.scene_name == scene.name
    &&& r.scene_context.location_name@ == (match loc {
        Some(l) => l.name@,
        None => "Unknown"@,
    })
    &&& r.scene_context.time_context@ == time_context_text(scene.time_context)
    &&& r.scene_context.present_characters@ == present_names(
        snap.characters@,
        scene.featured_characters@,
    )
    &&& r.directorial_notes == scene.directorial_notes
    &&& r.responding_character.name == ch.name
    &&& r.responding_character.archetype@ == archetype_name(ch.current_archetype)
    &&& r.responding_character.current_mood is None
    &&& r.responding_character.wants@.len() == ch.wants@.len()
    &&& forall|i: int|
        0 <= i < ch.wants@.len() ==> (#[trigger] r.responding_character.wants@[i])@ == str_debug(
            ch.wants@[i]@,
        )
    &&& r.responding_character.relationship_to_player is None
    &&& r.active_challenges@.len() == 0
    &&& r.active_narrative_events@.len() == 0
    &&& r.conversation_history@.len() == history.len()
    &&& forall|i: int|
        0 <= i < history.len() ==> (#[trigger] r.conversation_history@[i]).speaker
            == history[i].speaker && r.conversation_history@[i].text == history[i].content
}

/// Builds the language model's prompt for a player's action from its
/// session: the current scene and its location, the characters present,
/// the answering character and the last 20 turns of the conversation,
/// with no active challenges or narrative events.
/// Fails with `Backend` when the session is missing ("Session not found"),
/// when no scene can be found ("No scenes available in world snapshot") or
/// when no character answers ("No responding character found").
pub fn build_prompt_from_action<Ch, Ev>(
    sessions: &SessionManager,
    action: &PlayerActionItem,
) -> (r: Result<
    GamePromptRequest<Ch, Ev>,
    QueueError,
>)
    ensures
        match r {
            Ok(p) => {
                &&& sessions.spec_sessions().contains_key(action.session_id.0)
                &&& {
                    let snap = sessions.spec_sessions()[action.session_id.0].spec_snapshot();
                    &&& current_scene(snap.scenes@, snap.current_scene_id) is Some
                    &&& responding_character(
                        snap.characters@,
                        current_scene(snap.scenes@, snap.current_scene_id)->0,
                        action.target,
                    ) is Some
                }
                &&& prompt_for(sessions.spec_sessions()[action.session_id.0], *action, p)
            },
            Err(QueueError::Backend(msg)) => {
                if !sessions.spec_sessions().contains_key(action.session_id.0) {
                    msg@ == "Session not found"@
                } else {
                    let snap = sessions.spec_sessions()[action.session_id.0].spec_snapshot();
                    match current_scene(snap.scenes@, snap.current_scene_id) {
                        None => msg@ == "No scenes available in world snapshot"@,
                        Some(scene) => responding_character(
                            snap.characters@,
                            scene,
                            action.target,
                        ) is None && msg@ == "No responding character found"@,
                    }
                }
            },
            Err(QueueError::NotFound(_)) => false,
        },
{
    let session = match sessions.get_session(action.session_id) {
        Some(s) => s,
        None => {
            return Err(QueueError::Backend(to_owned_string("Session not found")));
        },
    };
    let snap = session.world_snapshot();
    let scene = match &snap.current_scene_id {
        Some(id) => find_scene_by_text(&snap.scenes, id.as_str()),
        None => if snap.scenes.len() > 0 {
            Some(&snap.scenes[0])
        } else {
            None
        },
    };
    let scene = match scene {
        Some(s) => s,
        None => {
            return Err(
                QueueError::Backend(to_owned_string("No scenes available in world snapshot")),
            );
        },
    };
    let location = find_location(&snap.locations, scene.location_id);
    let responding = match &action.target {
        Some(name) => find_character_by_name(&snap.characters, name.as_str()),
        None => if scene.featured_characters.len() > 0 {
            find_character_by_id(&snap.characters, scene.featured_characters[0])
        } else {
            None
        },
    };
    let responding = match responding {
        Some(c) => c,
        None => {
            return Err(QueueError::Backend(to_owned_string("No responding character found")));
        },
    };
    let scene_context = SceneContext {
        scene_name: scene.name.clone(),
        location_name: match location {
            Some(l) => l.name.clone(),
            None => to_owned_string("Unknown"),
        },
        time_context: scene.time_context.display_text(),
        present_characters: present_character_names(&snap.characters, &scene.featured_characters),
    };
    let character_context = CharacterContext {
        name: responding.name.clone(),
        archetype: responding.current_archetype.name(),
        current_mood: None,
        wants: wants_text(&responding.wants),
        relationship_to_player: None,
    };
    let history = session.get_recent_history(20);
    Ok(
        GamePromptRequest {
            player_action: PlayerActionContext {
                action_type: action.action_type.clone(),
                target: copy_option(&action.target),
                dialogue: copy_option(&action.dialogue),
            },
            scene_context,
            directorial_notes: scene.directorial_notes.clone(),
            conversation_history: prompt_turns(history),
            responding_character: character_context,
            active_challenges: Vec::new(),
            active_narrative_events: Vec::new(),
        },
    )
}


/// Law: the prompt carries the latest turns of the conversation, at most
/// 20, oldest first: with `k` the smaller of 20 and the history's length,
/// the prompt's turns are the session's last `k` turns in order, so the
/// newest turn (the player's latest) is the prompt's last.
pub proof fn prompt_has_latest_turns<Ch, Ev>(
    session: GameSession,
    action: PlayerActionItem,
    r: GamePromptRequest<Ch, Ev>,
)
    requires
        prompt_for(session, action, r),
    ensures
        ({
            let h = session.history();
            let k = if h.len() > 20 {
                20
            } else {
                h.len()
            };
            &&& r.conversation_history@.len() == k
            &&& forall|i: int|
                0 <= i < k ==> (#[trigger] r.conversation_history@[i]).speaker == h[h.len() - k
                    + i].speaker && r.conversation_history@[i].text == h[h.len() - k + i].content
            &&& h.len() > 0 ==> r.conversation_history@.last().speaker == h.last().speaker
                && r.conversation_history@.last().text == h.last().content
        }),
{
    let h = session.history();
    let k = if h.len() > 20 {
        20
    } else {
        h.len()
    };
    assert forall|i: int| 0 <= i < k implies (#[trigger] r.conversation_history@[i]).speaker == h[h.len()
        - k + i].speaker && r.conversation_history@[i].text == h[h.len() - k + i].content by {
        assert(r.conversation_history@[i].speaker == keep_last(h, 20)[i].speaker);
    }
    if h.len() > 0 {
        let j = k - 1;
        assert(r.conversation_history@[j].speaker == h[h.len() - k + j].speaker);
    }
}

} // verus!
