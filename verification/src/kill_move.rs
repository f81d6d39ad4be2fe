//! Kill moves (`km`): the patches that add a player and an NPC root state, with their
//! synchronized clips, to `meshes\actors\character\behaviors\0_master.xml`.
use vstd::prelude::*;

use crate::fnis_anim::{
    active_modifier_text, binding_set_text, binding_text, clip_generator_text, clip_trigger_text,
    event_id_variable, event_property_text, modifier_generator_text, new_push_transitions_seq_patch,
    pair_view, pairs_view, patch2, patch3, patch_of, ptr_object_text, spec_active_modifier,
    spec_binding, spec_binding_set, spec_clip_generator, spec_clip_trigger, spec_event_property,
    spec_modifier_generator, spec_ptr_object, spec_push_transitions, spec_state_info,
    spec_state_machine, spec_sync_clip_generator, state_id_of, state_id_text, state_info_text,
    state_machine_text, string_payload_text, sync_clip_generator_text, FnisAnimFlags, PatchPair,
};
use crate::fnis_names::{kill_move_names, numbered};
use crate::fnis_paths::spec_animation_path;
use crate::json::{json_array, json_array_text, json_string, json_string_text, texts};
use crate::offset_arm::{opt_text, spec_anim_object_patches};

verus! {

/// A trigger of an FNIS animation (`<event>/<time>`): its event and its time, as the
/// decimal text that the list gives.
#[derive(Debug, Clone, PartialEq, Eq)]
pub struct Trigger {
    pub event: String,
    pub time: String,
}

/// A paired animation or kill move entry (`pa`, `km`) of an FNIS list, as patch
/// generation reads it.
#[derive(Debug, Clone, PartialEq, Eq)]
pub struct PairedAndKillAnimation {
    /// The player's animation event.
    pub anim_event: String,
    /// The animation file relative to the namespace directory.
    pub anim_file: String,
    /// Its flags.
    pub flags: FnisAnimFlags,
    /// The clip duration (`D<time>`), as decimal text.
    pub duration: String,
    /// The triggers of the first actor (`T...`).
    pub triggers: Vec<Trigger>,
    /// The triggers of the second actor (`T2_...`).
    pub triggers2: Vec<Trigger>,
    /// Its animation objects, in list order.
    pub anim_objects: Vec<AnimObject>,
}

/// Which actor of a paired animation an animation object belongs to.
#[derive(Debug, Clone, Copy, PartialEq, Eq)]
pub enum ActorRole {
    /// The first actor (the player's side).
    Active,
    /// The second actor (the NPC's side).
    Passive,
}

/// An animation object of a paired animation or kill move: its name and its actor.
#[derive(Debug, Clone, PartialEq, Eq)]
pub struct AnimObject {
    pub name: String,
    pub role: ActorRole,
}

/// The names of animation objects.
pub open spec fn object_names(objects: Seq<AnimObject>) -> Seq<String> {
    objects.map_values(|o: AnimObject| o.name)
}

/// The clip triggers of one actor: the start event `event_id` at 0, one trigger per list
/// trigger (its event as a Nemesis variable), and the end events `end_ids` at `duration`.
pub open spec fn spec_trigger_list(
    event_id: Seq<char>,
    triggers: Seq<Trigger>,
    duration: Seq<char>,
    end_ids: Seq<Seq<char>>,
) -> Seq<Seq<char>> {
    seq![spec_clip_trigger("0.0"@, event_id)] + Seq::new(
        triggers.len(),
        |i: int|
            spec_clip_trigger(triggers[i].time@, json_string(event_id_variable(triggers[i].event@))),
    ) + Seq::new(end_ids.len(), |i: int| spec_clip_trigger(duration, end_ids[i]))
}

fn trigger_list_text(event_id: &str, triggers: &Vec<Trigger>, duration: &str, end_ids: &Vec<&str>) -> (r:
    String)
    ensures
        r@ == json_array(spec_trigger_list(event_id@, triggers@, duration@, texts_of(end_ids@))),
{
    let mut items: Vec<String> = Vec::new();
    items.push(clip_trigger_text("0.0", event_id));
    let mut i: usize = 0;
    while i < triggers.len()
        invariant
            i <= triggers@.len(),
            texts(items@) =~= seq![spec_clip_trigger("0.0"@, event_id@)] + Seq::new(
                i as nat,
                |j: int|
                    spec_clip_trigger(
                        triggers@[j].time@,
                        json_string(event_id_variable(triggers@[j].event@)),
                    ),
            ),
        decreases triggers@.len() - i,
    {
        let mut id = String::from_str("$eventID[");
        id.append(triggers[i].event.as_str());
        id.append("]$");
        let quoted = json_string_text(id.as_str());
        let item = clip_trigger_text(triggers[i].time.as_str(), quoted.as_str());
        let ghost before = items@;
        items.push(item);
        proof {
            assert(id@ == event_id_variable(triggers@[i as int].event@));
            assert(texts(items@) =~= texts(before).push(item@));
        }
        i = i + 1;
    }
    let ghost head = texts(items@);
    let mut k: usize = 0;
    while k < end_ids.len()
        invariant
            k <= end_ids@.len(),
            texts(items@) =~= head + Seq::new(k as nat, |j: int| spec_clip_trigger(duration@, end_ids@[j]@)),
        decreases end_ids@.len() - k,
    {
        let item = clip_trigger_text(duration, end_ids[k]);
        let ghost before = items@;
        items.push(item);
        proof {
            assert(texts(items@) =~= texts(before).push(item@));
        }
        k = k + 1;
    }
    assert(texts(items@) =~= spec_trigger_list(event_id@, triggers@, duration@, texts_of(end_ids@)));
    json_array_text(&items)
}

/// The texts of a list of string slices.
pub open spec fn texts_of(items: Seq<&str>) -> Seq<Seq<char>> {
    items.map_values(|x: &str| x@)
}

/// The events of a kill move's event state: head tracking off (`366`) three times unless
/// the animation keeps it, then loading and drawing (`937`, `936`) the animation object,
/// if any.
pub open spec fn spec_kill_events(flags: FnisAnimFlags, anim_object: Option<Seq<char>>) -> Seq<Seq<char>> {
    (if flags.head_tracking {
        Seq::empty()
    } else {
        seq![
            spec_event_property("366"@, "#0000"@),
            spec_event_property("366"@, "#0000"@),
            spec_event_property("366"@, "#0000"@),
        ]
    }) + match anim_object {
        Some(o) => seq![spec_event_property("937"@, o), spec_event_property("936"@, o)],
        None => Seq::empty(),
    }
}

fn kill_events_text(flags: FnisAnimFlags, anim_object: Option<&str>) -> (r: String)
    ensures
        r@ == json_array(spec_kill_events(flags, opt_text(anim_object))),
{
    let mut events: Vec<String> = Vec::new();
    if !flags.head_tracking {
        events.push(event_property_text("366", "#0000"));
        events.push(event_property_text("366", "#0000"));
        events.push(event_property_text("366", "#0000"));
    }
    if let Some(o) = anim_object {
        events.push(event_property_text("937", o));
        events.push(event_property_text("936", o));
    }
    assert(texts(events@) =~= spec_kill_events(flags, opt_text(anim_object)));
    json_array_text(&events)
}

/// `enterNotifyEvents` of an event state.
pub open spec fn spec_event_state_enter(flags: FnisAnimFlags, event_array: Seq<char>) -> Seq<char> {
    if flags.anim_objects {
        event_array
    } else if flags.head_tracking {
        "#0000"@
    } else {
        "#FNIS_aa_global_auto_gen2526"@
    }
}

/// `exitNotifyEvents` of an event state.
pub open spec fn spec_event_state_exit(flags: FnisAnimFlags) -> Seq<char> {
    if flags.head_tracking && flags.anim_objects {
        "#FNIS_aa_global_auto_gen2528"@
    } else if flags.head_tracking {
        "#0000"@
    } else if flags.anim_objects {
        "#FNIS_aa_global_auto_gen2529"@
    } else {
        "#FNIS_aa_global_auto_gen2527"@
    }
}

pub(crate) fn event_state_events(flags: FnisAnimFlags, event_array: &str) -> (r: (&str, &'static str))
    ensures
        r.0@ == spec_event_state_enter(flags, event_array@),
        r.1@ == spec_event_state_exit(flags),
{
    let enter = if flags.anim_objects {
        event_array
    } else if flags.head_tracking {
        "#0000"
    } else {
        "#FNIS_aa_global_auto_gen2526"
    };
    let exit = if flags.head_tracking && flags.anim_objects {
        "#FNIS_aa_global_auto_gen2528"
    } else if flags.head_tracking {
        "#0000"
    } else if flags.anim_objects {
        "#FNIS_aa_global_auto_gen2529"
    } else {
        "#FNIS_aa_global_auto_gen2527"
    };
    (enter, exit)
}

/// `enterNotifyEvents` of the player's root state.
pub open spec fn spec_player_root_enter(flags: FnisAnimFlags) -> Seq<char> {
    if flags.animated_camera_set {
        "#FNIS_aa_global_auto_gen2530"@
    } else {
        "#0000"@
    }
}

/// `exitNotifyEvents` of a root state.
pub open spec fn spec_root_exit(flags: FnisAnimFlags) -> Seq<char> {
    if flags.animated_camera_reset {
        "#FNIS_aa_global_auto_gen2532"@
    } else {
        "#0000"@
    }
}

/// `enterNotifyEvents` of the NPC's root state.
pub open spec fn spec_npc_root_enter(flags: FnisAnimFlags) -> Seq<char> {
    if flags.animated_camera_set {
        "#FNIS_aa_global_auto_gen2534"@
    } else {
        "#FNIS_aa_global_auto_gen2533"@
    }
}

pub(crate) fn root_events(flags: FnisAnimFlags) -> (r: (&'static str, &'static str, &'static str))
    ensures
        r.0@ == spec_player_root_enter(flags),
        r.1@ == spec_npc_root_enter(flags),
        r.2@ == spec_root_exit(flags),
{
    let player = if flags.animated_camera_set {
        "#FNIS_aa_global_auto_gen2530"
    } else {
        "#0000"
    };
    let npc = if flags.animated_camera_set {
        "#FNIS_aa_global_auto_gen2534"
    } else {
        "#FNIS_aa_global_auto_gen2533"
    };
    let exit = if flags.animated_camera_reset {
        "#FNIS_aa_global_auto_gen2532"
    } else {
        "#0000"
    };
    (player, npc, exit)
}

/// A one-binding array.
pub open spec fn spec_one_binding(member_path: Seq<char>, variable_index: Seq<char>) -> Seq<char> {
    json_array(seq![spec_binding(member_path, variable_index)])
}

pub(crate) fn one_binding_text(member_path: &str, variable_index: &str) -> (r: String)
    ensures
        r@ == spec_one_binding(member_path@, variable_index@),
{
    let items = vec![binding_text(member_path, variable_index)];
    assert(texts(items@) =~= seq![spec_binding(member_path@, variable_index@)]);
    json_array_text(&items)
}

/// A one-state array.
pub open spec fn spec_one_state(state: Seq<char>) -> Seq<char> {
    json_array(seq![json_string(state)])
}

pub(crate) fn one_state_text(state: &str) -> (r: String)
    ensures
        r@ == spec_one_state(state@),
{
    let items = vec![json_string_text(state)];
    assert(texts(items@) =~= seq![json_string(state@)]);
    json_array_text(&items)
}

/// The first animation object's class index, if the animation has `n` objects.
pub open spec fn spec_anim_object(ci: Seq<Seq<char>>, n: int, k: int) -> Option<Seq<char>> {
    if n > k {
        Some(ci[26 + k])
    } else {
        None
    }
}

/// The root state of the player (`state_name`, with the state id of that name) whose
/// generator is `generator_index`; the animated camera flags choose its notify events.
pub fn make_player_root_state_info_patch(
    class_index: &str,
    generator_index: &str,
    flags: FnisAnimFlags,
    priority: usize,
    state_name: &str,
) -> (r: PatchPair)
    ensures
        pair_view(r) == patch_of(
            seq![class_index@, "hkbStateMachineStateInfo"@],
            spec_state_info(class_index@, spec_player_root_enter(flags), spec_root_exit(flags), "#0000"@, generator_index@, state_name@, state_id_text(state_name@)),
            priority,
        ),
{
    let (enter, _, exit) = root_events(flags);
    patch2(class_index, "hkbStateMachineStateInfo", state_info_text(class_index, enter, exit, "#0000", generator_index, state_name, state_id_of(state_name)), priority)
}

/// The root state of the NPC, as [`make_player_root_state_info_patch`] with the NPC's enter
/// events.
pub fn make_npc_root_state_info_patch(
    class_index: &str,
    generator_index: &str,
    flags: FnisAnimFlags,
    priority: usize,
    state_name: &str,
) -> (r: PatchPair)
    ensures
        pair_view(r) == patch_of(
            seq![class_index@, "hkbStateMachineStateInfo"@],
            spec_state_info(class_index@, spec_npc_root_enter(flags), spec_root_exit(flags), "#0000"@, generator_index@, state_name@, state_id_text(state_name@)),
            priority,
        ),
{
    let (_, enter, exit) = root_events(flags);
    patch2(class_index, "hkbStateMachineStateInfo", state_info_text(class_index, enter, exit, "#0000", generator_index, state_name, state_id_of(state_name)), priority)
}

/// The event state `state_name` (state id 0) whose generator is `generator_index`; its
/// notify events follow the animation object and head tracking flags, entering through the
/// event array `enter_notify_events_index` when the animation has objects.
pub fn make_event_state_info_patch(
    class_index: &str,
    flags: FnisAnimFlags,
    enter_notify_events_index: &str,
    generator_index: &str,
    priority: usize,
    state_name: &str,
) -> (r: PatchPair)
    ensures
        pair_view(r) == patch_of(
            seq![class_index@, "hkbStateMachineStateInfo"@],
            spec_state_info(class_index@, spec_event_state_enter(flags, enter_notify_events_index@), spec_event_state_exit(flags), "#0000"@, generator_index@, state_name@, "0"@),
            priority,
        ),
{
    let (enter, exit) = event_state_events(flags, enter_notify_events_index);
    patch2(class_index, "hkbStateMachineStateInfo", state_info_text(class_index, enter, exit, "#0000", generator_index, state_name, String::from_str("0")), priority)
}

/// A synchronized clip generator named `event` that does not lead and has no prefix.
pub fn new_synchronized_clip_generator(class_index: &str, event: &str, generator_index: &str, priority: usize) -> (r:
    PatchPair)
    ensures
        pair_view(r) == patch_of(
            seq![class_index@, "BSSynchronizedClipGenerator"@],
            spec_sync_clip_generator(class_index@, event@, generator_index@, "null"@, "false"@),
            priority,
        ),
{
    patch2(class_index, "BSSynchronizedClipGenerator", sync_clip_generator_text(class_index, event, generator_index, "null", "false"), priority)
}

/// The event array of a kill move actor's event state, with [`spec_kill_events`].
pub fn new_event_property_array(flags: FnisAnimFlags, anim_object_index: Option<&str>, class_index: &str, priority: usize) -> (r:
    PatchPair)
    ensures
        pair_view(r) == patch_of(
            seq![class_index@, "hkbStateMachineEventPropertyArray"@],
            spec_ptr_object(class_index@, "events"@, json_array(spec_kill_events(flags, opt_text(anim_object_index)))),
            priority,
        ),
{
    patch2(class_index, "hkbStateMachineEventPropertyArray", ptr_object_text(class_index, "events", kill_events_text(flags, anim_object_index)), priority)
}

/// The player's half of a kill move's single-value patches: its root state
/// (`class_indexes[0]`) down to the NPC trigger array (`[11]`).
pub open spec fn spec_kill_player(
    anim: PairedAndKillAnimation,
    namespace: Seq<char>,
    p: usize,
    ci: Seq<Seq<char>>,
) -> Seq<(Seq<Seq<char>>, (Seq<char>, usize))> {
    let flags = anim.flags;
    let pr = numbered("Player_FNISkm"@, p as nat);
    let npc_event = "pa_"@ + anim.anim_event@;
    let anim_path = spec_animation_path(namespace, anim.anim_file@);
    seq![
        patch_of(seq![ci[0], "hkbStateMachineStateInfo"@], spec_state_info(ci[0], spec_player_root_enter(flags), spec_root_exit(flags), "#0000"@, ci[1], pr, state_id_text(pr)), p),
        patch_of(seq![ci[1], "hkbModifierGenerator"@], spec_modifier_generator(ci[1], pr + "_ModGen"@, ci[14], ci[2]), p),
        patch_of(seq![ci[2], "hkbStateMachine"@], spec_state_machine(ci[2], ci[3], pr + "$_Behavior"@, spec_one_state(ci[4])), p),
        patch_of(seq![ci[3], "hkbVariableBindingSet"@], spec_binding_set(ci[3], spec_one_binding("isActive"@, "51"@)), p),
        patch_of(seq![ci[4], "hkbStateMachineStateInfo"@], spec_state_info(ci[4], "#0000"@, "#0000"@, "#0000"@, ci[5], pr + "_DisablePitch"@, "0"@), p),
        patch_of(seq![ci[5], "hkbStateMachine"@], spec_state_machine(ci[5], ci[6], pr + "_DisablePitch_Behavior"@, spec_one_state(ci[7])), p),
        patch_of(seq![ci[6], "hkbVariableBindingSet"@], spec_binding_set(ci[6], spec_one_binding("isActive"@, "58"@)), p),
        patch_of(seq![ci[7], "hkbStateMachineStateInfo"@], spec_state_info(ci[7], spec_event_state_enter(flags, ci[8]), spec_event_state_exit(flags), "#0000"@, ci[9], npc_event, "0"@), p),
        patch_of(seq![ci[8], "hkbStateMachineEventPropertyArray"@], spec_ptr_object(ci[8], "events"@, json_array(spec_kill_events(flags, spec_anim_object(ci, anim.anim_objects@.len() as int, 0)))), p),
        patch_of(seq![ci[9], "BSSynchronizedClipGenerator"@], spec_sync_clip_generator(ci[9], npc_event, ci[10], "null"@, "false"@), p),
        patch_of(seq![ci[10], "hkbClipGenerator"@], spec_clip_generator(ci[10], numbered("Paired_FNISkm"@, p as nat), anim_path, ci[11], "MODE_SINGLE_PLAY"@), p),
        patch_of(seq![ci[11], "hkbClipTriggerArray"@], spec_ptr_object(ci[11], "triggers"@, json_array(spec_trigger_list("615"@, anim.triggers@, anim.duration@, seq!["156"@, "616"@, "1070"@]))), p),
    ]
}

/// The NPC's half of a kill move's single-value patches: its root state
/// (`class_indexes[12]`) down to the player trigger array (`[25]`).
pub open spec fn spec_kill_npc(
    anim: PairedAndKillAnimation,
    namespace: Seq<char>,
    p: usize,
    ci: Seq<Seq<char>>,
) -> Seq<(Seq<Seq<char>>, (Seq<char>, usize))> {
    let flags = anim.flags;
    let nr = numbered("NPC_FNISkm"@, p as nat);
    let player_event = anim.anim_event@;
    let anim_path = spec_animation_path(namespace, anim.anim_file@);
    seq![
        patch_of(seq![ci[12], "hkbStateMachineStateInfo"@], spec_state_info(ci[12], spec_npc_root_enter(flags), spec_root_exit(flags), "#0000"@, ci[13], nr, state_id_text(nr)), p),
        patch_of(seq![ci[13], "hkbModifierGenerator"@], spec_modifier_generator(ci[13], nr + "_ModGen"@, ci[14], ci[16]), p),
        patch_of(seq![ci[14], "BSIsActiveModifier"@], spec_active_modifier(ci[14], ci[15], numbered("FNISkm"@, p as nat) + "_ActiveModifier"@), p),
        patch_of(seq![ci[15], "hkbVariableBindingSet"@], spec_binding_set(ci[15], spec_one_binding("bIsActive0"@, "213"@)), p),
        patch_of(seq![ci[16], "hkbStateMachine"@], spec_state_machine(ci[16], ci[17], nr + "_Behavior"@, spec_one_state(ci[18])), p),
        patch_of(seq![ci[17], "hkbVariableBindingSet"@], spec_binding_set(ci[17], spec_one_binding("bIsActive0"@, "51"@)), p),
        patch_of(seq![ci[18], "hkbStateMachineStateInfo"@], spec_state_info(ci[18], "#0000"@, "#0000"@, "#0000"@, ci[19], nr + "_DisablePitch"@, "0"@), p),
        patch_of(seq![ci[19], "hkbStateMachine"@], spec_state_machine(ci[19], ci[20], nr + "_DisablePitch_Behavior"@, spec_one_state(ci[21])), p),
        patch_of(seq![ci[20], "hkbVariableBindingSet"@], spec_binding_set(ci[20], spec_one_binding("isActive"@, "58"@)), p),
        patch_of(seq![ci[21], "hkbStateMachineStateInfo"@], spec_state_info(ci[21], spec_event_state_enter(flags, ci[22]), spec_event_state_exit(flags), "#0000"@, ci[23], player_event, "0"@), p),
        patch_of(seq![ci[22], "hkbStateMachineEventPropertyArray"@], spec_ptr_object(ci[22], "events"@, json_array(spec_kill_events(flags, spec_anim_object(ci, anim.anim_objects@.len() as int, 1)))), p),
        patch_of(seq![ci[23], "BSSynchronizedClipGenerator"@], spec_sync_clip_generator(ci[23], player_event, ci[24], json_string("2_"@), "true"@), p),
        patch_of(seq![ci[24], "hkbClipGenerator"@], spec_clip_generator(ci[24], numbered("NPCPaired_FNISkm"@, p as nat), anim_path, ci[25], "MODE_SINGLE_PLAY"@), p),
        patch_of(seq![ci[25], "hkbClipTriggerArray"@], spec_ptr_object(ci[25], "triggers"@, json_array(spec_trigger_list("614"@, anim.triggers2@, anim.duration@, seq!["622"@, "167"@, "1120"@]))), p),
    ]
}

/// The single-value patches of a kill move: its animation objects (class indexes from 26
/// on), then the player's half and the NPC's half.
pub open spec fn spec_kill_one(
    anim: PairedAndKillAnimation,
    namespace: Seq<char>,
    p: usize,
    ci: Seq<Seq<char>>,
) -> Seq<(Seq<Seq<char>>, (Seq<char>, usize))> {
    spec_anim_object_patches(object_names(anim.anim_objects@), ci, 26, p) + spec_kill_player(anim, namespace, p, ci)
        + spec_kill_npc(anim, namespace, p, ci)
}

/// The array patches of a kill move: the two wildcard transitions of `0_master`'s
/// transition array `#0789` (player event to the player's root state, `pa_` event to the
/// NPC's), and the two root states pushed to the state machine `#0788`.
pub open spec fn spec_kill_seq(anim: PairedAndKillAnimation, p: usize, ci: Seq<Seq<char>>) -> Seq<
    (Seq<Seq<char>>, (Seq<char>, usize)),
> {
    seq![
        spec_push_transitions(
            "#0789"@,
            (anim.anim_event@, "pa_"@ + anim.anim_event@),
            (numbered("Player_FNISkm"@, p as nat), numbered("NPC_FNISkm"@, p as nat)),
            p,
        ),
        patch_of(
            seq!["#0788"@, "hkbStateMachine"@, "states"@],
            json_array(seq![json_string(ci[0]), json_string(ci[12])]),
            p,
        ),
    ]
}

/// The wildcard transitions of a kill move reach the root states it pushes: the state
/// machine `#0788` gets class names 0 and 12, the state infos at those class names are
/// the player's and the NPC's root states, and the transitions of `#0789` lead, on the
/// player's event and on its `pa_` event, to the state ids of those two names.
pub proof fn lemma_kill_move_transitions_reach_root_states(
    anim: PairedAndKillAnimation,
    namespace: Seq<char>,
    p: usize,
    ci: Seq<Seq<char>>,
)
    requires
        ci.len() == 26 + anim.anim_objects@.len(),
    ensures
        ({
            let pr = numbered("Player_FNISkm"@, p as nat);
            let nr = numbered("NPC_FNISkm"@, p as nat);
            let n = anim.anim_objects@.len() as int;
            let one = spec_kill_one(anim, namespace, p, ci);
            let sq = spec_kill_seq(anim, p, ci);
            &&& sq[1] == patch_of(
                seq!["#0788"@, "hkbStateMachine"@, "states"@],
                json_array(seq![json_string(ci[0]), json_string(ci[12])]),
                p,
            )
            &&& sq[0] == spec_push_transitions("#0789"@, (anim.anim_event@, "pa_"@ + anim.anim_event@), (pr, nr), p)
            &&& one[n] == patch_of(
                seq![ci[0], "hkbStateMachineStateInfo"@],
                spec_state_info(ci[0], spec_player_root_enter(anim.flags), spec_root_exit(anim.flags), "#0000"@, ci[1], pr, state_id_text(pr)),
                p,
            )
            &&& one[n + 12] == patch_of(
                seq![ci[12], "hkbStateMachineStateInfo"@],
                spec_state_info(ci[12], spec_npc_root_enter(anim.flags), spec_root_exit(anim.flags), "#0000"@, ci[13], nr, state_id_text(nr)),
                p,
            )
        }),
{
    let n = anim.anim_objects@.len() as int;
    let objs = spec_anim_object_patches(object_names(anim.anim_objects@), ci, 26, p);
    let player = spec_kill_player(anim, namespace, p, ci);
    let npc = spec_kill_npc(anim, namespace, p, ci);
    assert(objs.len() == n);
    assert(spec_kill_one(anim, namespace, p, ci)[n] == player[0]);
    assert(spec_kill_one(anim, namespace, p, ci)[n + 12] == npc[0]);
}

/// `<head><suffix>`
pub(crate) fn suffixed(head: &String, suffix: &str) -> (r: String)
    ensures
        r@ == head@ + suffix@,
{
    let mut r = head.clone();
    r.append(suffix);
    r
}

#[verifier::rlimit(100)]
fn kill_player_patches(
    anim: &PairedAndKillAnimation,
    namespace: &str,
    p: usize,
    class_indexes: &Vec<String>,
) -> (r: Vec<PatchPair>)
    requires
        class_indexes@.len() == 26 + anim.anim_objects@.len(),
    ensures
        pairs_view(r@) == spec_kill_player(*anim, namespace@, p, texts(class_indexes@)),
{
    let ghost ci = texts(class_indexes@);
    let names = kill_move_names(namespace, anim.anim_event.as_str(), anim.anim_file.as_str(), p);
    let flags = anim.flags;
    let c = class_indexes;
    let pr = &names.player_root_state_name;
    let n = anim.anim_objects.len();
    let ao0 = if n > 0 {
        Some(c[26].as_str())
    } else {
        None
    };
    let ends = vec!["156", "616", "1070"];
    let x0 = make_player_root_state_info_patch(c[0].as_str(), c[1].as_str(), flags, p, pr.as_str());
    let x1 = patch2(c[1].as_str(), "hkbModifierGenerator", modifier_generator_text(c[1].as_str(), suffixed(pr, "_ModGen").as_str(), c[14].as_str(), c[2].as_str()), p);
    let x2 = patch2(c[2].as_str(), "hkbStateMachine", state_machine_text(c[2].as_str(), c[3].as_str(), suffixed(pr, "$_Behavior").as_str(), one_state_text(c[4].as_str())), p);
    let x3 = patch2(c[3].as_str(), "hkbVariableBindingSet", binding_set_text(c[3].as_str(), one_binding_text("isActive", "51")), p);
    let x4 = patch2(c[4].as_str(), "hkbStateMachineStateInfo", state_info_text(c[4].as_str(), "#0000", "#0000", "#0000", c[5].as_str(), suffixed(pr, "_DisablePitch").as_str(), String::from_str("0")), p);
    let x5 = patch2(c[5].as_str(), "hkbStateMachine", state_machine_text(c[5].as_str(), c[6].as_str(), suffixed(pr, "_DisablePitch_Behavior").as_str(), one_state_text(c[7].as_str())), p);
    let x6 = patch2(c[6].as_str(), "hkbVariableBindingSet", binding_set_text(c[6].as_str(), one_binding_text("isActive", "58")), p);
    let x7 = make_event_state_info_patch(c[7].as_str(), flags, c[8].as_str(), c[9].as_str(), p, names.npc_event.as_str());
    let x8 = new_event_property_array(flags, ao0, c[8].as_str(), p);
    let x9 = new_synchronized_clip_generator(c[9].as_str(), names.npc_event.as_str(), c[10].as_str(), p);
    let paired = crate::fnis_names::numbered_text("Paired_FNISkm", p as u64);
    let x10 = patch2(c[10].as_str(), "hkbClipGenerator", clip_generator_text(c[10].as_str(), paired.as_str(), names.anim_file.as_str(), c[11].as_str(), "MODE_SINGLE_PLAY"), p);
    let x11 = patch2(c[11].as_str(), "hkbClipTriggerArray", ptr_object_text(c[11].as_str(), "triggers", trigger_list_text("615", &anim.triggers, anim.duration.as_str(), &ends)), p);
    proof {
        assert(ci[0] == class_indexes@[0]@);
        assert(ci[1] == class_indexes@[1]@);
        assert(ci[2] == class_indexes@[2]@);
        assert(ci[3] == class_indexes@[3]@);
        assert(ci[4] == class_indexes@[4]@);
        assert(ci[5] == class_indexes@[5]@);
        assert(ci[6] == class_indexes@[6]@);
        assert(ci[7] == class_indexes@[7]@);
        assert(ci[8] == class_indexes@[8]@);
        assert(ci[9] == class_indexes@[9]@);
        assert(ci[10] == class_indexes@[10]@);
        assert(ci[11] == class_indexes@[11]@);
        assert(ci[14] == class_indexes@[14]@);
        assert(n > 0 ==> ci[26] == class_indexes@[26]@);
        assert(opt_text(ao0) == spec_anim_object(ci, n as int, 0));
        assert(texts_of(ends@) =~= seq!["156"@, "616"@, "1070"@]);
    }
    let ghost spec = spec_kill_player(*anim, namespace@, p, ci);
    assert(pair_view(x0) == spec[0]);
    assert(pair_view(x1) == spec[1]);
    assert(pair_view(x2) == spec[2]);
    assert(pair_view(x3) == spec[3]);
    assert(pair_view(x4) == spec[4]);
    assert(pair_view(x5) == spec[5]);
    assert(pair_view(x6) == spec[6]);
    assert(pair_view(x7) == spec[7]);
    assert(pair_view(x8) == spec[8]);
    assert(pair_view(x9) == spec[9]);
    assert(pair_view(x10) == spec[10]);
    assert(pair_view(x11) == spec[11]);
    let r = vec![x0, x1, x2, x3, x4, x5, x6, x7, x8, x9, x10, x11];
    assert(pairs_view(r@) =~= spec);
    r
}

#[verifier::rlimit(100)]
fn kill_npc_patches(
    anim: &PairedAndKillAnimation,
    namespace: &str,
    p: usize,
    class_indexes: &Vec<String>,
) -> (r: Vec<PatchPair>)
    requires
        class_indexes@.len() == 26 + anim.anim_objects@.len(),
    ensures
        pairs_view(r@) == spec_kill_npc(*anim, namespace@, p, texts(class_indexes@)),
{
    let ghost ci = texts(class_indexes@);
    let names = kill_move_names(namespace, anim.anim_event.as_str(), anim.anim_file.as_str(), p);
    let flags = anim.flags;
    let c = class_indexes;
    let nr = &names.npc_root_state_name;
    let n = anim.anim_objects.len();
    let ao1 = if n > 1 {
        Some(c[27].as_str())
    } else {
        None
    };
    let ends = vec!["622", "167", "1120"];
    let active = suffixed(&crate::fnis_names::numbered_text("FNISkm", p as u64), "_ActiveModifier");
    let x0 = make_npc_root_state_info_patch(c[12].as_str(), c[13].as_str(), flags, p, nr.as_str());
    let x1 = patch2(c[13].as_str(), "hkbModifierGenerator", modifier_generator_text(c[13].as_str(), suffixed(nr, "_ModGen").as_str(), c[14].as_str(), c[16].as_str()), p);
    let x2 = patch2(c[14].as_str(), "BSIsActiveModifier", active_modifier_text(c[14].as_str(), c[15].as_str(), active.as_str()), p);
    let x3 = patch2(c[15].as_str(), "hkbVariableBindingSet", binding_set_text(c[15].as_str(), one_binding_text("bIsActive0", "213")), p);
    let x4 = patch2(c[16].as_str(), "hkbStateMachine", state_machine_text(c[16].as_str(), c[17].as_str(), suffixed(nr, "_Behavior").as_str(), one_state_text(c[18].as_str())), p);
    let x5 = patch2(c[17].as_str(), "hkbVariableBindingSet", binding_set_text(c[17].as_str(), one_binding_text("bIsActive0", "51")), p);
    let x6 = patch2(c[18].as_str(), "hkbStateMachineStateInfo", state_info_text(c[18].as_str(), "#0000", "#0000", "#0000", c[19].as_str(), suffixed(nr, "_DisablePitch").as_str(), String::from_str("0")), p);
    let x7 = patch2(c[19].as_str(), "hkbStateMachine", state_machine_text(c[19].as_str(), c[20].as_str(), suffixed(nr, "_DisablePitch_Behavior").as_str(), one_state_text(c[21].as_str())), p);
    let x8 = patch2(c[20].as_str(), "hkbVariableBindingSet", binding_set_text(c[20].as_str(), one_binding_text("isActive", "58")), p);
    let x9 = make_event_state_info_patch(c[21].as_str(), flags, c[22].as_str(), c[23].as_str(), p, anim.anim_event.as_str());
    let x10 = new_event_property_array(flags, ao1, c[22].as_str(), p);
    let x11 = patch2(c[23].as_str(), "BSSynchronizedClipGenerator", sync_clip_generator_text(c[23].as_str(), anim.anim_event.as_str(), c[24].as_str(), json_string_text("2_").as_str(), "true"), p);
    let paired = crate::fnis_names::numbered_text("NPCPaired_FNISkm", p as u64);
    let x12 = patch2(c[24].as_str(), "hkbClipGenerator", clip_generator_text(c[24].as_str(), paired.as_str(), names.anim_file.as_str(), c[25].as_str(), "MODE_SINGLE_PLAY"), p);
    let x13 = patch2(c[25].as_str(), "hkbClipTriggerArray", ptr_object_text(c[25].as_str(), "triggers", trigger_list_text("614", &anim.triggers2, anim.duration.as_str(), &ends)), p);
    proof {
        assert(ci[12] == class_indexes@[12]@);
        assert(ci[13] == class_indexes@[13]@);
        assert(ci[14] == class_indexes@[14]@);
        assert(ci[15] == class_indexes@[15]@);
        assert(ci[16] == class_indexes@[16]@);
        assert(ci[17] == class_indexes@[17]@);
        assert(ci[18] == class_indexes@[18]@);
        assert(ci[19] == class_indexes@[19]@);
        assert(ci[20] == class_indexes@[20]@);
        assert(ci[21] == class_indexes@[21]@);
        assert(ci[22] == class_indexes@[22]@);
        assert(ci[23] == class_indexes@[23]@);
        assert(ci[24] == class_indexes@[24]@);
        assert(ci[25] == class_indexes@[25]@);
        assert(n > 1 ==> ci[27] == class_indexes@[27]@);
        assert(opt_text(ao1) == spec_anim_object(ci, n as int, 1));
        assert(texts_of(ends@) =~= seq!["622"@, "167"@, "1120"@]);
    }
    let ghost spec = spec_kill_npc(*anim, namespace@, p, ci);
    assert(pair_view(x0) == spec[0]);
    assert(pair_view(x1) == spec[1]);
    assert(pair_view(x2) == spec[2]);
    assert(pair_view(x3) == spec[3]);
    assert(pair_view(x4) == spec[4]);
    assert(pair_view(x5) == spec[5]);
    assert(pair_view(x6) == spec[6]);
    assert(pair_view(x7) == spec[7]);
    assert(pair_view(x8) == spec[8]);
    assert(pair_view(x9) == spec[9]);
    assert(pair_view(x10) == spec[10]);
    assert(pair_view(x11) == spec[11]);
    assert(pair_view(x12) == spec[12]);
    assert(pair_view(x13) == spec[13]);
    let r = vec![x0, x1, x2, x3, x4, x5, x6, x7, x8, x9, x10, x11, x12, x13];
    assert(pairs_view(r@) =~= spec);
    r
}

/// The patches of a kill move of the mod `namespace` with priority `priority`, for
/// `0_master`: `(single-value patches, array patches)`.
///
/// `class_indexes` are the new class names: 26 for the states, generators and arrays, then
/// one per animation object. Trigger times and the duration are written as the number
/// texts they are given as.
#[verifier::rlimit(80)]
pub fn new_kill_patches(
    anim: &PairedAndKillAnimation,
    namespace: &str,
    priority: usize,
    class_indexes: &Vec<String>,
) -> (r: (Vec<PatchPair>, Vec<PatchPair>))
    requires
        class_indexes@.len() == 26 + anim.anim_objects@.len(),
    ensures
        pairs_view(r.0@) == spec_kill_one(*anim, namespace@, priority, texts(class_indexes@)),
        pairs_view(r.1@) == spec_kill_seq(*anim, priority, texts(class_indexes@)),
{
    let ghost ci = texts(class_indexes@);
    let names = kill_move_names(namespace, anim.anim_event.as_str(), anim.anim_file.as_str(), priority);

    let mut seq_patches: Vec<PatchPair> = Vec::new();
    seq_patches.push(new_push_transitions_seq_patch(
        "#0789",
        (anim.anim_event.as_str(), names.npc_event.as_str()),
        (names.player_root_state_name.as_str(), names.npc_root_state_name.as_str()),
        priority,
    ));
    let states = vec![json_string_text(class_indexes[0].as_str()), json_string_text(class_indexes[12].as_str())];
    assert(texts(states@) =~= seq![json_string(ci[0]), json_string(ci[12])]);
    seq_patches.push(patch3("#0788", "hkbStateMachine", "states", json_array_text(&states), priority));
    assert(pairs_view(seq_patches@) =~= spec_kill_seq(*anim, priority, ci));

    let mut one_patches: Vec<PatchPair> = Vec::new();
    let n = anim.anim_objects.len();
    let total = class_indexes.len();
    let mut i: usize = 0;
    while i < n
        invariant
            n == anim.anim_objects@.len(),
            total == class_indexes@.len(),
            class_indexes@.len() == 26 + n,
            ci == texts(class_indexes@),
            i <= n,
            pairs_view(one_patches@) =~= spec_anim_object_patches(object_names(anim.anim_objects@), ci, 26, priority).take(i as int),
        decreases n - i,
    {
        let index = class_indexes[26 + i].as_str();
        let pp = patch2(index, "hkbStringEventPayload", string_payload_text(index, anim.anim_objects[i].name.as_str()), priority);
        let ghost before = one_patches@;
        one_patches.push(pp);
        proof {
            assert(ci[26 + i] == class_indexes@[26 + i]@);
            assert(one_patches@ =~= before.push(pp));
            assert(pairs_view(one_patches@) =~= pairs_view(before).push(pair_view(pp)));
            assert(pairs_view(one_patches@) =~= spec_anim_object_patches(object_names(anim.anim_objects@), ci, 26, priority).take(i + 1));
        }
        i = i + 1;
    }
    let ghost objs = one_patches@;
    let mut player = kill_player_patches(anim, namespace, priority, class_indexes);
    let mut npc = kill_npc_patches(anim, namespace, priority, class_indexes);
    let ghost pv = player@;
    let ghost nv = npc@;
    one_patches.append(&mut player);
    one_patches.append(&mut npc);
    assert(one_patches@ =~= objs + pv + nv);
    assert(spec_anim_object_patches(object_names(anim.anim_objects@), ci, 26, priority).take(n as int)
        =~= spec_anim_object_patches(object_names(anim.anim_objects@), ci, 26, priority));
    assert(pairs_view(one_patches@) =~= pairs_view(objs) + pairs_view(pv) + pairs_view(nv));
    (one_patches, seq_patches)
}

/// The event arrays of a kill move's two event states turn head tracking off (`366`)
/// three times exactly when the animation does not keep head tracking (`h`), and then load
/// and draw (`937`, `936`) the actor's animation object, if it has one: the player's state
/// the first object (class name 26), the NPC's state the second (class name 27).
pub proof fn lemma_kill_move_event_arrays(anim: PairedAndKillAnimation, namespace: Seq<char>, p: usize, ci: Seq<Seq<char>>)
    requires
        ci.len() == 26 + anim.anim_objects@.len(),
    ensures
        ({
            let n = anim.anim_objects@.len() as int;
            let h = anim.flags.head_tracking;
            let one = spec_kill_one(anim, namespace, p, ci);
            let off = spec_event_property("366"@, "#0000"@);
            &&& exists|e: Seq<Seq<char>>|
                one[n + 8] == patch_of(
                    seq![ci[8], "hkbStateMachineEventPropertyArray"@],
                    spec_ptr_object(ci[8], "events"@, #[trigger] json_array(e)),
                    p,
                ) && e.len() == (if h { 0int } else { 3int }) + (if n > 0 { 2int } else { 0int }) && (!h
                    ==> e[0] == off && e[1] == off && e[2] == off) && (n > 0 ==> e[e.len() - 2]
                    == spec_event_property("937"@, ci[26]) && e[e.len() - 1] == spec_event_property("936"@, ci[26]))
            &&& exists|e: Seq<Seq<char>>|
                one[n + 22] == patch_of(
                    seq![ci[22], "hkbStateMachineEventPropertyArray"@],
                    spec_ptr_object(ci[22], "events"@, #[trigger] json_array(e)),
                    p,
                ) && e.len() == (if h { 0int } else { 3int }) + (if n > 1 { 2int } else { 0int }) && (!h
                    ==> e[0] == off && e[1] == off && e[2] == off) && (n > 1 ==> e[e.len() - 2]
                    == spec_event_property("937"@, ci[27]) && e[e.len() - 1] == spec_event_property("936"@, ci[27]))
        }),
{
    let n = anim.anim_objects@.len() as int;
    let one = spec_kill_one(anim, namespace, p, ci);
    let objs = spec_anim_object_patches(object_names(anim.anim_objects@), ci, 26, p);
    assert(objs.len() == n);
    let e0 = spec_kill_events(anim.flags, spec_anim_object(ci, n, 0));
    let e1 = spec_kill_events(anim.flags, spec_anim_object(ci, n, 1));
    assert(one[n + 8] == spec_kill_player(anim, namespace, p, ci)[8]);
    assert(one[n + 22] == spec_kill_npc(anim, namespace, p, ci)[10]);
    assert(one[n + 8] == patch_of(
        seq![ci[8], "hkbStateMachineEventPropertyArray"@],
        spec_ptr_object(ci[8], "events"@, json_array(e0)),
        p,
    ));
    assert(one[n + 22] == patch_of(
        seq![ci[22], "hkbStateMachineEventPropertyArray"@],
        spec_ptr_object(ci[22], "events"@, json_array(e1)),
        p,
    ));
    let h = anim.flags.head_tracking;
    let off = spec_event_property("366"@, "#0000"@);
    assert(e0.len() == (if h { 0int } else { 3int }) + (if n > 0 { 2int } else { 0int }));
    assert(e1.len() == (if h { 0int } else { 3int }) + (if n > 1 { 2int } else { 0int }));
    assert(!h ==> e0[0] == off && e0[1] == off && e0[2] == off);
    assert(!h ==> e1[0] == off && e1[1] == off && e1[2] == off);
    assert(n > 0 ==> e0[e0.len() - 2] == spec_event_property("937"@, ci[26]) && e0[e0.len() - 1] == spec_event_property("936"@, ci[26]));
    assert(n > 1 ==> e1[e1.len() - 2] == spec_event_property("937"@, ci[27]) && e1[e1.len() - 1] == spec_event_property("936"@, ci[27]));
}

/// The notify events of a kill move's states follow its flags: each root state sends the
/// animated camera start (`2530`, for the NPC `2534` with the paired kill target) on entry
/// when `ac1` is set, else nothing (the NPC the paired kill target `2533`), and the animated
/// camera end (`2532`) on exit when `ac0` is set; each event state enters through its event
/// array when the animation has objects, else through head tracking off (`2526`) unless `h`
/// is set, and exits through `2528` (`h` and objects), nothing (`h`), `2529` (objects) or
/// `2527`.
pub proof fn lemma_kill_move_notify_events(anim: PairedAndKillAnimation, namespace: Seq<char>, p: usize, ci: Seq<Seq<char>>)
    requires
        ci.len() == 26 + anim.anim_objects@.len(),
    ensures
        ({
            let f = anim.flags;
            let n = anim.anim_objects@.len() as int;
            let one = spec_kill_one(anim, namespace, p, ci);
            let pr = numbered("Player_FNISkm"@, p as nat);
            let nr = numbered("NPC_FNISkm"@, p as nat);
            let root_exit = if f.animated_camera_reset { "#FNIS_aa_global_auto_gen2532"@ } else { "#0000"@ };
            let event_exit = if f.head_tracking && f.anim_objects {
                "#FNIS_aa_global_auto_gen2528"@
            } else if f.head_tracking {
                "#0000"@
            } else if f.anim_objects {
                "#FNIS_aa_global_auto_gen2529"@
            } else {
                "#FNIS_aa_global_auto_gen2527"@
            };
            let enter_through = |array: Seq<char>|
                if f.anim_objects {
                    array
                } else if f.head_tracking {
                    "#0000"@
                } else {
                    "#FNIS_aa_global_auto_gen2526"@
                };
            &&& one[n] == patch_of(
                seq![ci[0], "hkbStateMachineStateInfo"@],
                spec_state_info(
                    ci[0],
                    if f.animated_camera_set { "#FNIS_aa_global_auto_gen2530"@ } else { "#0000"@ },
                    root_exit,
                    "#0000"@,
                    ci[1],
                    pr,
                    state_id_text(pr),
                ),
                p,
            )
            &&& one[n + 12] == patch_of(
                seq![ci[12], "hkbStateMachineStateInfo"@],
                spec_state_info(
                    ci[12],
                    if f.animated_camera_set { "#FNIS_aa_global_auto_gen2534"@ } else { "#FNIS_aa_global_auto_gen2533"@ },
                    root_exit,
                    "#0000"@,
                    ci[13],
                    nr,
                    state_id_text(nr),
                ),
                p,
            )
            &&& one[n + 7] == patch_of(
                seq![ci[7], "hkbStateMachineStateInfo"@],
                spec_state_info(ci[7], enter_through(ci[8]), event_exit, "#0000"@, ci[9], "pa_"@ + anim.anim_event@, "0"@),
                p,
            )
            &&& one[n + 21] == patch_of(
                seq![ci[21], "hkbStateMachineStateInfo"@],
                spec_state_info(ci[21], enter_through(ci[22]), event_exit, "#0000"@, ci[23], anim.anim_event@, "0"@),
                p,
            )
        }),
{
    let n = anim.anim_objects@.len() as int;
    let one = spec_kill_one(anim, namespace, p, ci);
    assert(spec_anim_object_patches(object_names(anim.anim_objects@), ci, 26, p).len() == n);
    assert(one[n] == spec_kill_player(anim, namespace, p, ci)[0]);
    assert(one[n + 7] == spec_kill_player(anim, namespace, p, ci)[7]);
    assert(one[n + 12] == spec_kill_npc(anim, namespace, p, ci)[0]);
    assert(one[n + 21] == spec_kill_npc(anim, namespace, p, ci)[9]);
}

/// Each actor's clip of a kill move carries its triggers in order: its start event at 0
/// (`615` for the player's clip, `614` for the NPC's), one trigger per list trigger of that
/// actor (`T` for the player, `T2_` for the NPC) sending the trigger's event at its time,
/// and at the clip's duration the end events (`156`, `616`, `1070` for the player; `622`,
/// `167`, `1120` for the NPC).
pub proof fn lemma_kill_move_clip_triggers(anim: PairedAndKillAnimation, namespace: Seq<char>, p: usize, ci: Seq<Seq<char>>)
    requires
        ci.len() == 26 + anim.anim_objects@.len(),
    ensures
        ({
            let n = anim.anim_objects@.len() as int;
            let d = anim.duration@;
            let one = spec_kill_one(anim, namespace, p, ci);
            &&& exists|e: Seq<Seq<char>>|
                one[n + 11] == patch_of(
                    seq![ci[11], "hkbClipTriggerArray"@],
                    spec_ptr_object(ci[11], "triggers"@, #[trigger] json_array(e)),
                    p,
                ) && e.len() == anim.triggers@.len() + 4 && e[0] == spec_clip_trigger("0.0"@, "615"@) && (forall|i: int|
                    0 <= i < anim.triggers@.len() ==> e[i + 1] == spec_clip_trigger(
                        anim.triggers@[i].time@,
                        json_string(event_id_variable(anim.triggers@[i].event@)),
                    )) && e[e.len() - 3] == spec_clip_trigger(d, "156"@) && e[e.len() - 2] == spec_clip_trigger(d, "616"@)
                    && e[e.len() - 1] == spec_clip_trigger(d, "1070"@)
            &&& exists|e: Seq<Seq<char>>|
                one[n + 25] == patch_of(
                    seq![ci[25], "hkbClipTriggerArray"@],
                    spec_ptr_object(ci[25], "triggers"@, #[trigger] json_array(e)),
                    p,
                ) && e.len() == anim.triggers2@.len() + 4 && e[0] == spec_clip_trigger("0.0"@, "614"@) && (forall|i: int|
                    0 <= i < anim.triggers2@.len() ==> e[i + 1] == spec_clip_trigger(
                        anim.triggers2@[i].time@,
                        json_string(event_id_variable(anim.triggers2@[i].event@)),
                    )) && e[e.len() - 3] == spec_clip_trigger(d, "622"@) && e[e.len() - 2] == spec_clip_trigger(d, "167"@)
                    && e[e.len() - 1] == spec_clip_trigger(d, "1120"@)
        }),
{
    let n = anim.anim_objects@.len() as int;
    let d = anim.duration@;
    let one = spec_kill_one(anim, namespace, p, ci);
    assert(spec_anim_object_patches(object_names(anim.anim_objects@), ci, 26, p).len() == n);
    assert(one[n + 11] == spec_kill_player(anim, namespace, p, ci)[11]);
    assert(one[n + 25] == spec_kill_npc(anim, namespace, p, ci)[13]);
    let e0 = spec_trigger_list("615"@, anim.triggers@, d, seq!["156"@, "616"@, "1070"@]);
    let e1 = spec_trigger_list("614"@, anim.triggers2@, d, seq!["622"@, "167"@, "1120"@]);
    assert(e0.len() == anim.triggers@.len() + 4);
    assert(e1.len() == anim.triggers2@.len() + 4);
    assert(e0[e0.len() - 3] == spec_clip_trigger(d, "156"@));
    assert(e1[e1.len() - 3] == spec_clip_trigger(d, "622"@));
    assert(forall|i: int| 0 <= i < anim.triggers@.len() ==> e0[i + 1] == spec_clip_trigger(
        anim.triggers@[i].time@,
        json_string(event_id_variable(anim.triggers@[i].event@)),
    ));
    assert(forall|i: int| 0 <= i < anim.triggers2@.len() ==> e1[i + 1] == spec_clip_trigger(
        anim.triggers2@[i].time@,
        json_string(event_id_variable(anim.triggers2@[i].event@)),
    ));
}

} // verus!
