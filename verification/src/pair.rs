//! Paired animations (`pa`): the patches that add a player and an NPC root state, with their
//! synchronized clips, to `meshes\actors\character\behaviors\0_master.xml`.
//!
//! The names of a paired animation are made unique in the file by the state id of its first
//! and thirteenth new class names.
use vstd::prelude::*;

use crate::fnis_anim::{
    binding_set_text, clip_generator_text, event_id_variable, event_property_text,
    new_push_transitions_seq_patch, no_event_text, pair_view, pairs_view, patch2, patch3,
    patch_of, ptr_object_text, spec_binding_set, spec_clip_generator, spec_clip_trigger,
    spec_event_property, spec_no_event, spec_ptr_object, spec_push_transitions, spec_state_info,
    spec_state_machine, spec_sync_clip_generator, state_id_text, state_info_text,
    state_machine_text, string_payload_text, sync_clip_generator_text, clip_trigger_text,
    FnisAnimFlags, PatchPair,
};
use crate::fnis_names::{numbered, numbered_text, paired_names, spec_state_id};
use crate::fnis_paths::spec_animation_path;
use crate::hashing::calculate_hash;
use crate::json::{
    json_array, json_array_text, json_object, json_object_text, json_string, json_string_text,
    member_texts, texts,
};
use crate::kill_move::{
    make_event_state_info_patch, make_player_root_state_info_patch, new_synchronized_clip_generator,
    object_names, one_binding_text, one_state_text, spec_event_state_enter, spec_event_state_exit, spec_one_binding, spec_one_state,
    spec_player_root_enter, spec_root_exit, suffixed, texts_of, ActorRole, AnimObject,
    PairedAndKillAnimation, Trigger,
};
use crate::offset_arm::spec_anim_object_patches;

verus! {

/// The class names of the animation objects of one actor, in list order; object `k` has the
/// class name `class_indexes[first + k]`.
pub open spec fn role_indexes(
    objects: Seq<AnimObject>,
    class_indexes: Seq<Seq<char>>,
    first: int,
    role: ActorRole,
) -> Seq<Seq<char>>
    decreases objects.len(),
{
    if objects.len() == 0 {
        Seq::empty()
    } else {
        let prev = role_indexes(objects.drop_last(), class_indexes, first, role);
        if objects.last().role == role {
            prev.push(class_indexes[first + objects.len() - 1])
        } else {
            prev
        }
    }
}

/// Loading and drawing (`937`, `936`) each of the animation objects `indexes`, in turn.
pub open spec fn spec_object_events(indexes: Seq<Seq<char>>) -> Seq<Seq<char>>
    decreases indexes.len(),
{
    if indexes.len() == 0 {
        Seq::empty()
    } else {
        spec_object_events(indexes.drop_last()) + seq![
            spec_event_property("937"@, indexes.last()),
            spec_event_property("936"@, indexes.last()),
        ]
    }
}

/// The events of an actor's event state: head tracking off (`366`) three times unless the
/// animation keeps it, then the events of the actor's animation objects.
pub open spec fn spec_pair_events(flags: FnisAnimFlags, indexes: Seq<Seq<char>>) -> Seq<Seq<char>> {
    (if flags.head_tracking {
        Seq::empty()
    } else {
        seq![
            spec_event_property("366"@, "#0000"@),
            spec_event_property("366"@, "#0000"@),
            spec_event_property("366"@, "#0000"@),
        ]
    }) + spec_object_events(indexes)
}

fn same_role(a: ActorRole, b: ActorRole) -> (r: bool)
    ensures
        r == (a == b),
{
    match (a, b) {
        (ActorRole::Active, ActorRole::Active) => true,
        (ActorRole::Passive, ActorRole::Passive) => true,
        _ => false,
    }
}

fn pair_events_text(
    flags: FnisAnimFlags,
    objects: &Vec<AnimObject>,
    class_indexes: &Vec<String>,
    role: ActorRole,
) -> (r: String)
    requires
        class_indexes@.len() == 22 + objects@.len(),
    ensures
        r@ == json_array(spec_pair_events(flags, role_indexes(objects@, texts(class_indexes@), 22, role))),
{
    let ghost ci = texts(class_indexes@);
    let mut events: Vec<String> = Vec::new();
    if !flags.head_tracking {
        events.push(event_property_text("366", "#0000"));
        events.push(event_property_text("366", "#0000"));
        events.push(event_property_text("366", "#0000"));
    }
    let ghost head = texts(events@);
    assert(head =~= spec_pair_events(flags, Seq::empty()));
    let n = objects.len();
    let total = class_indexes.len();
    let mut i: usize = 0;
    while i < n
        invariant
            n == objects@.len(),
            total == class_indexes@.len(),
            class_indexes@.len() == 22 + n,
            ci == texts(class_indexes@),
            i <= n,
            head == (if flags.head_tracking {
                Seq::<Seq<char>>::empty()
            } else {
                seq![
                    spec_event_property("366"@, "#0000"@),
                    spec_event_property("366"@, "#0000"@),
                    spec_event_property("366"@, "#0000"@),
                ]
            }),
            texts(events@) =~= head + spec_object_events(role_indexes(objects@.take(i as int), ci, 22, role)),
        decreases n - i,
    {
        let ghost prev = role_indexes(objects@.take(i as int), ci, 22, role);
        assert(objects@.take(i + 1).drop_last() =~= objects@.take(i as int));
        if same_role(objects[i].role, role) {
            let index = class_indexes[22 + i].as_str();
            let ghost before = events@;
            let e1 = event_property_text("937", index);
            let e2 = event_property_text("936", index);
            events.push(e1);
            events.push(e2);
            proof {
                assert(ci[22 + i] == class_indexes@[22 + i]@);
                let now = prev.push(ci[22 + i]);
                assert(role_indexes(objects@.take(i + 1), ci, 22, role) == now);
                assert(now.drop_last() =~= prev);
                assert(texts(events@) =~= texts(before).push(e1@).push(e2@));
            }
        } else {
            assert(role_indexes(objects@.take(i + 1), ci, 22, role) == prev);
        }
        i = i + 1;
    }
    assert(objects@.take(n as int) =~= objects@);
    json_array_text(&events)
}

/// The clip triggers of one actor of a paired animation: one per list trigger (its event as
/// a Nemesis variable), then the end events `end_ids` at `duration`.
pub open spec fn spec_pair_triggers(triggers: Seq<Trigger>, duration: Seq<char>, end_ids: Seq<Seq<char>>) -> Seq<
    Seq<char>,
> {
    Seq::new(
        triggers.len(),
        |i: int|
            spec_clip_trigger(triggers[i].time@, json_string(event_id_variable(triggers[i].event@))),
    ) + Seq::new(end_ids.len(), |i: int| spec_clip_trigger(duration, end_ids[i]))
}

fn pair_triggers_text(triggers: &Vec<Trigger>, duration: &str, end_ids: &Vec<&str>) -> (r: String)
    ensures
        r@ == json_array(spec_pair_triggers(triggers@, duration@, texts_of(end_ids@))),
{
    let mut items: Vec<String> = Vec::new();
    let mut i: usize = 0;
    while i < triggers.len()
        invariant
            i <= triggers@.len(),
            texts(items@) =~= Seq::new(
                i as nat,
                |j: int|
                    spec_clip_trigger(
                        triggers@[j].time@,
                        json_string(event_id_variable(triggers@[j].event@)),
                    ),
            ),
        decreases triggers@.len() - i,
    {
        let mut id = String::from_str("$eventID[");
        id.append(triggers[i].event.as_str());
        id.append("]$");
        let quoted = json_string_text(id.as_str());
        let item = clip_trigger_text(triggers[i].time.as_str(), quoted.as_str());
        let ghost before = items@;
        items.push(item);
        proof {
            assert(id@ == event_id_variable(triggers@[i as int].event@));
            assert(texts(items@) =~= texts(before).push(item@));
        }
        i = i + 1;
    }
    let ghost head = texts(items@);
    let mut k: usize = 0;
    while k < end_ids.len()
        invariant
            k <= end_ids@.len(),
            texts(items@) =~= head + Seq::new(k as nat, |j: int| spec_clip_trigger(duration@, end_ids@[j]@)),
        decreases end_ids@.len() - k,
    {
        let item = clip_trigger_text(duration, end_ids[k]);
        let ghost before = items@;
        items.push(item);
        proof {
            assert(texts(items@) =~= texts(before).push(item@));
        }
        k = k + 1;
    }
    assert(texts(items@) =~= spec_pair_triggers(triggers@, duration@, texts_of(end_ids@)));
    json_array_text(&items)
}

/// An `hkbStateMachine` object like [`spec_state_machine`], whose
/// `eventToSendWhenStateOrTransitionChanges` is a one-element array.
pub open spec fn spec_listed_state_machine(ptr: Seq<char>, binding: Seq<char>, name: Seq<char>, states: Seq<char>) -> Seq<char> {
    json_object(
        seq![
            ("__ptr"@, json_string(ptr)),
            ("variableBindingSet"@, json_string(binding)),
            ("userData"@, "0"@),
            ("name"@, json_string(name)),
            ("eventToSendWhenStateOrTransitionChanges"@, json_array(seq![spec_no_event()])),
            ("startStateChooser"@, json_string("#0000"@)),
            ("startStateId"@, "0"@),
            ("returnToPreviousStateEventId"@, "-1"@),
            ("randomTransitionEventId"@, "-1"@),
            ("transitionToNextHigherStateEventId"@, "-1"@),
            ("transitionToNextLowerStateEventId"@, "-1"@),
            ("syncVariableIndex"@, "-1"@),
            ("wrapAroundStateId"@, "false"@),
            ("maxSimultaneousTransitions"@, "32"@),
            ("startStateMode"@, json_string("START_STATE_MODE_DEFAULT"@)),
            ("selfTransitionMode"@, json_string("SELF_TRANSITION_MODE_NO_TRANSITION"@)),
            ("states"@, states),
            ("wildcardTransitions"@, json_string("#0000"@)),
        ],
    )
}

fn listed_state_machine_text(ptr: &str, binding: &str, name: &str, states: String) -> (r: String)
    ensures
        r@ == spec_listed_state_machine(ptr@, binding@, name@, states@),
{
    let ghost states_text = states@;
    let events = vec![no_event_text()];
    assert(texts(events@) =~= seq![spec_no_event()]);
    let fields = vec![
        ("__ptr", json_string_text(ptr)),
        ("variableBindingSet", json_string_text(binding)),
        ("userData", String::from_str("0")),
        ("name", json_string_text(name)),
        ("eventToSendWhenStateOrTransitionChanges", json_array_text(&events)),
        ("startStateChooser", json_string_text("#0000")),
        ("startStateId", String::from_str("0")),
        ("returnToPreviousStateEventId", String::from_str("-1")),
        ("randomTransitionEventId", String::from_str("-1")),
        ("transitionToNextHigherStateEventId", String::from_str("-1")),
        ("transitionToNextLowerStateEventId", String::from_str("-1")),
        ("syncVariableIndex", String::from_str("-1")),
        ("wrapAroundStateId", String::from_str("false")),
        ("maxSimultaneousTransitions", String::from_str("32")),
        ("startStateMode", json_string_text("START_STATE_MODE_DEFAULT")),
        ("selfTransitionMode", json_string_text("SELF_TRANSITION_MODE_NO_TRANSITION")),
        ("states", states),
        ("wildcardTransitions", json_string_text("#0000")),
    ];
    assert(member_texts(fields@) =~= seq![
        ("__ptr"@, json_string(ptr@)),
        ("variableBindingSet"@, json_string(binding@)),
        ("userData"@, "0"@),
        ("name"@, json_string(name@)),
        ("eventToSendWhenStateOrTransitionChanges"@, json_array(seq![spec_no_event()])),
        ("startStateChooser"@, json_string("#0000"@)),
        ("startStateId"@, "0"@),
        ("returnToPreviousStateEventId"@, "-1"@),
        ("randomTransitionEventId"@, "-1"@),
        ("transitionToNextHigherStateEventId"@, "-1"@),
        ("transitionToNextLowerStateEventId"@, "-1"@),
        ("syncVariableIndex"@, "-1"@),
        ("wrapAroundStateId"@, "false"@),
        ("maxSimultaneousTransitions"@, "32"@),
        ("startStateMode"@, json_string("START_STATE_MODE_DEFAULT"@)),
        ("selfTransitionMode"@, json_string("SELF_TRANSITION_MODE_NO_TRANSITION"@)),
        ("states"@, states_text),
        ("wildcardTransitions"@, json_string("#0000"@)),
    ]);
    json_object_text(&fields)
}

/// The player's half of a paired animation's single-value patches: its root state
/// (`class_indexes[0]`) down to the player's clip trigger array (`[10]`).
pub open spec fn spec_pair_player(
    anim: PairedAndKillAnimation,
    namespace: Seq<char>,
    p: usize,
    ci: Seq<Seq<char>>,
) -> Seq<(Seq<Seq<char>>, (Seq<char>, usize))> {
    let flags = anim.flags;
    let id0 = spec_state_id(ci[0]);
    let pr = numbered("Player_FNISpa"@, id0);
    let npc_event = numbered("pa_"@, id0);
    let anim_path = spec_animation_path(namespace, anim.anim_file@);
    seq![
        patch_of(seq![ci[0], "hkbStateMachineStateInfo"@], spec_state_info(ci[0], spec_player_root_enter(flags), spec_root_exit(flags), "#0000"@, ci[1], pr, state_id_text(pr)), p),
        patch_of(seq![ci[1], "hkbStateMachine"@], spec_listed_state_machine(ci[1], ci[2], pr + "_Behavior"@, spec_one_state(ci[3])), p),
        patch_of(seq![ci[2], "hkbVariableBindingSet"@], spec_binding_set(ci[2], spec_one_binding("isActive"@, "51"@)), p),
        patch_of(seq![ci[3], "hkbStateMachineStateInfo"@], spec_state_info(ci[3], "#0000"@, "#0000"@, "#0000"@, ci[4], pr + "_DisablePitch"@, "0"@), p),
        patch_of(seq![ci[4], "hkbStateMachine"@], spec_listed_state_machine(ci[4], ci[5], pr + "_DisablePitch_Behavior"@, spec_one_state(ci[6])), p),
        patch_of(seq![ci[5], "hkbVariableBindingSet"@], spec_binding_set(ci[5], spec_one_binding("isActive"@, "58"@)), p),
        patch_of(seq![ci[6], "hkbStateMachineStateInfo"@], spec_state_info(ci[6], spec_event_state_enter(flags, ci[7]), spec_event_state_exit(flags), "#0000"@, ci[8], npc_event, "0"@), p),
        patch_of(seq![ci[7], "hkbStateMachineEventPropertyArray"@], spec_ptr_object(ci[7], "events"@, json_array(spec_pair_events(flags, role_indexes(anim.anim_objects@, ci, 22, ActorRole::Active)))), p),
        patch_of(seq![ci[8], "BSSynchronizedClipGenerator"@], spec_sync_clip_generator(ci[8], npc_event, ci[9], "null"@, "false"@), p),
        patch_of(seq![ci[9], "hkbClipGenerator"@], spec_clip_generator(ci[9], numbered("Paired_FNISpa"@, id0), anim_path, ci[10], "MODE_SINGLE_PLAY"@), p),
        patch_of(seq![ci[10], "hkbClipTriggerArray"@], spec_ptr_object(ci[10], "triggers"@, json_array(spec_pair_triggers(anim.triggers@, anim.duration@, seq!["156"@, "1070"@]))), p),
    ]
}

/// The NPC's half of a paired animation's single-value patches: its root state
/// (`class_indexes[11]`) down to the NPC's clip trigger array (`[21]`).
pub open spec fn spec_pair_npc(
    anim: PairedAndKillAnimation,
    namespace: Seq<char>,
    p: usize,
    ci: Seq<Seq<char>>,
) -> Seq<(Seq<Seq<char>>, (Seq<char>, usize))> {
    let flags = anim.flags;
    let id0 = spec_state_id(ci[0]);
    let nr = numbered("NPC_FNISpa"@, spec_state_id(ci[12]));
    let nb = numbered("NPC_FNISpa"@, id0);
    let npc_event = numbered("pa_"@, id0);
    let anim_path = spec_animation_path(namespace, anim.anim_file@);
    seq![
        patch_of(seq![ci[11], "hkbStateMachineStateInfo"@], spec_state_info(ci[11], spec_player_root_enter(flags), spec_root_exit(flags), "#0000"@, ci[12], nr, state_id_text(nr)), p),
        patch_of(seq![ci[12], "hkbStateMachine"@], spec_state_machine(ci[12], ci[13], nb + "$_Behavior"@, spec_one_state(ci[14])), p),
        patch_of(seq![ci[13], "hkbVariableBindingSet"@], spec_binding_set(ci[13], spec_one_binding("isActive"@, "51"@)), p),
        patch_of(seq![ci[14], "hkbStateMachineStateInfo"@], spec_state_info(ci[14], "#0000"@, "#0000"@, "#0000"@, ci[15], nb + "_DisablePitch"@, "0"@), p),
        patch_of(seq![ci[15], "hkbStateMachine"@], spec_state_machine(ci[15], ci[16], nb + "_DisablePitch_Behavior"@, spec_one_state(ci[17])), p),
        patch_of(seq![ci[16], "hkbVariableBindingSet"@], spec_binding_set(ci[16], spec_one_binding("isActive"@, "58"@)), p),
        patch_of(seq![ci[17], "hkbStateMachineStateInfo"@], spec_state_info(ci[17], spec_event_state_enter(flags, ci[18]), spec_event_state_exit(flags), "#0000"@, ci[19], npc_event, "0"@), p),
        patch_of(seq![ci[18], "hkbStateMachineEventPropertyArray"@], spec_ptr_object(ci[18], "events"@, json_array(spec_pair_events(flags, role_indexes(anim.anim_objects@, ci, 22, ActorRole::Passive)))), p),
        patch_of(seq![ci[19], "BSSynchronizedClipGenerator"@], spec_sync_clip_generator(ci[19], anim.anim_event@, ci[20], json_string("2_"@), "true"@), p),
        patch_of(seq![ci[20], "hkbClipGenerator"@], spec_clip_generator(ci[20], numbered("NPC_Paired_FNISpa"@, id0), anim_path, ci[21], "MODE_SINGLE_PLAY"@), p),
        patch_of(seq![ci[21], "hkbClipTriggerArray"@], spec_ptr_object(ci[21], "triggers"@, json_array(spec_pair_triggers(anim.triggers@, anim.duration@, Seq::empty()))), p),
    ]
}

/// The single-value patches of a paired animation: its animation objects (class names
/// from 22 on), then the player's half and the NPC's half.
pub open spec fn spec_pair_one(
    anim: PairedAndKillAnimation,
    namespace: Seq<char>,
    p: usize,
    ci: Seq<Seq<char>>,
) -> Seq<(Seq<Seq<char>>, (Seq<char>, usize))> {
    spec_anim_object_patches(object_names(anim.anim_objects@), ci, 22, p) + spec_pair_player(anim, namespace, p, ci)
        + spec_pair_npc(anim, namespace, p, ci)
}

/// The array patches of a paired animation: the two wildcard transitions of `0_master`'s
/// transition array `#0789` (player event to the player's root state, `pa_` event to the
/// NPC's), and the class names 0 and 12 pushed to the state machine `#0788`.
pub open spec fn spec_pair_seq(anim: PairedAndKillAnimation, p: usize, ci: Seq<Seq<char>>) -> Seq<
    (Seq<Seq<char>>, (Seq<char>, usize)),
> {
    seq![
        spec_push_transitions(
            "#0789"@,
            (anim.anim_event@, numbered("pa_"@, spec_state_id(ci[0]))),
            (numbered("Player_FNISpa"@, spec_state_id(ci[0])), numbered("NPC_FNISpa"@, spec_state_id(ci[12]))),
            p,
        ),
        patch_of(
            seq!["#0788"@, "hkbStateMachine"@, "states"@],
            json_array(seq![json_string(ci[0]), json_string(ci[12])]),
            p,
        ),
    ]
}

#[verifier::rlimit(100)]
fn pair_player_patches(
    anim: &PairedAndKillAnimation,
    namespace: &str,
    p: usize,
    class_indexes: &Vec<String>,
) -> (r: Vec<PatchPair>)
    requires
        class_indexes@.len() == 22 + anim.anim_objects@.len(),
    ensures
        pairs_view(r@) == spec_pair_player(*anim, namespace@, p, texts(class_indexes@)),
{
    let ghost ci = texts(class_indexes@);
    let c = class_indexes;
    let names = paired_names(namespace, anim.anim_file.as_str(), c[0].as_str(), c[12].as_str());
    let flags = anim.flags;
    let pr = &names.player_root_state_name;
    let id0 = calculate_hash(c[0].as_str()) as u64;
    let ends = vec!["156", "1070"];
    let paired = numbered_text("Paired_FNISpa", id0);
    let x0 = make_player_root_state_info_patch(c[0].as_str(), c[1].as_str(), flags, p, pr.as_str());
    let x1 = patch2(c[1].as_str(), "hkbStateMachine", listed_state_machine_text(c[1].as_str(), c[2].as_str(), suffixed(pr, "_Behavior").as_str(), one_state_text(c[3].as_str())), p);
    let x2 = patch2(c[2].as_str(), "hkbVariableBindingSet", binding_set_text(c[2].as_str(), one_binding_text("isActive", "51")), p);
    let x3 = patch2(c[3].as_str(), "hkbStateMachineStateInfo", state_info_text(c[3].as_str(), "#0000", "#0000", "#0000", c[4].as_str(), suffixed(pr, "_DisablePitch").as_str(), String::from_str("0")), p);
    let x4 = patch2(c[4].as_str(), "hkbStateMachine", listed_state_machine_text(c[4].as_str(), c[5].as_str(), suffixed(pr, "_DisablePitch_Behavior").as_str(), one_state_text(c[6].as_str())), p);
    let x5 = patch2(c[5].as_str(), "hkbVariableBindingSet", binding_set_text(c[5].as_str(), one_binding_text("isActive", "58")), p);
    let x6 = make_event_state_info_patch(c[6].as_str(), flags, c[7].as_str(), c[8].as_str(), p, names.npc_event.as_str());
    let x7 = patch2(c[7].as_str(), "hkbStateMachineEventPropertyArray", ptr_object_text(c[7].as_str(), "events", pair_events_text(flags, &anim.anim_objects, c, ActorRole::Active)), p);
    let x8 = new_synchronized_clip_generator(c[8].as_str(), names.npc_event.as_str(), c[9].as_str(), p);
    let x9 = patch2(c[9].as_str(), "hkbClipGenerator", clip_generator_text(c[9].as_str(), paired.as_str(), names.anim_file.as_str(), c[10].as_str(), "MODE_SINGLE_PLAY"), p);
    let x10 = patch2(c[10].as_str(), "hkbClipTriggerArray", ptr_object_text(c[10].as_str(), "triggers", pair_triggers_text(&anim.triggers, anim.duration.as_str(), &ends)), p);
    proof {
        assert(ci[0] == class_indexes@[0]@);
        assert(ci[1] == class_indexes@[1]@);
        assert(ci[2] == class_indexes@[2]@);
        assert(ci[3] == class_indexes@[3]@);
        assert(ci[4] == class_indexes@[4]@);
        assert(ci[5] == class_indexes@[5]@);
        assert(ci[6] == class_indexes@[6]@);
        assert(ci[7] == class_indexes@[7]@);
        assert(ci[8] == class_indexes@[8]@);
        assert(ci[9] == class_indexes@[9]@);
        assert(ci[10] == class_indexes@[10]@);
        assert(ci[12] == class_indexes@[12]@);
        assert(id0 as nat == spec_state_id(ci[0]));
        assert(texts_of(ends@) =~= seq!["156"@, "1070"@]);
    }
    let ghost spec = spec_pair_player(*anim, namespace@, p, ci);
    assert(pair_view(x0) == spec[0]);
    assert(pair_view(x1) == spec[1]);
    assert(pair_view(x2) == spec[2]);
    assert(pair_view(x3) == spec[3]);
    assert(pair_view(x4) == spec[4]);
    assert(pair_view(x5) == spec[5]);
    assert(pair_view(x6) == spec[6]);
    assert(pair_view(x7) == spec[7]);
    assert(pair_view(x8) == spec[8]);
    assert(pair_view(x9) == spec[9]);
    assert(pair_view(x10) == spec[10]);
    let r = vec![x0, x1, x2, x3, x4, x5, x6, x7, x8, x9, x10];
    assert(pairs_view(r@) =~= spec);
    r
}

#[verifier::rlimit(100)]
fn pair_npc_patches(
    anim: &PairedAndKillAnimation,
    namespace: &str,
    p: usize,
    class_indexes: &Vec<String>,
) -> (r: Vec<PatchPair>)
    requires
        class_indexes@.len() == 22 + anim.anim_objects@.len(),
    ensures
        pairs_view(r@) == spec_pair_npc(*anim, namespace@, p, texts(class_indexes@)),
{
    let ghost ci = texts(class_indexes@);
    let c = class_indexes;
    let names = paired_names(namespace, anim.anim_file.as_str(), c[0].as_str(), c[12].as_str());
    let flags = anim.flags;
    let nr = &names.npc_root_state_name;
    let id0 = calculate_hash(c[0].as_str()) as u64;
    let nb = numbered_text("NPC_FNISpa", id0);
    let ends: Vec<&str> = Vec::new();
    let paired = numbered_text("NPC_Paired_FNISpa", id0);
    let x0 = make_player_root_state_info_patch(c[11].as_str(), c[12].as_str(), flags, p, nr.as_str());
    let x1 = patch2(c[12].as_str(), "hkbStateMachine", state_machine_text(c[12].as_str(), c[13].as_str(), suffixed(&nb, "$_Behavior").as_str(), one_state_text(c[14].as_str())), p);
    let x2 = patch2(c[13].as_str(), "hkbVariableBindingSet", binding_set_text(c[13].as_str(), one_binding_text("isActive", "51")), p);
    let x3 = patch2(c[14].as_str(), "hkbStateMachineStateInfo", state_info_text(c[14].as_str(), "#0000", "#0000", "#0000", c[15].as_str(), suffixed(&nb, "_DisablePitch").as_str(), String::from_str("0")), p);
    let x4 = patch2(c[15].as_str(), "hkbStateMachine", state_machine_text(c[15].as_str(), c[16].as_str(), suffixed(&nb, "_DisablePitch_Behavior").as_str(), one_state_text(c[17].as_str())), p);
    let x5 = patch2(c[16].as_str(), "hkbVariableBindingSet", binding_set_text(c[16].as_str(), one_binding_text("isActive", "58")), p);
    let x6 = make_event_state_info_patch(c[17].as_str(), flags, c[18].as_str(), c[19].as_str(), p, names.npc_event.as_str());
    let x7 = patch2(c[18].as_str(), "hkbStateMachineEventPropertyArray", ptr_object_text(c[18].as_str(), "events", pair_events_text(flags, &anim.anim_objects, c, ActorRole::Passive)), p);
    let x8 = patch2(c[19].as_str(), "BSSynchronizedClipGenerator", sync_clip_generator_text(c[19].as_str(), anim.anim_event.as_str(), c[20].as_str(), json_string_text("2_").as_str(), "true"), p);
    let x9 = patch2(c[20].as_str(), "hkbClipGenerator", clip_generator_text(c[20].as_str(), paired.as_str(), names.anim_file.as_str(), c[21].as_str(), "MODE_SINGLE_PLAY"), p);
    let x10 = patch2(c[21].as_str(), "hkbClipTriggerArray", ptr_object_text(c[21].as_str(), "triggers", pair_triggers_text(&anim.triggers, anim.duration.as_str(), &ends)), p);
    proof {
        assert(ci[0] == class_indexes@[0]@);
        assert(ci[11] == class_indexes@[11]@);
        assert(ci[12] == class_indexes@[12]@);
        assert(ci[13] == class_indexes@[13]@);
        assert(ci[14] == class_indexes@[14]@);
        assert(ci[15] == class_indexes@[15]@);
        assert(ci[16] == class_indexes@[16]@);
        assert(ci[17] == class_indexes@[17]@);
        assert(ci[18] == class_indexes@[18]@);
        assert(ci[19] == class_indexes@[19]@);
        assert(ci[20] == class_indexes@[20]@);
        assert(ci[21] == class_indexes@[21]@);
        assert(id0 as nat == spec_state_id(ci[0]));
        assert(texts_of(ends@) =~= Seq::<Seq<char>>::empty());
    }
    let ghost spec = spec_pair_npc(*anim, namespace@, p, ci);
    assert(pair_view(x0) == spec[0]);
    assert(pair_view(x1) == spec[1]);
    assert(pair_view(x2) == spec[2]);
    assert(pair_view(x3) == spec[3]);
    assert(pair_view(x4) == spec[4]);
    assert(pair_view(x5) == spec[5]);
    assert(pair_view(x6) == spec[6]);
    assert(pair_view(x7) == spec[7]);
    assert(pair_view(x8) == spec[8]);
    assert(pair_view(x9) == spec[9]);
    assert(pair_view(x10) == spec[10]);
    let r = vec![x0, x1, x2, x3, x4, x5, x6, x7, x8, x9, x10];
    assert(pairs_view(r@) =~= spec);
    r
}

/// The patches of a paired animation of the mod `namespace` with priority `priority`, for
/// `0_master`: `(single-value patches, array patches)`.
///
/// `class_indexes` are the new class names: 22 for the states, generators and arrays, then
/// one per animation object. An actor's event state loads and draws the animation objects
/// of that actor. Trigger times and the duration are written as the number texts they are
/// given as.
#[verifier::rlimit(80)]
pub fn new_pair_patches(
    anim: &PairedAndKillAnimation,
    namespace: &str,
    priority: usize,
    class_indexes: &Vec<String>,
) -> (r: (Vec<PatchPair>, Vec<PatchPair>))
    requires
        class_indexes@.len() == 22 + anim.anim_objects@.len(),
    ensures
        pairs_view(r.0@) == spec_pair_one(*anim, namespace@, priority, texts(class_indexes@)),
        pairs_view(r.1@) == spec_pair_seq(*anim, priority, texts(class_indexes@)),
{
    let ghost ci = texts(class_indexes@);
    let names = paired_names(namespace, anim.anim_file.as_str(), class_indexes[0].as_str(), class_indexes[12].as_str());

    let mut seq_patches: Vec<PatchPair> = Vec::new();
    seq_patches.push(new_push_transitions_seq_patch(
        "#0789",
        (anim.anim_event.as_str(), names.npc_event.as_str()),
        (names.player_root_state_name.as_str(), names.npc_root_state_name.as_str()),
        priority,
    ));
    let states = vec![json_string_text(class_indexes[0].as_str()), json_string_text(class_indexes[12].as_str())];
    proof {
        assert(ci[0] == class_indexes@[0]@);
        assert(ci[12] == class_indexes@[12]@);
    }
    assert(texts(states@) =~= seq![json_string(ci[0]), json_string(ci[12])]);
    seq_patches.push(patch3("#0788", "hkbStateMachine", "states", json_array_text(&states), priority));
    assert(pairs_view(seq_patches@) =~= spec_pair_seq(*anim, priority, ci));

    let mut one_patches: Vec<PatchPair> = Vec::new();
    let n = anim.anim_objects.len();
    let total = class_indexes.len();
    let mut i: usize = 0;
    while i < n
        invariant
            n == anim.anim_objects@.len(),
            total == class_indexes@.len(),
            class_indexes@.len() == 22 + n,
            ci == texts(class_indexes@),
            i <= n,
            pairs_view(one_patches@) =~= spec_anim_object_patches(object_names(anim.anim_objects@), ci, 22, priority).take(i as int),
        decreases n - i,
    {
        let index = class_indexes[22 + i].as_str();
        let pp = patch2(index, "hkbStringEventPayload", string_payload_text(index, anim.anim_objects[i].name.as_str()), priority);
        let ghost before = one_patches@;
        one_patches.push(pp);
        proof {
            assert(ci[22 + i] == class_indexes@[22 + i]@);
            assert(one_patches@ =~= before.push(pp));
            assert(pairs_view(one_patches@) =~= pairs_view(before).push(pair_view(pp)));
            assert(pairs_view(one_patches@) =~= spec_anim_object_patches(object_names(anim.anim_objects@), ci, 22, priority).take(i + 1));
        }
        i = i + 1;
    }
    let ghost objs = one_patches@;
    let mut player = pair_player_patches(anim, namespace, priority, class_indexes);
    let mut npc = pair_npc_patches(anim, namespace, priority, class_indexes);
    let ghost pv = player@;
    let ghost nv = npc@;
    one_patches.append(&mut player);
    one_patches.append(&mut npc);
    assert(one_patches@ =~= objs + pv + nv);
    assert(spec_anim_object_patches(object_names(anim.anim_objects@), ci, 22, priority).take(n as int)
        =~= spec_anim_object_patches(object_names(anim.anim_objects@), ci, 22, priority));
    assert(pairs_view(one_patches@) =~= pairs_view(objs) + pairs_view(pv) + pairs_view(nv));
    (one_patches, seq_patches)
}

/// Each actor's event state of a paired animation turns head tracking off (`366`) three
/// times exactly when the animation does not keep head tracking (`h`), then loads and draws
/// (`937`, `936`) each animation object of that actor.
pub proof fn lemma_pair_event_arrays(anim: PairedAndKillAnimation, namespace: Seq<char>, p: usize, ci: Seq<Seq<char>>)
    requires
        ci.len() == 22 + anim.anim_objects@.len(),
    ensures
        ({
            let n = anim.anim_objects@.len() as int;
            let h = anim.flags.head_tracking;
            let one = spec_pair_one(anim, namespace, p, ci);
            let off = spec_event_property("366"@, "#0000"@);
            &&& exists|e: Seq<Seq<char>>|
                one[n + 7] == patch_of(
                    seq![ci[7], "hkbStateMachineEventPropertyArray"@],
                    spec_ptr_object(ci[7], "events"@, #[trigger] json_array(e)),
                    p,
                ) && e.len() == (if h { 0int } else { 3int }) + 2 * role_indexes(anim.anim_objects@, ci, 22, ActorRole::Active).len()
                    && (!h ==> e[0] == off && e[1] == off && e[2] == off)
            &&& exists|e: Seq<Seq<char>>|
                one[n + 18] == patch_of(
                    seq![ci[18], "hkbStateMachineEventPropertyArray"@],
                    spec_ptr_object(ci[18], "events"@, #[trigger] json_array(e)),
                    p,
                ) && e.len() == (if h { 0int } else { 3int }) + 2 * role_indexes(anim.anim_objects@, ci, 22, ActorRole::Passive).len()
                    && (!h ==> e[0] == off && e[1] == off && e[2] == off)
        }),
{
    let n = anim.anim_objects@.len() as int;
    let h = anim.flags.head_tracking;
    let one = spec_pair_one(anim, namespace, p, ci);
    let off = spec_event_property("366"@, "#0000"@);
    assert(spec_anim_object_patches(object_names(anim.anim_objects@), ci, 22, p).len() == n);
    let a = role_indexes(anim.anim_objects@, ci, 22, ActorRole::Active);
    let b = role_indexes(anim.anim_objects@, ci, 22, ActorRole::Passive);
    lemma_object_events_len(a);
    lemma_object_events_len(b);
    let ea = spec_pair_events(anim.flags, a);
    let eb = spec_pair_events(anim.flags, b);
    assert(one[n + 7] == spec_pair_player(anim, namespace, p, ci)[7]);
    assert(one[n + 18] == spec_pair_npc(anim, namespace, p, ci)[7]);
    assert(ea.len() == (if h { 0int } else { 3int }) + 2 * a.len());
    assert(eb.len() == (if h { 0int } else { 3int }) + 2 * b.len());
    assert(!h ==> ea[0] == off && ea[1] == off && ea[2] == off);
    assert(!h ==> eb[0] == off && eb[1] == off && eb[2] == off);
    assert(one[n + 7] == patch_of(
        seq![ci[7], "hkbStateMachineEventPropertyArray"@],
        spec_ptr_object(ci[7], "events"@, json_array(ea)),
        p,
    ));
    assert(one[n + 18] == patch_of(
        seq![ci[18], "hkbStateMachineEventPropertyArray"@],
        spec_ptr_object(ci[18], "events"@, json_array(eb)),
        p,
    ));
    assert(one[n + 7] == patch_of(
        seq![ci[7], "hkbStateMachineEventPropertyArray"@],
        spec_ptr_object(ci[7], "events"@, json_array(ea)),
        p,
    ) && ea.len() == (if h { 0int } else { 3int }) + 2 * a.len() && (!h ==> ea[0] == off && ea[1] == off && ea[2] == off));
    assert(one[n + 18] == patch_of(
        seq![ci[18], "hkbStateMachineEventPropertyArray"@],
        spec_ptr_object(ci[18], "events"@, json_array(eb)),
        p,
    ) && eb.len() == (if h { 0int } else { 3int }) + 2 * b.len() && (!h ==> eb[0] == off && eb[1] == off && eb[2] == off));
}

proof fn lemma_object_events_len(indexes: Seq<Seq<char>>)
    ensures
        spec_object_events(indexes).len() == 2 * indexes.len(),
    decreases indexes.len(),
{
    if indexes.len() > 0 {
        lemma_object_events_len(indexes.drop_last());
    }
}

} // verus!
