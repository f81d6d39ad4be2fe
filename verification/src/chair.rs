//! The animation files of an FNIS chair animation.
//!
//! A chair animation has a start animation and up to four sequenced ones; its behavior
//! always plays five files, so missing sequenced animations reuse the last available one.
use vstd::prelude::*;

use crate::anim_seq::{
    new_push_events_seq_patch, new_push_values_seq_patch, spec_push_events, spec_push_values,
};
use crate::fnis_anim::{
    binding_set_text, clip_generator_text, event_id_variable, event_property_text,
    interval_text, pair_view, pairs_view, patch2, patch3, patch_of, ptr_object_text,
    spec_binding_set, spec_clip_generator, spec_event_property, spec_interval,
    spec_modifier_generator, spec_no_event, spec_ptr_object, spec_state_info,
    spec_trigger_event, state_info_text, string_payload_text, trigger_event_text,
    modifier_generator_text, no_event_text, PatchPair,
};
use crate::fnis_names::{numbered, numbered_text, spec_state_id};
use crate::fnis_paths::{animation_path, spec_animation_path};
use crate::hashing::calculate_hash;
use crate::json::{
    json_array, json_array_text, json_object, json_object_text, json_string, json_string_text,
    member_texts, texts,
};
use crate::kill_move::{one_binding_text, spec_one_binding};
use crate::offset_arm::spec_anim_object_patches;
use crate::text::{decimal, u64_to_decimal};

verus! {

/// The animation played at step `i` (0 to 4) of a chair: the start animation at step 0
/// or when there is no sequenced animation; otherwise sequenced animation `i - 1`, or the
/// last sequenced one when there are fewer.
pub open spec fn chair_anim_file(start: &str, sequenced: Seq<&str>, i: int) -> Seq<char> {
    if i == 0 || sequenced.len() == 0 {
        start@
    } else if i - 1 < sequenced.len() {
        sequenced[i - 1]@
    } else {
        sequenced.last()@
    }
}

fn anim_file_at<'a>(start: &'a str, sequenced: &Vec<&'a str>, i: usize) -> (r: &'a str)
    requires
        i < 5,
    ensures
        r@ == chair_anim_file(start, sequenced@, i as int),
{
    if i == 0 || sequenced.len() == 0 {
        start
    } else if i - 1 < sequenced.len() {
        sequenced[i - 1]
    } else {
        sequenced[sequenced.len() - 1]
    }
}

/// Builds exactly 5 animation file paths, `Animations\<namespace>\<file>`.
///
/// Missing sequenced animations reuse the last available animation.
pub fn build_anim_files(namespace: &str, start_anim_file: &str, sequenced: &Vec<&str>) -> (r: [
    String;
    5
])
    ensures
        forall|i: int|
            0 <= i < 5 ==> #[trigger] r@[i]@ == spec_animation_path(
                namespace@,
                chair_anim_file(start_anim_file, sequenced@, i),
            ),
{
    let r = [
        animation_path(namespace, anim_file_at(start_anim_file, sequenced, 0)),
        animation_path(namespace, anim_file_at(start_anim_file, sequenced, 1)),
        animation_path(namespace, anim_file_at(start_anim_file, sequenced, 2)),
        animation_path(namespace, anim_file_at(start_anim_file, sequenced, 3)),
        animation_path(namespace, anim_file_at(start_anim_file, sequenced, 4)),
    ];
    r
}

/// A chair animation entry of an FNIS list, as patch generation reads it.
#[derive(Debug, Clone, PartialEq, Eq)]
pub struct ChairAnimation {
    /// The event of the start animation.
    pub anim_event: String,
    /// The file of the start animation, relative to the namespace directory.
    pub anim_file: String,
    /// The names of the start animation's variables.
    pub anim_vars: Vec<String>,
    /// The names of the start animation's objects, in list order.
    pub anim_objects: Vec<String>,
    /// The files of the sequenced animations.
    pub sequenced: Vec<String>,
}

/// The file played at step `i` (0 to 4) of a chair, as in [`chair_anim_file`].
pub open spec fn chair_file(c: ChairAnimation, i: int) -> Seq<char> {
    if i == 0 || c.sequenced@.len() == 0 {
        c.anim_file@
    } else if i - 1 < c.sequenced@.len() {
        c.sequenced@[i - 1]@
    } else {
        c.sequenced@.last()@
    }
}

fn chair_file_at(c: &ChairAnimation, i: usize) -> (r: &str)
    requires
        i < 5,
    ensures
        r@ == chair_file(*c, i as int),
{
    if i == 0 || c.sequenced.len() == 0 {
        c.anim_file.as_str()
    } else if i - 1 < c.sequenced.len() {
        c.sequenced[i - 1].as_str()
    } else {
        c.sequenced[c.sequenced.len() - 1].as_str()
    }
}

/// An `hkbStateMachine` object of a chair, with its random transition event, its states
/// (a JSON array) and its wildcard transitions.
pub open spec fn spec_chair_machine(
    ptr: Seq<char>,
    binding: Seq<char>,
    name: Seq<char>,
    random_event: Seq<char>,
    states: Seq<char>,
    wildcard: Seq<char>,
) -> Seq<char> {
    json_object(
        seq![
            ("__ptr"@, json_string(ptr)),
            ("variableBindingSet"@, json_string(binding)),
            ("userData"@, "0"@),
            ("name"@, json_string(name)),
            ("eventToSendWhenStateOrTransitionChanges"@, spec_no_event()),
            ("startStateChooser"@, json_string("#0000"@)),
            ("startStateId"@, "0"@),
            ("returnToPreviousStateEventId"@, "-1"@),
            ("randomTransitionEventId"@, random_event),
            ("transitionToNextHigherStateEventId"@, "-1"@),
            ("transitionToNextLowerStateEventId"@, "-1"@),
            ("syncVariableIndex"@, "-1"@),
            ("wrapAroundStateId"@, "false"@),
            ("maxSimultaneousTransitions"@, "32"@),
            ("startStateMode"@, json_string("START_STATE_MODE_DEFAULT"@)),
            ("selfTransitionMode"@, json_string("SELF_TRANSITION_MODE_NO_TRANSITION"@)),
            ("states"@, states),
            ("wildcardTransitions"@, json_string(wildcard)),
        ],
    )
}

fn chair_machine_text(
    ptr: &str,
    binding: &str,
    name: &str,
    random_event: &str,
    states: String,
    wildcard: &str,
) -> (r: String)
    ensures
        r@ == spec_chair_machine(ptr@, binding@, name@, random_event@, states@, wildcard@),
{
    let ghost states_text = states@;
    let fields = vec![
        ("__ptr", json_string_text(ptr)),
        ("variableBindingSet", json_string_text(binding)),
        ("userData", String::from_str("0")),
        ("name", json_string_text(name)),
        ("eventToSendWhenStateOrTransitionChanges", no_event_text()),
        ("startStateChooser", json_string_text("#0000")),
        ("startStateId", String::from_str("0")),
        ("returnToPreviousStateEventId", String::from_str("-1")),
        ("randomTransitionEventId", String::from_str(random_event)),
        ("transitionToNextHigherStateEventId", String::from_str("-1")),
        ("transitionToNextLowerStateEventId", String::from_str("-1")),
        ("syncVariableIndex", String::from_str("-1")),
        ("wrapAroundStateId", String::from_str("false")),
        ("maxSimultaneousTransitions", String::from_str("32")),
        ("startStateMode", json_string_text("START_STATE_MODE_DEFAULT")),
        ("selfTransitionMode", json_string_text("SELF_TRANSITION_MODE_NO_TRANSITION")),
        ("states", states),
        ("wildcardTransitions", json_string_text(wildcard)),
    ];
    assert(member_texts(fields@) =~= seq![
        ("__ptr"@, json_string(ptr@)),
        ("variableBindingSet"@, json_string(binding@)),
        ("userData"@, "0"@),
        ("name"@, json_string(name@)),
        ("eventToSendWhenStateOrTransitionChanges"@, spec_no_event()),
        ("startStateChooser"@, json_string("#0000"@)),
        ("startStateId"@, "0"@),
        ("returnToPreviousStateEventId"@, "-1"@),
        ("randomTransitionEventId"@, random_event@),
        ("transitionToNextHigherStateEventId"@, "-1"@),
        ("transitionToNextLowerStateEventId"@, "-1"@),
        ("syncVariableIndex"@, "-1"@),
        ("wrapAroundStateId"@, "false"@),
        ("maxSimultaneousTransitions"@, "32"@),
        ("startStateMode"@, json_string("START_STATE_MODE_DEFAULT"@)),
        ("selfTransitionMode"@, json_string("SELF_TRANSITION_MODE_NO_TRANSITION"@)),
        ("states"@, states_text),
        ("wildcardTransitions"@, json_string(wildcard@)),
    ]);
    json_object_text(&fields)
}

/// Three states, as an array.
pub open spec fn spec_three_states(a: Seq<char>, b: Seq<char>, c: Seq<char>) -> Seq<char> {
    json_array(seq![json_string(a), json_string(b), json_string(c)])
}

fn three_states_text(a: &str, b: &str, c: &str) -> (r: String)
    ensures
        r@ == spec_three_states(a@, b@, c@),
{
    let items = vec![json_string_text(a), json_string_text(b), json_string_text(c)];
    assert(texts(items@) =~= seq![json_string(a@), json_string(b@), json_string(c@)]);
    json_array_text(&items)
}

/// A clip trigger 0.2 s before the end of the clip, sending event `id` with `payload`.
pub open spec fn spec_chair_trigger(id: Seq<char>, payload: Seq<char>) -> Seq<char> {
    json_object(
        seq![
            ("localTime"@, "-0.2"@),
            ("event"@, spec_event_property(id, payload)),
            ("relativeToEndOfClip"@, "true"@),
            ("acyclic"@, "false"@),
            ("isAnnotation"@, "false"@),
        ],
    )
}

pub(crate) fn chair_trigger_text(id: &str, payload: &str) -> (r: String)
    ensures
        r@ == spec_chair_trigger(id@, payload@),
{
    let fields = vec![
        ("localTime", String::from_str("-0.2")),
        ("event", event_property_text(id, payload)),
        ("relativeToEndOfClip", String::from_str("true")),
        ("acyclic", String::from_str("false")),
        ("isAnnotation", String::from_str("false")),
    ];
    assert(member_texts(fields@) =~= seq![
        ("localTime"@, "-0.2"@),
        ("event"@, spec_event_property(id@, payload@)),
        ("relativeToEndOfClip"@, "true"@),
        ("acyclic"@, "false"@),
        ("isAnnotation"@, "false"@),
    ]);
    json_object_text(&fields)
}

/// The triggers of the start clip: the next clip (`91`), then drawing (`394`) each
/// animation object (class names from 19 on).
pub open spec fn spec_chair_triggers(ci: Seq<Seq<char>>, n: nat) -> Seq<Seq<char>> {
    seq![spec_chair_trigger("91"@, "#0000"@)] + Seq::new(n, |k: int| spec_chair_trigger("394"@, ci[19 + k]))
}

/// The events of the idle state: loading (`393`) each animation object.
pub open spec fn spec_chair_load_events(ci: Seq<Seq<char>>, n: nat) -> Seq<Seq<char>> {
    Seq::new(n, |k: int| spec_event_property("393"@, ci[19 + k]))
}

fn chair_object_texts(class_indexes: &Vec<String>, n: usize) -> (r: (String, String))
    requires
        class_indexes@.len() == 19 + n,
    ensures
        r.0@ == json_array(spec_chair_load_events(texts(class_indexes@), n as nat)),
        r.1@ == json_array(spec_chair_triggers(texts(class_indexes@), n as nat)),
{
    let ghost ci = texts(class_indexes@);
    let total = class_indexes.len();
    let mut events: Vec<String> = Vec::new();
    let mut triggers: Vec<String> = Vec::new();
    triggers.push(chair_trigger_text("91", "#0000"));
    let mut k: usize = 0;
    while k < n
        invariant
            k <= n,
            total == class_indexes@.len(),
            class_indexes@.len() == 19 + n,
            ci == texts(class_indexes@),
            texts(events@) =~= spec_chair_load_events(ci, k as nat),
            texts(triggers@) =~= spec_chair_triggers(ci, k as nat),
        decreases n - k,
    {
        let index = class_indexes[19 + k].as_str();
        let e = event_property_text("393", index);
        let t = chair_trigger_text("394", index);
        let ghost eb = events@;
        let ghost tb = triggers@;
        events.push(e);
        triggers.push(t);
        proof {
            assert(ci[19 + k] == class_indexes@[19 + k]@);
            assert(texts(events@) =~= texts(eb).push(e@));
            assert(texts(triggers@) =~= texts(tb).push(t@));
        }
        k = k + 1;
    }
    (json_array_text(&events), json_array_text(&triggers))
}

/// The `BSEventEveryNEventsModifier` of a chair's talking state: after 2 to 5 count-down
/// ticks (`168`) it sends the next clip event (`132`).
pub open spec fn spec_every_n_modifier(ptr: Seq<char>, name: Seq<char>) -> Seq<char> {
    json_object(
        seq![
            ("__ptr"@, json_string(ptr)),
            ("variableBindingSet"@, json_string("#0000"@)),
            ("userData"@, "3"@),
            ("name"@, json_string(name)),
            ("enable"@, "true"@),
            ("eventToCheckFor"@, spec_trigger_event("168"@)),
            ("eventToSend"@, spec_trigger_event("132"@)),
            ("numberOfEventsBeforeSend"@, "5"@),
            ("minimumNumberOfEventsBeforeSend"@, "2"@),
            ("randomizeNumberOfEvents"@, "true"@),
        ],
    )
}

fn every_n_modifier_text(ptr: &str, name: &str) -> (r: String)
    ensures
        r@ == spec_every_n_modifier(ptr@, name@),
{
    let fields = vec![
        ("__ptr", json_string_text(ptr)),
        ("variableBindingSet", json_string_text("#0000")),
        ("userData", String::from_str("3")),
        ("name", json_string_text(name)),
        ("enable", String::from_str("true")),
        ("eventToCheckFor", trigger_event_text("168")),
        ("eventToSend", trigger_event_text("132")),
        ("numberOfEventsBeforeSend", String::from_str("5")),
        ("minimumNumberOfEventsBeforeSend", String::from_str("2")),
        ("randomizeNumberOfEvents", String::from_str("true")),
    ];
    assert(member_texts(fields@) =~= seq![
        ("__ptr"@, json_string(ptr@)),
        ("variableBindingSet"@, json_string("#0000"@)),
        ("userData"@, "3"@),
        ("name"@, json_string(name@)),
        ("enable"@, "true"@),
        ("eventToCheckFor"@, spec_trigger_event("168"@)),
        ("eventToSend"@, spec_trigger_event("132"@)),
        ("numberOfEventsBeforeSend"@, "5"@),
        ("minimumNumberOfEventsBeforeSend"@, "2"@),
        ("randomizeNumberOfEvents"@, "true"@),
    ]);
    json_object_text(&fields)
}

/// The transition, on the start event, to the chair's idle state `id` with the mod's
/// priority.
pub open spec fn spec_chair_transition(event: Seq<char>, id: nat, priority: usize) -> Seq<char> {
    json_object(
        seq![
            ("triggerInterval"@, spec_interval()),
            ("initiateInterval"@, spec_interval()),
            ("transition"@, json_string("#0091"@)),
            ("condition"@, json_string("#0000"@)),
            ("eventId"@, json_string(event_id_variable(event))),
            ("toStateId"@, decimal(id)),
            ("fromNestedStateId"@, "0"@),
            ("toNestedStateId"@, "0"@),
            ("priority"@, decimal(priority as nat)),
            ("flags"@, json_string("FLAG_DISABLE_CONDITION"@)),
        ],
    )
}

fn chair_transition_text(event: &str, id: u64, priority: usize) -> (r: String)
    ensures
        r@ == spec_chair_transition(event@, id as nat, priority),
{
    let mut event_id = String::from_str("$eventID[");
    event_id.append(event);
    event_id.append("]$");
    let fields = vec![
        ("triggerInterval", interval_text()),
        ("initiateInterval", interval_text()),
        ("transition", json_string_text("#0091")),
        ("condition", json_string_text("#0000")),
        ("eventId", json_string_text(event_id.as_str())),
        ("toStateId", u64_to_decimal(id)),
        ("fromNestedStateId", String::from_str("0")),
        ("toNestedStateId", String::from_str("0")),
        ("priority", u64_to_decimal(priority as u64)),
        ("flags", json_string_text("FLAG_DISABLE_CONDITION")),
    ];
    assert(member_texts(fields@) =~= seq![
        ("triggerInterval"@, spec_interval()),
        ("initiateInterval"@, spec_interval()),
        ("transition"@, json_string("#0091"@)),
        ("condition"@, json_string("#0000"@)),
        ("eventId"@, json_string(event_id_variable(event@))),
        ("toStateId"@, decimal(id as nat)),
        ("fromNestedStateId"@, "0"@),
        ("toNestedStateId"@, "0"@),
        ("priority"@, decimal(priority as nat)),
        ("flags"@, json_string("FLAG_DISABLE_CONDITION"@)),
    ]);
    json_object_text(&fields)
}

/// The classes of a chair (class names 0 to 18): its idle state with start, idle,
/// variation and talking states, named after the state id of class name 0.
pub open spec fn spec_chair_classes(
    c: ChairAnimation,
    namespace: Seq<char>,
    p: usize,
    ci: Seq<Seq<char>>,
) -> Seq<(Seq<Seq<char>>, (Seq<char>, usize))> {
    let id = spec_state_id(ci[0]);
    let n = c.anim_objects@.len();
    seq![
        patch_of(seq![ci[0], "hkbStateMachineStateInfo"@], spec_state_info(ci[0], ci[1], "#1731"@, "#1730"@, ci[2], numbered("FNISChairIdleState"@, id), decimal(id)), p),
        patch_of(seq![ci[1], "hkbStateMachineEventPropertyArray"@], spec_ptr_object(ci[1], "events"@, json_array(spec_chair_load_events(ci, n))), p),
        patch_of(seq![ci[2], "hkbStateMachine"@], spec_chair_machine(ci[2], ci[3], numbered("FNISChairIdleBehavior"@, id), "-1"@, spec_three_states(ci[4], ci[7], ci[15]), "#1720"@), p),
        patch_of(seq![ci[3], "hkbVariableBindingSet"@], spec_binding_set(ci[3], spec_one_binding("isActive"@, "60"@)), p),
        patch_of(seq![ci[4], "hkbStateMachineStateInfo"@], spec_state_info(ci[4], "#0000"@, "#0000"@, "#0000"@, ci[5], numbered("FNISChairIdleStart"@, id), "0"@), p),
        patch_of(seq![ci[5], "hkbClipGenerator"@], spec_clip_generator(ci[5], numbered("FNISChairIdleStart"@, id), spec_animation_path(namespace, chair_file(c, 0)), ci[6], "MODE_SINGLE_PLAY"@), p),
        patch_of(seq![ci[6], "hkbClipTriggerArray"@], spec_ptr_object(ci[6], "triggers"@, json_array(spec_chair_triggers(ci, n))), p),
        patch_of(seq![ci[7], "hkbStateMachineStateInfo"@], spec_state_info(ci[7], "#0000"@, "#0000"@, "#0000"@, ci[8], numbered("FNISChairIdle"@, id), "1"@), p),
        patch_of(seq![ci[8], "hkbStateMachine"@], spec_chair_machine(ci[8], "#0000"@, numbered("FNISChairIdleBehavior"@, id), "91"@, spec_three_states(ci[9], ci[11], ci[13]), "#1117"@), p),
        patch_of(seq![ci[9], "hkbStateMachineStateInfo"@], spec_state_info(ci[9], "#0000"@, "#0000"@, "#0000"@, ci[10], numbered("FNISChairIdleBase"@, id), "0"@), p),
        patch_of(seq![ci[10], "hkbClipGenerator"@], spec_clip_generator(ci[10], numbered("FNISChairIdleBase"@, id), spec_animation_path(namespace, chair_file(c, 1)), ci[6], "MODE_LOOPING"@), p),
        patch_of(seq![ci[11], "hkbStateMachineStateInfo"@], spec_state_info(ci[11], "#1127"@, "#1126"@, "#0000"@, ci[12], numbered("FNISChairIdleVar1_"@, id), "1"@), p),
        patch_of(seq![ci[12], "hkbClipGenerator"@], spec_clip_generator(ci[12], numbered("FNISChairIdleVar1_"@, id), spec_animation_path(namespace, chair_file(c, 2)), "#5222"@, "MODE_LOOPING"@), p),
        patch_of(seq![ci[13], "hkbStateMachineStateInfo"@], spec_state_info(ci[13], "#1127"@, "#1126"@, "#0000"@, ci[12], numbered("FNISChairIdleVar2_"@, id), "2"@), p),
        patch_of(seq![ci[14], "hkbClipGenerator"@], spec_clip_generator(ci[14], numbered("FNISChairIdleVar2_"@, id), spec_animation_path(namespace, chair_file(c, 3)), "#5222"@, "MODE_LOOPING"@), p),
        patch_of(seq![ci[15], "hkbStateMachineStateInfo"@], spec_state_info(ci[15], "#0000"@, "#0000"@, "#1721"@, ci[16], numbered("FNISChairTalkingState"@, id), "2"@), p),
        patch_of(seq![ci[16], "hkbModifierGenerator"@], spec_modifier_generator(ci[16], numbered("FNISChairIdle_MG"@, id), ci[17], ci[18]), p),
        patch_of(seq![ci[17], "BSEventEveryNEventsModifier"@], spec_every_n_modifier(ci[17], numbered("BSEventEveryNEventsMod_5and2_"@, id)), p),
        patch_of(seq![ci[18], "hkbClipGenerator"@], spec_clip_generator(ci[18], numbered("FNISChairTalking"@, id), spec_animation_path(namespace, chair_file(c, 4)), "#1114"@, "MODE_LOOPING"@), p),
    ]
}

/// The single-value patches of a chair: its animation objects (class names from 19 on),
/// then its classes.
pub open spec fn spec_chair_one(
    c: ChairAnimation,
    namespace: Seq<char>,
    p: usize,
    ci: Seq<Seq<char>>,
) -> Seq<(Seq<Seq<char>>, (Seq<char>, usize))> {
    spec_anim_object_patches(c.anim_objects@, ci, 19, p) + spec_chair_classes(c, namespace, p, ci)
}

/// The array patches of a chair: its start event registered in `mt_behavior`'s string
/// data `#0083` and graph data `#0085`; its variables, if any, there and in the value set
/// `#0084`; the transition of `#1227` from the start event to the idle state; and the idle
/// state pushed to the state machine `#1755`.
pub open spec fn spec_chair_seq(c: ChairAnimation, p: usize, ci: Seq<Seq<char>>) -> Seq<
    (Seq<Seq<char>>, (Seq<char>, usize)),
> {
    spec_push_events(seq![c.anim_event@], "#0083"@, "#0085"@, p) + (if c.anim_vars@.len() == 0 {
        Seq::empty()
    } else {
        spec_push_values(texts(c.anim_vars@), "#0083"@, "#0084"@, "#0085"@, p)
    }) + seq![
        patch_of(
            seq!["#1227"@, "hkbStateMachineTransitionInfoArray"@, "transitions"@],
            json_array(seq![spec_chair_transition(c.anim_event@, spec_state_id(ci[0]), p)]),
            p,
        ),
        patch_of(seq!["#1755"@, "hkbStateMachine"@, "states"@], json_array(seq![json_string(ci[0])]), p),
    ]
}

#[verifier::rlimit(100)]
fn chair_class_patches(
    c: &ChairAnimation,
    namespace: &str,
    p: usize,
    class_indexes: &Vec<String>,
) -> (r: Vec<PatchPair>)
    requires
        class_indexes@.len() == 19 + c.anim_objects@.len(),
    ensures
        pairs_view(r@) == spec_chair_classes(*c, namespace@, p, texts(class_indexes@)),
{
    let ghost ci = texts(class_indexes@);
    let x = class_indexes;
    let id = calculate_hash(x[0].as_str()) as u64;
    let (events, triggers) = chair_object_texts(x, c.anim_objects.len());
    let f0 = animation_path(namespace, chair_file_at(c, 0));
    let f1 = animation_path(namespace, chair_file_at(c, 1));
    let f2 = animation_path(namespace, chair_file_at(c, 2));
    let f3 = animation_path(namespace, chair_file_at(c, 3));
    let f4 = animation_path(namespace, chair_file_at(c, 4));
    let start = numbered_text("FNISChairIdleStart", id);
    let behavior = numbered_text("FNISChairIdleBehavior", id);
    let base = numbered_text("FNISChairIdleBase", id);
    let var1 = numbered_text("FNISChairIdleVar1_", id);
    let var2 = numbered_text("FNISChairIdleVar2_", id);
    let x0 = patch2(x[0].as_str(), "hkbStateMachineStateInfo", state_info_text(x[0].as_str(), x[1].as_str(), "#1731", "#1730", x[2].as_str(), numbered_text("FNISChairIdleState", id).as_str(), u64_to_decimal(id)), p);
    let x1 = patch2(x[1].as_str(), "hkbStateMachineEventPropertyArray", ptr_object_text(x[1].as_str(), "events", events), p);
    let x2 = patch2(x[2].as_str(), "hkbStateMachine", chair_machine_text(x[2].as_str(), x[3].as_str(), behavior.as_str(), "-1", three_states_text(x[4].as_str(), x[7].as_str(), x[15].as_str()), "#1720"), p);
    let x3 = patch2(x[3].as_str(), "hkbVariableBindingSet", binding_set_text(x[3].as_str(), one_binding_text("isActive", "60")), p);
    let x4 = patch2(x[4].as_str(), "hkbStateMachineStateInfo", state_info_text(x[4].as_str(), "#0000", "#0000", "#0000", x[5].as_str(), start.as_str(), String::from_str("0")), p);
    let x5 = patch2(x[5].as_str(), "hkbClipGenerator", clip_generator_text(x[5].as_str(), start.as_str(), f0.as_str(), x[6].as_str(), "MODE_SINGLE_PLAY"), p);
    let x6 = patch2(x[6].as_str(), "hkbClipTriggerArray", ptr_object_text(x[6].as_str(), "triggers", triggers), p);
    let x7 = patch2(x[7].as_str(), "hkbStateMachineStateInfo", state_info_text(x[7].as_str(), "#0000", "#0000", "#0000", x[8].as_str(), numbered_text("FNISChairIdle", id).as_str(), String::from_str("1")), p);
    let x8 = patch2(x[8].as_str(), "hkbStateMachine", chair_machine_text(x[8].as_str(), "#0000", behavior.as_str(), "91", three_states_text(x[9].as_str(), x[11].as_str(), x[13].as_str()), "#1117"), p);
    let x9 = patch2(x[9].as_str(), "hkbStateMachineStateInfo", state_info_text(x[9].as_str(), "#0000", "#0000", "#0000", x[10].as_str(), base.as_str(), String::from_str("0")), p);
    let x10 = patch2(x[10].as_str(), "hkbClipGenerator", clip_generator_text(x[10].as_str(), base.as_str(), f1.as_str(), x[6].as_str(), "MODE_LOOPING"), p);
    let x11 = patch2(x[11].as_str(), "hkbStateMachineStateInfo", state_info_text(x[11].as_str(), "#1127", "#1126", "#0000", x[12].as_str(), var1.as_str(), String::from_str("1")), p);
    let x12 = patch2(x[12].as_str(), "hkbClipGenerator", clip_generator_text(x[12].as_str(), var1.as_str(), f2.as_str(), "#5222", "MODE_LOOPING"), p);
    let x13 = patch2(x[13].as_str(), "hkbStateMachineStateInfo", state_info_text(x[13].as_str(), "#1127", "#1126", "#0000", x[12].as_str(), var2.as_str(), String::from_str("2")), p);
    let x14 = patch2(x[14].as_str(), "hkbClipGenerator", clip_generator_text(x[14].as_str(), var2.as_str(), f3.as_str(), "#5222", "MODE_LOOPING"), p);
    let x15 = patch2(x[15].as_str(), "hkbStateMachineStateInfo", state_info_text(x[15].as_str(), "#0000", "#0000", "#1721", x[16].as_str(), numbered_text("FNISChairTalkingState", id).as_str(), String::from_str("2")), p);
    let x16 = patch2(x[16].as_str(), "hkbModifierGenerator", modifier_generator_text(x[16].as_str(), numbered_text("FNISChairIdle_MG", id).as_str(), x[17].as_str(), x[18].as_str()), p);
    let x17 = patch2(x[17].as_str(), "BSEventEveryNEventsModifier", every_n_modifier_text(x[17].as_str(), numbered_text("BSEventEveryNEventsMod_5and2_", id).as_str()), p);
    let x18 = patch2(x[18].as_str(), "hkbClipGenerator", clip_generator_text(x[18].as_str(), numbered_text("FNISChairTalking", id).as_str(), f4.as_str(), "#1114", "MODE_LOOPING"), p);
    proof {
        assert(ci[0] == x@[0]@);
        assert(ci[1] == x@[1]@);
        assert(ci[2] == x@[2]@);
        assert(ci[3] == x@[3]@);
        assert(ci[4] == x@[4]@);
        assert(ci[5] == x@[5]@);
        assert(ci[6] == x@[6]@);
        assert(ci[7] == x@[7]@);
        assert(ci[8] == x@[8]@);
        assert(ci[9] == x@[9]@);
        assert(ci[10] == x@[10]@);
        assert(ci[11] == x@[11]@);
        assert(ci[12] == x@[12]@);
        assert(ci[13] == x@[13]@);
        assert(ci[14] == x@[14]@);
        assert(ci[15] == x@[15]@);
        assert(ci[16] == x@[16]@);
        assert(ci[17] == x@[17]@);
        assert(ci[18] == x@[18]@);
        assert(id as nat == spec_state_id(ci[0]));
    }
    let ghost spec = spec_chair_classes(*c, namespace@, p, ci);
    assert(pair_view(x0) == spec[0]);
    assert(pair_view(x1) == spec[1]);
    assert(pair_view(x2) == spec[2]);
    assert(pair_view(x3) == spec[3]);
    assert(pair_view(x4) == spec[4]);
    assert(pair_view(x5) == spec[5]);
    assert(pair_view(x6) == spec[6]);
    assert(pair_view(x7) == spec[7]);
    assert(pair_view(x8) == spec[8]);
    assert(pair_view(x9) == spec[9]);
    assert(pair_view(x10) == spec[10]);
    assert(pair_view(x11) == spec[11]);
    assert(pair_view(x12) == spec[12]);
    assert(pair_view(x13) == spec[13]);
    assert(pair_view(x14) == spec[14]);
    assert(pair_view(x15) == spec[15]);
    assert(pair_view(x16) == spec[16]);
    assert(pair_view(x17) == spec[17]);
    assert(pair_view(x18) == spec[18]);
    let r = vec![x0, x1, x2, x3, x4, x5, x6, x7, x8, x9, x10, x11, x12, x13, x14, x15, x16, x17, x18];
    assert(pairs_view(r@) =~= spec);
    r
}

/// The patches of a chair animation of the mod `namespace` with priority `priority`, for
/// `mt_behavior`: `(single-value patches, array patches)`.
///
/// `class_indexes` are the new class names: 19 for the states, generators and arrays, then
/// one per animation object. The chair's five clips play the files of [`chair_file`].
#[verifier::rlimit(80)]
pub fn new_chair_patches(
    chair: &ChairAnimation,
    namespace: &str,
    priority: usize,
    class_indexes: &Vec<String>,
) -> (r: (Vec<PatchPair>, Vec<PatchPair>))
    requires
        class_indexes@.len() == 19 + chair.anim_objects@.len(),
    ensures
        pairs_view(r.0@) == spec_chair_one(*chair, namespace@, priority, texts(class_indexes@)),
        pairs_view(r.1@) == spec_chair_seq(*chair, priority, texts(class_indexes@)),
{
    let ghost ci = texts(class_indexes@);
    let id = calculate_hash(class_indexes[0].as_str()) as u64;
    let start_events = vec![chair.anim_event.clone()];
    assert(texts(start_events@) =~= seq![chair.anim_event@]);
    let mut seq_patches = new_push_events_seq_patch(&start_events, "#0083", "#0085", priority);
    let ghost events_part = seq_patches@;
    if chair.anim_vars.len() > 0 {
        let mut values = new_push_values_seq_patch(&chair.anim_vars, "#0083", "#0084", "#0085", priority);
        seq_patches.append(&mut values);
    }
    let ghost values_part = seq_patches@;
    let transitions = vec![chair_transition_text(chair.anim_event.as_str(), id, priority)];
    let states = vec![json_string_text(class_indexes[0].as_str())];
    proof {
        assert(ci[0] == class_indexes@[0]@);
        assert(id as nat == spec_state_id(ci[0]));
    }
    assert(texts(transitions@) =~= seq![spec_chair_transition(chair.anim_event@, spec_state_id(ci[0]), priority)]);
    assert(texts(states@) =~= seq![json_string(ci[0])]);
    let t = patch3("#1227", "hkbStateMachineTransitionInfoArray", "transitions", json_array_text(&transitions), priority);
    let st = patch3("#1755", "hkbStateMachine", "states", json_array_text(&states), priority);
    seq_patches.push(t);
    seq_patches.push(st);
    assert(seq_patches@ =~= values_part.push(t).push(st));
    assert(pairs_view(seq_patches@) =~= pairs_view(values_part).push(pair_view(t)).push(pair_view(st)));
    assert(pairs_view(seq_patches@) =~= spec_chair_seq(*chair, priority, ci));

    let mut one_patches: Vec<PatchPair> = Vec::new();
    let n = chair.anim_objects.len();
    let total = class_indexes.len();
    let mut i: usize = 0;
    while i < n
        invariant
            n == chair.anim_objects@.len(),
            total == class_indexes@.len(),
            class_indexes@.len() == 19 + n,
            ci == texts(class_indexes@),
            i <= n,
            pairs_view(one_patches@) =~= spec_anim_object_patches(chair.anim_objects@, ci, 19, priority).take(i as int),
        decreases n - i,
    {
        let index = class_indexes[19 + i].as_str();
        let pp = patch2(index, "hkbStringEventPayload", string_payload_text(index, chair.anim_objects[i].as_str()), priority);
        let ghost before = one_patches@;
        one_patches.push(pp);
        proof {
            assert(ci[19 + i] == class_indexes@[19 + i]@);
            assert(one_patches@ =~= before.push(pp));
            assert(pairs_view(one_patches@) =~= pairs_view(before).push(pair_view(pp)));
            assert(pairs_view(one_patches@) =~= spec_anim_object_patches(chair.anim_objects@, ci, 19, priority).take(i + 1));
        }
        i = i + 1;
    }
    let ghost objs = one_patches@;
    let mut classes = chair_class_patches(chair, namespace, priority, class_indexes);
    let ghost cv = classes@;
    one_patches.append(&mut classes);
    assert(one_patches@ =~= objs + cv);
    assert(spec_anim_object_patches(chair.anim_objects@, ci, 19, priority).take(n as int)
        =~= spec_anim_object_patches(chair.anim_objects@, ci, 19, priority));
    assert(pairs_view(one_patches@) =~= pairs_view(objs) + pairs_view(cv));
    (one_patches, seq_patches)
}

} // verus!
