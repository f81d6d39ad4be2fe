//! FNIS animation entries, and the behavior-graph objects that their patches add, as JSON
//! text.
//!
//! A generated patch is a JSON path and a value with the mod's priority. Patches that add
//! a whole object go to the single-value list; patches that append to an array go to the
//! array list.
use vstd::prelude::*;

use crate::fnis_names::spec_state_id;
use crate::hashing::calculate_hash;
use crate::json::{
    json_array, json_array_text, json_object, json_object_text, json_string, json_string_text,
    member_texts, texts,
};
use crate::patch_map::{JsonPath, ValueWithPriority};
use crate::text::{decimal, u64_to_decimal};

verus! {

/// The flags of an FNIS animation entry that patch generation reads.
#[derive(Debug, Clone, Copy, PartialEq, Eq, Structural)]
pub struct FnisAnimFlags {
    /// `a`: the clip plays once (`MODE_SINGLE_PLAY`) instead of looping.
    pub acyclic: bool,
    /// `o`: the animation has animation objects.
    pub anim_objects: bool,
    /// `h`: head tracking stays on.
    pub head_tracking: bool,
    /// `ac1`: the animated camera is set when the animation starts.
    pub animated_camera_set: bool,
    /// `ac0`: the animated camera is reset when the animation ends.
    pub animated_camera_reset: bool,
}

/// An FNIS animation entry of a list file, as patch generation reads it.
#[derive(Debug, Clone, PartialEq, Eq)]
pub struct FnisAnimation {
    /// The animation event, e.g. `FNISfl_BackUp2`.
    pub anim_event: String,
    /// The animation file relative to the namespace directory, e.g. `FNISfl_BackUp2.hkx`.
    pub anim_file: String,
    /// Its flags.
    pub flags: FnisAnimFlags,
    /// The names of its animation objects, in list order.
    pub anim_objects: Vec<String>,
}

/// A generated patch: a JSON path and the JSON text of its value, with a priority.
pub type PatchPair = (JsonPath, ValueWithPriority);

/// The texts of a generated patch.
pub open spec fn pair_view(p: PatchPair) -> (Seq<Seq<char>>, (Seq<char>, usize)) {
    (p.0.deep_view(), p.1@)
}

/// The texts of a list of generated patches.
pub open spec fn pairs_view(ps: Seq<PatchPair>) -> Seq<(Seq<Seq<char>>, (Seq<char>, usize))> {
    ps.map_values(|p: PatchPair| pair_view(p))
}

/// A generated patch, as texts.
pub open spec fn patch_of(path: Seq<Seq<char>>, value: Seq<char>, priority: usize) -> (
    Seq<Seq<char>>,
    (Seq<char>, usize),
) {
    (path, (value, priority))
}

/// Builds a patch with a two-component path.
pub(crate) fn patch2(a: &str, b: &str, value: String, priority: usize) -> (r: PatchPair)
    ensures
        pair_view(r) == patch_of(seq![a@, b@], value@, priority),
{
    let mut path: JsonPath = Vec::new();
    path.push(a.to_owned());
    path.push(b.to_owned());
    let r = (path, ValueWithPriority { patch: value, priority });
    assert(r.0.deep_view() =~= seq![a@, b@]);
    r
}

/// Builds a patch with a three-component path.
pub(crate) fn patch3(a: &str, b: &str, c: &str, value: String, priority: usize) -> (r: PatchPair)
    ensures
        pair_view(r) == patch_of(seq![a@, b@, c@], value@, priority),
{
    let mut path: JsonPath = Vec::new();
    path.push(a.to_owned());
    path.push(b.to_owned());
    path.push(c.to_owned());
    let r = (path, ValueWithPriority { patch: value, priority });
    assert(r.0.deep_view() =~= seq![a@, b@, c@]);
    r
}

/// The decimal text of the state id of a name.
pub open spec fn state_id_text(name: Seq<char>) -> Seq<char> {
    decimal(spec_state_id(name))
}

pub(crate) fn state_id_of(name: &str) -> (r: String)
    ensures
        r@ == state_id_text(name@),
{
    u64_to_decimal(calculate_hash(name) as u64)
}

/// `{"enterEventId":-1,"exitEventId":-1,"enterTime":0.0,"exitTime":0.0}`
pub open spec fn spec_interval() -> Seq<char> {
    json_object(
        seq![
            ("enterEventId"@, "-1"@),
            ("exitEventId"@, "-1"@),
            ("enterTime"@, "0.0"@),
            ("exitTime"@, "0.0"@),
        ],
    )
}

pub(crate) fn interval_text() -> (r: String)
    ensures
        r@ == spec_interval(),
{
    let fields = vec![
        ("enterEventId", String::from_str("-1")),
        ("exitEventId", String::from_str("-1")),
        ("enterTime", String::from_str("0.0")),
        ("exitTime", String::from_str("0.0")),
    ];
    assert(member_texts(fields@) =~= seq![
        ("enterEventId"@, "-1"@),
        ("exitEventId"@, "-1"@),
        ("enterTime"@, "0.0"@),
        ("exitTime"@, "0.0"@),
    ]);
    json_object_text(&fields)
}

/// `$eventID[<event>]$`: the Nemesis variable of an event's id.
pub open spec fn event_id_variable(event: Seq<char>) -> Seq<char> {
    "$eventID["@ + event + "]$"@
}

/// A wildcard transition, on `event`, to the root state named `root_state_name`.
pub open spec fn spec_transition(event: Seq<char>, root_state_name: Seq<char>) -> Seq<char> {
    json_object(
        seq![
            ("triggerInterval"@, spec_interval()),
            ("initiateInterval"@, spec_interval()),
            ("transition"@, json_string("#0111"@)),
            ("condition"@, json_string("#0000"@)),
            ("eventId"@, json_string(event_id_variable(event))),
            ("toStateId"@, state_id_text(root_state_name)),
            ("fromNestedStateId"@, "0"@),
            ("toNestedStateId"@, "0"@),
            ("priority"@, "0"@),
            ("flags"@, json_string("FLAG_IS_LOCAL_WILDCARD|FLAG_IS_GLOBAL_WILDCARD|FLAG_DISABLE_CONDITION"@)),
        ],
    )
}

fn transition_text(event: &str, root_state_name: &str) -> (r: String)
    ensures
        r@ == spec_transition(event@, root_state_name@),
{
    let mut event_id = String::from_str("$eventID[");
    event_id.append(event);
    event_id.append("]$");
    let fields = vec![
        ("triggerInterval", interval_text()),
        ("initiateInterval", interval_text()),
        ("transition", json_string_text("#0111")),
        ("condition", json_string_text("#0000")),
        ("eventId", json_string_text(event_id.as_str())),
        ("toStateId", state_id_of(root_state_name)),
        ("fromNestedStateId", String::from_str("0")),
        ("toNestedStateId", String::from_str("0")),
        ("priority", String::from_str("0")),
        (
            "flags",
            json_string_text("FLAG_IS_LOCAL_WILDCARD|FLAG_IS_GLOBAL_WILDCARD|FLAG_DISABLE_CONDITION"),
        ),
    ];
    assert(member_texts(fields@) =~= seq![
        ("triggerInterval"@, spec_interval()),
        ("initiateInterval"@, spec_interval()),
        ("transition"@, json_string("#0111"@)),
        ("condition"@, json_string("#0000"@)),
        ("eventId"@, json_string(event_id_variable(event@))),
        ("toStateId"@, state_id_text(root_state_name@)),
        ("fromNestedStateId"@, "0"@),
        ("toNestedStateId"@, "0"@),
        ("priority"@, "0"@),
        ("flags"@, json_string("FLAG_IS_LOCAL_WILDCARD|FLAG_IS_GLOBAL_WILDCARD|FLAG_DISABLE_CONDITION"@)),
    ]);
    json_object_text(&fields)
}

/// The patch that appends two wildcard transitions to the transition array `index`: each
/// event of `events` leads to the root state of the same position.
pub open spec fn spec_push_transitions(
    index: Seq<char>,
    events: (Seq<char>, Seq<char>),
    root_state_names: (Seq<char>, Seq<char>),
    priority: usize,
) -> (Seq<Seq<char>>, (Seq<char>, usize)) {
    patch_of(
        seq![index, "hkbStateMachineTransitionInfoArray"@, "transitions"@],
        json_array(
            seq![
                spec_transition(events.0, root_state_names.0),
                spec_transition(events.1, root_state_names.1),
            ],
        ),
        priority,
    )
}

/// Appends to the transition array `index` a wildcard transition from each event to the
/// root state of the same position.
pub fn new_push_transitions_seq_patch(
    index: &str,
    events: (&str, &str),
    root_state_names: (&str, &str),
    priority: usize,
) -> (r: PatchPair)
    ensures
        pair_view(r) == spec_push_transitions(
            index@,
            (events.0@, events.1@),
            (root_state_names.0@, root_state_names.1@),
            priority,
        ),
{
    let items = vec![
        transition_text(events.0, root_state_names.0),
        transition_text(events.1, root_state_names.1),
    ];
    assert(texts(items@) =~= seq![
        spec_transition(events.0@, root_state_names.0@),
        spec_transition(events.1@, root_state_names.1@),
    ]);
    patch3(index, "hkbStateMachineTransitionInfoArray", "transitions", json_array_text(&items), priority)
}

/// An `hkbStateMachineStateInfo` object.
pub open spec fn spec_state_info(
    ptr: Seq<char>,
    enter_notify_events: Seq<char>,
    exit_notify_events: Seq<char>,
    transitions: Seq<char>,
    generator: Seq<char>,
    name: Seq<char>,
    state_id: Seq<char>,
) -> Seq<char> {
    json_object(
        seq![
            ("__ptr"@, json_string(ptr)),
            ("variableBindingSet"@, json_string("#0000"@)),
            ("listeners"@, json_array(Seq::empty())),
            ("enterNotifyEvents"@, json_string(enter_notify_events)),
            ("exitNotifyEvents"@, json_string(exit_notify_events)),
            ("transitions"@, json_string(transitions)),
            ("generator"@, json_string(generator)),
            ("name"@, json_string(name)),
            ("stateId"@, state_id),
            ("probability"@, "1.0"@),
            ("enable"@, "true"@),
        ],
    )
}

pub(crate) fn state_info_text(
    ptr: &str,
    enter_notify_events: &str,
    exit_notify_events: &str,
    transitions: &str,
    generator: &str,
    name: &str,
    state_id: String,
) -> (r: String)
    ensures
        r@ == spec_state_info(
            ptr@,
            enter_notify_events@,
            exit_notify_events@,
            transitions@,
            generator@,
            name@,
            state_id@,
        ),
{
    let empty: Vec<String> = Vec::new();
    assert(texts(empty@) =~= Seq::<Seq<char>>::empty());
    let ghost sid = state_id@;
    let fields = vec![
        ("__ptr", json_string_text(ptr)),
        ("variableBindingSet", json_string_text("#0000")),
        ("listeners", json_array_text(&empty)),
        ("enterNotifyEvents", json_string_text(enter_notify_events)),
        ("exitNotifyEvents", json_string_text(exit_notify_events)),
        ("transitions", json_string_text(transitions)),
        ("generator", json_string_text(generator)),
        ("name", json_string_text(name)),
        ("stateId", state_id),
        ("probability", String::from_str("1.0")),
        ("enable", String::from_str("true")),
    ];
    assert(member_texts(fields@) =~= seq![
        ("__ptr"@, json_string(ptr@)),
        ("variableBindingSet"@, json_string("#0000"@)),
        ("listeners"@, json_array(Seq::empty())),
        ("enterNotifyEvents"@, json_string(enter_notify_events@)),
        ("exitNotifyEvents"@, json_string(exit_notify_events@)),
        ("transitions"@, json_string(transitions@)),
        ("generator"@, json_string(generator@)),
        ("name"@, json_string(name@)),
        ("stateId"@, sid),
        ("probability"@, "1.0"@),
        ("enable"@, "true"@),
    ]);
    json_object_text(&fields)
}

/// The clip mode of an animation: `MODE_SINGLE_PLAY` when acyclic, else `MODE_LOOPING`.
pub open spec fn spec_clip_mode(flags: FnisAnimFlags) -> Seq<char> {
    if flags.acyclic {
        "MODE_SINGLE_PLAY"@
    } else {
        "MODE_LOOPING"@
    }
}

pub(crate) fn clip_mode(flags: FnisAnimFlags) -> (r: &'static str)
    ensures
        r@ == spec_clip_mode(flags),
{
    if flags.acyclic {
        "MODE_SINGLE_PLAY"
    } else {
        "MODE_LOOPING"
    }
}

/// An `hkbClipGenerator` object whose triggers are the clip trigger array `triggers`
/// (`#0000` for none).
pub open spec fn spec_clip_generator(
    ptr: Seq<char>,
    name: Seq<char>,
    animation_name: Seq<char>,
    triggers: Seq<char>,
    mode: Seq<char>,
) -> Seq<char> {
    json_object(
        seq![
            ("__ptr"@, json_string(ptr)),
            ("variableBindingSet"@, json_string("#0000"@)),
            ("userData"@, "0"@),
            ("name"@, json_string(name)),
            ("animationName"@, json_string(animation_name)),
            ("triggers"@, json_string(triggers)),
            ("cropStartAmountLocalTime"@, "0.0"@),
            ("cropEndAmountLocalTime"@, "0.0"@),
            ("startTime"@, "0.0"@),
            ("playbackSpeed"@, "1.0"@),
            ("enforcedDuration"@, "0.0"@),
            ("userControlledTimeFraction"@, "0.0"@),
            ("animationBindingIndex"@, "-1"@),
            ("mode"@, json_string(mode)),
            ("flags"@, "0"@),
        ],
    )
}

pub(crate) fn clip_generator_text(
    ptr: &str,
    name: &str,
    animation_name: &str,
    triggers: &str,
    mode: &str,
) -> (r: String)
    ensures
        r@ == spec_clip_generator(ptr@, name@, animation_name@, triggers@, mode@),
{
    let fields = vec![
        ("__ptr", json_string_text(ptr)),
        ("variableBindingSet", json_string_text("#0000")),
        ("userData", String::from_str("0")),
        ("name", json_string_text(name)),
        ("animationName", json_string_text(animation_name)),
        ("triggers", json_string_text(triggers)),
        ("cropStartAmountLocalTime", String::from_str("0.0")),
        ("cropEndAmountLocalTime", String::from_str("0.0")),
        ("startTime", String::from_str("0.0")),
        ("playbackSpeed", String::from_str("1.0")),
        ("enforcedDuration", String::from_str("0.0")),
        ("userControlledTimeFraction", String::from_str("0.0")),
        ("animationBindingIndex", String::from_str("-1")),
        ("mode", json_string_text(mode)),
        ("flags", String::from_str("0")),
    ];
    assert(member_texts(fields@) =~= seq![
        ("__ptr"@, json_string(ptr@)),
        ("variableBindingSet"@, json_string("#0000"@)),
        ("userData"@, "0"@),
        ("name"@, json_string(name@)),
        ("animationName"@, json_string(animation_name@)),
        ("triggers"@, json_string(triggers@)),
        ("cropStartAmountLocalTime"@, "0.0"@),
        ("cropEndAmountLocalTime"@, "0.0"@),
        ("startTime"@, "0.0"@),
        ("playbackSpeed"@, "1.0"@),
        ("enforcedDuration"@, "0.0"@),
        ("userControlledTimeFraction"@, "0.0"@),
        ("animationBindingIndex"@, "-1"@),
        ("mode"@, json_string(mode@)),
        ("flags"@, "0"@),
    ]);
    json_object_text(&fields)
}

/// An `hkbStringEventPayload` object holding an animation object's name.
pub open spec fn spec_string_payload(ptr: Seq<char>, data: Seq<char>) -> Seq<char> {
    json_object(seq![("__ptr"@, json_string(ptr)), ("data"@, json_string(data))])
}

pub(crate) fn string_payload_text(ptr: &str, data: &str) -> (r: String)
    ensures
        r@ == spec_string_payload(ptr@, data@),
{
    let fields = vec![("__ptr", json_string_text(ptr)), ("data", json_string_text(data))];
    assert(member_texts(fields@) =~= seq![("__ptr"@, json_string(ptr@)), ("data"@, json_string(data@))]);
    json_object_text(&fields)
}

/// An event property `{"id":<id>,"payload":"<payload>"}`.
pub open spec fn spec_event_property(id: Seq<char>, payload: Seq<char>) -> Seq<char> {
    json_object(seq![("id"@, id), ("payload"@, json_string(payload))])
}

pub(crate) fn event_property_text(id: &str, payload: &str) -> (r: String)
    ensures
        r@ == spec_event_property(id@, payload@),
{
    let fields = vec![("id", String::from_str(id)), ("payload", json_string_text(payload))];
    assert(member_texts(fields@) =~= seq![("id"@, id@), ("payload"@, json_string(payload@))]);
    json_object_text(&fields)
}

/// An `hkbModifierGenerator` object.
pub open spec fn spec_modifier_generator(ptr: Seq<char>, name: Seq<char>, modifier: Seq<char>, generator: Seq<char>) -> Seq<char> {
    json_object(
        seq![
            ("__ptr"@, json_string(ptr)),
            ("variableBindingSet"@, json_string("#0000"@)),
            ("userData"@, "1"@),
            ("name"@, json_string(name)),
            ("modifier"@, json_string(modifier)),
            ("generator"@, json_string(generator)),
        ],
    )
}

pub(crate) fn modifier_generator_text(ptr: &str, name: &str, modifier: &str, generator: &str) -> (r: String)
    ensures
        r@ == spec_modifier_generator(ptr@, name@, modifier@, generator@),
{
    let fields = vec![
        ("__ptr", json_string_text(ptr)),
        ("variableBindingSet", json_string_text("#0000")),
        ("userData", String::from_str("1")),
        ("name", json_string_text(name)),
        ("modifier", json_string_text(modifier)),
        ("generator", json_string_text(generator)),
    ];
    assert(member_texts(fields@) =~= seq![
        ("__ptr"@, json_string(ptr@)),
        ("variableBindingSet"@, json_string("#0000"@)),
        ("userData"@, "1"@),
        ("name"@, json_string(name@)),
        ("modifier"@, json_string(modifier@)),
        ("generator"@, json_string(generator@)),
    ]);
    json_object_text(&fields)
}

/// `{"id":-1,"payload":"#0000"}`: no event.
pub open spec fn spec_no_event() -> Seq<char> {
    json_object(
        seq![
            ("id"@, "-1"@),
            ("payload"@, json_string("#0000"@)),
        ],
    )
}

pub(crate) fn no_event_text() -> (r: String)
    ensures
        r@ == spec_no_event(),
{
    let fields = vec![
        ("id", String::from_str("-1")),
        ("payload", json_string_text("#0000")),
    ];
    assert(member_texts(fields@) =~= seq![
        ("id"@, "-1"@),
        ("payload"@, json_string("#0000"@)),
    ]);
    json_object_text(&fields)
}

/// An `hkbStateMachine` object with one state.
pub open spec fn spec_state_machine(ptr: Seq<char>, binding: Seq<char>, name: Seq<char>, states: Seq<char>) -> Seq<char> {
    json_object(
        seq![
            ("__ptr"@, json_string(ptr)),
            ("variableBindingSet"@, json_string(binding)),
            ("userData"@, "0"@),
            ("name"@, json_string(name)),
            ("eventToSendWhenStateOrTransitionChanges"@, spec_no_event()),
            ("startStateChooser"@, json_string("#0000"@)),
            ("startStateId"@, "0"@),
            ("returnToPreviousStateEventId"@, "-1"@),
            ("randomTransitionEventId"@, "-1"@),
            ("transitionToNextHigherStateEventId"@, "-1"@),
            ("transitionToNextLowerStateEventId"@, "-1"@),
            ("syncVariableIndex"@, "-1"@),
            ("wrapAroundStateId"@, "false"@),
            ("maxSimultaneousTransitions"@, "32"@),
            ("startStateMode"@, json_string("START_STATE_MODE_DEFAULT"@)),
            ("selfTransitionMode"@, json_string("SELF_TRANSITION_MODE_NO_TRANSITION"@)),
            ("states"@, states),
            ("wildcardTransitions"@, json_string("#0000"@)),
        ],
    )
}

pub(crate) fn state_machine_text(ptr: &str, binding: &str, name: &str, states: String) -> (r: String)
    ensures
        r@ == spec_state_machine(ptr@, binding@, name@, states@),
{
    let ghost states_text = states@;
    let fields = vec![
        ("__ptr", json_string_text(ptr)),
        ("variableBindingSet", json_string_text(binding)),
        ("userData", String::from_str("0")),
        ("name", json_string_text(name)),
        ("eventToSendWhenStateOrTransitionChanges", no_event_text()),
        ("startStateChooser", json_string_text("#0000")),
        ("startStateId", String::from_str("0")),
        ("returnToPreviousStateEventId", String::from_str("-1")),
        ("randomTransitionEventId", String::from_str("-1")),
        ("transitionToNextHigherStateEventId", String::from_str("-1")),
        ("transitionToNextLowerStateEventId", String::from_str("-1")),
        ("syncVariableIndex", String::from_str("-1")),
        ("wrapAroundStateId", String::from_str("false")),
        ("maxSimultaneousTransitions", String::from_str("32")),
        ("startStateMode", json_string_text("START_STATE_MODE_DEFAULT")),
        ("selfTransitionMode", json_string_text("SELF_TRANSITION_MODE_NO_TRANSITION")),
        ("states", states),
        ("wildcardTransitions", json_string_text("#0000")),
    ];
    assert(member_texts(fields@) =~= seq![
        ("__ptr"@, json_string(ptr@)),
        ("variableBindingSet"@, json_string(binding@)),
        ("userData"@, "0"@),
        ("name"@, json_string(name@)),
        ("eventToSendWhenStateOrTransitionChanges"@, spec_no_event()),
        ("startStateChooser"@, json_string("#0000"@)),
        ("startStateId"@, "0"@),
        ("returnToPreviousStateEventId"@, "-1"@),
        ("randomTransitionEventId"@, "-1"@),
        ("transitionToNextHigherStateEventId"@, "-1"@),
        ("transitionToNextLowerStateEventId"@, "-1"@),
        ("syncVariableIndex"@, "-1"@),
        ("wrapAroundStateId"@, "false"@),
        ("maxSimultaneousTransitions"@, "32"@),
        ("startStateMode"@, json_string("START_STATE_MODE_DEFAULT"@)),
        ("selfTransitionMode"@, json_string("SELF_TRANSITION_MODE_NO_TRANSITION"@)),
        ("states"@, states_text),
        ("wildcardTransitions"@, json_string("#0000"@)),
    ]);
    json_object_text(&fields)
}

/// A variable binding of a member to a variable.
pub open spec fn spec_binding(member_path: Seq<char>, variable_index: Seq<char>) -> Seq<char> {
    json_object(
        seq![
            ("memberPath"@, json_string(member_path)),
            ("variableIndex"@, variable_index),
            ("bitIndex"@, "-1"@),
            ("bindingType"@, json_string("BINDING_TYPE_VARIABLE"@)),
        ],
    )
}

pub(crate) fn binding_text(member_path: &str, variable_index: &str) -> (r: String)
    ensures
        r@ == spec_binding(member_path@, variable_index@),
{
    let fields = vec![
        ("memberPath", json_string_text(member_path)),
        ("variableIndex", String::from_str(variable_index)),
        ("bitIndex", String::from_str("-1")),
        ("bindingType", json_string_text("BINDING_TYPE_VARIABLE")),
    ];
    assert(member_texts(fields@) =~= seq![
        ("memberPath"@, json_string(member_path@)),
        ("variableIndex"@, variable_index@),
        ("bitIndex"@, "-1"@),
        ("bindingType"@, json_string("BINDING_TYPE_VARIABLE"@)),
    ]);
    json_object_text(&fields)
}

/// An `hkbVariableBindingSet` object with one binding.
pub open spec fn spec_binding_set(ptr: Seq<char>, bindings: Seq<char>) -> Seq<char> {
    json_object(
        seq![
            ("__ptr"@, json_string(ptr)),
            ("bindings"@, bindings),
            ("indexOfBindingToEnable"@, "-1"@),
        ],
    )
}

pub(crate) fn binding_set_text(ptr: &str, bindings: String) -> (r: String)
    ensures
        r@ == spec_binding_set(ptr@, bindings@),
{
    let ghost bindings_text = bindings@;
    let fields = vec![
        ("__ptr", json_string_text(ptr)),
        ("bindings", bindings),
        ("indexOfBindingToEnable", String::from_str("-1")),
    ];
    assert(member_texts(fields@) =~= seq![
        ("__ptr"@, json_string(ptr@)),
        ("bindings"@, bindings_text),
        ("indexOfBindingToEnable"@, "-1"@),
    ]);
    json_object_text(&fields)
}

/// A `BSSynchronizedClipGenerator` object.
pub open spec fn spec_sync_clip_generator(ptr: Seq<char>, name: Seq<char>, clip: Seq<char>, prefix: Seq<char>, lead: Seq<char>) -> Seq<char> {
    json_object(
        seq![
            ("__ptr"@, json_string(ptr)),
            ("variableBindingSet"@, json_string("#0000"@)),
            ("userData"@, "0"@),
            ("name"@, json_string(name)),
            ("pClipGenerator"@, json_string(clip)),
            ("SyncAnimPrefix"@, prefix),
            ("bSyncClipIgnoreMarkPlacement"@, "false"@),
            ("fGetToMarkTime"@, "0.0"@),
            ("fMarkErrorThreshold"@, "0.1"@),
            ("bLeadCharacter"@, lead),
            ("bReorientSupportChar"@, "true"@),
            ("bApplyMotionFromRoot"@, "false"@),
            ("sAnimationBindingIndex"@, "-1"@),
        ],
    )
}

pub(crate) fn sync_clip_generator_text(ptr: &str, name: &str, clip: &str, prefix: &str, lead: &str) -> (r: String)
    ensures
        r@ == spec_sync_clip_generator(ptr@, name@, clip@, prefix@, lead@),
{
    let fields = vec![
        ("__ptr", json_string_text(ptr)),
        ("variableBindingSet", json_string_text("#0000")),
        ("userData", String::from_str("0")),
        ("name", json_string_text(name)),
        ("pClipGenerator", json_string_text(clip)),
        ("SyncAnimPrefix", String::from_str(prefix)),
        ("bSyncClipIgnoreMarkPlacement", String::from_str("false")),
        ("fGetToMarkTime", String::from_str("0.0")),
        ("fMarkErrorThreshold", String::from_str("0.1")),
        ("bLeadCharacter", String::from_str(lead)),
        ("bReorientSupportChar", String::from_str("true")),
        ("bApplyMotionFromRoot", String::from_str("false")),
        ("sAnimationBindingIndex", String::from_str("-1")),
    ];
    assert(member_texts(fields@) =~= seq![
        ("__ptr"@, json_string(ptr@)),
        ("variableBindingSet"@, json_string("#0000"@)),
        ("userData"@, "0"@),
        ("name"@, json_string(name@)),
        ("pClipGenerator"@, json_string(clip@)),
        ("SyncAnimPrefix"@, prefix@),
        ("bSyncClipIgnoreMarkPlacement"@, "false"@),
        ("fGetToMarkTime"@, "0.0"@),
        ("fMarkErrorThreshold"@, "0.1"@),
        ("bLeadCharacter"@, lead@),
        ("bReorientSupportChar"@, "true"@),
        ("bApplyMotionFromRoot"@, "false"@),
        ("sAnimationBindingIndex"@, "-1"@),
    ]);
    json_object_text(&fields)
}

/// A `BSIsActiveModifier` object.
pub open spec fn spec_active_modifier(ptr: Seq<char>, binding: Seq<char>, name: Seq<char>) -> Seq<char> {
    json_object(
        seq![
            ("__ptr"@, json_string(ptr)),
            ("variableBindingSet"@, json_string(binding)),
            ("userData"@, "2"@),
            ("name"@, json_string(name)),
            ("enable"@, "true"@),
            ("bIsActive0"@, "false"@),
            ("bInvertActive0"@, "false"@),
            ("bIsActive1"@, "false"@),
            ("bInvertActive1"@, "false"@),
            ("bIsActive2"@, "false"@),
            ("bInvertActive2"@, "false"@),
            ("bIsActive3"@, "false"@),
            ("bInvertActive3"@, "false"@),
            ("bIsActive4"@, "false"@),
            ("bInvertActive4"@, "false"@),
        ],
    )
}

pub(crate) fn active_modifier_text(ptr: &str, binding: &str, name: &str) -> (r: String)
    ensures
        r@ == spec_active_modifier(ptr@, binding@, name@),
{
    let fields = vec![
        ("__ptr", json_string_text(ptr)),
        ("variableBindingSet", json_string_text(binding)),
        ("userData", String::from_str("2")),
        ("name", json_string_text(name)),
        ("enable", String::from_str("true")),
        ("bIsActive0", String::from_str("false")),
        ("bInvertActive0", String::from_str("false")),
        ("bIsActive1", String::from_str("false")),
        ("bInvertActive1", String::from_str("false")),
        ("bIsActive2", String::from_str("false")),
        ("bInvertActive2", String::from_str("false")),
        ("bIsActive3", String::from_str("false")),
        ("bInvertActive3", String::from_str("false")),
        ("bIsActive4", String::from_str("false")),
        ("bInvertActive4", String::from_str("false")),
    ];
    assert(member_texts(fields@) =~= seq![
        ("__ptr"@, json_string(ptr@)),
        ("variableBindingSet"@, json_string(binding@)),
        ("userData"@, "2"@),
        ("name"@, json_string(name@)),
        ("enable"@, "true"@),
        ("bIsActive0"@, "false"@),
        ("bInvertActive0"@, "false"@),
        ("bIsActive1"@, "false"@),
        ("bInvertActive1"@, "false"@),
        ("bIsActive2"@, "false"@),
        ("bInvertActive2"@, "false"@),
        ("bIsActive3"@, "false"@),
        ("bInvertActive3"@, "false"@),
        ("bIsActive4"@, "false"@),
        ("bInvertActive4"@, "false"@),
    ]);
    json_object_text(&fields)
}

/// The event of a clip trigger.
pub open spec fn spec_trigger_event(id: Seq<char>) -> Seq<char> {
    json_object(
        seq![
            ("id"@, id),
            ("payload"@, json_string("#0000"@)),
        ],
    )
}

pub(crate) fn trigger_event_text(id: &str) -> (r: String)
    ensures
        r@ == spec_trigger_event(id@),
{
    let fields = vec![
        ("id", String::from_str(id)),
        ("payload", json_string_text("#0000")),
    ];
    assert(member_texts(fields@) =~= seq![
        ("id"@, id@),
        ("payload"@, json_string("#0000"@)),
    ]);
    json_object_text(&fields)
}

/// A clip trigger at `local_time` (number text) sending the event `id` (JSON text).
pub open spec fn spec_clip_trigger(local_time: Seq<char>, id: Seq<char>) -> Seq<char> {
    json_object(
        seq![
            ("localTime"@, local_time),
            ("event"@, spec_trigger_event(id)),
            ("relativeToEndOfClip"@, "false"@),
            ("acyclic"@, "false"@),
            ("isAnnotation"@, "false"@),
        ],
    )
}

pub(crate) fn clip_trigger_text(local_time: &str, id: &str) -> (r: String)
    ensures
        r@ == spec_clip_trigger(local_time@, id@),
{
    let fields = vec![
        ("localTime", String::from_str(local_time)),
        ("event", trigger_event_text(id)),
        ("relativeToEndOfClip", String::from_str("false")),
        ("acyclic", String::from_str("false")),
        ("isAnnotation", String::from_str("false")),
    ];
    assert(member_texts(fields@) =~= seq![
        ("localTime"@, local_time@),
        ("event"@, spec_trigger_event(id@)),
        ("relativeToEndOfClip"@, "false"@),
        ("acyclic"@, "false"@),
        ("isAnnotation"@, "false"@),
    ]);
    json_object_text(&fields)
}

/// `{"__ptr":"<ptr>","<key>":<value>}`: a class holding one array.
pub open spec fn spec_ptr_object(ptr: Seq<char>, key: Seq<char>, value: Seq<char>) -> Seq<char> {
    json_object(seq![("__ptr"@, json_string(ptr)), (key, value)])
}

pub(crate) fn ptr_object_text(ptr: &str, key: &str, value: String) -> (r: String)
    ensures
        r@ == spec_ptr_object(ptr@, key@, value@),
{
    let ghost v = value@;
    let fields = vec![("__ptr", json_string_text(ptr)), (key, value)];
    assert(member_texts(fields@) =~= seq![("__ptr"@, json_string(ptr@)), (key@, v)]);
    json_object_text(&fields)
}

} // verus!
