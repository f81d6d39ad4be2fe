//! The classes that `meshes\actors\character\behaviors\mt_behavior.xml` gets once per run:
//! the events of alternate animations and the root of FNIS furniture animations.
use vstd::prelude::*;

use crate::anim_seq::{name_array_text, spec_name_array};
use crate::chair::{chair_trigger_text, spec_chair_trigger};
use crate::fnis_anim::{
    binding_set_text, binding_text, clip_trigger_text, event_property_text, interval_text,
    modifier_generator_text, no_event_text, pair_view, pairs_view, patch2, patch3, patch_of,
    ptr_object_text, spec_binding, spec_binding_set, spec_clip_trigger, spec_event_property,
    spec_interval, spec_modifier_generator, spec_no_event, spec_ptr_object, spec_state_info,
    spec_trigger_event, state_info_text, trigger_event_text, PatchPair,
};
use crate::json::{
    json_array, json_array_text, json_object, json_object_text, json_string, json_string_text,
    member_texts, texts,
};

verus! {

/// An event array holding the one event `id`.
pub open spec fn spec_single_event(ptr: Seq<char>, id: Seq<char>) -> Seq<char> {
    spec_ptr_object(ptr, "events"@, json_array(seq![spec_event_property(id, "#0000"@)]))
}

fn single_event_text(ptr: &str, id: &str) -> (r: String)
    ensures
        r@ == spec_single_event(ptr@, id@),
{
    let events = vec![event_property_text(id, "#0000")];
    assert(texts(events@) =~= seq![spec_event_property(id@, "#0000"@)]);
    ptr_object_text(ptr, "events", json_array_text(&events))
}

/// The clip triggers shared by chair variations: the next clip (`91`) 0.2 s before the
/// end, head tracking off (`20`) at 1 s and on (`18`) at -1 s.
pub open spec fn spec_variation_triggers() -> Seq<char> {
    spec_ptr_object(
        "FNIS_aa_global_auto_gen5222"@,
        "triggers"@,
        json_array(
            seq![
                spec_chair_trigger("91"@, "#0000"@),
                spec_clip_trigger("1.0"@, "20"@),
                spec_clip_trigger("-1.0"@, "18"@),
            ],
        ),
    )
}

fn variation_triggers_text() -> (r: String)
    ensures
        r@ == spec_variation_triggers(),
{
    let triggers = vec![
        chair_trigger_text("91", "#0000"),
        clip_trigger_text("1.0", "20"),
        clip_trigger_text("-1.0", "18"),
    ];
    assert(texts(triggers@) =~= seq![
        spec_chair_trigger("91"@, "#0000"@),
        spec_clip_trigger("1.0"@, "20"@),
        spec_clip_trigger("-1.0"@, "18"@),
    ]);
    ptr_object_text("FNIS_aa_global_auto_gen5222", "triggers", json_array_text(&triggers))
}

/// A transition out of the furniture state, on event `event_id`, with the transition
/// effect `effect`.
pub open spec fn spec_exit_transition(effect: Seq<char>, event_id: Seq<char>) -> Seq<char> {
    json_object(
        seq![
            ("triggerInterval"@, spec_interval()),
            ("initiateInterval"@, spec_interval()),
            ("transition"@, json_string(effect)),
            ("condition"@, json_string("#0000"@)),
            ("eventId"@, event_id),
            ("toStateId"@, "0"@),
            ("fromNestedStateId"@, "0"@),
            ("toNestedStateId"@, "0"@),
            ("priority"@, "0"@),
            ("flags"@, json_string("FLAG_DISABLE_CONDITION"@)),
        ],
    )
}

fn exit_transition_text(effect: &str, event_id: &str) -> (r: String)
    ensures
        r@ == spec_exit_transition(effect@, event_id@),
{
    let fields = vec![
        ("triggerInterval", interval_text()),
        ("initiateInterval", interval_text()),
        ("transition", json_string_text(effect)),
        ("condition", json_string_text("#0000")),
        ("eventId", String::from_str(event_id)),
        ("toStateId", String::from_str("0")),
        ("fromNestedStateId", String::from_str("0")),
        ("toNestedStateId", String::from_str("0")),
        ("priority", String::from_str("0")),
        ("flags", json_string_text("FLAG_DISABLE_CONDITION")),
    ];
    assert(member_texts(fields@) =~= seq![
        ("triggerInterval"@, spec_interval()),
        ("initiateInterval"@, spec_interval()),
        ("transition"@, json_string(effect@)),
        ("condition"@, json_string("#0000"@)),
        ("eventId"@, event_id@),
        ("toStateId"@, "0"@),
        ("fromNestedStateId"@, "0"@),
        ("toNestedStateId"@, "0"@),
        ("priority"@, "0"@),
        ("flags"@, json_string("FLAG_DISABLE_CONDITION"@)),
    ]);
    json_object_text(&fields)
}

/// The exits of the furniture state: `IdleFurnitureExit` (`5`) with the default blend and
/// `IdleFurnitureExitSlow` (`473`) with the slow one.
pub open spec fn spec_exit_transitions() -> Seq<char> {
    spec_ptr_object(
        "#FNIS_fu_global_auto_gen5201"@,
        "transitions"@,
        json_array(
            seq![
                spec_exit_transition("#FNIS_fu_global_auto_gen5214"@, "5"@),
                spec_exit_transition("#FNIS_fu_global_auto_gen5215"@, "473"@),
            ],
        ),
    )
}

fn exit_transitions_text() -> (r: String)
    ensures
        r@ == spec_exit_transitions(),
{
    let items = vec![
        exit_transition_text("#FNIS_fu_global_auto_gen5214", "5"),
        exit_transition_text("#FNIS_fu_global_auto_gen5215", "473"),
    ];
    assert(texts(items@) =~= seq![
        spec_exit_transition("#FNIS_fu_global_auto_gen5214"@, "5"@),
        spec_exit_transition("#FNIS_fu_global_auto_gen5215"@, "473"@),
    ]);
    ptr_object_text("#FNIS_fu_global_auto_gen5201", "transitions", json_array_text(&items))
}

/// The modifier list of the furniture state.
pub open spec fn spec_furniture_modifiers() -> Seq<char> {
    json_object(
        seq![
            ("__ptr"@, json_string("#FNIS_fu_global_auto_gen5203"@)),
            ("variableBindingSet"@, json_string("#0000"@)),
            ("userData"@, "1"@),
            ("name"@, json_string("FNIS_Furniture_ModifierList"@)),
            ("enable"@, "true"@),
            (
                "modifiers"@,
                json_array(
                    seq![
                        json_string("#FNIS_fu_global_auto_gen5204"@),
                        json_string("#FNIS_fu_global_auto_gen5206"@),
                        json_string("#FNIS_fu_global_auto_gen5209"@),
                        json_string("#FNIS_fu_global_auto_gen5211"@),
                    ],
                ),
            ),
        ],
    )
}

fn furniture_modifiers_text() -> (r: String)
    ensures
        r@ == spec_furniture_modifiers(),
{
    let modifiers = vec![
        json_string_text("#FNIS_fu_global_auto_gen5204"),
        json_string_text("#FNIS_fu_global_auto_gen5206"),
        json_string_text("#FNIS_fu_global_auto_gen5209"),
        json_string_text("#FNIS_fu_global_auto_gen5211"),
    ];
    assert(texts(modifiers@) =~= seq![
        json_string("#FNIS_fu_global_auto_gen5204"@),
        json_string("#FNIS_fu_global_auto_gen5206"@),
        json_string("#FNIS_fu_global_auto_gen5209"@),
        json_string("#FNIS_fu_global_auto_gen5211"@),
    ]);
    let list = json_array_text(&modifiers);
    let ghost list_text = list@;
    let fields = vec![
        ("__ptr", json_string_text("#FNIS_fu_global_auto_gen5203")),
        ("variableBindingSet", json_string_text("#0000")),
        ("userData", String::from_str("1")),
        ("name", json_string_text("FNIS_Furniture_ModifierList")),
        ("enable", String::from_str("true")),
        ("modifiers", list),
    ];
    assert(member_texts(fields@) =~= seq![
        ("__ptr"@, json_string("#FNIS_fu_global_auto_gen5203"@)),
        ("variableBindingSet"@, json_string("#0000"@)),
        ("userData"@, "1"@),
        ("name"@, json_string("FNIS_Furniture_ModifierList"@)),
        ("enable"@, "true"@),
        ("modifiers"@, list_text),
    ]);
    json_object_text(&fields)
}

/// A `BSIsActiveModifier` whose first `inverted` slots are inverted (`inverted <= 5`).
pub open spec fn spec_inverting_modifier(ptr: Seq<char>, binding: Seq<char>, name: Seq<char>, inverted: nat) -> Seq<
    char,
> {
    json_object(
        seq![
            ("__ptr"@, json_string(ptr)),
            ("variableBindingSet"@, json_string(binding)),
            ("userData"@, "2"@),
            ("name"@, json_string(name)),
            ("enable"@, "true"@),
            ("bIsActive0"@, "false"@),
            ("bInvertActive0"@, if inverted > 0 { "true"@ } else { "false"@ }),
            ("bIsActive1"@, "false"@),
            ("bInvertActive1"@, if inverted > 1 { "true"@ } else { "false"@ }),
            ("bIsActive2"@, "false"@),
            ("bInvertActive2"@, if inverted > 2 { "true"@ } else { "false"@ }),
            ("bIsActive3"@, "false"@),
            ("bInvertActive3"@, if inverted > 3 { "true"@ } else { "false"@ }),
            ("bIsActive4"@, "false"@),
            ("bInvertActive4"@, if inverted > 4 { "true"@ } else { "false"@ }),
        ],
    )
}

fn flag_text(b: bool) -> (r: String)
    ensures
        r@ == (if b { "true"@ } else { "false"@ }),
{
    if b {
        String::from_str("true")
    } else {
        String::from_str("false")
    }
}

fn inverting_modifier_text(ptr: &str, binding: &str, name: &str, inverted: usize) -> (r: String)
    ensures
        r@ == spec_inverting_modifier(ptr@, binding@, name@, inverted as nat),
{
    let fields = vec![
        ("__ptr", json_string_text(ptr)),
        ("variableBindingSet", json_string_text(binding)),
        ("userData", String::from_str("2")),
        ("name", json_string_text(name)),
        ("enable", String::from_str("true")),
        ("bIsActive0", String::from_str("false")),
        ("bInvertActive0", flag_text(inverted > 0)),
        ("bIsActive1", String::from_str("false")),
        ("bInvertActive1", flag_text(inverted > 1)),
        ("bIsActive2", String::from_str("false")),
        ("bInvertActive2", flag_text(inverted > 2)),
        ("bIsActive3", String::from_str("false")),
        ("bInvertActive3", flag_text(inverted > 3)),
        ("bIsActive4", String::from_str("false")),
        ("bInvertActive4", flag_text(inverted > 4)),
    ];
    assert(member_texts(fields@) =~= seq![
        ("__ptr"@, json_string(ptr@)),
        ("variableBindingSet"@, json_string(binding@)),
        ("userData"@, "2"@),
        ("name"@, json_string(name@)),
        ("enable"@, "true"@),
        ("bIsActive0"@, "false"@),
        ("bInvertActive0"@, if inverted > 0 { "true"@ } else { "false"@ }),
        ("bIsActive1"@, "false"@),
        ("bInvertActive1"@, if inverted > 1 { "true"@ } else { "false"@ }),
        ("bIsActive2"@, "false"@),
        ("bInvertActive2"@, if inverted > 2 { "true"@ } else { "false"@ }),
        ("bIsActive3"@, "false"@),
        ("bInvertActive3"@, if inverted > 3 { "true"@ } else { "false"@ }),
        ("bIsActive4"@, "false"@),
        ("bInvertActive4"@, if inverted > 4 { "true"@ } else { "false"@ }),
    ]);
    json_object_text(&fields)
}

/// A binding set of the given bindings.
pub open spec fn spec_bindings(ptr: Seq<char>, bindings: Seq<(Seq<char>, Seq<char>)>) -> Seq<char> {
    spec_binding_set(ptr, json_array(Seq::new(bindings.len(), |i: int| spec_binding(bindings[i].0, bindings[i].1))))
}

fn bindings_text(ptr: &str, bindings: &Vec<(&str, &str)>) -> (r: String)
    ensures
        r@ == spec_bindings(ptr@, bindings@.map_values(|b: (&str, &str)| (b.0@, b.1@))),
{
    let ghost bs = bindings@.map_values(|b: (&str, &str)| (b.0@, b.1@));
    let mut items: Vec<String> = Vec::new();
    let mut i: usize = 0;
    while i < bindings.len()
        invariant
            i <= bindings@.len(),
            bs == bindings@.map_values(|b: (&str, &str)| (b.0@, b.1@)),
            texts(items@) =~= Seq::new(i as nat, |j: int| spec_binding(bs[j].0, bs[j].1)),
        decreases bindings@.len() - i,
    {
        let item = binding_text(bindings[i].0, bindings[i].1);
        let ghost before = items@;
        items.push(item);
        assert(texts(items@) =~= texts(before).push(item@));
        i = i + 1;
    }
    binding_set_text(ptr, json_array_text(&items))
}

/// `SetSneakFalse`: a `BSModifyOnceModifier` that runs the expression modifier once.
pub open spec fn spec_modify_once() -> Seq<char> {
    json_object(
        seq![
            ("__ptr"@, json_string("#FNIS_fu_global_auto_gen5206"@)),
            ("variableBindingSet"@, json_string("#0000"@)),
            ("userData"@, "3"@),
            ("name"@, json_string("SetSneakFalse"@)),
            ("enable"@, "true"@),
            ("pOnActivateModifier"@, json_string("#FNIS_fu_global_auto_gen5207"@)),
            ("pOnDeactivateModifier"@, json_string("#0000"@)),
        ],
    )
}

fn modify_once_text() -> (r: String)
    ensures
        r@ == spec_modify_once(),
{
    let fields = vec![
        ("__ptr", json_string_text("#FNIS_fu_global_auto_gen5206")),
        ("variableBindingSet", json_string_text("#0000")),
        ("userData", String::from_str("3")),
        ("name", json_string_text("SetSneakFalse")),
        ("enable", String::from_str("true")),
        ("pOnActivateModifier", json_string_text("#FNIS_fu_global_auto_gen5207")),
        ("pOnDeactivateModifier", json_string_text("#0000")),
    ];
    assert(member_texts(fields@) =~= seq![
        ("__ptr"@, json_string("#FNIS_fu_global_auto_gen5206"@)),
        ("variableBindingSet"@, json_string("#0000"@)),
        ("userData"@, "3"@),
        ("name"@, json_string("SetSneakFalse"@)),
        ("enable"@, "true"@),
        ("pOnActivateModifier"@, json_string("#FNIS_fu_global_auto_gen5207"@)),
        ("pOnDeactivateModifier"@, json_string("#0000"@)),
    ]);
    json_object_text(&fields)
}

/// `SetSneakFalse_EEM`: the expression modifier that evaluates the expression array.
pub open spec fn spec_evaluate_expression() -> Seq<char> {
    json_object(
        seq![
            ("__ptr"@, json_string("#FNIS_fu_global_auto_gen5207"@)),
            ("variableBindingSet"@, json_string("#0000"@)),
            ("userData"@, "2"@),
            ("name"@, json_string("SetSneakFalse_EEM"@)),
            ("enable"@, "true"@),
            ("expressions"@, json_string("#FNIS_fu_global_auto_gen5208"@)),
        ],
    )
}

fn evaluate_expression_text() -> (r: String)
    ensures
        r@ == spec_evaluate_expression(),
{
    let fields = vec![
        ("__ptr", json_string_text("#FNIS_fu_global_auto_gen5207")),
        ("variableBindingSet", json_string_text("#0000")),
        ("userData", String::from_str("2")),
        ("name", json_string_text("SetSneakFalse_EEM")),
        ("enable", String::from_str("true")),
        ("expressions", json_string_text("#FNIS_fu_global_auto_gen5208")),
    ];
    assert(member_texts(fields@) =~= seq![
        ("__ptr"@, json_string("#FNIS_fu_global_auto_gen5207"@)),
        ("variableBindingSet"@, json_string("#0000"@)),
        ("userData"@, "2"@),
        ("name"@, json_string("SetSneakFalse_EEM"@)),
        ("enable"@, "true"@),
        ("expressions"@, json_string("#FNIS_fu_global_auto_gen5208"@)),
    ]);
    json_object_text(&fields)
}

/// The expression `iIsInSneak = 0`, sent once.
pub open spec fn spec_sneak_expression() -> Seq<char> {
    json_object(
        seq![
            ("expression"@, json_string("iIsInSneak = 0"@)),
            ("assignmentVariableIndex"@, "-1"@),
            ("assignmentEventIndex"@, "-1"@),
            ("eventMode"@, json_string("EVENT_MODE_SEND_ONCE"@)),
        ],
    )
}

fn expression_data_text() -> (r: String)
    ensures
        r@ == spec_ptr_object("#FNIS_fu_global_auto_gen5208"@, "expressionsData"@, json_array(seq![spec_sneak_expression()])),
{
    let fields = vec![
        ("expression", json_string_text("iIsInSneak = 0")),
        ("assignmentVariableIndex", String::from_str("-1")),
        ("assignmentEventIndex", String::from_str("-1")),
        ("eventMode", json_string_text("EVENT_MODE_SEND_ONCE")),
    ];
    assert(member_texts(fields@) =~= seq![
        ("expression"@, json_string("iIsInSneak = 0"@)),
        ("assignmentVariableIndex"@, "-1"@),
        ("assignmentEventIndex"@, "-1"@),
        ("eventMode"@, json_string("EVENT_MODE_SEND_ONCE"@)),
    ]);
    let items = vec![json_object_text(&fields)];
    assert(texts(items@) =~= seq![spec_sneak_expression()]);
    ptr_object_text("#FNIS_fu_global_auto_gen5208", "expressionsData", json_array_text(&items))
}

/// `IdleChairGetUp_DeactivateMod`: sends `IdleChairGetUp` (`15`) when deactivated.
pub open spec fn spec_get_up_modifier() -> Seq<char> {
    json_object(
        seq![
            ("__ptr"@, json_string("#FNIS_fu_global_auto_gen5211"@)),
            ("variableBindingSet"@, json_string("#0000"@)),
            ("userData"@, "3"@),
            ("name"@, json_string("IdleChairGetUp_DeactivateMod"@)),
            ("enable"@, "true"@),
            ("event"@, spec_trigger_event("15"@)),
        ],
    )
}

fn get_up_modifier_text() -> (r: String)
    ensures
        r@ == spec_get_up_modifier(),
{
    let fields = vec![
        ("__ptr", json_string_text("#FNIS_fu_global_auto_gen5211")),
        ("variableBindingSet", json_string_text("#0000")),
        ("userData", String::from_str("3")),
        ("name", json_string_text("IdleChairGetUp_DeactivateMod")),
        ("enable", String::from_str("true")),
        ("event", trigger_event_text("15")),
    ];
    assert(member_texts(fields@) =~= seq![
        ("__ptr"@, json_string("#FNIS_fu_global_auto_gen5211"@)),
        ("variableBindingSet"@, json_string("#0000"@)),
        ("userData"@, "3"@),
        ("name"@, json_string("IdleChairGetUp_DeactivateMod"@)),
        ("enable"@, "true"@),
        ("event"@, spec_trigger_event("15"@)),
    ]);
    json_object_text(&fields)
}

/// The furniture behavior graph: a state machine over the furniture groups' root states
/// `states`, starting at state 1 and forced back to it on a self transition.
pub open spec fn spec_furniture_graph(states: Seq<Seq<char>>) -> Seq<char> {
    json_object(
        seq![
            ("__ptr"@, json_string("#FNIS_fu_global_auto_gen5212"@)),
            ("variableBindingSet"@, json_string("#FNIS_fu_global_auto_gen5213"@)),
            ("userData"@, "0"@),
            ("name"@, json_string("FNIS_Furniture_BehaviorGraph"@)),
            ("eventToSendWhenStateOrTransitionChanges"@, spec_no_event()),
            ("startStateChooser"@, json_string("#0000"@)),
            ("startStateId"@, "1"@),
            ("returnToPreviousStateEventId"@, "-1"@),
            ("randomTransitionEventId"@, "-1"@),
            ("transitionToNextHigherStateEventId"@, "-1"@),
            ("transitionToNextLowerStateEventId"@, "-1"@),
            ("syncVariableIndex"@, "-1"@),
            ("wrapAroundStateId"@, "false"@),
            ("maxSimultaneousTransitions"@, "32"@),
            ("startStateMode"@, json_string("START_STATE_MODE_DEFAULT"@)),
            ("selfTransitionMode"@, json_string("SELF_TRANSITION_MODE_FORCE_TRANSITION_TO_START_STATE"@)),
            ("states"@, spec_name_array(states)),
            ("wildcardTransitions"@, json_string("#0000"@)),
        ],
    )
}

fn furniture_graph_text(states: &Vec<String>) -> (r: String)
    ensures
        r@ == spec_furniture_graph(texts(states@)),
{
    let state_list = name_array_text(states);
    let ghost state_text = state_list@;
    let fields = vec![
        ("__ptr", json_string_text("#FNIS_fu_global_auto_gen5212")),
        ("variableBindingSet", json_string_text("#FNIS_fu_global_auto_gen5213")),
        ("userData", String::from_str("0")),
        ("name", json_string_text("FNIS_Furniture_BehaviorGraph")),
        ("eventToSendWhenStateOrTransitionChanges", no_event_text()),
        ("startStateChooser", json_string_text("#0000")),
        ("startStateId", String::from_str("1")),
        ("returnToPreviousStateEventId", String::from_str("-1")),
        ("randomTransitionEventId", String::from_str("-1")),
        ("transitionToNextHigherStateEventId", String::from_str("-1")),
        ("transitionToNextLowerStateEventId", String::from_str("-1")),
        ("syncVariableIndex", String::from_str("-1")),
        ("wrapAroundStateId", String::from_str("false")),
        ("maxSimultaneousTransitions", String::from_str("32")),
        ("startStateMode", json_string_text("START_STATE_MODE_DEFAULT")),
        ("selfTransitionMode", json_string_text("SELF_TRANSITION_MODE_FORCE_TRANSITION_TO_START_STATE")),
        ("states", state_list),
        ("wildcardTransitions", json_string_text("#0000")),
    ];
    assert(member_texts(fields@) =~= seq![
        ("__ptr"@, json_string("#FNIS_fu_global_auto_gen5212"@)),
        ("variableBindingSet"@, json_string("#FNIS_fu_global_auto_gen5213"@)),
        ("userData"@, "0"@),
        ("name"@, json_string("FNIS_Furniture_BehaviorGraph"@)),
        ("eventToSendWhenStateOrTransitionChanges"@, spec_no_event()),
        ("startStateChooser"@, json_string("#0000"@)),
        ("startStateId"@, "1"@),
        ("returnToPreviousStateEventId"@, "-1"@),
        ("randomTransitionEventId"@, "-1"@),
        ("transitionToNextHigherStateEventId"@, "-1"@),
        ("transitionToNextLowerStateEventId"@, "-1"@),
        ("syncVariableIndex"@, "-1"@),
        ("wrapAroundStateId"@, "false"@),
        ("maxSimultaneousTransitions"@, "32"@),
        ("startStateMode"@, json_string("START_STATE_MODE_DEFAULT"@)),
        ("selfTransitionMode"@, json_string("SELF_TRANSITION_MODE_FORCE_TRANSITION_TO_START_STATE"@)),
        ("states"@, state_text),
        ("wildcardTransitions"@, json_string("#0000"@)),
    ]);
    json_object_text(&fields)
}

/// An `hkbBlendingTransitionEffect` (`duration` and `flags` as JSON text).
pub open spec fn spec_blend(ptr: Seq<char>, name: Seq<char>, mode: Seq<char>, duration: Seq<char>, flags: Seq<char>) -> Seq<char> {
    json_object(
        seq![
            ("__ptr"@, json_string(ptr)),
            ("variableBindingSet"@, json_string("#0000"@)),
            ("userData"@, "0"@),
            ("name"@, json_string(name)),
            ("selfTransitionMode"@, json_string(mode)),
            ("eventMode"@, json_string("EVENT_MODE_PROCESS_ALL"@)),
            ("duration"@, duration),
            ("toGeneratorStartTimeFraction"@, "0.0"@),
            ("flags"@, flags),
            ("endMode"@, json_string("END_MODE_NONE"@)),
            ("blendCurve"@, json_string("BLEND_CURVE_SMOOTH"@)),
        ],
    )
}

fn blend_text(ptr: &str, name: &str, mode: &str, duration: &str, flags: String) -> (r: String)
    ensures
        r@ == spec_blend(ptr@, name@, mode@, duration@, flags@),
{
    let ghost flags_text = flags@;
    let fields = vec![
        ("__ptr", json_string_text(ptr)),
        ("variableBindingSet", json_string_text("#0000")),
        ("userData", String::from_str("0")),
        ("name", json_string_text(name)),
        ("selfTransitionMode", json_string_text(mode)),
        ("eventMode", json_string_text("EVENT_MODE_PROCESS_ALL")),
        ("duration", String::from_str(duration)),
        ("toGeneratorStartTimeFraction", String::from_str("0.0")),
        ("flags", flags),
        ("endMode", json_string_text("END_MODE_NONE")),
        ("blendCurve", json_string_text("BLEND_CURVE_SMOOTH")),
    ];
    assert(member_texts(fields@) =~= seq![
        ("__ptr"@, json_string(ptr@)),
        ("variableBindingSet"@, json_string("#0000"@)),
        ("userData"@, "0"@),
        ("name"@, json_string(name@)),
        ("selfTransitionMode"@, json_string(mode@)),
        ("eventMode"@, json_string("EVENT_MODE_PROCESS_ALL"@)),
        ("duration"@, duration@),
        ("toGeneratorStartTimeFraction"@, "0.0"@),
        ("flags"@, flags_text),
        ("endMode"@, json_string("END_MODE_NONE"@)),
        ("blendCurve"@, json_string("BLEND_CURVE_SMOOTH"@)),
    ]);
    json_object_text(&fields)
}

/// The single-value patches that `mt_behavior` gets once: the event arrays of the
/// alternate animation events (head tracking on `18` and off `20`, animated camera start
/// `461` and end `462`), the clip triggers of chair variations, and the furniture root:
/// its state, exit transitions, modifiers, behavior graph over `states`, and blend effects.
pub open spec fn spec_mt_global_one(states: Seq<Seq<char>>, p: usize) -> Seq<(Seq<Seq<char>>, (Seq<char>, usize))> {
    seq![
        patch_of(seq!["FNIS_aa_global_auto_gen5218"@, "hkbStateMachineEventPropertyArray"@], spec_single_event("FNIS_aa_global_auto_gen5218"@, "18"@), p),
        patch_of(seq!["FNIS_aa_global_auto_gen5219"@, "hkbStateMachineEventPropertyArray"@], spec_single_event("FNIS_aa_global_auto_gen5219"@, "20"@), p),
        patch_of(seq!["FNIS_aa_global_auto_gen5220"@, "hkbStateMachineEventPropertyArray"@], spec_single_event("FNIS_aa_global_auto_gen5220"@, "461"@), p),
        patch_of(seq!["FNIS_aa_global_auto_gen5221"@, "hkbStateMachineEventPropertyArray"@], spec_single_event("FNIS_aa_global_auto_gen5221"@, "462"@), p),
        patch_of(seq!["FNIS_aa_global_auto_gen5222"@, "hkbClipTriggerArray"@], spec_variation_triggers(), p),
        patch_of(seq!["#FNIS_fu_global_auto_gen5200"@, "hkbStateMachineStateInfo"@], spec_state_info("#FNIS_fu_global_auto_gen5200"@, "#0000"@, "#0000"@, "#FNIS_fu_global_auto_gen5201"@, "#FNIS_fu_global_auto_gen5202"@, "FNIS_FurnitureState"@, "555"@), p),
        patch_of(seq!["#FNIS_fu_global_auto_gen5201"@, "hkbStateMachineTransitionInfoArray"@], spec_exit_transitions(), p),
        patch_of(seq!["#FNIS_fu_global_auto_gen5202"@, "hkbModifierGenerator"@], spec_modifier_generator("#FNIS_fu_global_auto_gen5202"@, "FNIS_Furniture_MG"@, "#FNIS_fu_global_auto_gen5203"@, "#FNIS_fu_global_auto_gen5212"@), p),
        patch_of(seq!["#FNIS_fu_global_auto_gen5203"@, "hkbModifierList"@], spec_furniture_modifiers(), p),
        patch_of(seq!["#FNIS_fu_global_auto_gen5204"@, "BSIsActiveModifier"@], spec_inverting_modifier("#FNIS_fu_global_auto_gen5204"@, "#FNIS_fu_global_auto_gen5205"@, "bHeadTrackSpine_IsActiveModifier"@, 5), p),
        patch_of(seq!["#FNIS_fu_global_auto_gen5205"@, "hkbVariableBindingSet"@], spec_bindings("#FNIS_fu_global_auto_gen5205"@, seq![("bIsActive0"@, "41"@), ("bIsActive1"@, "63"@)]), p),
        patch_of(seq!["#FNIS_fu_global_auto_gen5206"@, "BSModifyOnceModifier"@], spec_modify_once(), p),
        patch_of(seq!["#FNIS_fu_global_auto_gen5207"@, "hkbEvaluateExpressionModifier"@], spec_evaluate_expression(), p),
        patch_of(seq!["#FNIS_fu_global_auto_gen5208"@, "hkbExpressionDataArray"@], spec_ptr_object("#FNIS_fu_global_auto_gen5208"@, "expressionsData"@, json_array(seq![spec_sneak_expression()])), p),
        patch_of(seq!["#FNIS_fu_global_auto_gen5209"@, "BSIsActiveModifier"@], spec_inverting_modifier("#FNIS_fu_global_auto_gen5209"@, "#FNIS_fu_global_auto_gen5210"@, "bEquipOK_IsNotActive"@, 1), p),
        patch_of(seq!["#FNIS_fu_global_auto_gen5210"@, "hkbVariableBindingSet"@], spec_bindings("#FNIS_fu_global_auto_gen5210"@, seq![("bIsActive0"@, "51"@)]), p),
        patch_of(seq!["#FNIS_fu_global_auto_gen5211"@, "BSEventOnDeactivateModifier"@], spec_get_up_modifier(), p),
        patch_of(seq!["#FNIS_fu_global_auto_gen5212"@, "hkbStateMachine"@], spec_furniture_graph(states), p),
        patch_of(seq!["#FNIS_fu_global_auto_gen5213"@, "hkbVariableBindingSet"@], spec_bindings("#FNIS_fu_global_auto_gen5213"@, seq![("isActive"@, "1"@)]), p),
        patch_of(seq!["#FNIS_fu_global_auto_gen5214"@, "hkbBlendingTransitionEffect"@], spec_blend("#FNIS_fu_global_auto_gen5214"@, "DefaultBlend_FromAnimationDriven"@, "SELF_TRANSITION_MODE_BLEND"@, "0.2"@, json_string("FLAG_IGNORE_TO_WORLD_FROM_MODEL"@)), p),
        patch_of(seq!["#FNIS_fu_global_auto_gen5215"@, "hkbBlendingTransitionEffect"@], spec_blend("#FNIS_fu_global_auto_gen5215"@, "SlowBlendTransitionFromAnimationDriven"@, "SELF_TRANSITION_MODE_BLEND"@, "1.0"@, json_string("FLAG_IGNORE_TO_WORLD_FROM_MODEL"@)), p),
        patch_of(seq!["#FNIS_fu_global_auto_gen5216"@, "hkbBlendingTransitionEffect"@], spec_blend("#FNIS_fu_global_auto_gen5216"@, "0.5secondBlendToFurniture"@, "SELF_TRANSITION_MODE_CONTINUE_IF_CYCLIC_BLEND_IF_ACYCLIC"@, "0.5"@, "0"@), p),
    ]
}

/// The array patch of [`new_mt_global_patch`]: the furniture root state pushed to the
/// state machine `#5195`.
pub open spec fn spec_mt_global_seq(p: usize) -> Seq<(Seq<Seq<char>>, (Seq<char>, usize))> {
    seq![
        patch_of(
            seq!["#5195"@, "hkbStateMachine"@, "states"@],
            json_array(seq![json_string("#FNIS_fu_global_auto_gen5200"@)]),
            p,
        ),
    ]
}

fn pair_list(a: (&'static str, &'static str)) -> (r: Vec<(&'static str, &'static str)>)
    ensures
        r@.map_values(|b: (&str, &str)| (b.0@, b.1@)) =~= seq![(a.0@, a.1@)],
{
    vec![a]
}

/// The patches that `mt_behavior` gets once per run: `(single-value patches, array
/// patches)`; `anim_groups_states` are the root states of the furniture groups.
#[verifier::rlimit(60)]
pub fn new_mt_global_patch(anim_groups_states: &Vec<String>, priority: usize) -> (r: (Vec<PatchPair>, Vec<PatchPair>))
    ensures
        pairs_view(r.0@) == spec_mt_global_one(texts(anim_groups_states@), priority),
        pairs_view(r.1@) == spec_mt_global_seq(priority),
{
    let p = priority;
    let b5205 = vec![("bIsActive0", "41"), ("bIsActive1", "63")];
    assert(b5205@.map_values(|b: (&str, &str)| (b.0@, b.1@)) =~= seq![("bIsActive0"@, "41"@), ("bIsActive1"@, "63"@)]);
    let b5210 = pair_list(("bIsActive0", "51"));
    let b5213 = pair_list(("isActive", "1"));
    let x0 = patch2("FNIS_aa_global_auto_gen5218", "hkbStateMachineEventPropertyArray", single_event_text("FNIS_aa_global_auto_gen5218", "18"), p);
    let x1 = patch2("FNIS_aa_global_auto_gen5219", "hkbStateMachineEventPropertyArray", single_event_text("FNIS_aa_global_auto_gen5219", "20"), p);
    let x2 = patch2("FNIS_aa_global_auto_gen5220", "hkbStateMachineEventPropertyArray", single_event_text("FNIS_aa_global_auto_gen5220", "461"), p);
    let x3 = patch2("FNIS_aa_global_auto_gen5221", "hkbStateMachineEventPropertyArray", single_event_text("FNIS_aa_global_auto_gen5221", "462"), p);
    let x4 = patch2("FNIS_aa_global_auto_gen5222", "hkbClipTriggerArray", variation_triggers_text(), p);
    let x5 = patch2("#FNIS_fu_global_auto_gen5200", "hkbStateMachineStateInfo", state_info_text("#FNIS_fu_global_auto_gen5200", "#0000", "#0000", "#FNIS_fu_global_auto_gen5201", "#FNIS_fu_global_auto_gen5202", "FNIS_FurnitureState", String::from_str("555")), p);
    let x6 = patch2("#FNIS_fu_global_auto_gen5201", "hkbStateMachineTransitionInfoArray", exit_transitions_text(), p);
    let x7 = patch2("#FNIS_fu_global_auto_gen5202", "hkbModifierGenerator", modifier_generator_text("#FNIS_fu_global_auto_gen5202", "FNIS_Furniture_MG", "#FNIS_fu_global_auto_gen5203", "#FNIS_fu_global_auto_gen5212"), p);
    let x8 = patch2("#FNIS_fu_global_auto_gen5203", "hkbModifierList", furniture_modifiers_text(), p);
    let x9 = patch2("#FNIS_fu_global_auto_gen5204", "BSIsActiveModifier", inverting_modifier_text("#FNIS_fu_global_auto_gen5204", "#FNIS_fu_global_auto_gen5205", "bHeadTrackSpine_IsActiveModifier", 5), p);
    let x10 = patch2("#FNIS_fu_global_auto_gen5205", "hkbVariableBindingSet", bindings_text("#FNIS_fu_global_auto_gen5205", &b5205), p);
    let x11 = patch2("#FNIS_fu_global_auto_gen5206", "BSModifyOnceModifier", modify_once_text(), p);
    let x12 = patch2("#FNIS_fu_global_auto_gen5207", "hkbEvaluateExpressionModifier", evaluate_expression_text(), p);
    let x13 = patch2("#FNIS_fu_global_auto_gen5208", "hkbExpressionDataArray", expression_data_text(), p);
    let x14 = patch2("#FNIS_fu_global_auto_gen5209", "BSIsActiveModifier", inverting_modifier_text("#FNIS_fu_global_auto_gen5209", "#FNIS_fu_global_auto_gen5210", "bEquipOK_IsNotActive", 1), p);
    let x15 = patch2("#FNIS_fu_global_auto_gen5210", "hkbVariableBindingSet", bindings_text("#FNIS_fu_global_auto_gen5210", &b5210), p);
    let x16 = patch2("#FNIS_fu_global_auto_gen5211", "BSEventOnDeactivateModifier", get_up_modifier_text(), p);
    let x17 = patch2("#FNIS_fu_global_auto_gen5212", "hkbStateMachine", furniture_graph_text(anim_groups_states), p);
    let x18 = patch2("#FNIS_fu_global_auto_gen5213", "hkbVariableBindingSet", bindings_text("#FNIS_fu_global_auto_gen5213", &b5213), p);
    let x19 = patch2("#FNIS_fu_global_auto_gen5214", "hkbBlendingTransitionEffect", blend_text("#FNIS_fu_global_auto_gen5214", "DefaultBlend_FromAnimationDriven", "SELF_TRANSITION_MODE_BLEND", "0.2", json_string_text("FLAG_IGNORE_TO_WORLD_FROM_MODEL")), p);
    let x20 = patch2("#FNIS_fu_global_auto_gen5215", "hkbBlendingTransitionEffect", blend_text("#FNIS_fu_global_auto_gen5215", "SlowBlendTransitionFromAnimationDriven", "SELF_TRANSITION_MODE_BLEND", "1.0", json_string_text("FLAG_IGNORE_TO_WORLD_FROM_MODEL")), p);
    let x21 = patch2("#FNIS_fu_global_auto_gen5216", "hkbBlendingTransitionEffect", blend_text("#FNIS_fu_global_auto_gen5216", "0.5secondBlendToFurniture", "SELF_TRANSITION_MODE_CONTINUE_IF_CYCLIC_BLEND_IF_ACYCLIC", "0.5", String::from_str("0")), p);
    let ghost spec = spec_mt_global_one(texts(anim_groups_states@), p);
    assert(pair_view(x0) == spec[0]);
    assert(pair_view(x1) == spec[1]);
    assert(pair_view(x2) == spec[2]);
    assert(pair_view(x3) == spec[3]);
    assert(pair_view(x4) == spec[4]);
    assert(pair_view(x5) == spec[5]);
    assert(pair_view(x6) == spec[6]);
    assert(pair_view(x7) == spec[7]);
    assert(pair_view(x8) == spec[8]);
    assert(pair_view(x9) == spec[9]);
    assert(pair_view(x10) == spec[10]);
    assert(pair_view(x11) == spec[11]);
    assert(pair_view(x12) == spec[12]);
    assert(pair_view(x13) == spec[13]);
    assert(pair_view(x14) == spec[14]);
    assert(pair_view(x15) == spec[15]);
    assert(pair_view(x16) == spec[16]);
    assert(pair_view(x17) == spec[17]);
    assert(pair_view(x18) == spec[18]);
    assert(pair_view(x19) == spec[19]);
    assert(pair_view(x20) == spec[20]);
    assert(pair_view(x21) == spec[21]);
    let one = vec![x0, x1, x2, x3, x4, x5, x6, x7, x8, x9, x10, x11, x12, x13, x14, x15, x16, x17, x18, x19, x20, x21];
    assert(pairs_view(one@) =~= spec);
    let root = vec![json_string_text("#FNIS_fu_global_auto_gen5200")];
    assert(texts(root@) =~= seq![json_string("#FNIS_fu_global_auto_gen5200"@)]);
    let s0 = patch3("#5195", "hkbStateMachine", "states", json_array_text(&root), p);
    let seq_patches = vec![s0];
    assert(pairs_view(seq_patches@) =~= spec_mt_global_seq(p));
    (one, seq_patches)
}

/// The classes of the furniture root that its patches point at: the state's transitions and
/// generator, the modifier list and behavior graph, the modifiers, their binding sets and
/// expressions, the graph's binding set and the blend effects of the exit transitions.
pub open spec fn furniture_root_pointers() -> Seq<Seq<char>> {
    seq![
        "#FNIS_fu_global_auto_gen5201"@,
        "#FNIS_fu_global_auto_gen5202"@,
        "#FNIS_fu_global_auto_gen5203"@,
        "#FNIS_fu_global_auto_gen5212"@,
        "#FNIS_fu_global_auto_gen5204"@,
        "#FNIS_fu_global_auto_gen5205"@,
        "#FNIS_fu_global_auto_gen5206"@,
        "#FNIS_fu_global_auto_gen5207"@,
        "#FNIS_fu_global_auto_gen5208"@,
        "#FNIS_fu_global_auto_gen5209"@,
        "#FNIS_fu_global_auto_gen5210"@,
        "#FNIS_fu_global_auto_gen5211"@,
        "#FNIS_fu_global_auto_gen5213"@,
        "#FNIS_fu_global_auto_gen5214"@,
        "#FNIS_fu_global_auto_gen5215"@,
    ]
}

/// No pointer of the furniture root dangles: each class its patches point at, and the
/// state pushed to `#5195`, is one that the patches add, and every patch has the priority
/// given.
pub proof fn lemma_mt_global_pointers_resolve(states: Seq<Seq<char>>, p: usize)
    ensures
        forall|i: int|
            0 <= i < furniture_root_pointers().len() ==> exists|k: int|
                0 <= k < spec_mt_global_one(states, p).len() && spec_mt_global_one(states, p)[k].0[0]
                    == #[trigger] furniture_root_pointers()[i],
        exists|k: int| 0 <= k < spec_mt_global_one(states, p).len() && spec_mt_global_one(states, p)[k].0[0] == "#FNIS_fu_global_auto_gen5200"@,
        forall|k: int| 0 <= k < spec_mt_global_one(states, p).len() ==> #[trigger] spec_mt_global_one(states, p)[k].1.1 == p,
        spec_mt_global_seq(p)[0].1.1 == p,
{
    let one = spec_mt_global_one(states, p);
    assert(one[5].0[0] == "#FNIS_fu_global_auto_gen5200"@);
    assert forall|i: int| 0 <= i < furniture_root_pointers().len() implies exists|k: int|
        0 <= k < one.len() && one[k].0[0] == #[trigger] furniture_root_pointers()[i] by {
        if i == 0 {
            assert(one[6].0[0] == furniture_root_pointers()[i]);
        }
        if i == 1 {
            assert(one[7].0[0] == furniture_root_pointers()[i]);
        }
        if i == 2 {
            assert(one[8].0[0] == furniture_root_pointers()[i]);
        }
        if i == 3 {
            assert(one[17].0[0] == furniture_root_pointers()[i]);
        }
        if i == 4 {
            assert(one[9].0[0] == furniture_root_pointers()[i]);
        }
        if i == 5 {
            assert(one[10].0[0] == furniture_root_pointers()[i]);
        }
        if i == 6 {
            assert(one[11].0[0] == furniture_root_pointers()[i]);
        }
        if i == 7 {
            assert(one[12].0[0] == furniture_root_pointers()[i]);
        }
        if i == 8 {
            assert(one[13].0[0] == furniture_root_pointers()[i]);
        }
        if i == 9 {
            assert(one[14].0[0] == furniture_root_pointers()[i]);
        }
        if i == 10 {
            assert(one[15].0[0] == furniture_root_pointers()[i]);
        }
        if i == 11 {
            assert(one[16].0[0] == furniture_root_pointers()[i]);
        }
        if i == 12 {
            assert(one[18].0[0] == furniture_root_pointers()[i]);
        }
        if i == 13 {
            assert(one[19].0[0] == furniture_root_pointers()[i]);
        }
        if i == 14 {
            assert(one[20].0[0] == furniture_root_pointers()[i]);
        }
    }
}

} // verus!
