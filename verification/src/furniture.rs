//! Furniture animations (`fu`, `fuo`): groups of at least two animations played in turn
//! while an actor uses a piece of furniture, added to
//! `meshes\actors\character\behaviors\mt_behavior.xml`.
//!
//! Each animation gets a state with its clip, its enter and exit events and, unless it is the
//! last one, a transition to the last animation's state on `IdleChairExitStart`; the group
//! gets a root state whose behavior holds them, entered on the first animation's event.
use vstd::prelude::*;

use crate::anim_seq::{
    new_push_events_seq_patch, new_push_values_seq_patch, spec_push_events, spec_push_values,
};
use crate::anim_var::{i32_to_decimal, int_decimal};
use crate::fnis_anim::{
    binding_set_text, binding_text, clip_generator_text, clip_mode, clip_trigger_text,
    event_id_variable, event_property_text, interval_text, modifier_generator_text,
    no_event_text, pair_view, pairs_view, patch2, patch3, patch_of, ptr_object_text,
    spec_binding, spec_binding_set, spec_clip_generator, spec_clip_mode, spec_clip_trigger,
    spec_event_property, spec_interval, spec_modifier_generator, spec_no_event,
    spec_ptr_object, spec_state_info, spec_trigger_event, state_id_of,
    state_id_text, state_info_text, string_payload_text, trigger_event_text, FnisAnimFlags,
    PatchPair,
};
use crate::fnis_names::{numbered, numbered_text, spec_state_id};
use crate::fnis_paths::{animation_path, spec_animation_path};
use crate::hashing::{calculate_hash, hash, spec_default_hash};
use crate::patch_map::{spec_keep_higher, spec_push, OnePatchMap, SeqPatchMap};
use crate::json::{
    json_array, json_array_text, json_object, json_object_text, json_string, json_string_text,
    member_texts, texts,
};
use crate::kill_move::Trigger;
use crate::offset_arm::spec_anim_object_patches;
use crate::text::{decimal, u64_to_decimal};

verus! {

/// A variable flag of an animation (`AV<name>`, `AVI<name>` when inverted).
#[derive(Debug, Clone, PartialEq, Eq)]
pub struct FlagVar {
    pub name: String,
    pub inverse: bool,
}

/// One animation of a furniture group, as patch generation reads it.
#[derive(Debug, Clone, PartialEq, Eq)]
pub struct FurnitureAnim {
    /// Its animation event.
    pub anim_event: String,
    /// Its animation file, relative to the namespace directory.
    pub anim_file: String,
    /// Its flags.
    pub flags: FnisAnimFlags,
    /// Its variable flags.
    pub anim_vars: Vec<FlagVar>,
    /// Its triggers (`T<event>/<time>`).
    pub triggers: Vec<Trigger>,
    /// The names of its animation objects, in list order.
    pub anim_objects: Vec<String>,
}

/// A furniture group: its animations, in list order (the list grammar requires at least
/// two).
#[derive(Debug, Clone, PartialEq, Eq)]
pub struct FurnitureGroup {
    pub animations: Vec<FurnitureAnim>,
}

/// Where an animation stands in its furniture group.
#[derive(Debug, Clone, Copy, PartialEq, Eq)]
pub enum FurniturePhase {
    /// The first animation (`-F`).
    Start,
    /// A middle animation, with its index in the group.
    Middle(usize),
    /// The last animation (`-L`), with its index in the group.
    End(usize),
}

/// The blend transition effect that furniture transitions use.
pub open spec fn blend_transition() -> Seq<char> {
    "#FNIS_ba_global_auto_gen5231"@
}

/// The events an animation's state sends on entry: loading and drawing (`393`, `394`) its
/// first animation object, if any; head tracking off (`20`) unless kept; the animated camera
/// start (`461`) when set.
pub open spec fn spec_fu_enter_events(flags: FnisAnimFlags, anim_object: Option<Seq<char>>) -> Seq<Seq<char>> {
    (match anim_object {
        Some(o) => seq![spec_event_property("393"@, o), spec_event_property("394"@, o)],
        None => Seq::empty(),
    }) + (if flags.head_tracking {
        Seq::empty()
    } else {
        seq![spec_event_property("20"@, "#0000"@)]
    }) + (if flags.animated_camera_set {
        seq![spec_event_property("461"@, "#1978"@)]
    } else {
        Seq::empty()
    })
}

fn fu_enter_events_text(flags: FnisAnimFlags, anim_object: Option<&str>) -> (r: String)
    ensures
        r@ == json_array(
            spec_fu_enter_events(
                flags,
                match anim_object {
                    Some(o) => Some(o@),
                    None => None,
                },
            ),
        ),
{
    let mut events: Vec<String> = Vec::new();
    if let Some(o) = anim_object {
        events.push(event_property_text("393", o));
        events.push(event_property_text("394", o));
    }
    let ghost a = texts(events@);
    if !flags.head_tracking {
        events.push(event_property_text("20", "#0000"));
    }
    let ghost b = texts(events@);
    if flags.animated_camera_set {
        events.push(event_property_text("461", "#1978"));
    }
    assert(texts(events@) =~= spec_fu_enter_events(
        flags,
        match anim_object {
            Some(o) => Some(o@),
            None => None,
        },
    ));
    json_array_text(&events)
}

/// The events an animation's state sends on exit: unequipping objects (`165`) unless it has
/// some; head tracking on (`18`) when kept; `IdleChairSitting` (`14`) after the first
/// animation; the animated camera end (`462`) when reset.
pub open spec fn spec_fu_exit_events(flags: FnisAnimFlags, phase: FurniturePhase) -> Seq<Seq<char>> {
    (if flags.anim_objects {
        Seq::empty()
    } else {
        seq![spec_event_property("165"@, "#0000"@)]
    }) + (if flags.head_tracking {
        seq![spec_event_property("18"@, "#0000"@)]
    } else {
        Seq::empty()
    }) + (if phase is Start {
        seq![spec_event_property("14"@, "#0000"@)]
    } else {
        Seq::empty()
    }) + (if flags.animated_camera_reset {
        seq![spec_event_property("462"@, "#0000"@)]
    } else {
        Seq::empty()
    })
}

fn fu_exit_events_text(flags: FnisAnimFlags, phase: FurniturePhase) -> (r: String)
    ensures
        r@ == json_array(spec_fu_exit_events(flags, phase)),
{
    let mut events: Vec<String> = Vec::new();
    if !flags.anim_objects {
        events.push(event_property_text("165", "#0000"));
    }
    if flags.head_tracking {
        events.push(event_property_text("18", "#0000"));
    }
    let start = match phase {
        FurniturePhase::Start => true,
        _ => false,
    };
    if start {
        events.push(event_property_text("14", "#0000"));
    }
    if flags.animated_camera_reset {
        events.push(event_property_text("462", "#0000"));
    }
    assert(texts(events@) =~= spec_fu_exit_events(flags, phase));
    json_array_text(&events)
}

/// A transition with the effect `effect`, on the event `event_id` (JSON text), to the
/// state `to_state` (JSON text), with `flags`.
pub open spec fn spec_fu_transition(effect: Seq<char>, event_id: Seq<char>, to_state: Seq<char>, flags: Seq<char>) -> Seq<char> {
    json_object(
        seq![
            ("triggerInterval"@, spec_interval()),
            ("initiateInterval"@, spec_interval()),
            ("transition"@, json_string(effect)),
            ("condition"@, json_string("#0000"@)),
            ("eventId"@, event_id),
            ("toStateId"@, to_state),
            ("fromNestedStateId"@, "0"@),
            ("toNestedStateId"@, "0"@),
            ("priority"@, "0"@),
            ("flags"@, json_string(flags)),
        ],
    )
}

fn fu_transition_text(effect: &str, event_id: String, to_state: String, flags: &str) -> (r: String)
    ensures
        r@ == spec_fu_transition(effect@, event_id@, to_state@, flags@),
{
    let ghost (e, t) = (event_id@, to_state@);
    let fields = vec![
        ("triggerInterval", interval_text()),
        ("initiateInterval", interval_text()),
        ("transition", json_string_text(effect)),
        ("condition", json_string_text("#0000")),
        ("eventId", event_id),
        ("toStateId", to_state),
        ("fromNestedStateId", String::from_str("0")),
        ("toNestedStateId", String::from_str("0")),
        ("priority", String::from_str("0")),
        ("flags", json_string_text(flags)),
    ];
    assert(member_texts(fields@) =~= seq![
        ("triggerInterval"@, spec_interval()),
        ("initiateInterval"@, spec_interval()),
        ("transition"@, json_string(effect@)),
        ("condition"@, json_string("#0000"@)),
        ("eventId"@, e),
        ("toStateId"@, t),
        ("fromNestedStateId"@, "0"@),
        ("toNestedStateId"@, "0"@),
        ("priority"@, "0"@),
        ("flags"@, json_string(flags@)),
    ]);
    json_object_text(&fields)
}

/// The inversion of slot `i` of the `bMesmerizeIsActive` modifier: that of variable `i`,
/// `false` past the last variable.
pub open spec fn slot_inverted(vars: Seq<FlagVar>, i: int) -> Seq<char> {
    if i < vars.len() && vars[i].inverse {
        "true"@
    } else {
        "false"@
    }
}

/// The `bMesmerizeIsActive` modifier: active while the animation's variables are, slot `i`
/// inverted as variable `i` is.
pub open spec fn spec_mesmerize(ptr: Seq<char>, binding: Seq<char>, vars: Seq<FlagVar>) -> Seq<char> {
    json_object(
        seq![
            ("__ptr"@, json_string(ptr)),
            ("variableBindingSet"@, json_string(binding)),
            ("userData"@, "2"@),
            ("name"@, json_string("bMesmerizeIsActive"@)),
            ("enable"@, "true"@),
            ("bIsActive0"@, "false"@),
            ("bInvertActive0"@, slot_inverted(vars, 0)),
            ("bIsActive1"@, "false"@),
            ("bInvertActive1"@, slot_inverted(vars, 1)),
            ("bIsActive2"@, "false"@),
            ("bInvertActive2"@, slot_inverted(vars, 2)),
            ("bIsActive3"@, "false"@),
            ("bInvertActive3"@, slot_inverted(vars, 3)),
            ("bIsActive4"@, "false"@),
            ("bInvertActive4"@, slot_inverted(vars, 4)),
        ],
    )
}

fn slot_inverted_text(vars: &Vec<FlagVar>, i: usize) -> (r: String)
    ensures
        r@ == slot_inverted(vars@, i as int),
{
    if i < vars.len() && vars[i].inverse {
        String::from_str("true")
    } else {
        String::from_str("false")
    }
}

fn mesmerize_text(ptr: &str, binding: &str, vars: &Vec<FlagVar>) -> (r: String)
    ensures
        r@ == spec_mesmerize(ptr@, binding@, vars@),
{
    let fields = vec![
        ("__ptr", json_string_text(ptr)),
        ("variableBindingSet", json_string_text(binding)),
        ("userData", String::from_str("2")),
        ("name", json_string_text("bMesmerizeIsActive")),
        ("enable", String::from_str("true")),
        ("bIsActive0", String::from_str("false")),
        ("bInvertActive0", slot_inverted_text(vars, 0)),
        ("bIsActive1", String::from_str("false")),
        ("bInvertActive1", slot_inverted_text(vars, 1)),
        ("bIsActive2", String::from_str("false")),
        ("bInvertActive2", slot_inverted_text(vars, 2)),
        ("bIsActive3", String::from_str("false")),
        ("bInvertActive3", slot_inverted_text(vars, 3)),
        ("bIsActive4", String::from_str("false")),
        ("bInvertActive4", slot_inverted_text(vars, 4)),
    ];
    assert(member_texts(fields@) =~= seq![
        ("__ptr"@, json_string(ptr@)),
        ("variableBindingSet"@, json_string(binding@)),
        ("userData"@, "2"@),
        ("name"@, json_string("bMesmerizeIsActive"@)),
        ("enable"@, "true"@),
        ("bIsActive0"@, "false"@),
        ("bInvertActive0"@, slot_inverted(vars@, 0)),
        ("bIsActive1"@, "false"@),
        ("bInvertActive1"@, slot_inverted(vars@, 1)),
        ("bIsActive2"@, "false"@),
        ("bInvertActive2"@, slot_inverted(vars@, 2)),
        ("bIsActive3"@, "false"@),
        ("bInvertActive3"@, slot_inverted(vars@, 3)),
        ("bIsActive4"@, "false"@),
        ("bInvertActive4"@, slot_inverted(vars@, 4)),
    ]);
    json_object_text(&fields)
}

/// The bindings of the first `n` variables: slot `i` of the modifier to the variable's id
/// (`$variableID<name>$`).
pub open spec fn spec_var_bindings(vars: Seq<FlagVar>, n: nat) -> Seq<Seq<char>> {
    Seq::new(
        n,
        |i: int| spec_binding("bIsActive"@ + decimal(i as nat), json_string("$variableID"@ + vars[i].name@ + "$"@)),
    )
}

fn var_bindings_text(ptr: &str, vars: &Vec<FlagVar>, n: usize) -> (r: String)
    requires
        n <= vars@.len(),
    ensures
        r@ == spec_binding_set(ptr@, json_array(spec_var_bindings(vars@, n as nat))),
{
    let mut items: Vec<String> = Vec::new();
    let mut i: usize = 0;
    while i < n
        invariant
            i <= n,
            n <= vars@.len(),
            texts(items@) =~= spec_var_bindings(vars@, i as nat),
        decreases n - i,
    {
        let mut member = String::from_str("bIsActive");
        member.append(u64_to_decimal(i as u64).as_str());
        let mut var = String::from_str("$variableID");
        var.append(vars[i].name.as_str());
        var.append("$");
        let item = binding_text(member.as_str(), json_string_text(var.as_str()).as_str());
        let ghost before = items@;
        items.push(item);
        assert(texts(items@) =~= texts(before).push(item@));
        i = i + 1;
    }
    binding_set_text(ptr, json_array_text(&items))
}

/// A clip trigger relative to the end of the clip, at `local_time`, sending event `id`.
pub open spec fn spec_end_trigger(local_time: Seq<char>, id: Seq<char>) -> Seq<char> {
    json_object(
        seq![
            ("localTime"@, local_time),
            ("event"@, spec_trigger_event(id)),
            ("relativeToEndOfClip"@, "true"@),
            ("acyclic"@, "false"@),
            ("isAnnotation"@, "false"@),
        ],
    )
}

fn end_trigger_text(local_time: &str, id: &str) -> (r: String)
    ensures
        r@ == spec_end_trigger(local_time@, id@),
{
    let fields = vec![
        ("localTime", String::from_str(local_time)),
        ("event", trigger_event_text(id)),
        ("relativeToEndOfClip", String::from_str("true")),
        ("acyclic", String::from_str("false")),
        ("isAnnotation", String::from_str("false")),
    ];
    assert(member_texts(fields@) =~= seq![
        ("localTime"@, local_time@),
        ("event"@, spec_trigger_event(id@)),
        ("relativeToEndOfClip"@, "true"@),
        ("acyclic"@, "false"@),
        ("isAnnotation"@, "false"@),
    ]);
    json_object_text(&fields)
}

/// The clip triggers of an animation: its list triggers (events as Nemesis variables); for
/// the last animation, `IdleForceDefaultState` (`130`) 0.05 s and its own event and
/// `IdleFurnitureExit` (`5`) 0.2 s before the end; for an acyclic animation with a next
/// one, the next animation's event at 0.
pub open spec fn spec_fu_triggers(anim: FurnitureAnim, phase: FurniturePhase, next_event: Option<Seq<char>>) -> Seq<
    Seq<char>,
> {
    Seq::new(
        anim.triggers@.len(),
        |i: int|
            spec_clip_trigger(
                anim.triggers@[i].time@,
                json_string(event_id_variable(anim.triggers@[i].event@)),
            ),
    ) + (if phase is End {
        seq![
            spec_end_trigger("-0.05"@, "130"@),
            spec_end_trigger("-0.2"@, json_string(event_id_variable(anim.anim_event@))),
            spec_end_trigger("-0.2"@, "5"@),
        ]
    } else {
        Seq::empty()
    }) + (match next_event {
        Some(n) => if anim.flags.acyclic {
            seq![spec_clip_trigger("0.0"@, json_string(event_id_variable(n)))]
        } else {
            Seq::empty()
        },
        None => Seq::empty(),
    })
}

fn event_variable_json(event: &str) -> (r: String)
    ensures
        r@ == json_string(event_id_variable(event@)),
{
    let mut id = String::from_str("$eventID[");
    id.append(event);
    id.append("]$");
    json_string_text(id.as_str())
}

fn fu_triggers_text(anim: &FurnitureAnim, phase: FurniturePhase, next_event: Option<&str>) -> (r: String)
    ensures
        r@ == json_array(
            spec_fu_triggers(
                *anim,
                phase,
                match next_event {
                    Some(n) => Some(n@),
                    None => None,
                },
            ),
        ),
{
    let mut items: Vec<String> = Vec::new();
    let mut i: usize = 0;
    while i < anim.triggers.len()
        invariant
            i <= anim.triggers@.len(),
            texts(items@) =~= Seq::new(
                i as nat,
                |j: int|
                    spec_clip_trigger(
                        anim.triggers@[j].time@,
                        json_string(event_id_variable(anim.triggers@[j].event@)),
                    ),
            ),
        decreases anim.triggers@.len() - i,
    {
        let id = event_variable_json(anim.triggers[i].event.as_str());
        let item = clip_trigger_text(anim.triggers[i].time.as_str(), id.as_str());
        let ghost before = items@;
        items.push(item);
        assert(texts(items@) =~= texts(before).push(item@));
        i = i + 1;
    }
    let is_end = match phase {
        FurniturePhase::End(_) => true,
        _ => false,
    };
    if is_end {
        items.push(end_trigger_text("-0.05", "130"));
        let own = event_variable_json(anim.anim_event.as_str());
        items.push(end_trigger_text("-0.2", own.as_str()));
        items.push(end_trigger_text("-0.2", "5"));
    }
    if let Some(n) = next_event {
        if anim.flags.acyclic {
            let id = event_variable_json(n);
            items.push(clip_trigger_text("0.0", id.as_str()));
        }
    }
    assert(texts(items@) =~= spec_fu_triggers(
        *anim,
        phase,
        match next_event {
            Some(n) => Some(n@),
            None => None,
        },
    ));
    json_array_text(&items)
}

/// The name of an animation's clip: `IdleBlessingKneelEnter` for the first, `FNISCG_<i>`
/// for the others.
pub open spec fn spec_clip_name(phase: FurniturePhase) -> Seq<char> {
    match phase {
        FurniturePhase::Start => "IdleBlessingKneelEnter"@,
        FurniturePhase::Middle(i) => numbered("FNISCG_"@, i as nat),
        FurniturePhase::End(i) => numbered("FNISCG_"@, i as nat),
    }
}

/// The first animation object's class name, if the animation has one (class names from 9
/// on are its objects').
pub open spec fn first_object(anim: FurnitureAnim, ci: Seq<Seq<char>>) -> Option<Seq<char>> {
    if anim.anim_objects@.len() > 0 {
        Some(ci[9])
    } else {
        None
    }
}

/// The classes of one furniture animation (class names 0 to 8): its state, enter and exit
/// event arrays, exit transitions, the variable modifiers when it has variables, its clip
/// and the clip's triggers. `end_state_id` is the state id of the group's last animation.
pub open spec fn spec_fu_anim_classes(
    anim: FurnitureAnim,
    phase: FurniturePhase,
    next_event: Option<Seq<char>>,
    end_state_id: i32,
    namespace: Seq<char>,
    p: usize,
    ci: Seq<Seq<char>>,
) -> Seq<(Seq<Seq<char>>, (Seq<char>, usize))> {
    let f = anim.flags;
    let no_vars = anim.anim_vars@.len() == 0;
    let enter = if f.anim_objects || !f.head_tracking || f.animated_camera_set { ci[1] } else { "#0000"@ };
    let exit = if !f.anim_objects || f.head_tracking || f.animated_camera_reset { ci[2] } else { "#0000"@ };
    let transitions = if phase is End { "#0000"@ } else { ci[3] };
    let generator = if no_vars { ci[7] } else { ci[4] };
    let triggers = if phase is End || f.acyclic || anim.triggers@.len() > 0 { ci[8] } else { "#0000"@ };
    seq![
        patch_of(seq![ci[0], "hkbStateMachineStateInfo"@], spec_state_info(ci[0], enter, exit, transitions, generator, anim.anim_event@, decimal(spec_state_id(ci[0]))), p),
        patch_of(seq![ci[1], "hkbStateMachineEventPropertyArray"@], spec_ptr_object(ci[1], "events"@, json_array(spec_fu_enter_events(f, first_object(anim, ci)))), p),
        patch_of(seq![ci[2], "hkbStateMachineEventPropertyArray"@], spec_ptr_object(ci[2], "events"@, json_array(spec_fu_exit_events(f, phase))), p),
        patch_of(seq![ci[3], "hkbStateMachineTransitionInfoArray"@], spec_ptr_object(ci[3], "transitions"@, json_array(seq![spec_fu_transition(blend_transition(), "152"@, int_decimal(end_state_id as int), "FLAG_DISABLE_CONDITION"@)])), p),
    ] + (if no_vars {
        Seq::empty()
    } else {
        seq![
            patch_of(seq![ci[4], "hkbModifierGenerator"@], spec_modifier_generator(ci[4], "IdleMesmerizes_MG"@, ci[5], ci[7]), p),
            patch_of(seq![ci[5], "BSIsActiveModifier"@], spec_mesmerize(ci[5], ci[6], anim.anim_vars@), p),
            patch_of(seq![ci[6], "hkbVariableBindingSet"@], spec_binding_set(ci[6], json_array(spec_var_bindings(anim.anim_vars@, anim.anim_vars@.len()))), p),
        ]
    }) + seq![
        patch_of(seq![ci[7], "hkbClipGenerator"@], spec_clip_generator(ci[7], spec_clip_name(phase), spec_animation_path(namespace, anim.anim_file@), triggers, spec_clip_mode(f)), p),
        patch_of(seq![ci[8], "hkbClipTriggerArray"@], spec_ptr_object(ci[8], "triggers"@, json_array(spec_fu_triggers(anim, phase, next_event))), p),
    ]
}

/// The single-value patches of one furniture animation: its animation objects (class names
/// from 9 on), then its classes.
pub open spec fn spec_fu_anim_one(
    anim: FurnitureAnim,
    phase: FurniturePhase,
    next_event: Option<Seq<char>>,
    end_state_id: i32,
    namespace: Seq<char>,
    p: usize,
    ci: Seq<Seq<char>>,
) -> Seq<(Seq<Seq<char>>, (Seq<char>, usize))> {
    spec_anim_object_patches(anim.anim_objects@, ci, 9, p) + spec_fu_anim_classes(anim, phase, next_event, end_state_id, namespace, p, ci)
}

/// The array patches of one furniture animation: its event registered in `mt_behavior`'s
/// string data `#0083` and graph data `#0085`, its variables, if any, there and in the
/// value set `#0084`, and class names 0 and 2 pushed to the state machine `#5138`.
pub open spec fn spec_fu_anim_seq(anim: FurnitureAnim, p: usize, ci: Seq<Seq<char>>) -> Seq<(Seq<Seq<char>>, (Seq<char>, usize))> {
    spec_push_events(seq![anim.anim_event@], "#0083"@, "#0085"@, p) + (if anim.anim_vars@.len() == 0 {
        Seq::empty()
    } else {
        spec_push_values(var_names(anim.anim_vars@), "#0083"@, "#0084"@, "#0085"@, p)
    }) + seq![
        patch_of(seq!["#5138"@, "hkbStateMachine"@, "states"@], json_array(seq![json_string(ci[0]), json_string(ci[2])]), p),
    ]
}

/// The names of variable flags.
pub open spec fn var_names(vars: Seq<FlagVar>) -> Seq<Seq<char>> {
    vars.map_values(|v: FlagVar| v.name@)
}

fn var_name_list(vars: &Vec<FlagVar>) -> (r: Vec<String>)
    ensures
        texts(r@) == var_names(vars@),
{
    let mut r: Vec<String> = Vec::new();
    let mut i: usize = 0;
    while i < vars.len()
        invariant
            i <= vars@.len(),
            texts(r@) =~= var_names(vars@).take(i as int),
        decreases vars@.len() - i,
    {
        let ghost before = r@;
        r.push(vars[i].name.clone());
        assert(texts(r@) =~= texts(before).push(vars@[i as int].name@));
        i = i + 1;
    }
    assert(var_names(vars@).take(vars@.len() as int) =~= var_names(vars@));
    r
}

fn clip_name_text(phase: FurniturePhase) -> (r: String)
    ensures
        r@ == spec_clip_name(phase),
{
    match phase {
        FurniturePhase::Start => String::from_str("IdleBlessingKneelEnter"),
        FurniturePhase::Middle(i) => numbered_text("FNISCG_", i as u64),
        FurniturePhase::End(i) => numbered_text("FNISCG_", i as u64),
    }
}

#[verifier::rlimit(100)]
fn fu_anim_class_patches(
    anim: &FurnitureAnim,
    phase: FurniturePhase,
    next_event: Option<&str>,
    end_state_id: i32,
    namespace: &str,
    p: usize,
    class_indexes: &Vec<String>,
) -> (r: Vec<PatchPair>)
    requires
        class_indexes@.len() == 9 + anim.anim_objects@.len(),
    ensures
        pairs_view(r@) == spec_fu_anim_classes(
            *anim,
            phase,
            match next_event {
                Some(n) => Some(n@),
                None => None,
            },
            end_state_id,
            namespace@,
            p,
            texts(class_indexes@),
        ),
{
    let ghost ci = texts(class_indexes@);
    let c = class_indexes;
    let f = anim.flags;
    let no_vars = anim.anim_vars.len() == 0;
    let is_end = match phase {
        FurniturePhase::End(_) => true,
        _ => false,
    };
    let enter = if f.anim_objects || !f.head_tracking || f.animated_camera_set { c[1].as_str() } else { "#0000" };
    let exit = if !f.anim_objects || f.head_tracking || f.animated_camera_reset { c[2].as_str() } else { "#0000" };
    let transitions = if is_end { "#0000" } else { c[3].as_str() };
    let generator = if no_vars { c[7].as_str() } else { c[4].as_str() };
    let triggers = if is_end || f.acyclic || anim.triggers.len() > 0 { c[8].as_str() } else { "#0000" };
    let object = if anim.anim_objects.len() > 0 { Some(c[9].as_str()) } else { None };
    proof {
        assert(ci[0] == c@[0]@);
        assert(ci[1] == c@[1]@);
        assert(ci[2] == c@[2]@);
        assert(ci[3] == c@[3]@);
        assert(ci[4] == c@[4]@);
        assert(ci[5] == c@[5]@);
        assert(ci[6] == c@[6]@);
        assert(ci[7] == c@[7]@);
        assert(ci[8] == c@[8]@);
        if anim.anim_objects@.len() > 0 {
            assert(ci[9] == c@[9]@);
        }
    }
    let id = calculate_hash(c[0].as_str()) as u64;
    let x0 = patch2(c[0].as_str(), "hkbStateMachineStateInfo", state_info_text(c[0].as_str(), enter, exit, transitions, generator, anim.anim_event.as_str(), u64_to_decimal(id)), p);
    let x1 = patch2(c[1].as_str(), "hkbStateMachineEventPropertyArray", ptr_object_text(c[1].as_str(), "events", fu_enter_events_text(f, object)), p);
    let x2 = patch2(c[2].as_str(), "hkbStateMachineEventPropertyArray", ptr_object_text(c[2].as_str(), "events", fu_exit_events_text(f, phase)), p);
    let tr = vec![fu_transition_text("#FNIS_ba_global_auto_gen5231", String::from_str("152"), i32_to_decimal(end_state_id), "FLAG_DISABLE_CONDITION")];
    assert(texts(tr@) =~= seq![spec_fu_transition(blend_transition(), "152"@, int_decimal(end_state_id as int), "FLAG_DISABLE_CONDITION"@)]);
    let x3 = patch2(c[3].as_str(), "hkbStateMachineTransitionInfoArray", ptr_object_text(c[3].as_str(), "transitions", json_array_text(&tr)), p);
    let mut r = vec![x0, x1, x2, x3];
    let ghost spec = spec_fu_anim_classes(
        *anim,
        phase,
        match next_event {
            Some(n) => Some(n@),
            None => None,
        },
        end_state_id,
        namespace@,
        p,
        ci,
    );
    assert(pair_view(x0) == spec[0]);
    assert(pair_view(x1) == spec[1]);
    assert(pair_view(x2) == spec[2]);
    assert(pair_view(x3) == spec[3]);
    let ghost head = r@;
    if !no_vars {
        let x4 = patch2(c[4].as_str(), "hkbModifierGenerator", modifier_generator_text(c[4].as_str(), "IdleMesmerizes_MG", c[5].as_str(), c[7].as_str()), p);
        let x5 = patch2(c[5].as_str(), "BSIsActiveModifier", mesmerize_text(c[5].as_str(), c[6].as_str(), &anim.anim_vars), p);
        let x6 = patch2(c[6].as_str(), "hkbVariableBindingSet", var_bindings_text(c[6].as_str(), &anim.anim_vars, anim.anim_vars.len()), p);
        assert(pair_view(x4) == spec[4]);
        assert(pair_view(x5) == spec[5]);
        assert(pair_view(x6) == spec[6]);
        r.push(x4);
        r.push(x5);
        r.push(x6);
    }
    let ghost k = r@.len() as int;
    let x7 = patch2(c[7].as_str(), "hkbClipGenerator", clip_generator_text(c[7].as_str(), clip_name_text(phase).as_str(), animation_path(namespace, anim.anim_file.as_str()).as_str(), triggers, clip_mode(f)), p);
    let x8 = patch2(c[8].as_str(), "hkbClipTriggerArray", ptr_object_text(c[8].as_str(), "triggers", fu_triggers_text(anim, phase, next_event)), p);
    assert(pair_view(x7) == spec[k]);
    assert(pair_view(x8) == spec[k + 1]);
    r.push(x7);
    r.push(x8);
    assert(pairs_view(r@) =~= spec);
    r
}

/// The patches of one animation of a furniture group of the mod `namespace` with priority
/// `priority`, for `mt_behavior`: `(single-value patches, array patches)`.
///
/// `class_indexes` are its new class names: nine for its classes, then one per animation
/// object. `next_event` is the event of the group's next animation, if any, and
/// `end_state_id` the state id of the group's last animation.
#[verifier::rlimit(60)]
pub fn new_furniture_one_anim_patches(
    anim: &FurnitureAnim,
    phase: FurniturePhase,
    next_event: Option<&str>,
    end_state_id: i32,
    namespace: &str,
    priority: usize,
    class_indexes: &Vec<String>,
) -> (r: (Vec<PatchPair>, Vec<PatchPair>))
    requires
        class_indexes@.len() == 9 + anim.anim_objects@.len(),
    ensures
        pairs_view(r.0@) == spec_fu_anim_one(
            *anim,
            phase,
            match next_event {
                Some(n) => Some(n@),
                None => None,
            },
            end_state_id,
            namespace@,
            priority,
            texts(class_indexes@),
        ),
        pairs_view(r.1@) == spec_fu_anim_seq(*anim, priority, texts(class_indexes@)),
{
    let ghost ci = texts(class_indexes@);
    let events = vec![anim.anim_event.clone()];
    assert(texts(events@) =~= seq![anim.anim_event@]);
    let mut seq_patches = new_push_events_seq_patch(&events, "#0083", "#0085", priority);
    if anim.anim_vars.len() > 0 {
        let names = var_name_list(&anim.anim_vars);
        let mut values = new_push_values_seq_patch(&names, "#0083", "#0084", "#0085", priority);
        seq_patches.append(&mut values);
    }
    let ghost before = seq_patches@;
    let states = vec![json_string_text(class_indexes[0].as_str()), json_string_text(class_indexes[2].as_str())];
    proof {
        assert(ci[0] == class_indexes@[0]@);
        assert(ci[2] == class_indexes@[2]@);
    }
    assert(texts(states@) =~= seq![json_string(ci[0]), json_string(ci[2])]);
    let st = patch3("#5138", "hkbStateMachine", "states", json_array_text(&states), priority);
    seq_patches.push(st);
    assert(pairs_view(seq_patches@) =~= pairs_view(before).push(pair_view(st)));
    assert(pairs_view(seq_patches@) =~= spec_fu_anim_seq(*anim, priority, ci));

    let mut one_patches: Vec<PatchPair> = Vec::new();
    let n = anim.anim_objects.len();
    let total = class_indexes.len();
    let mut i: usize = 0;
    while i < n
        invariant
            n == anim.anim_objects@.len(),
            total == class_indexes@.len(),
            class_indexes@.len() == 9 + n,
            ci == texts(class_indexes@),
            i <= n,
            pairs_view(one_patches@) =~= spec_anim_object_patches(anim.anim_objects@, ci, 9, priority).take(i as int),
        decreases n - i,
    {
        let index = class_indexes[9 + i].as_str();
        let pp = patch2(index, "hkbStringEventPayload", string_payload_text(index, anim.anim_objects[i].as_str()), priority);
        let ghost prev = one_patches@;
        one_patches.push(pp);
        proof {
            assert(ci[9 + i] == class_indexes@[9 + i]@);
            assert(pairs_view(one_patches@) =~= pairs_view(prev).push(pair_view(pp)));
            assert(pairs_view(one_patches@) =~= spec_anim_object_patches(anim.anim_objects@, ci, 9, priority).take(i + 1));
        }
        i = i + 1;
    }
    let ghost objs = one_patches@;
    let mut classes = fu_anim_class_patches(anim, phase, next_event, end_state_id, namespace, priority, class_indexes);
    let ghost cv = classes@;
    one_patches.append(&mut classes);
    assert(one_patches@ =~= objs + cv);
    assert(spec_anim_object_patches(anim.anim_objects@, ci, 9, priority).take(n as int)
        =~= spec_anim_object_patches(anim.anim_objects@, ci, 9, priority));
    assert(pairs_view(one_patches@) =~= pairs_view(objs) + pairs_view(cv));
    (one_patches, seq_patches)
}

/// The first class name of animation `i` of a group: the animations take their class names
/// in turn, nine and one per animation object each.
pub open spec fn anim_offset(anims: Seq<FurnitureAnim>, i: int) -> nat
    decreases i,
{
    if i <= 0 {
        0
    } else {
        anim_offset(anims, i - 1) + 9 + anims[i - 1].anim_objects@.len()
    }
}

proof fn lemma_anim_offset_mono(anims: Seq<FurnitureAnim>, i: int, j: int)
    requires
        0 <= i <= j,
    ensures
        anim_offset(anims, i) <= anim_offset(anims, j),
    decreases j - i,
{
    if i < j {
        lemma_anim_offset_mono(anims, i, j - 1);
    }
}

/// The number of class names a furniture group takes: those of its animations, six for its
/// root, and one per animation object of its first animation.
pub open spec fn furniture_class_count(g: FurnitureGroup) -> nat {
    anim_offset(g.animations@, g.animations@.len() as int) + 6 + g.animations@[0].anim_objects@.len()
}

/// The phase of animation `i` of `total`.
pub open spec fn group_phase(total: int, i: int) -> FurniturePhase {
    if i == 0 {
        FurniturePhase::Start
    } else if i == total - 1 {
        FurniturePhase::End((total - 1) as usize)
    } else {
        FurniturePhase::Middle(i as usize)
    }
}

/// The event of the animation after animation `i`, if any.
pub open spec fn group_next(anims: Seq<FurnitureAnim>, i: int) -> Option<Seq<char>> {
    if i + 1 < anims.len() {
        Some(anims[i + 1].anim_event@)
    } else {
        None
    }
}

/// The state id of the group's last animation.
pub open spec fn group_end_id(anims: Seq<FurnitureAnim>, ci: Seq<Seq<char>>) -> i32 {
    spec_state_id(ci[anim_offset(anims, anims.len() - 1) as int]) as i32
}

/// The class names of animation `i`.
pub open spec fn anim_names(anims: Seq<FurnitureAnim>, ci: Seq<Seq<char>>, i: int) -> Seq<Seq<char>> {
    ci.subrange(anim_offset(anims, i) as int, anim_offset(anims, i + 1) as int)
}

/// The single-value patches of the group's first `k` animations, in turn.
pub open spec fn group_anims_one(anims: Seq<FurnitureAnim>, namespace: Seq<char>, p: usize, ci: Seq<Seq<char>>, k: int) -> Seq<
    (Seq<Seq<char>>, (Seq<char>, usize)),
>
    decreases k,
{
    if k <= 0 {
        Seq::empty()
    } else {
        group_anims_one(anims, namespace, p, ci, k - 1) + spec_fu_anim_one(
            anims[k - 1],
            group_phase(anims.len() as int, k - 1),
            group_next(anims, k - 1),
            group_end_id(anims, ci),
            namespace,
            p,
            anim_names(anims, ci, k - 1),
        )
    }
}

/// The array patches of the group's first `k` animations, in turn.
pub open spec fn group_anims_seq(anims: Seq<FurnitureAnim>, p: usize, ci: Seq<Seq<char>>, k: int) -> Seq<
    (Seq<Seq<char>>, (Seq<char>, usize)),
>
    decreases k,
{
    if k <= 0 {
        Seq::empty()
    } else {
        group_anims_seq(anims, p, ci, k - 1) + spec_fu_anim_seq(anims[k - 1], p, anim_names(anims, ci, k - 1))
    }
}

/// The group's root state machine `FNIS_Furniture<id>_Behavior`, starting at state 1.
pub open spec fn spec_fu_machine(ptr: Seq<char>, name: Seq<char>) -> Seq<char> {
    json_object(
        seq![
            ("__ptr"@, json_string(ptr)),
            ("variableBindingSet"@, json_string("#0000"@)),
            ("userData"@, "0"@),
            ("name"@, json_string(name)),
            ("eventToSendWhenStateOrTransitionChanges"@, spec_no_event()),
            ("startStateChooser"@, json_string("#0000"@)),
            ("startStateId"@, "1"@),
            ("returnToPreviousStateEventId"@, "-1"@),
            ("randomTransitionEventId"@, "-1"@),
            ("transitionToNextHigherStateEventId"@, "-1"@),
            ("transitionToNextLowerStateEventId"@, "-1"@),
            ("syncVariableIndex"@, "-1"@),
            ("wrapAroundStateId"@, "false"@),
            ("maxSimultaneousTransitions"@, "32"@),
            ("startStateMode"@, json_string("START_STATE_MODE_DEFAULT"@)),
            ("selfTransitionMode"@, json_string("SELF_TRANSITION_MODE_NO_TRANSITION"@)),
            ("states"@, json_array(Seq::empty())),
            ("wildcardTransitions"@, json_string("#0000"@)),
        ],
    )
}

fn fu_machine_text(ptr: &str, name: &str) -> (r: String)
    ensures
        r@ == spec_fu_machine(ptr@, name@),
{
    let empty: Vec<String> = Vec::new();
    assert(texts(empty@) =~= Seq::<Seq<char>>::empty());
    let fields = vec![
        ("__ptr", json_string_text(ptr)),
        ("variableBindingSet", json_string_text("#0000")),
        ("userData", String::from_str("0")),
        ("name", json_string_text(name)),
        ("eventToSendWhenStateOrTransitionChanges", no_event_text()),
        ("startStateChooser", json_string_text("#0000")),
        ("startStateId", String::from_str("1")),
        ("returnToPreviousStateEventId", String::from_str("-1")),
        ("randomTransitionEventId", String::from_str("-1")),
        ("transitionToNextHigherStateEventId", String::from_str("-1")),
        ("transitionToNextLowerStateEventId", String::from_str("-1")),
        ("syncVariableIndex", String::from_str("-1")),
        ("wrapAroundStateId", String::from_str("false")),
        ("maxSimultaneousTransitions", String::from_str("32")),
        ("startStateMode", json_string_text("START_STATE_MODE_DEFAULT")),
        ("selfTransitionMode", json_string_text("SELF_TRANSITION_MODE_NO_TRANSITION")),
        ("states", json_array_text(&empty)),
        ("wildcardTransitions", json_string_text("#0000")),
    ];
    assert(member_texts(fields@) =~= seq![
        ("__ptr"@, json_string(ptr@)),
        ("variableBindingSet"@, json_string("#0000"@)),
        ("userData"@, "0"@),
        ("name"@, json_string(name@)),
        ("eventToSendWhenStateOrTransitionChanges"@, spec_no_event()),
        ("startStateChooser"@, json_string("#0000"@)),
        ("startStateId"@, "1"@),
        ("returnToPreviousStateEventId"@, "-1"@),
        ("randomTransitionEventId"@, "-1"@),
        ("transitionToNextHigherStateEventId"@, "-1"@),
        ("transitionToNextLowerStateEventId"@, "-1"@),
        ("syncVariableIndex"@, "-1"@),
        ("wrapAroundStateId"@, "false"@),
        ("maxSimultaneousTransitions"@, "32"@),
        ("startStateMode"@, json_string("START_STATE_MODE_DEFAULT"@)),
        ("selfTransitionMode"@, json_string("SELF_TRANSITION_MODE_NO_TRANSITION"@)),
        ("states"@, json_array(Seq::empty())),
        ("wildcardTransitions"@, json_string("#0000"@)),
    ]);
    json_object_text(&fields)
}

/// The number of variables a group root binds: at most five.
pub open spec fn bound_vars(n: nat) -> nat {
    if n < 5 {
        n
    } else {
        5
    }
}

/// The classes of a group's root (class names `rb` to `rb + 5`, `rb` being the first after
/// the animations'): its state `FNIS_Furniture<id>_State`, the variable modifiers when the
/// first animation has variables, its state machine and its wildcard transition on the
/// first animation's event.
pub open spec fn spec_fu_root_classes(g: FurnitureGroup, p: usize, ci: Seq<Seq<char>>) -> Seq<(Seq<Seq<char>>, (Seq<char>, usize))> {
    let anims = g.animations@;
    let first = anims[0];
    let rb = anim_offset(anims, anims.len() as int) as int;
    let id = spec_state_id(ci[rb]);
    let state_name = numbered("FNIS_Furniture"@, id) + "_State"@;
    let no_vars = first.anim_vars@.len() == 0;
    let enter = if first.flags.animated_camera_set { "FNIS_aa_global_auto_gen5220"@ } else { "#0000"@ };
    let exit = if first.flags.animated_camera_reset { "FNIS_aa_global_auto_gen5221"@ } else { "#0000"@ };
    let generator = if no_vars { ci[rb + 4] } else { ci[rb + 1] };
    seq![
        patch_of(seq![ci[rb], "hkbStateMachineStateInfo"@], spec_state_info(ci[rb], enter, exit, "#0000"@, generator, state_name, decimal(id)), p),
    ] + (if no_vars {
        Seq::empty()
    } else {
        seq![
            patch_of(seq![ci[rb + 1], "hkbModifierGenerator"@], spec_modifier_generator(ci[rb + 1], "IdleMesmerizes_MG"@, ci[rb + 2], ci[rb + 4]), p),
            patch_of(seq![ci[rb + 2], "BSIsActiveModifier"@], spec_mesmerize(ci[rb + 2], ci[rb + 3], first.anim_vars@), p),
            patch_of(seq![ci[rb + 3], "hkbVariableBindingSet"@], spec_binding_set(ci[rb + 3], json_array(spec_var_bindings(first.anim_vars@, bound_vars(first.anim_vars@.len())))), p),
        ]
    }) + seq![
        patch_of(seq![ci[rb + 4], "hkbStateMachine"@], spec_fu_machine(ci[rb + 4], numbered("FNIS_Furniture"@, id) + "_Behavior"@), p),
        patch_of(seq![ci[rb + 5], "hkbStateMachineTransitionInfoArray"@], spec_ptr_object(ci[rb + 5], "transitions"@, json_array(seq![spec_fu_transition(blend_transition(), json_string(event_id_variable(first.anim_event@)), state_id_text(state_name), "FLAG_IS_LOCAL_WILDCARD|FLAG_IS_GLOBAL_WILDCARD|FLAG_DISABLE_CONDITION"@)])), p),
    ]
}

/// The group root's class names and the first class name of the copies of the first
/// animation's objects.
pub open spec fn group_root(g: FurnitureGroup) -> int {
    anim_offset(g.animations@, g.animations@.len() as int) as int
}

/// The single-value patches of a furniture group: those of its animations in turn, the
/// first animation's objects again (class names from the root's sixth on), and its root's
/// classes.
pub open spec fn spec_furniture_group_one(g: FurnitureGroup, namespace: Seq<char>, p: usize, ci: Seq<Seq<char>>) -> Seq<
    (Seq<Seq<char>>, (Seq<char>, usize)),
> {
    group_anims_one(g.animations@, namespace, p, ci, g.animations@.len() as int) + spec_anim_object_patches(
        g.animations@[0].anim_objects@,
        ci,
        group_root(g) + 6,
        p,
    ) + spec_fu_root_classes(g, p, ci)
}

/// The array patches of a furniture group: those of its animations in turn, the first
/// animation's event registered again, the wildcard transition of `#0089` (through `#5216`)
/// on that event to the root state, and the root state pushed to the furniture state
/// machine `#5195`.
pub open spec fn spec_furniture_group_seq(g: FurnitureGroup, p: usize, ci: Seq<Seq<char>>) -> Seq<
    (Seq<Seq<char>>, (Seq<char>, usize)),
> {
    let first = g.animations@[0];
    let root = ci[group_root(g)];
    group_anims_seq(g.animations@, p, ci, g.animations@.len() as int) + spec_push_events(seq![first.anim_event@], "#0083"@, "#0085"@, p) + seq![
        patch_of(
            seq!["#0089"@, "hkbStateMachineTransitionInfoArray"@, "transitions"@],
            json_array(seq![spec_fu_transition("#5216"@, json_string(event_id_variable(first.anim_event@)), state_id_text(root), "FLAG_IS_LOCAL_WILDCARD|FLAG_IS_GLOBAL_WILDCARD|FLAG_DISABLE_CONDITION"@)]),
            p,
        ),
        patch_of(seq!["#5195"@, "hkbStateMachine"@, "states"@], json_array(seq![json_string(root)]), p),
    ]
}

/// The group's root state, which the furniture root's state machine holds.
pub open spec fn spec_furniture_group_root(g: FurnitureGroup, ci: Seq<Seq<char>>) -> Seq<char> {
    ci[group_root(g)]
}

fn names_slice(v: &Vec<String>, start: usize, end: usize) -> (r: Vec<String>)
    requires
        start <= end <= v@.len(),
    ensures
        texts(r@) == texts(v@).subrange(start as int, end as int),
{
    let mut r: Vec<String> = Vec::new();
    let mut i: usize = start;
    while i < end
        invariant
            start <= i <= end,
            end <= v@.len(),
            texts(r@) =~= texts(v@).subrange(start as int, i as int),
        decreases end - i,
    {
        let ghost before = r@;
        r.push(v[i].clone());
        assert(texts(r@) =~= texts(before).push(v@[i as int]@));
        i = i + 1;
    }
    r
}

fn offset_of(anims: &Vec<FurnitureAnim>, i: usize) -> (r: usize)
    requires
        i <= anims@.len(),
        anim_offset(anims@, anims@.len() as int) <= usize::MAX,
    ensures
        r == anim_offset(anims@, i as int),
{
    let mut acc: usize = 0;
    let mut j: usize = 0;
    while j < i
        invariant
            j <= i <= anims@.len(),
            anim_offset(anims@, anims@.len() as int) <= usize::MAX,
            acc == anim_offset(anims@, j as int),
        decreases i - j,
    {
        proof {
            lemma_anim_offset_mono(anims@, j + 1, anims@.len() as int);
        }
        acc = acc + 9 + anims[j].anim_objects.len();
        j = j + 1;
    }
    acc
}

fn phase_of(total: usize, i: usize) -> (r: FurniturePhase)
    requires
        i < total,
    ensures
        r == group_phase(total as int, i as int),
{
    if i == 0 {
        FurniturePhase::Start
    } else if i == total - 1 {
        FurniturePhase::End(total - 1)
    } else {
        FurniturePhase::Middle(i)
    }
}

#[verifier::rlimit(100)]
fn fu_root_class_patches(g: &FurnitureGroup, p: usize, class_indexes: &Vec<String>) -> (r: Vec<PatchPair>)
    requires
        g.animations@.len() >= 1,
        class_indexes@.len() == furniture_class_count(*g),
    ensures
        pairs_view(r@) == spec_fu_root_classes(*g, p, texts(class_indexes@)),
{
    let ghost ci = texts(class_indexes@);
    let len = class_indexes.len();
    let first = &g.animations[0];
    let rb = offset_of(&g.animations, g.animations.len());
    let c = class_indexes;
    proof {
        assert(ci[rb as int] == c@[rb as int]@);
        assert(ci[rb + 1] == c@[rb + 1]@);
        assert(ci[rb + 2] == c@[rb + 2]@);
        assert(ci[rb + 3] == c@[rb + 3]@);
        assert(ci[rb + 4] == c@[rb + 4]@);
        assert(ci[rb + 5] == c@[rb + 5]@);
    }
    let id = calculate_hash(c[rb].as_str()) as u64;
    let mut state_name = numbered_text("FNIS_Furniture", id);
    state_name.append("_State");
    let mut behavior_name = numbered_text("FNIS_Furniture", id);
    behavior_name.append("_Behavior");
    let no_vars = first.anim_vars.len() == 0;
    let enter = if first.flags.animated_camera_set { "FNIS_aa_global_auto_gen5220" } else { "#0000" };
    let exit = if first.flags.animated_camera_reset { "FNIS_aa_global_auto_gen5221" } else { "#0000" };
    let generator = if no_vars { c[rb + 4].as_str() } else { c[rb + 1].as_str() };
    let ghost spec = spec_fu_root_classes(*g, p, ci);
    let x0 = patch2(c[rb].as_str(), "hkbStateMachineStateInfo", state_info_text(c[rb].as_str(), enter, exit, "#0000", generator, state_name.as_str(), u64_to_decimal(id)), p);
    assert(pair_view(x0) == spec[0]);
    let mut r = vec![x0];
    if !no_vars {
        let n = if first.anim_vars.len() < 5 { first.anim_vars.len() } else { 5 };
        let x1 = patch2(c[rb + 1].as_str(), "hkbModifierGenerator", modifier_generator_text(c[rb + 1].as_str(), "IdleMesmerizes_MG", c[rb + 2].as_str(), c[rb + 4].as_str()), p);
        let x2 = patch2(c[rb + 2].as_str(), "BSIsActiveModifier", mesmerize_text(c[rb + 2].as_str(), c[rb + 3].as_str(), &first.anim_vars), p);
        let x3 = patch2(c[rb + 3].as_str(), "hkbVariableBindingSet", var_bindings_text(c[rb + 3].as_str(), &first.anim_vars, n), p);
        assert(pair_view(x1) == spec[1]);
        assert(pair_view(x2) == spec[2]);
        assert(pair_view(x3) == spec[3]);
        r.push(x1);
        r.push(x2);
        r.push(x3);
    }
    let ghost k = r@.len() as int;
    let x4 = patch2(c[rb + 4].as_str(), "hkbStateMachine", fu_machine_text(c[rb + 4].as_str(), behavior_name.as_str()), p);
    let tr = vec![fu_transition_text("#FNIS_ba_global_auto_gen5231", event_variable_json(first.anim_event.as_str()), state_id_of(state_name.as_str()), "FLAG_IS_LOCAL_WILDCARD|FLAG_IS_GLOBAL_WILDCARD|FLAG_DISABLE_CONDITION")];
    assert(texts(tr@) =~= seq![spec_fu_transition(blend_transition(), json_string(event_id_variable(first.anim_event@)), state_id_text(state_name@), "FLAG_IS_LOCAL_WILDCARD|FLAG_IS_GLOBAL_WILDCARD|FLAG_DISABLE_CONDITION"@)]);
    let x5 = patch2(c[rb + 5].as_str(), "hkbStateMachineTransitionInfoArray", ptr_object_text(c[rb + 5].as_str(), "transitions", json_array_text(&tr)), p);
    assert(pair_view(x4) == spec[k]);
    assert(pair_view(x5) == spec[k + 1]);
    r.push(x4);
    r.push(x5);
    assert(pairs_view(r@) =~= spec);
    r
}

/// The patches of a furniture group of the mod `namespace` with priority `priority`, for
/// `mt_behavior`: `(single-value patches, array patches, root state)`; the root state is
/// for the furniture root's state machine.
///
/// `class_indexes` are the new class names ([`furniture_class_count`]): those of each
/// animation in turn (nine, then one per animation object), six for the group's root, then
/// one per animation object of the first animation.
#[verifier::rlimit(100)]
pub fn new_furniture_one_group_patches(
    furniture: &FurnitureGroup,
    namespace: &str,
    priority: usize,
    class_indexes: &Vec<String>,
) -> (r: (Vec<PatchPair>, Vec<PatchPair>, String))
    requires
        furniture.animations@.len() >= 1,
        class_indexes@.len() == furniture_class_count(*furniture),
    ensures
        pairs_view(r.0@) == spec_furniture_group_one(*furniture, namespace@, priority, texts(class_indexes@)),
        pairs_view(r.1@) == spec_furniture_group_seq(*furniture, priority, texts(class_indexes@)),
        r.2@ == spec_furniture_group_root(*furniture, texts(class_indexes@)),
{
    let ghost ci = texts(class_indexes@);
    let anims = &furniture.animations;
    let ghost av = anims@;
    let total = anims.len();
    let len = class_indexes.len();
    proof {
        lemma_anim_offset_mono(av, total - 1, total as int);
    }
    let last_off = offset_of(anims, total - 1);
    let end_id = calculate_hash(class_indexes[last_off].as_str());
    proof {
        assert(ci[last_off as int] == class_indexes@[last_off as int]@);
        assert(end_id == group_end_id(av, ci));
    }
    let mut one_patches: Vec<PatchPair> = Vec::new();
    let mut seq_patches: Vec<PatchPair> = Vec::new();
    let mut off: usize = 0;
    let mut i: usize = 0;
    while i < total
        invariant
            total == av.len(),
            av == anims@,
            av == furniture.animations@,
            total >= 1,
            len == class_indexes@.len(),
            ci == texts(class_indexes@),
            class_indexes@.len() == furniture_class_count(*furniture),
            i <= total,
            off == anim_offset(av, i as int),
            end_id == group_end_id(av, ci),
            pairs_view(one_patches@) == group_anims_one(av, namespace@, priority, ci, i as int),
            pairs_view(seq_patches@) == group_anims_seq(av, priority, ci, i as int),
        decreases total - i,
    {
        proof {
            lemma_anim_offset_mono(av, i + 1, total as int);
            assert(anim_offset(av, i + 1) == off + 9 + av[i as int].anim_objects@.len());
            assert(anim_offset(av, total as int) <= len);
        }
        let anim = &anims[i];
        let next_off = off + 9 + anim.anim_objects.len();
        let names = names_slice(class_indexes, off, next_off);
        assert(names@.len() == texts(names@).len());
        let phase = phase_of(total, i);
        let next = if i + 1 < total { Some(anims[i + 1].anim_event.as_str()) } else { None };
        let (mut one, mut sq) = new_furniture_one_anim_patches(anim, phase, next, end_id, namespace, priority, &names);
        proof {
            assert(texts(names@) == anim_names(av, ci, i as int));
            assert(match next {
                Some(n) => Some(n@),
                None => None::<Seq<char>>,
            } == group_next(av, i as int));
        }
        let ghost (o0, s0, o1, s1) = (one_patches@, seq_patches@, one@, sq@);
        one_patches.append(&mut one);
        seq_patches.append(&mut sq);
        proof {
            assert(one_patches@ =~= o0 + o1);
            assert(seq_patches@ =~= s0 + s1);
            assert(pairs_view(one_patches@) =~= pairs_view(o0) + pairs_view(o1));
            assert(pairs_view(seq_patches@) =~= pairs_view(s0) + pairs_view(s1));
        }
        off = next_off;
        i = i + 1;
    }
    let rb = off;
    let first = &anims[0];
    let n = first.anim_objects.len();
    let ghost anims_one = one_patches@;
    let mut objects: Vec<PatchPair> = Vec::new();
    let mut k: usize = 0;
    while k < n
        invariant
            n == first.anim_objects@.len(),
            furniture.animations@.len() >= 1,
            first.anim_objects@ == furniture.animations@[0].anim_objects@,
            len == class_indexes@.len(),
            rb == anim_offset(av, total as int),
            rb == group_root(*furniture),
            total == av.len(),
            av == furniture.animations@,
            class_indexes@.len() == rb + 6 + n,
            ci == texts(class_indexes@),
            k <= n,
            pairs_view(objects@) =~= spec_anim_object_patches(first.anim_objects@, ci, rb + 6, priority).take(k as int),
        decreases n - k,
    {
        let index = class_indexes[rb + 6 + k].as_str();
        let pp = patch2(index, "hkbStringEventPayload", string_payload_text(index, first.anim_objects[k].as_str()), priority);
        let ghost prev = objects@;
        objects.push(pp);
        proof {
            assert(ci[rb + 6 + k] == class_indexes@[rb + 6 + k]@);
            assert(pairs_view(objects@) =~= pairs_view(prev).push(pair_view(pp)));
            assert(pairs_view(objects@) =~= spec_anim_object_patches(first.anim_objects@, ci, rb + 6, priority).take(k + 1));
        }
        k = k + 1;
    }
    assert(spec_anim_object_patches(first.anim_objects@, ci, rb + 6, priority).take(n as int)
        =~= spec_anim_object_patches(first.anim_objects@, ci, rb + 6, priority));
    let ghost ov = objects@;
    one_patches.append(&mut objects);
    let mut root_classes = fu_root_class_patches(furniture, priority, class_indexes);
    let ghost rv = root_classes@;
    let ghost with_objects = one_patches@;
    one_patches.append(&mut root_classes);
    proof {
        assert(with_objects =~= anims_one + ov);
        assert(one_patches@ =~= anims_one + ov + rv);
        assert(pairs_view(one_patches@) =~= pairs_view(anims_one) + pairs_view(ov) + pairs_view(rv));
    }

    let ghost anims_seq = seq_patches@;
    let events = vec![first.anim_event.clone()];
    assert(texts(events@) =~= seq![first.anim_event@]);
    let mut pushed = new_push_events_seq_patch(&events, "#0083", "#0085", priority);
    let ghost ev = pushed@;
    seq_patches.append(&mut pushed);
    let root = class_indexes[rb].clone();
    proof {
        assert(ci[rb as int] == class_indexes@[rb as int]@);
    }
    let tr = vec![fu_transition_text("#5216", event_variable_json(first.anim_event.as_str()), state_id_of(root.as_str()), "FLAG_IS_LOCAL_WILDCARD|FLAG_IS_GLOBAL_WILDCARD|FLAG_DISABLE_CONDITION")];
    assert(texts(tr@) =~= seq![spec_fu_transition("#5216"@, json_string(event_id_variable(first.anim_event@)), state_id_text(root@), "FLAG_IS_LOCAL_WILDCARD|FLAG_IS_GLOBAL_WILDCARD|FLAG_DISABLE_CONDITION"@)]);
    let t = patch3("#0089", "hkbStateMachineTransitionInfoArray", "transitions", json_array_text(&tr), priority);
    let states = vec![json_string_text(root.as_str())];
    assert(texts(states@) =~= seq![json_string(root@)]);
    let st = patch3("#5195", "hkbStateMachine", "states", json_array_text(&states), priority);
    seq_patches.push(t);
    seq_patches.push(st);
    proof {
        assert(seq_patches@ =~= anims_seq + ev + seq![t, st]);
        assert(pairs_view(seq_patches@) =~= pairs_view(anims_seq) + pairs_view(ev) + seq![pair_view(t), pair_view(st)]);
    }
    (one_patches, seq_patches, root)
}

/// The contents of a single-value patch map after offering each of `entries` in turn.
pub open spec fn keep_all(
    m: Map<Seq<Seq<char>>, (Seq<char>, usize)>,
    entries: Seq<(Seq<Seq<char>>, (Seq<char>, usize))>,
) -> Map<Seq<Seq<char>>, (Seq<char>, usize)>
    decreases entries.len(),
{
    if entries.len() == 0 {
        m
    } else {
        spec_keep_higher(keep_all(m, entries.drop_last()), entries.last().0, entries.last().1)
    }
}

/// The contents of an array patch map after pushing each of `entries` in turn.
pub open spec fn push_all(
    m: Map<Seq<Seq<char>>, Seq<(Seq<char>, usize)>>,
    entries: Seq<(Seq<Seq<char>>, (Seq<char>, usize))>,
) -> Map<Seq<Seq<char>>, Seq<(Seq<char>, usize)>>
    decreases entries.len(),
{
    if entries.len() == 0 {
        m
    } else {
        spec_push(push_all(m, entries.drop_last()), entries.last().0, entries.last().1)
    }
}

/// A furniture animation of the behavior builder: its flags, event, animation file (without
/// `.hkx`) and animation objects.
#[derive(Debug, Clone, PartialEq, Eq)]
pub struct FurnitureAnimation {
    pub flags: FnisAnimFlags,
    pub event_id: String,
    pub animation_file_path: String,
    pub anim_object_names: Vec<String>,
}

/// The class name `#FNIS_<mod_code>$<k>` of the behavior builder.
pub open spec fn unique_index(mod_code: Seq<char>, k: nat) -> Seq<char> {
    "#FNIS_"@ + mod_code + "$"@ + decimal(k)
}

/// The state id of the behavior builder's states: the hash of the animation file.
pub open spec fn builder_state_id(path: Seq<char>) -> Seq<char> {
    int_decimal(spec_default_hash(path) as i32 as int)
}

/// The behavior builder's state machine: its name is `EAS_ChairEU_SmallTableSelector` (its
/// template writes a `name` twice; the second replaces the first in place) and it holds the
/// enter state.
pub open spec fn spec_builder_machine(ptr: Seq<char>, state: Seq<char>) -> Seq<char> {
    json_object(
        seq![
            ("__ptr"@, json_string(ptr)),
            ("name"@, json_string("EAS_ChairEU_SmallTableSelector"@)),
            ("variableBindingSet"@, json_string("#0000"@)),
            ("userData"@, "0"@),
            ("eventToSendWhenStateOrTransitionChanges"@, spec_no_event()),
            ("startStateChooser"@, json_string("#0000"@)),
            ("startStateId"@, "0"@),
            ("returnToPreviousStateEventId"@, "-1"@),
            ("randomTransitionEventId"@, "-1"@),
            ("transitionToNextHigherStateEventId"@, "-1"@),
            ("transitionToNextLowerStateEventId"@, "-1"@),
            ("syncVariableIndex"@, "-1"@),
            ("wrapAroundStateId"@, "false"@),
            ("maxSimultaneousTransitions"@, "32"@),
            ("startStateMode"@, json_string("START_STATE_MODE_DEFAULT"@)),
            ("selfTransitionMode"@, json_string("SELF_TRANSITION_MODE_NO_TRANSITION"@)),
            ("states"@, json_array(seq![json_string(state)])),
            ("wildcardTransitions"@, json_string("#0000"@)),
        ],
    )
}

fn builder_machine_text(ptr: &str, state: &str) -> (r: String)
    ensures
        r@ == spec_builder_machine(ptr@, state@),
{
    let states = vec![json_string_text(state)];
    assert(texts(states@) =~= seq![json_string(state@)]);
    let fields = vec![
        ("__ptr", json_string_text(ptr)),
        ("name", json_string_text("EAS_ChairEU_SmallTableSelector")),
        ("variableBindingSet", json_string_text("#0000")),
        ("userData", String::from_str("0")),
        ("eventToSendWhenStateOrTransitionChanges", no_event_text()),
        ("startStateChooser", json_string_text("#0000")),
        ("startStateId", String::from_str("0")),
        ("returnToPreviousStateEventId", String::from_str("-1")),
        ("randomTransitionEventId", String::from_str("-1")),
        ("transitionToNextHigherStateEventId", String::from_str("-1")),
        ("transitionToNextLowerStateEventId", String::from_str("-1")),
        ("syncVariableIndex", String::from_str("-1")),
        ("wrapAroundStateId", String::from_str("false")),
        ("maxSimultaneousTransitions", String::from_str("32")),
        ("startStateMode", json_string_text("START_STATE_MODE_DEFAULT")),
        ("selfTransitionMode", json_string_text("SELF_TRANSITION_MODE_NO_TRANSITION")),
        ("states", json_array_text(&states)),
        ("wildcardTransitions", json_string_text("#0000")),
    ];
    assert(member_texts(fields@) =~= seq![
        ("__ptr"@, json_string(ptr@)),
        ("name"@, json_string("EAS_ChairEU_SmallTableSelector"@)),
        ("variableBindingSet"@, json_string("#0000"@)),
        ("userData"@, "0"@),
        ("eventToSendWhenStateOrTransitionChanges"@, spec_no_event()),
        ("startStateChooser"@, json_string("#0000"@)),
        ("startStateId"@, "0"@),
        ("returnToPreviousStateEventId"@, "-1"@),
        ("randomTransitionEventId"@, "-1"@),
        ("transitionToNextHigherStateEventId"@, "-1"@),
        ("transitionToNextLowerStateEventId"@, "-1"@),
        ("syncVariableIndex"@, "-1"@),
        ("wrapAroundStateId"@, "false"@),
        ("maxSimultaneousTransitions"@, "32"@),
        ("startStateMode"@, json_string("START_STATE_MODE_DEFAULT"@)),
        ("selfTransitionMode"@, json_string("SELF_TRANSITION_MODE_NO_TRANSITION"@)),
        ("states"@, json_array(seq![json_string(state@)])),
        ("wildcardTransitions"@, json_string("#0000"@)),
    ]);
    json_object_text(&fields)
}

/// The behavior builder's group state: bound to `binding`, it leaves through `transitions`
/// and plays the state machine `generator`.
pub open spec fn spec_builder_group_state(ptr: Seq<char>, binding: Seq<char>, transitions: Seq<char>, generator: Seq<char>, name: Seq<char>, state_id: Seq<char>) -> Seq<char> {
    json_object(
        seq![
            ("__ptr"@, json_string(ptr)),
            ("variableBindingSet"@, json_string(binding)),
            ("listeners"@, json_array(Seq::empty())),
            ("enterNotifyEvents"@, json_string("#0000"@)),
            ("exitNotifyEvents"@, json_string("#0000"@)),
            ("transitions"@, json_string(transitions)),
            ("generator"@, json_string(generator)),
            ("name"@, json_string(name)),
            ("stateId"@, state_id),
            ("probability"@, "1.0"@),
            ("enable"@, "true"@),
        ],
    )
}

fn builder_group_state_text(ptr: &str, binding: &str, transitions: &str, generator: &str, name: &str, state_id: String) -> (r: String)
    ensures
        r@ == spec_builder_group_state(ptr@, binding@, transitions@, generator@, name@, state_id@),
{
    let ghost sid = state_id@;
    let empty: Vec<String> = Vec::new();
    assert(texts(empty@) =~= Seq::<Seq<char>>::empty());
    let fields = vec![
        ("__ptr", json_string_text(ptr)),
        ("variableBindingSet", json_string_text(binding)),
        ("listeners", json_array_text(&empty)),
        ("enterNotifyEvents", json_string_text("#0000")),
        ("exitNotifyEvents", json_string_text("#0000")),
        ("transitions", json_string_text(transitions)),
        ("generator", json_string_text(generator)),
        ("name", json_string_text(name)),
        ("stateId", state_id),
        ("probability", String::from_str("1.0")),
        ("enable", String::from_str("true")),
    ];
    assert(member_texts(fields@) =~= seq![
        ("__ptr"@, json_string(ptr@)),
        ("variableBindingSet"@, json_string(binding@)),
        ("listeners"@, json_array(Seq::empty())),
        ("enterNotifyEvents"@, json_string("#0000"@)),
        ("exitNotifyEvents"@, json_string("#0000"@)),
        ("transitions"@, json_string(transitions@)),
        ("generator"@, json_string(generator@)),
        ("name"@, json_string(name@)),
        ("stateId"@, sid),
        ("probability"@, "1.0"@),
        ("enable"@, "true"@),
    ]);
    json_object_text(&fields)
}

/// The behavior builder's blend effect `EASChair_BlendingTransitionEffect`.
pub open spec fn spec_builder_blend(ptr: Seq<char>) -> Seq<char> {
    json_object(
        seq![
            ("__ptr"@, json_string(ptr)),
            ("variableBindingSet"@, json_string("#0000"@)),
            ("userData"@, "0"@),
            ("name"@, json_string("EASChair_BlendingTransitionEffect"@)),
            ("selfTransitionMode"@, json_string("SELF_TRANSITION_MODE_CONTINUE_IF_CYCLIC_BLEND_IF_ACYCLIC"@)),
            ("eventMode"@, json_string("EVENT_MODE_DEFAULT"@)),
            ("duration"@, "0.5"@),
            ("toGeneratorStartTimeFraction"@, "0.0"@),
            ("flags"@, json_string("0"@)),
            ("endMode"@, json_string("END_MODE_NONE"@)),
            ("blendCurve"@, json_string("BLEND_CURVE_SMOOTH"@)),
        ],
    )
}

fn builder_blend_text(ptr: &str) -> (r: String)
    ensures
        r@ == spec_builder_blend(ptr@),
{
    let fields = vec![
        ("__ptr", json_string_text(ptr)),
        ("variableBindingSet", json_string_text("#0000")),
        ("userData", String::from_str("0")),
        ("name", json_string_text("EASChair_BlendingTransitionEffect")),
        ("selfTransitionMode", json_string_text("SELF_TRANSITION_MODE_CONTINUE_IF_CYCLIC_BLEND_IF_ACYCLIC")),
        ("eventMode", json_string_text("EVENT_MODE_DEFAULT")),
        ("duration", String::from_str("0.5")),
        ("toGeneratorStartTimeFraction", String::from_str("0.0")),
        ("flags", json_string_text("0")),
        ("endMode", json_string_text("END_MODE_NONE")),
        ("blendCurve", json_string_text("BLEND_CURVE_SMOOTH")),
    ];
    assert(member_texts(fields@) =~= seq![
        ("__ptr"@, json_string(ptr@)),
        ("variableBindingSet"@, json_string("#0000"@)),
        ("userData"@, "0"@),
        ("name"@, json_string("EASChair_BlendingTransitionEffect"@)),
        ("selfTransitionMode"@, json_string("SELF_TRANSITION_MODE_CONTINUE_IF_CYCLIC_BLEND_IF_ACYCLIC"@)),
        ("eventMode"@, json_string("EVENT_MODE_DEFAULT"@)),
        ("duration"@, "0.5"@),
        ("toGeneratorStartTimeFraction"@, "0.0"@),
        ("flags"@, json_string("0"@)),
        ("endMode"@, json_string("END_MODE_NONE"@)),
        ("blendCurve"@, json_string("BLEND_CURVE_SMOOTH"@)),
    ]);
    json_object_text(&fields)
}

/// The root transition of the behavior builder: on the (empty) event name, through the
/// blend effect `effect`, to the furniture state 4 and nested state `state_id`.
pub open spec fn spec_builder_root_transition(effect: Seq<char>, state_id: Seq<char>) -> Seq<char> {
    json_object(
        seq![
            ("triggerInterval"@, spec_interval()),
            ("initiateInterval"@, spec_interval()),
            ("transition"@, json_string(effect)),
            ("condition"@, json_string("#0000"@)),
            ("eventId"@, json_string(event_id_variable(Seq::empty()))),
            ("toStateId"@, "4"@),
            ("fromNestedStateId"@, "0"@),
            ("toNestedStateId"@, state_id),
            ("priority"@, "0"@),
            ("flags"@, json_string("FLAG_TO_NESTED_STATE_ID_IS_VALID|FLAG_IS_LOCAL_WILDCARD"@)),
        ],
    )
}

fn builder_root_transition_text(effect: &str, state_id: String) -> (r: String)
    ensures
        r@ == spec_builder_root_transition(effect@, state_id@),
{
    let ghost sid = state_id@;
    let fields = vec![
        ("triggerInterval", interval_text()),
        ("initiateInterval", interval_text()),
        ("transition", json_string_text(effect)),
        ("condition", json_string_text("#0000")),
        ("eventId", event_variable_json("")),
        ("toStateId", String::from_str("4")),
        ("fromNestedStateId", String::from_str("0")),
        ("toNestedStateId", state_id),
        ("priority", String::from_str("0")),
        ("flags", json_string_text("FLAG_TO_NESTED_STATE_ID_IS_VALID|FLAG_IS_LOCAL_WILDCARD")),
    ];
    proof {
        reveal_strlit("");
    }
    assert(member_texts(fields@) =~= seq![
        ("triggerInterval"@, spec_interval()),
        ("initiateInterval"@, spec_interval()),
        ("transition"@, json_string(effect@)),
        ("condition"@, json_string("#0000"@)),
        ("eventId"@, json_string(event_id_variable(Seq::empty()))),
        ("toStateId"@, "4"@),
        ("fromNestedStateId"@, "0"@),
        ("toNestedStateId"@, sid),
        ("priority"@, "0"@),
        ("flags"@, json_string("FLAG_TO_NESTED_STATE_ID_IS_VALID|FLAG_IS_LOCAL_WILDCARD"@)),
    ]);
    json_object_text(&fields)
}

/// The single-value patches of the behavior builder for the mod `mod_code`, in the order it
/// offers them.
pub open spec fn spec_builder_one(a: FurnitureAnimation, mod_code: Seq<char>, p: usize) -> Seq<(Seq<Seq<char>>, (Seq<char>, usize))> {
    let u = |k: nat| unique_index(mod_code, k);
    let sid = builder_state_id(a.animation_file_path@);
    seq![
        patch_of(seq![u(0), "hkbStateMachine"@], spec_builder_machine(u(0), u(6)), p),
        patch_of(seq![u(1), "hkbVariableBindingSet"@], spec_binding_set(u(1), json_array(seq![spec_binding("isActive"@, "1"@)])), p),
        patch_of(seq![u(7), "hkbStateMachineTransitionInfoArray"@], spec_ptr_object(u(7), "transitions"@, json_array(Seq::empty())), p),
        patch_of(seq![u(2), "hkbStateMachineStateInfo"@], spec_builder_group_state(u(2), u(1), u(7), u(0), mod_code + "__State"@, sid), p),
        patch_of(seq![u(3), "hkbClipGenerator"@], spec_clip_generator(u(3), "IdleBlessingKneelEnter"@, "Animations\\"@ + a.animation_file_path@ + ".hkx"@, "#0000"@, "MODE_LOOPING"@), p),
        patch_of(seq![u(6), "hkbStateMachineStateInfo"@], spec_state_info(u(6), u(4), u(5), u(7), u(3), "_StateInfo"@, sid), p),
        patch_of(seq![u(8), "hkbBlendingTransitionEffect"@], spec_builder_blend(u(8)), p),
        patch_of(seq!["#0089"@, "hkbStateMachineTransitionInfoArray"@, "transitions"@], json_array(seq![spec_builder_root_transition(u(8), sid)]), p),
        patch_of(seq!["#4002"@, "hkbStateMachine"@, "states"@], json_string(u(2)), p),
    ]
}

/// The array patches of the behavior builder: the enter events (head tracking off, `20`)
/// and the exit events (`IdleChairSitting`, `14`), the latter under the enter array's
/// pointer as its template writes it.
pub open spec fn spec_builder_seq(mod_code: Seq<char>, p: usize) -> Seq<(Seq<Seq<char>>, (Seq<char>, usize))> {
    let u = |k: nat| unique_index(mod_code, k);
    seq![
        patch_of(seq![u(4), "hkbStateMachineEventPropertyArray"@], spec_ptr_object(u(4), "events"@, json_array(seq![spec_event_property("20"@, "#0000"@)])), p),
        patch_of(seq![u(5), "hkbStateMachineEventPropertyArray"@], spec_ptr_object(u(4), "events"@, json_array(seq![spec_event_property("14"@, "#0000"@)])), p),
    ]
}

fn unique_index_text(mod_code: &str, k: u64) -> (r: String)
    ensures
        r@ == unique_index(mod_code@, k as nat),
{
    let mut r = String::from_str("#FNIS_");
    r.append(mod_code);
    r.append("$");
    r.append(u64_to_decimal(k).as_str());
    r
}

fn one_event_array(ptr: &str, id: &str) -> (r: String)
    ensures
        r@ == spec_ptr_object(ptr@, "events"@, json_array(seq![spec_event_property(id@, "#0000"@)])),
{
    let events = vec![event_property_text(id, "#0000")];
    assert(texts(events@) =~= seq![spec_event_property(id@, "#0000"@)]);
    ptr_object_text(ptr, "events", json_array_text(&events))
}

impl FurnitureAnimation {
    /// A furniture animation with the given flags, event, file and objects.
    pub fn new(flags: FnisAnimFlags, event_id: String, animation_file_path: String, anim_object_names: Vec<String>) -> (r: Self)
        ensures
            r.flags == flags,
            r.event_id == event_id,
            r.animation_file_path == animation_file_path,
            r.anim_object_names == anim_object_names,
    {
        FurnitureAnimation { flags, event_id, animation_file_path, anim_object_names }
    }

    /// Offers the behavior of this animation to the patch maps of
    /// `meshes/actors/character/behaviors/mt_behavior.xml`: the single-value patches of
    /// [`spec_builder_one`] to `one` and the array patches of [`spec_builder_seq`] to `seq`,
    /// in that order, with priority `priority`.
    #[verifier::rlimit(100)]
    pub fn build_behavior(&self, one: &mut OnePatchMap, seq: &mut SeqPatchMap, mod_code: &str, priority: usize)
        ensures
            final(one)@ == keep_all(old(one)@, spec_builder_one(*self, mod_code@, priority)),
            final(seq)@ == push_all(old(seq)@, spec_builder_seq(mod_code@, priority)),
    {
        let p = priority;
        let u0 = unique_index_text(mod_code, 0);
        let u1 = unique_index_text(mod_code, 1);
        let u2 = unique_index_text(mod_code, 2);
        let u3 = unique_index_text(mod_code, 3);
        let u4 = unique_index_text(mod_code, 4);
        let u5 = unique_index_text(mod_code, 5);
        let u6 = unique_index_text(mod_code, 6);
        let u7 = unique_index_text(mod_code, 7);
        let u8 = unique_index_text(mod_code, 8);
        let sid = i32_to_decimal(hash(self.animation_file_path.as_str()));
        let ghost spec = spec_builder_one(*self, mod_code@, p);
        let ghost sspec = spec_builder_seq(mod_code@, p);
        let ghost o0 = one@;
        let ghost s0 = seq@;

        let bindings = vec![binding_text("isActive", "1")];
        assert(texts(bindings@) =~= seq![spec_binding("isActive"@, "1"@)]);
        let empty: Vec<String> = Vec::new();
        assert(texts(empty@) =~= Seq::<Seq<char>>::empty());
        let mut group_name = String::from_str(mod_code);
        group_name.append("__State");
        let mut anim_path = String::from_str("Animations\\");
        anim_path.append(self.animation_file_path.as_str());
        anim_path.append(".hkx");
        let transitions = vec![builder_root_transition_text(u8.as_str(), sid.clone())];
        assert(texts(transitions@) =~= seq![spec_builder_root_transition(u8@, sid@)]);

        let x0 = patch2(u0.as_str(), "hkbStateMachine", builder_machine_text(u0.as_str(), u6.as_str()), p);
        let x1 = patch2(u1.as_str(), "hkbVariableBindingSet", binding_set_text(u1.as_str(), json_array_text(&bindings)), p);
        let x2 = patch2(u7.as_str(), "hkbStateMachineTransitionInfoArray", ptr_object_text(u7.as_str(), "transitions", json_array_text(&empty)), p);
        let x3 = patch2(u2.as_str(), "hkbStateMachineStateInfo", builder_group_state_text(u2.as_str(), u1.as_str(), u7.as_str(), u0.as_str(), group_name.as_str(), sid.clone()), p);
        let x4 = patch2(u3.as_str(), "hkbClipGenerator", clip_generator_text(u3.as_str(), "IdleBlessingKneelEnter", anim_path.as_str(), "#0000", "MODE_LOOPING"), p);
        let y0 = patch2(u4.as_str(), "hkbStateMachineEventPropertyArray", one_event_array(u4.as_str(), "20"), p);
        let y1 = patch2(u5.as_str(), "hkbStateMachineEventPropertyArray", one_event_array(u4.as_str(), "14"), p);
        let x5 = patch2(u6.as_str(), "hkbStateMachineStateInfo", state_info_text(u6.as_str(), u4.as_str(), u5.as_str(), u7.as_str(), u3.as_str(), "_StateInfo", sid.clone()), p);
        let x6 = patch2(u8.as_str(), "hkbBlendingTransitionEffect", builder_blend_text(u8.as_str()), p);
        let x7 = patch3("#0089", "hkbStateMachineTransitionInfoArray", "transitions", json_array_text(&transitions), p);
        let x8 = patch3("#4002", "hkbStateMachine", "states", json_string_text(u2.as_str()), p);
        assert(pair_view(x0) == spec[0]);
        assert(pair_view(x1) == spec[1]);
        assert(pair_view(x2) == spec[2]);
        assert(pair_view(x3) == spec[3]);
        assert(pair_view(x4) == spec[4]);
        assert(pair_view(x5) == spec[5]);
        assert(pair_view(x6) == spec[6]);
        assert(pair_view(x7) == spec[7]);
        assert(pair_view(x8) == spec[8]);
        assert(pair_view(y0) == sspec[0]);
        assert(pair_view(y1) == sspec[1]);

        proof {
            assert(spec.take(0) =~= Seq::<(Seq<Seq<char>>, (Seq<char>, usize))>::empty());
            assert(sspec.take(0) =~= Seq::<(Seq<Seq<char>>, (Seq<char>, usize))>::empty());
            assert(keep_all(o0, spec.take(0)) == o0);
            assert(push_all(s0, sspec.take(0)) == s0);
        }
        one.insert(x0.0, x0.1);
        proof {
            assert(spec.take(1).drop_last() =~= spec.take(0));
            assert(spec.take(1).last() == spec[0]);
            assert(one@ == keep_all(o0, spec.take(1)));
        }
        one.insert(x1.0, x1.1);
        proof {
            assert(spec.take(2).drop_last() =~= spec.take(1));
            assert(spec.take(2).last() == spec[1]);
            assert(one@ == keep_all(o0, spec.take(2)));
        }
        one.insert(x2.0, x2.1);
        proof {
            assert(spec.take(3).drop_last() =~= spec.take(2));
            assert(spec.take(3).last() == spec[2]);
            assert(one@ == keep_all(o0, spec.take(3)));
        }
        one.insert(x3.0, x3.1);
        proof {
            assert(spec.take(4).drop_last() =~= spec.take(3));
            assert(spec.take(4).last() == spec[3]);
            assert(one@ == keep_all(o0, spec.take(4)));
        }
        one.insert(x4.0, x4.1);
        proof {
            assert(spec.take(5).drop_last() =~= spec.take(4));
            assert(spec.take(5).last() == spec[4]);
            assert(one@ == keep_all(o0, spec.take(5)));
        }
        seq.insert(y0.0, y0.1);
        proof {
            assert(sspec.take(1).drop_last() =~= sspec.take(0));
            assert(sspec.take(1).last() == sspec[0]);
            assert(seq@ == push_all(s0, sspec.take(1)));
        }
        seq.insert(y1.0, y1.1);
        proof {
            assert(sspec.take(2).drop_last() =~= sspec.take(1));
            assert(sspec.take(2).last() == sspec[1]);
            assert(seq@ == push_all(s0, sspec.take(2)));
        }
        one.insert(x5.0, x5.1);
        proof {
            assert(spec.take(6).drop_last() =~= spec.take(5));
            assert(spec.take(6).last() == spec[5]);
            assert(one@ == keep_all(o0, spec.take(6)));
        }
        one.insert(x6.0, x6.1);
        proof {
            assert(spec.take(7).drop_last() =~= spec.take(6));
            assert(spec.take(7).last() == spec[6]);
            assert(one@ == keep_all(o0, spec.take(7)));
        }
        one.insert(x7.0, x7.1);
        proof {
            assert(spec.take(8).drop_last() =~= spec.take(7));
            assert(spec.take(8).last() == spec[7]);
            assert(one@ == keep_all(o0, spec.take(8)));
        }
        one.insert(x8.0, x8.1);
        proof {
            assert(spec.take(9).drop_last() =~= spec.take(8));
            assert(spec.take(9).last() == spec[8]);
            assert(one@ == keep_all(o0, spec.take(9)));
        }
        assert(spec.take(9) =~= spec);
        assert(sspec.take(2) =~= sspec);
    }
}

} // verus!
