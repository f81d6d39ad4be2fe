//! Offset arm animations (`ofa`): the patches that add a right and a left offset state to
//! `meshes\actors\character\behaviors\mt_behavior.xml`.
use vstd::prelude::*;

use crate::fnis_anim::{
    clip_generator_text, clip_mode, event_property_text, new_push_transitions_seq_patch,
    pair_view, pairs_view, patch2, patch3, patch_of, spec_clip_generator, spec_clip_mode,
    spec_event_property, spec_push_transitions, spec_state_info, spec_string_payload,
    state_id_of, state_id_text, state_info_text, string_payload_text, FnisAnimFlags,
    FnisAnimation, PatchPair,
};
use crate::fnis_names::{numbered, offset_arm_names};
use crate::fnis_paths::spec_animation_path;
use crate::json::{
    json_array, json_array_text, json_object, json_object_text, json_string, json_string_text,
    member_texts, texts,
};

verus! {

/// One patch per animation object: an `hkbStringEventPayload` holding the object's name,
/// at the class index `class_indexes[first + i]` of object `i`.
pub open spec fn spec_anim_object_patches(
    objects: Seq<String>,
    class_indexes: Seq<Seq<char>>,
    first: int,
    priority: usize,
) -> Seq<(Seq<Seq<char>>, (Seq<char>, usize))> {
    Seq::new(
        objects.len(),
        |i: int|
            patch_of(
                seq![class_indexes[first + i], "hkbStringEventPayload"@],
                spec_string_payload(class_indexes[first + i], objects[i]@),
                priority,
            ),
    )
}

/// The events of the left offset state: head tracking off (`20`) unless the animation
/// keeps it, then loading and drawing (`393`, `394`) the first animation object, if any.
pub open spec fn spec_offset_arm_events(flags: FnisAnimFlags, anim_object: Option<Seq<char>>) -> Seq<
    Seq<char>,
> {
    (if flags.head_tracking {
        Seq::empty()
    } else {
        seq![spec_event_property("20"@, "#0000"@)]
    }) + match anim_object {
        Some(o) => seq![spec_event_property("393"@, o), spec_event_property("394"@, o)],
        None => Seq::empty(),
    }
}

/// `enterNotifyEvents` of the left offset state.
pub open spec fn spec_left_enter_events(flags: FnisAnimFlags, event_array: Seq<char>) -> Seq<char> {
    if flags.anim_objects {
        event_array
    } else if flags.head_tracking {
        "#0000"@
    } else {
        "FNIS_aa_global_auto_gen5219"@
    }
}

/// `exitNotifyEvents` of the left offset state.
pub open spec fn spec_left_exit_events(flags: FnisAnimFlags) -> Seq<char> {
    if flags.head_tracking {
        "#0000"@
    } else {
        "FNIS_aa_global_auto_gen5218"@
    }
}

/// `transitions` of the left offset state.
pub open spec fn spec_left_transitions(flags: FnisAnimFlags) -> Seq<char> {
    if flags.anim_objects {
        "#5147"@
    } else {
        "#5152"@
    }
}

/// The single-value patches of an offset arm animation: its animation objects, then the
/// right state (`class_indexes[0]`) and clip (`[1]`), the left state (`[2]`) and clip
/// (`[3]`), and the left state's event array (`[4]`).
pub open spec fn spec_offset_arm_one(
    anim: FnisAnimation,
    namespace: Seq<char>,
    priority: usize,
    ci: Seq<Seq<char>>,
) -> Seq<(Seq<Seq<char>>, (Seq<char>, usize))> {
    let flags = anim.flags;
    let right_state = numbered("FNIS_RightOffset"@, priority as nat);
    let right_event = numbered("FNIS_RightOffsetCG"@, priority as nat);
    let left_event = numbered("FNIS_LeftOffsetCG"@, priority as nat);
    let anim_path = spec_animation_path(namespace, anim.anim_file@);
    let anim_object = if anim.anim_objects@.len() > 0 {
        Some(ci[5])
    } else {
        None
    };
    spec_anim_object_patches(anim.anim_objects@, ci, 5, priority) + seq![
        patch_of(
            seq![ci[0], "hkbStateMachineStateInfo"@],
            spec_state_info(
                ci[0],
                "#0000"@,
                "#0000"@,
                "#5111"@,
                ci[1],
                right_state,
                state_id_text(right_state),
            ),
            priority,
        ),
        patch_of(
            seq![ci[1], "hkbClipGenerator"@],
            spec_clip_generator(ci[1], right_event, anim_path, "#0000"@, spec_clip_mode(flags)),
            priority,
        ),
        patch_of(
            seq![ci[2], "hkbStateMachineStateInfo"@],
            spec_state_info(
                ci[2],
                spec_left_enter_events(flags, ci[4]),
                spec_left_exit_events(flags),
                spec_left_transitions(flags),
                ci[3],
                left_event,
                "0"@,
            ),
            priority,
        ),
        patch_of(
            seq![ci[3], "hkbClipGenerator"@],
            spec_clip_generator(ci[3], left_event, anim_path, "#0000"@, spec_clip_mode(flags)),
            priority,
        ),
        patch_of(
            seq![ci[4], "hkbStateMachineEventPropertyArray"@],
            json_object(
                seq![
                    ("__ptr"@, json_string(ci[4])),
                    ("events"@, json_array(spec_offset_arm_events(flags, anim_object))),
                ],
            ),
            priority,
        ),
    ]
}

/// The array patches of an offset arm animation: the two wildcard transitions of
/// `mt_behavior`'s transition array `#4038`, and the two root states pushed to the state
/// machine `#5138`.
pub open spec fn spec_offset_arm_seq(priority: usize, ci: Seq<Seq<char>>) -> Seq<
    (Seq<Seq<char>>, (Seq<char>, usize)),
> {
    seq![
        spec_push_transitions(
            "#4038"@,
            (
                numbered("FNIS_RightOffsetCG"@, priority as nat),
                numbered("FNIS_LeftOffsetCG"@, priority as nat),
            ),
            (
                numbered("FNIS_RightOffset"@, priority as nat),
                numbered("FNIS_LeftOffset"@, priority as nat),
            ),
            priority,
        ),
        patch_of(
            seq!["#5138"@, "hkbStateMachine"@, "states"@],
            json_array(seq![json_string(ci[0]), json_string(ci[2])]),
            priority,
        ),
    ]
}

/// The text of an optional string slice.
pub open spec fn opt_text(o: Option<&str>) -> Option<Seq<char>> {
    match o {
        Some(s) => Some(s@),
        None => None,
    }
}

fn offset_arm_event_array(flags: FnisAnimFlags, anim_object: Option<&str>, class_index: &str) -> (r:
    String)
    ensures
        r@ == json_object(
            seq![
                ("__ptr"@, json_string(class_index@)),
                ("events"@, json_array(spec_offset_arm_events(flags, opt_text(anim_object)))),
            ],
        ),
{
    let mut events: Vec<String> = Vec::new();
    if !flags.head_tracking {
        events.push(event_property_text("20", "#0000"));
    }
    let ghost head = texts(events@);
    if let Some(o) = anim_object {
        events.push(event_property_text("393", o));
        events.push(event_property_text("394", o));
    }
    assert(texts(events@) =~= spec_offset_arm_events(flags, opt_text(anim_object)));
    let array = json_array_text(&events);
    let fields = vec![("__ptr", json_string_text(class_index)), ("events", array)];
    assert(member_texts(fields@) =~= seq![
        ("__ptr"@, json_string(class_index@)),
        ("events"@, json_array(spec_offset_arm_events(flags, opt_text(anim_object)))),
    ]);
    json_object_text(&fields)
}

/// The patches of an offset arm animation of the mod `namespace` with priority `priority`,
/// for `mt_behavior`: `(single-value patches, array patches)`.
///
/// `class_indexes` are the new class names: five for the states, clips and event array,
/// then one per animation object.
#[verifier::rlimit(50)]
pub fn new_offset_arm_patches(
    animation: &FnisAnimation,
    namespace: &str,
    priority: usize,
    class_indexes: &Vec<String>,
) -> (r: (Vec<PatchPair>, Vec<PatchPair>))
    requires
        class_indexes@.len() == 5 + animation.anim_objects@.len(),
    ensures
        pairs_view(r.0@) == spec_offset_arm_one(*animation, namespace@, priority, texts(class_indexes@)),
        pairs_view(r.1@) == spec_offset_arm_seq(priority, texts(class_indexes@)),
{
    let ghost ci = texts(class_indexes@);
    let names = offset_arm_names(namespace, animation.anim_file.as_str(), priority);
    let flags = animation.flags;
    let mode = clip_mode(flags);

    let mut seq_patches: Vec<PatchPair> = Vec::new();
    seq_patches.push(new_push_transitions_seq_patch(
        "#4038",
        (names.right_offset_event.as_str(), names.left_offset_event.as_str()),
        (names.right_offset_state_name.as_str(), names.left_offset_state_name.as_str()),
        priority,
    ));
    let states = vec![json_string_text(class_indexes[0].as_str()), json_string_text(class_indexes[2].as_str())];
    assert(texts(states@) =~= seq![json_string(ci[0]), json_string(ci[2])]);
    seq_patches.push(patch3("#5138", "hkbStateMachine", "states", json_array_text(&states), priority));
    assert(pairs_view(seq_patches@) =~= spec_offset_arm_seq(priority, ci));

    let mut one_patches: Vec<PatchPair> = Vec::new();
    let n = animation.anim_objects.len();
    let total = class_indexes.len();
    let mut i: usize = 0;
    while i < n
        invariant
            n == animation.anim_objects@.len(),
            total == class_indexes@.len(),
            class_indexes@.len() == 5 + n,
            ci == texts(class_indexes@),
            i <= n,
            pairs_view(one_patches@) =~= spec_anim_object_patches(animation.anim_objects@, ci, 5, priority).take(i as int),
        decreases n - i,
    {
        let index = class_indexes[5 + i].as_str();
        let p = patch2(
            index,
            "hkbStringEventPayload",
            string_payload_text(index, animation.anim_objects[i].as_str()),
            priority,
        );
        let ghost before = one_patches@;
        one_patches.push(p);
        proof {
            assert(ci[5 + i] == class_indexes@[5 + i]@);
            assert(one_patches@ =~= before.push(p));
            assert(pairs_view(one_patches@) =~= pairs_view(before).push(pair_view(p)));
            assert(pairs_view(one_patches@) =~= spec_anim_object_patches(animation.anim_objects@, ci, 5, priority).take(i + 1));
        }
        i = i + 1;
    }
    assert(spec_anim_object_patches(animation.anim_objects@, ci, 5, priority).take(n as int)
        =~= spec_anim_object_patches(animation.anim_objects@, ci, 5, priority));

    let ghost objs = one_patches@;
    let p0 = patch2(
        class_indexes[0].as_str(),
        "hkbStateMachineStateInfo",
        state_info_text(
            class_indexes[0].as_str(),
            "#0000",
            "#0000",
            "#5111",
            class_indexes[1].as_str(),
            names.right_offset_state_name.as_str(),
            state_id_of(names.right_offset_state_name.as_str()),
        ),
        priority,
    );
    let p1 = patch2(
        class_indexes[1].as_str(),
        "hkbClipGenerator",
        clip_generator_text(
            class_indexes[1].as_str(),
            names.right_offset_event.as_str(),
            names.anim_file.as_str(),
            "#0000",
            mode,
        ),
        priority,
    );
    let enter = if flags.anim_objects {
        class_indexes[4].as_str()
    } else if flags.head_tracking {
        "#0000"
    } else {
        "FNIS_aa_global_auto_gen5219"
    };
    let exit = if flags.head_tracking {
        "#0000"
    } else {
        "FNIS_aa_global_auto_gen5218"
    };
    let transitions = if flags.anim_objects {
        "#5147"
    } else {
        "#5152"
    };
    let p2 = patch2(
        class_indexes[2].as_str(),
        "hkbStateMachineStateInfo",
        state_info_text(
            class_indexes[2].as_str(),
            enter,
            exit,
            transitions,
            class_indexes[3].as_str(),
            names.left_offset_event.as_str(),
            String::from_str("0"),
        ),
        priority,
    );
    let p3 = patch2(
        class_indexes[3].as_str(),
        "hkbClipGenerator",
        clip_generator_text(
            class_indexes[3].as_str(),
            names.left_offset_event.as_str(),
            names.anim_file.as_str(),
            "#0000",
            mode,
        ),
        priority,
    );
    let anim_object = if n > 0 {
        Some(class_indexes[5].as_str())
    } else {
        None
    };
    let p4 = patch2(
        class_indexes[4].as_str(),
        "hkbStateMachineEventPropertyArray",
        offset_arm_event_array(flags, anim_object, class_indexes[4].as_str()),
        priority,
    );
    let ghost spec_one = spec_offset_arm_one(*animation, namespace@, priority, ci);
    let ghost k = n as int;
    assert(ci[0] == class_indexes@[0]@ && ci[1] == class_indexes@[1]@ && ci[2] == class_indexes@[2]@
        && ci[3] == class_indexes@[3]@ && ci[4] == class_indexes@[4]@);
    assert(n > 0 ==> ci[5] == class_indexes@[5]@);
    assert(pair_view(p0) == spec_one[k]);
    assert(pair_view(p1) == spec_one[k + 1]);
    assert(pair_view(p2) == spec_one[k + 2]);
    assert(pair_view(p3) == spec_one[k + 3]);
    let ghost ao = if animation.anim_objects@.len() > 0 {
        Some(ci[5])
    } else {
        None::<Seq<char>>
    };
    let ghost ev = json_object(
        seq![
            ("__ptr"@, json_string(ci[4])),
            ("events"@, json_array(spec_offset_arm_events(flags, ao))),
        ],
    );
    assert(opt_text(anim_object) == ao);
    assert(spec_one[k + 4] == patch_of(seq![ci[4], "hkbStateMachineEventPropertyArray"@], ev, priority));
    assert(pair_view(p4) == spec_one[k + 4]);
    one_patches.push(p0);
    one_patches.push(p1);
    one_patches.push(p2);
    one_patches.push(p3);
    one_patches.push(p4);
    assert(one_patches@ =~= objs + seq![p0, p1, p2, p3, p4]);
    assert(pairs_view(one_patches@) =~= spec_offset_arm_one(*animation, namespace@, priority, ci));
    (one_patches, seq_patches)
}

/// The left offset state's event array turns head tracking off (`20`) exactly when the
/// animation does not keep head tracking (`h`), and then loads and draws (`393`, `394`) the
/// first animation object (class name 5), if there is one.
pub proof fn lemma_offset_arm_event_array(anim: FnisAnimation, namespace: Seq<char>, p: usize, ci: Seq<Seq<char>>)
    requires
        ci.len() == 5 + anim.anim_objects@.len(),
    ensures
        ({
            let n = anim.anim_objects@.len() as int;
            let h = anim.flags.head_tracking;
            exists|e: Seq<Seq<char>>|
                spec_offset_arm_one(anim, namespace, p, ci)[n + 4] == patch_of(
                    seq![ci[4], "hkbStateMachineEventPropertyArray"@],
                    json_object(seq![("__ptr"@, json_string(ci[4])), ("events"@, #[trigger] json_array(e))]),
                    p,
                ) && e.len() == (if h { 0int } else { 1int }) + (if n > 0 { 2int } else { 0int }) && (!h
                    ==> e[0] == spec_event_property("20"@, "#0000"@)) && (n > 0 ==> e[e.len() - 2]
                    == spec_event_property("393"@, ci[5]) && e[e.len() - 1] == spec_event_property("394"@, ci[5]))
        }),
{
    let n = anim.anim_objects@.len() as int;
    let h = anim.flags.head_tracking;
    let o = if n > 0 { Some(ci[5]) } else { None };
    let e = spec_offset_arm_events(anim.flags, o);
    assert(spec_anim_object_patches(anim.anim_objects@, ci, 5, p).len() == n);
    assert(e.len() == (if h { 0int } else { 1int }) + (if n > 0 { 2int } else { 0int }));
    assert(!h ==> e[0] == spec_event_property("20"@, "#0000"@));
    assert(n > 0 ==> e[e.len() - 2] == spec_event_property("393"@, ci[5]) && e[e.len() - 1] == spec_event_property("394"@, ci[5]));
    assert(spec_offset_arm_one(anim, namespace, p, ci)[n + 4] == patch_of(
        seq![ci[4], "hkbStateMachineEventPropertyArray"@],
        json_object(seq![("__ptr"@, json_string(ci[4])), ("events"@, json_array(e))]),
        p,
    ));
}

} // verus!
