//! The classes that `meshes\actors\character\behaviors\0_master.xml` gets once per run:
//! the event arrays that alternate animations, paired animations and kill moves point at,
//! and the variables of alternate animations.
use vstd::prelude::*;

use crate::fnis_anim::{
    event_property_text, pair_view, pairs_view, patch2, patch3, patch_of, ptr_object_text,
    spec_event_property, spec_ptr_object, string_payload_text, spec_string_payload, PatchPair,
};
use crate::anim_seq::{
    name_array_text, repeated_text, spec_name_array, spec_repeated, spec_variable_info,
    spec_word_value,
};
use crate::group_names::{spec_fnis_str, AAGroupName};
use crate::json::{
    json_array, json_array_text, json_object_text, json_string, json_string_text, member_texts,
    texts,
};

verus! {

/// An event array of the events `(id, payload)`, in order.
pub open spec fn spec_event_array(ptr: Seq<char>, events: Seq<(Seq<char>, Seq<char>)>) -> Seq<char> {
    spec_ptr_object(ptr, "events"@, json_array(Seq::new(events.len(), |i: int| spec_event_property(events[i].0, events[i].1))))
}

fn event_array_text(ptr: &str, events: &Vec<(&str, &str)>) -> (r: String)
    ensures
        r@ == spec_event_array(ptr@, events@.map_values(|e: (&str, &str)| (e.0@, e.1@))),
{
    let ghost es = events@.map_values(|e: (&str, &str)| (e.0@, e.1@));
    let mut items: Vec<String> = Vec::new();
    let mut i: usize = 0;
    while i < events.len()
        invariant
            i <= events@.len(),
            es == events@.map_values(|e: (&str, &str)| (e.0@, e.1@)),
            texts(items@) =~= Seq::new(i as nat, |j: int| spec_event_property(es[j].0, es[j].1)),
        decreases events@.len() - i,
    {
        let item = event_property_text(events[i].0, events[i].1);
        let ghost before = items@;
        items.push(item);
        assert(texts(items@) =~= texts(before).push(item@));
        i = i + 1;
    }
    ptr_object_text(ptr, "events", json_array_text(&items))
}

/// The patch of the event array `ptr` holding the events `(id, payload)`.
pub open spec fn spec_event_array_patch(ptr: Seq<char>, events: Seq<(Seq<char>, Seq<char>)>, p: usize) -> (
    Seq<Seq<char>>,
    (Seq<char>, usize),
) {
    patch_of(seq![ptr, "hkbStateMachineEventPropertyArray"@], spec_event_array(ptr, events), p)
}

fn event_array_patch(ptr: &str, events: Vec<(&str, &str)>, p: usize) -> (r: PatchPair)
    ensures
        pair_view(r) == spec_event_array_patch(ptr@, events@.map_values(|e: (&str, &str)| (e.0@, e.1@)), p),
{
    patch2(ptr, "hkbStateMachineEventPropertyArray", event_array_text(ptr, &events), p)
}

/// The patches of `0_master`'s shared event arrays: head tracking off (`366`) and on
/// (`367`), animation object unequip (`543`), start (`1061`, with the camera payload) and
/// end (`1062`) of the animated camera, paired kill target (`915`), the two combined
/// arrays, and the camera payload `Camera3rd [Cam3]`.
pub open spec fn spec_global_master(p: usize) -> Seq<(Seq<Seq<char>>, (Seq<char>, usize))> {
    seq![
        spec_event_array_patch("#FNIS_aa_global_auto_gen2526"@, seq![("366"@, "#0000"@)], p),
        spec_event_array_patch("#FNIS_aa_global_auto_gen2527"@, seq![("367"@, "#0000"@)], p),
        spec_event_array_patch("#FNIS_aa_global_auto_gen2528"@, seq![("543"@, "#0000"@)], p),
        spec_event_array_patch("#FNIS_aa_global_auto_gen2530"@, seq![("1061"@, "#FNIS_aa_global_auto_gen2531"@)], p),
        spec_event_array_patch("#FNIS_aa_global_auto_gen2532"@, seq![("1062"@, "#0000"@)], p),
        spec_event_array_patch("#FNIS_aa_global_auto_gen2533"@, seq![("915"@, "#0000"@)], p),
        spec_event_array_patch("#FNIS_aa_global_auto_gen2529"@, seq![("367"@, "#0000"@), ("543"@, "#0000"@)], p),
        spec_event_array_patch(
            "#FNIS_aa_global_auto_gen2534"@,
            seq![("1061"@, "#FNIS_aa_global_auto_gen2531"@), ("915"@, "#0000"@)],
            p,
        ),
        patch_of(
            seq!["#FNIS_aa_global_auto_gen2531"@, "hkbStringEventPayload"@],
            spec_string_payload("#FNIS_aa_global_auto_gen2531"@, "Camera3rd [Cam3]"@),
            p,
        ),
    ]
}

/// The classes that `0_master` gets once per run, with priority `priority`.
#[verifier::rlimit(40)]
pub fn new_global_master_patch(priority: usize) -> (r: Vec<PatchPair>)
    ensures
        pairs_view(r@) == spec_global_master(priority),
{
    let p = priority;
    let e0 = vec![("366", "#0000")];
    let e1 = vec![("367", "#0000")];
    let e2 = vec![("543", "#0000")];
    let e3 = vec![("1061", "#FNIS_aa_global_auto_gen2531")];
    let e4 = vec![("1062", "#0000")];
    let e5 = vec![("915", "#0000")];
    let e6 = vec![("367", "#0000"), ("543", "#0000")];
    let e7 = vec![("1061", "#FNIS_aa_global_auto_gen2531"), ("915", "#0000")];
    proof {
        let f = |e: (&str, &str)| (e.0@, e.1@);
        assert(e0@.map_values(f) =~= seq![("366"@, "#0000"@)]);
        assert(e1@.map_values(f) =~= seq![("367"@, "#0000"@)]);
        assert(e2@.map_values(f) =~= seq![("543"@, "#0000"@)]);
        assert(e3@.map_values(f) =~= seq![("1061"@, "#FNIS_aa_global_auto_gen2531"@)]);
        assert(e4@.map_values(f) =~= seq![("1062"@, "#0000"@)]);
        assert(e5@.map_values(f) =~= seq![("915"@, "#0000"@)]);
        assert(e6@.map_values(f) =~= seq![("367"@, "#0000"@), ("543"@, "#0000"@)]);
        assert(e7@.map_values(f) =~= seq![("1061"@, "#FNIS_aa_global_auto_gen2531"@), ("915"@, "#0000"@)]);
    }
    let x0 = event_array_patch("#FNIS_aa_global_auto_gen2526", e0, p);
    let x1 = event_array_patch("#FNIS_aa_global_auto_gen2527", e1, p);
    let x2 = event_array_patch("#FNIS_aa_global_auto_gen2528", e2, p);
    let x3 = event_array_patch("#FNIS_aa_global_auto_gen2530", e3, p);
    let x4 = event_array_patch("#FNIS_aa_global_auto_gen2532", e4, p);
    let x5 = event_array_patch("#FNIS_aa_global_auto_gen2533", e5, p);
    let x6 = event_array_patch("#FNIS_aa_global_auto_gen2529", e6, p);
    let x7 = event_array_patch("#FNIS_aa_global_auto_gen2534", e7, p);
    let x8 = patch2(
        "#FNIS_aa_global_auto_gen2531",
        "hkbStringEventPayload",
        string_payload_text("#FNIS_aa_global_auto_gen2531", "Camera3rd [Cam3]"),
        p,
    );
    let r = vec![x0, x1, x2, x3, x4, x5, x6, x7, x8];
    assert(pairs_view(r@) =~= spec_global_master(p));
    r
}

/// Every alternate animation group, in the order of their group ids.
pub open spec fn groups_by_id() -> Seq<AAGroupName> {
    seq![
        AAGroupName::MtIdle,
        AAGroupName::OneHmIdle,
        AAGroupName::TwoHmIdle,
        AAGroupName::TwoHwIdle,
        AAGroupName::BowIdle,
        AAGroupName::CBowIdle,
        AAGroupName::H2HIdle,
        AAGroupName::MagIdle,
        AAGroupName::SneakIdle,
        AAGroupName::StaffIdle,
        AAGroupName::MagMt,
        AAGroupName::MagCastMt,
        AAGroupName::OneHmAtk,
        AAGroupName::H2HAtk,
        AAGroupName::H2HAtkPow,
        AAGroupName::MagAtk,
        AAGroupName::OneHmEqp,
        AAGroupName::TwoHwEqp,
        AAGroupName::TwoHmEqp,
        AAGroupName::AxeEqp,
        AAGroupName::BowEqp,
        AAGroupName::CBowEqp,
        AAGroupName::DagEqp,
        AAGroupName::H2HEqp,
        AAGroupName::MaceEqp,
        AAGroupName::MagEqp,
        AAGroupName::StfEqp,
        AAGroupName::Shout,
        AAGroupName::MagCon,
        AAGroupName::DW,
        AAGroupName::Jump,
        AAGroupName::Sprint,
        AAGroupName::Shield,
    ]
}

fn groups_by_id_vec() -> (r: Vec<AAGroupName>)
    ensures
        r@ == groups_by_id(),
{
    let r = vec![
        AAGroupName::MtIdle,
        AAGroupName::OneHmIdle,
        AAGroupName::TwoHmIdle,
        AAGroupName::TwoHwIdle,
        AAGroupName::BowIdle,
        AAGroupName::CBowIdle,
        AAGroupName::H2HIdle,
        AAGroupName::MagIdle,
        AAGroupName::SneakIdle,
        AAGroupName::StaffIdle,
        AAGroupName::MagMt,
        AAGroupName::MagCastMt,
        AAGroupName::OneHmAtk,
        AAGroupName::H2HAtk,
        AAGroupName::H2HAtkPow,
        AAGroupName::MagAtk,
        AAGroupName::OneHmEqp,
        AAGroupName::TwoHwEqp,
        AAGroupName::TwoHmEqp,
        AAGroupName::AxeEqp,
        AAGroupName::BowEqp,
        AAGroupName::CBowEqp,
        AAGroupName::DagEqp,
        AAGroupName::H2HEqp,
        AAGroupName::MaceEqp,
        AAGroupName::MagEqp,
        AAGroupName::StfEqp,
        AAGroupName::Shout,
        AAGroupName::MagCon,
        AAGroupName::DW,
        AAGroupName::Jump,
        AAGroupName::Sprint,
        AAGroupName::Shield,
    ];
    assert(r@ =~= groups_by_id());
    r
}

/// The variables of alternate animations: `FNISaa<group>` for each group, then
/// `fNISaa<group>_crc` for each group, then `FNISaa_crc`.
pub open spec fn spec_alt_anim_variables() -> Seq<Seq<char>> {
    let g = groups_by_id();
    Seq::new(g.len(), |i: int| "FNISaa"@ + spec_fnis_str(g[i])) + Seq::new(
        g.len(),
        |i: int| "fNISaa"@ + spec_fnis_str(g[i]) + "_crc"@,
    ) + seq!["FNISaa_crc"@]
}

fn alt_anim_variables() -> (r: Vec<String>)
    ensures
        texts(r@) == spec_alt_anim_variables(),
{
    let groups = groups_by_id_vec();
    let ghost g = groups_by_id();
    let mut names: Vec<String> = Vec::new();
    let mut i: usize = 0;
    while i < groups.len()
        invariant
            groups@ == g,
            i <= g.len(),
            texts(names@) =~= Seq::new(i as nat, |j: int| "FNISaa"@ + spec_fnis_str(g[j])),
        decreases g.len() - i,
    {
        let mut n = String::from_str("FNISaa");
        n.append(groups[i].as_fnis_str());
        let ghost before = names@;
        names.push(n);
        assert(texts(names@) =~= texts(before).push("FNISaa"@ + spec_fnis_str(g[i as int])));
        i = i + 1;
    }
    let ghost head = texts(names@);
    let mut k: usize = 0;
    while k < groups.len()
        invariant
            groups@ == g,
            k <= g.len(),
            texts(names@) =~= head + Seq::new(k as nat, |j: int| "fNISaa"@ + spec_fnis_str(g[j]) + "_crc"@),
        decreases g.len() - k,
    {
        let mut n = String::from_str("fNISaa");
        n.append(groups[k].as_fnis_str());
        n.append("_crc");
        let ghost before = names@;
        names.push(n);
        assert(texts(names@) =~= texts(before).push("fNISaa"@ + spec_fnis_str(g[k as int]) + "_crc"@));
        k = k + 1;
    }
    let ghost mid = texts(names@);
    names.push(String::from_str("FNISaa_crc"));
    assert(texts(names@) =~= mid.push("FNISaa_crc"@));
    names
}

/// The three patches that register the variables of alternate animations in the 3rd person
/// `0_master`: one `int32` value each, starting at 0, in the value set `#0107`, their infos
/// in the graph data `#0108`, and their names in the string data `#0106`.
pub open spec fn spec_push_alt_anim_values(p: usize) -> Seq<(Seq<Seq<char>>, (Seq<char>, usize))> {
    let n = spec_alt_anim_variables().len();
    seq![
        patch_of(seq!["#0107"@, "hkbVariableValueSet"@, "wordVariableValues"@], spec_repeated(spec_word_value(), n), p),
        patch_of(seq!["#0108"@, "hkbBehaviorGraphData"@, "variableInfos"@], spec_repeated(spec_variable_info(), n), p),
        patch_of(seq!["#0106"@, "hkbBehaviorGraphStringData"@, "variableNames"@], spec_name_array(spec_alt_anim_variables()), p),
    ]
}

/// Registers the variables of alternate animations in the 3rd person `0_master`, with
/// priority `priority`.
pub fn new_push_alt_anim_values_seq_patch(priority: usize) -> (r: Vec<PatchPair>)
    ensures
        pairs_view(r@) == spec_push_alt_anim_values(priority),
{
    let names = alt_anim_variables();
    let n = names.len();
    let value_fields = vec![("value", String::from_str("0"))];
    assert(member_texts(value_fields@) =~= seq![("value"@, "0"@)]);
    let value = json_object_text(&value_fields);
    let role_fields = vec![("role", json_string_text("ROLE_DEFAULT")), ("flags", json_string_text("0"))];
    assert(member_texts(role_fields@) =~= seq![("role"@, json_string("ROLE_DEFAULT"@)), ("flags"@, json_string("0"@))]);
    let role = json_object_text(&role_fields);
    let ghost role_text = role@;
    let info_fields = vec![("role", role), ("type", json_string_text("VARIABLE_TYPE_INT32"))];
    assert(member_texts(info_fields@) =~= seq![("role"@, role_text), ("type"@, json_string("VARIABLE_TYPE_INT32"@))]);
    let info = json_object_text(&info_fields);
    assert(n == spec_alt_anim_variables().len());
    let x0 = patch3("#0107", "hkbVariableValueSet", "wordVariableValues", repeated_text(&value, n), priority);
    let x1 = patch3("#0108", "hkbBehaviorGraphData", "variableInfos", repeated_text(&info, n), priority);
    let x2 = patch3("#0106", "hkbBehaviorGraphStringData", "variableNames", name_array_text(&names), priority);
    let r = vec![x0, x1, x2];
    assert(pairs_view(r@) =~= spec_push_alt_anim_values(priority));
    r
}

} // verus!
