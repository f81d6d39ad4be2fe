//! Animation variables (`AnimVar` lines of an FNIS list): the patches that register them
//! in a master behavior.
use vstd::prelude::*;

use crate::anim_seq::{name_array_text, spec_name_array};
use crate::fnis_anim::{pairs_view, patch3, patch_of, PatchPair};
use crate::json::{
    json_array, json_array_text, json_object, json_object_text, json_string, json_string_text,
    member_texts, texts,
};
use crate::text::{decimal, u64_to_decimal};

verus! {

/// The initial value of an animation variable.
#[derive(Debug, Clone, Copy, PartialEq, Eq)]
pub enum AnimVarValue {
    Bool(bool),
    Int32(i32),
    /// A real variable, by its value converted to `i32` (toward zero, saturating), which is
    /// what its word value holds.
    Real(i32),
}

/// An animation variable: its name and initial value.
#[derive(Debug, Clone, PartialEq, Eq)]
pub struct AnimVar {
    pub name: String,
    pub value: AnimVarValue,
}

/// The decimal text of an integer, with `-` before a negative one.
pub open spec fn int_decimal(i: int) -> Seq<char> {
    if i < 0 {
        "-"@ + decimal((-i) as nat)
    } else {
        decimal(i as nat)
    }
}

pub(crate) fn i32_to_decimal(v: i32) -> (r: String)
    ensures
        r@ == int_decimal(v as int),
{
    if v < 0 {
        let mut r = String::from_str("-");
        let magnitude: i64 = -(v as i64);
        r.append(u64_to_decimal(magnitude as u64).as_str());
        r
    } else {
        u64_to_decimal(v as u64)
    }
}

/// The word value of a variable: 1 or 0 for a boolean, else its integer.
pub open spec fn word_value(v: AnimVarValue) -> int {
    match v {
        AnimVarValue::Bool(b) => if b { 1 } else { 0 },
        AnimVarValue::Int32(i) => i as int,
        AnimVarValue::Real(i) => i as int,
    }
}

/// The Havok type of a variable.
pub open spec fn variable_type(v: AnimVarValue) -> Seq<char> {
    match v {
        AnimVarValue::Bool(_) => "VARIABLE_TYPE_BOOL"@,
        AnimVarValue::Int32(_) => "VARIABLE_TYPE_INT32"@,
        AnimVarValue::Real(_) => "VARIABLE_TYPE_REAL"@,
    }
}

/// `{"value":<word value>}`
pub open spec fn spec_var_word(v: AnimVarValue) -> Seq<char> {
    json_object(seq![("value"@, int_decimal(word_value(v)))])
}

/// `{"role":{"role":"ROLE_DEFAULT","flags":"0"},"type":<type>}`
pub open spec fn spec_var_info(v: AnimVarValue) -> Seq<char> {
    json_object(
        seq![
            ("role"@, json_object(seq![("role"@, json_string("ROLE_DEFAULT"@)), ("flags"@, json_string("0"@))])),
            ("type"@, json_string(variable_type(v))),
        ],
    )
}

fn var_word_text(v: AnimVarValue) -> (r: String)
    ensures
        r@ == spec_var_word(v),
{
    let n: i32 = match v {
        AnimVarValue::Bool(b) => if b { 1 } else { 0 },
        AnimVarValue::Int32(i) => i,
        AnimVarValue::Real(i) => i,
    };
    let fields = vec![("value", i32_to_decimal(n))];
    assert(member_texts(fields@) =~= seq![("value"@, int_decimal(word_value(v)))]);
    json_object_text(&fields)
}

fn var_info_text(v: AnimVarValue) -> (r: String)
    ensures
        r@ == spec_var_info(v),
{
    let ty = match v {
        AnimVarValue::Bool(_) => "VARIABLE_TYPE_BOOL",
        AnimVarValue::Int32(_) => "VARIABLE_TYPE_INT32",
        AnimVarValue::Real(_) => "VARIABLE_TYPE_REAL",
    };
    let role_fields = vec![("role", json_string_text("ROLE_DEFAULT")), ("flags", json_string_text("0"))];
    assert(member_texts(role_fields@) =~= seq![("role"@, json_string("ROLE_DEFAULT"@)), ("flags"@, json_string("0"@))]);
    let role = json_object_text(&role_fields);
    let ghost role_text = role@;
    let fields = vec![("role", role), ("type", json_string_text(ty))];
    assert(member_texts(fields@) =~= seq![("role"@, role_text), ("type"@, json_string(variable_type(v)))]);
    json_object_text(&fields)
}

/// The names of animation variables.
pub open spec fn var_names(values: Seq<AnimVar>) -> Seq<Seq<char>> {
    values.map_values(|a: AnimVar| a.name@)
}

/// The three patches that append the variables `values`, in order, to the variable names of
/// the string data `string_data_index`, their initial values to the value set
/// `variable_index` and their types to the graph data `behavior_graph_index`.
pub open spec fn spec_push_anim_vars(
    values: Seq<AnimVar>,
    string_data_index: Seq<char>,
    variable_index: Seq<char>,
    behavior_graph_index: Seq<char>,
    priority: usize,
) -> Seq<(Seq<Seq<char>>, (Seq<char>, usize))> {
    seq![
        patch_of(
            seq![string_data_index, "hkbBehaviorGraphStringData"@, "variableNames"@],
            spec_name_array(var_names(values)),
            priority,
        ),
        patch_of(
            seq![variable_index, "hkbVariableValueSet"@, "wordVariableValues"@],
            json_array(Seq::new(values.len(), |i: int| spec_var_word(values[i].value))),
            priority,
        ),
        patch_of(
            seq![behavior_graph_index, "hkbBehaviorGraphData"@, "variableInfos"@],
            json_array(Seq::new(values.len(), |i: int| spec_var_info(values[i].value))),
            priority,
        ),
    ]
}

/// Registers the animation variables `values` in a master behavior whose string data,
/// value set and graph data are the given classes.
pub fn new_push_anim_vars_patch(
    values: &Vec<AnimVar>,
    string_data_index: &str,
    variable_index: &str,
    behavior_graph_index: &str,
    priority: usize,
) -> (r: Vec<PatchPair>)
    ensures
        pairs_view(r@) == spec_push_anim_vars(values@, string_data_index@, variable_index@, behavior_graph_index@, priority),
{
    let mut names: Vec<String> = Vec::new();
    let mut words: Vec<String> = Vec::new();
    let mut infos: Vec<String> = Vec::new();
    let mut i: usize = 0;
    while i < values.len()
        invariant
            i <= values@.len(),
            texts(names@) =~= var_names(values@).take(i as int),
            texts(words@) =~= Seq::new(i as nat, |j: int| spec_var_word(values@[j].value)),
            texts(infos@) =~= Seq::new(i as nat, |j: int| spec_var_info(values@[j].value)),
        decreases values@.len() - i,
    {
        let name = values[i].name.clone();
        let word = var_word_text(values[i].value);
        let info = var_info_text(values[i].value);
        let ghost (nb, wb, ib) = (names@, words@, infos@);
        names.push(name);
        words.push(word);
        infos.push(info);
        proof {
            assert(texts(names@) =~= texts(nb).push(values@[i as int].name@));
            assert(var_names(values@).take(i + 1) =~= var_names(values@).take(i as int).push(values@[i as int].name@));
            assert(texts(words@) =~= texts(wb).push(word@));
            assert(texts(infos@) =~= texts(ib).push(info@));
        }
        i = i + 1;
    }
    assert(var_names(values@).take(values@.len() as int) =~= var_names(values@));
    let x0 = patch3(string_data_index, "hkbBehaviorGraphStringData", "variableNames", name_array_text(&names), priority);
    let x1 = patch3(variable_index, "hkbVariableValueSet", "wordVariableValues", json_array_text(&words), priority);
    let x2 = patch3(behavior_graph_index, "hkbBehaviorGraphData", "variableInfos", json_array_text(&infos), priority);
    let r = vec![x0, x1, x2];
    assert(pairs_view(r@) =~= spec_push_anim_vars(values@, string_data_index@, variable_index@, behavior_graph_index@, priority));
    r
}

} // verus!
