//! Array patches that register new events and variables in a behavior's string data and
//! graph data.
use vstd::prelude::*;

use crate::fnis_anim::{pairs_view, patch3, patch_of, PatchPair};
use crate::json::{
    json_array, json_array_text, json_object, json_object_text, json_string, json_string_text,
    member_texts, texts,
};

verus! {

/// `n` copies of the JSON text `item`, as an array.
pub open spec fn spec_repeated(item: Seq<char>, n: nat) -> Seq<char> {
    json_array(Seq::new(n, |_i: int| item))
}

pub(crate) fn repeated_text(item: &String, n: usize) -> (r: String)
    ensures
        r@ == spec_repeated(item@, n as nat),
{
    let mut items: Vec<String> = Vec::new();
    let mut i: usize = 0;
    while i < n
        invariant
            i <= n,
            texts(items@) =~= Seq::new(i as nat, |_j: int| item@),
        decreases n - i,
    {
        let ghost before = items@;
        items.push(item.clone());
        assert(texts(items@) =~= texts(before).push(item@));
        i = i + 1;
    }
    json_array_text(&items)
}

/// The names, as an array of JSON strings.
pub open spec fn spec_name_array(names: Seq<Seq<char>>) -> Seq<char> {
    json_array(Seq::new(names.len(), |i: int| json_string(names[i])))
}

pub(crate) fn name_array_text(names: &Vec<String>) -> (r: String)
    ensures
        r@ == spec_name_array(texts(names@)),
{
    let mut items: Vec<String> = Vec::new();
    let mut i: usize = 0;
    while i < names.len()
        invariant
            i <= names@.len(),
            texts(items@) =~= Seq::new(i as nat, |j: int| json_string(names@[j]@)),
        decreases names@.len() - i,
    {
        let item = json_string_text(names[i].as_str());
        let ghost before = items@;
        items.push(item);
        assert(texts(items@) =~= texts(before).push(item@));
        i = i + 1;
    }
    assert(texts(items@) =~= Seq::new(texts(names@).len(), |j: int| json_string(texts(names@)[j])));
    json_array_text(&items)
}

/// `{"flags":"0"}`: the information of a new event.
pub open spec fn spec_event_info() -> Seq<char> {
    json_object(seq![("flags"@, json_string("0"@))])
}

/// The two patches that append the events `events` to the event names of the string data
/// `string_data_index` and their infos to the graph data `behavior_graph_index`.
pub open spec fn spec_push_events(
    events: Seq<Seq<char>>,
    string_data_index: Seq<char>,
    behavior_graph_index: Seq<char>,
    priority: usize,
) -> Seq<(Seq<Seq<char>>, (Seq<char>, usize))> {
    seq![
        patch_of(
            seq![string_data_index, "hkbBehaviorGraphStringData"@, "eventNames"@],
            spec_name_array(events),
            priority,
        ),
        patch_of(
            seq![behavior_graph_index, "hkbBehaviorGraphData"@, "eventInfos"@],
            spec_repeated(spec_event_info(), events.len()),
            priority,
        ),
    ]
}

/// Appends the events `events` to the event names of `string_data_index` and one event
/// info per event to `behavior_graph_index`.
pub fn new_push_events_seq_patch(
    events: &Vec<String>,
    string_data_index: &str,
    behavior_graph_index: &str,
    priority: usize,
) -> (r: Vec<PatchPair>)
    ensures
        pairs_view(r@) == spec_push_events(texts(events@), string_data_index@, behavior_graph_index@, priority),
{
    let fields = vec![("flags", json_string_text("0"))];
    assert(member_texts(fields@) =~= seq![("flags"@, json_string("0"@))]);
    let info = json_object_text(&fields);
    let x0 = patch3(string_data_index, "hkbBehaviorGraphStringData", "eventNames", name_array_text(events), priority);
    let x1 = patch3(behavior_graph_index, "hkbBehaviorGraphData", "eventInfos", repeated_text(&info, events.len()), priority);
    let r = vec![x0, x1];
    assert(pairs_view(r@) =~= spec_push_events(texts(events@), string_data_index@, behavior_graph_index@, priority));
    r
}

/// `{"value":0}`: the initial value of a new variable.
pub open spec fn spec_word_value() -> Seq<char> {
    json_object(seq![("value"@, "0"@)])
}

/// `{"role":{"role":"ROLE_DEFAULT","flags":"0"},"type":"VARIABLE_TYPE_INT32"}`: the
/// information of a new variable.
pub open spec fn spec_variable_info() -> Seq<char> {
    json_object(
        seq![
            ("role"@, json_object(seq![("role"@, json_string("ROLE_DEFAULT"@)), ("flags"@, json_string("0"@))])),
            ("type"@, json_string("VARIABLE_TYPE_INT32"@)),
        ],
    )
}

/// The three patches that append the variables `names` to the variable names of
/// `string_data_index`, their initial values to `variable_index` and their infos to
/// `behavior_graph_index`.
pub open spec fn spec_push_values(
    names: Seq<Seq<char>>,
    string_data_index: Seq<char>,
    variable_index: Seq<char>,
    behavior_graph_index: Seq<char>,
    priority: usize,
) -> Seq<(Seq<Seq<char>>, (Seq<char>, usize))> {
    seq![
        patch_of(
            seq![string_data_index, "hkbBehaviorGraphStringData"@, "variableNames"@],
            spec_name_array(names),
            priority,
        ),
        patch_of(
            seq![variable_index, "hkbVariableValueSet"@, "wordVariableValues"@],
            spec_repeated(spec_word_value(), names.len()),
            priority,
        ),
        patch_of(
            seq![behavior_graph_index, "hkbBehaviorGraphData"@, "variableInfos"@],
            spec_repeated(spec_variable_info(), names.len()),
            priority,
        ),
    ]
}

/// Appends the variables `names` (each an `int32` starting at 0) to a behavior.
pub fn new_push_values_seq_patch(
    names: &Vec<String>,
    string_data_index: &str,
    variable_index: &str,
    behavior_graph_index: &str,
    priority: usize,
) -> (r: Vec<PatchPair>)
    ensures
        pairs_view(r@) == spec_push_values(
            texts(names@),
            string_data_index@,
            variable_index@,
            behavior_graph_index@,
            priority,
        ),
{
    let value_fields = vec![("value", String::from_str("0"))];
    assert(member_texts(value_fields@) =~= seq![("value"@, "0"@)]);
    let value = json_object_text(&value_fields);
    let role_fields = vec![("role", json_string_text("ROLE_DEFAULT")), ("flags", json_string_text("0"))];
    assert(member_texts(role_fields@) =~= seq![("role"@, json_string("ROLE_DEFAULT"@)), ("flags"@, json_string("0"@))]);
    let role = json_object_text(&role_fields);
    let ghost role_text = role@;
    let info_fields = vec![("role", role), ("type", json_string_text("VARIABLE_TYPE_INT32"))];
    assert(member_texts(info_fields@) =~= seq![("role"@, role_text), ("type"@, json_string("VARIABLE_TYPE_INT32"@))]);
    let info = json_object_text(&info_fields);
    let x0 = patch3(string_data_index, "hkbBehaviorGraphStringData", "variableNames", name_array_text(names), priority);
    let x1 = patch3(variable_index, "hkbVariableValueSet", "wordVariableValues", repeated_text(&value, names.len()), priority);
    let x2 = patch3(behavior_graph_index, "hkbBehaviorGraphData", "variableInfos", repeated_text(&info, names.len()), priority);
    let r = vec![x0, x1, x2];
    assert(pairs_view(r@) =~= spec_push_values(
        texts(names@),
        string_data_index@,
        variable_index@,
        behavior_graph_index@,
        priority,
    ));
    r
}

} // verus!
