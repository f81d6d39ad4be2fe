use nemesis_merge::fnis_anim::FnisAnimFlags;
use nemesis_merge::furniture::{
    new_furniture_one_anim_patches, FurnitureAnimation, new_furniture_one_group_patches, FlagVar, FurnitureAnim,
    FurnitureGroup, FurniturePhase,
};
use nemesis_merge::hashing::{calculate_hash, hash};
use nemesis_merge::patch_map::{OnePatchMap, SeqPatchMap};
use nemesis_merge::kill_move::Trigger;
use nemesis_merge::list_patch::{generate_patch, FnisListEntry, FnisPatchGenerationError, ListContext};

fn flags(acyclic: bool) -> FnisAnimFlags {
    FnisAnimFlags {
        acyclic,
        anim_objects: false,
        head_tracking: false,
        animated_camera_set: false,
        animated_camera_reset: false,
    }
}

fn anim(event: &str, acyclic: bool, objects: Vec<String>, vars: Vec<FlagVar>) -> FurnitureAnim {
    FurnitureAnim {
        anim_event: event.to_string(),
        anim_file: format!("{event}.hkx"),
        flags: flags(acyclic),
        anim_vars: vars,
        triggers: vec![],
        anim_objects: objects,
    }
}

fn names(n: usize) -> Vec<String> {
    (0..n).map(|i| format!("#FNIS$Fu{i}")).collect()
}

#[test]
fn furniture_one_anim_start() {
    let a = anim("SitEnter", true, vec![], vec![]);
    let ci = names(9);
    let (one, seq) = new_furniture_one_anim_patches(&a, FurniturePhase::Start, Some("SitLoop"), 42, "Seats", 1, &ci);
    assert_eq!(one.len(), 6);
    assert_eq!(seq.len(), 3);
    let id = calculate_hash("#FNIS$Fu0");
    assert!(one[0].1.patch.contains(&format!(r##""enterNotifyEvents":"#FNIS$Fu1","exitNotifyEvents":"#FNIS$Fu2","transitions":"#FNIS$Fu3","generator":"#FNIS$Fu7","name":"SitEnter","stateId":{id}"##)));
    assert_eq!(
        one[2].1.patch,
        r##"{"__ptr":"#FNIS$Fu2","events":[{"id":165,"payload":"#0000"},{"id":14,"payload":"#0000"}]}"##
    );
    assert!(one[3].1.patch.contains(r##""transition":"#FNIS_ba_global_auto_gen5231","condition":"#0000","eventId":152,"toStateId":42,"##));
    assert!(one[4].1.patch.contains(r##""name":"IdleBlessingKneelEnter","animationName":"Animations\\Seats\\SitEnter.hkx","triggers":"#FNIS$Fu8""##));
    assert_eq!(
        one[5].1.patch,
        r##"{"__ptr":"#FNIS$Fu8","triggers":[{"localTime":0.0,"event":{"id":"$eventID[SitLoop]$","payload":"#0000"},"relativeToEndOfClip":false,"acyclic":false,"isAnnotation":false}]}"##
    );
    assert_eq!(seq[2].1.patch, r##"["#FNIS$Fu0","#FNIS$Fu2"]"##);
}

#[test]
fn furniture_one_anim_end_with_variables() {
    let vars = vec![FlagVar { name: "bSeated".to_string(), inverse: true }];
    let mut a = anim("SitExit", false, vec![], vars);
    a.triggers = vec![Trigger { event: "Stand".to_string(), time: "0.5".to_string() }];
    let ci = names(9);
    let (one, seq) = new_furniture_one_anim_patches(&a, FurniturePhase::End(3), None, 7, "Seats", 1, &ci);
    assert_eq!(one.len(), 9);
    assert_eq!(seq.len(), 6);
    assert!(one[0].1.patch.contains(r##""transitions":"#0000","generator":"#FNIS$Fu4""##));
    assert!(one[5].1.patch.contains(r#""bInvertActive0":true,"bIsActive1":false,"bInvertActive1":false"#));
    assert_eq!(
        one[6].1.patch,
        r##"{"__ptr":"#FNIS$Fu6","bindings":[{"memberPath":"bIsActive0","variableIndex":"$variableIDbSeated$","bitIndex":-1,"bindingType":"BINDING_TYPE_VARIABLE"}],"indexOfBindingToEnable":-1}"##
    );
    assert!(one[7].1.patch.contains(r#""name":"FNISCG_3""#));
    assert!(one[8].1.patch.contains(r##"{"localTime":-0.05,"event":{"id":130,"payload":"#0000"},"relativeToEndOfClip":true"##));
    assert!(one[8].1.patch.contains(r##"{"localTime":-0.2,"event":{"id":"$eventID[SitExit]$","payload":"#0000"},"relativeToEndOfClip":true"##));
}

#[test]
fn furniture_group_patches() {
    let group = FurnitureGroup {
        animations: vec![
            anim("SitEnter", true, vec!["Book".to_string()], vec![]),
            anim("SitLoop", false, vec![], vec![]),
            anim("SitExit", true, vec![], vec![]),
        ],
    };
    // 10 + 9 + 9 for the animations, 6 for the root, 1 for the first animation's object.
    let ci = names(35);
    let (one, seq, root) = new_furniture_one_group_patches(&group, "Seats", 2, &ci);
    assert_eq!(root, "#FNIS$Fu28");
    assert_eq!(one.len(), 7 + 6 + 6 + 1 + 3);
    let end_id = calculate_hash("#FNIS$Fu19");
    assert!(one[4].1.patch.contains(&format!(r#""toStateId":{end_id}"#)));
    assert_eq!(one[0].1.patch, r##"{"__ptr":"#FNIS$Fu9","data":"Book"}"##);
    assert_eq!(one[19].1.patch, r##"{"__ptr":"#FNIS$Fu34","data":"Book"}"##);
    let root_id = calculate_hash("#FNIS$Fu28");
    assert!(one[20].1.patch.contains(&format!(r##""generator":"#FNIS$Fu32","name":"FNIS_Furniture{root_id}_State","stateId":{root_id}"##)));
    assert_eq!(seq.len(), 3 * 3 + 2 + 2);
    assert!(seq[11].1.patch.contains(&format!(r##""transition":"#5216","condition":"#0000","eventId":"$eventID[SitEnter]$","toStateId":{root_id}"##)));
    assert_eq!(seq[12].1.patch, r##"["#FNIS$Fu28"]"##);
}

#[test]
fn furniture_entries_need_the_character() {
    let group = FurnitureGroup { animations: vec![anim("A", true, vec![], vec![]), anim("B", true, vec![], vec![])] };
    let ctx = |object: &str| ListContext {
        list_path: "FNIS_Seats_List.txt".to_string(),
        namespace: "Seats".to_string(),
        priority: 0,
        behavior_object: object.to_string(),
        master_string_data_index: "#0083".to_string(),
        master_value_set_index: "#0084".to_string(),
        master_behavior_graph_index: "#0085".to_string(),
    };
    let entries = vec![FnisListEntry::Furniture(group)];
    let err = generate_patch(&entries, &ctx("dog"), &vec![names(24)]).unwrap_err();
    assert_eq!(
        err,
        FnisPatchGenerationError::UnsupportedFurnitureAnimationToCreature { path: "FNIS_Seats_List.txt".to_string() }
    );
    let patch = generate_patch(&entries, &ctx("character"), &vec![names(24)]).unwrap();
    assert_eq!(patch.animation_paths, vec!["A.hkx", "B.hkx"]);
    assert_eq!(patch.furniture_group_root_indexes, vec!["#FNIS$Fu18"]);
    assert_eq!(patch.one_mt_behavior_patches.len(), 6 + 6 + 3);
}

#[test]
fn furniture_behavior_builder() {
    let anim = FurnitureAnimation::new(flags(false), "ChairSit".to_string(), "chair_sit".to_string(), vec![]);
    let mut one = OnePatchMap::new();
    let mut seq = SeqPatchMap::new();
    anim.build_behavior(&mut one, &mut seq, "EAS", 3);
    assert_eq!(one.len(), 9);
    assert_eq!(seq.len(), 2);
    let key = |a: &str, b: &str| vec![a.to_string(), b.to_string()];
    let machine = one.0.get(&key("#FNIS_EAS$0", "hkbStateMachine")).unwrap().patch.clone();
    assert!(machine.starts_with(r##"{"__ptr":"#FNIS_EAS$0","name":"EAS_ChairEU_SmallTableSelector","variableBindingSet":"#0000""##));
    assert!(machine.contains(r##""states":["#FNIS_EAS$6"]"##));
    let id = hash("chair_sit");
    let group = one.0.get(&key("#FNIS_EAS$2", "hkbStateMachineStateInfo")).unwrap().patch.clone();
    assert!(group.contains(&format!(r#""name":"EAS__State","stateId":{id}"#)));
    let clip = one.0.get(&key("#FNIS_EAS$3", "hkbClipGenerator")).unwrap().patch.clone();
    assert!(clip.contains(r#""animationName":"Animations\\chair_sit.hkx""#));
    let states = one.0.get(&vec!["#4002".to_string(), "hkbStateMachine".to_string(), "states".to_string()]).unwrap().clone();
    assert_eq!(states.patch, r##""#FNIS_EAS$2""##);
    assert_eq!(states.priority, 3);
    let exit = seq.0.get(&key("#FNIS_EAS$5", "hkbStateMachineEventPropertyArray")).unwrap().clone();
    assert_eq!(exit.len(), 1);
    assert_eq!(exit[0].patch, r##"{"__ptr":"#FNIS_EAS$4","events":[{"id":14,"payload":"#0000"}]}"##);
}
