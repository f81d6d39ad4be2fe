use nemesis_merge::fnis_anim::{FnisAnimFlags, FnisAnimation};
use nemesis_merge::hashing::calculate_hash;
use nemesis_merge::json::{json_array_text, json_object_text, json_string_text};
use nemesis_merge::offset_arm::new_offset_arm_patches;
use nemesis_merge::templates::MasterIndex;

#[test]
fn json_text_escapes_strings() {
    assert_eq!(json_string_text(r#"a"b\c"#), r#""a\"b\\c""#);
    assert_eq!(json_string_text("x\ny\u{1}"), "\"x\\ny\\u0001\"");
    assert_eq!(json_string_text(""), "\"\"");
    let obj = json_object_text(&vec![("a", "1".to_string()), ("b", json_string_text("x"))]);
    assert_eq!(obj, r#"{"a":1,"b":"x"}"#);
    assert_eq!(json_object_text(&vec![]), "{}");
    assert_eq!(json_array_text(&vec!["1".to_string(), "2".to_string()]), "[1,2]");
    assert_eq!(json_array_text(&vec![]), "[]");
}

fn class_indexes(n: usize) -> Vec<String> {
    (0..n).map(|i| format!("#FNIS$Arm{i}")).collect()
}

#[test]
fn offset_arm_patches_without_objects() {
    let anim = FnisAnimation {
        anim_event: "arm".to_string(),
        anim_file: "arm.hkx".to_string(),
        flags: FnisAnimFlags {
            acyclic: false,
            anim_objects: false,
            head_tracking: false,
            animated_camera_set: false,
            animated_camera_reset: false,
        },
        anim_objects: vec![],
    };
    let ci = class_indexes(5);
    let (one, seq) = new_offset_arm_patches(&anim, "Arms", 3, &ci);
    assert_eq!(one.len(), 5);
    assert_eq!(seq.len(), 2);

    assert_eq!(one[0].0, vec![ci[0].clone(), "hkbStateMachineStateInfo".to_string()]);
    let id = calculate_hash("FNIS_RightOffset3");
    assert_eq!(
        one[0].1.patch,
        format!(
            r##"{{"__ptr":"#FNIS$Arm0","variableBindingSet":"#0000","listeners":[],"enterNotifyEvents":"#0000","exitNotifyEvents":"#0000","transitions":"#5111","generator":"#FNIS$Arm1","name":"FNIS_RightOffset3","stateId":{id},"probability":1.0,"enable":true}}"##
        )
    );
    assert_eq!(one[0].1.priority, 3);
    assert!(one[1].1.patch.contains(r#""animationName":"Animations\\Arms\\arm.hkx""#));
    assert!(one[1].1.patch.contains(r#""mode":"MODE_LOOPING""#));
    assert!(one[2].1.patch.contains(r#""enterNotifyEvents":"FNIS_aa_global_auto_gen5219""#));
    assert!(one[2].1.patch.contains(r##""transitions":"#5152""##));
    assert_eq!(
        one[4].1.patch,
        r##"{"__ptr":"#FNIS$Arm4","events":[{"id":20,"payload":"#0000"}]}"##
    );
    assert_eq!(
        seq[1].0,
        vec!["#5138".to_string(), "hkbStateMachine".to_string(), "states".to_string()]
    );
    assert_eq!(seq[1].1.patch, r##"["#FNIS$Arm0","#FNIS$Arm2"]"##);
    assert!(seq[0].1.patch.contains(r#""eventId":"$eventID[FNIS_RightOffsetCG3]$""#));
}

#[test]
fn offset_arm_patches_with_objects() {
    let anim = FnisAnimation {
        anim_event: "arm".to_string(),
        anim_file: "arm.hkx".to_string(),
        flags: FnisAnimFlags {
            acyclic: true,
            anim_objects: true,
            head_tracking: true,
            animated_camera_set: false,
            animated_camera_reset: false,
        },
        anim_objects: vec!["AnimObjectSword".to_string()],
    };
    let ci = class_indexes(6);
    let (one, _) = new_offset_arm_patches(&anim, "Arms", 0, &ci);
    assert_eq!(one.len(), 6);
    assert_eq!(one[0].0, vec![ci[5].clone(), "hkbStringEventPayload".to_string()]);
    assert_eq!(one[0].1.patch, r##"{"__ptr":"#FNIS$Arm5","data":"AnimObjectSword"}"##);
    assert!(one[2].1.patch.contains(r#""mode":"MODE_SINGLE_PLAY""#));
    assert!(one[3].1.patch.contains(r##""enterNotifyEvents":"#FNIS$Arm4""##));
    assert!(one[3].1.patch.contains(r##""exitNotifyEvents":"#0000""##));
    assert_eq!(
        one[5].1.patch,
        r##"{"__ptr":"#FNIS$Arm4","events":[{"id":393,"payload":"#FNIS$Arm5"},{"id":394,"payload":"#FNIS$Arm5"}]}"##
    );
}

fn index_number(s: &str) -> u32 {
    s[1..].parse().unwrap()
}

#[test]
fn master_graph_index_follows_string_data() {
    for stem in ["0_master", "1hm_behavior", "mt_behavior", "bearbehavior", "magicbehavior"] {
        for first in [false, true] {
            if let Some(m) = MasterIndex::from_nemesis_file(stem, first) {
                assert_eq!(
                    index_number(m.master_behavior_graph_index),
                    index_number(m.master_string_data_index) + 2
                );
            }
        }
    }
}
