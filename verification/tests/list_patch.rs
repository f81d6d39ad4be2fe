use nemesis_merge::anim_var::{AnimVar, AnimVarValue};
use nemesis_merge::chair::ChairAnimation;
use nemesis_merge::fnis_anim::{FnisAnimFlags, FnisAnimation};
use nemesis_merge::kill_move::{PairedAndKillAnimation, Trigger};
use nemesis_merge::list_patch::{
    generate_patch, new_injectable_mod_root_behavior, FnisListEntry, FnisPatchGenerationError,
    ListContext, PairedKind, SequencedAnim,
};

fn ctx(namespace: &str, object: &str) -> ListContext {
    ListContext {
        list_path: format!("meshes/actors/{object}/animations/{namespace}/FNIS_{namespace}_List.txt"),
        namespace: namespace.to_string(),
        priority: 1,
        behavior_object: object.to_string(),
        master_string_data_index: "#0083".to_string(),
        master_value_set_index: "#0084".to_string(),
        master_behavior_graph_index: "#0085".to_string(),
    }
}

fn flags() -> FnisAnimFlags {
    FnisAnimFlags {
        acyclic: false,
        anim_objects: false,
        head_tracking: false,
        animated_camera_set: false,
        animated_camera_reset: false,
    }
}

fn kill_move() -> FnisListEntry {
    FnisListEntry::PairAndKillMove {
        kind: PairedKind::KillMove,
        anim: PairedAndKillAnimation {
            anim_event: "grab".to_string(),
            anim_file: "grab.hkx".to_string(),
            flags: flags(),
            duration: "2.0".to_string(),
            triggers: vec![Trigger { event: "Hit".to_string(), time: "1.0".to_string() }],
            triggers2: vec![Trigger { event: "Fall".to_string(), time: "1.5".to_string() }],
            anim_objects: vec![],
        },
        known: false,
    }
}

fn offset_arm() -> FnisListEntry {
    FnisListEntry::OffsetArm {
        anim: FnisAnimation {
            anim_event: "wave".to_string(),
            anim_file: "wave.hkx".to_string(),
            flags: flags(),
            anim_objects: vec![],
        },
        known: true,
    }
}

fn names(n: usize, tag: &str) -> Vec<String> {
    (0..n).map(|i| format!("#FNIS${tag}{i}")).collect()
}

#[test]
fn list_patch_collects_entries_in_order() {
    let entries = vec![
        FnisListEntry::Basic { anim_event: "Flap".to_string(), anim_file: "flap.hkx".to_string(), known: false },
        kill_move(),
        offset_arm(),
        FnisListEntry::Chair(ChairAnimation {
            anim_event: "Sit".to_string(),
            anim_file: "sit.hkx".to_string(),
            anim_vars: vec![],
            anim_objects: vec![],
            sequenced: vec!["idle.hkx".to_string()],
        }),
        FnisListEntry::AnimVar(AnimVar { name: "bFlying".to_string(), value: AnimVarValue::Bool(false) }),
    ];
    let class_names = vec![vec![], names(26, "K"), names(5, "O"), names(19, "C"), vec![]];
    let patch = generate_patch(&entries, &ctx("FNISFlyer", "character"), &class_names).unwrap();
    assert_eq!(patch.animation_paths, vec!["flap.hkx", "grab.hkx", "sit.hkx", "idle.hkx"]);
    assert_eq!(patch.events, vec!["FNISFlyer_Flap", "Hit", "Fall"]);
    assert_eq!(patch.one_master_patches.len(), 26);
    assert_eq!(patch.seq_master_patches.len(), 2 + 3);
    assert_eq!(patch.seq_master_patches[4].1.patch, r#"[{"role":{"role":"ROLE_DEFAULT","flags":"0"},"type":"VARIABLE_TYPE_BOOL"}]"#);
    assert_eq!(patch.one_mt_behavior_patches[0].0[0], "#FNIS$O0");
    assert_eq!(patch.one_mt_behavior_patches.len(), 5 + 19);
}

#[test]
fn list_patch_refuses_paired_entries_for_creatures() {
    let entries = vec![offset_arm(), kill_move()];
    let class_names = vec![names(5, "O"), names(26, "K")];
    let err = generate_patch(&entries, &ctx("Dogs", "dog"), &class_names).unwrap_err();
    assert_eq!(
        err,
        FnisPatchGenerationError::UnsupportedOffsetArmAnimationToCreature {
            path: "meshes/actors/dog/animations/Dogs/FNIS_Dogs_List.txt".to_string()
        }
    );
    let err = generate_patch(&vec![kill_move()], &ctx("Dogs", "character/_1stperson"), &vec![names(26, "K")]).unwrap_err();
    assert_eq!(
        err,
        FnisPatchGenerationError::UnsupportedPairAndKillMoveForCreature {
            path: "meshes/actors/character/_1stperson/animations/Dogs/FNIS_Dogs_List.txt".to_string()
        }
    );
    let basic_only = vec![FnisListEntry::Basic { anim_event: "Bark".to_string(), anim_file: "bark.hkx".to_string(), known: true }];
    let patch = generate_patch(&basic_only, &ctx("Dogs", "dog"), &vec![vec![]]).unwrap();
    assert!(patch.animation_paths.is_empty());
    assert_eq!(patch.events, vec!["Bark"]);
}

#[test]
fn mod_root_behavior_patches() {
    let patches = new_injectable_mod_root_behavior("Zoo", 3, "Behaviors\\FNIS_Zoo_Behavior.hkx", "#1831", "#FNIS$G", "#FNIS$S");
    assert_eq!(patches.len(), 3);
    assert_eq!(
        patches[0].1.patch,
        r##"{"__ptr":"#FNIS$G","variableBindingSet":"#0000","userData":0,"name":"FNIS_ROOT_BFR_Zoo_3","behaviorName":"Behaviors\\FNIS_Zoo_Behavior.hkx"}"##
    );
    assert!(patches[1].1.patch.contains(r##""generator":"#FNIS$G","name":"FNIS_State3","stateId":1003,"##));
    assert_eq!(patches[2].0, vec!["#1831".to_string(), "hkbStateMachine".to_string(), "states".to_string()]);
    assert_eq!(patches[2].1.patch, r##"["#FNIS$S"]"##);
}

#[test]
fn list_patch_keeps_each_file_and_event_once() {
    let basic = || FnisListEntry::Basic { anim_event: "Bark".to_string(), anim_file: "bark.hkx".to_string(), known: false };
    let sequenced = FnisListEntry::Sequenced {
        animations: vec![
            SequencedAnim { anim_event: "Sit1".to_string(), anim_file: "sit1.hkx".to_string(), known: false },
            SequencedAnim { anim_event: "Bark".to_string(), anim_file: "bark.hkx".to_string(), known: false },
            SequencedAnim { anim_event: "Sit2".to_string(), anim_file: "sit2.hkx".to_string(), known: true },
        ],
    };
    let entries = vec![basic(), basic(), sequenced];
    let patch = generate_patch(&entries, &ctx("Dogs", "dog"), &vec![vec![], vec![], vec![]]).unwrap();
    assert_eq!(patch.animation_paths, vec!["bark.hkx", "sit1.hkx"]);
    assert_eq!(patch.events, vec!["Bark", "Sit1", "Sit2"]);
}
