use nemesis_merge::chair::build_anim_files;
use nemesis_merge::error::Error;
use nemesis_merge::group_names::AAGroupName;
use nemesis_merge::nemesis_patches::{collect_file_patches, ParsedPatch, PatchAction};
use nemesis_merge::oar::{
    new_fnis_aa_slot_config, prepare_namespace_config, slot_config_dir_name, NamespaceConfig,
};
use nemesis_merge::patch_map::ValueWithPriority;

#[test]
fn namespace_config_defaults_to_namespace() {
    assert_eq!(
        prepare_namespace_config("XPMSE", None, None, None),
        NamespaceConfig { name: "XPMSE", description: "", author: "" }
    );
    assert_eq!(
        prepare_namespace_config("XPMSE", Some("XP32"), Some("styles"), Some("me")),
        NamespaceConfig { name: "XP32", description: "styles", author: "me" }
    );
    assert_eq!(
        prepare_namespace_config("XPMSE", None, Some("d"), None),
        NamespaceConfig { name: "XPMSE", description: "d", author: "" }
    );
}

#[test]
fn slot_dir_names() {
    assert_eq!(slot_config_dir_name("xpe", "_1hmeqp", 0, None), "xpe_1hmeqp_1");
    assert_eq!(slot_config_dir_name("xpe", "_1hmeqp", 9, None), "xpe_1hmeqp_10");
    assert_eq!(
        slot_config_dir_name("xpe", "_1hmeqp", 1, Some("IA Sword at Back")),
        "IA Sword at Back"
    );
}

#[test]
fn slot_config_values() {
    let c = new_fnis_aa_slot_config("xpe_1hmeqp_1", AAGroupName::OneHmEqp, 0, 6, None, None);
    assert_eq!(c.name, "xpe_1hmeqp_1");
    assert_eq!(c.description, "base(6) + value(0)");
    assert_eq!(c.priority, i32::MAX);
    assert_eq!(c.condition_variable, "FNISaa_1hmeqp");
    assert_eq!(c.condition_value, 6);

    let c = new_fnis_aa_slot_config("d", AAGroupName::MtIdle, 1, 6, Some("Back"), Some(5000));
    assert_eq!(c.description, "Back");
    assert_eq!(c.priority, 5000);
    assert_eq!(c.condition_variable, "FNISaa_mtidle");
    assert_eq!(c.condition_value, 7);

    // A priority above `i32::MAX` wraps.
    let c = new_fnis_aa_slot_config("d", AAGroupName::DW, 0, 0, None, Some(u32::MAX));
    assert_eq!(c.priority, -1);
}

#[test]
fn chair_files_reuse_last_animation() {
    let files = build_anim_files("Chairs", "start.hkx", &vec!["a.hkx", "b.hkx"]);
    assert_eq!(
        files,
        [
            r"Animations\Chairs\start.hkx".to_string(),
            r"Animations\Chairs\a.hkx".to_string(),
            r"Animations\Chairs\b.hkx".to_string(),
            r"Animations\Chairs\b.hkx".to_string(),
            r"Animations\Chairs\b.hkx".to_string(),
        ]
    );
    let only_start = build_anim_files("N", "s.hkx", &vec![]);
    for f in &only_start {
        assert_eq!(f, r"Animations\N\s.hkx");
    }
    let full = build_anim_files("N", "s", &vec!["1", "2", "3", "4", "5"]);
    assert_eq!(full[4], r"Animations\N\4");
}

fn patch(path: &[&str], action: PatchAction, text: &str) -> ParsedPatch {
    ParsedPatch {
        path: path.iter().map(|s| s.to_string()).collect(),
        action,
        patch: text.to_string(),
    }
}

#[test]
fn file_patches_are_sorted_by_kind() {
    let patches = vec![
        patch(&["#0106", "a"], PatchAction::Pure, "1"),
        patch(&["#0106", "a"], PatchAction::Pure, "2"),
        patch(&["#0106", "list"], PatchAction::SeqPush, "x"),
        patch(&["#0106", "list"], PatchAction::SeqRange, "y"),
    ];
    let r = collect_file_patches("Nemesis_Engine/mod/flinch/0_master/#0106.txt", patches, None, 4)
        .unwrap();
    assert_eq!(r.template.as_str(), "meshes/actors/character/behaviors/0_master.bin");
    assert_eq!(r.variable_class_index.as_deref(), Some("#0108"));
    let key: Vec<String> = vec!["#0106".into(), "a".into()];
    assert_eq!(r.maps.one.len(), 1);
    assert_eq!(
        *r.maps.one.0.get(&key).unwrap(),
        ValueWithPriority { patch: "1".to_string(), priority: 4 }
    );
    let list: Vec<String> = vec!["#0106".into(), "list".into()];
    assert_eq!(
        *r.maps.seq.0.get(&list).unwrap(),
        vec![
            ValueWithPriority { patch: "x".to_string(), priority: 4 },
            ValueWithPriority { patch: "y".to_string(), priority: 4 },
        ]
    );
}

#[test]
fn file_patches_of_engine_ext_use_parsed_index() {
    let path = "Nemesis_EngineExt/mod/slide/meshes/actors/character/behaviors/weapequip.bin/#0001.txt";
    let r = collect_file_patches(path, vec![], Some("#0099"), 1).unwrap();
    assert_eq!(r.template.as_str(), "meshes/actors/character/behaviors/weapequip.bin");
    assert_eq!(r.variable_class_index.as_deref(), Some("#0099"));
    assert_eq!(r.maps.one.len(), 0);
    let r = collect_file_patches(path, vec![], None, 1).unwrap();
    assert_eq!(r.variable_class_index, None);
}

#[test]
fn file_patches_errors() {
    match collect_file_patches("Engine/mod/a/0_master/#1.txt", vec![], None, 0) {
        Err(Error::FailedParseNemesisPath { path }) => assert_eq!(path, "Engine/mod/a/0_master/#1.txt"),
        _ => panic!("expected a path error"),
    }
    let unknown = "Nemesis_Engine/mod/a/not_a_template/#1.txt";
    match collect_file_patches(unknown, vec![], None, 0) {
        Err(Error::FailedToCastNemesisPathToTemplateKey { path }) => assert_eq!(path, unknown),
        _ => panic!("expected a template error"),
    }
}
