use nemesis_merge::bdi::bdi_entries;
use nemesis_merge::behaviors::{creatures, humanoid, skeletons};
use nemesis_merge::fnis_paths::normalize_hkx_path;
use nemesis_merge::group_names::AAGroupName;
use nemesis_merge::nemesis_path::parse_nemesis_path;
use nemesis_merge::oar::new_fnis_aa_slot_config;
use nemesis_merge::patch_map::{OnePatchMap, ValueWithPriority};
use nemesis_merge::templates::{MasterIndex, TemplateKey};

#[test]
fn normalized_paths_start_with_animations_and_use_backslashes() {
    for p in [
        "/a/Meshes/actors/character/animations/X/y/z.hkx",
        r"C:\d\meshes\actors\character\animations\X\y.hkx",
        "meshes/actors/character/animations/X",
    ] {
        let n = normalize_hkx_path(p).unwrap();
        assert!(n.starts_with(r"Animations\"));
        assert!(!n.contains('/'));
    }
}

#[test]
fn engine_ext_paths_always_have_a_template() {
    for p in [
        "Nemesis_EngineExt/mod/a/meshes/x/#1.txt",
        r"D:\m\Nemesis_EngineExt\mod\b\meshes\actors\dog\behaviors\dog.bin\#0001.txt",
    ] {
        let parsed = parse_nemesis_path(p).unwrap();
        assert!(parsed.to_template_key().is_some());
        assert_eq!(parsed.get_variable_index(), None);
    }
}

#[test]
fn master_indexes_belong_to_templates() {
    for stem in ["0_master", "1hm_behavior", "mt_behavior", "bearbehavior", "unknown"] {
        for first in [false, true] {
            if MasterIndex::from_nemesis_file(stem, first).is_some() {
                assert!(TemplateKey::from_nemesis_file(stem, first).is_some());
            }
            if let Some(k) = TemplateKey::from_nemesis_file(stem, first) {
                assert!(k.as_str().to_ascii_lowercase().starts_with("meshes"));
            }
        }
    }
}

#[test]
fn group_ids_are_distinct() {
    let groups = [
        AAGroupName::MtIdle,
        AAGroupName::OneHmIdle,
        AAGroupName::MagMt,
        AAGroupName::OneHmEqp,
        AAGroupName::TwoHwEqp,
        AAGroupName::Shout,
        AAGroupName::Shield,
    ];
    for (i, a) in groups.iter().enumerate() {
        for b in &groups[i + 1..] {
            assert_ne!(a.group_id(), b.group_id());
        }
    }
}

fn one_map(entries: &[(&str, &str, usize)]) -> OnePatchMap {
    let mut m = OnePatchMap::new();
    for (k, v, p) in entries {
        m.insert(vec![k.to_string()], ValueWithPriority { patch: v.to_string(), priority: *p });
    }
    m
}

#[test]
fn merge_priorities_do_not_depend_on_order() {
    let a = [("x", "a", 1), ("y", "a", 7)];
    let b = [("x", "b", 4), ("z", "b", 2)];
    let mut ab = one_map(&a);
    ab.merge(one_map(&b));
    let mut ba = one_map(&b);
    ba.merge(one_map(&a));
    for k in ["x", "y", "z"] {
        let key = vec![k.to_string()];
        assert_eq!(ab.0.get(&key).unwrap().priority, ba.0.get(&key).unwrap().priority);
    }
    assert_eq!(ab.0.get(&vec!["x".to_string()]).unwrap().patch, "b");
}

#[test]
fn slot_condition_variables_are_registered_by_bdi() {
    let names: Vec<String> =
        bdi_entries(&humanoid("character").unwrap()).into_iter().map(|e| e.name).collect();
    for g in [AAGroupName::OneHmEqp, AAGroupName::MtIdle, AAGroupName::SneakIdle, AAGroupName::Shield] {
        let c = new_fnis_aa_slot_config("d", g, 0, 1, None, None);
        assert!(names.contains(&c.condition_variable));
    }
    // The two groups without an `FNISaa_*` variable in the BDI config.
    for g in [AAGroupName::Shout, AAGroupName::MagAtk] {
        let c = new_fnis_aa_slot_config("d", g, 0, 1, None, None);
        assert!(!names.contains(&c.condition_variable));
    }
}

#[test]
fn only_draugr_is_both_creature_and_skeleton() {
    assert!(creatures("draugr").is_some() && skeletons("draugr").is_some());
    for k in ["bear", "dog", "chaurus", "dragon", "troll", "wolf", "horse", "character"] {
        assert!(!(creatures(k).is_some() && skeletons(k).is_some()));
    }
}
