use nemesis_merge::error::Error;
use nemesis_merge::nemesis_patches::{ParsedPatch, PatchAction};
use nemesis_merge::patch_map::{HkxPatchMaps, ValueWithPriority};
use nemesis_merge::template_patches::{
    collect_borrowed_patches, BehaviorStringDataMap, ParsedPatchFile, PatchAggregate,
    RawBorrowedPatches,
};
use nemesis_merge::templates::TemplateKey;

fn patch(path: &[&str], action: PatchAction, text: &str) -> ParsedPatch {
    ParsedPatch { path: path.iter().map(|s| s.to_string()).collect(), action, patch: text.to_string() }
}

fn file(path: &str, patches: Vec<ParsedPatch>, index: Option<&str>, priority: usize) -> ParsedPatchFile {
    ParsedPatchFile {
        path: path.to_string(),
        patches,
        parsed_var_index: index.map(str::to_string),
        priority,
    }
}

fn key(s: &str) -> TemplateKey {
    TemplateKey::new(s.to_string()).unwrap()
}

const MASTER: &str = "meshes/actors/character/behaviors/0_master.bin";

#[test]
fn gathers_files_by_template() {
    let files = vec![
        file(
            "Nemesis_Engine/mod/aaa/0_master/#0106.txt",
            vec![
                patch(&["#0106", "name"], PatchAction::Pure, "low"),
                patch(&["#0106", "events"], PatchAction::SeqPush, "a"),
            ],
            None,
            1,
        ),
        file("Nemesis_Engine/mod/bad/not_a_template/#1.txt", vec![], None, 2),
        file(
            "Nemesis_Engine/mod/bbb/0_master/#0106.txt",
            vec![
                patch(&["#0106", "name"], PatchAction::Pure, "high"),
                patch(&["#0106", "events"], PatchAction::SeqPush, "b"),
            ],
            None,
            3,
        ),
        file("not a nemesis path", vec![], None, 4),
        file(
            "Nemesis_EngineExt/mod/ccc/meshes/actors/dog/behaviors/dog.bin/#0001.txt",
            vec![patch(&["#0001", "x"], PatchAction::SeqRange, "c")],
            Some("#0042"),
            5,
        ),
    ];
    let (agg, errors) = collect_borrowed_patches(PatchAggregate::new(), files);

    assert_eq!(errors.len(), 2);
    assert!(matches!(&errors[0], Error::FailedToCastNemesisPathToTemplateKey { path } if path == "Nemesis_Engine/mod/bad/not_a_template/#1.txt"));
    assert!(matches!(&errors[1], Error::FailedParseNemesisPath { path } if path == "not a nemesis path"));

    let master = agg.patches.0.get(&key(MASTER)).unwrap();
    let name: Vec<String> = vec!["#0106".into(), "name".into()];
    assert_eq!(*master.one.0.get(&name).unwrap(), ValueWithPriority { patch: "high".into(), priority: 3 });
    let events: Vec<String> = vec!["#0106".into(), "events".into()];
    assert_eq!(
        *master.seq.0.get(&events).unwrap(),
        vec![
            ValueWithPriority { patch: "a".into(), priority: 1 },
            ValueWithPriority { patch: "b".into(), priority: 3 },
        ]
    );
    assert_eq!(agg.patches.0.len(), 2);

    assert_eq!(*agg.variable_class_map.0.get(&key(MASTER)).unwrap(), "#0108");
    let dog = key("meshes/actors/dog/behaviors/dog.bin");
    assert_eq!(*agg.variable_class_map.0.get(&dog).unwrap(), "#0042");
}

#[test]
fn nemesis_patches_go_on_top_of_base() {
    let mut base = PatchAggregate::new();
    let mut maps = HkxPatchMaps::new();
    maps.one.insert(vec!["#0106".into(), "name".into()], ValueWithPriority { patch: "fnis".into(), priority: 9 });
    base.patches.add(key(MASTER), maps);
    base.variable_class_map.or_insert(key(MASTER), "#9999".into());

    let files = vec![file(
        "Nemesis_Engine/mod/aaa/0_master/#0106.txt",
        vec![patch(&["#0106", "name"], PatchAction::Pure, "nemesis")],
        None,
        1,
    )];
    let (agg, errors) = collect_borrowed_patches(base, files);
    assert!(errors.is_empty());
    let master = agg.patches.0.get(&key(MASTER)).unwrap();
    let name: Vec<String> = vec!["#0106".into(), "name".into()];
    assert_eq!(master.one.0.get(&name).unwrap().patch, "fnis");
    assert_eq!(*agg.variable_class_map.0.get(&key(MASTER)).unwrap(), "#0108");
}

#[test]
fn string_data_map_or_insert_and_extend() {
    let mut a = BehaviorStringDataMap::new();
    a.or_insert(key(MASTER), "#1".into());
    a.or_insert(key(MASTER), "#2".into());
    assert_eq!(*a.0.get(&key(MASTER)).unwrap(), "#1");
    let mut b = BehaviorStringDataMap::new();
    b.or_insert(key(MASTER), "#3".into());
    a.extend(b);
    assert_eq!(*a.0.get(&key(MASTER)).unwrap(), "#3");
}

#[test]
fn raw_patches_merge_by_template() {
    let mut a = RawBorrowedPatches::new();
    let mut b = RawBorrowedPatches::new();
    let mut m1 = HkxPatchMaps::new();
    m1.seq.insert(vec!["p".into()], ValueWithPriority { patch: "1".into(), priority: 0 });
    let mut m2 = HkxPatchMaps::new();
    m2.seq.insert(vec!["p".into()], ValueWithPriority { patch: "2".into(), priority: 0 });
    a.add(key(MASTER), m1);
    b.add(key(MASTER), m2);
    b.add(key("meshes/x.bin"), HkxPatchMaps::new());
    a.merge(b);
    assert_eq!(a.0.len(), 2);
    let master = a.0.get(&key(MASTER)).unwrap();
    assert_eq!(master.seq.0.get(&vec!["p".to_string()]).unwrap().len(), 2);
}

#[test]
fn engine_ext_paths_that_compare_equal_share_a_template() {
    let files = vec![
        file(
            "Nemesis_EngineExt/mod/aaa/meshes/actors/dog/behaviors/dog.bin/#0001.txt",
            vec![patch(&["#0001", "x"], PatchAction::SeqPush, "a")],
            None,
            1,
        ),
        file(
            "Nemesis_EngineExt/mod/bbb/meshes/actors//dog/./behaviors/dog.bin/#0001.txt",
            vec![patch(&["#0001", "x"], PatchAction::SeqPush, "b")],
            None,
            2,
        ),
    ];
    let (agg, errors) = collect_borrowed_patches(PatchAggregate::new(), files);
    assert!(errors.is_empty());
    assert_eq!(agg.patches.0.len(), 1);
    let dog = agg.patches.0.get(&key("meshes/actors/dog/behaviors/dog.bin")).unwrap();
    let x: Vec<String> = vec!["#0001".into(), "x".into()];
    assert_eq!(dog.seq.0.get(&x).unwrap().len(), 2);
}
