use nemesis_merge::fnis_paths::{
    anim_event_hack, behavior_file_name, behavior_path, get_fnis_namespace, list_file_name,
    namespace_of_animations, normalize_hkx_path, trim_till_animations, FnisError,
    OwnedFnisInjection,
};

fn parse_fnis(path: &str) -> &str {
    get_fnis_namespace(path).unwrap_or_else(|e| panic!("{e:?}"))
}

#[test]
fn test_parse_relative_path() {
    // windows
    let s = r"D:\Game\Data\Meshes\actors\character\animations\FNISTest\Foo.hkx";
    let rel = trim_till_animations(s).unwrap();
    assert_eq!(rel, r"FNISTest\Foo.hkx");

    // unix
    let s = "/mnt/data/Meshes/actors/character/animations/FNISTest/Foo.hkx";
    let rel = trim_till_animations(s).unwrap();
    assert_eq!(rel, "FNISTest/Foo.hkx");
}

#[test]
fn test_normalize_hkx_path() {
    // windows
    let path = r"D:\Game\Data\Meshes\actors\character\animations\FNISFlyer\FNISfl_Back.hkx";
    let normalized = normalize_hkx_path(path).unwrap();
    assert_eq!(normalized, r"Animations\FNISFlyer\FNISfl_Back.hkx");

    // unix
    let path = "/mnt/data/Meshes/actors/character/animations/FNISFlyer/FNISfl_Back.hkx";
    let normalized = normalize_hkx_path(path).unwrap();
    assert_eq!(normalized, r"Animations\FNISFlyer\FNISfl_Back.hkx");

    // mix
    let path = "/mnt/data\\Meshes/actors/character/animations/FNISFlyer\\FNISfl_Back.hkx";
    let normalized = normalize_hkx_path(path).unwrap();
    assert_eq!(normalized, r"Animations\FNISFlyer\FNISfl_Back.hkx");
}

#[test]
fn parse_fnis_basic() {
    let actual = parse_fnis(
        r"D:\Programming\rust\d-merge\dummy\fnis_test_mods\FNIS Flyer SE 7.0\Data\Meshes\actors\character\animations\FNISFlyer\FNISfl_Back_ac.hkx",
    );
    assert_eq!(actual, "FNISFlyer");
}

#[test]
fn parse_fnis_unix_path() {
    let actual =
        parse_fnis("/some/path/Meshes/actors/character/animations/FNISFlyer/FNISfl_Back_ac.hkx");
    assert_eq!(actual, "FNISFlyer");
}

#[test]
fn parse_fnis_invalid() {
    // Missing "animations"
    let input_path = "/Meshes/actors/character/behaviors/FNIS_FNISFlyer_Behavior.hkx";
    assert!(get_fnis_namespace(input_path).is_err());
}

#[test]
fn fnis_namespace_error_names_the_path() {
    let input_path = "/Meshes/actors/character/behaviors/FNIS_FNISFlyer_Behavior.hkx";
    match get_fnis_namespace(input_path) {
        Err(FnisError::FailedParseFnisPatchPath { path }) => assert_eq!(path, input_path),
        other => panic!("unexpected {other:?}"),
    }
}

#[test]
fn fnis_namespace_needs_a_file_after_the_directory() {
    // The namespace directory must be followed by a separator.
    assert!(get_fnis_namespace("meshes/actors/character/animations/FNISFlyer").is_err());
    assert!(get_fnis_namespace("meshes/actors/character/animations/").is_err());
    assert_eq!(
        get_fnis_namespace("MESHES\\Actors\\Character\\Animations\\Ns\\a.hkx").unwrap(),
        "Ns"
    );
}

#[test]
fn trim_till_animations_without_animations_dir() {
    assert_eq!(trim_till_animations("meshes/actors/character/behaviors/x.hkx"), None);
    assert_eq!(trim_till_animations("meshes/actors/character/animations/"), None);
}

#[test]
fn normalize_hkx_path_rejects_other_dirs() {
    assert_eq!(normalize_hkx_path("data/meshes/actors/dog/animations/a.hkx"), None);
}

#[test]
fn anim_event_hack_prefixes_flyer_events_only() {
    assert_eq!(
        anim_event_hack("FNISFlyer", "FNISfl_BackUp2_fm"),
        "FNISFlyer_FNISfl_BackUp2_fm"
    );
    assert_eq!(anim_event_hack("FNISZoo", "FNISzoo_Idle"), "FNISzoo_Idle");
}

#[test]
fn fnis_file_names() {
    assert_eq!(list_file_name("FNISFlyer"), "FNIS_FNISFlyer_List.txt");
    assert_eq!(behavior_file_name("FNISFlyer"), "FNIS_FNISFlyer_Behavior.hkx");
    assert_eq!(behavior_path("FNISFlyer"), r"Behaviors\FNIS_FNISFlyer_Behavior.hkx");
}

#[test]
fn fnis_injection_behavior_name() {
    let injection = OwnedFnisInjection {
        namespace: "FNISFlyer".to_string(),
        priority: 0,
        list_content: String::new(),
        animation_paths: vec![],
        behavior_path: behavior_path("FNISFlyer"),
    };
    assert_eq!(injection.behavior_name(), "FNIS_FNISFlyer_Behavior");

    let no_dir = OwnedFnisInjection {
        namespace: "X".to_string(),
        priority: 1,
        list_content: String::new(),
        animation_paths: vec![],
        behavior_path: "plain.txt".to_string(),
    };
    assert_eq!(no_dir.behavior_name(), "plain.txt");
}

#[test]
fn namespace_of_animation_paths() {
    let empty: Vec<String> = vec![];
    match namespace_of_animations("mods/Flyer", &empty) {
        Err(FnisError::MissingNameSpace { path }) => assert_eq!(path, "mods/Flyer"),
        other => panic!("unexpected {other:?}"),
    }

    let paths = vec![
        "/d/meshes/actors/character/animations/FNISFlyer/a.hkx".to_string(),
        "/d/meshes/actors/character/animations/Other/b.hkx".to_string(),
    ];
    assert_eq!(namespace_of_animations("mods/Flyer", &paths).unwrap(), "FNISFlyer");

    // Already normalized paths carry no `meshes` directory.
    let normalized = vec![r"Animations\FNISFlyer\a.hkx".to_string()];
    assert!(matches!(
        namespace_of_animations("mods/Flyer", &normalized),
        Err(FnisError::FailedParseFnisPatchPath { .. })
    ));
}
