use nemesis_merge::template_path::{
    parse_template_path, template_name_and_inner_path, TemplateError,
};
use nemesis_merge::templates::{MasterIndex, TemplateKey};

fn assert_template(path: &str, expected_inner: &str) {
    let result = template_name_and_inner_path(path).unwrap_or_else(|e| panic!("{e:?}"));
    assert_eq!(result.as_str(), expected_inner);
}

#[test]
fn test_regular_path() {
    assert_template(
        r"../../resource/assets/templates/meshes/actors/character/defaultmale_Project.bin",
        r"meshes/actors/character/defaultmale_Project.bin",
    );

    assert_template(
        "data/meshes/actors/character/behaviors/weapequip.xml",
        "meshes/actors/character/behaviors/weapequip.xml",
    );
}

#[test]
fn test_with_backslashes_and_1stperson() {
    assert_template(
        r"data/meshes/actors/character/character assets/_1stperson/skeleton.nif",
        r"meshes/actors/character/character assets/_1stperson/skeleton.nif",
    );
}

#[test]
fn test_with_slashes_and_1stperson() {
    assert_template(
        "Data/Meshes/_1stPerson/something.nif",
        "Meshes/_1stPerson/something.nif",
    );
}

#[test]
fn windows_long_path() {
    assert_template(
        r"D:release-no-lto\assets\templates\meshes\actors\character\_1stperson\characters\firstperson.bin",
        r"meshes\actors\character\_1stperson\characters\firstperson.bin",
    );
    let path = r"\\?\D:\rust\d-merge\target\release-no-lto\assets\templates\meshes\actors\character\_1stperson\behaviors\blockbehavior.bin";
    assert_template(
        path,
        r"meshes\actors\character\_1stperson\behaviors\blockbehavior.bin",
    );
}

#[test]
fn test_missing_meshes_dir() {
    let path = "data/not_meshes_dir/character/skeleton.nif";
    assert!(template_name_and_inner_path(path).is_err());
}

#[test]
fn template_path_error_names_the_path() {
    let path = "data/not_meshes_dir/character/skeleton.nif";
    assert_eq!(
        parse_template_path(path),
        Err(TemplateError::MissingMeshesDir { path: path.to_string() })
    );
    // A leading `meshes` directory is not the one searched for.
    assert!(parse_template_path("meshes/a.bin").is_err());
    // `meshes` must be followed by a separator.
    assert!(parse_template_path("data/meshesX/a.bin").is_err());
    assert_eq!(parse_template_path("x/MESHES\\a.bin").unwrap(), "MESHES\\a.bin");
}

#[test]
fn template_key_requires_meshes_prefix() {
    assert!(TemplateKey::new("meshes/actors/a.bin".to_string()).is_some());
    assert!(TemplateKey::new("Meshes/actors/a.bin".to_string()).is_some());
    assert!(TemplateKey::new("data/meshes/a.bin".to_string()).is_none());
    assert!(TemplateKey::new("mesh".to_string()).is_none());
}

#[test]
fn template_key_from_nemesis_file() {
    let key = TemplateKey::from_nemesis_file("0_master", false).unwrap();
    assert_eq!(key.as_str(), "meshes/actors/character/behaviors/0_master.bin");
    let key = TemplateKey::from_nemesis_file("0_master", true).unwrap();
    assert_eq!(key.as_str(), "meshes/actors/character/_1stperson/behaviors/0_master.bin");
    assert!(TemplateKey::from_nemesis_file("not_a_template", false).is_none());
    assert!(TemplateKey::from_nemesis_file("bearbehavior", true).is_none());
}

#[test]
fn template_key_under_meshes() {
    let key = TemplateKey::under_meshes("actors/character", "behaviors/0_master.bin");
    assert_eq!(key.as_str(), "meshes/actors/character/behaviors/0_master.bin");
}

#[test]
fn duplicate_event_name_templates() {
    let magic = TemplateKey::from_nemesis_file("magicbehavior", false).unwrap();
    assert!(magic.has_duplicate_event_names());
    let magic1st = TemplateKey::from_nemesis_file("magicmountedbehavior", true).unwrap();
    assert!(magic1st.has_duplicate_event_names());
    let master = TemplateKey::from_nemesis_file("0_master", false).unwrap();
    assert!(!master.has_duplicate_event_names());
}

#[test]
fn master_index_of_nemesis_file() {
    assert_eq!(
        MasterIndex::from_nemesis_file("0_master", false),
        Some(MasterIndex {
            master_string_data_index: "#0106",
            master_behavior_graph_index: "#0108",
        })
    );
    assert_eq!(
        MasterIndex::from_nemesis_file("0_master", true),
        Some(MasterIndex {
            master_string_data_index: "#0095",
            master_behavior_graph_index: "#0097",
        })
    );
    assert_eq!(MasterIndex::from_nemesis_file("unknown", false), None);
}

#[test]
fn template_keys_compare_as_paths() {
    let a = TemplateKey::new("meshes//actors/./character/behaviors/0_master.bin".to_string()).unwrap();
    let b = TemplateKey::new("meshes/actors/character/behaviors/0_master.bin".to_string()).unwrap();
    assert_eq!(a.as_str(), "meshes//actors/./character/behaviors/0_master.bin");
    assert_eq!(a.normalized(), b.normalized());
    assert_eq!(a.normalized().as_str(), "meshes/actors/character/behaviors/0_master.bin");
    let c = TemplateKey::new("meshes/actors/".to_string()).unwrap();
    assert_eq!(c.as_str(), "meshes/actors/");
    assert_eq!(c.normalized().as_str(), "meshes/actors");
    let d = TemplateKey::under_meshes("actors//character", "./behaviors/0_master.bin");
    assert_eq!(d.as_str(), "meshes/actors//character/./behaviors/0_master.bin");
    assert_eq!(d.normalized(), b);
}
