use nemesis_merge::error::Error;
use nemesis_merge::nemesis_path::{parse_nemesis_path, NemesisPath};

fn parse(path: &str) -> NemesisPath<'_> {
    parse_nemesis_path(path).unwrap_or_else(|e| panic!("{e:?}"))
}

#[test]
fn normal_basic() {
    let p = parse("Nemesis_Engine/mod/flinch/0_master/#0106.txt");
    assert_eq!(
        p,
        NemesisPath::Normal {
            template_name: "0_master",
            is_1st_person: false
        }
    );
}

#[test]
fn normal_1stperson() {
    let p = parse("Nemesis_Engine/mod/flinch/_1stperson/0_master/#0106.txt");
    assert_eq!(
        p,
        NemesisPath::Normal {
            template_name: "0_master",
            is_1st_person: true
        }
    );
}

#[test]
fn engine_ext_basic() {
    let p = parse("Nemesis_EngineExt/mod/test/meshes/actors/character/behaviors/character assets/skeleton.bin/#test.txt");
    assert_eq!(
        p,
        NemesisPath::EngineExt {
            meshes_path: "meshes/actors/character/behaviors/character assets/skeleton.bin"
        }
    );
}

#[test]
fn invalid_missing_engine() {
    let p = "Engine/mod/a/0_master";
    assert!(parse_nemesis_path(p).is_err());
}

#[test]
fn invalid_path_error_names_the_path() {
    let p = "Engine/mod/a/0_master";
    assert_eq!(
        parse_nemesis_path(p),
        Err(Error::FailedParseNemesisPath { path: p.to_string() })
    );
}

#[test]
fn normal_with_prefix_backslashes_and_case() {
    let p = parse(r"C:\MO2\mods\x\nemesis_engine\MOD\flinch\_1STPERSON\mt_behavior\#0001.txt");
    assert_eq!(
        p,
        NemesisPath::Normal {
            template_name: "mt_behavior",
            is_1st_person: true
        }
    );
}

#[test]
fn normal_without_patch_file() {
    let p = parse("Nemesis_Engine/mod/flinch/0_master");
    assert_eq!(
        p,
        NemesisPath::Normal {
            template_name: "0_master",
            is_1st_person: false
        }
    );
}

#[test]
fn normal_1stperson_prefix_without_separator_is_a_template_name() {
    let p = parse("Nemesis_Engine/mod/flinch/_1stpersonX/#0001.txt");
    assert_eq!(
        p,
        NemesisPath::Normal {
            template_name: "_1stpersonX",
            is_1st_person: false
        }
    );
}

#[test]
fn normal_missing_mod_code_is_refused() {
    assert!(parse_nemesis_path("Nemesis_Engine/mod//0_master/#0001.txt").is_err());
    assert!(parse_nemesis_path("Nemesis_Engine/mod/flinch/").is_err());
}

#[test]
fn engine_ext_requires_lower_case_meshes_and_hash_file() {
    assert!(parse_nemesis_path("Nemesis_EngineExt/mod/t/Meshes/a.bin/#x.txt").is_err());
    assert!(parse_nemesis_path("Nemesis_EngineExt/mod/t/meshes/a.bin").is_err());
}

#[test]
fn engine_ext_stops_at_first_hash_file() {
    let p = parse(r"Nemesis_EngineExt\mod\t\meshes\a\b.bin\#x\#y.txt");
    assert_eq!(p, NemesisPath::EngineExt { meshes_path: r"meshes\a\b.bin" });
}

#[test]
fn to_template_key_normal_and_ext() {
    let key = parse("Nemesis_Engine/mod/flinch/0_master/#0106.txt")
        .to_template_key()
        .unwrap();
    assert_eq!(key.as_str(), "meshes/actors/character/behaviors/0_master.bin");

    let key = parse("Nemesis_Engine/mod/flinch/_1stperson/0_master/#0106.txt")
        .to_template_key()
        .unwrap();
    assert_eq!(key.as_str(), "meshes/actors/character/_1stperson/behaviors/0_master.bin");

    let key = parse("Nemesis_EngineExt/mod/test/meshes/actors/x.bin/#test.txt")
        .to_template_key()
        .unwrap();
    assert_eq!(key.as_str(), "meshes/actors/x.bin");

    assert!(parse("Nemesis_Engine/mod/flinch/unknown_template/#0106.txt")
        .to_template_key()
        .is_none());
    assert!(NemesisPath::EngineExt { meshes_path: "textures/a.dds" }
        .to_template_key()
        .is_none());
}

#[test]
fn variable_index_of_normal_and_ext() {
    assert_eq!(
        parse("Nemesis_Engine/mod/flinch/0_master/#0106.txt").get_variable_index(),
        Some("#0108")
    );
    assert_eq!(
        parse("Nemesis_Engine/mod/flinch/_1stperson/0_master/#0106.txt").get_variable_index(),
        Some("#0097")
    );
    assert_eq!(
        parse("Nemesis_EngineExt/mod/test/meshes/actors/x.bin/#test.txt").get_variable_index(),
        None
    );
    assert_eq!(
        parse("Nemesis_Engine/mod/flinch/defaultmale/#0001.txt").get_variable_index(),
        None
    );
}
