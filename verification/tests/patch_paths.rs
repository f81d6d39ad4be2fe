use nemesis_merge::patch_paths::{classify_patch_path, is_nemesis_file, patch_path, Category};

#[test]
fn test_classify_nemesis_patch_file() {
    let path = r"mod/Nemesis_engine/mod/id/shout_behavior/#id$0.txt";
    assert!(is_nemesis_file(path));
}

#[test]
fn test_classify_anim_data_patch_files() {
    assert_eq!(
        patch_path(
            r"Nemesis_Engine/mod/slide/animationdatasinglefile/DefaultFemale~1/SprintSlide~slide$0.txt"
        )
        .unwrap_or_else(|| panic!("not a patch path")),
        Category::Adsf
    );

    assert_eq!(
        classify_patch_path(
            r"C:/MO2/mods/Nemesis_Engine/mod/slide/animationdatasinglefile/DefaultFemale~1/slide$0.txt"
        ),
        Some(Category::Adsf)
    );

    assert_eq!(
        classify_patch_path(
            r"Nemesis_Engine/mod/tkuc/animationdatasinglefile/FirstPerson~1/TKDodgeForward~791.txt"
        ),
        Some(Category::Adsf)
    );
}

#[test]
fn test_classify_anim_set_data_patch_files() {
    assert_eq!(
        classify_patch_path(
            r"Nemesis_Engine//mod/slide/animationsetdatasinglefile/DefaultMaleData~DefaultMale/_MTSolo.txt"
        ),
        Some(Category::Asdsf)
    );

    assert_eq!(
        classify_patch_path(
            r"Nemesis_Engine/mod/slide/animationsetdatasinglefile/DefaultMaleData~DefaultMale/_MTSolo.txt"
        ),
        Some(Category::Asdsf)
    );
}

#[test]
fn test_classify_invalid_patch_files() {
    assert_eq!(
        classify_patch_path(
            r"Nemesis_Engine//mod/slide/some_other_folder/DefaultFemale~1/slide$0.txt"
        ),
        None
    );

    assert_eq!(
        classify_patch_path(
            r"Nemesis_Engine//mod/slide/animation_data_single_file/DefaultFemale~1/slide$0.txt"
        ),
        None
    );

    assert_eq!(
        classify_patch_path(
            r"Nemesis_Engine/mod/hpmhr/animationsetdatasinglefile/HorseProjectData~HorseProject/horseproject.txt"
        ),
        None
    );
    assert_eq!(
        classify_patch_path(
            r"Nemesis_Engine/mod/hpmhr\animationsetdatasinglefile\HorseProjectData~HorseProject\horseproject.txt"
        ),
        None
    );
}

#[test]
fn anim_set_data_needs_template_and_file() {
    assert_eq!(
        classify_patch_path(r"Nemesis_Engine/mod/x/animationsetdatasinglefile/"),
        None
    );
    assert_eq!(
        classify_patch_path(r"Nemesis_Engine/mod/x/animationsetdatasinglefile/Tmpl/"),
        None
    );
    assert_eq!(
        classify_patch_path(r"Nemesis_Engine/mod/x/ANIMATIONSETDATASINGLEFILE/Tmpl/a.txt"),
        Some(Category::Asdsf)
    );
}

#[test]
fn horse_manifest_refusal_ignores_case() {
    assert_eq!(
        classify_patch_path(
            r"Nemesis_Engine/mod/h/animationsetdatasinglefile/horseprojectdata~horseproject/HORSEPROJECT.TXT"
        ),
        None
    );
    assert_eq!(
        classify_patch_path(
            r"Nemesis_Engine/mod/h/animationsetdatasinglefile/HorseProjectData~HorseProject/other.txt"
        ),
        Some(Category::Asdsf)
    );
}

#[test]
fn anim_data_category_needs_separator_after_it() {
    assert_eq!(
        classify_patch_path(r"Nemesis_Engine/mod/x/animationdatasinglefileX/a.txt"),
        None
    );
    assert_eq!(
        classify_patch_path(r"Nemesis_Engine/mod/x/animationdatasinglefile"),
        None
    );
}

#[test]
fn nemesis_file_is_decided_by_the_last_component() {
    assert!(is_nemesis_file("#0001.txt"));
    assert!(is_nemesis_file(r"a\b\#x.txt"));
    assert!(is_nemesis_file("a/#b/"));
    assert!(!is_nemesis_file("a/#b/c.txt"));
    assert!(!is_nemesis_file(""));
    assert!(!is_nemesis_file("///"));
    assert_ne!(Category::Nemesis, Category::Adsf);
}
