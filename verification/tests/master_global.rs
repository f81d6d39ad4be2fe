use nemesis_merge::master_global::{new_global_master_patch, new_push_alt_anim_values_seq_patch};

#[test]
fn global_master_patch_event_arrays() {
    let patches = new_global_master_patch(9);
    assert_eq!(patches.len(), 9);
    assert!(patches.iter().all(|(_, v)| v.priority == 9));
    assert_eq!(
        patches[3].1.patch,
        r##"{"__ptr":"#FNIS_aa_global_auto_gen2530","events":[{"id":1061,"payload":"#FNIS_aa_global_auto_gen2531"}]}"##
    );
    assert_eq!(
        patches[6].1.patch,
        r##"{"__ptr":"#FNIS_aa_global_auto_gen2529","events":[{"id":367,"payload":"#0000"},{"id":543,"payload":"#0000"}]}"##
    );
    assert_eq!(patches[8].1.patch, r##"{"__ptr":"#FNIS_aa_global_auto_gen2531","data":"Camera3rd [Cam3]"}"##);
    assert_eq!(patches[8].0, vec!["#FNIS_aa_global_auto_gen2531".to_string(), "hkbStringEventPayload".to_string()]);
}

#[test]
fn alt_anim_values_registered_in_group_order() {
    let patches = new_push_alt_anim_values_seq_patch(4);
    assert_eq!(patches.len(), 3);
    assert_eq!(patches[0].0, vec!["#0107".to_string(), "hkbVariableValueSet".to_string(), "wordVariableValues".to_string()]);
    assert_eq!(patches[0].1.patch.matches(r#"{"value":0}"#).count(), 67);
    assert_eq!(patches[1].1.patch.matches("VARIABLE_TYPE_INT32").count(), 67);
    let names = &patches[2].1.patch;
    assert!(names.starts_with(r#"["FNISaa_mtidle","FNISaa_1hmidle","#));
    assert!(names.contains(r#""FNISaa_shield","fNISaa_mtidle_crc","#));
    assert!(names.ends_with(r#""fNISaa_shield_crc","FNISaa_crc"]"#));
    assert_eq!(patches[2].1.priority, 4);
}
