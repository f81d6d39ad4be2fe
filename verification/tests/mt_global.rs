use nemesis_merge::mt_global::new_mt_global_patch;

#[test]
fn mt_global_patch_furniture_root() {
    let states = vec!["#FNIS$Fu1".to_string(), "#FNIS$Fu9".to_string()];
    let (one, seq) = new_mt_global_patch(&states, 2);
    assert_eq!(one.len(), 22);
    assert_eq!(seq.len(), 1);
    assert!(one.iter().all(|(_, v)| v.priority == 2));
    assert_eq!(
        one[0].1.patch,
        r##"{"__ptr":"FNIS_aa_global_auto_gen5218","events":[{"id":18,"payload":"#0000"}]}"##
    );
    assert_eq!(one[3].0, vec!["FNIS_aa_global_auto_gen5221".to_string(), "hkbStateMachineEventPropertyArray".to_string()]);
    assert!(one[5].1.patch.contains(r#""name":"FNIS_FurnitureState","stateId":555"#));
    assert!(one[6].1.patch.contains(r#""eventId":473"#));
    assert!(one[9].1.patch.contains(r#""bInvertActive4":true"#));
    assert!(one[14].1.patch.contains(r#""bInvertActive0":true,"bIsActive1":false,"bInvertActive1":false"#));
    assert!(one[17].1.patch.contains(r##""states":["#FNIS$Fu1","#FNIS$Fu9"]"##));
    assert_eq!(
        one[18].1.patch,
        r##"{"__ptr":"#FNIS_fu_global_auto_gen5213","bindings":[{"memberPath":"isActive","variableIndex":1,"bitIndex":-1,"bindingType":"BINDING_TYPE_VARIABLE"}],"indexOfBindingToEnable":-1}"##
    );
    assert!(one[21].1.patch.contains(r#""duration":0.5,"toGeneratorStartTimeFraction":0.0,"flags":0,"#));
    assert_eq!(seq[0].1.patch, r##"["#FNIS_fu_global_auto_gen5200"]"##);
}
