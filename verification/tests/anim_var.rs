use nemesis_merge::anim_var::{new_push_anim_vars_patch, AnimVar, AnimVarValue};

#[test]
fn anim_vars_register_names_values_and_types() {
    let values = vec![
        AnimVar { name: "bSitting".to_string(), value: AnimVarValue::Bool(true) },
        AnimVar { name: "iStage".to_string(), value: AnimVarValue::Int32(-7) },
        AnimVar { name: "fSpeed".to_string(), value: AnimVarValue::Real(2) },
    ];
    let patches = new_push_anim_vars_patch(&values, "#0083", "#0084", "#0085", 5);
    assert_eq!(patches.len(), 3);
    assert_eq!(patches[0].0, vec!["#0083".to_string(), "hkbBehaviorGraphStringData".to_string(), "variableNames".to_string()]);
    assert_eq!(patches[0].1.patch, r#"["bSitting","iStage","fSpeed"]"#);
    assert_eq!(patches[1].1.patch, r#"[{"value":1},{"value":-7},{"value":2}]"#);
    assert_eq!(
        patches[2].1.patch,
        [
            r#"[{"role":{"role":"ROLE_DEFAULT","flags":"0"},"type":"VARIABLE_TYPE_BOOL"},"#,
            r#"{"role":{"role":"ROLE_DEFAULT","flags":"0"},"type":"VARIABLE_TYPE_INT32"},"#,
            r#"{"role":{"role":"ROLE_DEFAULT","flags":"0"},"type":"VARIABLE_TYPE_REAL"}]"#,
        ]
        .join("")
    );
    assert_eq!(patches[2].1.priority, 5);
}

#[test]
fn anim_vars_none() {
    let patches = new_push_anim_vars_patch(&vec![], "a", "b", "c", 0);
    assert_eq!(patches[0].1.patch, "[]");
    assert_eq!(patches[1].1.patch, "[]");
}
