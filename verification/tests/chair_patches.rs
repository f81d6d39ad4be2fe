use nemesis_merge::chair::{new_chair_patches, ChairAnimation};
use nemesis_merge::hashing::calculate_hash;

fn chair(vars: Vec<String>, objects: Vec<String>, sequenced: Vec<String>) -> ChairAnimation {
    ChairAnimation {
        anim_event: "ChairSitStart".to_string(),
        anim_file: "sit.hkx".to_string(),
        anim_vars: vars,
        anim_objects: objects,
        sequenced,
    }
}

fn names(n: usize) -> Vec<String> {
    (0..n).map(|i| format!("#FNIS$Ch{i}")).collect()
}

#[test]
fn chair_patches_without_objects_or_variables() {
    let ci = names(19);
    let (one, seq) = new_chair_patches(&chair(vec![], vec![], vec!["idle.hkx".to_string()]), "Seats", 4, &ci);
    assert_eq!(one.len(), 19);
    assert_eq!(seq.len(), 4);
    for (k, (path, value)) in one.iter().enumerate() {
        assert_eq!(path[0], ci[k]);
        assert_eq!(value.priority, 4);
    }
    let id = calculate_hash("#FNIS$Ch0");
    assert!(one[0].1.patch.contains(&format!(r#""name":"FNISChairIdleState{id}","stateId":{id}"#)));
    assert_eq!(one[1].1.patch, r##"{"__ptr":"#FNIS$Ch1","events":[]}"##);
    assert!(one[2].1.patch.contains(r##""states":["#FNIS$Ch4","#FNIS$Ch7","#FNIS$Ch15"],"wildcardTransitions":"#1720""##));
    assert!(one[5].1.patch.contains(r#""animationName":"Animations\\Seats\\sit.hkx""#));
    assert!(one[10].1.patch.contains(r#""animationName":"Animations\\Seats\\idle.hkx""#));
    assert!(one[18].1.patch.contains(r#""animationName":"Animations\\Seats\\idle.hkx""#));
    assert!(one[8].1.patch.contains(r#""randomTransitionEventId":91"#));
    assert_eq!(
        one[6].1.patch,
        r##"{"__ptr":"#FNIS$Ch6","triggers":[{"localTime":-0.2,"event":{"id":91,"payload":"#0000"},"relativeToEndOfClip":true,"acyclic":false,"isAnnotation":false}]}"##
    );
    assert_eq!(seq[0].1.patch, r#"["ChairSitStart"]"#);
    assert_eq!(seq[1].1.patch, r#"[{"flags":"0"}]"#);
    assert!(seq[2].1.patch.contains(&format!(r#""toStateId":{id},"fromNestedStateId":0,"toNestedStateId":0,"priority":4,"#)));
    assert_eq!(seq[3].1.patch, r##"["#FNIS$Ch0"]"##);
}

#[test]
fn chair_patches_with_objects_and_variables() {
    let ci = names(20);
    let c = chair(vec!["iChairVar".to_string()], vec!["Book".to_string()], vec![]);
    let (one, seq) = new_chair_patches(&c, "Seats", 0, &ci);
    assert_eq!(one.len(), 20);
    assert_eq!(seq.len(), 7);
    assert_eq!(one[0].1.patch, r##"{"__ptr":"#FNIS$Ch19","data":"Book"}"##);
    assert_eq!(one[2].1.patch, r##"{"__ptr":"#FNIS$Ch1","events":[{"id":393,"payload":"#FNIS$Ch19"}]}"##);
    assert!(one[7].1.patch.contains(r##"{"id":394,"payload":"#FNIS$Ch19"}"##));
    assert_eq!(seq[2].1.patch, r#"["iChairVar"]"#);
    assert_eq!(seq[3].1.patch, r#"[{"value":0}]"#);
    assert_eq!(seq[4].1.patch, r#"[{"role":{"role":"ROLE_DEFAULT","flags":"0"},"type":"VARIABLE_TYPE_INT32"}]"#);
    assert!(one[19].1.patch.contains(r#""animationName":"Animations\\Seats\\sit.hkx""#));
}
