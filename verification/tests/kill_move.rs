use nemesis_merge::fnis_anim::FnisAnimFlags;
use nemesis_merge::hashing::calculate_hash;
use nemesis_merge::kill_move::{new_kill_patches, ActorRole, AnimObject, PairedAndKillAnimation, Trigger};

fn flags() -> FnisAnimFlags {
    FnisAnimFlags {
        acyclic: false,
        anim_objects: false,
        head_tracking: false,
        animated_camera_set: false,
        animated_camera_reset: true,
    }
}

fn anim(objects: Vec<String>) -> PairedAndKillAnimation {
    PairedAndKillAnimation {
        anim_event: "back_grab".to_string(),
        anim_file: "km_back.hkx".to_string(),
        flags: flags(),
        duration: "5.867".to_string(),
        triggers: vec![Trigger { event: "Hit".to_string(), time: "1.5".to_string() }],
        triggers2: vec![],
        anim_objects: objects
            .into_iter()
            .map(|name| AnimObject { name, role: ActorRole::Active })
            .collect(),
    }
}

fn class_indexes(n: usize) -> Vec<String> {
    (0..n).map(|i| format!("#FNIS$Km{i}")).collect()
}

#[test]
fn kill_move_patches_shape() {
    let ci = class_indexes(26);
    let (one, seq) = new_kill_patches(&anim(vec![]), "Zoo", 7, &ci);
    assert_eq!(one.len(), 26);
    assert_eq!(seq.len(), 2);
    for (k, (path, value)) in one.iter().enumerate() {
        assert_eq!(path[0], ci[k]);
        assert_eq!(value.priority, 7);
    }
    let id = calculate_hash("Player_FNISkm7");
    assert!(one[0].1.patch.contains(&format!(r#""name":"Player_FNISkm7","stateId":{id}"#)));
    assert!(one[0].1.patch.contains(r##""exitNotifyEvents":"#FNIS_aa_global_auto_gen2532""##));
    assert!(one[2].1.patch.contains(r#""name":"Player_FNISkm7$_Behavior""#));
    assert!(one[7].1.patch.contains(r#""name":"pa_back_grab""#));
    assert!(one[10].1.patch.contains(r#""animationName":"Animations\\Zoo\\km_back.hkx""#));
    let expected = [
        r##"{"__ptr":"#FNIS$Km11","triggers":["##,
        r##"{"localTime":0.0,"event":{"id":615,"payload":"#0000"},"relativeToEndOfClip":false,"acyclic":false,"isAnnotation":false},"##,
        r##"{"localTime":1.5,"event":{"id":"$eventID[Hit]$","payload":"#0000"},"relativeToEndOfClip":false,"acyclic":false,"isAnnotation":false},"##,
        r##"{"localTime":5.867,"event":{"id":156,"payload":"#0000"},"relativeToEndOfClip":false,"acyclic":false,"isAnnotation":false},"##,
        r##"{"localTime":5.867,"event":{"id":616,"payload":"#0000"},"relativeToEndOfClip":false,"acyclic":false,"isAnnotation":false},"##,
        r##"{"localTime":5.867,"event":{"id":1070,"payload":"#0000"},"relativeToEndOfClip":false,"acyclic":false,"isAnnotation":false}]}"##,
    ]
    .join("");
    assert_eq!(one[11].1.patch, expected);
    assert!(one[14].1.patch.contains(r#""name":"FNISkm7_ActiveModifier""#));
    assert!(one[23].1.patch.contains(r#""SyncAnimPrefix":"2_""#));
    assert!(one[9].1.patch.contains(r#""SyncAnimPrefix":null"#));
    assert_eq!(seq[1].1.patch, r##"["#FNIS$Km0","#FNIS$Km12"]"##);
    assert!(seq[0].1.patch.contains(r#""eventId":"$eventID[pa_back_grab]$""#));
}

#[test]
fn kill_move_patches_with_objects() {
    let ci = class_indexes(28);
    let (one, _) = new_kill_patches(&anim(vec!["A".to_string(), "B".to_string()]), "Zoo", 1, &ci);
    assert_eq!(one.len(), 28);
    assert_eq!(one[0].1.patch, r##"{"__ptr":"#FNIS$Km26","data":"A"}"##);
    assert!(one[2 + 8].1.patch.contains(r##"{"id":937,"payload":"#FNIS$Km26"}"##));
    assert!(one[2 + 22].1.patch.contains(r##"{"id":936,"payload":"#FNIS$Km27"}"##));
}

#[test]
fn kill_move_transitions_reach_root_states() {
    let ci = class_indexes(26);
    let (one, seq) = new_kill_patches(&anim(vec![]), "Zoo", 3, &ci);
    let player_id = calculate_hash("Player_FNISkm3");
    let npc_id = calculate_hash("NPC_FNISkm3");
    assert_eq!(one[0].0[0], ci[0]);
    assert_eq!(one[12].0[0], ci[12]);
    assert!(one[0].1.patch.contains(&format!(r#""stateId":{player_id}"#)));
    assert!(one[12].1.patch.contains(&format!(r#""stateId":{npc_id}"#)));
    assert!(seq[0].1.patch.contains(&format!(r#""eventId":"$eventID[back_grab]$","toStateId":{player_id}"#)));
    assert!(seq[0].1.patch.contains(&format!(r#""eventId":"$eventID[pa_back_grab]$","toStateId":{npc_id}"#)));
    assert_eq!(seq[1].1.patch, r##"["#FNIS$Km0","#FNIS$Km12"]"##);
}
