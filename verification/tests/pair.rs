use nemesis_merge::fnis_anim::FnisAnimFlags;
use nemesis_merge::hashing::calculate_hash;
use nemesis_merge::kill_move::{ActorRole, AnimObject, PairedAndKillAnimation, Trigger};
use nemesis_merge::pair::new_pair_patches;

fn paired(objects: Vec<AnimObject>, head_tracking: bool) -> PairedAndKillAnimation {
    PairedAndKillAnimation {
        anim_event: "hug".to_string(),
        anim_file: "pa_hug.hkx".to_string(),
        flags: FnisAnimFlags {
            acyclic: false,
            anim_objects: !objects.is_empty(),
            head_tracking,
            animated_camera_set: true,
            animated_camera_reset: false,
        },
        duration: "3.5".to_string(),
        triggers: vec![Trigger { event: "Kiss".to_string(), time: "1.25".to_string() }],
        triggers2: vec![],
        anim_objects: objects,
    }
}

fn names(n: usize) -> Vec<String> {
    (0..n).map(|i| format!("#FNIS$Pa{i}")).collect()
}

#[test]
fn pair_patches_names_follow_class_name_ids() {
    let ci = names(22);
    let (one, seq) = new_pair_patches(&paired(vec![], false), "Hugs", 3, &ci);
    assert_eq!(one.len(), 22);
    assert_eq!(seq.len(), 2);
    for (k, (path, value)) in one.iter().enumerate() {
        assert_eq!(path[0], ci[k]);
        assert_eq!(value.priority, 3);
    }
    let id0 = calculate_hash("#FNIS$Pa0");
    let id12 = calculate_hash("#FNIS$Pa12");
    let player_root = format!("Player_FNISpa{id0}");
    let npc_root = format!("NPC_FNISpa{id12}");
    let root_id = calculate_hash(&player_root);
    assert!(one[0].1.patch.contains(&format!(r#""name":"{player_root}","stateId":{root_id}"#)));
    assert!(one[0].1.patch.contains(r##""enterNotifyEvents":"#FNIS_aa_global_auto_gen2530","exitNotifyEvents":"#0000""##));
    assert!(one[1].1.patch.contains(r##""eventToSendWhenStateOrTransitionChanges":[{"id":-1,"payload":"#0000"}]"##));
    assert!(one[12].1.patch.contains(r##""eventToSendWhenStateOrTransitionChanges":{"id":-1,"payload":"#0000"}"##));
    assert!(one[12].1.patch.contains(&format!(r#""name":"NPC_FNISpa{id0}$_Behavior""#)));
    assert!(one[11].1.patch.contains(&format!(r#""name":"{npc_root}""#)));
    assert!(one[6].1.patch.contains(&format!(r#""name":"pa_{id0}""#)));
    assert_eq!(
        one[7].1.patch,
        r##"{"__ptr":"#FNIS$Pa7","events":[{"id":366,"payload":"#0000"},{"id":366,"payload":"#0000"},{"id":366,"payload":"#0000"}]}"##
    );
    assert!(one[9].1.patch.contains(r#""animationName":"Animations\\Hugs\\pa_hug.hkx""#));
    assert!(one[9].1.patch.contains(&format!(r#""name":"Paired_FNISpa{id0}""#)));
    assert!(one[20].1.patch.contains(&format!(r#""name":"NPC_Paired_FNISpa{id0}""#)));
    let expected = [
        r##"{"__ptr":"#FNIS$Pa10","triggers":["##,
        r##"{"localTime":1.25,"event":{"id":"$eventID[Kiss]$","payload":"#0000"},"relativeToEndOfClip":false,"acyclic":false,"isAnnotation":false},"##,
        r##"{"localTime":3.5,"event":{"id":156,"payload":"#0000"},"relativeToEndOfClip":false,"acyclic":false,"isAnnotation":false},"##,
        r##"{"localTime":3.5,"event":{"id":1070,"payload":"#0000"},"relativeToEndOfClip":false,"acyclic":false,"isAnnotation":false}]}"##,
    ]
    .join("");
    assert_eq!(one[10].1.patch, expected);
    assert!(one[21].1.patch.ends_with(r#""isAnnotation":false}]}"#));
    assert!(!one[21].1.patch.contains("1070"));
    assert_eq!(seq[1].1.patch, r##"["#FNIS$Pa0","#FNIS$Pa12"]"##);
    assert!(seq[0].1.patch.contains(&format!(r#""eventId":"$eventID[pa_{id0}]$""#)));
}

#[test]
fn pair_patches_split_objects_by_actor() {
    let ci = names(25);
    let objects = vec![
        AnimObject { name: "Rose".to_string(), role: ActorRole::Active },
        AnimObject { name: "Cup".to_string(), role: ActorRole::Passive },
        AnimObject { name: "Hat".to_string(), role: ActorRole::Active },
    ];
    let (one, _) = new_pair_patches(&paired(objects, true), "Hugs", 0, &ci);
    assert_eq!(one.len(), 25);
    assert_eq!(one[0].1.patch, r##"{"__ptr":"#FNIS$Pa22","data":"Rose"}"##);
    assert_eq!(one[1].1.patch, r##"{"__ptr":"#FNIS$Pa23","data":"Cup"}"##);
    assert_eq!(
        one[3 + 7].1.patch,
        r##"{"__ptr":"#FNIS$Pa7","events":[{"id":937,"payload":"#FNIS$Pa22"},{"id":936,"payload":"#FNIS$Pa22"},{"id":937,"payload":"#FNIS$Pa24"},{"id":936,"payload":"#FNIS$Pa24"}]}"##
    );
    assert_eq!(
        one[3 + 18].1.patch,
        r##"{"__ptr":"#FNIS$Pa18","events":[{"id":937,"payload":"#FNIS$Pa23"},{"id":936,"payload":"#FNIS$Pa23"}]}"##
    );
    assert!(one[3 + 6].1.patch.contains(r##""enterNotifyEvents":"#FNIS$Pa7","exitNotifyEvents":"#FNIS_aa_global_auto_gen2528""##));
}
