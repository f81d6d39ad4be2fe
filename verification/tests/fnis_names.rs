use nemesis_merge::fnis_names::{kill_move_names, offset_arm_names, paired_names};
use nemesis_merge::fnis_paths::animation_path;
use nemesis_merge::hashing::calculate_hash;

#[test]
fn kill_move_names_follow_priority() {
    let n = kill_move_names("FNISZoo", "back_grab", "km_back.hkx", 12);
    assert_eq!(n.npc_event, "pa_back_grab");
    assert_eq!(n.anim_file, r"Animations\FNISZoo\km_back.hkx");
    assert_eq!(n.player_root_state_name, "Player_FNISkm12");
    assert_eq!(n.npc_root_state_name, "NPC_FNISkm12");
    let other = kill_move_names("FNISZoo", "back_grab", "km_back.hkx", 1);
    assert_ne!(n.player_root_state_name, other.player_root_state_name);
    assert_ne!(n.npc_root_state_name, other.npc_root_state_name);
}

#[test]
fn paired_names_use_class_index_ids() {
    let n = paired_names("Pairs", "hug.hkx", "#FNIS$1", "#FNIS$13");
    let id0 = calculate_hash("#FNIS$1");
    let id12 = calculate_hash("#FNIS$13");
    assert_eq!(n.npc_event, format!("pa_{id0}"));
    assert_eq!(n.player_root_state_name, format!("Player_FNISpa{id0}"));
    assert_eq!(n.npc_root_state_name, format!("NPC_FNISpa{id12}"));
    assert_eq!(n.anim_file, r"Animations\Pairs\hug.hkx");
}

#[test]
fn offset_arm_names_follow_priority() {
    let n = offset_arm_names("Arms", "arm.hkx", 0);
    assert_eq!(n.right_offset_event, "FNIS_RightOffsetCG0");
    assert_eq!(n.left_offset_event, "FNIS_LeftOffsetCG0");
    assert_eq!(n.right_offset_state_name, "FNIS_RightOffset0");
    assert_eq!(n.left_offset_state_name, "FNIS_LeftOffset0");
    assert_eq!(n.anim_file, r"Animations\Arms\arm.hkx");
    assert_eq!(animation_path("A", "b"), r"Animations\A\b");
}
