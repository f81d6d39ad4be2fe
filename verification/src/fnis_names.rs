//! Names of the events and root states that FNIS kill moves, paired animations and offset
//! arm animations add to a behavior graph.
//!
//! Root state names must be unique in the behavior they are added to: kill move and offset
//! arm states are named after the mod's priority, paired animation states after the hash
//! of a class index.
use vstd::prelude::*;

use crate::fnis_paths::{animation_path, spec_animation_path};
use crate::hashing::{calculate_hash, spec_default_hash};
use crate::text::{decimal, lemma_decimal_injective, u64_to_decimal};

verus! {

/// `<head><n>`
pub open spec fn numbered(head: Seq<char>, n: nat) -> Seq<char> {
    head + decimal(n)
}

pub(crate) fn numbered_text(head: &str, n: u64) -> (r: String)
    ensures
        r@ == numbered(head@, n as nat),
{
    let mut r = String::from_str(head);
    r.append(u64_to_decimal(n).as_str());
    r
}

/// The names that a kill move adds to `0_master`.
#[derive(Debug, Clone, PartialEq, Eq)]
pub struct KillMoveNames {
    /// The NPC's event: `pa_<player event>`.
    pub npc_event: String,
    /// `Animations\<namespace>\<animation file>`
    pub anim_file: String,
    /// `Player_FNISkm<priority>`
    pub player_root_state_name: String,
    /// `NPC_FNISkm<priority>`
    pub npc_root_state_name: String,
}

/// The names of a kill move of the mod with priority `priority`.
pub fn kill_move_names(namespace: &str, player_event: &str, anim_file: &str, priority: usize) -> (r:
    KillMoveNames)
    ensures
        r.npc_event@ == "pa_"@ + player_event@,
        r.anim_file@ == spec_animation_path(namespace@, anim_file@),
        r.player_root_state_name@ == numbered("Player_FNISkm"@, priority as nat),
        r.npc_root_state_name@ == numbered("NPC_FNISkm"@, priority as nat),
{
    let mut npc_event = String::from_str("pa_");
    npc_event.append(player_event);
    KillMoveNames {
        npc_event,
        anim_file: animation_path(namespace, anim_file),
        player_root_state_name: numbered_text("Player_FNISkm", priority as u64),
        npc_root_state_name: numbered_text("NPC_FNISkm", priority as u64),
    }
}

/// The names that a paired animation adds to `0_master`.
#[derive(Debug, Clone, PartialEq, Eq)]
pub struct PairedNames {
    /// The NPC's event: `pa_<id of class index 0>`.
    pub npc_event: String,
    /// `Animations\<namespace>\<animation file>`
    pub anim_file: String,
    /// `Player_FNISpa<id of class index 0>`
    pub player_root_state_name: String,
    /// `NPC_FNISpa<id of class index 12>`
    pub npc_root_state_name: String,
}

/// The state id of a class index: its hash with the sign bit cleared.
pub open spec fn spec_state_id(class_index: Seq<char>) -> nat {
    (spec_default_hash(class_index) & 0x7fff_ffffu64) as nat
}

/// The names of a paired animation whose first and thirteenth new classes are
/// `class_index_0` and `class_index_12`; their state ids keep the names unique in one file.
pub fn paired_names(namespace: &str, anim_file: &str, class_index_0: &str, class_index_12: &str) -> (r:
    PairedNames)
    ensures
        r.npc_event@ == numbered("pa_"@, spec_state_id(class_index_0@)),
        r.anim_file@ == spec_animation_path(namespace@, anim_file@),
        r.player_root_state_name@ == numbered("Player_FNISpa"@, spec_state_id(class_index_0@)),
        r.npc_root_state_name@ == numbered("NPC_FNISpa"@, spec_state_id(class_index_12@)),
{
    let id_0 = calculate_hash(class_index_0) as u64;
    let id_12 = calculate_hash(class_index_12) as u64;
    PairedNames {
        npc_event: numbered_text("pa_", id_0),
        anim_file: animation_path(namespace, anim_file),
        player_root_state_name: numbered_text("Player_FNISpa", id_0),
        npc_root_state_name: numbered_text("NPC_FNISpa", id_12),
    }
}

/// The names that an offset arm animation adds to `mt_behavior`.
#[derive(Debug, Clone, PartialEq, Eq)]
pub struct OffsetArmNames {
    /// `FNIS_RightOffsetCG<priority>`
    pub right_offset_event: String,
    /// `FNIS_LeftOffsetCG<priority>`
    pub left_offset_event: String,
    /// `Animations\<namespace>\<animation file>`
    pub anim_file: String,
    /// `FNIS_RightOffset<priority>`
    pub right_offset_state_name: String,
    /// `FNIS_LeftOffset<priority>`
    pub left_offset_state_name: String,
}

/// The names of an offset arm animation of the mod with priority `priority`.
pub fn offset_arm_names(namespace: &str, anim_file: &str, priority: usize) -> (r: OffsetArmNames)
    ensures
        r.right_offset_event@ == numbered("FNIS_RightOffsetCG"@, priority as nat),
        r.left_offset_event@ == numbered("FNIS_LeftOffsetCG"@, priority as nat),
        r.anim_file@ == spec_animation_path(namespace@, anim_file@),
        r.right_offset_state_name@ == numbered("FNIS_RightOffset"@, priority as nat),
        r.left_offset_state_name@ == numbered("FNIS_LeftOffset"@, priority as nat),
{
    OffsetArmNames {
        right_offset_event: numbered_text("FNIS_RightOffsetCG", priority as u64),
        left_offset_event: numbered_text("FNIS_LeftOffsetCG", priority as u64),
        anim_file: animation_path(namespace, anim_file),
        right_offset_state_name: numbered_text("FNIS_RightOffset", priority as u64),
        left_offset_state_name: numbered_text("FNIS_LeftOffset", priority as u64),
    }
}

/// Names with one head are equal only for equal numbers.
pub proof fn lemma_numbered_injective(head: Seq<char>, a: nat, b: nat)
    ensures
        numbered(head, a) == numbered(head, b) ==> a == b,
{
    if numbered(head, a) == numbered(head, b) {
        assert(decimal(a) =~= numbered(head, a).subrange(head.len() as int, numbered(head, a).len() as int));
        assert(decimal(b) =~= numbered(head, b).subrange(head.len() as int, numbered(head, b).len() as int));
        lemma_decimal_injective(a, b);
    }
}

/// The root states of kill moves of mods with different priorities have different names,
/// and a player's root state is never named like an NPC's.
pub proof fn lemma_kill_move_root_states_unique(p: usize, q: usize)
    ensures
        p != q ==> numbered("Player_FNISkm"@, p as nat) != numbered("Player_FNISkm"@, q as nat),
        p != q ==> numbered("NPC_FNISkm"@, p as nat) != numbered("NPC_FNISkm"@, q as nat),
        numbered("Player_FNISkm"@, p as nat) != numbered("NPC_FNISkm"@, q as nat),
{
    lemma_numbered_injective("Player_FNISkm"@, p as nat, q as nat);
    lemma_numbered_injective("NPC_FNISkm"@, p as nat, q as nat);
    reveal_strlit("Player_FNISkm");
    reveal_strlit("NPC_FNISkm");
    assert(numbered("Player_FNISkm"@, p as nat)[0] != numbered("NPC_FNISkm"@, q as nat)[0]);
}

/// The right and left offset states and events of offset arm animations of mods with
/// different priorities have different names, and no right one is named like a left one.
pub proof fn lemma_offset_arm_names_unique(p: usize, q: usize)
    ensures
        p != q ==> numbered("FNIS_RightOffset"@, p as nat) != numbered("FNIS_RightOffset"@, q as nat),
        p != q ==> numbered("FNIS_LeftOffset"@, p as nat) != numbered("FNIS_LeftOffset"@, q as nat),
        numbered("FNIS_RightOffset"@, p as nat) != numbered("FNIS_LeftOffset"@, q as nat),
        p != q ==> numbered("FNIS_RightOffsetCG"@, p as nat) != numbered("FNIS_RightOffsetCG"@, q as nat),
        p != q ==> numbered("FNIS_LeftOffsetCG"@, p as nat) != numbered("FNIS_LeftOffsetCG"@, q as nat),
        numbered("FNIS_RightOffsetCG"@, p as nat) != numbered("FNIS_LeftOffsetCG"@, q as nat),
{
    lemma_numbered_injective("FNIS_RightOffset"@, p as nat, q as nat);
    lemma_numbered_injective("FNIS_LeftOffset"@, p as nat, q as nat);
    lemma_numbered_injective("FNIS_RightOffsetCG"@, p as nat, q as nat);
    lemma_numbered_injective("FNIS_LeftOffsetCG"@, p as nat, q as nat);
    reveal_strlit("FNIS_RightOffset");
    reveal_strlit("FNIS_LeftOffset");
    reveal_strlit("FNIS_RightOffsetCG");
    reveal_strlit("FNIS_LeftOffsetCG");
    assert(numbered("FNIS_RightOffset"@, p as nat)[5] != numbered("FNIS_LeftOffset"@, q as nat)[5]);
    assert(numbered("FNIS_RightOffsetCG"@, p as nat)[5] != numbered("FNIS_LeftOffsetCG"@, q as nat)[5]);
}

} // verus!
