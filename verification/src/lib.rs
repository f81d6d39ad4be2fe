//! Nemesis/FNIS behavior merge: path grammars, template tables, patch maps, and the names
//! and settings of generated FNIS states and configuration files.
use vstd::prelude::*;

pub mod anim_seq;
pub mod anim_var;
pub mod bdi;
pub mod behaviors;
pub mod chair;
pub mod config;
pub mod error;
pub mod fnis_anim;
pub mod fnis_names;
pub mod fnis_paths;
pub mod furniture;
pub mod group_names;
pub mod hashing;
pub mod hkx_header;
pub mod json;
pub mod kill_move;
pub mod json_path;
pub mod list_patch;
pub mod master_global;
pub mod master_targets;
pub mod mt_global;
pub mod nemesis_patches;
pub mod nemesis_path;
pub mod oar;
pub mod offset_arm;
pub mod pair;
pub mod patch_map;
pub mod patch_paths;
pub mod template_patches;
pub mod template_path;
pub mod templates;
pub mod text;

verus! {

} // verus!
