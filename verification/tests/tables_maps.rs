use nemesis_merge::bdi::bdi_entries;
use nemesis_merge::behaviors::{auxbones, creatures, humanoid, plants_activators, skeletons};
use nemesis_merge::config::OutPutTarget;
use nemesis_merge::hashing::{calculate_hash, hash};
use nemesis_merge::hkx_header::{check_header, check_hkx_header, HkxHeaderError};
use nemesis_merge::json_path::{json_path_from_key, json_path_to_key};
use nemesis_merge::patch_map::{HkxPatchMaps, OnePatchMap, SeqPatchMap, ValueWithPriority};

const HKX_MAGIC: [u8; 8] = [0x57, 0xE0, 0xE0, 0x57, 0x10, 0xC0, 0xC0, 0x10];
const TAG_MAGIC: [u8; 8] = [0x1E, 0x0D, 0xB0, 0xCA, 0xCE, 0xFA, 0x11, 0xD0];

fn header_with(magic: [u8; 8], ptr_size: u8) -> [u8; 17] {
    let mut h = [0u8; 17];
    h[..8].copy_from_slice(&magic);
    h[16] = ptr_size;
    h
}

#[test]
fn hkx_header_pointer_sizes() {
    assert_eq!(
        check_header(header_with(HKX_MAGIC, 8), OutPutTarget::SkyrimLe),
        Ok(OutPutTarget::SkyrimSe)
    );
    assert_eq!(
        check_header(header_with(HKX_MAGIC, 4), OutPutTarget::SkyrimSe),
        Ok(OutPutTarget::SkyrimLe)
    );
    assert_eq!(
        check_header(header_with(HKX_MAGIC, 2), OutPutTarget::SkyrimSe),
        Err(HkxHeaderError::InvalidHeader { target: OutPutTarget::SkyrimSe, actual: 2 })
    );
}

#[test]
fn hkx_header_tag_files_pass() {
    assert_eq!(
        check_header(header_with(TAG_MAGIC, 0), OutPutTarget::SkyrimLe),
        Ok(OutPutTarget::SkyrimLe)
    );
    let mut xml = [0u8; 17];
    xml[..16].copy_from_slice(b"<?xml version=\"1");
    assert_eq!(check_header(xml, OutPutTarget::SkyrimSe), Ok(OutPutTarget::SkyrimSe));
    // An unknown magic is refused.
    assert_eq!(
        check_header([0u8; 17], OutPutTarget::SkyrimLe),
        Err(HkxHeaderError::InvalidMagic { target: OutPutTarget::SkyrimLe, magic_bytes: [0u8; 17] })
    );
}

#[test]
fn hkx_header_of_bytes() {
    let mut bytes = header_with(HKX_MAGIC, 8).to_vec();
    bytes.extend_from_slice(&[1, 2, 3]);
    assert_eq!(check_hkx_header(&bytes, OutPutTarget::SkyrimLe), Ok(OutPutTarget::SkyrimSe));
    assert_eq!(
        check_hkx_header(&bytes[..5], OutPutTarget::SkyrimLe),
        Err(HkxHeaderError::InvalidHeader { target: OutPutTarget::SkyrimLe, actual: 5 })
    );
    let junk = [7u8; 20];
    assert_eq!(
        check_hkx_header(&junk, OutPutTarget::SkyrimSe),
        Err(HkxHeaderError::InvalidMagic { target: OutPutTarget::SkyrimSe, magic_bytes: [7u8; 17] })
    );
    let tag = header_with(TAG_MAGIC, 0);
    assert_eq!(check_hkx_header(&tag, OutPutTarget::SkyrimSe), Ok(OutPutTarget::SkyrimSe));
}

#[test]
fn state_id_hashes() {
    let a = calculate_hash("FNISFlyer_state");
    let b = calculate_hash("FNISFlyer_state");
    assert_eq!(a, b);
    assert!(a >= 0);
    assert_eq!(a, hash("FNISFlyer_state") & 0x7fff_ffff);
    assert!(calculate_hash("") >= 0);
    assert_ne!(calculate_hash("a"), calculate_hash("b"));
}

#[test]
fn json_path_roundtrip() {
    let path: Vec<String> = vec!["#0001".into(), "hkbProjectData".into(), "[0:10]".into()];
    let key = json_path_to_key(&path);
    assert_eq!(key, "#0001/hkbProjectData/[0:10]");
    assert_eq!(json_path_from_key(&key), path);
    assert_eq!(json_path_from_key("a"), vec!["a".to_string()]);
    assert_eq!(json_path_from_key("a//b"), vec!["a".to_string(), String::new(), "b".to_string()]);
    assert_eq!(json_path_to_key(&vec![]), "");
}

fn value(patch: &str, priority: usize) -> ValueWithPriority {
    ValueWithPriority { patch: patch.to_string(), priority }
}

fn path(parts: &[&str]) -> Vec<String> {
    parts.iter().map(|s| s.to_string()).collect()
}

#[test]
fn one_patch_map_keeps_higher_priority() {
    let mut map = OnePatchMap::new();
    let key = path(&["#0001", "name"]);
    map.insert(key.clone(), value("low", 1));
    map.insert(key.clone(), value("high", 5));
    map.insert(key.clone(), value("mid", 3));
    map.insert(key.clone(), value("same", 5));
    assert_eq!(map.len(), 1);
    assert_eq!(*map.0.get(&key).unwrap(), value("high", 5));
}

#[test]
fn one_patch_map_merge() {
    let mut a = OnePatchMap::new();
    a.insert(path(&["x"]), value("a-x", 2));
    a.insert(path(&["y"]), value("a-y", 9));
    let mut b = OnePatchMap::new();
    b.insert(path(&["x"]), value("b-x", 3));
    b.insert(path(&["y"]), value("b-y", 1));
    b.insert(path(&["z"]), value("b-z", 0));
    a.merge(b);
    assert_eq!(a.len(), 3);
    assert_eq!(*a.0.get(&path(&["x"])).unwrap(), value("b-x", 3));
    assert_eq!(*a.0.get(&path(&["y"])).unwrap(), value("a-y", 9));
    assert_eq!(*a.0.get(&path(&["z"])).unwrap(), value("b-z", 0));
}

#[test]
fn seq_patch_map_appends_in_order() {
    let mut a = SeqPatchMap::new();
    let key = path(&["#0002", "events"]);
    a.insert(key.clone(), value("1", 0));
    a.insert(key.clone(), value("2", 7));
    let mut b = SeqPatchMap::new();
    b.insert(key.clone(), value("3", 1));
    b.insert(path(&["other"]), value("4", 1));
    a.merge(b);
    assert_eq!(a.len(), 2);
    assert_eq!(*a.0.get(&key).unwrap(), vec![value("1", 0), value("2", 7), value("3", 1)]);
    assert_eq!(*a.0.get(&path(&["other"])).unwrap(), vec![value("4", 1)]);
}

#[test]
fn hkx_patch_maps_merge() {
    let mut a = HkxPatchMaps::new();
    assert_eq!(a.len(), 0);
    let mut b = HkxPatchMaps::new();
    b.one.insert(path(&["p"]), value("one", 1));
    b.seq.insert(path(&["q"]), value("seq", 1));
    b.seq.insert(path(&["r"]), value("seq", 1));
    a.merge(b);
    assert_eq!(a.len(), 3);
}

#[test]
fn behavior_tables() {
    let character = humanoid("character").unwrap();
    assert!(character.is_humanoid());
    assert_eq!(
        character.to_default_behavior_template_key().as_str(),
        "meshes/actors/character/characters/defaultmale.bin"
    );
    assert_eq!(
        character.to_master_behavior_template_key().as_str(),
        "meshes/actors/character/behaviors/0_master.bin"
    );
    assert!(humanoid("dog").is_none());

    let draugr = creatures("draugr").unwrap();
    assert!(!draugr.is_humanoid());
    assert_eq!(draugr.default_behavior, "characters/draugr.bin");
    let draugr_skeleton = skeletons("draugr").unwrap();
    assert_eq!(draugr_skeleton.default_behavior, "characterskeleton/draugr_skeleton.bin");
    assert_eq!(draugr_skeleton.master_behavior_index, "#2026");
    assert!(creatures("character").is_none());
    assert!(auxbones("nothing").is_none());
    assert!(plants_activators("nothing").is_none());
}

#[test]
fn bdi_entries_of_behavior() {
    let character = humanoid("character").unwrap();
    let entries = bdi_entries(&character);
    assert_eq!(entries.len(), 64);
    assert_eq!(entries[0].name, "FNISaa_mtidle");
    assert_eq!(entries[1].name, "FNISaa_mtidle_crc");
    assert_eq!(entries[63].name, "FNISaa_shield_crc");
    for e in &entries {
        assert_eq!(e.project_path, "actors/character");
        assert_eq!(e.ty, "kInt");
        assert_eq!(e.value, 0);
    }
}
