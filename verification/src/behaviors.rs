//! The behavior objects FNIS knows: where each keeps its default behavior (which
//! registers animation paths) and its master behavior (which registers mod roots).
use vstd::prelude::*;

use crate::templates::{template_of, TemplateKey};
use crate::text::str_eq;

verus! {

/// `meshes/<base_dir>/<default_behavior/master_behavior>`
///
/// # Notes
/// - According to FNIS debug output, if you register an animation path for the Creature `draugr`, you must also register the same animation in `draugrskelton.hkx`.
/// - CREATURE and SKELETON keys overlap only for `draugr`.
///
/// - For characters, in addition to `default_behavior: "characters/defaultmale.hkx"`, register the same animation path in `characters/female/defaultfemale.hkx`.
///
/// # Intend
/// By joining these and using `/` as the path separator, the `TemplateKey` is intended to be generated.
/// This integrates FNIS Patch Maps into Nemesis patchMaps.
#[derive(Debug, Clone, Copy, PartialEq, Eq)]
pub struct BehaviorEntry {
    /// e.g. `character`
    pub behavior_object: &'static str,
    /// e.g. `actors/character`
    pub base_dir: &'static str,
    /// Template path where animation paths are registered (e.g. `characters/firstperson.bin`).
    pub default_behavior: &'static str,
    /// XML index of the `hkbCharacterStringData` that registers animation paths, e.g. `#0029`.
    pub default_behavior_index: &'static str,
    /// Template path where the mod root behavior is registered (e.g. `behaviors/0_master.bin`).
    pub master_behavior: &'static str,
    /// XML index of the `hkbStateMachine` that registers the mod root, e.g. `#1831`.
    pub master_behavior_index: &'static str,
}

/// `meshes/<base_dir>/<behavior>`
pub open spec fn spec_meshes_key(base_dir: Seq<char>, behavior: Seq<char>) -> Seq<char> {
    "meshes/"@ + base_dir + "/"@ + behavior
}

impl BehaviorEntry {
    /// The template of the default behavior, e.g. `meshes/actors/character/characters/defaultmale.bin`.
    /// FNIS registers the animation paths of `FNIS_*_List.txt` in this template.
    pub fn to_default_behavior_template_key(&self) -> (r: TemplateKey)
        ensures
            r@ == spec_meshes_key(self.base_dir@, self.default_behavior@),
    {
        TemplateKey::under_meshes(self.base_dir, self.default_behavior)
    }

    /// The template of the master behavior, e.g. `meshes/actors/character/behaviors/0_master.bin`.
    /// FNIS registers the mod root behavior in this template.
    pub fn to_master_behavior_template_key(&self) -> (r: TemplateKey)
        ensures
            r@ == spec_meshes_key(self.base_dir@, self.master_behavior@),
    {
        TemplateKey::under_meshes(self.base_dir, self.master_behavior)
    }

    /// Whether this entry is a humanoid one: its object is a key of the `HUMANOID` table.
    pub fn is_humanoid(&self) -> (r: bool)
        ensures
            r == spec_humanoid(self.behavior_object@) is Some,
    {
        humanoid(self.behavior_object).is_some()
    }
}

/// The `HUMANOID` table: the entry of a behavior object, if it has one.
pub open spec fn spec_humanoid(key: Seq<char>) -> Option<BehaviorEntry> {
    if key == "character/_1stperson"@ {
        Some(BehaviorEntry {
            behavior_object: "character/_1stperson",
            base_dir: "actors/character/_1stperson",
            default_behavior: "characters/firstperson.bin",
            default_behavior_index: "#0029",
            master_behavior: "behaviors/0_master.bin",
            master_behavior_index: "#1831",
        })
    } else if key == "character"@ {
        Some(BehaviorEntry {
            behavior_object: "character",
            base_dir: "actors/character",
            default_behavior: "characters/defaultmale.bin",
            default_behavior_index: "#0029",
            master_behavior: "behaviors/0_master.bin",
            master_behavior_index: "#1831",
        })
    } else {
        None
    }
}

/// The entry of a behavior object in the `HUMANOID` table.
pub fn humanoid(key: &str) -> (r: Option<BehaviorEntry>)
    ensures
        r == spec_humanoid(key@),
{
    if str_eq(key, "character/_1stperson") {
        return Some(BehaviorEntry {
            behavior_object: "character/_1stperson",
            base_dir: "actors/character/_1stperson",
            default_behavior: "characters/firstperson.bin",
            default_behavior_index: "#0029",
            master_behavior: "behaviors/0_master.bin",
            master_behavior_index: "#1831",
        });
    }
    if str_eq(key, "character") {
        return Some(BehaviorEntry {
            behavior_object: "character",
            base_dir: "actors/character",
            default_behavior: "characters/defaultmale.bin",
            default_behavior_index: "#0029",
            master_behavior: "behaviors/0_master.bin",
            master_behavior_index: "#1831",
        });
    }
    None
}

/// The `CREATURES` table: the entry of a behavior object, if it has one.
pub open spec fn spec_creatures(key: Seq<char>) -> Option<BehaviorEntry> {
    if key == "atronachflame"@ {
        Some(BehaviorEntry {
            behavior_object: "atronachflame",
            base_dir: "actors/atronachflame",
            default_behavior: "characters/atronachflame.bin",
            default_behavior_index: "#0024",
            master_behavior: "behaviors/atronachflamebehavior.bin",
            master_behavior_index: "#0438",
        })
    } else if key == "atronachfrost"@ {
        Some(BehaviorEntry {
            behavior_object: "atronachfrost",
            base_dir: "actors/atronachfrost",
            default_behavior: "characters/atronachfrostcharacter.bin",
            default_behavior_index: "#0024",
            master_behavior: "behaviors/atronachfrostbehavior.bin",
            master_behavior_index: "#0451",
        })
    } else if key == "atronachstorm"@ {
        Some(BehaviorEntry {
            behavior_object: "atronachstorm",
            base_dir: "actors/atronachstorm",
            default_behavior: "characters/atronachstormcharacter.bin",
            default_behavior_index: "#0024",
            master_behavior: "behaviors/atronachstormbehavior.bin",
            master_behavior_index: "#0384",
        })
    } else if key == "bear"@ {
        Some(BehaviorEntry {
            behavior_object: "bear",
            base_dir: "actors/bear",
            default_behavior: "characters/bearcharacter.bin",
            default_behavior_index: "#0029",
            master_behavior: "behaviors/bearbehavior.bin",
            master_behavior_index: "#0151",
        })
    } else if key == "benthiclurker"@ {
        Some(BehaviorEntry {
            behavior_object: "benthiclurker",
            base_dir: "actors/dlc02/benthiclurker",
            default_behavior: "characters/benthiclurkercharacter.bin",
            default_behavior_index: "#0024",
            master_behavior: "behaviors/benthiclurkerbehavior.bin",
            master_behavior_index: "#0733",
        })
    } else if key == "boarriekling"@ {
        Some(BehaviorEntry {
            behavior_object: "boarriekling",
            base_dir: "actors/dlc02/boarriekling",
            default_behavior: "characters/boar.bin",
            default_behavior_index: "#0024",
            master_behavior: "behaviors/boarbehavior.bin",
            master_behavior_index: "#0584",
        })
    } else if key == "chaurus"@ {
        Some(BehaviorEntry {
            behavior_object: "chaurus",
            base_dir: "actors/chaurus",
            default_behavior: "characters/chaurus.bin",
            default_behavior_index: "#0024",
            master_behavior: "behaviors/chaurusbehavior.bin",
            master_behavior_index: "#0509",
        })
    } else if key == "chaurusflyer"@ {
        Some(BehaviorEntry {
            behavior_object: "chaurusflyer",
            base_dir: "actors/dlc01/chaurusflyer",
            default_behavior: "characters/chaurusflyercharacter.bin",
            default_behavior_index: "#0024",
            master_behavior: "behaviors/chaurusflyerbehavior.bin",
            master_behavior_index: "#0406",
        })
    } else if key == "chicken"@ {
        Some(BehaviorEntry {
            behavior_object: "chicken",
            base_dir: "actors/ambient/chicken",
            default_behavior: "characters/chickencharater.bin",
            default_behavior_index: "#0024",
            master_behavior: "behaviors/chickenbehavior.bin",
            master_behavior_index: "#0332",
        })
    } else if key == "cow"@ {
        Some(BehaviorEntry {
            behavior_object: "cow",
            base_dir: "actors/cow",
            default_behavior: "characters/h_cowcharater.bin",
            default_behavior_index: "#0029",
            master_behavior: "behaviors/h-cowbehavior.bin",
            master_behavior_index: "#0152",
        })
    } else if key == "deer"@ {
        Some(BehaviorEntry {
            behavior_object: "deer",
            base_dir: "actors/deer",
            default_behavior: "characters/deercharater.bin",
            default_behavior_index: "#0029",
            master_behavior: "behaviors/deerbehavior.bin",
            master_behavior_index: "#0145",
        })
    } else if key == "dog"@ {
        Some(BehaviorEntry {
            behavior_object: "dog",
            base_dir: "actors/canine",
            default_behavior: "characters dog/dog.bin",
            default_behavior_index: "#0029",
            master_behavior: "behaviors/dogbehavior.bin",
            master_behavior_index: "#0144",
        })
    } else if key == "dragon"@ {
        Some(BehaviorEntry {
            behavior_object: "dragon",
            base_dir: "actors/dragon",
            default_behavior: "characters/dragontest.bin",
            default_behavior_index: "#0024",
            master_behavior: "behaviors/dragonbehavior.bin",
            master_behavior_index: "#1553",
        })
    } else if key == "dragonpriest"@ {
        Some(BehaviorEntry {
            behavior_object: "dragonpriest",
            base_dir: "actors/dragonpriest",
            default_behavior: "characters/dragon_priest.bin",
            default_behavior_index: "#0029",
            master_behavior: "behaviors/dragon_priest.bin",
            master_behavior_index: "#0796",
        })
    } else if key == "draugr"@ {
        Some(BehaviorEntry {
            behavior_object: "draugr",
            base_dir: "actors/draugr",
            default_behavior: "characters/draugr.bin",
            default_behavior_index: "#0024",
            master_behavior: "behaviors/draugrbehavior.bin",
            master_behavior_index: "#2026",
        })
    } else {
        None
    }
}

/// The entry of a behavior object in the `CREATURES` table.
pub fn creatures(key: &str) -> (r: Option<BehaviorEntry>)
    ensures
        r == spec_creatures(key@),
{
    if str_eq(key, "atronachflame") {
        return Some(BehaviorEntry {
            behavior_object: "atronachflame",
            base_dir: "actors/atronachflame",
            default_behavior: "characters/atronachflame.bin",
            default_behavior_index: "#0024",
            master_behavior: "behaviors/atronachflamebehavior.bin",
            master_behavior_index: "#0438",
        });
    }
    if str_eq(key, "atronachfrost") {
        return Some(BehaviorEntry {
            behavior_object: "atronachfrost",
            base_dir: "actors/atronachfrost",
            default_behavior: "characters/atronachfrostcharacter.bin",
            default_behavior_index: "#0024",
            master_behavior: "behaviors/atronachfrostbehavior.bin",
            master_behavior_index: "#0451",
        });
    }
    if str_eq(key, "atronachstorm") {
        return Some(BehaviorEntry {
            behavior_object: "atronachstorm",
            base_dir: "actors/atronachstorm",
            default_behavior: "characters/atronachstormcharacter.bin",
            default_behavior_index: "#0024",
            master_behavior: "behaviors/atronachstormbehavior.bin",
            master_behavior_index: "#0384",
        });
    }
    if str_eq(key, "bear") {
        return Some(BehaviorEntry {
            behavior_object: "bear",
            base_dir: "actors/bear",
            default_behavior: "characters/bearcharacter.bin",
            default_behavior_index: "#0029",
            master_behavior: "behaviors/bearbehavior.bin",
            master_behavior_index: "#0151",
        });
    }
    if str_eq(key, "benthiclurker") {
        return Some(BehaviorEntry {
            behavior_object: "benthiclurker",
            base_dir: "actors/dlc02/benthiclurker",
            default_behavior: "characters/benthiclurkercharacter.bin",
            default_behavior_index: "#0024",
            master_behavior: "behaviors/benthiclurkerbehavior.bin",
            master_behavior_index: "#0733",
        });
    }
    if str_eq(key, "boarriekling") {
        return Some(BehaviorEntry {
            behavior_object: "boarriekling",
            base_dir: "actors/dlc02/boarriekling",
            default_behavior: "characters/boar.bin",
            default_behavior_index: "#0024",
            master_behavior: "behaviors/boarbehavior.bin",
            master_behavior_index: "#0584",
        });
    }
    if str_eq(key, "chaurus") {
        return Some(BehaviorEntry {
            behavior_object: "chaurus",
            base_dir: "actors/chaurus",
            default_behavior: "characters/chaurus.bin",
            default_behavior_index: "#0024",
            master_behavior: "behaviors/chaurusbehavior.bin",
            master_behavior_index: "#0509",
        });
    }
    if str_eq(key, "chaurusflyer") {
        return Some(BehaviorEntry {
            behavior_object: "chaurusflyer",
            base_dir: "actors/dlc01/chaurusflyer",
            default_behavior: "characters/chaurusflyercharacter.bin",
            default_behavior_index: "#0024",
            master_behavior: "behaviors/chaurusflyerbehavior.bin",
            master_behavior_index: "#0406",
        });
    }
    if str_eq(key, "chicken") {
        return Some(BehaviorEntry {
            behavior_object: "chicken",
            base_dir: "actors/ambient/chicken",
            default_behavior: "characters/chickencharater.bin",
            default_behavior_index: "#0024",
            master_behavior: "behaviors/chickenbehavior.bin",
            master_behavior_index: "#0332",
        });
    }
    if str_eq(key, "cow") {
        return Some(BehaviorEntry {
            behavior_object: "cow",
            base_dir: "actors/cow",
            default_behavior: "characters/h_cowcharater.bin",
            default_behavior_index: "#0029",
            master_behavior: "behaviors/h-cowbehavior.bin",
            master_behavior_index: "#0152",
        });
    }
    if str_eq(key, "deer") {
        return Some(BehaviorEntry {
            behavior_object: "deer",
            base_dir: "actors/deer",
            default_behavior: "characters/deercharater.bin",
            default_behavior_index: "#0029",
            master_behavior: "behaviors/deerbehavior.bin",
            master_behavior_index: "#0145",
        });
    }
    if str_eq(key, "dog") {
        return Some(BehaviorEntry {
            behavior_object: "dog",
            base_dir: "actors/canine",
            default_behavior: "characters dog/dog.bin",
            default_behavior_index: "#0029",
            master_behavior: "behaviors/dogbehavior.bin",
            master_behavior_index: "#0144",
        });
    }
    if str_eq(key, "dragon") {
        return Some(BehaviorEntry {
            behavior_object: "dragon",
            base_dir: "actors/dragon",
            default_behavior: "characters/dragontest.bin",
            default_behavior_index: "#0024",
            master_behavior: "behaviors/dragonbehavior.bin",
            master_behavior_index: "#1553",
        });
    }
    if str_eq(key, "dragonpriest") {
        return Some(BehaviorEntry {
            behavior_object: "dragonpriest",
            base_dir: "actors/dragonpriest",
            default_behavior: "characters/dragon_priest.bin",
            default_behavior_index: "#0029",
            master_behavior: "behaviors/dragon_priest.bin",
            master_behavior_index: "#0796",
        });
    }
    if str_eq(key, "draugr") {
        return Some(BehaviorEntry {
            behavior_object: "draugr",
            base_dir: "actors/draugr",
            default_behavior: "characters/draugr.bin",
            default_behavior_index: "#0024",
            master_behavior: "behaviors/draugrbehavior.bin",
            master_behavior_index: "#2026",
        });
    }
    None
}

/// The `SKELETONS` table: the entry of a behavior object, if it has one.
pub open spec fn spec_skeletons(key: Seq<char>) -> Option<BehaviorEntry> {
    if key == "draugr"@ {
        Some(BehaviorEntry {
            behavior_object: "draugr",
            base_dir: "actors/draugr",
            default_behavior: "characterskeleton/draugr_skeleton.bin",
            default_behavior_index: "#0024",
            master_behavior: "behaviors/draugrbehavior.bin",
            master_behavior_index: "#2026",
        })
    } else if key == "dwarvenballistacenturion"@ {
        Some(BehaviorEntry {
            behavior_object: "dwarvenballistacenturion",
            base_dir: "actors/dlc02/dwarvenballistacenturion",
            default_behavior: "characters/ballistacenturion.bin",
            default_behavior_index: "#0029",
            master_behavior: "behaviors/bcbehavior.bin",
            master_behavior_index: "#0492",
        })
    } else if key == "dwarvenspherecenturion"@ {
        Some(BehaviorEntry {
            behavior_object: "dwarvenspherecenturion",
            base_dir: "actors/dwarvenspherecenturion",
            default_behavior: "characters/spherecenturion.bin",
            default_behavior_index: "#0024",
            master_behavior: "behaviors/scbehavior.bin",
            master_behavior_index: "#0797",
        })
    } else if key == "dwarvenspider"@ {
        Some(BehaviorEntry {
            behavior_object: "dwarvenspider",
            base_dir: "actors/dwarvenspider",
            default_behavior: "characters/dwarvenspidercenturion.bin",
            default_behavior_index: "#0029",
            master_behavior: "behaviors/dwarvenspiderbehavior.bin",
            master_behavior_index: "#0404",
        })
    } else if key == "dwarvensteamcenturion"@ {
        Some(BehaviorEntry {
            behavior_object: "dwarvensteamcenturion",
            base_dir: "actors/dwarvensteamcenturion",
            default_behavior: "characters/dwarvensteam.bin",
            default_behavior_index: "#0024",
            master_behavior: "behaviors/steambehavior.bin",
            master_behavior_index: "#0552",
        })
    } else if key == "falmer"@ {
        Some(BehaviorEntry {
            behavior_object: "falmer",
            base_dir: "actors/falmer",
            default_behavior: "characters/falmer.bin",
            default_behavior_index: "#0029",
            master_behavior: "behaviors/falmerbehavior.bin",
            master_behavior_index: "#1314",
        })
    } else if key == "frostbitespider"@ {
        Some(BehaviorEntry {
            behavior_object: "frostbitespider",
            base_dir: "actors/frostbitespider",
            default_behavior: "characters/frostbitespidercharacter.bin",
            default_behavior_index: "#0024",
            master_behavior: "behaviors/frostbitespiderbehavior.bin",
            master_behavior_index: "#0412",
        })
    } else if key == "giant"@ {
        Some(BehaviorEntry {
            behavior_object: "giant",
            base_dir: "actors/giant",
            default_behavior: "characters/giantcharacter.bin",
            default_behavior_index: "#0024",
            master_behavior: "behaviors/giantbehavior.bin",
            master_behavior_index: "#0822",
        })
    } else if key == "goat"@ {
        Some(BehaviorEntry {
            behavior_object: "goat",
            base_dir: "actors/goat",
            default_behavior: "characters/goatcharater.bin",
            default_behavior_index: "#0029",
            master_behavior: "behaviors/goatbehavior.bin",
            master_behavior_index: "#0140",
        })
    } else if key == "hagraven"@ {
        Some(BehaviorEntry {
            behavior_object: "hagraven",
            base_dir: "actors/hagraven",
            default_behavior: "characters/hagravencharacter.bin",
            default_behavior_index: "#0029",
            master_behavior: "behaviors/havgravenbehavior.bin",
            master_behavior_index: "#0634",
        })
    } else if key == "hare"@ {
        Some(BehaviorEntry {
            behavior_object: "hare",
            base_dir: "actors/ambient/hare",
            default_behavior: "characters/harecharater.bin",
            default_behavior_index: "#0024",
            master_behavior: "behaviors/harebehavior.bin",
            master_behavior_index: "#0309",
        })
    } else if key == "hmdaedra"@ {
        Some(BehaviorEntry {
            behavior_object: "hmdaedra",
            base_dir: "actors/dlc02/hmdaedra",
            default_behavior: "characters/hmdaedracharacter.bin",
            default_behavior_index: "#0024",
            master_behavior: "behaviors/hmdaedra.bin",
            master_behavior_index: "#0504",
        })
    } else if key == "horker"@ {
        Some(BehaviorEntry {
            behavior_object: "horker",
            base_dir: "actors/horker",
            default_behavior: "characters/horker.bin",
            default_behavior_index: "#0029",
            master_behavior: "behaviors/horkerbehavior.bin",
            master_behavior_index: "#0161",
        })
    } else if key == "horse"@ {
        Some(BehaviorEntry {
            behavior_object: "horse",
            base_dir: "actors/horse",
            default_behavior: "characters/horse.bin",
            default_behavior_index: "#0029",
            master_behavior: "behaviors/horsebehavior.bin",
            master_behavior_index: "#0537",
        })
    } else if key == "icewraith"@ {
        Some(BehaviorEntry {
            behavior_object: "icewraith",
            base_dir: "actors/icewraith",
            default_behavior: "characters/icewraithcharacter.bin",
            default_behavior_index: "#0024",
            master_behavior: "behaviors/icewraithbehavior.bin",
            master_behavior_index: "#0266",
        })
    } else if key == "mammoth"@ {
        Some(BehaviorEntry {
            behavior_object: "mammoth",
            base_dir: "actors/mammoth",
            default_behavior: "characters/mammothcharacter.bin",
            default_behavior_index: "#0029",
            master_behavior: "behaviors/mammothbehavior.bin",
            master_behavior_index: "#0155",
        })
    } else if key == "mudcrab"@ {
        Some(BehaviorEntry {
            behavior_object: "mudcrab",
            base_dir: "actors/mudcrab",
            default_behavior: "characters/mudcrabcharacter.bin",
            default_behavior_index: "#0024",
            master_behavior: "behaviors/mudcrabbehavior.bin",
            master_behavior_index: "#0495",
        })
    } else if key == "netch"@ {
        Some(BehaviorEntry {
            behavior_object: "netch",
            base_dir: "actors/dlc02/netch",
            default_behavior: "characters/netchcharacter.bin",
            default_behavior_index: "#0024",
            master_behavior: "behaviors/netchbehavior.bin",
            master_behavior_index: "#0279",
        })
    } else if key == "riekling"@ {
        Some(BehaviorEntry {
            behavior_object: "riekling",
            base_dir: "actors/dlc02/riekling",
            default_behavior: "characters/rieklingcharacter.bin",
            default_behavior_index: "#0029",
            master_behavior: "behaviors/rieklingbehavior.bin",
            master_behavior_index: "#0769",
        })
    } else if key == "sabrecat"@ {
        Some(BehaviorEntry {
            behavior_object: "sabrecat",
            base_dir: "actors/sabrecat",
            default_behavior: "characters/sabrecat.bin",
            default_behavior_index: "#0029",
            master_behavior: "behaviors/sabrecatbehavior.bin",
            master_behavior_index: "#0140",
        })
    } else if key == "scrib"@ {
        Some(BehaviorEntry {
            behavior_object: "scrib",
            base_dir: "actors/dlc02/scrib",
            default_behavior: "characters/scrib.bin",
            default_behavior_index: "#0024",
            master_behavior: "behaviors/scribbehavior.bin",
            master_behavior_index: "#0605",
        })
    } else if key == "skeever"@ {
        Some(BehaviorEntry {
            behavior_object: "skeever",
            base_dir: "actors/skeever",
            default_behavior: "characters/skeevercharacter.bin",
            default_behavior_index: "#0029",
            master_behavior: "behaviors/skeeverbehavior.bin",
            master_behavior_index: "#0132",
        })
    } else if key == "slaughterfish"@ {
        Some(BehaviorEntry {
            behavior_object: "slaughterfish",
            base_dir: "actors/slaughterfish",
            default_behavior: "characters/slaughterfish.bin",
            default_behavior_index: "#0024",
            master_behavior: "behaviors/slaughterfishbehavior.bin",
            master_behavior_index: "#0286",
        })
    } else if key == "spriggan"@ {
        Some(BehaviorEntry {
            behavior_object: "spriggan",
            base_dir: "actors/spriggan",
            default_behavior: "characters/spriggan.bin",
            default_behavior_index: "#0024",
            master_behavior: "behaviors/sprigganbehavior.bin",
            master_behavior_index: "#0635",
        })
    } else if key == "troll"@ {
        Some(BehaviorEntry {
            behavior_object: "troll",
            base_dir: "actors/troll",
            default_behavior: "characters/troll.bin",
            default_behavior_index: "#0029",
            master_behavior: "behaviors/trollbehavior.bin",
            master_behavior_index: "#0724",
        })
    } else if key == "vampirebrute"@ {
        Some(BehaviorEntry {
            behavior_object: "vampirebrute",
            base_dir: "actors/dlc01/vampirebrute",
            default_behavior: "characters/vampirebrutecharacter.bin",
            default_behavior_index: "#0024",
            master_behavior: "behaviors/vampirebrutebehavior.bin",
            master_behavior_index: "#0527",
        })
    } else if key == "vampirelord"@ {
        Some(BehaviorEntry {
            behavior_object: "vampirelord",
            base_dir: "actors/vampirelord",
            default_behavior: "characters/vampirelord.bin",
            default_behavior_index: "#0029",
            master_behavior: "behaviors/vampirelord.bin",
            master_behavior_index: "#1114",
        })
    } else if key == "werewolfbeast"@ {
        Some(BehaviorEntry {
            behavior_object: "werewolfbeast",
            base_dir: "actors/werewolfbeast",
            default_behavior: "characters/werewolf.bin",
            default_behavior_index: "#0029",
            master_behavior: "behaviors/werewolfbehavior.bin",
            master_behavior_index: "#1207",
        })
    } else if key == "wisp"@ {
        Some(BehaviorEntry {
            behavior_object: "wisp",
            base_dir: "actors/wisp",
            default_behavior: "characters/wispcharacter.bin",
            default_behavior_index: "#0024",
            master_behavior: "behaviors/wispbehavior.bin",
            master_behavior_index: "#0410",
        })
    } else if key == "witchlight"@ {
        Some(BehaviorEntry {
            behavior_object: "witchlight",
            base_dir: "actors/witchlight",
            default_behavior: "characters/witchlightcharacter.bin",
            default_behavior_index: "#0024",
            master_behavior: "behaviors/witchlightbehavior.bin",
            master_behavior_index: "#0154",
        })
    } else if key == "wolf"@ {
        Some(BehaviorEntry {
            behavior_object: "wolf",
            base_dir: "actors/canine",
            default_behavior: "characters wolf/wolf.bin",
            default_behavior_index: "#0029",
            master_behavior: "behaviors wolf/wolfbehavior.bin",
            master_behavior_index: "#0169",
        })
    } else {
        None
    }
}

/// The entry of a behavior object in the `SKELETONS` table.
pub fn skeletons(key: &str) -> (r: Option<BehaviorEntry>)
    ensures
        r == spec_skeletons(key@),
{
    if str_eq(key, "draugr") {
        return Some(BehaviorEntry {
            behavior_object: "draugr",
            base_dir: "actors/draugr",
            default_behavior: "characterskeleton/draugr_skeleton.bin",
            default_behavior_index: "#0024",
            master_behavior: "behaviors/draugrbehavior.bin",
            master_behavior_index: "#2026",
        });
    }
    if str_eq(key, "dwarvenballistacenturion") {
        return Some(BehaviorEntry {
            behavior_object: "dwarvenballistacenturion",
            base_dir: "actors/dlc02/dwarvenballistacenturion",
            default_behavior: "characters/ballistacenturion.bin",
            default_behavior_index: "#0029",
            master_behavior: "behaviors/bcbehavior.bin",
            master_behavior_index: "#0492",
        });
    }
    if str_eq(key, "dwarvenspherecenturion") {
        return Some(BehaviorEntry {
            behavior_object: "dwarvenspherecenturion",
            base_dir: "actors/dwarvenspherecenturion",
            default_behavior: "characters/spherecenturion.bin",
            default_behavior_index: "#0024",
            master_behavior: "behaviors/scbehavior.bin",
            master_behavior_index: "#0797",
        });
    }
    if str_eq(key, "dwarvenspider") {
        return Some(BehaviorEntry {
            behavior_object: "dwarvenspider",
            base_dir: "actors/dwarvenspider",
            default_behavior: "characters/dwarvenspidercenturion.bin",
            default_behavior_index: "#0029",
            master_behavior: "behaviors/dwarvenspiderbehavior.bin",
            master_behavior_index: "#0404",
        });
    }
    if str_eq(key, "dwarvensteamcenturion") {
        return Some(BehaviorEntry {
            behavior_object: "dwarvensteamcenturion",
            base_dir: "actors/dwarvensteamcenturion",
            default_behavior: "characters/dwarvensteam.bin",
            default_behavior_index: "#0024",
            master_behavior: "behaviors/steambehavior.bin",
            master_behavior_index: "#0552",
        });
    }
    if str_eq(key, "falmer") {
        return Some(BehaviorEntry {
            behavior_object: "falmer",
            base_dir: "actors/falmer",
            default_behavior: "characters/falmer.bin",
            default_behavior_index: "#0029",
            master_behavior: "behaviors/falmerbehavior.bin",
            master_behavior_index: "#1314",
        });
    }
    if str_eq(key, "frostbitespider") {
        return Some(BehaviorEntry {
            behavior_object: "frostbitespider",
            base_dir: "actors/frostbitespider",
            default_behavior: "characters/frostbitespidercharacter.bin",
            default_behavior_index: "#0024",
            master_behavior: "behaviors/frostbitespiderbehavior.bin",
            master_behavior_index: "#0412",
        });
    }
    if str_eq(key, "giant") {
        return Some(BehaviorEntry {
            behavior_object: "giant",
            base_dir: "actors/giant",
            default_behavior: "characters/giantcharacter.bin",
            default_behavior_index: "#0024",
            master_behavior: "behaviors/giantbehavior.bin",
            master_behavior_index: "#0822",
        });
    }
    if str_eq(key, "goat") {
        return Some(BehaviorEntry {
            behavior_object: "goat",
            base_dir: "actors/goat",
            default_behavior: "characters/goatcharater.bin",
            default_behavior_index: "#0029",
            master_behavior: "behaviors/goatbehavior.bin",
            master_behavior_index: "#0140",
        });
    }
    if str_eq(key, "hagraven") {
        return Some(BehaviorEntry {
            behavior_object: "hagraven",
            base_dir: "actors/hagraven",
            default_behavior: "characters/hagravencharacter.bin",
            default_behavior_index: "#0029",
            master_behavior: "behaviors/havgravenbehavior.bin",
            master_behavior_index: "#0634",
        });
    }
    if str_eq(key, "hare") {
        return Some(BehaviorEntry {
            behavior_object: "hare",
            base_dir: "actors/ambient/hare",
            default_behavior: "characters/harecharater.bin",
            default_behavior_index: "#0024",
            master_behavior: "behaviors/harebehavior.bin",
            master_behavior_index: "#0309",
        });
    }
    if str_eq(key, "hmdaedra") {
        return Some(BehaviorEntry {
            behavior_object: "hmdaedra",
            base_dir: "actors/dlc02/hmdaedra",
            default_behavior: "characters/hmdaedracharacter.bin",
            default_behavior_index: "#0024",
            master_behavior: "behaviors/hmdaedra.bin",
            master_behavior_index: "#0504",
        });
    }
    if str_eq(key, "horker") {
        return Some(BehaviorEntry {
            behavior_object: "horker",
            base_dir: "actors/horker",
            default_behavior: "characters/horker.bin",
            default_behavior_index: "#0029",
            master_behavior: "behaviors/horkerbehavior.bin",
            master_behavior_index: "#0161",
        });
    }
    if str_eq(key, "horse") {
        return Some(BehaviorEntry {
            behavior_object: "horse",
            base_dir: "actors/horse",
            default_behavior: "characters/horse.bin",
            default_behavior_index: "#0029",
            master_behavior: "behaviors/horsebehavior.bin",
            master_behavior_index: "#0537",
        });
    }
    if str_eq(key, "icewraith") {
        return Some(BehaviorEntry {
            behavior_object: "icewraith",
            base_dir: "actors/icewraith",
            default_behavior: "characters/icewraithcharacter.bin",
            default_behavior_index: "#0024",
            master_behavior: "behaviors/icewraithbehavior.bin",
            master_behavior_index: "#0266",
        });
    }
    if str_eq(key, "mammoth") {
        return Some(BehaviorEntry {
            behavior_object: "mammoth",
            base_dir: "actors/mammoth",
            default_behavior: "characters/mammothcharacter.bin",
            default_behavior_index: "#0029",
            master_behavior: "behaviors/mammothbehavior.bin",
            master_behavior_index: "#0155",
        });
    }
    if str_eq(key, "mudcrab") {
        return Some(BehaviorEntry {
            behavior_object: "mudcrab",
            base_dir: "actors/mudcrab",
            default_behavior: "characters/mudcrabcharacter.bin",
            default_behavior_index: "#0024",
            master_behavior: "behaviors/mudcrabbehavior.bin",
            master_behavior_index: "#0495",
        });
    }
    if str_eq(key, "netch") {
        return Some(BehaviorEntry {
            behavior_object: "netch",
            base_dir: "actors/dlc02/netch",
            default_behavior: "characters/netchcharacter.bin",
            default_behavior_index: "#0024",
            master_behavior: "behaviors/netchbehavior.bin",
            master_behavior_index: "#0279",
        });
    }
    if str_eq(key, "riekling") {
        return Some(BehaviorEntry {
            behavior_object: "riekling",
            base_dir: "actors/dlc02/riekling",
            default_behavior: "characters/rieklingcharacter.bin",
            default_behavior_index: "#0029",
            master_behavior: "behaviors/rieklingbehavior.bin",
            master_behavior_index: "#0769",
        });
    }
    if str_eq(key, "sabrecat") {
        return Some(BehaviorEntry {
            behavior_object: "sabrecat",
            base_dir: "actors/sabrecat",
            default_behavior: "characters/sabrecat.bin",
            default_behavior_index: "#0029",
            master_behavior: "behaviors/sabrecatbehavior.bin",
            master_behavior_index: "#0140",
        });
    }
    if str_eq(key, "scrib") {
        return Some(BehaviorEntry {
            behavior_object: "scrib",
            base_dir: "actors/dlc02/scrib",
            default_behavior: "characters/scrib.bin",
            default_behavior_index: "#0024",
            master_behavior: "behaviors/scribbehavior.bin",
            master_behavior_index: "#0605",
        });
    }
    if str_eq(key, "skeever") {
        return Some(BehaviorEntry {
            behavior_object: "skeever",
            base_dir: "actors/skeever",
            default_behavior: "characters/skeevercharacter.bin",
            default_behavior_index: "#0029",
            master_behavior: "behaviors/skeeverbehavior.bin",
            master_behavior_index: "#0132",
        });
    }
    if str_eq(key, "slaughterfish") {
        return Some(BehaviorEntry {
            behavior_object: "slaughterfish",
            base_dir: "actors/slaughterfish",
            default_behavior: "characters/slaughterfish.bin",
            default_behavior_index: "#0024",
            master_behavior: "behaviors/slaughterfishbehavior.bin",
            master_behavior_index: "#0286",
        });
    }
    if str_eq(key, "spriggan") {
        return Some(BehaviorEntry {
            behavior_object: "spriggan",
            base_dir: "actors/spriggan",
            default_behavior: "characters/spriggan.bin",
            default_behavior_index: "#0024",
            master_behavior: "behaviors/sprigganbehavior.bin",
            master_behavior_index: "#0635",
        });
    }
    if str_eq(key, "troll") {
        return Some(BehaviorEntry {
            behavior_object: "troll",
            base_dir: "actors/troll",
            default_behavior: "characters/troll.bin",
            default_behavior_index: "#0029",
            master_behavior: "behaviors/trollbehavior.bin",
            master_behavior_index: "#0724",
        });
    }
    if str_eq(key, "vampirebrute") {
        return Some(BehaviorEntry {
            behavior_object: "vampirebrute",
            base_dir: "actors/dlc01/vampirebrute",
            default_behavior: "characters/vampirebrutecharacter.bin",
            default_behavior_index: "#0024",
            master_behavior: "behaviors/vampirebrutebehavior.bin",
            master_behavior_index: "#0527",
        });
    }
    if str_eq(key, "vampirelord") {
        return Some(BehaviorEntry {
            behavior_object: "vampirelord",
            base_dir: "actors/vampirelord",
            default_behavior: "characters/vampirelord.bin",
            default_behavior_index: "#0029",
            master_behavior: "behaviors/vampirelord.bin",
            master_behavior_index: "#1114",
        });
    }
    if str_eq(key, "werewolfbeast") {
        return Some(BehaviorEntry {
            behavior_object: "werewolfbeast",
            base_dir: "actors/werewolfbeast",
            default_behavior: "characters/werewolf.bin",
            default_behavior_index: "#0029",
            master_behavior: "behaviors/werewolfbehavior.bin",
            master_behavior_index: "#1207",
        });
    }
    if str_eq(key, "wisp") {
        return Some(BehaviorEntry {
            behavior_object: "wisp",
            base_dir: "actors/wisp",
            default_behavior: "characters/wispcharacter.bin",
            default_behavior_index: "#0024",
            master_behavior: "behaviors/wispbehavior.bin",
            master_behavior_index: "#0410",
        });
    }
    if str_eq(key, "witchlight") {
        return Some(BehaviorEntry {
            behavior_object: "witchlight",
            base_dir: "actors/witchlight",
            default_behavior: "characters/witchlightcharacter.bin",
            default_behavior_index: "#0024",
            master_behavior: "behaviors/witchlightbehavior.bin",
            master_behavior_index: "#0154",
        });
    }
    if str_eq(key, "wolf") {
        return Some(BehaviorEntry {
            behavior_object: "wolf",
            base_dir: "actors/canine",
            default_behavior: "characters wolf/wolf.bin",
            default_behavior_index: "#0029",
            master_behavior: "behaviors wolf/wolfbehavior.bin",
            master_behavior_index: "#0169",
        });
    }
    None
}

/// The `AUXBONES` table: the entry of a behavior object, if it has one.
pub open spec fn spec_auxbones(key: Seq<char>) -> Option<BehaviorEntry> {
    if key == "tail"@ {
        Some(BehaviorEntry {
            behavior_object: "tail",
            base_dir: "auxbones/tail",
            default_behavior: "characters/tailcharacter.bin",
            default_behavior_index: "#0024",
            master_behavior: "behaviors/tailbehavior.bin",
            master_behavior_index: "#0506",
        })
    } else {
        None
    }
}

/// The entry of a behavior object in the `AUXBONES` table.
pub fn auxbones(key: &str) -> (r: Option<BehaviorEntry>)
    ensures
        r == spec_auxbones(key@),
{
    if str_eq(key, "tail") {
        return Some(BehaviorEntry {
            behavior_object: "tail",
            base_dir: "auxbones/tail",
            default_behavior: "characters/tailcharacter.bin",
            default_behavior_index: "#0024",
            master_behavior: "behaviors/tailbehavior.bin",
            master_behavior_index: "#0506",
        });
    }
    None
}

/// The `PLANTS_ACTIVATORS` table: the entry of a behavior object, if it has one.
pub open spec fn spec_plants_activators(key: Seq<char>) -> Option<BehaviorEntry> {
    if key == "caveworm"@ {
        Some(BehaviorEntry {
            behavior_object: "caveworm",
            base_dir: "dlc01/plants/caveworm",
            default_behavior: "characters/character01.bin",
            default_behavior_index: "#0024",
            master_behavior: "behaviors/behavior00.bin",
            master_behavior_index: "#0073",
        })
    } else if key == "cavewormgroup"@ {
        Some(BehaviorEntry {
            behavior_object: "cavewormgroup",
            base_dir: "dlc01/plants/cavewormgroup",
            default_behavior: "characters/character01.bin",
            default_behavior_index: "#0024",
            master_behavior: "behaviors/behavior00.bin",
            master_behavior_index: "#0073",
        })
    } else if key == "cavewormsmall"@ {
        Some(BehaviorEntry {
            behavior_object: "cavewormsmall",
            base_dir: "dlc01/plants/cavewormsmall",
            default_behavior: "characters/character01.bin",
            default_behavior_index: "#0024",
            master_behavior: "behaviors/behavior00.bin",
            master_behavior_index: "#0073",
        })
    } else {
        None
    }
}

/// The entry of a behavior object in the `PLANTS_ACTIVATORS` table.
pub fn plants_activators(key: &str) -> (r: Option<BehaviorEntry>)
    ensures
        r == spec_plants_activators(key@),
{
    if str_eq(key, "caveworm") {
        return Some(BehaviorEntry {
            behavior_object: "caveworm",
            base_dir: "dlc01/plants/caveworm",
            default_behavior: "characters/character01.bin",
            default_behavior_index: "#0024",
            master_behavior: "behaviors/behavior00.bin",
            master_behavior_index: "#0073",
        });
    }
    if str_eq(key, "cavewormgroup") {
        return Some(BehaviorEntry {
            behavior_object: "cavewormgroup",
            base_dir: "dlc01/plants/cavewormgroup",
            default_behavior: "characters/character01.bin",
            default_behavior_index: "#0024",
            master_behavior: "behaviors/behavior00.bin",
            master_behavior_index: "#0073",
        });
    }
    if str_eq(key, "cavewormsmall") {
        return Some(BehaviorEntry {
            behavior_object: "cavewormsmall",
            base_dir: "dlc01/plants/cavewormsmall",
            default_behavior: "characters/character01.bin",
            default_behavior_index: "#0024",
            master_behavior: "behaviors/behavior00.bin",
            master_behavior_index: "#0073",
        });
    }
    None
}

/// Only `draugr` is both a creature and a skeleton: it alone has its animations registered
/// in both its behavior and its skeleton behavior.
pub proof fn lemma_creature_skeleton_overlap(k: Seq<char>)
    ensures
        (spec_creatures(k) is Some && spec_skeletons(k) is Some) <==> k == "draugr"@,
{
    reveal_strlit("atronachflame");
    reveal_strlit("atronachfrost");
    reveal_strlit("atronachstorm");
    reveal_strlit("bear");
    reveal_strlit("benthiclurker");
    reveal_strlit("boarriekling");
    reveal_strlit("chaurus");
    reveal_strlit("chaurusflyer");
    reveal_strlit("chicken");
    reveal_strlit("cow");
    reveal_strlit("deer");
    reveal_strlit("dog");
    reveal_strlit("dragon");
    reveal_strlit("dragonpriest");
    reveal_strlit("draugr");
    if spec_creatures(k) is Some && k != "draugr"@ {
        if k == "atronachflame"@ {
            lemma_not_skeleton_atronachflame();
        } else if k == "atronachfrost"@ {
            lemma_not_skeleton_atronachfrost();
        } else if k == "atronachstorm"@ {
            lemma_not_skeleton_atronachstorm();
        } else if k == "bear"@ {
            lemma_not_skeleton_bear();
        } else if k == "benthiclurker"@ {
            lemma_not_skeleton_benthiclurker();
        } else if k == "boarriekling"@ {
            lemma_not_skeleton_boarriekling();
        } else if k == "chaurus"@ {
            lemma_not_skeleton_chaurus();
        } else if k == "chaurusflyer"@ {
            lemma_not_skeleton_chaurusflyer();
        } else if k == "chicken"@ {
            lemma_not_skeleton_chicken();
        } else if k == "cow"@ {
            lemma_not_skeleton_cow();
        } else if k == "deer"@ {
            lemma_not_skeleton_deer();
        } else if k == "dog"@ {
            lemma_not_skeleton_dog();
        } else if k == "dragon"@ {
            lemma_not_skeleton_dragon();
        } else if k == "dragonpriest"@ {
            lemma_not_skeleton_dragonpriest();
        }
    }
}

/// `atronachflame` is not a skeleton.
proof fn lemma_not_skeleton_atronachflame()
    ensures
        spec_skeletons("atronachflame"@) is None,
{
    reveal_strlit("atronachflame");
    reveal_strlit("draugr");
    assert("atronachflame"@.len() != "draugr"@.len());
    reveal_strlit("dwarvenballistacenturion");
    assert("atronachflame"@.len() != "dwarvenballistacenturion"@.len());
    reveal_strlit("dwarvenspherecenturion");
    assert("atronachflame"@.len() != "dwarvenspherecenturion"@.len());
    reveal_strlit("dwarvenspider");
    assert("atronachflame"@[0] != "dwarvenspider"@[0]);
    reveal_strlit("dwarvensteamcenturion");
    assert("atronachflame"@.len() != "dwarvensteamcenturion"@.len());
    reveal_strlit("falmer");
    assert("atronachflame"@.len() != "falmer"@.len());
    reveal_strlit("frostbitespider");
    assert("atronachflame"@.len() != "frostbitespider"@.len());
    reveal_strlit("giant");
    assert("atronachflame"@.len() != "giant"@.len());
    reveal_strlit("goat");
    assert("atronachflame"@.len() != "goat"@.len());
    reveal_strlit("hagraven");
    assert("atronachflame"@.len() != "hagraven"@.len());
    reveal_strlit("hare");
    assert("atronachflame"@.len() != "hare"@.len());
    reveal_strlit("hmdaedra");
    assert("atronachflame"@.len() != "hmdaedra"@.len());
    reveal_strlit("horker");
    assert("atronachflame"@.len() != "horker"@.len());
    reveal_strlit("horse");
    assert("atronachflame"@.len() != "horse"@.len());
    reveal_strlit("icewraith");
    assert("atronachflame"@.len() != "icewraith"@.len());
    reveal_strlit("mammoth");
    assert("atronachflame"@.len() != "mammoth"@.len());
    reveal_strlit("mudcrab");
    assert("atronachflame"@.len() != "mudcrab"@.len());
    reveal_strlit("netch");
    assert("atronachflame"@.len() != "netch"@.len());
    reveal_strlit("riekling");
    assert("atronachflame"@.len() != "riekling"@.len());
    reveal_strlit("sabrecat");
    assert("atronachflame"@.len() != "sabrecat"@.len());
    reveal_strlit("scrib");
    assert("atronachflame"@.len() != "scrib"@.len());
    reveal_strlit("skeever");
    assert("atronachflame"@.len() != "skeever"@.len());
    reveal_strlit("slaughterfish");
    assert("atronachflame"@[0] != "slaughterfish"@[0]);
    reveal_strlit("spriggan");
    assert("atronachflame"@.len() != "spriggan"@.len());
    reveal_strlit("troll");
    assert("atronachflame"@.len() != "troll"@.len());
    reveal_strlit("vampirebrute");
    assert("atronachflame"@.len() != "vampirebrute"@.len());
    reveal_strlit("vampirelord");
    assert("atronachflame"@.len() != "vampirelord"@.len());
    reveal_strlit("werewolfbeast");
    assert("atronachflame"@[0] != "werewolfbeast"@[0]);
    reveal_strlit("wisp");
    assert("atronachflame"@.len() != "wisp"@.len());
    reveal_strlit("witchlight");
    assert("atronachflame"@.len() != "witchlight"@.len());
    reveal_strlit("wolf");
    assert("atronachflame"@.len() != "wolf"@.len());
}

/// `atronachfrost` is not a skeleton.
proof fn lemma_not_skeleton_atronachfrost()
    ensures
        spec_skeletons("atronachfrost"@) is None,
{
    reveal_strlit("atronachfrost");
    reveal_strlit("draugr");
    assert("atronachfrost"@.len() != "draugr"@.len());
    reveal_strlit("dwarvenballistacenturion");
    assert("atronachfrost"@.len() != "dwarvenballistacenturion"@.len());
    reveal_strlit("dwarvenspherecenturion");
    assert("atronachfrost"@.len() != "dwarvenspherecenturion"@.len());
    reveal_strlit("dwarvenspider");
    assert("atronachfrost"@[0] != "dwarvenspider"@[0]);
    reveal_strlit("dwarvensteamcenturion");
    assert("atronachfrost"@.len() != "dwarvensteamcenturion"@.len());
    reveal_strlit("falmer");
    assert("atronachfrost"@.len() != "falmer"@.len());
    reveal_strlit("frostbitespider");
    assert("atronachfrost"@.len() != "frostbitespider"@.len());
    reveal_strlit("giant");
    assert("atronachfrost"@.len() != "giant"@.len());
    reveal_strlit("goat");
    assert("atronachfrost"@.len() != "goat"@.len());
    reveal_strlit("hagraven");
    assert("atronachfrost"@.len() != "hagraven"@.len());
    reveal_strlit("hare");
    assert("atronachfrost"@.len() != "hare"@.len());
    reveal_strlit("hmdaedra");
    assert("atronachfrost"@.len() != "hmdaedra"@.len());
    reveal_strlit("horker");
    assert("atronachfrost"@.len() != "horker"@.len());
    reveal_strlit("horse");
    assert("atronachfrost"@.len() != "horse"@.len());
    reveal_strlit("icewraith");
    assert("atronachfrost"@.len() != "icewraith"@.len());
    reveal_strlit("mammoth");
    assert("atronachfrost"@.len() != "mammoth"@.len());
    reveal_strlit("mudcrab");
    assert("atronachfrost"@.len() != "mudcrab"@.len());
    reveal_strlit("netch");
    assert("atronachfrost"@.len() != "netch"@.len());
    reveal_strlit("riekling");
    assert("atronachfrost"@.len() != "riekling"@.len());
    reveal_strlit("sabrecat");
    assert("atronachfrost"@.len() != "sabrecat"@.len());
    reveal_strlit("scrib");
    assert("atronachfrost"@.len() != "scrib"@.len());
    reveal_strlit("skeever");
    assert("atronachfrost"@.len() != "skeever"@.len());
    reveal_strlit("slaughterfish");
    assert("atronachfrost"@[0] != "slaughterfish"@[0]);
    reveal_strlit("spriggan");
    assert("atronachfrost"@.len() != "spriggan"@.len());
    reveal_strlit("troll");
    assert("atronachfrost"@.len() != "troll"@.len());
    reveal_strlit("vampirebrute");
    assert("atronachfrost"@.len() != "vampirebrute"@.len());
    reveal_strlit("vampirelord");
    assert("atronachfrost"@.len() != "vampirelord"@.len());
    reveal_strlit("werewolfbeast");
    assert("atronachfrost"@[0] != "werewolfbeast"@[0]);
    reveal_strlit("wisp");
    assert("atronachfrost"@.len() != "wisp"@.len());
    reveal_strlit("witchlight");
    assert("atronachfrost"@.len() != "witchlight"@.len());
    reveal_strlit("wolf");
    assert("atronachfrost"@.len() != "wolf"@.len());
}

/// `atronachstorm` is not a skeleton.
proof fn lemma_not_skeleton_atronachstorm()
    ensures
        spec_skeletons("atronachstorm"@) is None,
{
    reveal_strlit("atronachstorm");
    reveal_strlit("draugr");
    assert("atronachstorm"@.len() != "draugr"@.len());
    reveal_strlit("dwarvenballistacenturion");
    assert("atronachstorm"@.len() != "dwarvenballistacenturion"@.len());
    reveal_strlit("dwarvenspherecenturion");
    assert("atronachstorm"@.len() != "dwarvenspherecenturion"@.len());
    reveal_strlit("dwarvenspider");
    assert("atronachstorm"@[0] != "dwarvenspider"@[0]);
    reveal_strlit("dwarvensteamcenturion");
    assert("atronachstorm"@.len() != "dwarvensteamcenturion"@.len());
    reveal_strlit("falmer");
    assert("atronachstorm"@.len() != "falmer"@.len());
    reveal_strlit("frostbitespider");
    assert("atronachstorm"@.len() != "frostbitespider"@.len());
    reveal_strlit("giant");
    assert("atronachstorm"@.len() != "giant"@.len());
    reveal_strlit("goat");
    assert("atronachstorm"@.len() != "goat"@.len());
    reveal_strlit("hagraven");
    assert("atronachstorm"@.len() != "hagraven"@.len());
    reveal_strlit("hare");
    assert("atronachstorm"@.len() != "hare"@.len());
    reveal_strlit("hmdaedra");
    assert("atronachstorm"@.len() != "hmdaedra"@.len());
    reveal_strlit("horker");
    assert("atronachstorm"@.len() != "horker"@.len());
    reveal_strlit("horse");
    assert("atronachstorm"@.len() != "horse"@.len());
    reveal_strlit("icewraith");
    assert("atronachstorm"@.len() != "icewraith"@.len());
    reveal_strlit("mammoth");
    assert("atronachstorm"@.len() != "mammoth"@.len());
    reveal_strlit("mudcrab");
    assert("atronachstorm"@.len() != "mudcrab"@.len());
    reveal_strlit("netch");
    assert("atronachstorm"@.len() != "netch"@.len());
    reveal_strlit("riekling");
    assert("atronachstorm"@.len() != "riekling"@.len());
    reveal_strlit("sabrecat");
    assert("atronachstorm"@.len() != "sabrecat"@.len());
    reveal_strlit("scrib");
    assert("atronachstorm"@.len() != "scrib"@.len());
    reveal_strlit("skeever");
    assert("atronachstorm"@.len() != "skeever"@.len());
    reveal_strlit("slaughterfish");
    assert("atronachstorm"@[0] != "slaughterfish"@[0]);
    reveal_strlit("spriggan");
    assert("atronachstorm"@.len() != "spriggan"@.len());
    reveal_strlit("troll");
    assert("atronachstorm"@.len() != "troll"@.len());
    reveal_strlit("vampirebrute");
    assert("atronachstorm"@.len() != "vampirebrute"@.len());
    reveal_strlit("vampirelord");
    assert("atronachstorm"@.len() != "vampirelord"@.len());
    reveal_strlit("werewolfbeast");
    assert("atronachstorm"@[0] != "werewolfbeast"@[0]);
    reveal_strlit("wisp");
    assert("atronachstorm"@.len() != "wisp"@.len());
    reveal_strlit("witchlight");
    assert("atronachstorm"@.len() != "witchlight"@.len());
    reveal_strlit("wolf");
    assert("atronachstorm"@.len() != "wolf"@.len());
}

/// `bear` is not a skeleton.
proof fn lemma_not_skeleton_bear()
    ensures
        spec_skeletons("bear"@) is None,
{
    reveal_strlit("bear");
    reveal_strlit("draugr");
    assert("bear"@.len() != "draugr"@.len());
    reveal_strlit("dwarvenballistacenturion");
    assert("bear"@.len() != "dwarvenballistacenturion"@.len());
    reveal_strlit("dwarvenspherecenturion");
    assert("bear"@.len() != "dwarvenspherecenturion"@.len());
    reveal_strlit("dwarvenspider");
    assert("bear"@.len() != "dwarvenspider"@.len());
    reveal_strlit("dwarvensteamcenturion");
    assert("bear"@.len() != "dwarvensteamcenturion"@.len());
    reveal_strlit("falmer");
    assert("bear"@.len() != "falmer"@.len());
    reveal_strlit("frostbitespider");
    assert("bear"@.len() != "frostbitespider"@.len());
    reveal_strlit("giant");
    assert("bear"@.len() != "giant"@.len());
    reveal_strlit("goat");
    assert("bear"@[0] != "goat"@[0]);
    reveal_strlit("hagraven");
    assert("bear"@.len() != "hagraven"@.len());
    reveal_strlit("hare");
    assert("bear"@[0] != "hare"@[0]);
    reveal_strlit("hmdaedra");
    assert("bear"@.len() != "hmdaedra"@.len());
    reveal_strlit("horker");
    assert("bear"@.len() != "horker"@.len());
    reveal_strlit("horse");
    assert("bear"@.len() != "horse"@.len());
    reveal_strlit("icewraith");
    assert("bear"@.len() != "icewraith"@.len());
    reveal_strlit("mammoth");
    assert("bear"@.len() != "mammoth"@.len());
    reveal_strlit("mudcrab");
    assert("bear"@.len() != "mudcrab"@.len());
    reveal_strlit("netch");
    assert("bear"@.len() != "netch"@.len());
    reveal_strlit("riekling");
    assert("bear"@.len() != "riekling"@.len());
    reveal_strlit("sabrecat");
    assert("bear"@.len() != "sabrecat"@.len());
    reveal_strlit("scrib");
    assert("bear"@.len() != "scrib"@.len());
    reveal_strlit("skeever");
    assert("bear"@.len() != "skeever"@.len());
    reveal_strlit("slaughterfish");
    assert("bear"@.len() != "slaughterfish"@.len());
    reveal_strlit("spriggan");
    assert("bear"@.len() != "spriggan"@.len());
    reveal_strlit("troll");
    assert("bear"@.len() != "troll"@.len());
    reveal_strlit("vampirebrute");
    assert("bear"@.len() != "vampirebrute"@.len());
    reveal_strlit("vampirelord");
    assert("bear"@.len() != "vampirelord"@.len());
    reveal_strlit("werewolfbeast");
    assert("bear"@.len() != "werewolfbeast"@.len());
    reveal_strlit("wisp");
    assert("bear"@[0] != "wisp"@[0]);
    reveal_strlit("witchlight");
    assert("bear"@.len() != "witchlight"@.len());
    reveal_strlit("wolf");
    assert("bear"@[0] != "wolf"@[0]);
}

/// `benthiclurker` is not a skeleton.
proof fn lemma_not_skeleton_benthiclurker()
    ensures
        spec_skeletons("benthiclurker"@) is None,
{
    reveal_strlit("benthiclurker");
    reveal_strlit("draugr");
    assert("benthiclurker"@.len() != "draugr"@.len());
    reveal_strlit("dwarvenballistacenturion");
    assert("benthiclurker"@.len() != "dwarvenballistacenturion"@.len());
    reveal_strlit("dwarvenspherecenturion");
    assert("benthiclurker"@.len() != "dwarvenspherecenturion"@.len());
    reveal_strlit("dwarvenspider");
    assert("benthiclurker"@[0] != "dwarvenspider"@[0]);
    reveal_strlit("dwarvensteamcenturion");
    assert("benthiclurker"@.len() != "dwarvensteamcenturion"@.len());
    reveal_strlit("falmer");
    assert("benthiclurker"@.len() != "falmer"@.len());
    reveal_strlit("frostbitespider");
    assert("benthiclurker"@.len() != "frostbitespider"@.len());
    reveal_strlit("giant");
    assert("benthiclurker"@.len() != "giant"@.len());
    reveal_strlit("goat");
    assert("benthiclurker"@.len() != "goat"@.len());
    reveal_strlit("hagraven");
    assert("benthiclurker"@.len() != "hagraven"@.len());
    reveal_strlit("hare");
    assert("benthiclurker"@.len() != "hare"@.len());
    reveal_strlit("hmdaedra");
    assert("benthiclurker"@.len() != "hmdaedra"@.len());
    reveal_strlit("horker");
    assert("benthiclurker"@.len() != "horker"@.len());
    reveal_strlit("horse");
    assert("benthiclurker"@.len() != "horse"@.len());
    reveal_strlit("icewraith");
    assert("benthiclurker"@.len() != "icewraith"@.len());
    reveal_strlit("mammoth");
    assert("benthiclurker"@.len() != "mammoth"@.len());
    reveal_strlit("mudcrab");
    assert("benthiclurker"@.len() != "mudcrab"@.len());
    reveal_strlit("netch");
    assert("benthiclurker"@.len() != "netch"@.len());
    reveal_strlit("riekling");
    assert("benthiclurker"@.len() != "riekling"@.len());
    reveal_strlit("sabrecat");
    assert("benthiclurker"@.len() != "sabrecat"@.len());
    reveal_strlit("scrib");
    assert("benthiclurker"@.len() != "scrib"@.len());
    reveal_strlit("skeever");
    assert("benthiclurker"@.len() != "skeever"@.len());
    reveal_strlit("slaughterfish");
    assert("benthiclurker"@[0] != "slaughterfish"@[0]);
    reveal_strlit("spriggan");
    assert("benthiclurker"@.len() != "spriggan"@.len());
    reveal_strlit("troll");
    assert("benthiclurker"@.len() != "troll"@.len());
    reveal_strlit("vampirebrute");
    assert("benthiclurker"@.len() != "vampirebrute"@.len());
    reveal_strlit("vampirelord");
    assert("benthiclurker"@.len() != "vampirelord"@.len());
    reveal_strlit("werewolfbeast");
    assert("benthiclurker"@[0] != "werewolfbeast"@[0]);
    reveal_strlit("wisp");
    assert("benthiclurker"@.len() != "wisp"@.len());
    reveal_strlit("witchlight");
    assert("benthiclurker"@.len() != "witchlight"@.len());
    reveal_strlit("wolf");
    assert("benthiclurker"@.len() != "wolf"@.len());
}

/// `boarriekling` is not a skeleton.
proof fn lemma_not_skeleton_boarriekling()
    ensures
        spec_skeletons("boarriekling"@) is None,
{
    reveal_strlit("boarriekling");
    reveal_strlit("draugr");
    assert("boarriekling"@.len() != "draugr"@.len());
    reveal_strlit("dwarvenballistacenturion");
    assert("boarriekling"@.len() != "dwarvenballistacenturion"@.len());
    reveal_strlit("dwarvenspherecenturion");
    assert("boarriekling"@.len() != "dwarvenspherecenturion"@.len());
    reveal_strlit("dwarvenspider");
    assert("boarriekling"@.len() != "dwarvenspider"@.len());
    reveal_strlit("dwarvensteamcenturion");
    assert("boarriekling"@.len() != "dwarvensteamcenturion"@.len());
    reveal_strlit("falmer");
    assert("boarriekling"@.len() != "falmer"@.len());
    reveal_strlit("frostbitespider");
    assert("boarriekling"@.len() != "frostbitespider"@.len());
    reveal_strlit("giant");
    assert("boarriekling"@.len() != "giant"@.len());
    reveal_strlit("goat");
    assert("boarriekling"@.len() != "goat"@.len());
    reveal_strlit("hagraven");
    assert("boarriekling"@.len() != "hagraven"@.len());
    reveal_strlit("hare");
    assert("boarriekling"@.len() != "hare"@.len());
    reveal_strlit("hmdaedra");
    assert("boarriekling"@.len() != "hmdaedra"@.len());
    reveal_strlit("horker");
    assert("boarriekling"@.len() != "horker"@.len());
    reveal_strlit("horse");
    assert("boarriekling"@.len() != "horse"@.len());
    reveal_strlit("icewraith");
    assert("boarriekling"@.len() != "icewraith"@.len());
    reveal_strlit("mammoth");
    assert("boarriekling"@.len() != "mammoth"@.len());
    reveal_strlit("mudcrab");
    assert("boarriekling"@.len() != "mudcrab"@.len());
    reveal_strlit("netch");
    assert("boarriekling"@.len() != "netch"@.len());
    reveal_strlit("riekling");
    assert("boarriekling"@.len() != "riekling"@.len());
    reveal_strlit("sabrecat");
    assert("boarriekling"@.len() != "sabrecat"@.len());
    reveal_strlit("scrib");
    assert("boarriekling"@.len() != "scrib"@.len());
    reveal_strlit("skeever");
    assert("boarriekling"@.len() != "skeever"@.len());
    reveal_strlit("slaughterfish");
    assert("boarriekling"@.len() != "slaughterfish"@.len());
    reveal_strlit("spriggan");
    assert("boarriekling"@.len() != "spriggan"@.len());
    reveal_strlit("troll");
    assert("boarriekling"@.len() != "troll"@.len());
    reveal_strlit("vampirebrute");
    assert("boarriekling"@[0] != "vampirebrute"@[0]);
    reveal_strlit("vampirelord");
    assert("boarriekling"@.len() != "vampirelord"@.len());
    reveal_strlit("werewolfbeast");
    assert("boarriekling"@.len() != "werewolfbeast"@.len());
    reveal_strlit("wisp");
    assert("boarriekling"@.len() != "wisp"@.len());
    reveal_strlit("witchlight");
    assert("boarriekling"@.len() != "witchlight"@.len());
    reveal_strlit("wolf");
    assert("boarriekling"@.len() != "wolf"@.len());
}

/// `chaurus` is not a skeleton.
proof fn lemma_not_skeleton_chaurus()
    ensures
        spec_skeletons("chaurus"@) is None,
{
    reveal_strlit("chaurus");
    reveal_strlit("draugr");
    assert("chaurus"@.len() != "draugr"@.len());
    reveal_strlit("dwarvenballistacenturion");
    assert("chaurus"@.len() != "dwarvenballistacenturion"@.len());
    reveal_strlit("dwarvenspherecenturion");
    assert("chaurus"@.len() != "dwarvenspherecenturion"@.len());
    reveal_strlit("dwarvenspider");
    assert("chaurus"@.len() != "dwarvenspider"@.len());
    reveal_strlit("dwarvensteamcenturion");
    assert("chaurus"@.len() != "dwarvensteamcenturion"@.len());
    reveal_strlit("falmer");
    assert("chaurus"@.len() != "falmer"@.len());
    reveal_strlit("frostbitespider");
    assert("chaurus"@.len() != "frostbitespider"@.len());
    reveal_strlit("giant");
    assert("chaurus"@.len() != "giant"@.len());
    reveal_strlit("goat");
    assert("chaurus"@.len() != "goat"@.len());
    reveal_strlit("hagraven");
    assert("chaurus"@.len() != "hagraven"@.len());
    reveal_strlit("hare");
    assert("chaurus"@.len() != "hare"@.len());
    reveal_strlit("hmdaedra");
    assert("chaurus"@.len() != "hmdaedra"@.len());
    reveal_strlit("horker");
    assert("chaurus"@.len() != "horker"@.len());
    reveal_strlit("horse");
    assert("chaurus"@.len() != "horse"@.len());
    reveal_strlit("icewraith");
    assert("chaurus"@.len() != "icewraith"@.len());
    reveal_strlit("mammoth");
    assert("chaurus"@[0] != "mammoth"@[0]);
    reveal_strlit("mudcrab");
    assert("chaurus"@[0] != "mudcrab"@[0]);
    reveal_strlit("netch");
    assert("chaurus"@.len() != "netch"@.len());
    reveal_strlit("riekling");
    assert("chaurus"@.len() != "riekling"@.len());
    reveal_strlit("sabrecat");
    assert("chaurus"@.len() != "sabrecat"@.len());
    reveal_strlit("scrib");
    assert("chaurus"@.len() != "scrib"@.len());
    reveal_strlit("skeever");
    assert("chaurus"@[0] != "skeever"@[0]);
    reveal_strlit("slaughterfish");
    assert("chaurus"@.len() != "slaughterfish"@.len());
    reveal_strlit("spriggan");
    assert("chaurus"@.len() != "spriggan"@.len());
    reveal_strlit("troll");
    assert("chaurus"@.len() != "troll"@.len());
    reveal_strlit("vampirebrute");
    assert("chaurus"@.len() != "vampirebrute"@.len());
    reveal_strlit("vampirelord");
    assert("chaurus"@.len() != "vampirelord"@.len());
    reveal_strlit("werewolfbeast");
    assert("chaurus"@.len() != "werewolfbeast"@.len());
    reveal_strlit("wisp");
    assert("chaurus"@.len() != "wisp"@.len());
    reveal_strlit("witchlight");
    assert("chaurus"@.len() != "witchlight"@.len());
    reveal_strlit("wolf");
    assert("chaurus"@.len() != "wolf"@.len());
}

/// `chaurusflyer` is not a skeleton.
proof fn lemma_not_skeleton_chaurusflyer()
    ensures
        spec_skeletons("chaurusflyer"@) is None,
{
    reveal_strlit("chaurusflyer");
    reveal_strlit("draugr");
    assert("chaurusflyer"@.len() != "draugr"@.len());
    reveal_strlit("dwarvenballistacenturion");
    assert("chaurusflyer"@.len() != "dwarvenballistacenturion"@.len());
    reveal_strlit("dwarvenspherecenturion");
    assert("chaurusflyer"@.len() != "dwarvenspherecenturion"@.len());
    reveal_strlit("dwarvenspider");
    assert("chaurusflyer"@.len() != "dwarvenspider"@.len());
    reveal_strlit("dwarvensteamcenturion");
    assert("chaurusflyer"@.len() != "dwarvensteamcenturion"@.len());
    reveal_strlit("falmer");
    assert("chaurusflyer"@.len() != "falmer"@.len());
    reveal_strlit("frostbitespider");
    assert("chaurusflyer"@.len() != "frostbitespider"@.len());
    reveal_strlit("giant");
    assert("chaurusflyer"@.len() != "giant"@.len());
    reveal_strlit("goat");
    assert("chaurusflyer"@.len() != "goat"@.len());
    reveal_strlit("hagraven");
    assert("chaurusflyer"@.len() != "hagraven"@.len());
    reveal_strlit("hare");
    assert("chaurusflyer"@.len() != "hare"@.len());
    reveal_strlit("hmdaedra");
    assert("chaurusflyer"@.len() != "hmdaedra"@.len());
    reveal_strlit("horker");
    assert("chaurusflyer"@.len() != "horker"@.len());
    reveal_strlit("horse");
    assert("chaurusflyer"@.len() != "horse"@.len());
    reveal_strlit("icewraith");
    assert("chaurusflyer"@.len() != "icewraith"@.len());
    reveal_strlit("mammoth");
    assert("chaurusflyer"@.len() != "mammoth"@.len());
    reveal_strlit("mudcrab");
    assert("chaurusflyer"@.len() != "mudcrab"@.len());
    reveal_strlit("netch");
    assert("chaurusflyer"@.len() != "netch"@.len());
    reveal_strlit("riekling");
    assert("chaurusflyer"@.len() != "riekling"@.len());
    reveal_strlit("sabrecat");
    assert("chaurusflyer"@.len() != "sabrecat"@.len());
    reveal_strlit("scrib");
    assert("chaurusflyer"@.len() != "scrib"@.len());
    reveal_strlit("skeever");
    assert("chaurusflyer"@.len() != "skeever"@.len());
    reveal_strlit("slaughterfish");
    assert("chaurusflyer"@.len() != "slaughterfish"@.len());
    reveal_strlit("spriggan");
    assert("chaurusflyer"@.len() != "spriggan"@.len());
    reveal_strlit("troll");
    assert("chaurusflyer"@.len() != "troll"@.len());
    reveal_strlit("vampirebrute");
    assert("chaurusflyer"@[0] != "vampirebrute"@[0]);
    reveal_strlit("vampirelord");
    assert("chaurusflyer"@.len() != "vampirelord"@.len());
    reveal_strlit("werewolfbeast");
    assert("chaurusflyer"@.len() != "werewolfbeast"@.len());
    reveal_strlit("wisp");
    assert("chaurusflyer"@.len() != "wisp"@.len());
    reveal_strlit("witchlight");
    assert("chaurusflyer"@.len() != "witchlight"@.len());
    reveal_strlit("wolf");
    assert("chaurusflyer"@.len() != "wolf"@.len());
}

/// `chicken` is not a skeleton.
proof fn lemma_not_skeleton_chicken()
    ensures
        spec_skeletons("chicken"@) is None,
{
    reveal_strlit("chicken");
    reveal_strlit("draugr");
    assert("chicken"@.len() != "draugr"@.len());
    reveal_strlit("dwarvenballistacenturion");
    assert("chicken"@.len() != "dwarvenballistacenturion"@.len());
    reveal_strlit("dwarvenspherecenturion");
    assert("chicken"@.len() != "dwarvenspherecenturion"@.len());
    reveal_strlit("dwarvenspider");
    assert("chicken"@.len() != "dwarvenspider"@.len());
    reveal_strlit("dwarvensteamcenturion");
    assert("chicken"@.len() != "dwarvensteamcenturion"@.len());
    reveal_strlit("falmer");
    assert("chicken"@.len() != "falmer"@.len());
    reveal_strlit("frostbitespider");
    assert("chicken"@.len() != "frostbitespider"@.len());
    reveal_strlit("giant");
    assert("chicken"@.len() != "giant"@.len());
    reveal_strlit("goat");
    assert("chicken"@.len() != "goat"@.len());
    reveal_strlit("hagraven");
    assert("chicken"@.len() != "hagraven"@.len());
    reveal_strlit("hare");
    assert("chicken"@.len() != "hare"@.len());
    reveal_strlit("hmdaedra");
    assert("chicken"@.len() != "hmdaedra"@.len());
    reveal_strlit("horker");
    assert("chicken"@.len() != "horker"@.len());
    reveal_strlit("horse");
    assert("chicken"@.len() != "horse"@.len());
    reveal_strlit("icewraith");
    assert("chicken"@.len() != "icewraith"@.len());
    reveal_strlit("mammoth");
    assert("chicken"@[0] != "mammoth"@[0]);
    reveal_strlit("mudcrab");
    assert("chicken"@[0] != "mudcrab"@[0]);
    reveal_strlit("netch");
    assert("chicken"@.len() != "netch"@.len());
    reveal_strlit("riekling");
    assert("chicken"@.len() != "riekling"@.len());
    reveal_strlit("sabrecat");
    assert("chicken"@.len() != "sabrecat"@.len());
    reveal_strlit("scrib");
    assert("chicken"@.len() != "scrib"@.len());
    reveal_strlit("skeever");
    assert("chicken"@[0] != "skeever"@[0]);
    reveal_strlit("slaughterfish");
    assert("chicken"@.len() != "slaughterfish"@.len());
    reveal_strlit("spriggan");
    assert("chicken"@.len() != "spriggan"@.len());
    reveal_strlit("troll");
    assert("chicken"@.len() != "troll"@.len());
    reveal_strlit("vampirebrute");
    assert("chicken"@.len() != "vampirebrute"@.len());
    reveal_strlit("vampirelord");
    assert("chicken"@.len() != "vampirelord"@.len());
    reveal_strlit("werewolfbeast");
    assert("chicken"@.len() != "werewolfbeast"@.len());
    reveal_strlit("wisp");
    assert("chicken"@.len() != "wisp"@.len());
    reveal_strlit("witchlight");
    assert("chicken"@.len() != "witchlight"@.len());
    reveal_strlit("wolf");
    assert("chicken"@.len() != "wolf"@.len());
}

/// `cow` is not a skeleton.
proof fn lemma_not_skeleton_cow()
    ensures
        spec_skeletons("cow"@) is None,
{
    reveal_strlit("cow");
    reveal_strlit("draugr");
    assert("cow"@.len() != "draugr"@.len());
    reveal_strlit("dwarvenballistacenturion");
    assert("cow"@.len() != "dwarvenballistacenturion"@.len());
    reveal_strlit("dwarvenspherecenturion");
    assert("cow"@.len() != "dwarvenspherecenturion"@.len());
    reveal_strlit("dwarvenspider");
    assert("cow"@.len() != "dwarvenspider"@.len());
    reveal_strlit("dwarvensteamcenturion");
    assert("cow"@.len() != "dwarvensteamcenturion"@.len());
    reveal_strlit("falmer");
    assert("cow"@.len() != "falmer"@.len());
    reveal_strlit("frostbitespider");
    assert("cow"@.len() != "frostbitespider"@.len());
    reveal_strlit("giant");
    assert("cow"@.len() != "giant"@.len());
    reveal_strlit("goat");
    assert("cow"@.len() != "goat"@.len());
    reveal_strlit("hagraven");
    assert("cow"@.len() != "hagraven"@.len());
    reveal_strlit("hare");
    assert("cow"@.len() != "hare"@.len());
    reveal_strlit("hmdaedra");
    assert("cow"@.len() != "hmdaedra"@.len());
    reveal_strlit("horker");
    assert("cow"@.len() != "horker"@.len());
    reveal_strlit("horse");
    assert("cow"@.len() != "horse"@.len());
    reveal_strlit("icewraith");
    assert("cow"@.len() != "icewraith"@.len());
    reveal_strlit("mammoth");
    assert("cow"@.len() != "mammoth"@.len());
    reveal_strlit("mudcrab");
    assert("cow"@.len() != "mudcrab"@.len());
    reveal_strlit("netch");
    assert("cow"@.len() != "netch"@.len());
    reveal_strlit("riekling");
    assert("cow"@.len() != "riekling"@.len());
    reveal_strlit("sabrecat");
    assert("cow"@.len() != "sabrecat"@.len());
    reveal_strlit("scrib");
    assert("cow"@.len() != "scrib"@.len());
    reveal_strlit("skeever");
    assert("cow"@.len() != "skeever"@.len());
    reveal_strlit("slaughterfish");
    assert("cow"@.len() != "slaughterfish"@.len());
    reveal_strlit("spriggan");
    assert("cow"@.len() != "spriggan"@.len());
    reveal_strlit("troll");
    assert("cow"@.len() != "troll"@.len());
    reveal_strlit("vampirebrute");
    assert("cow"@.len() != "vampirebrute"@.len());
    reveal_strlit("vampirelord");
    assert("cow"@.len() != "vampirelord"@.len());
    reveal_strlit("werewolfbeast");
    assert("cow"@.len() != "werewolfbeast"@.len());
    reveal_strlit("wisp");
    assert("cow"@.len() != "wisp"@.len());
    reveal_strlit("witchlight");
    assert("cow"@.len() != "witchlight"@.len());
    reveal_strlit("wolf");
    assert("cow"@.len() != "wolf"@.len());
}

/// `deer` is not a skeleton.
proof fn lemma_not_skeleton_deer()
    ensures
        spec_skeletons("deer"@) is None,
{
    reveal_strlit("deer");
    reveal_strlit("draugr");
    assert("deer"@.len() != "draugr"@.len());
    reveal_strlit("dwarvenballistacenturion");
    assert("deer"@.len() != "dwarvenballistacenturion"@.len());
    reveal_strlit("dwarvenspherecenturion");
    assert("deer"@.len() != "dwarvenspherecenturion"@.len());
    reveal_strlit("dwarvenspider");
    assert("deer"@.len() != "dwarvenspider"@.len());
    reveal_strlit("dwarvensteamcenturion");
    assert("deer"@.len() != "dwarvensteamcenturion"@.len());
    reveal_strlit("falmer");
    assert("deer"@.len() != "falmer"@.len());
    reveal_strlit("frostbitespider");
    assert("deer"@.len() != "frostbitespider"@.len());
    reveal_strlit("giant");
    assert("deer"@.len() != "giant"@.len());
    reveal_strlit("goat");
    assert("deer"@[0] != "goat"@[0]);
    reveal_strlit("hagraven");
    assert("deer"@.len() != "hagraven"@.len());
    reveal_strlit("hare");
    assert("deer"@[0] != "hare"@[0]);
    reveal_strlit("hmdaedra");
    assert("deer"@.len() != "hmdaedra"@.len());
    reveal_strlit("horker");
    assert("deer"@.len() != "horker"@.len());
    reveal_strlit("horse");
    assert("deer"@.len() != "horse"@.len());
    reveal_strlit("icewraith");
    assert("deer"@.len() != "icewraith"@.len());
    reveal_strlit("mammoth");
    assert("deer"@.len() != "mammoth"@.len());
    reveal_strlit("mudcrab");
    assert("deer"@.len() != "mudcrab"@.len());
    reveal_strlit("netch");
    assert("deer"@.len() != "netch"@.len());
    reveal_strlit("riekling");
    assert("deer"@.len() != "riekling"@.len());
    reveal_strlit("sabrecat");
    assert("deer"@.len() != "sabrecat"@.len());
    reveal_strlit("scrib");
    assert("deer"@.len() != "scrib"@.len());
    reveal_strlit("skeever");
    assert("deer"@.len() != "skeever"@.len());
    reveal_strlit("slaughterfish");
    assert("deer"@.len() != "slaughterfish"@.len());
    reveal_strlit("spriggan");
    assert("deer"@.len() != "spriggan"@.len());
    reveal_strlit("troll");
    assert("deer"@.len() != "troll"@.len());
    reveal_strlit("vampirebrute");
    assert("deer"@.len() != "vampirebrute"@.len());
    reveal_strlit("vampirelord");
    assert("deer"@.len() != "vampirelord"@.len());
    reveal_strlit("werewolfbeast");
    assert("deer"@.len() != "werewolfbeast"@.len());
    reveal_strlit("wisp");
    assert("deer"@[0] != "wisp"@[0]);
    reveal_strlit("witchlight");
    assert("deer"@.len() != "witchlight"@.len());
    reveal_strlit("wolf");
    assert("deer"@[0] != "wolf"@[0]);
}

/// `dog` is not a skeleton.
proof fn lemma_not_skeleton_dog()
    ensures
        spec_skeletons("dog"@) is None,
{
    reveal_strlit("dog");
    reveal_strlit("draugr");
    assert("dog"@.len() != "draugr"@.len());
    reveal_strlit("dwarvenballistacenturion");
    assert("dog"@.len() != "dwarvenballistacenturion"@.len());
    reveal_strlit("dwarvenspherecenturion");
    assert("dog"@.len() != "dwarvenspherecenturion"@.len());
    reveal_strlit("dwarvenspider");
    assert("dog"@.len() != "dwarvenspider"@.len());
    reveal_strlit("dwarvensteamcenturion");
    assert("dog"@.len() != "dwarvensteamcenturion"@.len());
    reveal_strlit("falmer");
    assert("dog"@.len() != "falmer"@.len());
    reveal_strlit("frostbitespider");
    assert("dog"@.len() != "frostbitespider"@.len());
    reveal_strlit("giant");
    assert("dog"@.len() != "giant"@.len());
    reveal_strlit("goat");
    assert("dog"@.len() != "goat"@.len());
    reveal_strlit("hagraven");
    assert("dog"@.len() != "hagraven"@.len());
    reveal_strlit("hare");
    assert("dog"@.len() != "hare"@.len());
    reveal_strlit("hmdaedra");
    assert("dog"@.len() != "hmdaedra"@.len());
    reveal_strlit("horker");
    assert("dog"@.len() != "horker"@.len());
    reveal_strlit("horse");
    assert("dog"@.len() != "horse"@.len());
    reveal_strlit("icewraith");
    assert("dog"@.len() != "icewraith"@.len());
    reveal_strlit("mammoth");
    assert("dog"@.len() != "mammoth"@.len());
    reveal_strlit("mudcrab");
    assert("dog"@.len() != "mudcrab"@.len());
    reveal_strlit("netch");
    assert("dog"@.len() != "netch"@.len());
    reveal_strlit("riekling");
    assert("dog"@.len() != "riekling"@.len());
    reveal_strlit("sabrecat");
    assert("dog"@.len() != "sabrecat"@.len());
    reveal_strlit("scrib");
    assert("dog"@.len() != "scrib"@.len());
    reveal_strlit("skeever");
    assert("dog"@.len() != "skeever"@.len());
    reveal_strlit("slaughterfish");
    assert("dog"@.len() != "slaughterfish"@.len());
    reveal_strlit("spriggan");
    assert("dog"@.len() != "spriggan"@.len());
    reveal_strlit("troll");
    assert("dog"@.len() != "troll"@.len());
    reveal_strlit("vampirebrute");
    assert("dog"@.len() != "vampirebrute"@.len());
    reveal_strlit("vampirelord");
    assert("dog"@.len() != "vampirelord"@.len());
    reveal_strlit("werewolfbeast");
    assert("dog"@.len() != "werewolfbeast"@.len());
    reveal_strlit("wisp");
    assert("dog"@.len() != "wisp"@.len());
    reveal_strlit("witchlight");
    assert("dog"@.len() != "witchlight"@.len());
    reveal_strlit("wolf");
    assert("dog"@.len() != "wolf"@.len());
}

/// `dragon` is not a skeleton.
proof fn lemma_not_skeleton_dragon()
    ensures
        spec_skeletons("dragon"@) is None,
{
    reveal_strlit("dragon");
    reveal_strlit("draugr");
    assert("dragon"@[3] != "draugr"@[3]);
    reveal_strlit("dwarvenballistacenturion");
    assert("dragon"@.len() != "dwarvenballistacenturion"@.len());
    reveal_strlit("dwarvenspherecenturion");
    assert("dragon"@.len() != "dwarvenspherecenturion"@.len());
    reveal_strlit("dwarvenspider");
    assert("dragon"@.len() != "dwarvenspider"@.len());
    reveal_strlit("dwarvensteamcenturion");
    assert("dragon"@.len() != "dwarvensteamcenturion"@.len());
    reveal_strlit("falmer");
    assert("dragon"@[0] != "falmer"@[0]);
    reveal_strlit("frostbitespider");
    assert("dragon"@.len() != "frostbitespider"@.len());
    reveal_strlit("giant");
    assert("dragon"@.len() != "giant"@.len());
    reveal_strlit("goat");
    assert("dragon"@.len() != "goat"@.len());
    reveal_strlit("hagraven");
    assert("dragon"@.len() != "hagraven"@.len());
    reveal_strlit("hare");
    assert("dragon"@.len() != "hare"@.len());
    reveal_strlit("hmdaedra");
    assert("dragon"@.len() != "hmdaedra"@.len());
    reveal_strlit("horker");
    assert("dragon"@[0] != "horker"@[0]);
    reveal_strlit("horse");
    assert("dragon"@.len() != "horse"@.len());
    reveal_strlit("icewraith");
    assert("dragon"@.len() != "icewraith"@.len());
    reveal_strlit("mammoth");
    assert("dragon"@.len() != "mammoth"@.len());
    reveal_strlit("mudcrab");
    assert("dragon"@.len() != "mudcrab"@.len());
    reveal_strlit("netch");
    assert("dragon"@.len() != "netch"@.len());
    reveal_strlit("riekling");
    assert("dragon"@.len() != "riekling"@.len());
    reveal_strlit("sabrecat");
    assert("dragon"@.len() != "sabrecat"@.len());
    reveal_strlit("scrib");
    assert("dragon"@.len() != "scrib"@.len());
    reveal_strlit("skeever");
    assert("dragon"@.len() != "skeever"@.len());
    reveal_strlit("slaughterfish");
    assert("dragon"@.len() != "slaughterfish"@.len());
    reveal_strlit("spriggan");
    assert("dragon"@.len() != "spriggan"@.len());
    reveal_strlit("troll");
    assert("dragon"@.len() != "troll"@.len());
    reveal_strlit("vampirebrute");
    assert("dragon"@.len() != "vampirebrute"@.len());
    reveal_strlit("vampirelord");
    assert("dragon"@.len() != "vampirelord"@.len());
    reveal_strlit("werewolfbeast");
    assert("dragon"@.len() != "werewolfbeast"@.len());
    reveal_strlit("wisp");
    assert("dragon"@.len() != "wisp"@.len());
    reveal_strlit("witchlight");
    assert("dragon"@.len() != "witchlight"@.len());
    reveal_strlit("wolf");
    assert("dragon"@.len() != "wolf"@.len());
}

/// `dragonpriest` is not a skeleton.
proof fn lemma_not_skeleton_dragonpriest()
    ensures
        spec_skeletons("dragonpriest"@) is None,
{
    reveal_strlit("dragonpriest");
    reveal_strlit("draugr");
    assert("dragonpriest"@.len() != "draugr"@.len());
    reveal_strlit("dwarvenballistacenturion");
    assert("dragonpriest"@.len() != "dwarvenballistacenturion"@.len());
    reveal_strlit("dwarvenspherecenturion");
    assert("dragonpriest"@.len() != "dwarvenspherecenturion"@.len());
    reveal_strlit("dwarvenspider");
    assert("dragonpriest"@.len() != "dwarvenspider"@.len());
    reveal_strlit("dwarvensteamcenturion");
    assert("dragonpriest"@.len() != "dwarvensteamcenturion"@.len());
    reveal_strlit("falmer");
    assert("dragonpriest"@.len() != "falmer"@.len());
    reveal_strlit("frostbitespider");
    assert("dragonpriest"@.len() != "frostbitespider"@.len());
    reveal_strlit("giant");
    assert("dragonpriest"@.len() != "giant"@.len());
    reveal_strlit("goat");
    assert("dragonpriest"@.len() != "goat"@.len());
    reveal_strlit("hagraven");
    assert("dragonpriest"@.len() != "hagraven"@.len());
    reveal_strlit("hare");
    assert("dragonpriest"@.len() != "hare"@.len());
    reveal_strlit("hmdaedra");
    assert("dragonpriest"@.len() != "hmdaedra"@.len());
    reveal_strlit("horker");
    assert("dragonpriest"@.len() != "horker"@.len());
    reveal_strlit("horse");
    assert("dragonpriest"@.len() != "horse"@.len());
    reveal_strlit("icewraith");
    assert("dragonpriest"@.len() != "icewraith"@.len());
    reveal_strlit("mammoth");
    assert("dragonpriest"@.len() != "mammoth"@.len());
    reveal_strlit("mudcrab");
    assert("dragonpriest"@.len() != "mudcrab"@.len());
    reveal_strlit("netch");
    assert("dragonpriest"@.len() != "netch"@.len());
    reveal_strlit("riekling");
    assert("dragonpriest"@.len() != "riekling"@.len());
    reveal_strlit("sabrecat");
    assert("dragonpriest"@.len() != "sabrecat"@.len());
    reveal_strlit("scrib");
    assert("dragonpriest"@.len() != "scrib"@.len());
    reveal_strlit("skeever");
    assert("dragonpriest"@.len() != "skeever"@.len());
    reveal_strlit("slaughterfish");
    assert("dragonpriest"@.len() != "slaughterfish"@.len());
    reveal_strlit("spriggan");
    assert("dragonpriest"@.len() != "spriggan"@.len());
    reveal_strlit("troll");
    assert("dragonpriest"@.len() != "troll"@.len());
    reveal_strlit("vampirebrute");
    assert("dragonpriest"@[0] != "vampirebrute"@[0]);
    reveal_strlit("vampirelord");
    assert("dragonpriest"@.len() != "vampirelord"@.len());
    reveal_strlit("werewolfbeast");
    assert("dragonpriest"@.len() != "werewolfbeast"@.len());
    reveal_strlit("wisp");
    assert("dragonpriest"@.len() != "wisp"@.len());
    reveal_strlit("witchlight");
    assert("dragonpriest"@.len() != "witchlight"@.len());
    reveal_strlit("wolf");
    assert("dragonpriest"@.len() != "wolf"@.len());
}

/// The tables of behavior entries.
#[derive(Debug, Clone, Copy, PartialEq, Eq)]
pub enum BehaviorTable {
    Humanoid,
    Creatures,
    Skeletons,
    AuxBones,
    PlantsActivators,
}

/// The entry of `key` in `table`.
pub open spec fn spec_lookup(table: BehaviorTable, key: Seq<char>) -> Option<BehaviorEntry> {
    match table {
        BehaviorTable::Humanoid => spec_humanoid(key),
        BehaviorTable::Creatures => spec_creatures(key),
        BehaviorTable::Skeletons => spec_skeletons(key),
        BehaviorTable::AuxBones => spec_auxbones(key),
        BehaviorTable::PlantsActivators => spec_plants_activators(key),
    }
}

/// The template of an entry's master behavior.
pub open spec fn master_template(e: BehaviorEntry) -> Seq<char> {
    spec_meshes_key(e.base_dir@, e.master_behavior@)
}

/// The template of an entry's default behavior.
pub open spec fn default_template(e: BehaviorEntry) -> Seq<char> {
    spec_meshes_key(e.base_dir@, e.default_behavior@)
}

/// Every entry is filed under its own behavior object.
pub proof fn lemma_entries_filed_under_their_object(table: BehaviorTable, key: Seq<char>)
    ensures
        spec_lookup(table, key) matches Some(e) ==> e.behavior_object@ == key,
{
}

/// No two behavior objects, in any of the tables, share a master behavior template, nor a
/// default behavior template: patching one object's behaviors never reaches another's.
pub proof fn lemma_behavior_templates_distinct(t1: BehaviorTable, k1: Seq<char>, t2: BehaviorTable, k2: Seq<char>)
    ensures
        spec_lookup(t1, k1) matches Some(e1) ==> (spec_lookup(t2, k2) matches Some(e2) ==> (master_template(e1)
            == master_template(e2) ==> k1 == k2) && (default_template(e1) == default_template(e2) ==> k1 == k2)),
{
    lemma_template_owners(t1, k1);
    lemma_template_owners(t2, k2);
}

proof fn lemma_template_owners(table: BehaviorTable, key: Seq<char>)
    ensures
        spec_lookup(table, key) matches Some(e) ==> master_owner(master_template(e)) == Some(key) && default_owner(
            default_template(e),
        ) == Some(key),
{
    match table {
        BehaviorTable::Humanoid => lemma_template_owners_humanoid(key),
        BehaviorTable::Creatures => lemma_template_owners_creatures(key),
        BehaviorTable::Skeletons => lemma_template_owners_skeletons(key),
        BehaviorTable::AuxBones => lemma_template_owners_aux_bones(key),
        BehaviorTable::PlantsActivators => lemma_template_owners_plants_activators(key),
    }
}

proof fn lemma_template_owners_humanoid(key: Seq<char>)
    ensures
        spec_humanoid(key) matches Some(e) ==> master_owner(master_template(e)) == Some(key) && default_owner(
            default_template(e),
        ) == Some(key),
{
    lemma_master_owner_0();
    lemma_master_owner_1();
    lemma_default_owner_0();
    lemma_default_owner_1();
}

proof fn lemma_template_owners_creatures(key: Seq<char>)
    ensures
        spec_creatures(key) matches Some(e) ==> master_owner(master_template(e)) == Some(key) && default_owner(
            default_template(e),
        ) == Some(key),
{
    lemma_master_owner_2();
    lemma_master_owner_3();
    lemma_master_owner_4();
    lemma_master_owner_5();
    lemma_master_owner_6();
    lemma_master_owner_7();
    lemma_master_owner_8();
    lemma_master_owner_9();
    lemma_master_owner_10();
    lemma_master_owner_11();
    lemma_master_owner_12();
    lemma_master_owner_13();
    lemma_master_owner_14();
    lemma_master_owner_15();
    lemma_master_owner_16();
    lemma_default_owner_2();
    lemma_default_owner_3();
    lemma_default_owner_4();
    lemma_default_owner_5();
    lemma_default_owner_6();
    lemma_default_owner_7();
    lemma_default_owner_8();
    lemma_default_owner_9();
    lemma_default_owner_10();
    lemma_default_owner_11();
    lemma_default_owner_12();
    lemma_default_owner_13();
    lemma_default_owner_14();
    lemma_default_owner_15();
    lemma_default_owner_16();
}

proof fn lemma_template_owners_skeletons(key: Seq<char>)
    ensures
        spec_skeletons(key) matches Some(e) ==> master_owner(master_template(e)) == Some(key) && default_owner(
            default_template(e),
        ) == Some(key),
{
    lemma_master_owner_16();
    lemma_master_owner_17();
    lemma_master_owner_18();
    lemma_master_owner_19();
    lemma_master_owner_20();
    lemma_master_owner_21();
    lemma_master_owner_22();
    lemma_master_owner_23();
    lemma_master_owner_24();
    lemma_master_owner_25();
    lemma_master_owner_26();
    lemma_master_owner_27();
    lemma_master_owner_28();
    lemma_master_owner_29();
    lemma_master_owner_30();
    lemma_master_owner_31();
    lemma_master_owner_32();
    lemma_master_owner_33();
    lemma_master_owner_34();
    lemma_master_owner_35();
    lemma_master_owner_36();
    lemma_master_owner_37();
    lemma_master_owner_38();
    lemma_master_owner_39();
    lemma_master_owner_40();
    lemma_master_owner_41();
    lemma_master_owner_42();
    lemma_master_owner_43();
    lemma_master_owner_44();
    lemma_master_owner_45();
    lemma_master_owner_46();
    lemma_default_owner_17();
    lemma_default_owner_18();
    lemma_default_owner_19();
    lemma_default_owner_20();
    lemma_default_owner_21();
    lemma_default_owner_22();
    lemma_default_owner_23();
    lemma_default_owner_24();
    lemma_default_owner_25();
    lemma_default_owner_26();
    lemma_default_owner_27();
    lemma_default_owner_28();
    lemma_default_owner_29();
    lemma_default_owner_30();
    lemma_default_owner_31();
    lemma_default_owner_32();
    lemma_default_owner_33();
    lemma_default_owner_34();
    lemma_default_owner_35();
    lemma_default_owner_36();
    lemma_default_owner_37();
    lemma_default_owner_38();
    lemma_default_owner_39();
    lemma_default_owner_40();
    lemma_default_owner_41();
    lemma_default_owner_42();
    lemma_default_owner_43();
    lemma_default_owner_44();
    lemma_default_owner_45();
    lemma_default_owner_46();
    lemma_default_owner_47();
}

proof fn lemma_template_owners_aux_bones(key: Seq<char>)
    ensures
        spec_auxbones(key) matches Some(e) ==> master_owner(master_template(e)) == Some(key) && default_owner(
            default_template(e),
        ) == Some(key),
{
    lemma_master_owner_47();
    lemma_default_owner_48();
}

proof fn lemma_template_owners_plants_activators(key: Seq<char>)
    ensures
        spec_plants_activators(key) matches Some(e) ==> master_owner(master_template(e)) == Some(key) && default_owner(
            default_template(e),
        ) == Some(key),
{
    lemma_master_owner_48();
    lemma_master_owner_49();
    lemma_master_owner_50();
    lemma_default_owner_49();
    lemma_default_owner_50();
    lemma_default_owner_51();
}

/// The master behavior of the character's and of each creature's entry is the Nemesis
/// template of a file stem (a 1st person one for `character/_1stperson`).
pub proof fn lemma_master_behaviors_are_templates(key: Seq<char>)
    ensures
        spec_humanoid(key) matches Some(e) ==> exists|stem: Seq<char>, first_person: bool|
            first_person == (key == "character/_1stperson"@) && #[trigger] template_of(stem, first_person) == Some(
                master_template(e),
            ),
        spec_creatures(key) matches Some(e) ==> exists|stem: Seq<char>|
            #[trigger] template_of(stem, false) == Some(master_template(e)),
{
    lemma_master_template_of_character__1stperson();
    lemma_master_template_of_character();
    lemma_master_template_of_atronachflame();
    lemma_master_template_of_atronachfrost();
    lemma_master_template_of_atronachstorm();
    lemma_master_template_of_bear();
    lemma_master_template_of_benthiclurker();
    lemma_master_template_of_boarriekling();
    lemma_master_template_of_chaurus();
    lemma_master_template_of_chaurusflyer();
    lemma_master_template_of_chicken();
    lemma_master_template_of_cow();
    lemma_master_template_of_deer();
    lemma_master_template_of_dog();
    lemma_master_template_of_dragon();
    lemma_master_template_of_dragonpriest();
    lemma_master_template_of_draugr();
}

/// The object whose master behavior is the template `t`.
spec fn master_owner(t: Seq<char>) -> Option<Seq<char>> {
    if t.len() == 57 && t == "meshes/actors/character/_1stperson/behaviors/0_master.bin"@ {
        Some("character/_1stperson"@)
    } else if t.len() == 46 && t == "meshes/actors/character/behaviors/0_master.bin"@ {
        Some("character"@)
    } else if t.len() == 63 && t == "meshes/actors/atronachflame/behaviors/atronachflamebehavior.bin"@ {
        Some("atronachflame"@)
    } else if t.len() == 63 && t == "meshes/actors/atronachfrost/behaviors/atronachfrostbehavior.bin"@ {
        Some("atronachfrost"@)
    } else if t.len() == 63 && t == "meshes/actors/atronachstorm/behaviors/atronachstormbehavior.bin"@ {
        Some("atronachstorm"@)
    } else if t.len() == 45 && t == "meshes/actors/bear/behaviors/bearbehavior.bin"@ {
        Some("bear"@)
    } else if t.len() == 69 && t == "meshes/actors/dlc02/benthiclurker/behaviors/benthiclurkerbehavior.bin"@ {
        Some("benthiclurker"@)
    } else if t.len() == 59 && t == "meshes/actors/dlc02/boarriekling/behaviors/boarbehavior.bin"@ {
        Some("boarriekling"@)
    } else if t.len() == 51 && t == "meshes/actors/chaurus/behaviors/chaurusbehavior.bin"@ {
        Some("chaurus"@)
    } else if t.len() == 67 && t == "meshes/actors/dlc01/chaurusflyer/behaviors/chaurusflyerbehavior.bin"@ {
        Some("chaurusflyer"@)
    } else if t.len() == 59 && t == "meshes/actors/ambient/chicken/behaviors/chickenbehavior.bin"@ {
        Some("chicken"@)
    } else if t.len() == 45 && t == "meshes/actors/cow/behaviors/h-cowbehavior.bin"@ {
        Some("cow"@)
    } else if t.len() == 45 && t == "meshes/actors/deer/behaviors/deerbehavior.bin"@ {
        Some("deer"@)
    } else if t.len() == 46 && t == "meshes/actors/canine/behaviors/dogbehavior.bin"@ {
        Some("dog"@)
    } else if t.len() == 49 && t == "meshes/actors/dragon/behaviors/dragonbehavior.bin"@ {
        Some("dragon"@)
    } else if t.len() == 54 && t == "meshes/actors/dragonpriest/behaviors/dragon_priest.bin"@ {
        Some("dragonpriest"@)
    } else if t.len() == 49 && t == "meshes/actors/draugr/behaviors/draugrbehavior.bin"@ {
        Some("draugr"@)
    } else if t.len() == 69 && t == "meshes/actors/dlc02/dwarvenballistacenturion/behaviors/bcbehavior.bin"@ {
        Some("dwarvenballistacenturion"@)
    } else if t.len() == 61 && t == "meshes/actors/dwarvenspherecenturion/behaviors/scbehavior.bin"@ {
        Some("dwarvenspherecenturion"@)
    } else if t.len() == 63 && t == "meshes/actors/dwarvenspider/behaviors/dwarvenspiderbehavior.bin"@ {
        Some("dwarvenspider"@)
    } else if t.len() == 63 && t == "meshes/actors/dwarvensteamcenturion/behaviors/steambehavior.bin"@ {
        Some("dwarvensteamcenturion"@)
    } else if t.len() == 49 && t == "meshes/actors/falmer/behaviors/falmerbehavior.bin"@ {
        Some("falmer"@)
    } else if t.len() == 67 && t == "meshes/actors/frostbitespider/behaviors/frostbitespiderbehavior.bin"@ {
        Some("frostbitespider"@)
    } else if t.len() == 47 && t == "meshes/actors/giant/behaviors/giantbehavior.bin"@ {
        Some("giant"@)
    } else if t.len() == 45 && t == "meshes/actors/goat/behaviors/goatbehavior.bin"@ {
        Some("goat"@)
    } else if t.len() == 54 && t == "meshes/actors/hagraven/behaviors/havgravenbehavior.bin"@ {
        Some("hagraven"@)
    } else if t.len() == 53 && t == "meshes/actors/ambient/hare/behaviors/harebehavior.bin"@ {
        Some("hare"@)
    } else if t.len() == 51 && t == "meshes/actors/dlc02/hmdaedra/behaviors/hmdaedra.bin"@ {
        Some("hmdaedra"@)
    } else if t.len() == 49 && t == "meshes/actors/horker/behaviors/horkerbehavior.bin"@ {
        Some("horker"@)
    } else if t.len() == 47 && t == "meshes/actors/horse/behaviors/horsebehavior.bin"@ {
        Some("horse"@)
    } else if t.len() == 55 && t == "meshes/actors/icewraith/behaviors/icewraithbehavior.bin"@ {
        Some("icewraith"@)
    } else if t.len() == 51 && t == "meshes/actors/mammoth/behaviors/mammothbehavior.bin"@ {
        Some("mammoth"@)
    } else if t.len() == 51 && t == "meshes/actors/mudcrab/behaviors/mudcrabbehavior.bin"@ {
        Some("mudcrab"@)
    } else if t.len() == 53 && t == "meshes/actors/dlc02/netch/behaviors/netchbehavior.bin"@ {
        Some("netch"@)
    } else if t.len() == 59 && t == "meshes/actors/dlc02/riekling/behaviors/rieklingbehavior.bin"@ {
        Some("riekling"@)
    } else if t.len() == 53 && t == "meshes/actors/sabrecat/behaviors/sabrecatbehavior.bin"@ {
        Some("sabrecat"@)
    } else if t.len() == 53 && t == "meshes/actors/dlc02/scrib/behaviors/scribbehavior.bin"@ {
        Some("scrib"@)
    } else if t.len() == 51 && t == "meshes/actors/skeever/behaviors/skeeverbehavior.bin"@ {
        Some("skeever"@)
    } else if t.len() == 63 && t == "meshes/actors/slaughterfish/behaviors/slaughterfishbehavior.bin"@ {
        Some("slaughterfish"@)
    } else if t.len() == 53 && t == "meshes/actors/spriggan/behaviors/sprigganbehavior.bin"@ {
        Some("spriggan"@)
    } else if t.len() == 47 && t == "meshes/actors/troll/behaviors/trollbehavior.bin"@ {
        Some("troll"@)
    } else if t.len() == 67 && t == "meshes/actors/dlc01/vampirebrute/behaviors/vampirebrutebehavior.bin"@ {
        Some("vampirebrute"@)
    } else if t.len() == 51 && t == "meshes/actors/vampirelord/behaviors/vampirelord.bin"@ {
        Some("vampirelord"@)
    } else if t.len() == 58 && t == "meshes/actors/werewolfbeast/behaviors/werewolfbehavior.bin"@ {
        Some("werewolfbeast"@)
    } else if t.len() == 45 && t == "meshes/actors/wisp/behaviors/wispbehavior.bin"@ {
        Some("wisp"@)
    } else if t.len() == 57 && t == "meshes/actors/witchlight/behaviors/witchlightbehavior.bin"@ {
        Some("witchlight"@)
    } else if t.len() == 52 && t == "meshes/actors/canine/behaviors wolf/wolfbehavior.bin"@ {
        Some("wolf"@)
    } else if t.len() == 47 && t == "meshes/auxbones/tail/behaviors/tailbehavior.bin"@ {
        Some("tail"@)
    } else if t.len() == 53 && t == "meshes/dlc01/plants/caveworm/behaviors/behavior00.bin"@ {
        Some("caveworm"@)
    } else if t.len() == 58 && t == "meshes/dlc01/plants/cavewormgroup/behaviors/behavior00.bin"@ {
        Some("cavewormgroup"@)
    } else if t.len() == 58 && t == "meshes/dlc01/plants/cavewormsmall/behaviors/behavior00.bin"@ {
        Some("cavewormsmall"@)
    } else {
        None
    }
}

proof fn lemma_master_owner_0()
    ensures
        master_owner(spec_meshes_key("actors/character/_1stperson"@, "behaviors/0_master.bin"@)) == Some("character/_1stperson"@),
{
    reveal_strlit("meshes/");
    reveal_strlit("/");
    reveal_strlit("meshes/actors/character/_1stperson/behaviors/0_master.bin");
    reveal_strlit("actors/character/_1stperson");
    reveal_strlit("behaviors/0_master.bin");
    assert(spec_meshes_key("actors/character/_1stperson"@, "behaviors/0_master.bin"@) =~= "meshes/actors/character/_1stperson/behaviors/0_master.bin"@);
}

proof fn lemma_master_owner_1()
    ensures
        master_owner(spec_meshes_key("actors/character"@, "behaviors/0_master.bin"@)) == Some("character"@),
{
    reveal_strlit("meshes/");
    reveal_strlit("/");
    reveal_strlit("meshes/actors/character/behaviors/0_master.bin");
    reveal_strlit("actors/character");
    reveal_strlit("behaviors/0_master.bin");
    assert(spec_meshes_key("actors/character"@, "behaviors/0_master.bin"@) =~= "meshes/actors/character/behaviors/0_master.bin"@);
}

proof fn lemma_master_owner_2()
    ensures
        master_owner(spec_meshes_key("actors/atronachflame"@, "behaviors/atronachflamebehavior.bin"@)) == Some("atronachflame"@),
{
    reveal_strlit("meshes/");
    reveal_strlit("/");
    reveal_strlit("meshes/actors/atronachflame/behaviors/atronachflamebehavior.bin");
    reveal_strlit("actors/atronachflame");
    reveal_strlit("behaviors/atronachflamebehavior.bin");
    assert(spec_meshes_key("actors/atronachflame"@, "behaviors/atronachflamebehavior.bin"@) =~= "meshes/actors/atronachflame/behaviors/atronachflamebehavior.bin"@);
}

proof fn lemma_master_owner_3()
    ensures
        master_owner(spec_meshes_key("actors/atronachfrost"@, "behaviors/atronachfrostbehavior.bin"@)) == Some("atronachfrost"@),
{
    reveal_strlit("meshes/");
    reveal_strlit("/");
    reveal_strlit("meshes/actors/atronachfrost/behaviors/atronachfrostbehavior.bin");
    reveal_strlit("actors/atronachfrost");
    reveal_strlit("behaviors/atronachfrostbehavior.bin");
    assert(spec_meshes_key("actors/atronachfrost"@, "behaviors/atronachfrostbehavior.bin"@) =~= "meshes/actors/atronachfrost/behaviors/atronachfrostbehavior.bin"@);
    reveal_strlit("meshes/actors/atronachflame/behaviors/atronachflamebehavior.bin");
    assert("meshes/actors/atronachfrost/behaviors/atronachfrostbehavior.bin"@[23] != "meshes/actors/atronachflame/behaviors/atronachflamebehavior.bin"@[23]);
}

proof fn lemma_master_owner_4()
    ensures
        master_owner(spec_meshes_key("actors/atronachstorm"@, "behaviors/atronachstormbehavior.bin"@)) == Some("atronachstorm"@),
{
    reveal_strlit("meshes/");
    reveal_strlit("/");
    reveal_strlit("meshes/actors/atronachstorm/behaviors/atronachstormbehavior.bin");
    reveal_strlit("actors/atronachstorm");
    reveal_strlit("behaviors/atronachstormbehavior.bin");
    assert(spec_meshes_key("actors/atronachstorm"@, "behaviors/atronachstormbehavior.bin"@) =~= "meshes/actors/atronachstorm/behaviors/atronachstormbehavior.bin"@);
    reveal_strlit("meshes/actors/atronachflame/behaviors/atronachflamebehavior.bin");
    assert("meshes/actors/atronachstorm/behaviors/atronachstormbehavior.bin"@[22] != "meshes/actors/atronachflame/behaviors/atronachflamebehavior.bin"@[22]);
    reveal_strlit("meshes/actors/atronachfrost/behaviors/atronachfrostbehavior.bin");
    assert("meshes/actors/atronachstorm/behaviors/atronachstormbehavior.bin"@[22] != "meshes/actors/atronachfrost/behaviors/atronachfrostbehavior.bin"@[22]);
}

proof fn lemma_master_owner_5()
    ensures
        master_owner(spec_meshes_key("actors/bear"@, "behaviors/bearbehavior.bin"@)) == Some("bear"@),
{
    reveal_strlit("meshes/");
    reveal_strlit("/");
    reveal_strlit("meshes/actors/bear/behaviors/bearbehavior.bin");
    reveal_strlit("actors/bear");
    reveal_strlit("behaviors/bearbehavior.bin");
    assert(spec_meshes_key("actors/bear"@, "behaviors/bearbehavior.bin"@) =~= "meshes/actors/bear/behaviors/bearbehavior.bin"@);
}

proof fn lemma_master_owner_6()
    ensures
        master_owner(spec_meshes_key("actors/dlc02/benthiclurker"@, "behaviors/benthiclurkerbehavior.bin"@)) == Some("benthiclurker"@),
{
    reveal_strlit("meshes/");
    reveal_strlit("/");
    reveal_strlit("meshes/actors/dlc02/benthiclurker/behaviors/benthiclurkerbehavior.bin");
    reveal_strlit("actors/dlc02/benthiclurker");
    reveal_strlit("behaviors/benthiclurkerbehavior.bin");
    assert(spec_meshes_key("actors/dlc02/benthiclurker"@, "behaviors/benthiclurkerbehavior.bin"@) =~= "meshes/actors/dlc02/benthiclurker/behaviors/benthiclurkerbehavior.bin"@);
}

proof fn lemma_master_owner_7()
    ensures
        master_owner(spec_meshes_key("actors/dlc02/boarriekling"@, "behaviors/boarbehavior.bin"@)) == Some("boarriekling"@),
{
    reveal_strlit("meshes/");
    reveal_strlit("/");
    reveal_strlit("meshes/actors/dlc02/boarriekling/behaviors/boarbehavior.bin");
    reveal_strlit("actors/dlc02/boarriekling");
    reveal_strlit("behaviors/boarbehavior.bin");
    assert(spec_meshes_key("actors/dlc02/boarriekling"@, "behaviors/boarbehavior.bin"@) =~= "meshes/actors/dlc02/boarriekling/behaviors/boarbehavior.bin"@);
}

proof fn lemma_master_owner_8()
    ensures
        master_owner(spec_meshes_key("actors/chaurus"@, "behaviors/chaurusbehavior.bin"@)) == Some("chaurus"@),
{
    reveal_strlit("meshes/");
    reveal_strlit("/");
    reveal_strlit("meshes/actors/chaurus/behaviors/chaurusbehavior.bin");
    reveal_strlit("actors/chaurus");
    reveal_strlit("behaviors/chaurusbehavior.bin");
    assert(spec_meshes_key("actors/chaurus"@, "behaviors/chaurusbehavior.bin"@) =~= "meshes/actors/chaurus/behaviors/chaurusbehavior.bin"@);
}

proof fn lemma_master_owner_9()
    ensures
        master_owner(spec_meshes_key("actors/dlc01/chaurusflyer"@, "behaviors/chaurusflyerbehavior.bin"@)) == Some("chaurusflyer"@),
{
    reveal_strlit("meshes/");
    reveal_strlit("/");
    reveal_strlit("meshes/actors/dlc01/chaurusflyer/behaviors/chaurusflyerbehavior.bin");
    reveal_strlit("actors/dlc01/chaurusflyer");
    reveal_strlit("behaviors/chaurusflyerbehavior.bin");
    assert(spec_meshes_key("actors/dlc01/chaurusflyer"@, "behaviors/chaurusflyerbehavior.bin"@) =~= "meshes/actors/dlc01/chaurusflyer/behaviors/chaurusflyerbehavior.bin"@);
}

proof fn lemma_master_owner_10()
    ensures
        master_owner(spec_meshes_key("actors/ambient/chicken"@, "behaviors/chickenbehavior.bin"@)) == Some("chicken"@),
{
    reveal_strlit("meshes/");
    reveal_strlit("/");
    reveal_strlit("meshes/actors/ambient/chicken/behaviors/chickenbehavior.bin");
    reveal_strlit("actors/ambient/chicken");
    reveal_strlit("behaviors/chickenbehavior.bin");
    assert(spec_meshes_key("actors/ambient/chicken"@, "behaviors/chickenbehavior.bin"@) =~= "meshes/actors/ambient/chicken/behaviors/chickenbehavior.bin"@);
    reveal_strlit("meshes/actors/dlc02/boarriekling/behaviors/boarbehavior.bin");
    assert("meshes/actors/ambient/chicken/behaviors/chickenbehavior.bin"@[14] != "meshes/actors/dlc02/boarriekling/behaviors/boarbehavior.bin"@[14]);
}

proof fn lemma_master_owner_11()
    ensures
        master_owner(spec_meshes_key("actors/cow"@, "behaviors/h-cowbehavior.bin"@)) == Some("cow"@),
{
    reveal_strlit("meshes/");
    reveal_strlit("/");
    reveal_strlit("meshes/actors/cow/behaviors/h-cowbehavior.bin");
    reveal_strlit("actors/cow");
    reveal_strlit("behaviors/h-cowbehavior.bin");
    assert(spec_meshes_key("actors/cow"@, "behaviors/h-cowbehavior.bin"@) =~= "meshes/actors/cow/behaviors/h-cowbehavior.bin"@);
    reveal_strlit("meshes/actors/bear/behaviors/bearbehavior.bin");
    assert("meshes/actors/cow/behaviors/h-cowbehavior.bin"@[14] != "meshes/actors/bear/behaviors/bearbehavior.bin"@[14]);
}

proof fn lemma_master_owner_12()
    ensures
        master_owner(spec_meshes_key("actors/deer"@, "behaviors/deerbehavior.bin"@)) == Some("deer"@),
{
    reveal_strlit("meshes/");
    reveal_strlit("/");
    reveal_strlit("meshes/actors/deer/behaviors/deerbehavior.bin");
    reveal_strlit("actors/deer");
    reveal_strlit("behaviors/deerbehavior.bin");
    assert(spec_meshes_key("actors/deer"@, "behaviors/deerbehavior.bin"@) =~= "meshes/actors/deer/behaviors/deerbehavior.bin"@);
    reveal_strlit("meshes/actors/bear/behaviors/bearbehavior.bin");
    assert("meshes/actors/deer/behaviors/deerbehavior.bin"@[14] != "meshes/actors/bear/behaviors/bearbehavior.bin"@[14]);
    reveal_strlit("meshes/actors/cow/behaviors/h-cowbehavior.bin");
    assert("meshes/actors/deer/behaviors/deerbehavior.bin"@[14] != "meshes/actors/cow/behaviors/h-cowbehavior.bin"@[14]);
}

proof fn lemma_master_owner_13()
    ensures
        master_owner(spec_meshes_key("actors/canine"@, "behaviors/dogbehavior.bin"@)) == Some("dog"@),
{
    reveal_strlit("meshes/");
    reveal_strlit("/");
    reveal_strlit("meshes/actors/canine/behaviors/dogbehavior.bin");
    reveal_strlit("actors/canine");
    reveal_strlit("behaviors/dogbehavior.bin");
    assert(spec_meshes_key("actors/canine"@, "behaviors/dogbehavior.bin"@) =~= "meshes/actors/canine/behaviors/dogbehavior.bin"@);
    reveal_strlit("meshes/actors/character/behaviors/0_master.bin");
    assert("meshes/actors/canine/behaviors/dogbehavior.bin"@[15] != "meshes/actors/character/behaviors/0_master.bin"@[15]);
}

proof fn lemma_master_owner_14()
    ensures
        master_owner(spec_meshes_key("actors/dragon"@, "behaviors/dragonbehavior.bin"@)) == Some("dragon"@),
{
    reveal_strlit("meshes/");
    reveal_strlit("/");
    reveal_strlit("meshes/actors/dragon/behaviors/dragonbehavior.bin");
    reveal_strlit("actors/dragon");
    reveal_strlit("behaviors/dragonbehavior.bin");
    assert(spec_meshes_key("actors/dragon"@, "behaviors/dragonbehavior.bin"@) =~= "meshes/actors/dragon/behaviors/dragonbehavior.bin"@);
}

proof fn lemma_master_owner_15()
    ensures
        master_owner(spec_meshes_key("actors/dragonpriest"@, "behaviors/dragon_priest.bin"@)) == Some("dragonpriest"@),
{
    reveal_strlit("meshes/");
    reveal_strlit("/");
    reveal_strlit("meshes/actors/dragonpriest/behaviors/dragon_priest.bin");
    reveal_strlit("actors/dragonpriest");
    reveal_strlit("behaviors/dragon_priest.bin");
    assert(spec_meshes_key("actors/dragonpriest"@, "behaviors/dragon_priest.bin"@) =~= "meshes/actors/dragonpriest/behaviors/dragon_priest.bin"@);
}

proof fn lemma_master_owner_16()
    ensures
        master_owner(spec_meshes_key("actors/draugr"@, "behaviors/draugrbehavior.bin"@)) == Some("draugr"@),
{
    reveal_strlit("meshes/");
    reveal_strlit("/");
    reveal_strlit("meshes/actors/draugr/behaviors/draugrbehavior.bin");
    reveal_strlit("actors/draugr");
    reveal_strlit("behaviors/draugrbehavior.bin");
    assert(spec_meshes_key("actors/draugr"@, "behaviors/draugrbehavior.bin"@) =~= "meshes/actors/draugr/behaviors/draugrbehavior.bin"@);
    reveal_strlit("meshes/actors/dragon/behaviors/dragonbehavior.bin");
    assert("meshes/actors/draugr/behaviors/draugrbehavior.bin"@[17] != "meshes/actors/dragon/behaviors/dragonbehavior.bin"@[17]);
}

proof fn lemma_master_owner_17()
    ensures
        master_owner(spec_meshes_key("actors/dlc02/dwarvenballistacenturion"@, "behaviors/bcbehavior.bin"@)) == Some("dwarvenballistacenturion"@),
{
    reveal_strlit("meshes/");
    reveal_strlit("/");
    reveal_strlit("meshes/actors/dlc02/dwarvenballistacenturion/behaviors/bcbehavior.bin");
    reveal_strlit("actors/dlc02/dwarvenballistacenturion");
    reveal_strlit("behaviors/bcbehavior.bin");
    assert(spec_meshes_key("actors/dlc02/dwarvenballistacenturion"@, "behaviors/bcbehavior.bin"@) =~= "meshes/actors/dlc02/dwarvenballistacenturion/behaviors/bcbehavior.bin"@);
    reveal_strlit("meshes/actors/dlc02/benthiclurker/behaviors/benthiclurkerbehavior.bin");
    assert("meshes/actors/dlc02/dwarvenballistacenturion/behaviors/bcbehavior.bin"@[20] != "meshes/actors/dlc02/benthiclurker/behaviors/benthiclurkerbehavior.bin"@[20]);
}

proof fn lemma_master_owner_18()
    ensures
        master_owner(spec_meshes_key("actors/dwarvenspherecenturion"@, "behaviors/scbehavior.bin"@)) == Some("dwarvenspherecenturion"@),
{
    reveal_strlit("meshes/");
    reveal_strlit("/");
    reveal_strlit("meshes/actors/dwarvenspherecenturion/behaviors/scbehavior.bin");
    reveal_strlit("actors/dwarvenspherecenturion");
    reveal_strlit("behaviors/scbehavior.bin");
    assert(spec_meshes_key("actors/dwarvenspherecenturion"@, "behaviors/scbehavior.bin"@) =~= "meshes/actors/dwarvenspherecenturion/behaviors/scbehavior.bin"@);
}

proof fn lemma_master_owner_19()
    ensures
        master_owner(spec_meshes_key("actors/dwarvenspider"@, "behaviors/dwarvenspiderbehavior.bin"@)) == Some("dwarvenspider"@),
{
    reveal_strlit("meshes/");
    reveal_strlit("/");
    reveal_strlit("meshes/actors/dwarvenspider/behaviors/dwarvenspiderbehavior.bin");
    reveal_strlit("actors/dwarvenspider");
    reveal_strlit("behaviors/dwarvenspiderbehavior.bin");
    assert(spec_meshes_key("actors/dwarvenspider"@, "behaviors/dwarvenspiderbehavior.bin"@) =~= "meshes/actors/dwarvenspider/behaviors/dwarvenspiderbehavior.bin"@);
    reveal_strlit("meshes/actors/atronachflame/behaviors/atronachflamebehavior.bin");
    assert("meshes/actors/dwarvenspider/behaviors/dwarvenspiderbehavior.bin"@[14] != "meshes/actors/atronachflame/behaviors/atronachflamebehavior.bin"@[14]);
    reveal_strlit("meshes/actors/atronachfrost/behaviors/atronachfrostbehavior.bin");
    assert("meshes/actors/dwarvenspider/behaviors/dwarvenspiderbehavior.bin"@[14] != "meshes/actors/atronachfrost/behaviors/atronachfrostbehavior.bin"@[14]);
    reveal_strlit("meshes/actors/atronachstorm/behaviors/atronachstormbehavior.bin");
    assert("meshes/actors/dwarvenspider/behaviors/dwarvenspiderbehavior.bin"@[14] != "meshes/actors/atronachstorm/behaviors/atronachstormbehavior.bin"@[14]);
}

proof fn lemma_master_owner_20()
    ensures
        master_owner(spec_meshes_key("actors/dwarvensteamcenturion"@, "behaviors/steambehavior.bin"@)) == Some("dwarvensteamcenturion"@),
{
    reveal_strlit("meshes/");
    reveal_strlit("/");
    reveal_strlit("meshes/actors/dwarvensteamcenturion/behaviors/steambehavior.bin");
    reveal_strlit("actors/dwarvensteamcenturion");
    reveal_strlit("behaviors/steambehavior.bin");
    assert(spec_meshes_key("actors/dwarvensteamcenturion"@, "behaviors/steambehavior.bin"@) =~= "meshes/actors/dwarvensteamcenturion/behaviors/steambehavior.bin"@);
    reveal_strlit("meshes/actors/atronachflame/behaviors/atronachflamebehavior.bin");
    assert("meshes/actors/dwarvensteamcenturion/behaviors/steambehavior.bin"@[14] != "meshes/actors/atronachflame/behaviors/atronachflamebehavior.bin"@[14]);
    reveal_strlit("meshes/actors/atronachfrost/behaviors/atronachfrostbehavior.bin");
    assert("meshes/actors/dwarvensteamcenturion/behaviors/steambehavior.bin"@[14] != "meshes/actors/atronachfrost/behaviors/atronachfrostbehavior.bin"@[14]);
    reveal_strlit("meshes/actors/atronachstorm/behaviors/atronachstormbehavior.bin");
    assert("meshes/actors/dwarvensteamcenturion/behaviors/steambehavior.bin"@[14] != "meshes/actors/atronachstorm/behaviors/atronachstormbehavior.bin"@[14]);
    reveal_strlit("meshes/actors/dwarvenspider/behaviors/dwarvenspiderbehavior.bin");
    assert("meshes/actors/dwarvensteamcenturion/behaviors/steambehavior.bin"@[22] != "meshes/actors/dwarvenspider/behaviors/dwarvenspiderbehavior.bin"@[22]);
}

proof fn lemma_master_owner_21()
    ensures
        master_owner(spec_meshes_key("actors/falmer"@, "behaviors/falmerbehavior.bin"@)) == Some("falmer"@),
{
    reveal_strlit("meshes/");
    reveal_strlit("/");
    reveal_strlit("meshes/actors/falmer/behaviors/falmerbehavior.bin");
    reveal_strlit("actors/falmer");
    reveal_strlit("behaviors/falmerbehavior.bin");
    assert(spec_meshes_key("actors/falmer"@, "behaviors/falmerbehavior.bin"@) =~= "meshes/actors/falmer/behaviors/falmerbehavior.bin"@);
    reveal_strlit("meshes/actors/dragon/behaviors/dragonbehavior.bin");
    assert("meshes/actors/falmer/behaviors/falmerbehavior.bin"@[14] != "meshes/actors/dragon/behaviors/dragonbehavior.bin"@[14]);
    reveal_strlit("meshes/actors/draugr/behaviors/draugrbehavior.bin");
    assert("meshes/actors/falmer/behaviors/falmerbehavior.bin"@[14] != "meshes/actors/draugr/behaviors/draugrbehavior.bin"@[14]);
}

proof fn lemma_master_owner_22()
    ensures
        master_owner(spec_meshes_key("actors/frostbitespider"@, "behaviors/frostbitespiderbehavior.bin"@)) == Some("frostbitespider"@),
{
    reveal_strlit("meshes/");
    reveal_strlit("/");
    reveal_strlit("meshes/actors/frostbitespider/behaviors/frostbitespiderbehavior.bin");
    reveal_strlit("actors/frostbitespider");
    reveal_strlit("behaviors/frostbitespiderbehavior.bin");
    assert(spec_meshes_key("actors/frostbitespider"@, "behaviors/frostbitespiderbehavior.bin"@) =~= "meshes/actors/frostbitespider/behaviors/frostbitespiderbehavior.bin"@);
    reveal_strlit("meshes/actors/dlc01/chaurusflyer/behaviors/chaurusflyerbehavior.bin");
    assert("meshes/actors/frostbitespider/behaviors/frostbitespiderbehavior.bin"@[14] != "meshes/actors/dlc01/chaurusflyer/behaviors/chaurusflyerbehavior.bin"@[14]);
}

proof fn lemma_master_owner_23()
    ensures
        master_owner(spec_meshes_key("actors/giant"@, "behaviors/giantbehavior.bin"@)) == Some("giant"@),
{
    reveal_strlit("meshes/");
    reveal_strlit("/");
    reveal_strlit("meshes/actors/giant/behaviors/giantbehavior.bin");
    reveal_strlit("actors/giant");
    reveal_strlit("behaviors/giantbehavior.bin");
    assert(spec_meshes_key("actors/giant"@, "behaviors/giantbehavior.bin"@) =~= "meshes/actors/giant/behaviors/giantbehavior.bin"@);
}

proof fn lemma_master_owner_24()
    ensures
        master_owner(spec_meshes_key("actors/goat"@, "behaviors/goatbehavior.bin"@)) == Some("goat"@),
{
    reveal_strlit("meshes/");
    reveal_strlit("/");
    reveal_strlit("meshes/actors/goat/behaviors/goatbehavior.bin");
    reveal_strlit("actors/goat");
    reveal_strlit("behaviors/goatbehavior.bin");
    assert(spec_meshes_key("actors/goat"@, "behaviors/goatbehavior.bin"@) =~= "meshes/actors/goat/behaviors/goatbehavior.bin"@);
    reveal_strlit("meshes/actors/bear/behaviors/bearbehavior.bin");
    assert("meshes/actors/goat/behaviors/goatbehavior.bin"@[14] != "meshes/actors/bear/behaviors/bearbehavior.bin"@[14]);
    reveal_strlit("meshes/actors/cow/behaviors/h-cowbehavior.bin");
    assert("meshes/actors/goat/behaviors/goatbehavior.bin"@[14] != "meshes/actors/cow/behaviors/h-cowbehavior.bin"@[14]);
    reveal_strlit("meshes/actors/deer/behaviors/deerbehavior.bin");
    assert("meshes/actors/goat/behaviors/goatbehavior.bin"@[14] != "meshes/actors/deer/behaviors/deerbehavior.bin"@[14]);
}

proof fn lemma_master_owner_25()
    ensures
        master_owner(spec_meshes_key("actors/hagraven"@, "behaviors/havgravenbehavior.bin"@)) == Some("hagraven"@),
{
    reveal_strlit("meshes/");
    reveal_strlit("/");
    reveal_strlit("meshes/actors/hagraven/behaviors/havgravenbehavior.bin");
    reveal_strlit("actors/hagraven");
    reveal_strlit("behaviors/havgravenbehavior.bin");
    assert(spec_meshes_key("actors/hagraven"@, "behaviors/havgravenbehavior.bin"@) =~= "meshes/actors/hagraven/behaviors/havgravenbehavior.bin"@);
    reveal_strlit("meshes/actors/dragonpriest/behaviors/dragon_priest.bin");
    assert("meshes/actors/hagraven/behaviors/havgravenbehavior.bin"@[14] != "meshes/actors/dragonpriest/behaviors/dragon_priest.bin"@[14]);
}

proof fn lemma_master_owner_26()
    ensures
        master_owner(spec_meshes_key("actors/ambient/hare"@, "behaviors/harebehavior.bin"@)) == Some("hare"@),
{
    reveal_strlit("meshes/");
    reveal_strlit("/");
    reveal_strlit("meshes/actors/ambient/hare/behaviors/harebehavior.bin");
    reveal_strlit("actors/ambient/hare");
    reveal_strlit("behaviors/harebehavior.bin");
    assert(spec_meshes_key("actors/ambient/hare"@, "behaviors/harebehavior.bin"@) =~= "meshes/actors/ambient/hare/behaviors/harebehavior.bin"@);
}

proof fn lemma_master_owner_27()
    ensures
        master_owner(spec_meshes_key("actors/dlc02/hmdaedra"@, "behaviors/hmdaedra.bin"@)) == Some("hmdaedra"@),
{
    reveal_strlit("meshes/");
    reveal_strlit("/");
    reveal_strlit("meshes/actors/dlc02/hmdaedra/behaviors/hmdaedra.bin");
    reveal_strlit("actors/dlc02/hmdaedra");
    reveal_strlit("behaviors/hmdaedra.bin");
    assert(spec_meshes_key("actors/dlc02/hmdaedra"@, "behaviors/hmdaedra.bin"@) =~= "meshes/actors/dlc02/hmdaedra/behaviors/hmdaedra.bin"@);
    reveal_strlit("meshes/actors/chaurus/behaviors/chaurusbehavior.bin");
    assert("meshes/actors/dlc02/hmdaedra/behaviors/hmdaedra.bin"@[14] != "meshes/actors/chaurus/behaviors/chaurusbehavior.bin"@[14]);
}

proof fn lemma_master_owner_28()
    ensures
        master_owner(spec_meshes_key("actors/horker"@, "behaviors/horkerbehavior.bin"@)) == Some("horker"@),
{
    reveal_strlit("meshes/");
    reveal_strlit("/");
    reveal_strlit("meshes/actors/horker/behaviors/horkerbehavior.bin");
    reveal_strlit("actors/horker");
    reveal_strlit("behaviors/horkerbehavior.bin");
    assert(spec_meshes_key("actors/horker"@, "behaviors/horkerbehavior.bin"@) =~= "meshes/actors/horker/behaviors/horkerbehavior.bin"@);
    reveal_strlit("meshes/actors/dragon/behaviors/dragonbehavior.bin");
    assert("meshes/actors/horker/behaviors/horkerbehavior.bin"@[14] != "meshes/actors/dragon/behaviors/dragonbehavior.bin"@[14]);
    reveal_strlit("meshes/actors/draugr/behaviors/draugrbehavior.bin");
    assert("meshes/actors/horker/behaviors/horkerbehavior.bin"@[14] != "meshes/actors/draugr/behaviors/draugrbehavior.bin"@[14]);
    reveal_strlit("meshes/actors/falmer/behaviors/falmerbehavior.bin");
    assert("meshes/actors/horker/behaviors/horkerbehavior.bin"@[14] != "meshes/actors/falmer/behaviors/falmerbehavior.bin"@[14]);
}

proof fn lemma_master_owner_29()
    ensures
        master_owner(spec_meshes_key("actors/horse"@, "behaviors/horsebehavior.bin"@)) == Some("horse"@),
{
    reveal_strlit("meshes/");
    reveal_strlit("/");
    reveal_strlit("meshes/actors/horse/behaviors/horsebehavior.bin");
    reveal_strlit("actors/horse");
    reveal_strlit("behaviors/horsebehavior.bin");
    assert(spec_meshes_key("actors/horse"@, "behaviors/horsebehavior.bin"@) =~= "meshes/actors/horse/behaviors/horsebehavior.bin"@);
    reveal_strlit("meshes/actors/giant/behaviors/giantbehavior.bin");
    assert("meshes/actors/horse/behaviors/horsebehavior.bin"@[14] != "meshes/actors/giant/behaviors/giantbehavior.bin"@[14]);
}

proof fn lemma_master_owner_30()
    ensures
        master_owner(spec_meshes_key("actors/icewraith"@, "behaviors/icewraithbehavior.bin"@)) == Some("icewraith"@),
{
    reveal_strlit("meshes/");
    reveal_strlit("/");
    reveal_strlit("meshes/actors/icewraith/behaviors/icewraithbehavior.bin");
    reveal_strlit("actors/icewraith");
    reveal_strlit("behaviors/icewraithbehavior.bin");
    assert(spec_meshes_key("actors/icewraith"@, "behaviors/icewraithbehavior.bin"@) =~= "meshes/actors/icewraith/behaviors/icewraithbehavior.bin"@);
}

proof fn lemma_master_owner_31()
    ensures
        master_owner(spec_meshes_key("actors/mammoth"@, "behaviors/mammothbehavior.bin"@)) == Some("mammoth"@),
{
    reveal_strlit("meshes/");
    reveal_strlit("/");
    reveal_strlit("meshes/actors/mammoth/behaviors/mammothbehavior.bin");
    reveal_strlit("actors/mammoth");
    reveal_strlit("behaviors/mammothbehavior.bin");
    assert(spec_meshes_key("actors/mammoth"@, "behaviors/mammothbehavior.bin"@) =~= "meshes/actors/mammoth/behaviors/mammothbehavior.bin"@);
    reveal_strlit("meshes/actors/chaurus/behaviors/chaurusbehavior.bin");
    assert("meshes/actors/mammoth/behaviors/mammothbehavior.bin"@[14] != "meshes/actors/chaurus/behaviors/chaurusbehavior.bin"@[14]);
    reveal_strlit("meshes/actors/dlc02/hmdaedra/behaviors/hmdaedra.bin");
    assert("meshes/actors/mammoth/behaviors/mammothbehavior.bin"@[14] != "meshes/actors/dlc02/hmdaedra/behaviors/hmdaedra.bin"@[14]);
}

proof fn lemma_master_owner_32()
    ensures
        master_owner(spec_meshes_key("actors/mudcrab"@, "behaviors/mudcrabbehavior.bin"@)) == Some("mudcrab"@),
{
    reveal_strlit("meshes/");
    reveal_strlit("/");
    reveal_strlit("meshes/actors/mudcrab/behaviors/mudcrabbehavior.bin");
    reveal_strlit("actors/mudcrab");
    reveal_strlit("behaviors/mudcrabbehavior.bin");
    assert(spec_meshes_key("actors/mudcrab"@, "behaviors/mudcrabbehavior.bin"@) =~= "meshes/actors/mudcrab/behaviors/mudcrabbehavior.bin"@);
    reveal_strlit("meshes/actors/chaurus/behaviors/chaurusbehavior.bin");
    assert("meshes/actors/mudcrab/behaviors/mudcrabbehavior.bin"@[14] != "meshes/actors/chaurus/behaviors/chaurusbehavior.bin"@[14]);
    reveal_strlit("meshes/actors/dlc02/hmdaedra/behaviors/hmdaedra.bin");
    assert("meshes/actors/mudcrab/behaviors/mudcrabbehavior.bin"@[14] != "meshes/actors/dlc02/hmdaedra/behaviors/hmdaedra.bin"@[14]);
    reveal_strlit("meshes/actors/mammoth/behaviors/mammothbehavior.bin");
    assert("meshes/actors/mudcrab/behaviors/mudcrabbehavior.bin"@[15] != "meshes/actors/mammoth/behaviors/mammothbehavior.bin"@[15]);
}

proof fn lemma_master_owner_33()
    ensures
        master_owner(spec_meshes_key("actors/dlc02/netch"@, "behaviors/netchbehavior.bin"@)) == Some("netch"@),
{
    reveal_strlit("meshes/");
    reveal_strlit("/");
    reveal_strlit("meshes/actors/dlc02/netch/behaviors/netchbehavior.bin");
    reveal_strlit("actors/dlc02/netch");
    reveal_strlit("behaviors/netchbehavior.bin");
    assert(spec_meshes_key("actors/dlc02/netch"@, "behaviors/netchbehavior.bin"@) =~= "meshes/actors/dlc02/netch/behaviors/netchbehavior.bin"@);
    reveal_strlit("meshes/actors/ambient/hare/behaviors/harebehavior.bin");
    assert("meshes/actors/dlc02/netch/behaviors/netchbehavior.bin"@[14] != "meshes/actors/ambient/hare/behaviors/harebehavior.bin"@[14]);
}

proof fn lemma_master_owner_34()
    ensures
        master_owner(spec_meshes_key("actors/dlc02/riekling"@, "behaviors/rieklingbehavior.bin"@)) == Some("riekling"@),
{
    reveal_strlit("meshes/");
    reveal_strlit("/");
    reveal_strlit("meshes/actors/dlc02/riekling/behaviors/rieklingbehavior.bin");
    reveal_strlit("actors/dlc02/riekling");
    reveal_strlit("behaviors/rieklingbehavior.bin");
    assert(spec_meshes_key("actors/dlc02/riekling"@, "behaviors/rieklingbehavior.bin"@) =~= "meshes/actors/dlc02/riekling/behaviors/rieklingbehavior.bin"@);
    reveal_strlit("meshes/actors/dlc02/boarriekling/behaviors/boarbehavior.bin");
    assert("meshes/actors/dlc02/riekling/behaviors/rieklingbehavior.bin"@[20] != "meshes/actors/dlc02/boarriekling/behaviors/boarbehavior.bin"@[20]);
    reveal_strlit("meshes/actors/ambient/chicken/behaviors/chickenbehavior.bin");
    assert("meshes/actors/dlc02/riekling/behaviors/rieklingbehavior.bin"@[14] != "meshes/actors/ambient/chicken/behaviors/chickenbehavior.bin"@[14]);
}

proof fn lemma_master_owner_35()
    ensures
        master_owner(spec_meshes_key("actors/sabrecat"@, "behaviors/sabrecatbehavior.bin"@)) == Some("sabrecat"@),
{
    reveal_strlit("meshes/");
    reveal_strlit("/");
    reveal_strlit("meshes/actors/sabrecat/behaviors/sabrecatbehavior.bin");
    reveal_strlit("actors/sabrecat");
    reveal_strlit("behaviors/sabrecatbehavior.bin");
    assert(spec_meshes_key("actors/sabrecat"@, "behaviors/sabrecatbehavior.bin"@) =~= "meshes/actors/sabrecat/behaviors/sabrecatbehavior.bin"@);
    reveal_strlit("meshes/actors/ambient/hare/behaviors/harebehavior.bin");
    assert("meshes/actors/sabrecat/behaviors/sabrecatbehavior.bin"@[14] != "meshes/actors/ambient/hare/behaviors/harebehavior.bin"@[14]);
    reveal_strlit("meshes/actors/dlc02/netch/behaviors/netchbehavior.bin");
    assert("meshes/actors/sabrecat/behaviors/sabrecatbehavior.bin"@[14] != "meshes/actors/dlc02/netch/behaviors/netchbehavior.bin"@[14]);
}

proof fn lemma_master_owner_36()
    ensures
        master_owner(spec_meshes_key("actors/dlc02/scrib"@, "behaviors/scribbehavior.bin"@)) == Some("scrib"@),
{
    reveal_strlit("meshes/");
    reveal_strlit("/");
    reveal_strlit("meshes/actors/dlc02/scrib/behaviors/scribbehavior.bin");
    reveal_strlit("actors/dlc02/scrib");
    reveal_strlit("behaviors/scribbehavior.bin");
    assert(spec_meshes_key("actors/dlc02/scrib"@, "behaviors/scribbehavior.bin"@) =~= "meshes/actors/dlc02/scrib/behaviors/scribbehavior.bin"@);
    reveal_strlit("meshes/actors/ambient/hare/behaviors/harebehavior.bin");
    assert("meshes/actors/dlc02/scrib/behaviors/scribbehavior.bin"@[14] != "meshes/actors/ambient/hare/behaviors/harebehavior.bin"@[14]);
    reveal_strlit("meshes/actors/dlc02/netch/behaviors/netchbehavior.bin");
    assert("meshes/actors/dlc02/scrib/behaviors/scribbehavior.bin"@[20] != "meshes/actors/dlc02/netch/behaviors/netchbehavior.bin"@[20]);
    reveal_strlit("meshes/actors/sabrecat/behaviors/sabrecatbehavior.bin");
    assert("meshes/actors/dlc02/scrib/behaviors/scribbehavior.bin"@[14] != "meshes/actors/sabrecat/behaviors/sabrecatbehavior.bin"@[14]);
}

proof fn lemma_master_owner_37()
    ensures
        master_owner(spec_meshes_key("actors/skeever"@, "behaviors/skeeverbehavior.bin"@)) == Some("skeever"@),
{
    reveal_strlit("meshes/");
    reveal_strlit("/");
    reveal_strlit("meshes/actors/skeever/behaviors/skeeverbehavior.bin");
    reveal_strlit("actors/skeever");
    reveal_strlit("behaviors/skeeverbehavior.bin");
    assert(spec_meshes_key("actors/skeever"@, "behaviors/skeeverbehavior.bin"@) =~= "meshes/actors/skeever/behaviors/skeeverbehavior.bin"@);
    reveal_strlit("meshes/actors/chaurus/behaviors/chaurusbehavior.bin");
    assert("meshes/actors/skeever/behaviors/skeeverbehavior.bin"@[14] != "meshes/actors/chaurus/behaviors/chaurusbehavior.bin"@[14]);
    reveal_strlit("meshes/actors/dlc02/hmdaedra/behaviors/hmdaedra.bin");
    assert("meshes/actors/skeever/behaviors/skeeverbehavior.bin"@[14] != "meshes/actors/dlc02/hmdaedra/behaviors/hmdaedra.bin"@[14]);
    reveal_strlit("meshes/actors/mammoth/behaviors/mammothbehavior.bin");
    assert("meshes/actors/skeever/behaviors/skeeverbehavior.bin"@[14] != "meshes/actors/mammoth/behaviors/mammothbehavior.bin"@[14]);
    reveal_strlit("meshes/actors/mudcrab/behaviors/mudcrabbehavior.bin");
    assert("meshes/actors/skeever/behaviors/skeeverbehavior.bin"@[14] != "meshes/actors/mudcrab/behaviors/mudcrabbehavior.bin"@[14]);
}

proof fn lemma_master_owner_38()
    ensures
        master_owner(spec_meshes_key("actors/slaughterfish"@, "behaviors/slaughterfishbehavior.bin"@)) == Some("slaughterfish"@),
{
    reveal_strlit("meshes/");
    reveal_strlit("/");
    reveal_strlit("meshes/actors/slaughterfish/behaviors/slaughterfishbehavior.bin");
    reveal_strlit("actors/slaughterfish");
    reveal_strlit("behaviors/slaughterfishbehavior.bin");
    assert(spec_meshes_key("actors/slaughterfish"@, "behaviors/slaughterfishbehavior.bin"@) =~= "meshes/actors/slaughterfish/behaviors/slaughterfishbehavior.bin"@);
    reveal_strlit("meshes/actors/atronachflame/behaviors/atronachflamebehavior.bin");
    assert("meshes/actors/slaughterfish/behaviors/slaughterfishbehavior.bin"@[14] != "meshes/actors/atronachflame/behaviors/atronachflamebehavior.bin"@[14]);
    reveal_strlit("meshes/actors/atronachfrost/behaviors/atronachfrostbehavior.bin");
    assert("meshes/actors/slaughterfish/behaviors/slaughterfishbehavior.bin"@[14] != "meshes/actors/atronachfrost/behaviors/atronachfrostbehavior.bin"@[14]);
    reveal_strlit("meshes/actors/atronachstorm/behaviors/atronachstormbehavior.bin");
    assert("meshes/actors/slaughterfish/behaviors/slaughterfishbehavior.bin"@[14] != "meshes/actors/atronachstorm/behaviors/atronachstormbehavior.bin"@[14]);
    reveal_strlit("meshes/actors/dwarvenspider/behaviors/dwarvenspiderbehavior.bin");
    assert("meshes/actors/slaughterfish/behaviors/slaughterfishbehavior.bin"@[14] != "meshes/actors/dwarvenspider/behaviors/dwarvenspiderbehavior.bin"@[14]);
    reveal_strlit("meshes/actors/dwarvensteamcenturion/behaviors/steambehavior.bin");
    assert("meshes/actors/slaughterfish/behaviors/slaughterfishbehavior.bin"@[14] != "meshes/actors/dwarvensteamcenturion/behaviors/steambehavior.bin"@[14]);
}

proof fn lemma_master_owner_39()
    ensures
        master_owner(spec_meshes_key("actors/spriggan"@, "behaviors/sprigganbehavior.bin"@)) == Some("spriggan"@),
{
    reveal_strlit("meshes/");
    reveal_strlit("/");
    reveal_strlit("meshes/actors/spriggan/behaviors/sprigganbehavior.bin");
    reveal_strlit("actors/spriggan");
    reveal_strlit("behaviors/sprigganbehavior.bin");
    assert(spec_meshes_key("actors/spriggan"@, "behaviors/sprigganbehavior.bin"@) =~= "meshes/actors/spriggan/behaviors/sprigganbehavior.bin"@);
    reveal_strlit("meshes/actors/ambient/hare/behaviors/harebehavior.bin");
    assert("meshes/actors/spriggan/behaviors/sprigganbehavior.bin"@[14] != "meshes/actors/ambient/hare/behaviors/harebehavior.bin"@[14]);
    reveal_strlit("meshes/actors/dlc02/netch/behaviors/netchbehavior.bin");
    assert("meshes/actors/spriggan/behaviors/sprigganbehavior.bin"@[14] != "meshes/actors/dlc02/netch/behaviors/netchbehavior.bin"@[14]);
    reveal_strlit("meshes/actors/sabrecat/behaviors/sabrecatbehavior.bin");
    assert("meshes/actors/spriggan/behaviors/sprigganbehavior.bin"@[15] != "meshes/actors/sabrecat/behaviors/sabrecatbehavior.bin"@[15]);
    reveal_strlit("meshes/actors/dlc02/scrib/behaviors/scribbehavior.bin");
    assert("meshes/actors/spriggan/behaviors/sprigganbehavior.bin"@[14] != "meshes/actors/dlc02/scrib/behaviors/scribbehavior.bin"@[14]);
}

proof fn lemma_master_owner_40()
    ensures
        master_owner(spec_meshes_key("actors/troll"@, "behaviors/trollbehavior.bin"@)) == Some("troll"@),
{
    reveal_strlit("meshes/");
    reveal_strlit("/");
    reveal_strlit("meshes/actors/troll/behaviors/trollbehavior.bin");
    reveal_strlit("actors/troll");
    reveal_strlit("behaviors/trollbehavior.bin");
    assert(spec_meshes_key("actors/troll"@, "behaviors/trollbehavior.bin"@) =~= "meshes/actors/troll/behaviors/trollbehavior.bin"@);
    reveal_strlit("meshes/actors/giant/behaviors/giantbehavior.bin");
    assert("meshes/actors/troll/behaviors/trollbehavior.bin"@[14] != "meshes/actors/giant/behaviors/giantbehavior.bin"@[14]);
    reveal_strlit("meshes/actors/horse/behaviors/horsebehavior.bin");
    assert("meshes/actors/troll/behaviors/trollbehavior.bin"@[14] != "meshes/actors/horse/behaviors/horsebehavior.bin"@[14]);
}

proof fn lemma_master_owner_41()
    ensures
        master_owner(spec_meshes_key("actors/dlc01/vampirebrute"@, "behaviors/vampirebrutebehavior.bin"@)) == Some("vampirebrute"@),
{
    reveal_strlit("meshes/");
    reveal_strlit("/");
    reveal_strlit("meshes/actors/dlc01/vampirebrute/behaviors/vampirebrutebehavior.bin");
    reveal_strlit("actors/dlc01/vampirebrute");
    reveal_strlit("behaviors/vampirebrutebehavior.bin");
    assert(spec_meshes_key("actors/dlc01/vampirebrute"@, "behaviors/vampirebrutebehavior.bin"@) =~= "meshes/actors/dlc01/vampirebrute/behaviors/vampirebrutebehavior.bin"@);
    reveal_strlit("meshes/actors/dlc01/chaurusflyer/behaviors/chaurusflyerbehavior.bin");
    assert("meshes/actors/dlc01/vampirebrute/behaviors/vampirebrutebehavior.bin"@[20] != "meshes/actors/dlc01/chaurusflyer/behaviors/chaurusflyerbehavior.bin"@[20]);
    reveal_strlit("meshes/actors/frostbitespider/behaviors/frostbitespiderbehavior.bin");
    assert("meshes/actors/dlc01/vampirebrute/behaviors/vampirebrutebehavior.bin"@[14] != "meshes/actors/frostbitespider/behaviors/frostbitespiderbehavior.bin"@[14]);
}

proof fn lemma_master_owner_42()
    ensures
        master_owner(spec_meshes_key("actors/vampirelord"@, "behaviors/vampirelord.bin"@)) == Some("vampirelord"@),
{
    reveal_strlit("meshes/");
    reveal_strlit("/");
    reveal_strlit("meshes/actors/vampirelord/behaviors/vampirelord.bin");
    reveal_strlit("actors/vampirelord");
    reveal_strlit("behaviors/vampirelord.bin");
    assert(spec_meshes_key("actors/vampirelord"@, "behaviors/vampirelord.bin"@) =~= "meshes/actors/vampirelord/behaviors/vampirelord.bin"@);
    reveal_strlit("meshes/actors/chaurus/behaviors/chaurusbehavior.bin");
    assert("meshes/actors/vampirelord/behaviors/vampirelord.bin"@[14] != "meshes/actors/chaurus/behaviors/chaurusbehavior.bin"@[14]);
    reveal_strlit("meshes/actors/dlc02/hmdaedra/behaviors/hmdaedra.bin");
    assert("meshes/actors/vampirelord/behaviors/vampirelord.bin"@[14] != "meshes/actors/dlc02/hmdaedra/behaviors/hmdaedra.bin"@[14]);
    reveal_strlit("meshes/actors/mammoth/behaviors/mammothbehavior.bin");
    assert("meshes/actors/vampirelord/behaviors/vampirelord.bin"@[14] != "meshes/actors/mammoth/behaviors/mammothbehavior.bin"@[14]);
    reveal_strlit("meshes/actors/mudcrab/behaviors/mudcrabbehavior.bin");
    assert("meshes/actors/vampirelord/behaviors/vampirelord.bin"@[14] != "meshes/actors/mudcrab/behaviors/mudcrabbehavior.bin"@[14]);
    reveal_strlit("meshes/actors/skeever/behaviors/skeeverbehavior.bin");
    assert("meshes/actors/vampirelord/behaviors/vampirelord.bin"@[14] != "meshes/actors/skeever/behaviors/skeeverbehavior.bin"@[14]);
}

proof fn lemma_master_owner_43()
    ensures
        master_owner(spec_meshes_key("actors/werewolfbeast"@, "behaviors/werewolfbehavior.bin"@)) == Some("werewolfbeast"@),
{
    reveal_strlit("meshes/");
    reveal_strlit("/");
    reveal_strlit("meshes/actors/werewolfbeast/behaviors/werewolfbehavior.bin");
    reveal_strlit("actors/werewolfbeast");
    reveal_strlit("behaviors/werewolfbehavior.bin");
    assert(spec_meshes_key("actors/werewolfbeast"@, "behaviors/werewolfbehavior.bin"@) =~= "meshes/actors/werewolfbeast/behaviors/werewolfbehavior.bin"@);
}

proof fn lemma_master_owner_44()
    ensures
        master_owner(spec_meshes_key("actors/wisp"@, "behaviors/wispbehavior.bin"@)) == Some("wisp"@),
{
    reveal_strlit("meshes/");
    reveal_strlit("/");
    reveal_strlit("meshes/actors/wisp/behaviors/wispbehavior.bin");
    reveal_strlit("actors/wisp");
    reveal_strlit("behaviors/wispbehavior.bin");
    assert(spec_meshes_key("actors/wisp"@, "behaviors/wispbehavior.bin"@) =~= "meshes/actors/wisp/behaviors/wispbehavior.bin"@);
    reveal_strlit("meshes/actors/bear/behaviors/bearbehavior.bin");
    assert("meshes/actors/wisp/behaviors/wispbehavior.bin"@[14] != "meshes/actors/bear/behaviors/bearbehavior.bin"@[14]);
    reveal_strlit("meshes/actors/cow/behaviors/h-cowbehavior.bin");
    assert("meshes/actors/wisp/behaviors/wispbehavior.bin"@[14] != "meshes/actors/cow/behaviors/h-cowbehavior.bin"@[14]);
    reveal_strlit("meshes/actors/deer/behaviors/deerbehavior.bin");
    assert("meshes/actors/wisp/behaviors/wispbehavior.bin"@[14] != "meshes/actors/deer/behaviors/deerbehavior.bin"@[14]);
    reveal_strlit("meshes/actors/goat/behaviors/goatbehavior.bin");
    assert("meshes/actors/wisp/behaviors/wispbehavior.bin"@[14] != "meshes/actors/goat/behaviors/goatbehavior.bin"@[14]);
}

proof fn lemma_master_owner_45()
    ensures
        master_owner(spec_meshes_key("actors/witchlight"@, "behaviors/witchlightbehavior.bin"@)) == Some("witchlight"@),
{
    reveal_strlit("meshes/");
    reveal_strlit("/");
    reveal_strlit("meshes/actors/witchlight/behaviors/witchlightbehavior.bin");
    reveal_strlit("actors/witchlight");
    reveal_strlit("behaviors/witchlightbehavior.bin");
    assert(spec_meshes_key("actors/witchlight"@, "behaviors/witchlightbehavior.bin"@) =~= "meshes/actors/witchlight/behaviors/witchlightbehavior.bin"@);
    reveal_strlit("meshes/actors/character/_1stperson/behaviors/0_master.bin");
    assert("meshes/actors/witchlight/behaviors/witchlightbehavior.bin"@[14] != "meshes/actors/character/_1stperson/behaviors/0_master.bin"@[14]);
}

proof fn lemma_master_owner_46()
    ensures
        master_owner(spec_meshes_key("actors/canine"@, "behaviors wolf/wolfbehavior.bin"@)) == Some("wolf"@),
{
    reveal_strlit("meshes/");
    reveal_strlit("/");
    reveal_strlit("meshes/actors/canine/behaviors wolf/wolfbehavior.bin");
    reveal_strlit("actors/canine");
    reveal_strlit("behaviors wolf/wolfbehavior.bin");
    assert(spec_meshes_key("actors/canine"@, "behaviors wolf/wolfbehavior.bin"@) =~= "meshes/actors/canine/behaviors wolf/wolfbehavior.bin"@);
}

proof fn lemma_master_owner_47()
    ensures
        master_owner(spec_meshes_key("auxbones/tail"@, "behaviors/tailbehavior.bin"@)) == Some("tail"@),
{
    reveal_strlit("meshes/");
    reveal_strlit("/");
    reveal_strlit("meshes/auxbones/tail/behaviors/tailbehavior.bin");
    reveal_strlit("auxbones/tail");
    reveal_strlit("behaviors/tailbehavior.bin");
    assert(spec_meshes_key("auxbones/tail"@, "behaviors/tailbehavior.bin"@) =~= "meshes/auxbones/tail/behaviors/tailbehavior.bin"@);
    reveal_strlit("meshes/actors/giant/behaviors/giantbehavior.bin");
    assert("meshes/auxbones/tail/behaviors/tailbehavior.bin"@[8] != "meshes/actors/giant/behaviors/giantbehavior.bin"@[8]);
    reveal_strlit("meshes/actors/horse/behaviors/horsebehavior.bin");
    assert("meshes/auxbones/tail/behaviors/tailbehavior.bin"@[8] != "meshes/actors/horse/behaviors/horsebehavior.bin"@[8]);
    reveal_strlit("meshes/actors/troll/behaviors/trollbehavior.bin");
    assert("meshes/auxbones/tail/behaviors/tailbehavior.bin"@[8] != "meshes/actors/troll/behaviors/trollbehavior.bin"@[8]);
}

proof fn lemma_master_owner_48()
    ensures
        master_owner(spec_meshes_key("dlc01/plants/caveworm"@, "behaviors/behavior00.bin"@)) == Some("caveworm"@),
{
    reveal_strlit("meshes/");
    reveal_strlit("/");
    reveal_strlit("meshes/dlc01/plants/caveworm/behaviors/behavior00.bin");
    reveal_strlit("dlc01/plants/caveworm");
    reveal_strlit("behaviors/behavior00.bin");
    assert(spec_meshes_key("dlc01/plants/caveworm"@, "behaviors/behavior00.bin"@) =~= "meshes/dlc01/plants/caveworm/behaviors/behavior00.bin"@);
    reveal_strlit("meshes/actors/ambient/hare/behaviors/harebehavior.bin");
    assert("meshes/dlc01/plants/caveworm/behaviors/behavior00.bin"@[7] != "meshes/actors/ambient/hare/behaviors/harebehavior.bin"@[7]);
    reveal_strlit("meshes/actors/dlc02/netch/behaviors/netchbehavior.bin");
    assert("meshes/dlc01/plants/caveworm/behaviors/behavior00.bin"@[7] != "meshes/actors/dlc02/netch/behaviors/netchbehavior.bin"@[7]);
    reveal_strlit("meshes/actors/sabrecat/behaviors/sabrecatbehavior.bin");
    assert("meshes/dlc01/plants/caveworm/behaviors/behavior00.bin"@[7] != "meshes/actors/sabrecat/behaviors/sabrecatbehavior.bin"@[7]);
    reveal_strlit("meshes/actors/dlc02/scrib/behaviors/scribbehavior.bin");
    assert("meshes/dlc01/plants/caveworm/behaviors/behavior00.bin"@[7] != "meshes/actors/dlc02/scrib/behaviors/scribbehavior.bin"@[7]);
    reveal_strlit("meshes/actors/spriggan/behaviors/sprigganbehavior.bin");
    assert("meshes/dlc01/plants/caveworm/behaviors/behavior00.bin"@[7] != "meshes/actors/spriggan/behaviors/sprigganbehavior.bin"@[7]);
}

proof fn lemma_master_owner_49()
    ensures
        master_owner(spec_meshes_key("dlc01/plants/cavewormgroup"@, "behaviors/behavior00.bin"@)) == Some("cavewormgroup"@),
{
    reveal_strlit("meshes/");
    reveal_strlit("/");
    reveal_strlit("meshes/dlc01/plants/cavewormgroup/behaviors/behavior00.bin");
    reveal_strlit("dlc01/plants/cavewormgroup");
    reveal_strlit("behaviors/behavior00.bin");
    assert(spec_meshes_key("dlc01/plants/cavewormgroup"@, "behaviors/behavior00.bin"@) =~= "meshes/dlc01/plants/cavewormgroup/behaviors/behavior00.bin"@);
    reveal_strlit("meshes/actors/werewolfbeast/behaviors/werewolfbehavior.bin");
    assert("meshes/dlc01/plants/cavewormgroup/behaviors/behavior00.bin"@[7] != "meshes/actors/werewolfbeast/behaviors/werewolfbehavior.bin"@[7]);
}

proof fn lemma_master_owner_50()
    ensures
        master_owner(spec_meshes_key("dlc01/plants/cavewormsmall"@, "behaviors/behavior00.bin"@)) == Some("cavewormsmall"@),
{
    reveal_strlit("meshes/");
    reveal_strlit("/");
    reveal_strlit("meshes/dlc01/plants/cavewormsmall/behaviors/behavior00.bin");
    reveal_strlit("dlc01/plants/cavewormsmall");
    reveal_strlit("behaviors/behavior00.bin");
    assert(spec_meshes_key("dlc01/plants/cavewormsmall"@, "behaviors/behavior00.bin"@) =~= "meshes/dlc01/plants/cavewormsmall/behaviors/behavior00.bin"@);
    reveal_strlit("meshes/actors/werewolfbeast/behaviors/werewolfbehavior.bin");
    assert("meshes/dlc01/plants/cavewormsmall/behaviors/behavior00.bin"@[7] != "meshes/actors/werewolfbeast/behaviors/werewolfbehavior.bin"@[7]);
    reveal_strlit("meshes/dlc01/plants/cavewormgroup/behaviors/behavior00.bin");
    assert("meshes/dlc01/plants/cavewormsmall/behaviors/behavior00.bin"@[28] != "meshes/dlc01/plants/cavewormgroup/behaviors/behavior00.bin"@[28]);
}

/// The object whose default behavior is the template `t`.
spec fn default_owner(t: Seq<char>) -> Option<Seq<char>> {
    if t.len() == 61 && t == "meshes/actors/character/_1stperson/characters/firstperson.bin"@ {
        Some("character/_1stperson"@)
    } else if t.len() == 50 && t == "meshes/actors/character/characters/defaultmale.bin"@ {
        Some("character"@)
    } else if t.len() == 56 && t == "meshes/actors/atronachflame/characters/atronachflame.bin"@ {
        Some("atronachflame"@)
    } else if t.len() == 65 && t == "meshes/actors/atronachfrost/characters/atronachfrostcharacter.bin"@ {
        Some("atronachfrost"@)
    } else if t.len() == 65 && t == "meshes/actors/atronachstorm/characters/atronachstormcharacter.bin"@ {
        Some("atronachstorm"@)
    } else if t.len() == 47 && t == "meshes/actors/bear/characters/bearcharacter.bin"@ {
        Some("bear"@)
    } else if t.len() == 71 && t == "meshes/actors/dlc02/benthiclurker/characters/benthiclurkercharacter.bin"@ {
        Some("benthiclurker"@)
    } else if t.len() == 52 && t == "meshes/actors/dlc02/boarriekling/characters/boar.bin"@ {
        Some("boarriekling"@)
    } else if t.len() == 44 && t == "meshes/actors/chaurus/characters/chaurus.bin"@ {
        Some("chaurus"@)
    } else if t.len() == 69 && t == "meshes/actors/dlc01/chaurusflyer/characters/chaurusflyercharacter.bin"@ {
        Some("chaurusflyer"@)
    } else if t.len() == 60 && t == "meshes/actors/ambient/chicken/characters/chickencharater.bin"@ {
        Some("chicken"@)
    } else if t.len() == 46 && t == "meshes/actors/cow/characters/h_cowcharater.bin"@ {
        Some("cow"@)
    } else if t.len() == 46 && t == "meshes/actors/deer/characters/deercharater.bin"@ {
        Some("deer"@)
    } else if t.len() == 43 && t == "meshes/actors/canine/characters dog/dog.bin"@ {
        Some("dog"@)
    } else if t.len() == 46 && t == "meshes/actors/dragon/characters/dragontest.bin"@ {
        Some("dragon"@)
    } else if t.len() == 55 && t == "meshes/actors/dragonpriest/characters/dragon_priest.bin"@ {
        Some("dragonpriest"@)
    } else if t.len() == 42 && t == "meshes/actors/draugr/characters/draugr.bin"@ {
        Some("draugr"@)
    } else if t.len() == 58 && t == "meshes/actors/draugr/characterskeleton/draugr_skeleton.bin"@ {
        Some("draugr"@)
    } else if t.len() == 77 && t == "meshes/actors/dlc02/dwarvenballistacenturion/characters/ballistacenturion.bin"@ {
        Some("dwarvenballistacenturion"@)
    } else if t.len() == 67 && t == "meshes/actors/dwarvenspherecenturion/characters/spherecenturion.bin"@ {
        Some("dwarvenspherecenturion"@)
    } else if t.len() == 65 && t == "meshes/actors/dwarvenspider/characters/dwarvenspidercenturion.bin"@ {
        Some("dwarvenspider"@)
    } else if t.len() == 63 && t == "meshes/actors/dwarvensteamcenturion/characters/dwarvensteam.bin"@ {
        Some("dwarvensteamcenturion"@)
    } else if t.len() == 42 && t == "meshes/actors/falmer/characters/falmer.bin"@ {
        Some("falmer"@)
    } else if t.len() == 69 && t == "meshes/actors/frostbitespider/characters/frostbitespidercharacter.bin"@ {
        Some("frostbitespider"@)
    } else if t.len() == 49 && t == "meshes/actors/giant/characters/giantcharacter.bin"@ {
        Some("giant"@)
    } else if t.len() == 46 && t == "meshes/actors/goat/characters/goatcharater.bin"@ {
        Some("goat"@)
    } else if t.len() == 55 && t == "meshes/actors/hagraven/characters/hagravencharacter.bin"@ {
        Some("hagraven"@)
    } else if t.len() == 54 && t == "meshes/actors/ambient/hare/characters/harecharater.bin"@ {
        Some("hare"@)
    } else if t.len() == 61 && t == "meshes/actors/dlc02/hmdaedra/characters/hmdaedracharacter.bin"@ {
        Some("hmdaedra"@)
    } else if t.len() == 42 && t == "meshes/actors/horker/characters/horker.bin"@ {
        Some("horker"@)
    } else if t.len() == 40 && t == "meshes/actors/horse/characters/horse.bin"@ {
        Some("horse"@)
    } else if t.len() == 57 && t == "meshes/actors/icewraith/characters/icewraithcharacter.bin"@ {
        Some("icewraith"@)
    } else if t.len() == 53 && t == "meshes/actors/mammoth/characters/mammothcharacter.bin"@ {
        Some("mammoth"@)
    } else if t.len() == 53 && t == "meshes/actors/mudcrab/characters/mudcrabcharacter.bin"@ {
        Some("mudcrab"@)
    } else if t.len() == 55 && t == "meshes/actors/dlc02/netch/characters/netchcharacter.bin"@ {
        Some("netch"@)
    } else if t.len() == 61 && t == "meshes/actors/dlc02/riekling/characters/rieklingcharacter.bin"@ {
        Some("riekling"@)
    } else if t.len() == 46 && t == "meshes/actors/sabrecat/characters/sabrecat.bin"@ {
        Some("sabrecat"@)
    } else if t.len() == 46 && t == "meshes/actors/dlc02/scrib/characters/scrib.bin"@ {
        Some("scrib"@)
    } else if t.len() == 53 && t == "meshes/actors/skeever/characters/skeevercharacter.bin"@ {
        Some("skeever"@)
    } else if t.len() == 56 && t == "meshes/actors/slaughterfish/characters/slaughterfish.bin"@ {
        Some("slaughterfish"@)
    } else if t.len() == 46 && t == "meshes/actors/spriggan/characters/spriggan.bin"@ {
        Some("spriggan"@)
    } else if t.len() == 40 && t == "meshes/actors/troll/characters/troll.bin"@ {
        Some("troll"@)
    } else if t.len() == 69 && t == "meshes/actors/dlc01/vampirebrute/characters/vampirebrutecharacter.bin"@ {
        Some("vampirebrute"@)
    } else if t.len() == 52 && t == "meshes/actors/vampirelord/characters/vampirelord.bin"@ {
        Some("vampirelord"@)
    } else if t.len() == 51 && t == "meshes/actors/werewolfbeast/characters/werewolf.bin"@ {
        Some("werewolfbeast"@)
    } else if t.len() == 47 && t == "meshes/actors/wisp/characters/wispcharacter.bin"@ {
        Some("wisp"@)
    } else if t.len() == 59 && t == "meshes/actors/witchlight/characters/witchlightcharacter.bin"@ {
        Some("witchlight"@)
    } else if t.len() == 45 && t == "meshes/actors/canine/characters wolf/wolf.bin"@ {
        Some("wolf"@)
    } else if t.len() == 49 && t == "meshes/auxbones/tail/characters/tailcharacter.bin"@ {
        Some("tail"@)
    } else if t.len() == 55 && t == "meshes/dlc01/plants/caveworm/characters/character01.bin"@ {
        Some("caveworm"@)
    } else if t.len() == 60 && t == "meshes/dlc01/plants/cavewormgroup/characters/character01.bin"@ {
        Some("cavewormgroup"@)
    } else if t.len() == 60 && t == "meshes/dlc01/plants/cavewormsmall/characters/character01.bin"@ {
        Some("cavewormsmall"@)
    } else {
        None
    }
}

proof fn lemma_default_owner_0()
    ensures
        default_owner(spec_meshes_key("actors/character/_1stperson"@, "characters/firstperson.bin"@)) == Some("character/_1stperson"@),
{
    reveal_strlit("meshes/");
    reveal_strlit("/");
    reveal_strlit("meshes/actors/character/_1stperson/characters/firstperson.bin");
    reveal_strlit("actors/character/_1stperson");
    reveal_strlit("characters/firstperson.bin");
    assert(spec_meshes_key("actors/character/_1stperson"@, "characters/firstperson.bin"@) =~= "meshes/actors/character/_1stperson/characters/firstperson.bin"@);
}

proof fn lemma_default_owner_1()
    ensures
        default_owner(spec_meshes_key("actors/character"@, "characters/defaultmale.bin"@)) == Some("character"@),
{
    reveal_strlit("meshes/");
    reveal_strlit("/");
    reveal_strlit("meshes/actors/character/characters/defaultmale.bin");
    reveal_strlit("actors/character");
    reveal_strlit("characters/defaultmale.bin");
    assert(spec_meshes_key("actors/character"@, "characters/defaultmale.bin"@) =~= "meshes/actors/character/characters/defaultmale.bin"@);
}

proof fn lemma_default_owner_2()
    ensures
        default_owner(spec_meshes_key("actors/atronachflame"@, "characters/atronachflame.bin"@)) == Some("atronachflame"@),
{
    reveal_strlit("meshes/");
    reveal_strlit("/");
    reveal_strlit("meshes/actors/atronachflame/characters/atronachflame.bin");
    reveal_strlit("actors/atronachflame");
    reveal_strlit("characters/atronachflame.bin");
    assert(spec_meshes_key("actors/atronachflame"@, "characters/atronachflame.bin"@) =~= "meshes/actors/atronachflame/characters/atronachflame.bin"@);
}

proof fn lemma_default_owner_3()
    ensures
        default_owner(spec_meshes_key("actors/atronachfrost"@, "characters/atronachfrostcharacter.bin"@)) == Some("atronachfrost"@),
{
    reveal_strlit("meshes/");
    reveal_strlit("/");
    reveal_strlit("meshes/actors/atronachfrost/characters/atronachfrostcharacter.bin");
    reveal_strlit("actors/atronachfrost");
    reveal_strlit("characters/atronachfrostcharacter.bin");
    assert(spec_meshes_key("actors/atronachfrost"@, "characters/atronachfrostcharacter.bin"@) =~= "meshes/actors/atronachfrost/characters/atronachfrostcharacter.bin"@);
}

proof fn lemma_default_owner_4()
    ensures
        default_owner(spec_meshes_key("actors/atronachstorm"@, "characters/atronachstormcharacter.bin"@)) == Some("atronachstorm"@),
{
    reveal_strlit("meshes/");
    reveal_strlit("/");
    reveal_strlit("meshes/actors/atronachstorm/characters/atronachstormcharacter.bin");
    reveal_strlit("actors/atronachstorm");
    reveal_strlit("characters/atronachstormcharacter.bin");
    assert(spec_meshes_key("actors/atronachstorm"@, "characters/atronachstormcharacter.bin"@) =~= "meshes/actors/atronachstorm/characters/atronachstormcharacter.bin"@);
    reveal_strlit("meshes/actors/atronachfrost/characters/atronachfrostcharacter.bin");
    assert("meshes/actors/atronachstorm/characters/atronachstormcharacter.bin"@[22] != "meshes/actors/atronachfrost/characters/atronachfrostcharacter.bin"@[22]);
}

proof fn lemma_default_owner_5()
    ensures
        default_owner(spec_meshes_key("actors/bear"@, "characters/bearcharacter.bin"@)) == Some("bear"@),
{
    reveal_strlit("meshes/");
    reveal_strlit("/");
    reveal_strlit("meshes/actors/bear/characters/bearcharacter.bin");
    reveal_strlit("actors/bear");
    reveal_strlit("characters/bearcharacter.bin");
    assert(spec_meshes_key("actors/bear"@, "characters/bearcharacter.bin"@) =~= "meshes/actors/bear/characters/bearcharacter.bin"@);
}

proof fn lemma_default_owner_6()
    ensures
        default_owner(spec_meshes_key("actors/dlc02/benthiclurker"@, "characters/benthiclurkercharacter.bin"@)) == Some("benthiclurker"@),
{
    reveal_strlit("meshes/");
    reveal_strlit("/");
    reveal_strlit("meshes/actors/dlc02/benthiclurker/characters/benthiclurkercharacter.bin");
    reveal_strlit("actors/dlc02/benthiclurker");
    reveal_strlit("characters/benthiclurkercharacter.bin");
    assert(spec_meshes_key("actors/dlc02/benthiclurker"@, "characters/benthiclurkercharacter.bin"@) =~= "meshes/actors/dlc02/benthiclurker/characters/benthiclurkercharacter.bin"@);
}

proof fn lemma_default_owner_7()
    ensures
        default_owner(spec_meshes_key("actors/dlc02/boarriekling"@, "characters/boar.bin"@)) == Some("boarriekling"@),
{
    reveal_strlit("meshes/");
    reveal_strlit("/");
    reveal_strlit("meshes/actors/dlc02/boarriekling/characters/boar.bin");
    reveal_strlit("actors/dlc02/boarriekling");
    reveal_strlit("characters/boar.bin");
    assert(spec_meshes_key("actors/dlc02/boarriekling"@, "characters/boar.bin"@) =~= "meshes/actors/dlc02/boarriekling/characters/boar.bin"@);
}

proof fn lemma_default_owner_8()
    ensures
        default_owner(spec_meshes_key("actors/chaurus"@, "characters/chaurus.bin"@)) == Some("chaurus"@),
{
    reveal_strlit("meshes/");
    reveal_strlit("/");
    reveal_strlit("meshes/actors/chaurus/characters/chaurus.bin");
    reveal_strlit("actors/chaurus");
    reveal_strlit("characters/chaurus.bin");
    assert(spec_meshes_key("actors/chaurus"@, "characters/chaurus.bin"@) =~= "meshes/actors/chaurus/characters/chaurus.bin"@);
}

proof fn lemma_default_owner_9()
    ensures
        default_owner(spec_meshes_key("actors/dlc01/chaurusflyer"@, "characters/chaurusflyercharacter.bin"@)) == Some("chaurusflyer"@),
{
    reveal_strlit("meshes/");
    reveal_strlit("/");
    reveal_strlit("meshes/actors/dlc01/chaurusflyer/characters/chaurusflyercharacter.bin");
    reveal_strlit("actors/dlc01/chaurusflyer");
    reveal_strlit("characters/chaurusflyercharacter.bin");
    assert(spec_meshes_key("actors/dlc01/chaurusflyer"@, "characters/chaurusflyercharacter.bin"@) =~= "meshes/actors/dlc01/chaurusflyer/characters/chaurusflyercharacter.bin"@);
}

proof fn lemma_default_owner_10()
    ensures
        default_owner(spec_meshes_key("actors/ambient/chicken"@, "characters/chickencharater.bin"@)) == Some("chicken"@),
{
    reveal_strlit("meshes/");
    reveal_strlit("/");
    reveal_strlit("meshes/actors/ambient/chicken/characters/chickencharater.bin");
    reveal_strlit("actors/ambient/chicken");
    reveal_strlit("characters/chickencharater.bin");
    assert(spec_meshes_key("actors/ambient/chicken"@, "characters/chickencharater.bin"@) =~= "meshes/actors/ambient/chicken/characters/chickencharater.bin"@);
}

proof fn lemma_default_owner_11()
    ensures
        default_owner(spec_meshes_key("actors/cow"@, "characters/h_cowcharater.bin"@)) == Some("cow"@),
{
    reveal_strlit("meshes/");
    reveal_strlit("/");
    reveal_strlit("meshes/actors/cow/characters/h_cowcharater.bin");
    reveal_strlit("actors/cow");
    reveal_strlit("characters/h_cowcharater.bin");
    assert(spec_meshes_key("actors/cow"@, "characters/h_cowcharater.bin"@) =~= "meshes/actors/cow/characters/h_cowcharater.bin"@);
}

proof fn lemma_default_owner_12()
    ensures
        default_owner(spec_meshes_key("actors/deer"@, "characters/deercharater.bin"@)) == Some("deer"@),
{
    reveal_strlit("meshes/");
    reveal_strlit("/");
    reveal_strlit("meshes/actors/deer/characters/deercharater.bin");
    reveal_strlit("actors/deer");
    reveal_strlit("characters/deercharater.bin");
    assert(spec_meshes_key("actors/deer"@, "characters/deercharater.bin"@) =~= "meshes/actors/deer/characters/deercharater.bin"@);
    reveal_strlit("meshes/actors/cow/characters/h_cowcharater.bin");
    assert("meshes/actors/deer/characters/deercharater.bin"@[14] != "meshes/actors/cow/characters/h_cowcharater.bin"@[14]);
}

proof fn lemma_default_owner_13()
    ensures
        default_owner(spec_meshes_key("actors/canine"@, "characters dog/dog.bin"@)) == Some("dog"@),
{
    reveal_strlit("meshes/");
    reveal_strlit("/");
    reveal_strlit("meshes/actors/canine/characters dog/dog.bin");
    reveal_strlit("actors/canine");
    reveal_strlit("characters dog/dog.bin");
    assert(spec_meshes_key("actors/canine"@, "characters dog/dog.bin"@) =~= "meshes/actors/canine/characters dog/dog.bin"@);
}

proof fn lemma_default_owner_14()
    ensures
        default_owner(spec_meshes_key("actors/dragon"@, "characters/dragontest.bin"@)) == Some("dragon"@),
{
    reveal_strlit("meshes/");
    reveal_strlit("/");
    reveal_strlit("meshes/actors/dragon/characters/dragontest.bin");
    reveal_strlit("actors/dragon");
    reveal_strlit("characters/dragontest.bin");
    assert(spec_meshes_key("actors/dragon"@, "characters/dragontest.bin"@) =~= "meshes/actors/dragon/characters/dragontest.bin"@);
    reveal_strlit("meshes/actors/cow/characters/h_cowcharater.bin");
    assert("meshes/actors/dragon/characters/dragontest.bin"@[14] != "meshes/actors/cow/characters/h_cowcharater.bin"@[14]);
    reveal_strlit("meshes/actors/deer/characters/deercharater.bin");
    assert("meshes/actors/dragon/characters/dragontest.bin"@[15] != "meshes/actors/deer/characters/deercharater.bin"@[15]);
}

proof fn lemma_default_owner_15()
    ensures
        default_owner(spec_meshes_key("actors/dragonpriest"@, "characters/dragon_priest.bin"@)) == Some("dragonpriest"@),
{
    reveal_strlit("meshes/");
    reveal_strlit("/");
    reveal_strlit("meshes/actors/dragonpriest/characters/dragon_priest.bin");
    reveal_strlit("actors/dragonpriest");
    reveal_strlit("characters/dragon_priest.bin");
    assert(spec_meshes_key("actors/dragonpriest"@, "characters/dragon_priest.bin"@) =~= "meshes/actors/dragonpriest/characters/dragon_priest.bin"@);
}

proof fn lemma_default_owner_16()
    ensures
        default_owner(spec_meshes_key("actors/draugr"@, "characters/draugr.bin"@)) == Some("draugr"@),
{
    reveal_strlit("meshes/");
    reveal_strlit("/");
    reveal_strlit("meshes/actors/draugr/characters/draugr.bin");
    reveal_strlit("actors/draugr");
    reveal_strlit("characters/draugr.bin");
    assert(spec_meshes_key("actors/draugr"@, "characters/draugr.bin"@) =~= "meshes/actors/draugr/characters/draugr.bin"@);
}

proof fn lemma_default_owner_17()
    ensures
        default_owner(spec_meshes_key("actors/draugr"@, "characterskeleton/draugr_skeleton.bin"@)) == Some("draugr"@),
{
    reveal_strlit("meshes/");
    reveal_strlit("/");
    reveal_strlit("meshes/actors/draugr/characterskeleton/draugr_skeleton.bin");
    reveal_strlit("actors/draugr");
    reveal_strlit("characterskeleton/draugr_skeleton.bin");
    assert(spec_meshes_key("actors/draugr"@, "characterskeleton/draugr_skeleton.bin"@) =~= "meshes/actors/draugr/characterskeleton/draugr_skeleton.bin"@);
}

proof fn lemma_default_owner_18()
    ensures
        default_owner(spec_meshes_key("actors/dlc02/dwarvenballistacenturion"@, "characters/ballistacenturion.bin"@)) == Some("dwarvenballistacenturion"@),
{
    reveal_strlit("meshes/");
    reveal_strlit("/");
    reveal_strlit("meshes/actors/dlc02/dwarvenballistacenturion/characters/ballistacenturion.bin");
    reveal_strlit("actors/dlc02/dwarvenballistacenturion");
    reveal_strlit("characters/ballistacenturion.bin");
    assert(spec_meshes_key("actors/dlc02/dwarvenballistacenturion"@, "characters/ballistacenturion.bin"@) =~= "meshes/actors/dlc02/dwarvenballistacenturion/characters/ballistacenturion.bin"@);
}

proof fn lemma_default_owner_19()
    ensures
        default_owner(spec_meshes_key("actors/dwarvenspherecenturion"@, "characters/spherecenturion.bin"@)) == Some("dwarvenspherecenturion"@),
{
    reveal_strlit("meshes/");
    reveal_strlit("/");
    reveal_strlit("meshes/actors/dwarvenspherecenturion/characters/spherecenturion.bin");
    reveal_strlit("actors/dwarvenspherecenturion");
    reveal_strlit("characters/spherecenturion.bin");
    assert(spec_meshes_key("actors/dwarvenspherecenturion"@, "characters/spherecenturion.bin"@) =~= "meshes/actors/dwarvenspherecenturion/characters/spherecenturion.bin"@);
}

proof fn lemma_default_owner_20()
    ensures
        default_owner(spec_meshes_key("actors/dwarvenspider"@, "characters/dwarvenspidercenturion.bin"@)) == Some("dwarvenspider"@),
{
    reveal_strlit("meshes/");
    reveal_strlit("/");
    reveal_strlit("meshes/actors/dwarvenspider/characters/dwarvenspidercenturion.bin");
    reveal_strlit("actors/dwarvenspider");
    reveal_strlit("characters/dwarvenspidercenturion.bin");
    assert(spec_meshes_key("actors/dwarvenspider"@, "characters/dwarvenspidercenturion.bin"@) =~= "meshes/actors/dwarvenspider/characters/dwarvenspidercenturion.bin"@);
    reveal_strlit("meshes/actors/atronachfrost/characters/atronachfrostcharacter.bin");
    assert("meshes/actors/dwarvenspider/characters/dwarvenspidercenturion.bin"@[14] != "meshes/actors/atronachfrost/characters/atronachfrostcharacter.bin"@[14]);
    reveal_strlit("meshes/actors/atronachstorm/characters/atronachstormcharacter.bin");
    assert("meshes/actors/dwarvenspider/characters/dwarvenspidercenturion.bin"@[14] != "meshes/actors/atronachstorm/characters/atronachstormcharacter.bin"@[14]);
}

proof fn lemma_default_owner_21()
    ensures
        default_owner(spec_meshes_key("actors/dwarvensteamcenturion"@, "characters/dwarvensteam.bin"@)) == Some("dwarvensteamcenturion"@),
{
    reveal_strlit("meshes/");
    reveal_strlit("/");
    reveal_strlit("meshes/actors/dwarvensteamcenturion/characters/dwarvensteam.bin");
    reveal_strlit("actors/dwarvensteamcenturion");
    reveal_strlit("characters/dwarvensteam.bin");
    assert(spec_meshes_key("actors/dwarvensteamcenturion"@, "characters/dwarvensteam.bin"@) =~= "meshes/actors/dwarvensteamcenturion/characters/dwarvensteam.bin"@);
}

proof fn lemma_default_owner_22()
    ensures
        default_owner(spec_meshes_key("actors/falmer"@, "characters/falmer.bin"@)) == Some("falmer"@),
{
    reveal_strlit("meshes/");
    reveal_strlit("/");
    reveal_strlit("meshes/actors/falmer/characters/falmer.bin");
    reveal_strlit("actors/falmer");
    reveal_strlit("characters/falmer.bin");
    assert(spec_meshes_key("actors/falmer"@, "characters/falmer.bin"@) =~= "meshes/actors/falmer/characters/falmer.bin"@);
    reveal_strlit("meshes/actors/draugr/characters/draugr.bin");
    assert("meshes/actors/falmer/characters/falmer.bin"@[14] != "meshes/actors/draugr/characters/draugr.bin"@[14]);
}

proof fn lemma_default_owner_23()
    ensures
        default_owner(spec_meshes_key("actors/frostbitespider"@, "characters/frostbitespidercharacter.bin"@)) == Some("frostbitespider"@),
{
    reveal_strlit("meshes/");
    reveal_strlit("/");
    reveal_strlit("meshes/actors/frostbitespider/characters/frostbitespidercharacter.bin");
    reveal_strlit("actors/frostbitespider");
    reveal_strlit("characters/frostbitespidercharacter.bin");
    assert(spec_meshes_key("actors/frostbitespider"@, "characters/frostbitespidercharacter.bin"@) =~= "meshes/actors/frostbitespider/characters/frostbitespidercharacter.bin"@);
    reveal_strlit("meshes/actors/dlc01/chaurusflyer/characters/chaurusflyercharacter.bin");
    assert("meshes/actors/frostbitespider/characters/frostbitespidercharacter.bin"@[14] != "meshes/actors/dlc01/chaurusflyer/characters/chaurusflyercharacter.bin"@[14]);
}

proof fn lemma_default_owner_24()
    ensures
        default_owner(spec_meshes_key("actors/giant"@, "characters/giantcharacter.bin"@)) == Some("giant"@),
{
    reveal_strlit("meshes/");
    reveal_strlit("/");
    reveal_strlit("meshes/actors/giant/characters/giantcharacter.bin");
    reveal_strlit("actors/giant");
    reveal_strlit("characters/giantcharacter.bin");
    assert(spec_meshes_key("actors/giant"@, "characters/giantcharacter.bin"@) =~= "meshes/actors/giant/characters/giantcharacter.bin"@);
}

proof fn lemma_default_owner_25()
    ensures
        default_owner(spec_meshes_key("actors/goat"@, "characters/goatcharater.bin"@)) == Some("goat"@),
{
    reveal_strlit("meshes/");
    reveal_strlit("/");
    reveal_strlit("meshes/actors/goat/characters/goatcharater.bin");
    reveal_strlit("actors/goat");
    reveal_strlit("characters/goatcharater.bin");
    assert(spec_meshes_key("actors/goat"@, "characters/goatcharater.bin"@) =~= "meshes/actors/goat/characters/goatcharater.bin"@);
    reveal_strlit("meshes/actors/cow/characters/h_cowcharater.bin");
    assert("meshes/actors/goat/characters/goatcharater.bin"@[14] != "meshes/actors/cow/characters/h_cowcharater.bin"@[14]);
    reveal_strlit("meshes/actors/deer/characters/deercharater.bin");
    assert("meshes/actors/goat/characters/goatcharater.bin"@[14] != "meshes/actors/deer/characters/deercharater.bin"@[14]);
    reveal_strlit("meshes/actors/dragon/characters/dragontest.bin");
    assert("meshes/actors/goat/characters/goatcharater.bin"@[14] != "meshes/actors/dragon/characters/dragontest.bin"@[14]);
}

proof fn lemma_default_owner_26()
    ensures
        default_owner(spec_meshes_key("actors/hagraven"@, "characters/hagravencharacter.bin"@)) == Some("hagraven"@),
{
    reveal_strlit("meshes/");
    reveal_strlit("/");
    reveal_strlit("meshes/actors/hagraven/characters/hagravencharacter.bin");
    reveal_strlit("actors/hagraven");
    reveal_strlit("characters/hagravencharacter.bin");
    assert(spec_meshes_key("actors/hagraven"@, "characters/hagravencharacter.bin"@) =~= "meshes/actors/hagraven/characters/hagravencharacter.bin"@);
    reveal_strlit("meshes/actors/dragonpriest/characters/dragon_priest.bin");
    assert("meshes/actors/hagraven/characters/hagravencharacter.bin"@[14] != "meshes/actors/dragonpriest/characters/dragon_priest.bin"@[14]);
}

proof fn lemma_default_owner_27()
    ensures
        default_owner(spec_meshes_key("actors/ambient/hare"@, "characters/harecharater.bin"@)) == Some("hare"@),
{
    reveal_strlit("meshes/");
    reveal_strlit("/");
    reveal_strlit("meshes/actors/ambient/hare/characters/harecharater.bin");
    reveal_strlit("actors/ambient/hare");
    reveal_strlit("characters/harecharater.bin");
    assert(spec_meshes_key("actors/ambient/hare"@, "characters/harecharater.bin"@) =~= "meshes/actors/ambient/hare/characters/harecharater.bin"@);
}

proof fn lemma_default_owner_28()
    ensures
        default_owner(spec_meshes_key("actors/dlc02/hmdaedra"@, "characters/hmdaedracharacter.bin"@)) == Some("hmdaedra"@),
{
    reveal_strlit("meshes/");
    reveal_strlit("/");
    reveal_strlit("meshes/actors/dlc02/hmdaedra/characters/hmdaedracharacter.bin");
    reveal_strlit("actors/dlc02/hmdaedra");
    reveal_strlit("characters/hmdaedracharacter.bin");
    assert(spec_meshes_key("actors/dlc02/hmdaedra"@, "characters/hmdaedracharacter.bin"@) =~= "meshes/actors/dlc02/hmdaedra/characters/hmdaedracharacter.bin"@);
    reveal_strlit("meshes/actors/character/_1stperson/characters/firstperson.bin");
    assert("meshes/actors/dlc02/hmdaedra/characters/hmdaedracharacter.bin"@[14] != "meshes/actors/character/_1stperson/characters/firstperson.bin"@[14]);
}

proof fn lemma_default_owner_29()
    ensures
        default_owner(spec_meshes_key("actors/horker"@, "characters/horker.bin"@)) == Some("horker"@),
{
    reveal_strlit("meshes/");
    reveal_strlit("/");
    reveal_strlit("meshes/actors/horker/characters/horker.bin");
    reveal_strlit("actors/horker");
    reveal_strlit("characters/horker.bin");
    assert(spec_meshes_key("actors/horker"@, "characters/horker.bin"@) =~= "meshes/actors/horker/characters/horker.bin"@);
    reveal_strlit("meshes/actors/draugr/characters/draugr.bin");
    assert("meshes/actors/horker/characters/horker.bin"@[14] != "meshes/actors/draugr/characters/draugr.bin"@[14]);
    reveal_strlit("meshes/actors/falmer/characters/falmer.bin");
    assert("meshes/actors/horker/characters/horker.bin"@[14] != "meshes/actors/falmer/characters/falmer.bin"@[14]);
}

proof fn lemma_default_owner_30()
    ensures
        default_owner(spec_meshes_key("actors/horse"@, "characters/horse.bin"@)) == Some("horse"@),
{
    reveal_strlit("meshes/");
    reveal_strlit("/");
    reveal_strlit("meshes/actors/horse/characters/horse.bin");
    reveal_strlit("actors/horse");
    reveal_strlit("characters/horse.bin");
    assert(spec_meshes_key("actors/horse"@, "characters/horse.bin"@) =~= "meshes/actors/horse/characters/horse.bin"@);
}

proof fn lemma_default_owner_31()
    ensures
        default_owner(spec_meshes_key("actors/icewraith"@, "characters/icewraithcharacter.bin"@)) == Some("icewraith"@),
{
    reveal_strlit("meshes/");
    reveal_strlit("/");
    reveal_strlit("meshes/actors/icewraith/characters/icewraithcharacter.bin");
    reveal_strlit("actors/icewraith");
    reveal_strlit("characters/icewraithcharacter.bin");
    assert(spec_meshes_key("actors/icewraith"@, "characters/icewraithcharacter.bin"@) =~= "meshes/actors/icewraith/characters/icewraithcharacter.bin"@);
}

proof fn lemma_default_owner_32()
    ensures
        default_owner(spec_meshes_key("actors/mammoth"@, "characters/mammothcharacter.bin"@)) == Some("mammoth"@),
{
    reveal_strlit("meshes/");
    reveal_strlit("/");
    reveal_strlit("meshes/actors/mammoth/characters/mammothcharacter.bin");
    reveal_strlit("actors/mammoth");
    reveal_strlit("characters/mammothcharacter.bin");
    assert(spec_meshes_key("actors/mammoth"@, "characters/mammothcharacter.bin"@) =~= "meshes/actors/mammoth/characters/mammothcharacter.bin"@);
}

proof fn lemma_default_owner_33()
    ensures
        default_owner(spec_meshes_key("actors/mudcrab"@, "characters/mudcrabcharacter.bin"@)) == Some("mudcrab"@),
{
    reveal_strlit("meshes/");
    reveal_strlit("/");
    reveal_strlit("meshes/actors/mudcrab/characters/mudcrabcharacter.bin");
    reveal_strlit("actors/mudcrab");
    reveal_strlit("characters/mudcrabcharacter.bin");
    assert(spec_meshes_key("actors/mudcrab"@, "characters/mudcrabcharacter.bin"@) =~= "meshes/actors/mudcrab/characters/mudcrabcharacter.bin"@);
    reveal_strlit("meshes/actors/mammoth/characters/mammothcharacter.bin");
    assert("meshes/actors/mudcrab/characters/mudcrabcharacter.bin"@[15] != "meshes/actors/mammoth/characters/mammothcharacter.bin"@[15]);
}

proof fn lemma_default_owner_34()
    ensures
        default_owner(spec_meshes_key("actors/dlc02/netch"@, "characters/netchcharacter.bin"@)) == Some("netch"@),
{
    reveal_strlit("meshes/");
    reveal_strlit("/");
    reveal_strlit("meshes/actors/dlc02/netch/characters/netchcharacter.bin");
    reveal_strlit("actors/dlc02/netch");
    reveal_strlit("characters/netchcharacter.bin");
    assert(spec_meshes_key("actors/dlc02/netch"@, "characters/netchcharacter.bin"@) =~= "meshes/actors/dlc02/netch/characters/netchcharacter.bin"@);
    reveal_strlit("meshes/actors/dragonpriest/characters/dragon_priest.bin");
    assert("meshes/actors/dlc02/netch/characters/netchcharacter.bin"@[15] != "meshes/actors/dragonpriest/characters/dragon_priest.bin"@[15]);
    reveal_strlit("meshes/actors/hagraven/characters/hagravencharacter.bin");
    assert("meshes/actors/dlc02/netch/characters/netchcharacter.bin"@[14] != "meshes/actors/hagraven/characters/hagravencharacter.bin"@[14]);
}

proof fn lemma_default_owner_35()
    ensures
        default_owner(spec_meshes_key("actors/dlc02/riekling"@, "characters/rieklingcharacter.bin"@)) == Some("riekling"@),
{
    reveal_strlit("meshes/");
    reveal_strlit("/");
    reveal_strlit("meshes/actors/dlc02/riekling/characters/rieklingcharacter.bin");
    reveal_strlit("actors/dlc02/riekling");
    reveal_strlit("characters/rieklingcharacter.bin");
    assert(spec_meshes_key("actors/dlc02/riekling"@, "characters/rieklingcharacter.bin"@) =~= "meshes/actors/dlc02/riekling/characters/rieklingcharacter.bin"@);
    reveal_strlit("meshes/actors/character/_1stperson/characters/firstperson.bin");
    assert("meshes/actors/dlc02/riekling/characters/rieklingcharacter.bin"@[14] != "meshes/actors/character/_1stperson/characters/firstperson.bin"@[14]);
    reveal_strlit("meshes/actors/dlc02/hmdaedra/characters/hmdaedracharacter.bin");
    assert("meshes/actors/dlc02/riekling/characters/rieklingcharacter.bin"@[20] != "meshes/actors/dlc02/hmdaedra/characters/hmdaedracharacter.bin"@[20]);
}

proof fn lemma_default_owner_36()
    ensures
        default_owner(spec_meshes_key("actors/sabrecat"@, "characters/sabrecat.bin"@)) == Some("sabrecat"@),
{
    reveal_strlit("meshes/");
    reveal_strlit("/");
    reveal_strlit("meshes/actors/sabrecat/characters/sabrecat.bin");
    reveal_strlit("actors/sabrecat");
    reveal_strlit("characters/sabrecat.bin");
    assert(spec_meshes_key("actors/sabrecat"@, "characters/sabrecat.bin"@) =~= "meshes/actors/sabrecat/characters/sabrecat.bin"@);
    reveal_strlit("meshes/actors/cow/characters/h_cowcharater.bin");
    assert("meshes/actors/sabrecat/characters/sabrecat.bin"@[14] != "meshes/actors/cow/characters/h_cowcharater.bin"@[14]);
    reveal_strlit("meshes/actors/deer/characters/deercharater.bin");
    assert("meshes/actors/sabrecat/characters/sabrecat.bin"@[14] != "meshes/actors/deer/characters/deercharater.bin"@[14]);
    reveal_strlit("meshes/actors/dragon/characters/dragontest.bin");
    assert("meshes/actors/sabrecat/characters/sabrecat.bin"@[14] != "meshes/actors/dragon/characters/dragontest.bin"@[14]);
    reveal_strlit("meshes/actors/goat/characters/goatcharater.bin");
    assert("meshes/actors/sabrecat/characters/sabrecat.bin"@[14] != "meshes/actors/goat/characters/goatcharater.bin"@[14]);
}

proof fn lemma_default_owner_37()
    ensures
        default_owner(spec_meshes_key("actors/dlc02/scrib"@, "characters/scrib.bin"@)) == Some("scrib"@),
{
    reveal_strlit("meshes/");
    reveal_strlit("/");
    reveal_strlit("meshes/actors/dlc02/scrib/characters/scrib.bin");
    reveal_strlit("actors/dlc02/scrib");
    reveal_strlit("characters/scrib.bin");
    assert(spec_meshes_key("actors/dlc02/scrib"@, "characters/scrib.bin"@) =~= "meshes/actors/dlc02/scrib/characters/scrib.bin"@);
    reveal_strlit("meshes/actors/cow/characters/h_cowcharater.bin");
    assert("meshes/actors/dlc02/scrib/characters/scrib.bin"@[14] != "meshes/actors/cow/characters/h_cowcharater.bin"@[14]);
    reveal_strlit("meshes/actors/deer/characters/deercharater.bin");
    assert("meshes/actors/dlc02/scrib/characters/scrib.bin"@[15] != "meshes/actors/deer/characters/deercharater.bin"@[15]);
    reveal_strlit("meshes/actors/dragon/characters/dragontest.bin");
    assert("meshes/actors/dlc02/scrib/characters/scrib.bin"@[15] != "meshes/actors/dragon/characters/dragontest.bin"@[15]);
    reveal_strlit("meshes/actors/goat/characters/goatcharater.bin");
    assert("meshes/actors/dlc02/scrib/characters/scrib.bin"@[14] != "meshes/actors/goat/characters/goatcharater.bin"@[14]);
    reveal_strlit("meshes/actors/sabrecat/characters/sabrecat.bin");
    assert("meshes/actors/dlc02/scrib/characters/scrib.bin"@[14] != "meshes/actors/sabrecat/characters/sabrecat.bin"@[14]);
}

proof fn lemma_default_owner_38()
    ensures
        default_owner(spec_meshes_key("actors/skeever"@, "characters/skeevercharacter.bin"@)) == Some("skeever"@),
{
    reveal_strlit("meshes/");
    reveal_strlit("/");
    reveal_strlit("meshes/actors/skeever/characters/skeevercharacter.bin");
    reveal_strlit("actors/skeever");
    reveal_strlit("characters/skeevercharacter.bin");
    assert(spec_meshes_key("actors/skeever"@, "characters/skeevercharacter.bin"@) =~= "meshes/actors/skeever/characters/skeevercharacter.bin"@);
    reveal_strlit("meshes/actors/mammoth/characters/mammothcharacter.bin");
    assert("meshes/actors/skeever/characters/skeevercharacter.bin"@[14] != "meshes/actors/mammoth/characters/mammothcharacter.bin"@[14]);
    reveal_strlit("meshes/actors/mudcrab/characters/mudcrabcharacter.bin");
    assert("meshes/actors/skeever/characters/skeevercharacter.bin"@[14] != "meshes/actors/mudcrab/characters/mudcrabcharacter.bin"@[14]);
}

proof fn lemma_default_owner_39()
    ensures
        default_owner(spec_meshes_key("actors/slaughterfish"@, "characters/slaughterfish.bin"@)) == Some("slaughterfish"@),
{
    reveal_strlit("meshes/");
    reveal_strlit("/");
    reveal_strlit("meshes/actors/slaughterfish/characters/slaughterfish.bin");
    reveal_strlit("actors/slaughterfish");
    reveal_strlit("characters/slaughterfish.bin");
    assert(spec_meshes_key("actors/slaughterfish"@, "characters/slaughterfish.bin"@) =~= "meshes/actors/slaughterfish/characters/slaughterfish.bin"@);
    reveal_strlit("meshes/actors/atronachflame/characters/atronachflame.bin");
    assert("meshes/actors/slaughterfish/characters/slaughterfish.bin"@[14] != "meshes/actors/atronachflame/characters/atronachflame.bin"@[14]);
}

proof fn lemma_default_owner_40()
    ensures
        default_owner(spec_meshes_key("actors/spriggan"@, "characters/spriggan.bin"@)) == Some("spriggan"@),
{
    reveal_strlit("meshes/");
    reveal_strlit("/");
    reveal_strlit("meshes/actors/spriggan/characters/spriggan.bin");
    reveal_strlit("actors/spriggan");
    reveal_strlit("characters/spriggan.bin");
    assert(spec_meshes_key("actors/spriggan"@, "characters/spriggan.bin"@) =~= "meshes/actors/spriggan/characters/spriggan.bin"@);
    reveal_strlit("meshes/actors/cow/characters/h_cowcharater.bin");
    assert("meshes/actors/spriggan/characters/spriggan.bin"@[14] != "meshes/actors/cow/characters/h_cowcharater.bin"@[14]);
    reveal_strlit("meshes/actors/deer/characters/deercharater.bin");
    assert("meshes/actors/spriggan/characters/spriggan.bin"@[14] != "meshes/actors/deer/characters/deercharater.bin"@[14]);
    reveal_strlit("meshes/actors/dragon/characters/dragontest.bin");
    assert("meshes/actors/spriggan/characters/spriggan.bin"@[14] != "meshes/actors/dragon/characters/dragontest.bin"@[14]);
    reveal_strlit("meshes/actors/goat/characters/goatcharater.bin");
    assert("meshes/actors/spriggan/characters/spriggan.bin"@[14] != "meshes/actors/goat/characters/goatcharater.bin"@[14]);
    reveal_strlit("meshes/actors/sabrecat/characters/sabrecat.bin");
    assert("meshes/actors/spriggan/characters/spriggan.bin"@[15] != "meshes/actors/sabrecat/characters/sabrecat.bin"@[15]);
    reveal_strlit("meshes/actors/dlc02/scrib/characters/scrib.bin");
    assert("meshes/actors/spriggan/characters/spriggan.bin"@[14] != "meshes/actors/dlc02/scrib/characters/scrib.bin"@[14]);
}

proof fn lemma_default_owner_41()
    ensures
        default_owner(spec_meshes_key("actors/troll"@, "characters/troll.bin"@)) == Some("troll"@),
{
    reveal_strlit("meshes/");
    reveal_strlit("/");
    reveal_strlit("meshes/actors/troll/characters/troll.bin");
    reveal_strlit("actors/troll");
    reveal_strlit("characters/troll.bin");
    assert(spec_meshes_key("actors/troll"@, "characters/troll.bin"@) =~= "meshes/actors/troll/characters/troll.bin"@);
    reveal_strlit("meshes/actors/horse/characters/horse.bin");
    assert("meshes/actors/troll/characters/troll.bin"@[14] != "meshes/actors/horse/characters/horse.bin"@[14]);
}

proof fn lemma_default_owner_42()
    ensures
        default_owner(spec_meshes_key("actors/dlc01/vampirebrute"@, "characters/vampirebrutecharacter.bin"@)) == Some("vampirebrute"@),
{
    reveal_strlit("meshes/");
    reveal_strlit("/");
    reveal_strlit("meshes/actors/dlc01/vampirebrute/characters/vampirebrutecharacter.bin");
    reveal_strlit("actors/dlc01/vampirebrute");
    reveal_strlit("characters/vampirebrutecharacter.bin");
    assert(spec_meshes_key("actors/dlc01/vampirebrute"@, "characters/vampirebrutecharacter.bin"@) =~= "meshes/actors/dlc01/vampirebrute/characters/vampirebrutecharacter.bin"@);
    reveal_strlit("meshes/actors/dlc01/chaurusflyer/characters/chaurusflyercharacter.bin");
    assert("meshes/actors/dlc01/vampirebrute/characters/vampirebrutecharacter.bin"@[20] != "meshes/actors/dlc01/chaurusflyer/characters/chaurusflyercharacter.bin"@[20]);
    reveal_strlit("meshes/actors/frostbitespider/characters/frostbitespidercharacter.bin");
    assert("meshes/actors/dlc01/vampirebrute/characters/vampirebrutecharacter.bin"@[14] != "meshes/actors/frostbitespider/characters/frostbitespidercharacter.bin"@[14]);
}

proof fn lemma_default_owner_43()
    ensures
        default_owner(spec_meshes_key("actors/vampirelord"@, "characters/vampirelord.bin"@)) == Some("vampirelord"@),
{
    reveal_strlit("meshes/");
    reveal_strlit("/");
    reveal_strlit("meshes/actors/vampirelord/characters/vampirelord.bin");
    reveal_strlit("actors/vampirelord");
    reveal_strlit("characters/vampirelord.bin");
    assert(spec_meshes_key("actors/vampirelord"@, "characters/vampirelord.bin"@) =~= "meshes/actors/vampirelord/characters/vampirelord.bin"@);
    reveal_strlit("meshes/actors/dlc02/boarriekling/characters/boar.bin");
    assert("meshes/actors/vampirelord/characters/vampirelord.bin"@[14] != "meshes/actors/dlc02/boarriekling/characters/boar.bin"@[14]);
}

proof fn lemma_default_owner_44()
    ensures
        default_owner(spec_meshes_key("actors/werewolfbeast"@, "characters/werewolf.bin"@)) == Some("werewolfbeast"@),
{
    reveal_strlit("meshes/");
    reveal_strlit("/");
    reveal_strlit("meshes/actors/werewolfbeast/characters/werewolf.bin");
    reveal_strlit("actors/werewolfbeast");
    reveal_strlit("characters/werewolf.bin");
    assert(spec_meshes_key("actors/werewolfbeast"@, "characters/werewolf.bin"@) =~= "meshes/actors/werewolfbeast/characters/werewolf.bin"@);
}

proof fn lemma_default_owner_45()
    ensures
        default_owner(spec_meshes_key("actors/wisp"@, "characters/wispcharacter.bin"@)) == Some("wisp"@),
{
    reveal_strlit("meshes/");
    reveal_strlit("/");
    reveal_strlit("meshes/actors/wisp/characters/wispcharacter.bin");
    reveal_strlit("actors/wisp");
    reveal_strlit("characters/wispcharacter.bin");
    assert(spec_meshes_key("actors/wisp"@, "characters/wispcharacter.bin"@) =~= "meshes/actors/wisp/characters/wispcharacter.bin"@);
    reveal_strlit("meshes/actors/bear/characters/bearcharacter.bin");
    assert("meshes/actors/wisp/characters/wispcharacter.bin"@[14] != "meshes/actors/bear/characters/bearcharacter.bin"@[14]);
}

proof fn lemma_default_owner_46()
    ensures
        default_owner(spec_meshes_key("actors/witchlight"@, "characters/witchlightcharacter.bin"@)) == Some("witchlight"@),
{
    reveal_strlit("meshes/");
    reveal_strlit("/");
    reveal_strlit("meshes/actors/witchlight/characters/witchlightcharacter.bin");
    reveal_strlit("actors/witchlight");
    reveal_strlit("characters/witchlightcharacter.bin");
    assert(spec_meshes_key("actors/witchlight"@, "characters/witchlightcharacter.bin"@) =~= "meshes/actors/witchlight/characters/witchlightcharacter.bin"@);
}

proof fn lemma_default_owner_47()
    ensures
        default_owner(spec_meshes_key("actors/canine"@, "characters wolf/wolf.bin"@)) == Some("wolf"@),
{
    reveal_strlit("meshes/");
    reveal_strlit("/");
    reveal_strlit("meshes/actors/canine/characters wolf/wolf.bin");
    reveal_strlit("actors/canine");
    reveal_strlit("characters wolf/wolf.bin");
    assert(spec_meshes_key("actors/canine"@, "characters wolf/wolf.bin"@) =~= "meshes/actors/canine/characters wolf/wolf.bin"@);
}

proof fn lemma_default_owner_48()
    ensures
        default_owner(spec_meshes_key("auxbones/tail"@, "characters/tailcharacter.bin"@)) == Some("tail"@),
{
    reveal_strlit("meshes/");
    reveal_strlit("/");
    reveal_strlit("meshes/auxbones/tail/characters/tailcharacter.bin");
    reveal_strlit("auxbones/tail");
    reveal_strlit("characters/tailcharacter.bin");
    assert(spec_meshes_key("auxbones/tail"@, "characters/tailcharacter.bin"@) =~= "meshes/auxbones/tail/characters/tailcharacter.bin"@);
    reveal_strlit("meshes/actors/giant/characters/giantcharacter.bin");
    assert("meshes/auxbones/tail/characters/tailcharacter.bin"@[8] != "meshes/actors/giant/characters/giantcharacter.bin"@[8]);
}

proof fn lemma_default_owner_49()
    ensures
        default_owner(spec_meshes_key("dlc01/plants/caveworm"@, "characters/character01.bin"@)) == Some("caveworm"@),
{
    reveal_strlit("meshes/");
    reveal_strlit("/");
    reveal_strlit("meshes/dlc01/plants/caveworm/characters/character01.bin");
    reveal_strlit("dlc01/plants/caveworm");
    reveal_strlit("characters/character01.bin");
    assert(spec_meshes_key("dlc01/plants/caveworm"@, "characters/character01.bin"@) =~= "meshes/dlc01/plants/caveworm/characters/character01.bin"@);
    reveal_strlit("meshes/actors/dragonpriest/characters/dragon_priest.bin");
    assert("meshes/dlc01/plants/caveworm/characters/character01.bin"@[7] != "meshes/actors/dragonpriest/characters/dragon_priest.bin"@[7]);
    reveal_strlit("meshes/actors/hagraven/characters/hagravencharacter.bin");
    assert("meshes/dlc01/plants/caveworm/characters/character01.bin"@[7] != "meshes/actors/hagraven/characters/hagravencharacter.bin"@[7]);
    reveal_strlit("meshes/actors/dlc02/netch/characters/netchcharacter.bin");
    assert("meshes/dlc01/plants/caveworm/characters/character01.bin"@[7] != "meshes/actors/dlc02/netch/characters/netchcharacter.bin"@[7]);
}

proof fn lemma_default_owner_50()
    ensures
        default_owner(spec_meshes_key("dlc01/plants/cavewormgroup"@, "characters/character01.bin"@)) == Some("cavewormgroup"@),
{
    reveal_strlit("meshes/");
    reveal_strlit("/");
    reveal_strlit("meshes/dlc01/plants/cavewormgroup/characters/character01.bin");
    reveal_strlit("dlc01/plants/cavewormgroup");
    reveal_strlit("characters/character01.bin");
    assert(spec_meshes_key("dlc01/plants/cavewormgroup"@, "characters/character01.bin"@) =~= "meshes/dlc01/plants/cavewormgroup/characters/character01.bin"@);
    reveal_strlit("meshes/actors/ambient/chicken/characters/chickencharater.bin");
    assert("meshes/dlc01/plants/cavewormgroup/characters/character01.bin"@[7] != "meshes/actors/ambient/chicken/characters/chickencharater.bin"@[7]);
}

proof fn lemma_default_owner_51()
    ensures
        default_owner(spec_meshes_key("dlc01/plants/cavewormsmall"@, "characters/character01.bin"@)) == Some("cavewormsmall"@),
{
    reveal_strlit("meshes/");
    reveal_strlit("/");
    reveal_strlit("meshes/dlc01/plants/cavewormsmall/characters/character01.bin");
    reveal_strlit("dlc01/plants/cavewormsmall");
    reveal_strlit("characters/character01.bin");
    assert(spec_meshes_key("dlc01/plants/cavewormsmall"@, "characters/character01.bin"@) =~= "meshes/dlc01/plants/cavewormsmall/characters/character01.bin"@);
    reveal_strlit("meshes/actors/ambient/chicken/characters/chickencharater.bin");
    assert("meshes/dlc01/plants/cavewormsmall/characters/character01.bin"@[7] != "meshes/actors/ambient/chicken/characters/chickencharater.bin"@[7]);
    reveal_strlit("meshes/dlc01/plants/cavewormgroup/characters/character01.bin");
    assert("meshes/dlc01/plants/cavewormsmall/characters/character01.bin"@[28] != "meshes/dlc01/plants/cavewormgroup/characters/character01.bin"@[28]);
}

proof fn lemma_master_template_of_character__1stperson()
    ensures
        template_of("0_master"@, true) == Some(spec_meshes_key("actors/character/_1stperson"@, "behaviors/0_master.bin"@)),
{
    reveal_strlit("meshes/");
    reveal_strlit("/");
    reveal_strlit("meshes/actors/character/_1stperson/behaviors/0_master.bin");
    reveal_strlit("actors/character/_1stperson");
    reveal_strlit("behaviors/0_master.bin");
    reveal_strlit("0_master");
    assert(spec_meshes_key("actors/character/_1stperson"@, "behaviors/0_master.bin"@) =~= "meshes/actors/character/_1stperson/behaviors/0_master.bin"@);
}

proof fn lemma_master_template_of_character()
    ensures
        template_of("0_master"@, false) == Some(spec_meshes_key("actors/character"@, "behaviors/0_master.bin"@)),
{
    reveal_strlit("meshes/");
    reveal_strlit("/");
    reveal_strlit("meshes/actors/character/behaviors/0_master.bin");
    reveal_strlit("actors/character");
    reveal_strlit("behaviors/0_master.bin");
    reveal_strlit("0_master");
    assert(spec_meshes_key("actors/character"@, "behaviors/0_master.bin"@) =~= "meshes/actors/character/behaviors/0_master.bin"@);
}

proof fn lemma_master_template_of_atronachflame()
    ensures
        template_of("atronachflamebehavior"@, false) == Some(spec_meshes_key("actors/atronachflame"@, "behaviors/atronachflamebehavior.bin"@)),
{
    reveal_strlit("meshes/");
    reveal_strlit("/");
    reveal_strlit("meshes/actors/atronachflame/behaviors/atronachflamebehavior.bin");
    reveal_strlit("actors/atronachflame");
    reveal_strlit("behaviors/atronachflamebehavior.bin");
    reveal_strlit("atronachflamebehavior");
    assert(spec_meshes_key("actors/atronachflame"@, "behaviors/atronachflamebehavior.bin"@) =~= "meshes/actors/atronachflame/behaviors/atronachflamebehavior.bin"@);
    reveal_strlit("0_master");
    assert("atronachflamebehavior"@.len() != "0_master"@.len());
    reveal_strlit("1hm_behavior");
    assert("atronachflamebehavior"@.len() != "1hm_behavior"@.len());
    reveal_strlit("1hm_locomotion");
    assert("atronachflamebehavior"@.len() != "1hm_locomotion"@.len());
}

proof fn lemma_master_template_of_atronachfrost()
    ensures
        template_of("atronachfrostbehavior"@, false) == Some(spec_meshes_key("actors/atronachfrost"@, "behaviors/atronachfrostbehavior.bin"@)),
{
    reveal_strlit("meshes/");
    reveal_strlit("/");
    reveal_strlit("meshes/actors/atronachfrost/behaviors/atronachfrostbehavior.bin");
    reveal_strlit("actors/atronachfrost");
    reveal_strlit("behaviors/atronachfrostbehavior.bin");
    reveal_strlit("atronachfrostbehavior");
    assert(spec_meshes_key("actors/atronachfrost"@, "behaviors/atronachfrostbehavior.bin"@) =~= "meshes/actors/atronachfrost/behaviors/atronachfrostbehavior.bin"@);
    reveal_strlit("0_master");
    assert("atronachfrostbehavior"@.len() != "0_master"@.len());
    reveal_strlit("1hm_behavior");
    assert("atronachfrostbehavior"@.len() != "1hm_behavior"@.len());
    reveal_strlit("1hm_locomotion");
    assert("atronachfrostbehavior"@.len() != "1hm_locomotion"@.len());
    reveal_strlit("atronachflamebehavior");
    assert("atronachfrostbehavior"@[9] != "atronachflamebehavior"@[9]);
}

proof fn lemma_master_template_of_atronachstorm()
    ensures
        template_of("atronachstormbehavior"@, false) == Some(spec_meshes_key("actors/atronachstorm"@, "behaviors/atronachstormbehavior.bin"@)),
{
    reveal_strlit("meshes/");
    reveal_strlit("/");
    reveal_strlit("meshes/actors/atronachstorm/behaviors/atronachstormbehavior.bin");
    reveal_strlit("actors/atronachstorm");
    reveal_strlit("behaviors/atronachstormbehavior.bin");
    reveal_strlit("atronachstormbehavior");
    assert(spec_meshes_key("actors/atronachstorm"@, "behaviors/atronachstormbehavior.bin"@) =~= "meshes/actors/atronachstorm/behaviors/atronachstormbehavior.bin"@);
    reveal_strlit("0_master");
    assert("atronachstormbehavior"@.len() != "0_master"@.len());
    reveal_strlit("1hm_behavior");
    assert("atronachstormbehavior"@.len() != "1hm_behavior"@.len());
    reveal_strlit("1hm_locomotion");
    assert("atronachstormbehavior"@.len() != "1hm_locomotion"@.len());
    reveal_strlit("atronachflamebehavior");
    assert("atronachstormbehavior"@[8] != "atronachflamebehavior"@[8]);
    reveal_strlit("atronachfrostbehavior");
    assert("atronachstormbehavior"@[8] != "atronachfrostbehavior"@[8]);
}

proof fn lemma_master_template_of_bear()
    ensures
        template_of("bearbehavior"@, false) == Some(spec_meshes_key("actors/bear"@, "behaviors/bearbehavior.bin"@)),
{
    reveal_strlit("meshes/");
    reveal_strlit("/");
    reveal_strlit("meshes/actors/bear/behaviors/bearbehavior.bin");
    reveal_strlit("actors/bear");
    reveal_strlit("behaviors/bearbehavior.bin");
    reveal_strlit("bearbehavior");
    assert(spec_meshes_key("actors/bear"@, "behaviors/bearbehavior.bin"@) =~= "meshes/actors/bear/behaviors/bearbehavior.bin"@);
    reveal_strlit("0_master");
    assert("bearbehavior"@.len() != "0_master"@.len());
    reveal_strlit("1hm_behavior");
    assert("bearbehavior"@[0] != "1hm_behavior"@[0]);
    reveal_strlit("1hm_locomotion");
    assert("bearbehavior"@.len() != "1hm_locomotion"@.len());
    reveal_strlit("atronachflamebehavior");
    assert("bearbehavior"@.len() != "atronachflamebehavior"@.len());
    reveal_strlit("atronachfrostbehavior");
    assert("bearbehavior"@.len() != "atronachfrostbehavior"@.len());
    reveal_strlit("atronachstormbehavior");
    assert("bearbehavior"@.len() != "atronachstormbehavior"@.len());
    reveal_strlit("bashbehavior");
    assert("bearbehavior"@[1] != "bashbehavior"@[1]);
    reveal_strlit("bcbehavior");
    assert("bearbehavior"@.len() != "bcbehavior"@.len());
}

proof fn lemma_master_template_of_benthiclurker()
    ensures
        template_of("benthiclurkerbehavior"@, false) == Some(spec_meshes_key("actors/dlc02/benthiclurker"@, "behaviors/benthiclurkerbehavior.bin"@)),
{
    reveal_strlit("meshes/");
    reveal_strlit("/");
    reveal_strlit("meshes/actors/dlc02/benthiclurker/behaviors/benthiclurkerbehavior.bin");
    reveal_strlit("actors/dlc02/benthiclurker");
    reveal_strlit("behaviors/benthiclurkerbehavior.bin");
    reveal_strlit("benthiclurkerbehavior");
    assert(spec_meshes_key("actors/dlc02/benthiclurker"@, "behaviors/benthiclurkerbehavior.bin"@) =~= "meshes/actors/dlc02/benthiclurker/behaviors/benthiclurkerbehavior.bin"@);
    reveal_strlit("0_master");
    assert("benthiclurkerbehavior"@.len() != "0_master"@.len());
    reveal_strlit("1hm_behavior");
    assert("benthiclurkerbehavior"@.len() != "1hm_behavior"@.len());
    reveal_strlit("1hm_locomotion");
    assert("benthiclurkerbehavior"@.len() != "1hm_locomotion"@.len());
    reveal_strlit("atronachflamebehavior");
    assert("benthiclurkerbehavior"@[0] != "atronachflamebehavior"@[0]);
    reveal_strlit("atronachfrostbehavior");
    assert("benthiclurkerbehavior"@[0] != "atronachfrostbehavior"@[0]);
    reveal_strlit("atronachstormbehavior");
    assert("benthiclurkerbehavior"@[0] != "atronachstormbehavior"@[0]);
    reveal_strlit("bashbehavior");
    assert("benthiclurkerbehavior"@.len() != "bashbehavior"@.len());
    reveal_strlit("bcbehavior");
    assert("benthiclurkerbehavior"@.len() != "bcbehavior"@.len());
    reveal_strlit("bearbehavior");
    assert("benthiclurkerbehavior"@.len() != "bearbehavior"@.len());
}

proof fn lemma_master_template_of_boarriekling()
    ensures
        template_of("boarbehavior"@, false) == Some(spec_meshes_key("actors/dlc02/boarriekling"@, "behaviors/boarbehavior.bin"@)),
{
    reveal_strlit("meshes/");
    reveal_strlit("/");
    reveal_strlit("meshes/actors/dlc02/boarriekling/behaviors/boarbehavior.bin");
    reveal_strlit("actors/dlc02/boarriekling");
    reveal_strlit("behaviors/boarbehavior.bin");
    reveal_strlit("boarbehavior");
    assert(spec_meshes_key("actors/dlc02/boarriekling"@, "behaviors/boarbehavior.bin"@) =~= "meshes/actors/dlc02/boarriekling/behaviors/boarbehavior.bin"@);
    reveal_strlit("0_master");
    assert("boarbehavior"@.len() != "0_master"@.len());
    reveal_strlit("1hm_behavior");
    assert("boarbehavior"@[0] != "1hm_behavior"@[0]);
    reveal_strlit("1hm_locomotion");
    assert("boarbehavior"@.len() != "1hm_locomotion"@.len());
    reveal_strlit("atronachflamebehavior");
    assert("boarbehavior"@.len() != "atronachflamebehavior"@.len());
    reveal_strlit("atronachfrostbehavior");
    assert("boarbehavior"@.len() != "atronachfrostbehavior"@.len());
    reveal_strlit("atronachstormbehavior");
    assert("boarbehavior"@.len() != "atronachstormbehavior"@.len());
    reveal_strlit("bashbehavior");
    assert("boarbehavior"@[1] != "bashbehavior"@[1]);
    reveal_strlit("bcbehavior");
    assert("boarbehavior"@.len() != "bcbehavior"@.len());
    reveal_strlit("bearbehavior");
    assert("boarbehavior"@[1] != "bearbehavior"@[1]);
    reveal_strlit("benthiclurkerbehavior");
    assert("boarbehavior"@.len() != "benthiclurkerbehavior"@.len());
    reveal_strlit("blockbehavior");
    assert("boarbehavior"@.len() != "blockbehavior"@.len());
}

proof fn lemma_master_template_of_chaurus()
    ensures
        template_of("chaurusbehavior"@, false) == Some(spec_meshes_key("actors/chaurus"@, "behaviors/chaurusbehavior.bin"@)),
{
    reveal_strlit("meshes/");
    reveal_strlit("/");
    reveal_strlit("meshes/actors/chaurus/behaviors/chaurusbehavior.bin");
    reveal_strlit("actors/chaurus");
    reveal_strlit("behaviors/chaurusbehavior.bin");
    reveal_strlit("chaurusbehavior");
    assert(spec_meshes_key("actors/chaurus"@, "behaviors/chaurusbehavior.bin"@) =~= "meshes/actors/chaurus/behaviors/chaurusbehavior.bin"@);
    reveal_strlit("0_master");
    assert("chaurusbehavior"@.len() != "0_master"@.len());
    reveal_strlit("1hm_behavior");
    assert("chaurusbehavior"@.len() != "1hm_behavior"@.len());
    reveal_strlit("1hm_locomotion");
    assert("chaurusbehavior"@.len() != "1hm_locomotion"@.len());
    reveal_strlit("atronachflamebehavior");
    assert("chaurusbehavior"@.len() != "atronachflamebehavior"@.len());
    reveal_strlit("atronachfrostbehavior");
    assert("chaurusbehavior"@.len() != "atronachfrostbehavior"@.len());
    reveal_strlit("atronachstormbehavior");
    assert("chaurusbehavior"@.len() != "atronachstormbehavior"@.len());
    reveal_strlit("bashbehavior");
    assert("chaurusbehavior"@.len() != "bashbehavior"@.len());
    reveal_strlit("bcbehavior");
    assert("chaurusbehavior"@.len() != "bcbehavior"@.len());
    reveal_strlit("bearbehavior");
    assert("chaurusbehavior"@.len() != "bearbehavior"@.len());
    reveal_strlit("benthiclurkerbehavior");
    assert("chaurusbehavior"@.len() != "benthiclurkerbehavior"@.len());
    reveal_strlit("blockbehavior");
    assert("chaurusbehavior"@.len() != "blockbehavior"@.len());
    reveal_strlit("boarbehavior");
    assert("chaurusbehavior"@.len() != "boarbehavior"@.len());
    reveal_strlit("bow_direction_behavior");
    assert("chaurusbehavior"@.len() != "bow_direction_behavior"@.len());
}

proof fn lemma_master_template_of_chaurusflyer()
    ensures
        template_of("chaurusflyerbehavior"@, false) == Some(spec_meshes_key("actors/dlc01/chaurusflyer"@, "behaviors/chaurusflyerbehavior.bin"@)),
{
    reveal_strlit("meshes/");
    reveal_strlit("/");
    reveal_strlit("meshes/actors/dlc01/chaurusflyer/behaviors/chaurusflyerbehavior.bin");
    reveal_strlit("actors/dlc01/chaurusflyer");
    reveal_strlit("behaviors/chaurusflyerbehavior.bin");
    reveal_strlit("chaurusflyerbehavior");
    assert(spec_meshes_key("actors/dlc01/chaurusflyer"@, "behaviors/chaurusflyerbehavior.bin"@) =~= "meshes/actors/dlc01/chaurusflyer/behaviors/chaurusflyerbehavior.bin"@);
    reveal_strlit("0_master");
    assert("chaurusflyerbehavior"@.len() != "0_master"@.len());
    reveal_strlit("1hm_behavior");
    assert("chaurusflyerbehavior"@.len() != "1hm_behavior"@.len());
    reveal_strlit("1hm_locomotion");
    assert("chaurusflyerbehavior"@.len() != "1hm_locomotion"@.len());
    reveal_strlit("atronachflamebehavior");
    assert("chaurusflyerbehavior"@.len() != "atronachflamebehavior"@.len());
    reveal_strlit("atronachfrostbehavior");
    assert("chaurusflyerbehavior"@.len() != "atronachfrostbehavior"@.len());
    reveal_strlit("atronachstormbehavior");
    assert("chaurusflyerbehavior"@.len() != "atronachstormbehavior"@.len());
    reveal_strlit("bashbehavior");
    assert("chaurusflyerbehavior"@.len() != "bashbehavior"@.len());
    reveal_strlit("bcbehavior");
    assert("chaurusflyerbehavior"@.len() != "bcbehavior"@.len());
    reveal_strlit("bearbehavior");
    assert("chaurusflyerbehavior"@.len() != "bearbehavior"@.len());
    reveal_strlit("benthiclurkerbehavior");
    assert("chaurusflyerbehavior"@.len() != "benthiclurkerbehavior"@.len());
    reveal_strlit("blockbehavior");
    assert("chaurusflyerbehavior"@.len() != "blockbehavior"@.len());
    reveal_strlit("boarbehavior");
    assert("chaurusflyerbehavior"@.len() != "boarbehavior"@.len());
    reveal_strlit("bow_direction_behavior");
    assert("chaurusflyerbehavior"@.len() != "bow_direction_behavior"@.len());
    reveal_strlit("chaurusbehavior");
    assert("chaurusflyerbehavior"@.len() != "chaurusbehavior"@.len());
}

proof fn lemma_master_template_of_chicken()
    ensures
        template_of("chickenbehavior"@, false) == Some(spec_meshes_key("actors/ambient/chicken"@, "behaviors/chickenbehavior.bin"@)),
{
    reveal_strlit("meshes/");
    reveal_strlit("/");
    reveal_strlit("meshes/actors/ambient/chicken/behaviors/chickenbehavior.bin");
    reveal_strlit("actors/ambient/chicken");
    reveal_strlit("behaviors/chickenbehavior.bin");
    reveal_strlit("chickenbehavior");
    assert(spec_meshes_key("actors/ambient/chicken"@, "behaviors/chickenbehavior.bin"@) =~= "meshes/actors/ambient/chicken/behaviors/chickenbehavior.bin"@);
    reveal_strlit("0_master");
    assert("chickenbehavior"@.len() != "0_master"@.len());
    reveal_strlit("1hm_behavior");
    assert("chickenbehavior"@.len() != "1hm_behavior"@.len());
    reveal_strlit("1hm_locomotion");
    assert("chickenbehavior"@.len() != "1hm_locomotion"@.len());
    reveal_strlit("atronachflamebehavior");
    assert("chickenbehavior"@.len() != "atronachflamebehavior"@.len());
    reveal_strlit("atronachfrostbehavior");
    assert("chickenbehavior"@.len() != "atronachfrostbehavior"@.len());
    reveal_strlit("atronachstormbehavior");
    assert("chickenbehavior"@.len() != "atronachstormbehavior"@.len());
    reveal_strlit("bashbehavior");
    assert("chickenbehavior"@.len() != "bashbehavior"@.len());
    reveal_strlit("bcbehavior");
    assert("chickenbehavior"@.len() != "bcbehavior"@.len());
    reveal_strlit("bearbehavior");
    assert("chickenbehavior"@.len() != "bearbehavior"@.len());
    reveal_strlit("benthiclurkerbehavior");
    assert("chickenbehavior"@.len() != "benthiclurkerbehavior"@.len());
    reveal_strlit("blockbehavior");
    assert("chickenbehavior"@.len() != "blockbehavior"@.len());
    reveal_strlit("boarbehavior");
    assert("chickenbehavior"@.len() != "boarbehavior"@.len());
    reveal_strlit("bow_direction_behavior");
    assert("chickenbehavior"@.len() != "bow_direction_behavior"@.len());
    reveal_strlit("chaurusbehavior");
    assert("chickenbehavior"@[2] != "chaurusbehavior"@[2]);
    reveal_strlit("chaurusflyerbehavior");
    assert("chickenbehavior"@.len() != "chaurusflyerbehavior"@.len());
}

proof fn lemma_master_template_of_cow()
    ensures
        template_of("h-cowbehavior"@, false) == Some(spec_meshes_key("actors/cow"@, "behaviors/h-cowbehavior.bin"@)),
{
    reveal_strlit("meshes/");
    reveal_strlit("/");
    reveal_strlit("meshes/actors/cow/behaviors/h-cowbehavior.bin");
    reveal_strlit("actors/cow");
    reveal_strlit("behaviors/h-cowbehavior.bin");
    reveal_strlit("h-cowbehavior");
    assert(spec_meshes_key("actors/cow"@, "behaviors/h-cowbehavior.bin"@) =~= "meshes/actors/cow/behaviors/h-cowbehavior.bin"@);
    reveal_strlit("0_master");
    assert("h-cowbehavior"@.len() != "0_master"@.len());
    reveal_strlit("1hm_behavior");
    assert("h-cowbehavior"@.len() != "1hm_behavior"@.len());
    reveal_strlit("1hm_locomotion");
    assert("h-cowbehavior"@.len() != "1hm_locomotion"@.len());
    reveal_strlit("atronachflamebehavior");
    assert("h-cowbehavior"@.len() != "atronachflamebehavior"@.len());
    reveal_strlit("atronachfrostbehavior");
    assert("h-cowbehavior"@.len() != "atronachfrostbehavior"@.len());
    reveal_strlit("atronachstormbehavior");
    assert("h-cowbehavior"@.len() != "atronachstormbehavior"@.len());
    reveal_strlit("bashbehavior");
    assert("h-cowbehavior"@.len() != "bashbehavior"@.len());
    reveal_strlit("bcbehavior");
    assert("h-cowbehavior"@.len() != "bcbehavior"@.len());
    reveal_strlit("bearbehavior");
    assert("h-cowbehavior"@.len() != "bearbehavior"@.len());
    reveal_strlit("benthiclurkerbehavior");
    assert("h-cowbehavior"@.len() != "benthiclurkerbehavior"@.len());
    reveal_strlit("blockbehavior");
    assert("h-cowbehavior"@[0] != "blockbehavior"@[0]);
    reveal_strlit("boarbehavior");
    assert("h-cowbehavior"@.len() != "boarbehavior"@.len());
    reveal_strlit("bow_direction_behavior");
    assert("h-cowbehavior"@.len() != "bow_direction_behavior"@.len());
    reveal_strlit("chaurusbehavior");
    assert("h-cowbehavior"@.len() != "chaurusbehavior"@.len());
    reveal_strlit("chaurusflyerbehavior");
    assert("h-cowbehavior"@.len() != "chaurusflyerbehavior"@.len());
    reveal_strlit("chickenbehavior");
    assert("h-cowbehavior"@.len() != "chickenbehavior"@.len());
    reveal_strlit("crossbow_direction_behavior");
    assert("h-cowbehavior"@.len() != "crossbow_direction_behavior"@.len());
    reveal_strlit("deerbehavior");
    assert("h-cowbehavior"@.len() != "deerbehavior"@.len());
    reveal_strlit("defaultfemale");
    assert("h-cowbehavior"@[0] != "defaultfemale"@[0]);
    reveal_strlit("defaultmale");
    assert("h-cowbehavior"@.len() != "defaultmale"@.len());
    reveal_strlit("dogbehavior");
    assert("h-cowbehavior"@.len() != "dogbehavior"@.len());
    reveal_strlit("dragon_priest");
    assert("h-cowbehavior"@[0] != "dragon_priest"@[0]);
    reveal_strlit("dragonbehavior");
    assert("h-cowbehavior"@.len() != "dragonbehavior"@.len());
    reveal_strlit("draugr");
    assert("h-cowbehavior"@.len() != "draugr"@.len());
    reveal_strlit("draugr_skeleton");
    assert("h-cowbehavior"@.len() != "draugr_skeleton"@.len());
    reveal_strlit("draugrbehavior");
    assert("h-cowbehavior"@.len() != "draugrbehavior"@.len());
    reveal_strlit("dwarvenspiderbehavior");
    assert("h-cowbehavior"@.len() != "dwarvenspiderbehavior"@.len());
    reveal_strlit("falmerbehavior");
    assert("h-cowbehavior"@.len() != "falmerbehavior"@.len());
    reveal_strlit("frostbitespiderbehavior");
    assert("h-cowbehavior"@.len() != "frostbitespiderbehavior"@.len());
    reveal_strlit("giantbehavior");
    assert("h-cowbehavior"@[0] != "giantbehavior"@[0]);
    reveal_strlit("goatbehavior");
    assert("h-cowbehavior"@.len() != "goatbehavior"@.len());
}

proof fn lemma_master_template_of_deer()
    ensures
        template_of("deerbehavior"@, false) == Some(spec_meshes_key("actors/deer"@, "behaviors/deerbehavior.bin"@)),
{
    reveal_strlit("meshes/");
    reveal_strlit("/");
    reveal_strlit("meshes/actors/deer/behaviors/deerbehavior.bin");
    reveal_strlit("actors/deer");
    reveal_strlit("behaviors/deerbehavior.bin");
    reveal_strlit("deerbehavior");
    assert(spec_meshes_key("actors/deer"@, "behaviors/deerbehavior.bin"@) =~= "meshes/actors/deer/behaviors/deerbehavior.bin"@);
    reveal_strlit("0_master");
    assert("deerbehavior"@.len() != "0_master"@.len());
    reveal_strlit("1hm_behavior");
    assert("deerbehavior"@[0] != "1hm_behavior"@[0]);
    reveal_strlit("1hm_locomotion");
    assert("deerbehavior"@.len() != "1hm_locomotion"@.len());
    reveal_strlit("atronachflamebehavior");
    assert("deerbehavior"@.len() != "atronachflamebehavior"@.len());
    reveal_strlit("atronachfrostbehavior");
    assert("deerbehavior"@.len() != "atronachfrostbehavior"@.len());
    reveal_strlit("atronachstormbehavior");
    assert("deerbehavior"@.len() != "atronachstormbehavior"@.len());
    reveal_strlit("bashbehavior");
    assert("deerbehavior"@[0] != "bashbehavior"@[0]);
    reveal_strlit("bcbehavior");
    assert("deerbehavior"@.len() != "bcbehavior"@.len());
    reveal_strlit("bearbehavior");
    assert("deerbehavior"@[0] != "bearbehavior"@[0]);
    reveal_strlit("benthiclurkerbehavior");
    assert("deerbehavior"@.len() != "benthiclurkerbehavior"@.len());
    reveal_strlit("blockbehavior");
    assert("deerbehavior"@.len() != "blockbehavior"@.len());
    reveal_strlit("boarbehavior");
    assert("deerbehavior"@[0] != "boarbehavior"@[0]);
    reveal_strlit("bow_direction_behavior");
    assert("deerbehavior"@.len() != "bow_direction_behavior"@.len());
    reveal_strlit("chaurusbehavior");
    assert("deerbehavior"@.len() != "chaurusbehavior"@.len());
    reveal_strlit("chaurusflyerbehavior");
    assert("deerbehavior"@.len() != "chaurusflyerbehavior"@.len());
    reveal_strlit("chickenbehavior");
    assert("deerbehavior"@.len() != "chickenbehavior"@.len());
    reveal_strlit("crossbow_direction_behavior");
    assert("deerbehavior"@.len() != "crossbow_direction_behavior"@.len());
}

proof fn lemma_master_template_of_dog()
    ensures
        template_of("dogbehavior"@, false) == Some(spec_meshes_key("actors/canine"@, "behaviors/dogbehavior.bin"@)),
{
    reveal_strlit("meshes/");
    reveal_strlit("/");
    reveal_strlit("meshes/actors/canine/behaviors/dogbehavior.bin");
    reveal_strlit("actors/canine");
    reveal_strlit("behaviors/dogbehavior.bin");
    reveal_strlit("dogbehavior");
    assert(spec_meshes_key("actors/canine"@, "behaviors/dogbehavior.bin"@) =~= "meshes/actors/canine/behaviors/dogbehavior.bin"@);
    reveal_strlit("0_master");
    assert("dogbehavior"@.len() != "0_master"@.len());
    reveal_strlit("1hm_behavior");
    assert("dogbehavior"@.len() != "1hm_behavior"@.len());
    reveal_strlit("1hm_locomotion");
    assert("dogbehavior"@.len() != "1hm_locomotion"@.len());
    reveal_strlit("atronachflamebehavior");
    assert("dogbehavior"@.len() != "atronachflamebehavior"@.len());
    reveal_strlit("atronachfrostbehavior");
    assert("dogbehavior"@.len() != "atronachfrostbehavior"@.len());
    reveal_strlit("atronachstormbehavior");
    assert("dogbehavior"@.len() != "atronachstormbehavior"@.len());
    reveal_strlit("bashbehavior");
    assert("dogbehavior"@.len() != "bashbehavior"@.len());
    reveal_strlit("bcbehavior");
    assert("dogbehavior"@.len() != "bcbehavior"@.len());
    reveal_strlit("bearbehavior");
    assert("dogbehavior"@.len() != "bearbehavior"@.len());
    reveal_strlit("benthiclurkerbehavior");
    assert("dogbehavior"@.len() != "benthiclurkerbehavior"@.len());
    reveal_strlit("blockbehavior");
    assert("dogbehavior"@.len() != "blockbehavior"@.len());
    reveal_strlit("boarbehavior");
    assert("dogbehavior"@.len() != "boarbehavior"@.len());
    reveal_strlit("bow_direction_behavior");
    assert("dogbehavior"@.len() != "bow_direction_behavior"@.len());
    reveal_strlit("chaurusbehavior");
    assert("dogbehavior"@.len() != "chaurusbehavior"@.len());
    reveal_strlit("chaurusflyerbehavior");
    assert("dogbehavior"@.len() != "chaurusflyerbehavior"@.len());
    reveal_strlit("chickenbehavior");
    assert("dogbehavior"@.len() != "chickenbehavior"@.len());
    reveal_strlit("crossbow_direction_behavior");
    assert("dogbehavior"@.len() != "crossbow_direction_behavior"@.len());
    reveal_strlit("deerbehavior");
    assert("dogbehavior"@.len() != "deerbehavior"@.len());
    reveal_strlit("defaultfemale");
    assert("dogbehavior"@.len() != "defaultfemale"@.len());
    reveal_strlit("defaultmale");
    assert("dogbehavior"@[1] != "defaultmale"@[1]);
}

proof fn lemma_master_template_of_dragon()
    ensures
        template_of("dragonbehavior"@, false) == Some(spec_meshes_key("actors/dragon"@, "behaviors/dragonbehavior.bin"@)),
{
    reveal_strlit("meshes/");
    reveal_strlit("/");
    reveal_strlit("meshes/actors/dragon/behaviors/dragonbehavior.bin");
    reveal_strlit("actors/dragon");
    reveal_strlit("behaviors/dragonbehavior.bin");
    reveal_strlit("dragonbehavior");
    assert(spec_meshes_key("actors/dragon"@, "behaviors/dragonbehavior.bin"@) =~= "meshes/actors/dragon/behaviors/dragonbehavior.bin"@);
    reveal_strlit("0_master");
    assert("dragonbehavior"@.len() != "0_master"@.len());
    reveal_strlit("1hm_behavior");
    assert("dragonbehavior"@.len() != "1hm_behavior"@.len());
    reveal_strlit("1hm_locomotion");
    assert("dragonbehavior"@[0] != "1hm_locomotion"@[0]);
    reveal_strlit("atronachflamebehavior");
    assert("dragonbehavior"@.len() != "atronachflamebehavior"@.len());
    reveal_strlit("atronachfrostbehavior");
    assert("dragonbehavior"@.len() != "atronachfrostbehavior"@.len());
    reveal_strlit("atronachstormbehavior");
    assert("dragonbehavior"@.len() != "atronachstormbehavior"@.len());
    reveal_strlit("bashbehavior");
    assert("dragonbehavior"@.len() != "bashbehavior"@.len());
    reveal_strlit("bcbehavior");
    assert("dragonbehavior"@.len() != "bcbehavior"@.len());
    reveal_strlit("bearbehavior");
    assert("dragonbehavior"@.len() != "bearbehavior"@.len());
    reveal_strlit("benthiclurkerbehavior");
    assert("dragonbehavior"@.len() != "benthiclurkerbehavior"@.len());
    reveal_strlit("blockbehavior");
    assert("dragonbehavior"@.len() != "blockbehavior"@.len());
    reveal_strlit("boarbehavior");
    assert("dragonbehavior"@.len() != "boarbehavior"@.len());
    reveal_strlit("bow_direction_behavior");
    assert("dragonbehavior"@.len() != "bow_direction_behavior"@.len());
    reveal_strlit("chaurusbehavior");
    assert("dragonbehavior"@.len() != "chaurusbehavior"@.len());
    reveal_strlit("chaurusflyerbehavior");
    assert("dragonbehavior"@.len() != "chaurusflyerbehavior"@.len());
    reveal_strlit("chickenbehavior");
    assert("dragonbehavior"@.len() != "chickenbehavior"@.len());
    reveal_strlit("crossbow_direction_behavior");
    assert("dragonbehavior"@.len() != "crossbow_direction_behavior"@.len());
    reveal_strlit("deerbehavior");
    assert("dragonbehavior"@.len() != "deerbehavior"@.len());
    reveal_strlit("defaultfemale");
    assert("dragonbehavior"@.len() != "defaultfemale"@.len());
    reveal_strlit("defaultmale");
    assert("dragonbehavior"@.len() != "defaultmale"@.len());
    reveal_strlit("dogbehavior");
    assert("dragonbehavior"@.len() != "dogbehavior"@.len());
    reveal_strlit("dragon_priest");
    assert("dragonbehavior"@.len() != "dragon_priest"@.len());
}

proof fn lemma_master_template_of_dragonpriest()
    ensures
        template_of("dragon_priest"@, false) == Some(spec_meshes_key("actors/dragonpriest"@, "behaviors/dragon_priest.bin"@)),
{
    reveal_strlit("meshes/");
    reveal_strlit("/");
    reveal_strlit("meshes/actors/dragonpriest/behaviors/dragon_priest.bin");
    reveal_strlit("actors/dragonpriest");
    reveal_strlit("behaviors/dragon_priest.bin");
    reveal_strlit("dragon_priest");
    assert(spec_meshes_key("actors/dragonpriest"@, "behaviors/dragon_priest.bin"@) =~= "meshes/actors/dragonpriest/behaviors/dragon_priest.bin"@);
    reveal_strlit("0_master");
    assert("dragon_priest"@.len() != "0_master"@.len());
    reveal_strlit("1hm_behavior");
    assert("dragon_priest"@.len() != "1hm_behavior"@.len());
    reveal_strlit("1hm_locomotion");
    assert("dragon_priest"@.len() != "1hm_locomotion"@.len());
    reveal_strlit("atronachflamebehavior");
    assert("dragon_priest"@.len() != "atronachflamebehavior"@.len());
    reveal_strlit("atronachfrostbehavior");
    assert("dragon_priest"@.len() != "atronachfrostbehavior"@.len());
    reveal_strlit("atronachstormbehavior");
    assert("dragon_priest"@.len() != "atronachstormbehavior"@.len());
    reveal_strlit("bashbehavior");
    assert("dragon_priest"@.len() != "bashbehavior"@.len());
    reveal_strlit("bcbehavior");
    assert("dragon_priest"@.len() != "bcbehavior"@.len());
    reveal_strlit("bearbehavior");
    assert("dragon_priest"@.len() != "bearbehavior"@.len());
    reveal_strlit("benthiclurkerbehavior");
    assert("dragon_priest"@.len() != "benthiclurkerbehavior"@.len());
    reveal_strlit("blockbehavior");
    assert("dragon_priest"@[0] != "blockbehavior"@[0]);
    reveal_strlit("boarbehavior");
    assert("dragon_priest"@.len() != "boarbehavior"@.len());
    reveal_strlit("bow_direction_behavior");
    assert("dragon_priest"@.len() != "bow_direction_behavior"@.len());
    reveal_strlit("chaurusbehavior");
    assert("dragon_priest"@.len() != "chaurusbehavior"@.len());
    reveal_strlit("chaurusflyerbehavior");
    assert("dragon_priest"@.len() != "chaurusflyerbehavior"@.len());
    reveal_strlit("chickenbehavior");
    assert("dragon_priest"@.len() != "chickenbehavior"@.len());
    reveal_strlit("crossbow_direction_behavior");
    assert("dragon_priest"@.len() != "crossbow_direction_behavior"@.len());
    reveal_strlit("deerbehavior");
    assert("dragon_priest"@.len() != "deerbehavior"@.len());
    reveal_strlit("defaultfemale");
    assert("dragon_priest"@[1] != "defaultfemale"@[1]);
    reveal_strlit("defaultmale");
    assert("dragon_priest"@.len() != "defaultmale"@.len());
    reveal_strlit("dogbehavior");
    assert("dragon_priest"@.len() != "dogbehavior"@.len());
}

proof fn lemma_master_template_of_draugr()
    ensures
        template_of("draugrbehavior"@, false) == Some(spec_meshes_key("actors/draugr"@, "behaviors/draugrbehavior.bin"@)),
{
    reveal_strlit("meshes/");
    reveal_strlit("/");
    reveal_strlit("meshes/actors/draugr/behaviors/draugrbehavior.bin");
    reveal_strlit("actors/draugr");
    reveal_strlit("behaviors/draugrbehavior.bin");
    reveal_strlit("draugrbehavior");
    assert(spec_meshes_key("actors/draugr"@, "behaviors/draugrbehavior.bin"@) =~= "meshes/actors/draugr/behaviors/draugrbehavior.bin"@);
    reveal_strlit("0_master");
    assert("draugrbehavior"@.len() != "0_master"@.len());
    reveal_strlit("1hm_behavior");
    assert("draugrbehavior"@.len() != "1hm_behavior"@.len());
    reveal_strlit("1hm_locomotion");
    assert("draugrbehavior"@[0] != "1hm_locomotion"@[0]);
    reveal_strlit("atronachflamebehavior");
    assert("draugrbehavior"@.len() != "atronachflamebehavior"@.len());
    reveal_strlit("atronachfrostbehavior");
    assert("draugrbehavior"@.len() != "atronachfrostbehavior"@.len());
    reveal_strlit("atronachstormbehavior");
    assert("draugrbehavior"@.len() != "atronachstormbehavior"@.len());
    reveal_strlit("bashbehavior");
    assert("draugrbehavior"@.len() != "bashbehavior"@.len());
    reveal_strlit("bcbehavior");
    assert("draugrbehavior"@.len() != "bcbehavior"@.len());
    reveal_strlit("bearbehavior");
    assert("draugrbehavior"@.len() != "bearbehavior"@.len());
    reveal_strlit("benthiclurkerbehavior");
    assert("draugrbehavior"@.len() != "benthiclurkerbehavior"@.len());
    reveal_strlit("blockbehavior");
    assert("draugrbehavior"@.len() != "blockbehavior"@.len());
    reveal_strlit("boarbehavior");
    assert("draugrbehavior"@.len() != "boarbehavior"@.len());
    reveal_strlit("bow_direction_behavior");
    assert("draugrbehavior"@.len() != "bow_direction_behavior"@.len());
    reveal_strlit("chaurusbehavior");
    assert("draugrbehavior"@.len() != "chaurusbehavior"@.len());
    reveal_strlit("chaurusflyerbehavior");
    assert("draugrbehavior"@.len() != "chaurusflyerbehavior"@.len());
    reveal_strlit("chickenbehavior");
    assert("draugrbehavior"@.len() != "chickenbehavior"@.len());
    reveal_strlit("crossbow_direction_behavior");
    assert("draugrbehavior"@.len() != "crossbow_direction_behavior"@.len());
    reveal_strlit("deerbehavior");
    assert("draugrbehavior"@.len() != "deerbehavior"@.len());
    reveal_strlit("defaultfemale");
    assert("draugrbehavior"@.len() != "defaultfemale"@.len());
    reveal_strlit("defaultmale");
    assert("draugrbehavior"@.len() != "defaultmale"@.len());
    reveal_strlit("dogbehavior");
    assert("draugrbehavior"@.len() != "dogbehavior"@.len());
    reveal_strlit("dragon_priest");
    assert("draugrbehavior"@.len() != "dragon_priest"@.len());
    reveal_strlit("dragonbehavior");
    assert("draugrbehavior"@[3] != "dragonbehavior"@[3]);
    reveal_strlit("draugr");
    assert("draugrbehavior"@.len() != "draugr"@.len());
    reveal_strlit("draugr_skeleton");
    assert("draugrbehavior"@.len() != "draugr_skeleton"@.len());
}

} // verus!
