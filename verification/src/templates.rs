//! Template keys: the `meshes/...` paths of the hkx templates that patches target,
//! and the tables that map Nemesis file stems to them.
use vstd::prelude::*;

use crate::json_path::{json_path_from_key, json_path_to_key, spec_join, spec_split};
use crate::text::{caseless_at, caseless_at_exec, chars_of, str_eq};

verus! {

/// Name of the template that needs to be read.
///
/// - UTF-8 path
/// - starts with `meshes` (in any ASCII case)
/// - e.g. `meshes/actors/character/_1stperson/behaviors/0_master.bin`
#[derive(Debug, Clone, PartialEq, Eq, Hash)]
pub struct TemplateKey {
    template_name: String,
}

impl View for TemplateKey {
    type V = Seq<char>;

    closed spec fn view(&self) -> Seq<char> {
        self.template_name@
    }
}

/// The text of a template key begins with `meshes`, in any ASCII case.
pub open spec fn starts_with_meshes(name: Seq<char>) -> bool {
    caseless_at(name, 0, "meshes"@)
}

/// The components of a `/`-separated path that a path comparison sees: all but the empty
/// ones (from repeated or trailing `/`) and `.`.
pub open spec fn kept_components(parts: Seq<Seq<char>>) -> Seq<Seq<char>>
    decreases parts.len(),
{
    if parts.len() == 0 {
        Seq::empty()
    } else {
        let before = kept_components(parts.drop_last());
        let c = parts.last();
        if c.len() == 0 || c == seq!['.'] {
            before
        } else {
            before.push(c)
        }
    }
}

/// The text of the key of a template path: its components, as a path comparison sees
/// them, joined by `/`. Two paths that compare equal as `/`-separated paths give one text,
/// e.g. `meshes//a/./b.bin` and `meshes/a/b.bin`.
pub open spec fn spec_key_text(name: Seq<char>) -> Seq<char> {
    spec_join(kept_components(spec_split(name)))
}

/// The key text of `name`.
fn normalize_key(name: &str) -> (r: String)
    ensures
        r@ == spec_key_text(name@),
{
    let parts = json_path_from_key(name);
    let ghost all = parts.deep_view();
    let mut kept: Vec<String> = Vec::new();
    let mut i: usize = 0;
    while i < parts.len()
        invariant
            all == parts.deep_view(),
            all == spec_split(name@),
            i <= parts@.len(),
            kept.deep_view() == kept_components(all.take(i as int)),
        decreases parts@.len() - i,
    {
        proof {
            reveal_strlit("");
            reveal_strlit(".");
            assert(all.take(i + 1).drop_last() =~= all.take(i as int));
            assert(all.take(i + 1).last() == parts@[i as int]@);
        }
        let part = parts[i].as_str();
        if !(str_eq(part, "") || str_eq(part, ".")) {
            proof {
                if part@.len() == 0 {
                    assert(part@ =~= ""@);
                }
                assert("."@ =~= seq!['.']);
            }
            let ghost before = kept.deep_view();
            kept.push(parts[i].clone());
            assert(kept.deep_view() =~= before.push(parts@[i as int]@));
        } else {
            assert(part@.len() == 0 || part@ =~= seq!['.']);
            assert(kept_components(all.take(i + 1)) == kept_components(all.take(i as int)));
        }
        i = i + 1;
    }
    assert(all.take(parts@.len() as int) =~= all);
    json_path_to_key(&kept)
}

impl TemplateKey {
    /// A template key from a path that starts with `meshes`, holding the path as given;
    /// `None` for any other path.
    pub fn new(template_name: String) -> (r: Option<TemplateKey>)
        ensures
            r is Some <==> starts_with_meshes(template_name@),
            r matches Some(k) ==> k@ == template_name@,
    {
        let chars = chars_of(template_name.as_str());
        if caseless_at_exec(&chars, 0, &chars_of("meshes")) {
            Some(TemplateKey { template_name })
        } else {
            None
        }
    }

    /// The key that the patch maps file this template under: its path's components as a
    /// `/`-separated path comparison sees them ([`spec_key_text`]), so that keys whose paths
    /// compare equal share one entry.
    pub fn normalized(&self) -> (r: TemplateKey)
        ensures
            r@ == spec_key_text(self@),
    {
        TemplateKey { template_name: normalize_key(self.template_name.as_str()) }
    }

    /// From a Nemesis file stem, e.g. `0_master` -> `meshes/actors/character/behaviors/0_master.bin`.
    pub fn from_nemesis_file(template_file_stem: &str, is_1st_person: bool) -> (r: Option<
        TemplateKey,
    >)
        ensures
            match template_of(template_file_stem@, is_1st_person) {
                Some(t) => r matches Some(k) && k@ == t,
                None => r is None,
            },
    {
        let name = if is_1st_person {
            first_person_template_exec(template_file_stem)
        } else {
            third_person_template_exec(template_file_stem)
        };
        match name {
            Some(n) => Some(TemplateKey { template_name: n.to_owned() }),
            None => None,
        }
    }

    /// The key of `meshes/<base_dir>/<file>`.
    pub fn under_meshes(base_dir: &str, file: &str) -> (r: TemplateKey)
        ensures
            r@ == "meshes/"@ + base_dir@ + "/"@ + file@,
    {
        let mut name = String::from_str("meshes/");
        name.append(base_dir);
        name.append("/");
        name.append(file);
        TemplateKey { template_name: name }
    }

    /// A copy of this key.
    pub fn duplicate(&self) -> (r: TemplateKey)
        ensures
            r@ == self@,
    {
        TemplateKey { template_name: self.template_name.clone() }
    }

    /// The key as UTF-8 text.
    pub fn as_str(&self) -> (r: &str)
        ensures
            r@ == self@,
    {
        self.template_name.as_str()
    }

    /// Whether this template has event names that differ only by a leading space
    /// (` iState_NPCSneaking` and `iState_NPCSneaking`), so that duplicates must not be removed.
    ///
    /// Vanilla Skyrim is configured this way: removing the duplicates makes NPCs
    /// immobile when casting spells.
    pub fn has_duplicate_event_names(&self) -> (r: bool)
        ensures
            r == has_duplicate_event_names_spec(self@),
    {
        let s = self.as_str();
        str_eq(s, "meshes/actors/character/_1stperson/behaviors/magicbehavior.bin") || str_eq(
            s,
            "meshes/actors/character/_1stperson/behaviors/magicmountedbehavior.bin",
        ) || str_eq(s, "meshes/actors/character/behaviors/magicbehavior.bin") || str_eq(
            s,
            "meshes/actors/character/behaviors/magicmountedbehavior.bin",
        )
    }
}

/// The templates whose duplicate event names must be kept.
pub open spec fn has_duplicate_event_names_spec(name: Seq<char>) -> bool {
    ||| name == "meshes/actors/character/_1stperson/behaviors/magicbehavior.bin"@
    ||| name == "meshes/actors/character/_1stperson/behaviors/magicmountedbehavior.bin"@
    ||| name == "meshes/actors/character/behaviors/magicbehavior.bin"@
    ||| name == "meshes/actors/character/behaviors/magicmountedbehavior.bin"@
}

/// The template of a Nemesis file stem, in 1st or 3rd person.
pub open spec fn template_of(stem: Seq<char>, is_1st_person: bool) -> Option<Seq<char>> {
    if is_1st_person {
        first_person_template(stem)
    } else {
        third_person_template(stem)
    }
}

/// Every Nemesis file stem that has a master index also names a template.
pub proof fn lemma_master_index_has_template(stem: Seq<char>, is_1st_person: bool)
    ensures
        master_index_of(stem, is_1st_person) is Some ==> template_of(stem, is_1st_person) is Some,
{
}

/// Every template named by a Nemesis file stem starts with `meshes`.
pub proof fn lemma_templates_start_with_meshes(stem: Seq<char>, is_1st_person: bool)
    ensures
        template_of(stem, is_1st_person) matches Some(t) ==> starts_with_meshes(t),
{
    reveal_strlit("meshes");
    reveal_strlit("meshes/actors/ambient/chicken/behaviors/chickenbehavior.bin");
    assert("meshes/actors/ambient/chicken/behaviors/chickenbehavior.bin"@.subrange(0, 6) =~= "meshes"@);
    reveal_strlit("meshes/actors/ambient/hare/behaviors/harebehavior.bin");
    assert("meshes/actors/ambient/hare/behaviors/harebehavior.bin"@.subrange(0, 6) =~= "meshes"@);
    reveal_strlit("meshes/actors/atronachflame/behaviors/atronachflamebehavior.bin");
    assert("meshes/actors/atronachflame/behaviors/atronachflamebehavior.bin"@.subrange(0, 6) =~= "meshes"@);
    reveal_strlit("meshes/actors/atronachfrost/behaviors/atronachfrostbehavior.bin");
    assert("meshes/actors/atronachfrost/behaviors/atronachfrostbehavior.bin"@.subrange(0, 6) =~= "meshes"@);
    reveal_strlit("meshes/actors/atronachstorm/behaviors/atronachstormbehavior.bin");
    assert("meshes/actors/atronachstorm/behaviors/atronachstormbehavior.bin"@.subrange(0, 6) =~= "meshes"@);
    reveal_strlit("meshes/actors/bear/behaviors/bearbehavior.bin");
    assert("meshes/actors/bear/behaviors/bearbehavior.bin"@.subrange(0, 6) =~= "meshes"@);
    reveal_strlit("meshes/actors/canine/behaviors wolf/wolfbehavior.bin");
    assert("meshes/actors/canine/behaviors wolf/wolfbehavior.bin"@.subrange(0, 6) =~= "meshes"@);
    reveal_strlit("meshes/actors/canine/behaviors/dogbehavior.bin");
    assert("meshes/actors/canine/behaviors/dogbehavior.bin"@.subrange(0, 6) =~= "meshes"@);
    reveal_strlit("meshes/actors/character/_1stperson/behaviors/0_master.bin");
    assert("meshes/actors/character/_1stperson/behaviors/0_master.bin"@.subrange(0, 6) =~= "meshes"@);
    reveal_strlit("meshes/actors/character/_1stperson/behaviors/1hm_behavior.bin");
    assert("meshes/actors/character/_1stperson/behaviors/1hm_behavior.bin"@.subrange(0, 6) =~= "meshes"@);
    reveal_strlit("meshes/actors/character/_1stperson/behaviors/1hm_locomotion.bin");
    assert("meshes/actors/character/_1stperson/behaviors/1hm_locomotion.bin"@.subrange(0, 6) =~= "meshes"@);
    reveal_strlit("meshes/actors/character/_1stperson/behaviors/bashbehavior.bin");
    assert("meshes/actors/character/_1stperson/behaviors/bashbehavior.bin"@.subrange(0, 6) =~= "meshes"@);
    reveal_strlit("meshes/actors/character/_1stperson/behaviors/blockbehavior.bin");
    assert("meshes/actors/character/_1stperson/behaviors/blockbehavior.bin"@.subrange(0, 6) =~= "meshes"@);
    reveal_strlit("meshes/actors/character/_1stperson/behaviors/bow_direction_behavior.bin");
    assert("meshes/actors/character/_1stperson/behaviors/bow_direction_behavior.bin"@.subrange(0, 6) =~= "meshes"@);
    reveal_strlit("meshes/actors/character/_1stperson/behaviors/crossbow_direction_behavior.bin");
    assert("meshes/actors/character/_1stperson/behaviors/crossbow_direction_behavior.bin"@.subrange(0, 6) =~= "meshes"@);
    reveal_strlit("meshes/actors/character/_1stperson/behaviors/horsebehavior.bin");
    assert("meshes/actors/character/_1stperson/behaviors/horsebehavior.bin"@.subrange(0, 6) =~= "meshes"@);
    reveal_strlit("meshes/actors/character/_1stperson/behaviors/idlebehavior.bin");
    assert("meshes/actors/character/_1stperson/behaviors/idlebehavior.bin"@.subrange(0, 6) =~= "meshes"@);
    reveal_strlit("meshes/actors/character/_1stperson/behaviors/magicbehavior.bin");
    assert("meshes/actors/character/_1stperson/behaviors/magicbehavior.bin"@.subrange(0, 6) =~= "meshes"@);
    reveal_strlit("meshes/actors/character/_1stperson/behaviors/magicmountedbehavior.bin");
    assert("meshes/actors/character/_1stperson/behaviors/magicmountedbehavior.bin"@.subrange(0, 6) =~= "meshes"@);
    reveal_strlit("meshes/actors/character/_1stperson/behaviors/mt_behavior.bin");
    assert("meshes/actors/character/_1stperson/behaviors/mt_behavior.bin"@.subrange(0, 6) =~= "meshes"@);
    reveal_strlit("meshes/actors/character/_1stperson/behaviors/shout_behavior.bin");
    assert("meshes/actors/character/_1stperson/behaviors/shout_behavior.bin"@.subrange(0, 6) =~= "meshes"@);
    reveal_strlit("meshes/actors/character/_1stperson/behaviors/shoutmounted_behavior.bin");
    assert("meshes/actors/character/_1stperson/behaviors/shoutmounted_behavior.bin"@.subrange(0, 6) =~= "meshes"@);
    reveal_strlit("meshes/actors/character/_1stperson/behaviors/sprintbehavior.bin");
    assert("meshes/actors/character/_1stperson/behaviors/sprintbehavior.bin"@.subrange(0, 6) =~= "meshes"@);
    reveal_strlit("meshes/actors/character/_1stperson/behaviors/staggerbehavior.bin");
    assert("meshes/actors/character/_1stperson/behaviors/staggerbehavior.bin"@.subrange(0, 6) =~= "meshes"@);
    reveal_strlit("meshes/actors/character/_1stperson/behaviors/weapequip.bin");
    assert("meshes/actors/character/_1stperson/behaviors/weapequip.bin"@.subrange(0, 6) =~= "meshes"@);
    reveal_strlit("meshes/actors/character/_1stperson/characters/firstperson.bin");
    assert("meshes/actors/character/_1stperson/characters/firstperson.bin"@.subrange(0, 6) =~= "meshes"@);
    reveal_strlit("meshes/actors/character/_1stperson/firstperson_Project.bin");
    assert("meshes/actors/character/_1stperson/firstperson_Project.bin"@.subrange(0, 6) =~= "meshes"@);
    reveal_strlit("meshes/actors/character/behaviors/0_master.bin");
    assert("meshes/actors/character/behaviors/0_master.bin"@.subrange(0, 6) =~= "meshes"@);
    reveal_strlit("meshes/actors/character/behaviors/1hm_behavior.bin");
    assert("meshes/actors/character/behaviors/1hm_behavior.bin"@.subrange(0, 6) =~= "meshes"@);
    reveal_strlit("meshes/actors/character/behaviors/1hm_locomotion.bin");
    assert("meshes/actors/character/behaviors/1hm_locomotion.bin"@.subrange(0, 6) =~= "meshes"@);
    reveal_strlit("meshes/actors/character/behaviors/bashbehavior.bin");
    assert("meshes/actors/character/behaviors/bashbehavior.bin"@.subrange(0, 6) =~= "meshes"@);
    reveal_strlit("meshes/actors/character/behaviors/blockbehavior.bin");
    assert("meshes/actors/character/behaviors/blockbehavior.bin"@.subrange(0, 6) =~= "meshes"@);
    reveal_strlit("meshes/actors/character/behaviors/bow_direction_behavior.bin");
    assert("meshes/actors/character/behaviors/bow_direction_behavior.bin"@.subrange(0, 6) =~= "meshes"@);
    reveal_strlit("meshes/actors/character/behaviors/crossbow_direction_behavior.bin");
    assert("meshes/actors/character/behaviors/crossbow_direction_behavior.bin"@.subrange(0, 6) =~= "meshes"@);
    reveal_strlit("meshes/actors/character/behaviors/horsebehavior.bin");
    assert("meshes/actors/character/behaviors/horsebehavior.bin"@.subrange(0, 6) =~= "meshes"@);
    reveal_strlit("meshes/actors/character/behaviors/idlebehavior.bin");
    assert("meshes/actors/character/behaviors/idlebehavior.bin"@.subrange(0, 6) =~= "meshes"@);
    reveal_strlit("meshes/actors/character/behaviors/magic_readied_direction_behavior.bin");
    assert("meshes/actors/character/behaviors/magic_readied_direction_behavior.bin"@.subrange(0, 6) =~= "meshes"@);
    reveal_strlit("meshes/actors/character/behaviors/magicbehavior.bin");
    assert("meshes/actors/character/behaviors/magicbehavior.bin"@.subrange(0, 6) =~= "meshes"@);
    reveal_strlit("meshes/actors/character/behaviors/magicmountedbehavior.bin");
    assert("meshes/actors/character/behaviors/magicmountedbehavior.bin"@.subrange(0, 6) =~= "meshes"@);
    reveal_strlit("meshes/actors/character/behaviors/mt_behavior.bin");
    assert("meshes/actors/character/behaviors/mt_behavior.bin"@.subrange(0, 6) =~= "meshes"@);
    reveal_strlit("meshes/actors/character/behaviors/shout_behavior.bin");
    assert("meshes/actors/character/behaviors/shout_behavior.bin"@.subrange(0, 6) =~= "meshes"@);
    reveal_strlit("meshes/actors/character/behaviors/shoutmounted_behavior.bin");
    assert("meshes/actors/character/behaviors/shoutmounted_behavior.bin"@.subrange(0, 6) =~= "meshes"@);
    reveal_strlit("meshes/actors/character/behaviors/sprintbehavior.bin");
    assert("meshes/actors/character/behaviors/sprintbehavior.bin"@.subrange(0, 6) =~= "meshes"@);
    reveal_strlit("meshes/actors/character/behaviors/staggerbehavior.bin");
    assert("meshes/actors/character/behaviors/staggerbehavior.bin"@.subrange(0, 6) =~= "meshes"@);
    reveal_strlit("meshes/actors/character/behaviors/weapequip.bin");
    assert("meshes/actors/character/behaviors/weapequip.bin"@.subrange(0, 6) =~= "meshes"@);
    reveal_strlit("meshes/actors/character/characters female/defaultfemale.bin");
    assert("meshes/actors/character/characters female/defaultfemale.bin"@.subrange(0, 6) =~= "meshes"@);
    reveal_strlit("meshes/actors/character/characters/defaultmale.bin");
    assert("meshes/actors/character/characters/defaultmale.bin"@.subrange(0, 6) =~= "meshes"@);
    reveal_strlit("meshes/actors/chaurus/behaviors/chaurusbehavior.bin");
    assert("meshes/actors/chaurus/behaviors/chaurusbehavior.bin"@.subrange(0, 6) =~= "meshes"@);
    reveal_strlit("meshes/actors/cow/behaviors/h-cowbehavior.bin");
    assert("meshes/actors/cow/behaviors/h-cowbehavior.bin"@.subrange(0, 6) =~= "meshes"@);
    reveal_strlit("meshes/actors/cow/behaviors/h-cowbehavior_lod.bin");
    assert("meshes/actors/cow/behaviors/h-cowbehavior_lod.bin"@.subrange(0, 6) =~= "meshes"@);
    reveal_strlit("meshes/actors/deer/behaviors/deerbehavior.bin");
    assert("meshes/actors/deer/behaviors/deerbehavior.bin"@.subrange(0, 6) =~= "meshes"@);
    reveal_strlit("meshes/actors/dlc01/chaurusflyer/behaviors/chaurusflyerbehavior.bin");
    assert("meshes/actors/dlc01/chaurusflyer/behaviors/chaurusflyerbehavior.bin"@.subrange(0, 6) =~= "meshes"@);
    reveal_strlit("meshes/actors/dlc01/vampirebrute/behaviors/vampirebrutebehavior.bin");
    assert("meshes/actors/dlc01/vampirebrute/behaviors/vampirebrutebehavior.bin"@.subrange(0, 6) =~= "meshes"@);
    reveal_strlit("meshes/actors/dlc02/benthiclurker/behaviors/benthiclurkerbehavior.bin");
    assert("meshes/actors/dlc02/benthiclurker/behaviors/benthiclurkerbehavior.bin"@.subrange(0, 6) =~= "meshes"@);
    reveal_strlit("meshes/actors/dlc02/boarriekling/behaviors/boarbehavior.bin");
    assert("meshes/actors/dlc02/boarriekling/behaviors/boarbehavior.bin"@.subrange(0, 6) =~= "meshes"@);
    reveal_strlit("meshes/actors/dlc02/dwarvenballistacenturion/behaviors/bcbehavior.bin");
    assert("meshes/actors/dlc02/dwarvenballistacenturion/behaviors/bcbehavior.bin"@.subrange(0, 6) =~= "meshes"@);
    reveal_strlit("meshes/actors/dlc02/hmdaedra/behaviors/hmdaedra.bin");
    assert("meshes/actors/dlc02/hmdaedra/behaviors/hmdaedra.bin"@.subrange(0, 6) =~= "meshes"@);
    reveal_strlit("meshes/actors/dlc02/netch/behaviors/netchbehavior.bin");
    assert("meshes/actors/dlc02/netch/behaviors/netchbehavior.bin"@.subrange(0, 6) =~= "meshes"@);
    reveal_strlit("meshes/actors/dlc02/riekling/behaviors/rieklingbehavior.bin");
    assert("meshes/actors/dlc02/riekling/behaviors/rieklingbehavior.bin"@.subrange(0, 6) =~= "meshes"@);
    reveal_strlit("meshes/actors/dlc02/scrib/behaviors/scribbehavior.bin");
    assert("meshes/actors/dlc02/scrib/behaviors/scribbehavior.bin"@.subrange(0, 6) =~= "meshes"@);
    reveal_strlit("meshes/actors/dragon/behaviors/dragonbehavior.bin");
    assert("meshes/actors/dragon/behaviors/dragonbehavior.bin"@.subrange(0, 6) =~= "meshes"@);
    reveal_strlit("meshes/actors/dragonpriest/behaviors/dragon_priest.bin");
    assert("meshes/actors/dragonpriest/behaviors/dragon_priest.bin"@.subrange(0, 6) =~= "meshes"@);
    reveal_strlit("meshes/actors/draugr/behaviors/draugrbehavior.bin");
    assert("meshes/actors/draugr/behaviors/draugrbehavior.bin"@.subrange(0, 6) =~= "meshes"@);
    reveal_strlit("meshes/actors/draugr/characters/draugr.bin");
    assert("meshes/actors/draugr/characters/draugr.bin"@.subrange(0, 6) =~= "meshes"@);
    reveal_strlit("meshes/actors/draugr/characterskeleton/draugr_skeleton.bin");
    assert("meshes/actors/draugr/characterskeleton/draugr_skeleton.bin"@.subrange(0, 6) =~= "meshes"@);
    reveal_strlit("meshes/actors/dwarvenspherecenturion/behaviors/scbehavior.bin");
    assert("meshes/actors/dwarvenspherecenturion/behaviors/scbehavior.bin"@.subrange(0, 6) =~= "meshes"@);
    reveal_strlit("meshes/actors/dwarvenspider/behaviors/dwarvenspiderbehavior.bin");
    assert("meshes/actors/dwarvenspider/behaviors/dwarvenspiderbehavior.bin"@.subrange(0, 6) =~= "meshes"@);
    reveal_strlit("meshes/actors/dwarvensteamcenturion/behaviors/steambehavior.bin");
    assert("meshes/actors/dwarvensteamcenturion/behaviors/steambehavior.bin"@.subrange(0, 6) =~= "meshes"@);
    reveal_strlit("meshes/actors/falmer/behaviors/falmerbehavior.bin");
    assert("meshes/actors/falmer/behaviors/falmerbehavior.bin"@.subrange(0, 6) =~= "meshes"@);
    reveal_strlit("meshes/actors/frostbitespider/behaviors/frostbitespiderbehavior.bin");
    assert("meshes/actors/frostbitespider/behaviors/frostbitespiderbehavior.bin"@.subrange(0, 6) =~= "meshes"@);
    reveal_strlit("meshes/actors/giant/behaviors/giantbehavior.bin");
    assert("meshes/actors/giant/behaviors/giantbehavior.bin"@.subrange(0, 6) =~= "meshes"@);
    reveal_strlit("meshes/actors/goat/behaviors/goatbehavior.bin");
    assert("meshes/actors/goat/behaviors/goatbehavior.bin"@.subrange(0, 6) =~= "meshes"@);
    reveal_strlit("meshes/actors/hagraven/behaviors/havgravenbehavior.bin");
    assert("meshes/actors/hagraven/behaviors/havgravenbehavior.bin"@.subrange(0, 6) =~= "meshes"@);
    reveal_strlit("meshes/actors/horker/behaviors/horkerbehavior.bin");
    assert("meshes/actors/horker/behaviors/horkerbehavior.bin"@.subrange(0, 6) =~= "meshes"@);
    reveal_strlit("meshes/actors/icewraith/behaviors/icewraithbehavior.bin");
    assert("meshes/actors/icewraith/behaviors/icewraithbehavior.bin"@.subrange(0, 6) =~= "meshes"@);
    reveal_strlit("meshes/actors/mammoth/behaviors/mammothbehavior.bin");
    assert("meshes/actors/mammoth/behaviors/mammothbehavior.bin"@.subrange(0, 6) =~= "meshes"@);
    reveal_strlit("meshes/actors/mudcrab/behaviors/mudcrabbehavior.bin");
    assert("meshes/actors/mudcrab/behaviors/mudcrabbehavior.bin"@.subrange(0, 6) =~= "meshes"@);
    reveal_strlit("meshes/actors/sabrecat/behaviors/sabrecatbehavior.bin");
    assert("meshes/actors/sabrecat/behaviors/sabrecatbehavior.bin"@.subrange(0, 6) =~= "meshes"@);
    reveal_strlit("meshes/actors/skeever/behaviors/skeeverbehavior.bin");
    assert("meshes/actors/skeever/behaviors/skeeverbehavior.bin"@.subrange(0, 6) =~= "meshes"@);
    reveal_strlit("meshes/actors/slaughterfish/behaviors/slaughterfishbehavior.bin");
    assert("meshes/actors/slaughterfish/behaviors/slaughterfishbehavior.bin"@.subrange(0, 6) =~= "meshes"@);
    reveal_strlit("meshes/actors/spriggan/behaviors/sprigganbehavior.bin");
    assert("meshes/actors/spriggan/behaviors/sprigganbehavior.bin"@.subrange(0, 6) =~= "meshes"@);
    reveal_strlit("meshes/actors/troll/behaviors/trollbehavior.bin");
    assert("meshes/actors/troll/behaviors/trollbehavior.bin"@.subrange(0, 6) =~= "meshes"@);
    reveal_strlit("meshes/actors/werewolfbeast/behaviors/werewolfbehavior.bin");
    assert("meshes/actors/werewolfbeast/behaviors/werewolfbehavior.bin"@.subrange(0, 6) =~= "meshes"@);
    reveal_strlit("meshes/actors/werewolfbeast/characters/werewolf.bin");
    assert("meshes/actors/werewolfbeast/characters/werewolf.bin"@.subrange(0, 6) =~= "meshes"@);
    reveal_strlit("meshes/actors/werewolfbeast/werewolfbeastproject.bin");
    assert("meshes/actors/werewolfbeast/werewolfbeastproject.bin"@.subrange(0, 6) =~= "meshes"@);
    reveal_strlit("meshes/actors/wisp/behaviors/wispbehavior.bin");
    assert("meshes/actors/wisp/behaviors/wispbehavior.bin"@.subrange(0, 6) =~= "meshes"@);
    reveal_strlit("meshes/actors/witchlight/behaviors/witchlightbehavior.bin");
    assert("meshes/actors/witchlight/behaviors/witchlightbehavior.bin"@.subrange(0, 6) =~= "meshes"@);
}

/// The class indexes of a template's `hkbBehaviorGraphStringData` and `hkbBehaviorGraph`.
#[derive(Debug, Clone, Copy, PartialEq, Eq)]
pub struct MasterIndex {
    pub master_string_data_index: &'static str,
    pub master_behavior_graph_index: &'static str,
}

/// `(string data index, behavior graph index)` of a template stem, in 1st or 3rd person.
pub open spec fn master_index_of(stem: Seq<char>, is_1st_person: bool) -> Option<
    (Seq<char>, Seq<char>),
> {
    if is_1st_person {
        first_person_master_index(stem)
    } else {
        third_person_master_index(stem)
    }
}

impl MasterIndex {
    /// From a Nemesis file stem, e.g. `0_master` -> `#0106`/`#0108`.
    pub fn from_nemesis_file(template_file_stem: &str, is_1st_person: bool) -> (r: Option<
        MasterIndex,
    >)
        ensures
            match master_index_of(template_file_stem@, is_1st_person) {
                Some((a, b)) => r matches Some(m) && m.master_string_data_index@ == a
                    && m.master_behavior_graph_index@ == b,
                None => r is None,
            },
    {
        if is_1st_person {
            first_person_master_index_exec(template_file_stem)
        } else {
            third_person_master_index_exec(template_file_stem)
        }
    }
}

/// The value of a digit character.
pub open spec fn digit_value(c: char) -> int {
    c as int - '0' as int
}

/// `s` is a class index `#dddd` (four decimal digits).
pub open spec fn is_class_index(s: Seq<char>) -> bool {
    &&& s.len() == 5
    &&& s[0] == '#'
    &&& forall|i: int| 1 <= i < 5 ==> '0' <= #[trigger] s[i] <= '9'
}

/// The number of a class index `#dddd`.
pub open spec fn index_number(s: Seq<char>) -> int {
    digit_value(s[1]) * 1000 + digit_value(s[2]) * 100 + digit_value(s[3]) * 10 + digit_value(s[4])
}

/// `b` is the class index two after `a`.
pub open spec fn is_index_pair(a: Seq<char>, b: Seq<char>) -> bool {
    is_class_index(a) && is_class_index(b) && index_number(b) == index_number(a) + 2
}

/// In every master index, the behavior graph comes two classes after the string data:
/// both are class indexes `#dddd`, and the graph's number is the string data's plus 2.
pub proof fn lemma_master_index_graph_follows_string_data(stem: Seq<char>, is_1st_person: bool)
    ensures
        master_index_of(stem, is_1st_person) matches Some((a, b)) ==> is_index_pair(a, b),
{
    lemma_index_pairs();
}

proof fn lemma_index_pairs()
    ensures
        is_index_pair("#0052"@, "#0054"@),
        is_index_pair("#0054"@, "#0056"@),
        is_index_pair("#0055"@, "#0057"@),
        is_index_pair("#0056"@, "#0058"@),
        is_index_pair("#0057"@, "#0059"@),
        is_index_pair("#0060"@, "#0062"@),
        is_index_pair("#0062"@, "#0064"@),
        is_index_pair("#0063"@, "#0065"@),
        is_index_pair("#0064"@, "#0066"@),
        is_index_pair("#0071"@, "#0073"@),
        is_index_pair("#0076"@, "#0078"@),
        is_index_pair("#0077"@, "#0079"@),
        is_index_pair("#0078"@, "#0080"@),
        is_index_pair("#0079"@, "#0081"@),
        is_index_pair("#0081"@, "#0083"@),
        is_index_pair("#0082"@, "#0084"@),
        is_index_pair("#0083"@, "#0085"@),
        is_index_pair("#0084"@, "#0086"@),
        is_index_pair("#0085"@, "#0087"@),
        is_index_pair("#0086"@, "#0088"@),
        is_index_pair("#0087"@, "#0089"@),
        is_index_pair("#0088"@, "#0090"@),
        is_index_pair("#0089"@, "#0091"@),
        is_index_pair("#0090"@, "#0092"@),
        is_index_pair("#0091"@, "#0093"@),
        is_index_pair("#0092"@, "#0094"@),
        is_index_pair("#0093"@, "#0095"@),
        is_index_pair("#0094"@, "#0096"@),
        is_index_pair("#0095"@, "#0097"@),
        is_index_pair("#0096"@, "#0098"@),
        is_index_pair("#0099"@, "#0101"@),
        is_index_pair("#0101"@, "#0103"@),
        is_index_pair("#0106"@, "#0108"@),
{
    lemma_index_pair_0052_0054();
    lemma_index_pair_0054_0056();
    lemma_index_pair_0055_0057();
    lemma_index_pair_0056_0058();
    lemma_index_pair_0057_0059();
    lemma_index_pair_0060_0062();
    lemma_index_pair_0062_0064();
    lemma_index_pair_0063_0065();
    lemma_index_pair_0064_0066();
    lemma_index_pair_0071_0073();
    lemma_index_pair_0076_0078();
    lemma_index_pair_0077_0079();
    lemma_index_pair_0078_0080();
    lemma_index_pair_0079_0081();
    lemma_index_pair_0081_0083();
    lemma_index_pair_0082_0084();
    lemma_index_pair_0083_0085();
    lemma_index_pair_0084_0086();
    lemma_index_pair_0085_0087();
    lemma_index_pair_0086_0088();
    lemma_index_pair_0087_0089();
    lemma_index_pair_0088_0090();
    lemma_index_pair_0089_0091();
    lemma_index_pair_0090_0092();
    lemma_index_pair_0091_0093();
    lemma_index_pair_0092_0094();
    lemma_index_pair_0093_0095();
    lemma_index_pair_0094_0096();
    lemma_index_pair_0095_0097();
    lemma_index_pair_0096_0098();
    lemma_index_pair_0099_0101();
    lemma_index_pair_0101_0103();
    lemma_index_pair_0106_0108();
}

proof fn lemma_index_pair_0052_0054()
    ensures
        is_index_pair("#0052"@, "#0054"@),
{
    reveal_strlit("#0052");
    reveal_strlit("#0054");
}

proof fn lemma_index_pair_0054_0056()
    ensures
        is_index_pair("#0054"@, "#0056"@),
{
    reveal_strlit("#0054");
    reveal_strlit("#0056");
}

proof fn lemma_index_pair_0055_0057()
    ensures
        is_index_pair("#0055"@, "#0057"@),
{
    reveal_strlit("#0055");
    reveal_strlit("#0057");
}

proof fn lemma_index_pair_0056_0058()
    ensures
        is_index_pair("#0056"@, "#0058"@),
{
    reveal_strlit("#0056");
    reveal_strlit("#0058");
}

proof fn lemma_index_pair_0057_0059()
    ensures
        is_index_pair("#0057"@, "#0059"@),
{
    reveal_strlit("#0057");
    reveal_strlit("#0059");
}

proof fn lemma_index_pair_0060_0062()
    ensures
        is_index_pair("#0060"@, "#0062"@),
{
    reveal_strlit("#0060");
    reveal_strlit("#0062");
}

proof fn lemma_index_pair_0062_0064()
    ensures
        is_index_pair("#0062"@, "#0064"@),
{
    reveal_strlit("#0062");
    reveal_strlit("#0064");
}

proof fn lemma_index_pair_0063_0065()
    ensures
        is_index_pair("#0063"@, "#0065"@),
{
    reveal_strlit("#0063");
    reveal_strlit("#0065");
}

proof fn lemma_index_pair_0064_0066()
    ensures
        is_index_pair("#0064"@, "#0066"@),
{
    reveal_strlit("#0064");
    reveal_strlit("#0066");
}

proof fn lemma_index_pair_0071_0073()
    ensures
        is_index_pair("#0071"@, "#0073"@),
{
    reveal_strlit("#0071");
    reveal_strlit("#0073");
}

proof fn lemma_index_pair_0076_0078()
    ensures
        is_index_pair("#0076"@, "#0078"@),
{
    reveal_strlit("#0076");
    reveal_strlit("#0078");
}

proof fn lemma_index_pair_0077_0079()
    ensures
        is_index_pair("#0077"@, "#0079"@),
{
    reveal_strlit("#0077");
    reveal_strlit("#0079");
}

proof fn lemma_index_pair_0078_0080()
    ensures
        is_index_pair("#0078"@, "#0080"@),
{
    reveal_strlit("#0078");
    reveal_strlit("#0080");
}

proof fn lemma_index_pair_0079_0081()
    ensures
        is_index_pair("#0079"@, "#0081"@),
{
    reveal_strlit("#0079");
    reveal_strlit("#0081");
}

proof fn lemma_index_pair_0081_0083()
    ensures
        is_index_pair("#0081"@, "#0083"@),
{
    reveal_strlit("#0081");
    reveal_strlit("#0083");
}

proof fn lemma_index_pair_0082_0084()
    ensures
        is_index_pair("#0082"@, "#0084"@),
{
    reveal_strlit("#0082");
    reveal_strlit("#0084");
}

proof fn lemma_index_pair_0083_0085()
    ensures
        is_index_pair("#0083"@, "#0085"@),
{
    reveal_strlit("#0083");
    reveal_strlit("#0085");
}

proof fn lemma_index_pair_0084_0086()
    ensures
        is_index_pair("#0084"@, "#0086"@),
{
    reveal_strlit("#0084");
    reveal_strlit("#0086");
}

proof fn lemma_index_pair_0085_0087()
    ensures
        is_index_pair("#0085"@, "#0087"@),
{
    reveal_strlit("#0085");
    reveal_strlit("#0087");
}

proof fn lemma_index_pair_0086_0088()
    ensures
        is_index_pair("#0086"@, "#0088"@),
{
    reveal_strlit("#0086");
    reveal_strlit("#0088");
}

proof fn lemma_index_pair_0087_0089()
    ensures
        is_index_pair("#0087"@, "#0089"@),
{
    reveal_strlit("#0087");
    reveal_strlit("#0089");
}

proof fn lemma_index_pair_0088_0090()
    ensures
        is_index_pair("#0088"@, "#0090"@),
{
    reveal_strlit("#0088");
    reveal_strlit("#0090");
}

proof fn lemma_index_pair_0089_0091()
    ensures
        is_index_pair("#0089"@, "#0091"@),
{
    reveal_strlit("#0089");
    reveal_strlit("#0091");
}

proof fn lemma_index_pair_0090_0092()
    ensures
        is_index_pair("#0090"@, "#0092"@),
{
    reveal_strlit("#0090");
    reveal_strlit("#0092");
}

proof fn lemma_index_pair_0091_0093()
    ensures
        is_index_pair("#0091"@, "#0093"@),
{
    reveal_strlit("#0091");
    reveal_strlit("#0093");
}

proof fn lemma_index_pair_0092_0094()
    ensures
        is_index_pair("#0092"@, "#0094"@),
{
    reveal_strlit("#0092");
    reveal_strlit("#0094");
}

proof fn lemma_index_pair_0093_0095()
    ensures
        is_index_pair("#0093"@, "#0095"@),
{
    reveal_strlit("#0093");
    reveal_strlit("#0095");
}

proof fn lemma_index_pair_0094_0096()
    ensures
        is_index_pair("#0094"@, "#0096"@),
{
    reveal_strlit("#0094");
    reveal_strlit("#0096");
}

proof fn lemma_index_pair_0095_0097()
    ensures
        is_index_pair("#0095"@, "#0097"@),
{
    reveal_strlit("#0095");
    reveal_strlit("#0097");
}

proof fn lemma_index_pair_0096_0098()
    ensures
        is_index_pair("#0096"@, "#0098"@),
{
    reveal_strlit("#0096");
    reveal_strlit("#0098");
}

proof fn lemma_index_pair_0099_0101()
    ensures
        is_index_pair("#0099"@, "#0101"@),
{
    reveal_strlit("#0099");
    reveal_strlit("#0101");
}

proof fn lemma_index_pair_0101_0103()
    ensures
        is_index_pair("#0101"@, "#0103"@),
{
    reveal_strlit("#0101");
    reveal_strlit("#0103");
}

proof fn lemma_index_pair_0106_0108()
    ensures
        is_index_pair("#0106"@, "#0108"@),
{
    reveal_strlit("#0106");
    reveal_strlit("#0108");
}

/// The template of a 1st person Nemesis file stem (`_1stperson/<stem>`).
pub open spec fn first_person_template(stem: Seq<char>) -> Option<Seq<char>> {
    if stem == "0_master"@ {
        Some("meshes/actors/character/_1stperson/behaviors/0_master.bin"@)
    } else if stem == "1hm_behavior"@ {
        Some("meshes/actors/character/_1stperson/behaviors/1hm_behavior.bin"@)
    } else if stem == "1hm_locomotion"@ {
        Some("meshes/actors/character/_1stperson/behaviors/1hm_locomotion.bin"@)
    } else if stem == "bashbehavior"@ {
        Some("meshes/actors/character/_1stperson/behaviors/bashbehavior.bin"@)
    } else if stem == "blockbehavior"@ {
        Some("meshes/actors/character/_1stperson/behaviors/blockbehavior.bin"@)
    } else if stem == "bow_direction_behavior"@ {
        Some("meshes/actors/character/_1stperson/behaviors/bow_direction_behavior.bin"@)
    } else if stem == "crossbow_direction_behavior"@ {
        Some("meshes/actors/character/_1stperson/behaviors/crossbow_direction_behavior.bin"@)
    } else if stem == "firstperson"@ {
        Some("meshes/actors/character/_1stperson/characters/firstperson.bin"@)
    } else if stem == "firstperson_Project"@ {
        Some("meshes/actors/character/_1stperson/firstperson_Project.bin"@)
    } else if stem == "horsebehavior"@ {
        Some("meshes/actors/character/_1stperson/behaviors/horsebehavior.bin"@)
    } else if stem == "idlebehavior"@ {
        Some("meshes/actors/character/_1stperson/behaviors/idlebehavior.bin"@)
    } else if stem == "magicbehavior"@ {
        Some("meshes/actors/character/_1stperson/behaviors/magicbehavior.bin"@)
    } else if stem == "magicmountedbehavior"@ {
        Some("meshes/actors/character/_1stperson/behaviors/magicmountedbehavior.bin"@)
    } else if stem == "mt_behavior"@ {
        Some("meshes/actors/character/_1stperson/behaviors/mt_behavior.bin"@)
    } else if stem == "shout_behavior"@ {
        Some("meshes/actors/character/_1stperson/behaviors/shout_behavior.bin"@)
    } else if stem == "shoutmounted_behavior"@ {
        Some("meshes/actors/character/_1stperson/behaviors/shoutmounted_behavior.bin"@)
    } else if stem == "sprintbehavior"@ {
        Some("meshes/actors/character/_1stperson/behaviors/sprintbehavior.bin"@)
    } else if stem == "staggerbehavior"@ {
        Some("meshes/actors/character/_1stperson/behaviors/staggerbehavior.bin"@)
    } else if stem == "weapequip"@ {
        Some("meshes/actors/character/_1stperson/behaviors/weapequip.bin"@)
    } else {
        None
    }
}

/// The template of a 3rd person Nemesis file stem.
pub open spec fn third_person_template(stem: Seq<char>) -> Option<Seq<char>> {
    if stem == "0_master"@ {
        Some("meshes/actors/character/behaviors/0_master.bin"@)
    } else if stem == "1hm_behavior"@ {
        Some("meshes/actors/character/behaviors/1hm_behavior.bin"@)
    } else if stem == "1hm_locomotion"@ {
        Some("meshes/actors/character/behaviors/1hm_locomotion.bin"@)
    } else if stem == "atronachflamebehavior"@ {
        Some("meshes/actors/atronachflame/behaviors/atronachflamebehavior.bin"@)
    } else if stem == "atronachfrostbehavior"@ {
        Some("meshes/actors/atronachfrost/behaviors/atronachfrostbehavior.bin"@)
    } else if stem == "atronachstormbehavior"@ {
        Some("meshes/actors/atronachstorm/behaviors/atronachstormbehavior.bin"@)
    } else if stem == "bashbehavior"@ {
        Some("meshes/actors/character/behaviors/bashbehavior.bin"@)
    } else if stem == "bcbehavior"@ {
        Some("meshes/actors/dlc02/dwarvenballistacenturion/behaviors/bcbehavior.bin"@)
    } else if stem == "bearbehavior"@ {
        Some("meshes/actors/bear/behaviors/bearbehavior.bin"@)
    } else if stem == "benthiclurkerbehavior"@ {
        Some("meshes/actors/dlc02/benthiclurker/behaviors/benthiclurkerbehavior.bin"@)
    } else if stem == "blockbehavior"@ {
        Some("meshes/actors/character/behaviors/blockbehavior.bin"@)
    } else if stem == "boarbehavior"@ {
        Some("meshes/actors/dlc02/boarriekling/behaviors/boarbehavior.bin"@)
    } else if stem == "bow_direction_behavior"@ {
        Some("meshes/actors/character/behaviors/bow_direction_behavior.bin"@)
    } else if stem == "chaurusbehavior"@ {
        Some("meshes/actors/chaurus/behaviors/chaurusbehavior.bin"@)
    } else if stem == "chaurusflyerbehavior"@ {
        Some("meshes/actors/dlc01/chaurusflyer/behaviors/chaurusflyerbehavior.bin"@)
    } else if stem == "chickenbehavior"@ {
        Some("meshes/actors/ambient/chicken/behaviors/chickenbehavior.bin"@)
    } else if stem == "crossbow_direction_behavior"@ {
        Some("meshes/actors/character/behaviors/crossbow_direction_behavior.bin"@)
    } else if stem == "deerbehavior"@ {
        Some("meshes/actors/deer/behaviors/deerbehavior.bin"@)
    } else if stem == "defaultfemale"@ {
        Some("meshes/actors/character/characters female/defaultfemale.bin"@)
    } else if stem == "defaultmale"@ {
        Some("meshes/actors/character/characters/defaultmale.bin"@)
    } else if stem == "dogbehavior"@ {
        Some("meshes/actors/canine/behaviors/dogbehavior.bin"@)
    } else if stem == "dragon_priest"@ {
        Some("meshes/actors/dragonpriest/behaviors/dragon_priest.bin"@)
    } else if stem == "dragonbehavior"@ {
        Some("meshes/actors/dragon/behaviors/dragonbehavior.bin"@)
    } else if stem == "draugr"@ {
        Some("meshes/actors/draugr/characters/draugr.bin"@)
    } else if stem == "draugr_skeleton"@ {
        Some("meshes/actors/draugr/characterskeleton/draugr_skeleton.bin"@)
    } else if stem == "draugrbehavior"@ {
        Some("meshes/actors/draugr/behaviors/draugrbehavior.bin"@)
    } else if stem == "dwarvenspiderbehavior"@ {
        Some("meshes/actors/dwarvenspider/behaviors/dwarvenspiderbehavior.bin"@)
    } else if stem == "falmerbehavior"@ {
        Some("meshes/actors/falmer/behaviors/falmerbehavior.bin"@)
    } else if stem == "frostbitespiderbehavior"@ {
        Some("meshes/actors/frostbitespider/behaviors/frostbitespiderbehavior.bin"@)
    } else if stem == "giantbehavior"@ {
        Some("meshes/actors/giant/behaviors/giantbehavior.bin"@)
    } else if stem == "goatbehavior"@ {
        Some("meshes/actors/goat/behaviors/goatbehavior.bin"@)
    } else if stem == "h-cowbehavior"@ {
        Some("meshes/actors/cow/behaviors/h-cowbehavior.bin"@)
    } else if stem == "h-cowbehavior_lod"@ {
        Some("meshes/actors/cow/behaviors/h-cowbehavior_lod.bin"@)
    } else if stem == "harebehavior"@ {
        Some("meshes/actors/ambient/hare/behaviors/harebehavior.bin"@)
    } else if stem == "havgravenbehavior"@ {
        Some("meshes/actors/hagraven/behaviors/havgravenbehavior.bin"@)
    } else if stem == "hmdaedra"@ {
        Some("meshes/actors/dlc02/hmdaedra/behaviors/hmdaedra.bin"@)
    } else if stem == "horkerbehavior"@ {
        Some("meshes/actors/horker/behaviors/horkerbehavior.bin"@)
    } else if stem == "horsebehavior"@ {
        Some("meshes/actors/character/behaviors/horsebehavior.bin"@)
    } else if stem == "icewraithbehavior"@ {
        Some("meshes/actors/icewraith/behaviors/icewraithbehavior.bin"@)
    } else if stem == "idlebehavior"@ {
        Some("meshes/actors/character/behaviors/idlebehavior.bin"@)
    } else if stem == "magic_readied_direction_behavior"@ {
        Some("meshes/actors/character/behaviors/magic_readied_direction_behavior.bin"@)
    } else if stem == "magicbehavior"@ {
        Some("meshes/actors/character/behaviors/magicbehavior.bin"@)
    } else if stem == "magicmountedbehavior"@ {
        Some("meshes/actors/character/behaviors/magicmountedbehavior.bin"@)
    } else if stem == "mammothbehavior"@ {
        Some("meshes/actors/mammoth/behaviors/mammothbehavior.bin"@)
    } else if stem == "mt_behavior"@ {
        Some("meshes/actors/character/behaviors/mt_behavior.bin"@)
    } else if stem == "mudcrabbehavior"@ {
        Some("meshes/actors/mudcrab/behaviors/mudcrabbehavior.bin"@)
    } else if stem == "netchbehavior"@ {
        Some("meshes/actors/dlc02/netch/behaviors/netchbehavior.bin"@)
    } else if stem == "rieklingbehavior"@ {
        Some("meshes/actors/dlc02/riekling/behaviors/rieklingbehavior.bin"@)
    } else if stem == "sabrecatbehavior"@ {
        Some("meshes/actors/sabrecat/behaviors/sabrecatbehavior.bin"@)
    } else if stem == "scbehavior"@ {
        Some("meshes/actors/dwarvenspherecenturion/behaviors/scbehavior.bin"@)
    } else if stem == "scribbehavior"@ {
        Some("meshes/actors/dlc02/scrib/behaviors/scribbehavior.bin"@)
    } else if stem == "shout_behavior"@ {
        Some("meshes/actors/character/behaviors/shout_behavior.bin"@)
    } else if stem == "shoutmounted_behavior"@ {
        Some("meshes/actors/character/behaviors/shoutmounted_behavior.bin"@)
    } else if stem == "skeeverbehavior"@ {
        Some("meshes/actors/skeever/behaviors/skeeverbehavior.bin"@)
    } else if stem == "slaughterfishbehavior"@ {
        Some("meshes/actors/slaughterfish/behaviors/slaughterfishbehavior.bin"@)
    } else if stem == "sprigganbehavior"@ {
        Some("meshes/actors/spriggan/behaviors/sprigganbehavior.bin"@)
    } else if stem == "sprintbehavior"@ {
        Some("meshes/actors/character/behaviors/sprintbehavior.bin"@)
    } else if stem == "staggerbehavior"@ {
        Some("meshes/actors/character/behaviors/staggerbehavior.bin"@)
    } else if stem == "steambehavior"@ {
        Some("meshes/actors/dwarvensteamcenturion/behaviors/steambehavior.bin"@)
    } else if stem == "trollbehavior"@ {
        Some("meshes/actors/troll/behaviors/trollbehavior.bin"@)
    } else if stem == "vampirebrutebehavior"@ {
        Some("meshes/actors/dlc01/vampirebrute/behaviors/vampirebrutebehavior.bin"@)
    } else if stem == "weapequip"@ {
        Some("meshes/actors/character/behaviors/weapequip.bin"@)
    } else if stem == "werewolf"@ {
        Some("meshes/actors/werewolfbeast/characters/werewolf.bin"@)
    } else if stem == "werewolfbeastproject"@ {
        Some("meshes/actors/werewolfbeast/werewolfbeastproject.bin"@)
    } else if stem == "werewolfbehavior"@ {
        Some("meshes/actors/werewolfbeast/behaviors/werewolfbehavior.bin"@)
    } else if stem == "wispbehavior"@ {
        Some("meshes/actors/wisp/behaviors/wispbehavior.bin"@)
    } else if stem == "witchlightbehavior"@ {
        Some("meshes/actors/witchlight/behaviors/witchlightbehavior.bin"@)
    } else if stem == "wolfbehavior"@ {
        Some("meshes/actors/canine/behaviors wolf/wolfbehavior.bin"@)
    } else {
        None
    }
}

/// `(string data index, behavior graph index)` of a 1st person template stem.
pub open spec fn first_person_master_index(stem: Seq<char>) -> Option<(Seq<char>, Seq<char>)> {
    if stem == "0_master"@ {
        Some(("#0095"@, "#0097"@))
    } else if stem == "1hm_behavior"@ {
        Some(("#0085"@, "#0087"@))
    } else if stem == "1hm_locomotion"@ {
        Some(("#0063"@, "#0065"@))
    } else if stem == "bashbehavior"@ {
        Some(("#0056"@, "#0058"@))
    } else if stem == "blockbehavior"@ {
        Some(("#0076"@, "#0078"@))
    } else if stem == "bow_direction_behavior"@ {
        Some(("#0060"@, "#0062"@))
    } else if stem == "crossbow_direction_behavior"@ {
        Some(("#0060"@, "#0062"@))
    } else if stem == "horsebehavior"@ {
        Some(("#0087"@, "#0089"@))
    } else if stem == "idlebehavior"@ {
        Some(("#0055"@, "#0057"@))
    } else if stem == "magicbehavior"@ {
        Some(("#0077"@, "#0079"@))
    } else if stem == "magicmountedbehavior"@ {
        Some(("#0071"@, "#0073"@))
    } else if stem == "mt_behavior"@ {
        Some(("#0076"@, "#0078"@))
    } else if stem == "shout_behavior"@ {
        Some(("#0063"@, "#0065"@))
    } else if stem == "shoutmounted_behavior"@ {
        Some(("#0057"@, "#0059"@))
    } else if stem == "sprintbehavior"@ {
        Some(("#0057"@, "#0059"@))
    } else if stem == "staggerbehavior"@ {
        Some(("#0052"@, "#0054"@))
    } else if stem == "weapequip"@ {
        Some(("#0057"@, "#0059"@))
    } else {
        None
    }
}

/// `(string data index, behavior graph index)` of a 3rd person template stem.
pub open spec fn third_person_master_index(stem: Seq<char>) -> Option<(Seq<char>, Seq<char>)> {
    if stem == "0_master"@ {
        Some(("#0106"@, "#0108"@))
    } else if stem == "1hm_behavior"@ {
        Some(("#0085"@, "#0087"@))
    } else if stem == "1hm_locomotion"@ {
        Some(("#0063"@, "#0065"@))
    } else if stem == "atronachflamebehavior"@ {
        Some(("#0086"@, "#0088"@))
    } else if stem == "atronachfrostbehavior"@ {
        Some(("#0088"@, "#0090"@))
    } else if stem == "atronachstormbehavior"@ {
        Some(("#0083"@, "#0085"@))
    } else if stem == "bashbehavior"@ {
        Some(("#0056"@, "#0058"@))
    } else if stem == "bcbehavior"@ {
        Some(("#0088"@, "#0090"@))
    } else if stem == "bearbehavior"@ {
        Some(("#0078"@, "#0080"@))
    } else if stem == "benthiclurkerbehavior"@ {
        Some(("#0093"@, "#0095"@))
    } else if stem == "blockbehavior"@ {
        Some(("#0076"@, "#0078"@))
    } else if stem == "boarbehavior"@ {
        Some(("#0093"@, "#0095"@))
    } else if stem == "bow_direction_behavior"@ {
        Some(("#0060"@, "#0062"@))
    } else if stem == "chaurusbehavior"@ {
        Some(("#0091"@, "#0093"@))
    } else if stem == "chaurusflyerbehavior"@ {
        Some(("#0085"@, "#0087"@))
    } else if stem == "chickenbehavior"@ {
        Some(("#0085"@, "#0087"@))
    } else if stem == "crossbow_direction_behavior"@ {
        Some(("#0060"@, "#0062"@))
    } else if stem == "deerbehavior"@ {
        Some(("#0078"@, "#0080"@))
    } else if stem == "dogbehavior"@ {
        Some(("#0078"@, "#0080"@))
    } else if stem == "dragon_priest"@ {
        Some(("#0088"@, "#0090"@))
    } else if stem == "dragonbehavior"@ {
        Some(("#0101"@, "#0103"@))
    } else if stem == "draugrbehavior"@ {
        Some(("#0092"@, "#0094"@))
    } else if stem == "dwarvenspiderbehavior"@ {
        Some(("#0082"@, "#0084"@))
    } else if stem == "falmerbehavior"@ {
        Some(("#0099"@, "#0101"@))
    } else if stem == "frostbitespiderbehavior"@ {
        Some(("#0084"@, "#0086"@))
    } else if stem == "giantbehavior"@ {
        Some(("#0093"@, "#0095"@))
    } else if stem == "goatbehavior"@ {
        Some(("#0077"@, "#0079"@))
    } else if stem == "h-cowbehavior"@ {
        Some(("#0078"@, "#0080"@))
    } else if stem == "h-cowbehavior_lod"@ {
        Some(("#0078"@, "#0080"@))
    } else if stem == "harebehavior"@ {
        Some(("#0085"@, "#0087"@))
    } else if stem == "havgravenbehavior"@ {
        Some(("#0088"@, "#0090"@))
    } else if stem == "hmdaedra"@ {
        Some(("#0086"@, "#0088"@))
    } else if stem == "horkerbehavior"@ {
        Some(("#0078"@, "#0080"@))
    } else if stem == "horsebehavior"@ {
        Some(("#0087"@, "#0089"@))
    } else if stem == "icewraithbehavior"@ {
        Some(("#0079"@, "#0081"@))
    } else if stem == "idlebehavior"@ {
        Some(("#0062"@, "#0064"@))
    } else if stem == "magic_readied_direction_behavior"@ {
        Some(("#0054"@, "#0056"@))
    } else if stem == "magicbehavior"@ {
        Some(("#0077"@, "#0079"@))
    } else if stem == "magicmountedbehavior"@ {
        Some(("#0071"@, "#0073"@))
    } else if stem == "mammothbehavior"@ {
        Some(("#0078"@, "#0080"@))
    } else if stem == "mt_behavior"@ {
        Some(("#0083"@, "#0085"@))
    } else if stem == "mudcrabbehavior"@ {
        Some(("#0086"@, "#0088"@))
    } else if stem == "netchbehavior"@ {
        Some(("#0081"@, "#0083"@))
    } else if stem == "rieklingbehavior"@ {
        Some(("#0095"@, "#0097"@))
    } else if stem == "sabrecatbehavior"@ {
        Some(("#0077"@, "#0079"@))
    } else if stem == "scbehavior"@ {
        Some(("#0085"@, "#0087"@))
    } else if stem == "scribbehavior"@ {
        Some(("#0094"@, "#0096"@))
    } else if stem == "shout_behavior"@ {
        Some(("#0063"@, "#0065"@))
    } else if stem == "shoutmounted_behavior"@ {
        Some(("#0057"@, "#0059"@))
    } else if stem == "skeeverbehavior"@ {
        Some(("#0077"@, "#0079"@))
    } else if stem == "slaughterfishbehavior"@ {
        Some(("#0081"@, "#0083"@))
    } else if stem == "sprigganbehavior"@ {
        Some(("#0090"@, "#0092"@))
    } else if stem == "sprintbehavior"@ {
        Some(("#0057"@, "#0059"@))
    } else if stem == "staggerbehavior"@ {
        Some(("#0052"@, "#0054"@))
    } else if stem == "steambehavior"@ {
        Some(("#0085"@, "#0087"@))
    } else if stem == "trollbehavior"@ {
        Some(("#0089"@, "#0091"@))
    } else if stem == "vampirebrutebehavior"@ {
        Some(("#0093"@, "#0095"@))
    } else if stem == "weapequip"@ {
        Some(("#0057"@, "#0059"@))
    } else if stem == "werewolfbehavior"@ {
        Some(("#0096"@, "#0098"@))
    } else if stem == "wispbehavior"@ {
        Some(("#0086"@, "#0088"@))
    } else if stem == "witchlightbehavior"@ {
        Some(("#0064"@, "#0066"@))
    } else if stem == "wolfbehavior"@ {
        Some(("#0078"@, "#0080"@))
    } else {
        None
    }
}

fn first_person_template_exec(stem: &str) -> (r: Option<&'static str>)
    ensures
        match r {
            Some(t) => first_person_template(stem@) == Some(t@),
            None => first_person_template(stem@) is None,
        },
{
    if str_eq(stem, "0_master") {
        return Some("meshes/actors/character/_1stperson/behaviors/0_master.bin");
    }
    if str_eq(stem, "1hm_behavior") {
        return Some("meshes/actors/character/_1stperson/behaviors/1hm_behavior.bin");
    }
    if str_eq(stem, "1hm_locomotion") {
        return Some("meshes/actors/character/_1stperson/behaviors/1hm_locomotion.bin");
    }
    if str_eq(stem, "bashbehavior") {
        return Some("meshes/actors/character/_1stperson/behaviors/bashbehavior.bin");
    }
    if str_eq(stem, "blockbehavior") {
        return Some("meshes/actors/character/_1stperson/behaviors/blockbehavior.bin");
    }
    if str_eq(stem, "bow_direction_behavior") {
        return Some("meshes/actors/character/_1stperson/behaviors/bow_direction_behavior.bin");
    }
    if str_eq(stem, "crossbow_direction_behavior") {
        return Some("meshes/actors/character/_1stperson/behaviors/crossbow_direction_behavior.bin");
    }
    if str_eq(stem, "firstperson") {
        return Some("meshes/actors/character/_1stperson/characters/firstperson.bin");
    }
    if str_eq(stem, "firstperson_Project") {
        return Some("meshes/actors/character/_1stperson/firstperson_Project.bin");
    }
    if str_eq(stem, "horsebehavior") {
        return Some("meshes/actors/character/_1stperson/behaviors/horsebehavior.bin");
    }
    if str_eq(stem, "idlebehavior") {
        return Some("meshes/actors/character/_1stperson/behaviors/idlebehavior.bin");
    }
    if str_eq(stem, "magicbehavior") {
        return Some("meshes/actors/character/_1stperson/behaviors/magicbehavior.bin");
    }
    if str_eq(stem, "magicmountedbehavior") {
        return Some("meshes/actors/character/_1stperson/behaviors/magicmountedbehavior.bin");
    }
    if str_eq(stem, "mt_behavior") {
        return Some("meshes/actors/character/_1stperson/behaviors/mt_behavior.bin");
    }
    if str_eq(stem, "shout_behavior") {
        return Some("meshes/actors/character/_1stperson/behaviors/shout_behavior.bin");
    }
    if str_eq(stem, "shoutmounted_behavior") {
        return Some("meshes/actors/character/_1stperson/behaviors/shoutmounted_behavior.bin");
    }
    if str_eq(stem, "sprintbehavior") {
        return Some("meshes/actors/character/_1stperson/behaviors/sprintbehavior.bin");
    }
    if str_eq(stem, "staggerbehavior") {
        return Some("meshes/actors/character/_1stperson/behaviors/staggerbehavior.bin");
    }
    if str_eq(stem, "weapequip") {
        return Some("meshes/actors/character/_1stperson/behaviors/weapequip.bin");
    }
    None
}

fn third_person_template_exec(stem: &str) -> (r: Option<&'static str>)
    ensures
        match r {
            Some(t) => third_person_template(stem@) == Some(t@),
            None => third_person_template(stem@) is None,
        },
{
    if str_eq(stem, "0_master") {
        return Some("meshes/actors/character/behaviors/0_master.bin");
    }
    if str_eq(stem, "1hm_behavior") {
        return Some("meshes/actors/character/behaviors/1hm_behavior.bin");
    }
    if str_eq(stem, "1hm_locomotion") {
        return Some("meshes/actors/character/behaviors/1hm_locomotion.bin");
    }
    if str_eq(stem, "atronachflamebehavior") {
        return Some("meshes/actors/atronachflame/behaviors/atronachflamebehavior.bin");
    }
    if str_eq(stem, "atronachfrostbehavior") {
        return Some("meshes/actors/atronachfrost/behaviors/atronachfrostbehavior.bin");
    }
    if str_eq(stem, "atronachstormbehavior") {
        return Some("meshes/actors/atronachstorm/behaviors/atronachstormbehavior.bin");
    }
    if str_eq(stem, "bashbehavior") {
        return Some("meshes/actors/character/behaviors/bashbehavior.bin");
    }
    if str_eq(stem, "bcbehavior") {
        return Some("meshes/actors/dlc02/dwarvenballistacenturion/behaviors/bcbehavior.bin");
    }
    if str_eq(stem, "bearbehavior") {
        return Some("meshes/actors/bear/behaviors/bearbehavior.bin");
    }
    if str_eq(stem, "benthiclurkerbehavior") {
        return Some("meshes/actors/dlc02/benthiclurker/behaviors/benthiclurkerbehavior.bin");
    }
    if str_eq(stem, "blockbehavior") {
        return Some("meshes/actors/character/behaviors/blockbehavior.bin");
    }
    if str_eq(stem, "boarbehavior") {
        return Some("meshes/actors/dlc02/boarriekling/behaviors/boarbehavior.bin");
    }
    if str_eq(stem, "bow_direction_behavior") {
        return Some("meshes/actors/character/behaviors/bow_direction_behavior.bin");
    }
    if str_eq(stem, "chaurusbehavior") {
        return Some("meshes/actors/chaurus/behaviors/chaurusbehavior.bin");
    }
    if str_eq(stem, "chaurusflyerbehavior") {
        return Some("meshes/actors/dlc01/chaurusflyer/behaviors/chaurusflyerbehavior.bin");
    }
    if str_eq(stem, "chickenbehavior") {
        return Some("meshes/actors/ambient/chicken/behaviors/chickenbehavior.bin");
    }
    if str_eq(stem, "crossbow_direction_behavior") {
        return Some("meshes/actors/character/behaviors/crossbow_direction_behavior.bin");
    }
    if str_eq(stem, "deerbehavior") {
        return Some("meshes/actors/deer/behaviors/deerbehavior.bin");
    }
    if str_eq(stem, "defaultfemale") {
        return Some("meshes/actors/character/characters female/defaultfemale.bin");
    }
    if str_eq(stem, "defaultmale") {
        return Some("meshes/actors/character/characters/defaultmale.bin");
    }
    if str_eq(stem, "dogbehavior") {
        return Some("meshes/actors/canine/behaviors/dogbehavior.bin");
    }
    if str_eq(stem, "dragon_priest") {
        return Some("meshes/actors/dragonpriest/behaviors/dragon_priest.bin");
    }
    if str_eq(stem, "dragonbehavior") {
        return Some("meshes/actors/dragon/behaviors/dragonbehavior.bin");
    }
    if str_eq(stem, "draugr") {
        return Some("meshes/actors/draugr/characters/draugr.bin");
    }
    if str_eq(stem, "draugr_skeleton") {
        return Some("meshes/actors/draugr/characterskeleton/draugr_skeleton.bin");
    }
    if str_eq(stem, "draugrbehavior") {
        return Some("meshes/actors/draugr/behaviors/draugrbehavior.bin");
    }
    if str_eq(stem, "dwarvenspiderbehavior") {
        return Some("meshes/actors/dwarvenspider/behaviors/dwarvenspiderbehavior.bin");
    }
    if str_eq(stem, "falmerbehavior") {
        return Some("meshes/actors/falmer/behaviors/falmerbehavior.bin");
    }
    if str_eq(stem, "frostbitespiderbehavior") {
        return Some("meshes/actors/frostbitespider/behaviors/frostbitespiderbehavior.bin");
    }
    if str_eq(stem, "giantbehavior") {
        return Some("meshes/actors/giant/behaviors/giantbehavior.bin");
    }
    if str_eq(stem, "goatbehavior") {
        return Some("meshes/actors/goat/behaviors/goatbehavior.bin");
    }
    if str_eq(stem, "h-cowbehavior") {
        return Some("meshes/actors/cow/behaviors/h-cowbehavior.bin");
    }
    if str_eq(stem, "h-cowbehavior_lod") {
        return Some("meshes/actors/cow/behaviors/h-cowbehavior_lod.bin");
    }
    if str_eq(stem, "harebehavior") {
        return Some("meshes/actors/ambient/hare/behaviors/harebehavior.bin");
    }
    if str_eq(stem, "havgravenbehavior") {
        return Some("meshes/actors/hagraven/behaviors/havgravenbehavior.bin");
    }
    if str_eq(stem, "hmdaedra") {
        return Some("meshes/actors/dlc02/hmdaedra/behaviors/hmdaedra.bin");
    }
    if str_eq(stem, "horkerbehavior") {
        return Some("meshes/actors/horker/behaviors/horkerbehavior.bin");
    }
    if str_eq(stem, "horsebehavior") {
        return Some("meshes/actors/character/behaviors/horsebehavior.bin");
    }
    if str_eq(stem, "icewraithbehavior") {
        return Some("meshes/actors/icewraith/behaviors/icewraithbehavior.bin");
    }
    if str_eq(stem, "idlebehavior") {
        return Some("meshes/actors/character/behaviors/idlebehavior.bin");
    }
    if str_eq(stem, "magic_readied_direction_behavior") {
        return Some("meshes/actors/character/behaviors/magic_readied_direction_behavior.bin");
    }
    if str_eq(stem, "magicbehavior") {
        return Some("meshes/actors/character/behaviors/magicbehavior.bin");
    }
    if str_eq(stem, "magicmountedbehavior") {
        return Some("meshes/actors/character/behaviors/magicmountedbehavior.bin");
    }
    if str_eq(stem, "mammothbehavior") {
        return Some("meshes/actors/mammoth/behaviors/mammothbehavior.bin");
    }
    if str_eq(stem, "mt_behavior") {
        return Some("meshes/actors/character/behaviors/mt_behavior.bin");
    }
    if str_eq(stem, "mudcrabbehavior") {
        return Some("meshes/actors/mudcrab/behaviors/mudcrabbehavior.bin");
    }
    if str_eq(stem, "netchbehavior") {
        return Some("meshes/actors/dlc02/netch/behaviors/netchbehavior.bin");
    }
    if str_eq(stem, "rieklingbehavior") {
        return Some("meshes/actors/dlc02/riekling/behaviors/rieklingbehavior.bin");
    }
    if str_eq(stem, "sabrecatbehavior") {
        return Some("meshes/actors/sabrecat/behaviors/sabrecatbehavior.bin");
    }
    if str_eq(stem, "scbehavior") {
        return Some("meshes/actors/dwarvenspherecenturion/behaviors/scbehavior.bin");
    }
    if str_eq(stem, "scribbehavior") {
        return Some("meshes/actors/dlc02/scrib/behaviors/scribbehavior.bin");
    }
    if str_eq(stem, "shout_behavior") {
        return Some("meshes/actors/character/behaviors/shout_behavior.bin");
    }
    if str_eq(stem, "shoutmounted_behavior") {
        return Some("meshes/actors/character/behaviors/shoutmounted_behavior.bin");
    }
    if str_eq(stem, "skeeverbehavior") {
        return Some("meshes/actors/skeever/behaviors/skeeverbehavior.bin");
    }
    if str_eq(stem, "slaughterfishbehavior") {
        return Some("meshes/actors/slaughterfish/behaviors/slaughterfishbehavior.bin");
    }
    if str_eq(stem, "sprigganbehavior") {
        return Some("meshes/actors/spriggan/behaviors/sprigganbehavior.bin");
    }
    if str_eq(stem, "sprintbehavior") {
        return Some("meshes/actors/character/behaviors/sprintbehavior.bin");
    }
    if str_eq(stem, "staggerbehavior") {
        return Some("meshes/actors/character/behaviors/staggerbehavior.bin");
    }
    if str_eq(stem, "steambehavior") {
        return Some("meshes/actors/dwarvensteamcenturion/behaviors/steambehavior.bin");
    }
    if str_eq(stem, "trollbehavior") {
        return Some("meshes/actors/troll/behaviors/trollbehavior.bin");
    }
    if str_eq(stem, "vampirebrutebehavior") {
        return Some("meshes/actors/dlc01/vampirebrute/behaviors/vampirebrutebehavior.bin");
    }
    if str_eq(stem, "weapequip") {
        return Some("meshes/actors/character/behaviors/weapequip.bin");
    }
    if str_eq(stem, "werewolf") {
        return Some("meshes/actors/werewolfbeast/characters/werewolf.bin");
    }
    if str_eq(stem, "werewolfbeastproject") {
        return Some("meshes/actors/werewolfbeast/werewolfbeastproject.bin");
    }
    if str_eq(stem, "werewolfbehavior") {
        return Some("meshes/actors/werewolfbeast/behaviors/werewolfbehavior.bin");
    }
    if str_eq(stem, "wispbehavior") {
        return Some("meshes/actors/wisp/behaviors/wispbehavior.bin");
    }
    if str_eq(stem, "witchlightbehavior") {
        return Some("meshes/actors/witchlight/behaviors/witchlightbehavior.bin");
    }
    if str_eq(stem, "wolfbehavior") {
        return Some("meshes/actors/canine/behaviors wolf/wolfbehavior.bin");
    }
    None
}

fn first_person_master_index_exec(stem: &str) -> (r: Option<MasterIndex>)
    ensures
        match r {
            Some(m) => first_person_master_index(stem@) == Some((m.master_string_data_index@, m.master_behavior_graph_index@)),
            None => first_person_master_index(stem@) is None,
        },
{
    if str_eq(stem, "0_master") {
        return Some(MasterIndex {
            master_string_data_index: "#0095",
            master_behavior_graph_index: "#0097",
        });
    }
    if str_eq(stem, "1hm_behavior") {
        return Some(MasterIndex {
            master_string_data_index: "#0085",
            master_behavior_graph_index: "#0087",
        });
    }
    if str_eq(stem, "1hm_locomotion") {
        return Some(MasterIndex {
            master_string_data_index: "#0063",
            master_behavior_graph_index: "#0065",
        });
    }
    if str_eq(stem, "bashbehavior") {
        return Some(MasterIndex {
            master_string_data_index: "#0056",
            master_behavior_graph_index: "#0058",
        });
    }
    if str_eq(stem, "blockbehavior") {
        return Some(MasterIndex {
            master_string_data_index: "#0076",
            master_behavior_graph_index: "#0078",
        });
    }
    if str_eq(stem, "bow_direction_behavior") {
        return Some(MasterIndex {
            master_string_data_index: "#0060",
            master_behavior_graph_index: "#0062",
        });
    }
    if str_eq(stem, "crossbow_direction_behavior") {
        return Some(MasterIndex {
            master_string_data_index: "#0060",
            master_behavior_graph_index: "#0062",
        });
    }
    if str_eq(stem, "horsebehavior") {
        return Some(MasterIndex {
            master_string_data_index: "#0087",
            master_behavior_graph_index: "#0089",
        });
    }
    if str_eq(stem, "idlebehavior") {
        return Some(MasterIndex {
            master_string_data_index: "#0055",
            master_behavior_graph_index: "#0057",
        });
    }
    if str_eq(stem, "magicbehavior") {
        return Some(MasterIndex {
            master_string_data_index: "#0077",
            master_behavior_graph_index: "#0079",
        });
    }
    if str_eq(stem, "magicmountedbehavior") {
        return Some(MasterIndex {
            master_string_data_index: "#0071",
            master_behavior_graph_index: "#0073",
        });
    }
    if str_eq(stem, "mt_behavior") {
        return Some(MasterIndex {
            master_string_data_index: "#0076",
            master_behavior_graph_index: "#0078",
        });
    }
    if str_eq(stem, "shout_behavior") {
        return Some(MasterIndex {
            master_string_data_index: "#0063",
            master_behavior_graph_index: "#0065",
        });
    }
    if str_eq(stem, "shoutmounted_behavior") {
        return Some(MasterIndex {
            master_string_data_index: "#0057",
            master_behavior_graph_index: "#0059",
        });
    }
    if str_eq(stem, "sprintbehavior") {
        return Some(MasterIndex {
            master_string_data_index: "#0057",
            master_behavior_graph_index: "#0059",
        });
    }
    if str_eq(stem, "staggerbehavior") {
        return Some(MasterIndex {
            master_string_data_index: "#0052",
            master_behavior_graph_index: "#0054",
        });
    }
    if str_eq(stem, "weapequip") {
        return Some(MasterIndex {
            master_string_data_index: "#0057",
            master_behavior_graph_index: "#0059",
        });
    }
    None
}

fn third_person_master_index_exec(stem: &str) -> (r: Option<MasterIndex>)
    ensures
        match r {
            Some(m) => third_person_master_index(stem@) == Some((m.master_string_data_index@, m.master_behavior_graph_index@)),
            None => third_person_master_index(stem@) is None,
        },
{
    if str_eq(stem, "0_master") {
        return Some(MasterIndex {
            master_string_data_index: "#0106",
            master_behavior_graph_index: "#0108",
        });
    }
    if str_eq(stem, "1hm_behavior") {
        return Some(MasterIndex {
            master_string_data_index: "#0085",
            master_behavior_graph_index: "#0087",
        });
    }
    if str_eq(stem, "1hm_locomotion") {
        return Some(MasterIndex {
            master_string_data_index: "#0063",
            master_behavior_graph_index: "#0065",
        });
    }
    if str_eq(stem, "atronachflamebehavior") {
        return Some(MasterIndex {
            master_string_data_index: "#0086",
            master_behavior_graph_index: "#0088",
        });
    }
    if str_eq(stem, "atronachfrostbehavior") {
        return Some(MasterIndex {
            master_string_data_index: "#0088",
            master_behavior_graph_index: "#0090",
        });
    }
    if str_eq(stem, "atronachstormbehavior") {
        return Some(MasterIndex {
            master_string_data_index: "#0083",
            master_behavior_graph_index: "#0085",
        });
    }
    if str_eq(stem, "bashbehavior") {
        return Some(MasterIndex {
            master_string_data_index: "#0056",
            master_behavior_graph_index: "#0058",
        });
    }
    if str_eq(stem, "bcbehavior") {
        return Some(MasterIndex {
            master_string_data_index: "#0088",
            master_behavior_graph_index: "#0090",
        });
    }
    if str_eq(stem, "bearbehavior") {
        return Some(MasterIndex {
            master_string_data_index: "#0078",
            master_behavior_graph_index: "#0080",
        });
    }
    if str_eq(stem, "benthiclurkerbehavior") {
        return Some(MasterIndex {
            master_string_data_index: "#0093",
            master_behavior_graph_index: "#0095",
        });
    }
    if str_eq(stem, "blockbehavior") {
        return Some(MasterIndex {
            master_string_data_index: "#0076",
            master_behavior_graph_index: "#0078",
        });
    }
    if str_eq(stem, "boarbehavior") {
        return Some(MasterIndex {
            master_string_data_index: "#0093",
            master_behavior_graph_index: "#0095",
        });
    }
    if str_eq(stem, "bow_direction_behavior") {
        return Some(MasterIndex {
            master_string_data_index: "#0060",
            master_behavior_graph_index: "#0062",
        });
    }
    if str_eq(stem, "chaurusbehavior") {
        return Some(MasterIndex {
            master_string_data_index: "#0091",
            master_behavior_graph_index: "#0093",
        });
    }
    if str_eq(stem, "chaurusflyerbehavior") {
        return Some(MasterIndex {
            master_string_data_index: "#0085",
            master_behavior_graph_index: "#0087",
        });
    }
    if str_eq(stem, "chickenbehavior") {
        return Some(MasterIndex {
            master_string_data_index: "#0085",
            master_behavior_graph_index: "#0087",
        });
    }
    if str_eq(stem, "crossbow_direction_behavior") {
        return Some(MasterIndex {
            master_string_data_index: "#0060",
            master_behavior_graph_index: "#0062",
        });
    }
    if str_eq(stem, "deerbehavior") {
        return Some(MasterIndex {
            master_string_data_index: "#0078",
            master_behavior_graph_index: "#0080",
        });
    }
    if str_eq(stem, "dogbehavior") {
        return Some(MasterIndex {
            master_string_data_index: "#0078",
            master_behavior_graph_index: "#0080",
        });
    }
    if str_eq(stem, "dragon_priest") {
        return Some(MasterIndex {
            master_string_data_index: "#0088",
            master_behavior_graph_index: "#0090",
        });
    }
    if str_eq(stem, "dragonbehavior") {
        return Some(MasterIndex {
            master_string_data_index: "#0101",
            master_behavior_graph_index: "#0103",
        });
    }
    if str_eq(stem, "draugrbehavior") {
        return Some(MasterIndex {
            master_string_data_index: "#0092",
            master_behavior_graph_index: "#0094",
        });
    }
    if str_eq(stem, "dwarvenspiderbehavior") {
        return Some(MasterIndex {
            master_string_data_index: "#0082",
            master_behavior_graph_index: "#0084",
        });
    }
    if str_eq(stem, "falmerbehavior") {
        return Some(MasterIndex {
            master_string_data_index: "#0099",
            master_behavior_graph_index: "#0101",
        });
    }
    if str_eq(stem, "frostbitespiderbehavior") {
        return Some(MasterIndex {
            master_string_data_index: "#0084",
            master_behavior_graph_index: "#0086",
        });
    }
    if str_eq(stem, "giantbehavior") {
        return Some(MasterIndex {
            master_string_data_index: "#0093",
            master_behavior_graph_index: "#0095",
        });
    }
    if str_eq(stem, "goatbehavior") {
        return Some(MasterIndex {
            master_string_data_index: "#0077",
            master_behavior_graph_index: "#0079",
        });
    }
    if str_eq(stem, "h-cowbehavior") {
        return Some(MasterIndex {
            master_string_data_index: "#0078",
            master_behavior_graph_index: "#0080",
        });
    }
    if str_eq(stem, "h-cowbehavior_lod") {
        return Some(MasterIndex {
            master_string_data_index: "#0078",
            master_behavior_graph_index: "#0080",
        });
    }
    if str_eq(stem, "harebehavior") {
        return Some(MasterIndex {
            master_string_data_index: "#0085",
            master_behavior_graph_index: "#0087",
        });
    }
    if str_eq(stem, "havgravenbehavior") {
        return Some(MasterIndex {
            master_string_data_index: "#0088",
            master_behavior_graph_index: "#0090",
        });
    }
    if str_eq(stem, "hmdaedra") {
        return Some(MasterIndex {
            master_string_data_index: "#0086",
            master_behavior_graph_index: "#0088",
        });
    }
    if str_eq(stem, "horkerbehavior") {
        return Some(MasterIndex {
            master_string_data_index: "#0078",
            master_behavior_graph_index: "#0080",
        });
    }
    if str_eq(stem, "horsebehavior") {
        return Some(MasterIndex {
            master_string_data_index: "#0087",
            master_behavior_graph_index: "#0089",
        });
    }
    if str_eq(stem, "icewraithbehavior") {
        return Some(MasterIndex {
            master_string_data_index: "#0079",
            master_behavior_graph_index: "#0081",
        });
    }
    if str_eq(stem, "idlebehavior") {
        return Some(MasterIndex {
            master_string_data_index: "#0062",
            master_behavior_graph_index: "#0064",
        });
    }
    if str_eq(stem, "magic_readied_direction_behavior") {
        return Some(MasterIndex {
            master_string_data_index: "#0054",
            master_behavior_graph_index: "#0056",
        });
    }
    if str_eq(stem, "magicbehavior") {
        return Some(MasterIndex {
            master_string_data_index: "#0077",
            master_behavior_graph_index: "#0079",
        });
    }
    if str_eq(stem, "magicmountedbehavior") {
        return Some(MasterIndex {
            master_string_data_index: "#0071",
            master_behavior_graph_index: "#0073",
        });
    }
    if str_eq(stem, "mammothbehavior") {
        return Some(MasterIndex {
            master_string_data_index: "#0078",
            master_behavior_graph_index: "#0080",
        });
    }
    if str_eq(stem, "mt_behavior") {
        return Some(MasterIndex {
            master_string_data_index: "#0083",
            master_behavior_graph_index: "#0085",
        });
    }
    if str_eq(stem, "mudcrabbehavior") {
        return Some(MasterIndex {
            master_string_data_index: "#0086",
            master_behavior_graph_index: "#0088",
        });
    }
    if str_eq(stem, "netchbehavior") {
        return Some(MasterIndex {
            master_string_data_index: "#0081",
            master_behavior_graph_index: "#0083",
        });
    }
    if str_eq(stem, "rieklingbehavior") {
        return Some(MasterIndex {
            master_string_data_index: "#0095",
            master_behavior_graph_index: "#0097",
        });
    }
    if str_eq(stem, "sabrecatbehavior") {
        return Some(MasterIndex {
            master_string_data_index: "#0077",
            master_behavior_graph_index: "#0079",
        });
    }
    if str_eq(stem, "scbehavior") {
        return Some(MasterIndex {
            master_string_data_index: "#0085",
            master_behavior_graph_index: "#0087",
        });
    }
    if str_eq(stem, "scribbehavior") {
        return Some(MasterIndex {
            master_string_data_index: "#0094",
            master_behavior_graph_index: "#0096",
        });
    }
    if str_eq(stem, "shout_behavior") {
        return Some(MasterIndex {
            master_string_data_index: "#0063",
            master_behavior_graph_index: "#0065",
        });
    }
    if str_eq(stem, "shoutmounted_behavior") {
        return Some(MasterIndex {
            master_string_data_index: "#0057",
            master_behavior_graph_index: "#0059",
        });
    }
    if str_eq(stem, "skeeverbehavior") {
        return Some(MasterIndex {
            master_string_data_index: "#0077",
            master_behavior_graph_index: "#0079",
        });
    }
    if str_eq(stem, "slaughterfishbehavior") {
        return Some(MasterIndex {
            master_string_data_index: "#0081",
            master_behavior_graph_index: "#0083",
        });
    }
    if str_eq(stem, "sprigganbehavior") {
        return Some(MasterIndex {
            master_string_data_index: "#0090",
            master_behavior_graph_index: "#0092",
        });
    }
    if str_eq(stem, "sprintbehavior") {
        return Some(MasterIndex {
            master_string_data_index: "#0057",
            master_behavior_graph_index: "#0059",
        });
    }
    if str_eq(stem, "staggerbehavior") {
        return Some(MasterIndex {
            master_string_data_index: "#0052",
            master_behavior_graph_index: "#0054",
        });
    }
    if str_eq(stem, "steambehavior") {
        return Some(MasterIndex {
            master_string_data_index: "#0085",
            master_behavior_graph_index: "#0087",
        });
    }
    if str_eq(stem, "trollbehavior") {
        return Some(MasterIndex {
            master_string_data_index: "#0089",
            master_behavior_graph_index: "#0091",
        });
    }
    if str_eq(stem, "vampirebrutebehavior") {
        return Some(MasterIndex {
            master_string_data_index: "#0093",
            master_behavior_graph_index: "#0095",
        });
    }
    if str_eq(stem, "weapequip") {
        return Some(MasterIndex {
            master_string_data_index: "#0057",
            master_behavior_graph_index: "#0059",
        });
    }
    if str_eq(stem, "werewolfbehavior") {
        return Some(MasterIndex {
            master_string_data_index: "#0096",
            master_behavior_graph_index: "#0098",
        });
    }
    if str_eq(stem, "wispbehavior") {
        return Some(MasterIndex {
            master_string_data_index: "#0086",
            master_behavior_graph_index: "#0088",
        });
    }
    if str_eq(stem, "witchlightbehavior") {
        return Some(MasterIndex {
            master_string_data_index: "#0064",
            master_behavior_graph_index: "#0066",
        });
    }
    if str_eq(stem, "wolfbehavior") {
        return Some(MasterIndex {
            master_string_data_index: "#0078",
            master_behavior_graph_index: "#0080",
        });
    }
    None
}

/// `t` is a path whose last component is `<stem>.bin`, `stem` holding no `/`.
pub open spec fn names_file(t: Seq<char>, stem: Seq<char>) -> bool {
    &&& t.len() >= stem.len() + 5
    &&& t.subrange(t.len() - stem.len() - 5, t.len() as int) == "/"@ + stem + ".bin"@
    &&& forall|i: int| 0 <= i < stem.len() ==> stem[i] != '/'
}

/// `t` begins with `pre`.
pub open spec fn has_prefix_text(t: Seq<char>, pre: Seq<char>) -> bool {
    t.len() >= pre.len() && t.subrange(0, pre.len() as int) == pre
}

/// The template of a Nemesis file stem is the file `<stem>.bin` under `meshes/actors/`
/// (under `meshes/actors/character/_1stperson/` in 1st person).
pub proof fn lemma_template_names_its_stem(stem: Seq<char>, is_1st_person: bool)
    ensures
        template_of(stem, is_1st_person) matches Some(t) ==> names_file(t, stem) && has_prefix_text(
            t,
            "meshes/actors/"@,
        ) && (is_1st_person ==> has_prefix_text(t, "meshes/actors/character/_1stperson/"@)),
{
    reveal_strlit("/");
    reveal_strlit(".bin");
    reveal_strlit("meshes/actors/");
    reveal_strlit("meshes/actors/character/_1stperson/");
    lemma_third_person_template_0();
    lemma_third_person_template_1();
    lemma_third_person_template_2();
    lemma_third_person_template_3();
    lemma_third_person_template_4();
    lemma_third_person_template_5();
    lemma_third_person_template_6();
    lemma_third_person_template_7();
    lemma_third_person_template_8();
    lemma_third_person_template_9();
    lemma_third_person_template_10();
    lemma_third_person_template_11();
    lemma_third_person_template_12();
    lemma_third_person_template_13();
    lemma_third_person_template_14();
    lemma_third_person_template_15();
    lemma_third_person_template_16();
    lemma_third_person_template_17();
    lemma_third_person_template_18();
    lemma_third_person_template_19();
    lemma_third_person_template_20();
    lemma_third_person_template_21();
    lemma_third_person_template_22();
    lemma_third_person_template_23();
    lemma_third_person_template_24();
    lemma_third_person_template_25();
    lemma_third_person_template_26();
    lemma_third_person_template_27();
    lemma_third_person_template_28();
    lemma_third_person_template_29();
    lemma_third_person_template_30();
    lemma_third_person_template_31();
    lemma_third_person_template_32();
    lemma_third_person_template_33();
    lemma_third_person_template_34();
    lemma_third_person_template_35();
    lemma_third_person_template_36();
    lemma_third_person_template_37();
    lemma_third_person_template_38();
    lemma_third_person_template_39();
    lemma_third_person_template_40();
    lemma_third_person_template_41();
    lemma_third_person_template_42();
    lemma_third_person_template_43();
    lemma_third_person_template_44();
    lemma_third_person_template_45();
    lemma_third_person_template_46();
    lemma_third_person_template_47();
    lemma_third_person_template_48();
    lemma_third_person_template_49();
    lemma_third_person_template_50();
    lemma_third_person_template_51();
    lemma_third_person_template_52();
    lemma_third_person_template_53();
    lemma_third_person_template_54();
    lemma_third_person_template_55();
    lemma_third_person_template_56();
    lemma_third_person_template_57();
    lemma_third_person_template_58();
    lemma_third_person_template_59();
    lemma_third_person_template_60();
    lemma_third_person_template_61();
    lemma_third_person_template_62();
    lemma_third_person_template_63();
    lemma_third_person_template_64();
    lemma_third_person_template_65();
    lemma_third_person_template_66();
    lemma_third_person_template_67();
    lemma_first_person_template_0();
    lemma_first_person_template_1();
    lemma_first_person_template_2();
    lemma_first_person_template_3();
    lemma_first_person_template_4();
    lemma_first_person_template_5();
    lemma_first_person_template_6();
    lemma_first_person_template_7();
    lemma_first_person_template_8();
    lemma_first_person_template_9();
    lemma_first_person_template_10();
    lemma_first_person_template_11();
    lemma_first_person_template_12();
    lemma_first_person_template_13();
    lemma_first_person_template_14();
    lemma_first_person_template_15();
    lemma_first_person_template_16();
    lemma_first_person_template_17();
    lemma_first_person_template_18();
}

/// A path names at most one file stem.
proof fn lemma_names_file_unique(t: Seq<char>, a: Seq<char>, b: Seq<char>)
    requires
        names_file(t, a),
        names_file(t, b),
    ensures
        a == b,
{
    reveal_strlit("/");
    reveal_strlit(".bin");
    let sa = "/"@ + a + ".bin"@;
    let sb = "/"@ + b + ".bin"@;
    let qa = t.len() - a.len() - 5;
    let qb = t.len() - b.len() - 5;
    assert(t[qa] == sa[0]);
    assert(t[qb] == sb[0]);
    if a.len() < b.len() {
        let j = b.len() - a.len() - 1;
        assert(t[qa] == sb[qa - qb]);
        assert(sb[qa - qb] == b[j]);
    } else if b.len() < a.len() {
        let j = a.len() - b.len() - 1;
        assert(t[qb] == sa[qb - qa]);
        assert(sa[qb - qa] == a[j]);
    } else {
        assert forall|i: int| 0 <= i < a.len() implies a[i] == b[i] by {
            assert(t[qa + 1 + i] == sa[1 + i]);
            assert(t[qb + 1 + i] == sb[1 + i]);
        }
        assert(a =~= b);
    }
}

/// Different Nemesis file stems name different templates.
pub proof fn lemma_template_of_injective(a: Seq<char>, b: Seq<char>, is_1st_person: bool)
    ensures
        template_of(a, is_1st_person) is Some && template_of(a, is_1st_person) == template_of(b, is_1st_person)
            ==> a == b,
{
    lemma_template_names_its_stem(a, is_1st_person);
    lemma_template_names_its_stem(b, is_1st_person);
    if template_of(a, is_1st_person) is Some && template_of(a, is_1st_person) == template_of(b, is_1st_person) {
        lemma_names_file_unique(template_of(a, is_1st_person)->0, a, b);
    }
}

proof fn lemma_third_person_template_0()
    ensures
        names_file("meshes/actors/character/behaviors/0_master.bin"@, "0_master"@),
        has_prefix_text("meshes/actors/character/behaviors/0_master.bin"@, "meshes/actors/"@),
{
    reveal_strlit("/");
    reveal_strlit(".bin");
    reveal_strlit("meshes/actors/");
    reveal_strlit("meshes/actors/character/behaviors/0_master.bin");
    reveal_strlit("0_master");
    assert("meshes/actors/character/behaviors/0_master.bin"@.subrange(33, 46) =~= "/"@ + "0_master"@ + ".bin"@);
    assert("meshes/actors/character/behaviors/0_master.bin"@.subrange(0, 14) =~= "meshes/actors/"@);
}

proof fn lemma_third_person_template_1()
    ensures
        names_file("meshes/actors/character/behaviors/1hm_behavior.bin"@, "1hm_behavior"@),
        has_prefix_text("meshes/actors/character/behaviors/1hm_behavior.bin"@, "meshes/actors/"@),
{
    reveal_strlit("/");
    reveal_strlit(".bin");
    reveal_strlit("meshes/actors/");
    reveal_strlit("meshes/actors/character/behaviors/1hm_behavior.bin");
    reveal_strlit("1hm_behavior");
    assert("meshes/actors/character/behaviors/1hm_behavior.bin"@.subrange(33, 50) =~= "/"@ + "1hm_behavior"@ + ".bin"@);
    assert("meshes/actors/character/behaviors/1hm_behavior.bin"@.subrange(0, 14) =~= "meshes/actors/"@);
}

proof fn lemma_third_person_template_2()
    ensures
        names_file("meshes/actors/character/behaviors/1hm_locomotion.bin"@, "1hm_locomotion"@),
        has_prefix_text("meshes/actors/character/behaviors/1hm_locomotion.bin"@, "meshes/actors/"@),
{
    reveal_strlit("/");
    reveal_strlit(".bin");
    reveal_strlit("meshes/actors/");
    reveal_strlit("meshes/actors/character/behaviors/1hm_locomotion.bin");
    reveal_strlit("1hm_locomotion");
    assert("meshes/actors/character/behaviors/1hm_locomotion.bin"@.subrange(33, 52) =~= "/"@ + "1hm_locomotion"@ + ".bin"@);
    assert("meshes/actors/character/behaviors/1hm_locomotion.bin"@.subrange(0, 14) =~= "meshes/actors/"@);
}

proof fn lemma_third_person_template_3()
    ensures
        names_file("meshes/actors/atronachflame/behaviors/atronachflamebehavior.bin"@, "atronachflamebehavior"@),
        has_prefix_text("meshes/actors/atronachflame/behaviors/atronachflamebehavior.bin"@, "meshes/actors/"@),
{
    reveal_strlit("/");
    reveal_strlit(".bin");
    reveal_strlit("meshes/actors/");
    reveal_strlit("meshes/actors/atronachflame/behaviors/atronachflamebehavior.bin");
    reveal_strlit("atronachflamebehavior");
    assert("meshes/actors/atronachflame/behaviors/atronachflamebehavior.bin"@.subrange(37, 63) =~= "/"@ + "atronachflamebehavior"@ + ".bin"@);
    assert("meshes/actors/atronachflame/behaviors/atronachflamebehavior.bin"@.subrange(0, 14) =~= "meshes/actors/"@);
}

proof fn lemma_third_person_template_4()
    ensures
        names_file("meshes/actors/atronachfrost/behaviors/atronachfrostbehavior.bin"@, "atronachfrostbehavior"@),
        has_prefix_text("meshes/actors/atronachfrost/behaviors/atronachfrostbehavior.bin"@, "meshes/actors/"@),
{
    reveal_strlit("/");
    reveal_strlit(".bin");
    reveal_strlit("meshes/actors/");
    reveal_strlit("meshes/actors/atronachfrost/behaviors/atronachfrostbehavior.bin");
    reveal_strlit("atronachfrostbehavior");
    assert("meshes/actors/atronachfrost/behaviors/atronachfrostbehavior.bin"@.subrange(37, 63) =~= "/"@ + "atronachfrostbehavior"@ + ".bin"@);
    assert("meshes/actors/atronachfrost/behaviors/atronachfrostbehavior.bin"@.subrange(0, 14) =~= "meshes/actors/"@);
}

proof fn lemma_third_person_template_5()
    ensures
        names_file("meshes/actors/atronachstorm/behaviors/atronachstormbehavior.bin"@, "atronachstormbehavior"@),
        has_prefix_text("meshes/actors/atronachstorm/behaviors/atronachstormbehavior.bin"@, "meshes/actors/"@),
{
    reveal_strlit("/");
    reveal_strlit(".bin");
    reveal_strlit("meshes/actors/");
    reveal_strlit("meshes/actors/atronachstorm/behaviors/atronachstormbehavior.bin");
    reveal_strlit("atronachstormbehavior");
    assert("meshes/actors/atronachstorm/behaviors/atronachstormbehavior.bin"@.subrange(37, 63) =~= "/"@ + "atronachstormbehavior"@ + ".bin"@);
    assert("meshes/actors/atronachstorm/behaviors/atronachstormbehavior.bin"@.subrange(0, 14) =~= "meshes/actors/"@);
}

proof fn lemma_third_person_template_6()
    ensures
        names_file("meshes/actors/character/behaviors/bashbehavior.bin"@, "bashbehavior"@),
        has_prefix_text("meshes/actors/character/behaviors/bashbehavior.bin"@, "meshes/actors/"@),
{
    reveal_strlit("/");
    reveal_strlit(".bin");
    reveal_strlit("meshes/actors/");
    reveal_strlit("meshes/actors/character/behaviors/bashbehavior.bin");
    reveal_strlit("bashbehavior");
    assert("meshes/actors/character/behaviors/bashbehavior.bin"@.subrange(33, 50) =~= "/"@ + "bashbehavior"@ + ".bin"@);
    assert("meshes/actors/character/behaviors/bashbehavior.bin"@.subrange(0, 14) =~= "meshes/actors/"@);
}

proof fn lemma_third_person_template_7()
    ensures
        names_file("meshes/actors/dlc02/dwarvenballistacenturion/behaviors/bcbehavior.bin"@, "bcbehavior"@),
        has_prefix_text("meshes/actors/dlc02/dwarvenballistacenturion/behaviors/bcbehavior.bin"@, "meshes/actors/"@),
{
    reveal_strlit("/");
    reveal_strlit(".bin");
    reveal_strlit("meshes/actors/");
    reveal_strlit("meshes/actors/dlc02/dwarvenballistacenturion/behaviors/bcbehavior.bin");
    reveal_strlit("bcbehavior");
    assert("meshes/actors/dlc02/dwarvenballistacenturion/behaviors/bcbehavior.bin"@.subrange(54, 69) =~= "/"@ + "bcbehavior"@ + ".bin"@);
    assert("meshes/actors/dlc02/dwarvenballistacenturion/behaviors/bcbehavior.bin"@.subrange(0, 14) =~= "meshes/actors/"@);
}

proof fn lemma_third_person_template_8()
    ensures
        names_file("meshes/actors/bear/behaviors/bearbehavior.bin"@, "bearbehavior"@),
        has_prefix_text("meshes/actors/bear/behaviors/bearbehavior.bin"@, "meshes/actors/"@),
{
    reveal_strlit("/");
    reveal_strlit(".bin");
    reveal_strlit("meshes/actors/");
    reveal_strlit("meshes/actors/bear/behaviors/bearbehavior.bin");
    reveal_strlit("bearbehavior");
    assert("meshes/actors/bear/behaviors/bearbehavior.bin"@.subrange(28, 45) =~= "/"@ + "bearbehavior"@ + ".bin"@);
    assert("meshes/actors/bear/behaviors/bearbehavior.bin"@.subrange(0, 14) =~= "meshes/actors/"@);
}

proof fn lemma_third_person_template_9()
    ensures
        names_file("meshes/actors/dlc02/benthiclurker/behaviors/benthiclurkerbehavior.bin"@, "benthiclurkerbehavior"@),
        has_prefix_text("meshes/actors/dlc02/benthiclurker/behaviors/benthiclurkerbehavior.bin"@, "meshes/actors/"@),
{
    reveal_strlit("/");
    reveal_strlit(".bin");
    reveal_strlit("meshes/actors/");
    reveal_strlit("meshes/actors/dlc02/benthiclurker/behaviors/benthiclurkerbehavior.bin");
    reveal_strlit("benthiclurkerbehavior");
    assert("meshes/actors/dlc02/benthiclurker/behaviors/benthiclurkerbehavior.bin"@.subrange(43, 69) =~= "/"@ + "benthiclurkerbehavior"@ + ".bin"@);
    assert("meshes/actors/dlc02/benthiclurker/behaviors/benthiclurkerbehavior.bin"@.subrange(0, 14) =~= "meshes/actors/"@);
}

proof fn lemma_third_person_template_10()
    ensures
        names_file("meshes/actors/character/behaviors/blockbehavior.bin"@, "blockbehavior"@),
        has_prefix_text("meshes/actors/character/behaviors/blockbehavior.bin"@, "meshes/actors/"@),
{
    reveal_strlit("/");
    reveal_strlit(".bin");
    reveal_strlit("meshes/actors/");
    reveal_strlit("meshes/actors/character/behaviors/blockbehavior.bin");
    reveal_strlit("blockbehavior");
    assert("meshes/actors/character/behaviors/blockbehavior.bin"@.subrange(33, 51) =~= "/"@ + "blockbehavior"@ + ".bin"@);
    assert("meshes/actors/character/behaviors/blockbehavior.bin"@.subrange(0, 14) =~= "meshes/actors/"@);
}

proof fn lemma_third_person_template_11()
    ensures
        names_file("meshes/actors/dlc02/boarriekling/behaviors/boarbehavior.bin"@, "boarbehavior"@),
        has_prefix_text("meshes/actors/dlc02/boarriekling/behaviors/boarbehavior.bin"@, "meshes/actors/"@),
{
    reveal_strlit("/");
    reveal_strlit(".bin");
    reveal_strlit("meshes/actors/");
    reveal_strlit("meshes/actors/dlc02/boarriekling/behaviors/boarbehavior.bin");
    reveal_strlit("boarbehavior");
    assert("meshes/actors/dlc02/boarriekling/behaviors/boarbehavior.bin"@.subrange(42, 59) =~= "/"@ + "boarbehavior"@ + ".bin"@);
    assert("meshes/actors/dlc02/boarriekling/behaviors/boarbehavior.bin"@.subrange(0, 14) =~= "meshes/actors/"@);
}

proof fn lemma_third_person_template_12()
    ensures
        names_file("meshes/actors/character/behaviors/bow_direction_behavior.bin"@, "bow_direction_behavior"@),
        has_prefix_text("meshes/actors/character/behaviors/bow_direction_behavior.bin"@, "meshes/actors/"@),
{
    reveal_strlit("/");
    reveal_strlit(".bin");
    reveal_strlit("meshes/actors/");
    reveal_strlit("meshes/actors/character/behaviors/bow_direction_behavior.bin");
    reveal_strlit("bow_direction_behavior");
    assert("meshes/actors/character/behaviors/bow_direction_behavior.bin"@.subrange(33, 60) =~= "/"@ + "bow_direction_behavior"@ + ".bin"@);
    assert("meshes/actors/character/behaviors/bow_direction_behavior.bin"@.subrange(0, 14) =~= "meshes/actors/"@);
}

proof fn lemma_third_person_template_13()
    ensures
        names_file("meshes/actors/chaurus/behaviors/chaurusbehavior.bin"@, "chaurusbehavior"@),
        has_prefix_text("meshes/actors/chaurus/behaviors/chaurusbehavior.bin"@, "meshes/actors/"@),
{
    reveal_strlit("/");
    reveal_strlit(".bin");
    reveal_strlit("meshes/actors/");
    reveal_strlit("meshes/actors/chaurus/behaviors/chaurusbehavior.bin");
    reveal_strlit("chaurusbehavior");
    assert("meshes/actors/chaurus/behaviors/chaurusbehavior.bin"@.subrange(31, 51) =~= "/"@ + "chaurusbehavior"@ + ".bin"@);
    assert("meshes/actors/chaurus/behaviors/chaurusbehavior.bin"@.subrange(0, 14) =~= "meshes/actors/"@);
}

proof fn lemma_third_person_template_14()
    ensures
        names_file("meshes/actors/dlc01/chaurusflyer/behaviors/chaurusflyerbehavior.bin"@, "chaurusflyerbehavior"@),
        has_prefix_text("meshes/actors/dlc01/chaurusflyer/behaviors/chaurusflyerbehavior.bin"@, "meshes/actors/"@),
{
    reveal_strlit("/");
    reveal_strlit(".bin");
    reveal_strlit("meshes/actors/");
    reveal_strlit("meshes/actors/dlc01/chaurusflyer/behaviors/chaurusflyerbehavior.bin");
    reveal_strlit("chaurusflyerbehavior");
    assert("meshes/actors/dlc01/chaurusflyer/behaviors/chaurusflyerbehavior.bin"@.subrange(42, 67) =~= "/"@ + "chaurusflyerbehavior"@ + ".bin"@);
    assert("meshes/actors/dlc01/chaurusflyer/behaviors/chaurusflyerbehavior.bin"@.subrange(0, 14) =~= "meshes/actors/"@);
}

proof fn lemma_third_person_template_15()
    ensures
        names_file("meshes/actors/ambient/chicken/behaviors/chickenbehavior.bin"@, "chickenbehavior"@),
        has_prefix_text("meshes/actors/ambient/chicken/behaviors/chickenbehavior.bin"@, "meshes/actors/"@),
{
    reveal_strlit("/");
    reveal_strlit(".bin");
    reveal_strlit("meshes/actors/");
    reveal_strlit("meshes/actors/ambient/chicken/behaviors/chickenbehavior.bin");
    reveal_strlit("chickenbehavior");
    assert("meshes/actors/ambient/chicken/behaviors/chickenbehavior.bin"@.subrange(39, 59) =~= "/"@ + "chickenbehavior"@ + ".bin"@);
    assert("meshes/actors/ambient/chicken/behaviors/chickenbehavior.bin"@.subrange(0, 14) =~= "meshes/actors/"@);
}

proof fn lemma_third_person_template_16()
    ensures
        names_file("meshes/actors/character/behaviors/crossbow_direction_behavior.bin"@, "crossbow_direction_behavior"@),
        has_prefix_text("meshes/actors/character/behaviors/crossbow_direction_behavior.bin"@, "meshes/actors/"@),
{
    reveal_strlit("/");
    reveal_strlit(".bin");
    reveal_strlit("meshes/actors/");
    reveal_strlit("meshes/actors/character/behaviors/crossbow_direction_behavior.bin");
    reveal_strlit("crossbow_direction_behavior");
    assert("meshes/actors/character/behaviors/crossbow_direction_behavior.bin"@.subrange(33, 65) =~= "/"@ + "crossbow_direction_behavior"@ + ".bin"@);
    assert("meshes/actors/character/behaviors/crossbow_direction_behavior.bin"@.subrange(0, 14) =~= "meshes/actors/"@);
}

proof fn lemma_third_person_template_17()
    ensures
        names_file("meshes/actors/deer/behaviors/deerbehavior.bin"@, "deerbehavior"@),
        has_prefix_text("meshes/actors/deer/behaviors/deerbehavior.bin"@, "meshes/actors/"@),
{
    reveal_strlit("/");
    reveal_strlit(".bin");
    reveal_strlit("meshes/actors/");
    reveal_strlit("meshes/actors/deer/behaviors/deerbehavior.bin");
    reveal_strlit("deerbehavior");
    assert("meshes/actors/deer/behaviors/deerbehavior.bin"@.subrange(28, 45) =~= "/"@ + "deerbehavior"@ + ".bin"@);
    assert("meshes/actors/deer/behaviors/deerbehavior.bin"@.subrange(0, 14) =~= "meshes/actors/"@);
}

proof fn lemma_third_person_template_18()
    ensures
        names_file("meshes/actors/character/characters female/defaultfemale.bin"@, "defaultfemale"@),
        has_prefix_text("meshes/actors/character/characters female/defaultfemale.bin"@, "meshes/actors/"@),
{
    reveal_strlit("/");
    reveal_strlit(".bin");
    reveal_strlit("meshes/actors/");
    reveal_strlit("meshes/actors/character/characters female/defaultfemale.bin");
    reveal_strlit("defaultfemale");
    assert("meshes/actors/character/characters female/defaultfemale.bin"@.subrange(41, 59) =~= "/"@ + "defaultfemale"@ + ".bin"@);
    assert("meshes/actors/character/characters female/defaultfemale.bin"@.subrange(0, 14) =~= "meshes/actors/"@);
}

proof fn lemma_third_person_template_19()
    ensures
        names_file("meshes/actors/character/characters/defaultmale.bin"@, "defaultmale"@),
        has_prefix_text("meshes/actors/character/characters/defaultmale.bin"@, "meshes/actors/"@),
{
    reveal_strlit("/");
    reveal_strlit(".bin");
    reveal_strlit("meshes/actors/");
    reveal_strlit("meshes/actors/character/characters/defaultmale.bin");
    reveal_strlit("defaultmale");
    assert("meshes/actors/character/characters/defaultmale.bin"@.subrange(34, 50) =~= "/"@ + "defaultmale"@ + ".bin"@);
    assert("meshes/actors/character/characters/defaultmale.bin"@.subrange(0, 14) =~= "meshes/actors/"@);
}

proof fn lemma_third_person_template_20()
    ensures
        names_file("meshes/actors/canine/behaviors/dogbehavior.bin"@, "dogbehavior"@),
        has_prefix_text("meshes/actors/canine/behaviors/dogbehavior.bin"@, "meshes/actors/"@),
{
    reveal_strlit("/");
    reveal_strlit(".bin");
    reveal_strlit("meshes/actors/");
    reveal_strlit("meshes/actors/canine/behaviors/dogbehavior.bin");
    reveal_strlit("dogbehavior");
    assert("meshes/actors/canine/behaviors/dogbehavior.bin"@.subrange(30, 46) =~= "/"@ + "dogbehavior"@ + ".bin"@);
    assert("meshes/actors/canine/behaviors/dogbehavior.bin"@.subrange(0, 14) =~= "meshes/actors/"@);
}

proof fn lemma_third_person_template_21()
    ensures
        names_file("meshes/actors/dragonpriest/behaviors/dragon_priest.bin"@, "dragon_priest"@),
        has_prefix_text("meshes/actors/dragonpriest/behaviors/dragon_priest.bin"@, "meshes/actors/"@),
{
    reveal_strlit("/");
    reveal_strlit(".bin");
    reveal_strlit("meshes/actors/");
    reveal_strlit("meshes/actors/dragonpriest/behaviors/dragon_priest.bin");
    reveal_strlit("dragon_priest");
    assert("meshes/actors/dragonpriest/behaviors/dragon_priest.bin"@.subrange(36, 54) =~= "/"@ + "dragon_priest"@ + ".bin"@);
    assert("meshes/actors/dragonpriest/behaviors/dragon_priest.bin"@.subrange(0, 14) =~= "meshes/actors/"@);
}

proof fn lemma_third_person_template_22()
    ensures
        names_file("meshes/actors/dragon/behaviors/dragonbehavior.bin"@, "dragonbehavior"@),
        has_prefix_text("meshes/actors/dragon/behaviors/dragonbehavior.bin"@, "meshes/actors/"@),
{
    reveal_strlit("/");
    reveal_strlit(".bin");
    reveal_strlit("meshes/actors/");
    reveal_strlit("meshes/actors/dragon/behaviors/dragonbehavior.bin");
    reveal_strlit("dragonbehavior");
    assert("meshes/actors/dragon/behaviors/dragonbehavior.bin"@.subrange(30, 49) =~= "/"@ + "dragonbehavior"@ + ".bin"@);
    assert("meshes/actors/dragon/behaviors/dragonbehavior.bin"@.subrange(0, 14) =~= "meshes/actors/"@);
}

proof fn lemma_third_person_template_23()
    ensures
        names_file("meshes/actors/draugr/characters/draugr.bin"@, "draugr"@),
        has_prefix_text("meshes/actors/draugr/characters/draugr.bin"@, "meshes/actors/"@),
{
    reveal_strlit("/");
    reveal_strlit(".bin");
    reveal_strlit("meshes/actors/");
    reveal_strlit("meshes/actors/draugr/characters/draugr.bin");
    reveal_strlit("draugr");
    assert("meshes/actors/draugr/characters/draugr.bin"@.subrange(31, 42) =~= "/"@ + "draugr"@ + ".bin"@);
    assert("meshes/actors/draugr/characters/draugr.bin"@.subrange(0, 14) =~= "meshes/actors/"@);
}

proof fn lemma_third_person_template_24()
    ensures
        names_file("meshes/actors/draugr/characterskeleton/draugr_skeleton.bin"@, "draugr_skeleton"@),
        has_prefix_text("meshes/actors/draugr/characterskeleton/draugr_skeleton.bin"@, "meshes/actors/"@),
{
    reveal_strlit("/");
    reveal_strlit(".bin");
    reveal_strlit("meshes/actors/");
    reveal_strlit("meshes/actors/draugr/characterskeleton/draugr_skeleton.bin");
    reveal_strlit("draugr_skeleton");
    assert("meshes/actors/draugr/characterskeleton/draugr_skeleton.bin"@.subrange(38, 58) =~= "/"@ + "draugr_skeleton"@ + ".bin"@);
    assert("meshes/actors/draugr/characterskeleton/draugr_skeleton.bin"@.subrange(0, 14) =~= "meshes/actors/"@);
}

proof fn lemma_third_person_template_25()
    ensures
        names_file("meshes/actors/draugr/behaviors/draugrbehavior.bin"@, "draugrbehavior"@),
        has_prefix_text("meshes/actors/draugr/behaviors/draugrbehavior.bin"@, "meshes/actors/"@),
{
    reveal_strlit("/");
    reveal_strlit(".bin");
    reveal_strlit("meshes/actors/");
    reveal_strlit("meshes/actors/draugr/behaviors/draugrbehavior.bin");
    reveal_strlit("draugrbehavior");
    assert("meshes/actors/draugr/behaviors/draugrbehavior.bin"@.subrange(30, 49) =~= "/"@ + "draugrbehavior"@ + ".bin"@);
    assert("meshes/actors/draugr/behaviors/draugrbehavior.bin"@.subrange(0, 14) =~= "meshes/actors/"@);
}

proof fn lemma_third_person_template_26()
    ensures
        names_file("meshes/actors/dwarvenspider/behaviors/dwarvenspiderbehavior.bin"@, "dwarvenspiderbehavior"@),
        has_prefix_text("meshes/actors/dwarvenspider/behaviors/dwarvenspiderbehavior.bin"@, "meshes/actors/"@),
{
    reveal_strlit("/");
    reveal_strlit(".bin");
    reveal_strlit("meshes/actors/");
    reveal_strlit("meshes/actors/dwarvenspider/behaviors/dwarvenspiderbehavior.bin");
    reveal_strlit("dwarvenspiderbehavior");
    assert("meshes/actors/dwarvenspider/behaviors/dwarvenspiderbehavior.bin"@.subrange(37, 63) =~= "/"@ + "dwarvenspiderbehavior"@ + ".bin"@);
    assert("meshes/actors/dwarvenspider/behaviors/dwarvenspiderbehavior.bin"@.subrange(0, 14) =~= "meshes/actors/"@);
}

proof fn lemma_third_person_template_27()
    ensures
        names_file("meshes/actors/falmer/behaviors/falmerbehavior.bin"@, "falmerbehavior"@),
        has_prefix_text("meshes/actors/falmer/behaviors/falmerbehavior.bin"@, "meshes/actors/"@),
{
    reveal_strlit("/");
    reveal_strlit(".bin");
    reveal_strlit("meshes/actors/");
    reveal_strlit("meshes/actors/falmer/behaviors/falmerbehavior.bin");
    reveal_strlit("falmerbehavior");
    assert("meshes/actors/falmer/behaviors/falmerbehavior.bin"@.subrange(30, 49) =~= "/"@ + "falmerbehavior"@ + ".bin"@);
    assert("meshes/actors/falmer/behaviors/falmerbehavior.bin"@.subrange(0, 14) =~= "meshes/actors/"@);
}

proof fn lemma_third_person_template_28()
    ensures
        names_file("meshes/actors/frostbitespider/behaviors/frostbitespiderbehavior.bin"@, "frostbitespiderbehavior"@),
        has_prefix_text("meshes/actors/frostbitespider/behaviors/frostbitespiderbehavior.bin"@, "meshes/actors/"@),
{
    reveal_strlit("/");
    reveal_strlit(".bin");
    reveal_strlit("meshes/actors/");
    reveal_strlit("meshes/actors/frostbitespider/behaviors/frostbitespiderbehavior.bin");
    reveal_strlit("frostbitespiderbehavior");
    assert("meshes/actors/frostbitespider/behaviors/frostbitespiderbehavior.bin"@.subrange(39, 67) =~= "/"@ + "frostbitespiderbehavior"@ + ".bin"@);
    assert("meshes/actors/frostbitespider/behaviors/frostbitespiderbehavior.bin"@.subrange(0, 14) =~= "meshes/actors/"@);
}

proof fn lemma_third_person_template_29()
    ensures
        names_file("meshes/actors/giant/behaviors/giantbehavior.bin"@, "giantbehavior"@),
        has_prefix_text("meshes/actors/giant/behaviors/giantbehavior.bin"@, "meshes/actors/"@),
{
    reveal_strlit("/");
    reveal_strlit(".bin");
    reveal_strlit("meshes/actors/");
    reveal_strlit("meshes/actors/giant/behaviors/giantbehavior.bin");
    reveal_strlit("giantbehavior");
    assert("meshes/actors/giant/behaviors/giantbehavior.bin"@.subrange(29, 47) =~= "/"@ + "giantbehavior"@ + ".bin"@);
    assert("meshes/actors/giant/behaviors/giantbehavior.bin"@.subrange(0, 14) =~= "meshes/actors/"@);
}

proof fn lemma_third_person_template_30()
    ensures
        names_file("meshes/actors/goat/behaviors/goatbehavior.bin"@, "goatbehavior"@),
        has_prefix_text("meshes/actors/goat/behaviors/goatbehavior.bin"@, "meshes/actors/"@),
{
    reveal_strlit("/");
    reveal_strlit(".bin");
    reveal_strlit("meshes/actors/");
    reveal_strlit("meshes/actors/goat/behaviors/goatbehavior.bin");
    reveal_strlit("goatbehavior");
    assert("meshes/actors/goat/behaviors/goatbehavior.bin"@.subrange(28, 45) =~= "/"@ + "goatbehavior"@ + ".bin"@);
    assert("meshes/actors/goat/behaviors/goatbehavior.bin"@.subrange(0, 14) =~= "meshes/actors/"@);
}

proof fn lemma_third_person_template_31()
    ensures
        names_file("meshes/actors/cow/behaviors/h-cowbehavior.bin"@, "h-cowbehavior"@),
        has_prefix_text("meshes/actors/cow/behaviors/h-cowbehavior.bin"@, "meshes/actors/"@),
{
    reveal_strlit("/");
    reveal_strlit(".bin");
    reveal_strlit("meshes/actors/");
    reveal_strlit("meshes/actors/cow/behaviors/h-cowbehavior.bin");
    reveal_strlit("h-cowbehavior");
    assert("meshes/actors/cow/behaviors/h-cowbehavior.bin"@.subrange(27, 45) =~= "/"@ + "h-cowbehavior"@ + ".bin"@);
    assert("meshes/actors/cow/behaviors/h-cowbehavior.bin"@.subrange(0, 14) =~= "meshes/actors/"@);
}

proof fn lemma_third_person_template_32()
    ensures
        names_file("meshes/actors/cow/behaviors/h-cowbehavior_lod.bin"@, "h-cowbehavior_lod"@),
        has_prefix_text("meshes/actors/cow/behaviors/h-cowbehavior_lod.bin"@, "meshes/actors/"@),
{
    reveal_strlit("/");
    reveal_strlit(".bin");
    reveal_strlit("meshes/actors/");
    reveal_strlit("meshes/actors/cow/behaviors/h-cowbehavior_lod.bin");
    reveal_strlit("h-cowbehavior_lod");
    assert("meshes/actors/cow/behaviors/h-cowbehavior_lod.bin"@.subrange(27, 49) =~= "/"@ + "h-cowbehavior_lod"@ + ".bin"@);
    assert("meshes/actors/cow/behaviors/h-cowbehavior_lod.bin"@.subrange(0, 14) =~= "meshes/actors/"@);
}

proof fn lemma_third_person_template_33()
    ensures
        names_file("meshes/actors/ambient/hare/behaviors/harebehavior.bin"@, "harebehavior"@),
        has_prefix_text("meshes/actors/ambient/hare/behaviors/harebehavior.bin"@, "meshes/actors/"@),
{
    reveal_strlit("/");
    reveal_strlit(".bin");
    reveal_strlit("meshes/actors/");
    reveal_strlit("meshes/actors/ambient/hare/behaviors/harebehavior.bin");
    reveal_strlit("harebehavior");
    assert("meshes/actors/ambient/hare/behaviors/harebehavior.bin"@.subrange(36, 53) =~= "/"@ + "harebehavior"@ + ".bin"@);
    assert("meshes/actors/ambient/hare/behaviors/harebehavior.bin"@.subrange(0, 14) =~= "meshes/actors/"@);
}

proof fn lemma_third_person_template_34()
    ensures
        names_file("meshes/actors/hagraven/behaviors/havgravenbehavior.bin"@, "havgravenbehavior"@),
        has_prefix_text("meshes/actors/hagraven/behaviors/havgravenbehavior.bin"@, "meshes/actors/"@),
{
    reveal_strlit("/");
    reveal_strlit(".bin");
    reveal_strlit("meshes/actors/");
    reveal_strlit("meshes/actors/hagraven/behaviors/havgravenbehavior.bin");
    reveal_strlit("havgravenbehavior");
    assert("meshes/actors/hagraven/behaviors/havgravenbehavior.bin"@.subrange(32, 54) =~= "/"@ + "havgravenbehavior"@ + ".bin"@);
    assert("meshes/actors/hagraven/behaviors/havgravenbehavior.bin"@.subrange(0, 14) =~= "meshes/actors/"@);
}

proof fn lemma_third_person_template_35()
    ensures
        names_file("meshes/actors/dlc02/hmdaedra/behaviors/hmdaedra.bin"@, "hmdaedra"@),
        has_prefix_text("meshes/actors/dlc02/hmdaedra/behaviors/hmdaedra.bin"@, "meshes/actors/"@),
{
    reveal_strlit("/");
    reveal_strlit(".bin");
    reveal_strlit("meshes/actors/");
    reveal_strlit("meshes/actors/dlc02/hmdaedra/behaviors/hmdaedra.bin");
    reveal_strlit("hmdaedra");
    assert("meshes/actors/dlc02/hmdaedra/behaviors/hmdaedra.bin"@.subrange(38, 51) =~= "/"@ + "hmdaedra"@ + ".bin"@);
    assert("meshes/actors/dlc02/hmdaedra/behaviors/hmdaedra.bin"@.subrange(0, 14) =~= "meshes/actors/"@);
}

proof fn lemma_third_person_template_36()
    ensures
        names_file("meshes/actors/horker/behaviors/horkerbehavior.bin"@, "horkerbehavior"@),
        has_prefix_text("meshes/actors/horker/behaviors/horkerbehavior.bin"@, "meshes/actors/"@),
{
    reveal_strlit("/");
    reveal_strlit(".bin");
    reveal_strlit("meshes/actors/");
    reveal_strlit("meshes/actors/horker/behaviors/horkerbehavior.bin");
    reveal_strlit("horkerbehavior");
    assert("meshes/actors/horker/behaviors/horkerbehavior.bin"@.subrange(30, 49) =~= "/"@ + "horkerbehavior"@ + ".bin"@);
    assert("meshes/actors/horker/behaviors/horkerbehavior.bin"@.subrange(0, 14) =~= "meshes/actors/"@);
}

proof fn lemma_third_person_template_37()
    ensures
        names_file("meshes/actors/character/behaviors/horsebehavior.bin"@, "horsebehavior"@),
        has_prefix_text("meshes/actors/character/behaviors/horsebehavior.bin"@, "meshes/actors/"@),
{
    reveal_strlit("/");
    reveal_strlit(".bin");
    reveal_strlit("meshes/actors/");
    reveal_strlit("meshes/actors/character/behaviors/horsebehavior.bin");
    reveal_strlit("horsebehavior");
    assert("meshes/actors/character/behaviors/horsebehavior.bin"@.subrange(33, 51) =~= "/"@ + "horsebehavior"@ + ".bin"@);
    assert("meshes/actors/character/behaviors/horsebehavior.bin"@.subrange(0, 14) =~= "meshes/actors/"@);
}

proof fn lemma_third_person_template_38()
    ensures
        names_file("meshes/actors/icewraith/behaviors/icewraithbehavior.bin"@, "icewraithbehavior"@),
        has_prefix_text("meshes/actors/icewraith/behaviors/icewraithbehavior.bin"@, "meshes/actors/"@),
{
    reveal_strlit("/");
    reveal_strlit(".bin");
    reveal_strlit("meshes/actors/");
    reveal_strlit("meshes/actors/icewraith/behaviors/icewraithbehavior.bin");
    reveal_strlit("icewraithbehavior");
    assert("meshes/actors/icewraith/behaviors/icewraithbehavior.bin"@.subrange(33, 55) =~= "/"@ + "icewraithbehavior"@ + ".bin"@);
    assert("meshes/actors/icewraith/behaviors/icewraithbehavior.bin"@.subrange(0, 14) =~= "meshes/actors/"@);
}

proof fn lemma_third_person_template_39()
    ensures
        names_file("meshes/actors/character/behaviors/idlebehavior.bin"@, "idlebehavior"@),
        has_prefix_text("meshes/actors/character/behaviors/idlebehavior.bin"@, "meshes/actors/"@),
{
    reveal_strlit("/");
    reveal_strlit(".bin");
    reveal_strlit("meshes/actors/");
    reveal_strlit("meshes/actors/character/behaviors/idlebehavior.bin");
    reveal_strlit("idlebehavior");
    assert("meshes/actors/character/behaviors/idlebehavior.bin"@.subrange(33, 50) =~= "/"@ + "idlebehavior"@ + ".bin"@);
    assert("meshes/actors/character/behaviors/idlebehavior.bin"@.subrange(0, 14) =~= "meshes/actors/"@);
}

proof fn lemma_third_person_template_40()
    ensures
        names_file("meshes/actors/character/behaviors/magic_readied_direction_behavior.bin"@, "magic_readied_direction_behavior"@),
        has_prefix_text("meshes/actors/character/behaviors/magic_readied_direction_behavior.bin"@, "meshes/actors/"@),
{
    reveal_strlit("/");
    reveal_strlit(".bin");
    reveal_strlit("meshes/actors/");
    reveal_strlit("meshes/actors/character/behaviors/magic_readied_direction_behavior.bin");
    reveal_strlit("magic_readied_direction_behavior");
    assert("meshes/actors/character/behaviors/magic_readied_direction_behavior.bin"@.subrange(33, 70) =~= "/"@ + "magic_readied_direction_behavior"@ + ".bin"@);
    assert("meshes/actors/character/behaviors/magic_readied_direction_behavior.bin"@.subrange(0, 14) =~= "meshes/actors/"@);
}

proof fn lemma_third_person_template_41()
    ensures
        names_file("meshes/actors/character/behaviors/magicbehavior.bin"@, "magicbehavior"@),
        has_prefix_text("meshes/actors/character/behaviors/magicbehavior.bin"@, "meshes/actors/"@),
{
    reveal_strlit("/");
    reveal_strlit(".bin");
    reveal_strlit("meshes/actors/");
    reveal_strlit("meshes/actors/character/behaviors/magicbehavior.bin");
    reveal_strlit("magicbehavior");
    assert("meshes/actors/character/behaviors/magicbehavior.bin"@.subrange(33, 51) =~= "/"@ + "magicbehavior"@ + ".bin"@);
    assert("meshes/actors/character/behaviors/magicbehavior.bin"@.subrange(0, 14) =~= "meshes/actors/"@);
}

proof fn lemma_third_person_template_42()
    ensures
        names_file("meshes/actors/character/behaviors/magicmountedbehavior.bin"@, "magicmountedbehavior"@),
        has_prefix_text("meshes/actors/character/behaviors/magicmountedbehavior.bin"@, "meshes/actors/"@),
{
    reveal_strlit("/");
    reveal_strlit(".bin");
    reveal_strlit("meshes/actors/");
    reveal_strlit("meshes/actors/character/behaviors/magicmountedbehavior.bin");
    reveal_strlit("magicmountedbehavior");
    assert("meshes/actors/character/behaviors/magicmountedbehavior.bin"@.subrange(33, 58) =~= "/"@ + "magicmountedbehavior"@ + ".bin"@);
    assert("meshes/actors/character/behaviors/magicmountedbehavior.bin"@.subrange(0, 14) =~= "meshes/actors/"@);
}

proof fn lemma_third_person_template_43()
    ensures
        names_file("meshes/actors/mammoth/behaviors/mammothbehavior.bin"@, "mammothbehavior"@),
        has_prefix_text("meshes/actors/mammoth/behaviors/mammothbehavior.bin"@, "meshes/actors/"@),
{
    reveal_strlit("/");
    reveal_strlit(".bin");
    reveal_strlit("meshes/actors/");
    reveal_strlit("meshes/actors/mammoth/behaviors/mammothbehavior.bin");
    reveal_strlit("mammothbehavior");
    assert("meshes/actors/mammoth/behaviors/mammothbehavior.bin"@.subrange(31, 51) =~= "/"@ + "mammothbehavior"@ + ".bin"@);
    assert("meshes/actors/mammoth/behaviors/mammothbehavior.bin"@.subrange(0, 14) =~= "meshes/actors/"@);
}

proof fn lemma_third_person_template_44()
    ensures
        names_file("meshes/actors/character/behaviors/mt_behavior.bin"@, "mt_behavior"@),
        has_prefix_text("meshes/actors/character/behaviors/mt_behavior.bin"@, "meshes/actors/"@),
{
    reveal_strlit("/");
    reveal_strlit(".bin");
    reveal_strlit("meshes/actors/");
    reveal_strlit("meshes/actors/character/behaviors/mt_behavior.bin");
    reveal_strlit("mt_behavior");
    assert("meshes/actors/character/behaviors/mt_behavior.bin"@.subrange(33, 49) =~= "/"@ + "mt_behavior"@ + ".bin"@);
    assert("meshes/actors/character/behaviors/mt_behavior.bin"@.subrange(0, 14) =~= "meshes/actors/"@);
}

proof fn lemma_third_person_template_45()
    ensures
        names_file("meshes/actors/mudcrab/behaviors/mudcrabbehavior.bin"@, "mudcrabbehavior"@),
        has_prefix_text("meshes/actors/mudcrab/behaviors/mudcrabbehavior.bin"@, "meshes/actors/"@),
{
    reveal_strlit("/");
    reveal_strlit(".bin");
    reveal_strlit("meshes/actors/");
    reveal_strlit("meshes/actors/mudcrab/behaviors/mudcrabbehavior.bin");
    reveal_strlit("mudcrabbehavior");
    assert("meshes/actors/mudcrab/behaviors/mudcrabbehavior.bin"@.subrange(31, 51) =~= "/"@ + "mudcrabbehavior"@ + ".bin"@);
    assert("meshes/actors/mudcrab/behaviors/mudcrabbehavior.bin"@.subrange(0, 14) =~= "meshes/actors/"@);
}

proof fn lemma_third_person_template_46()
    ensures
        names_file("meshes/actors/dlc02/netch/behaviors/netchbehavior.bin"@, "netchbehavior"@),
        has_prefix_text("meshes/actors/dlc02/netch/behaviors/netchbehavior.bin"@, "meshes/actors/"@),
{
    reveal_strlit("/");
    reveal_strlit(".bin");
    reveal_strlit("meshes/actors/");
    reveal_strlit("meshes/actors/dlc02/netch/behaviors/netchbehavior.bin");
    reveal_strlit("netchbehavior");
    assert("meshes/actors/dlc02/netch/behaviors/netchbehavior.bin"@.subrange(35, 53) =~= "/"@ + "netchbehavior"@ + ".bin"@);
    assert("meshes/actors/dlc02/netch/behaviors/netchbehavior.bin"@.subrange(0, 14) =~= "meshes/actors/"@);
}

proof fn lemma_third_person_template_47()
    ensures
        names_file("meshes/actors/dlc02/riekling/behaviors/rieklingbehavior.bin"@, "rieklingbehavior"@),
        has_prefix_text("meshes/actors/dlc02/riekling/behaviors/rieklingbehavior.bin"@, "meshes/actors/"@),
{
    reveal_strlit("/");
    reveal_strlit(".bin");
    reveal_strlit("meshes/actors/");
    reveal_strlit("meshes/actors/dlc02/riekling/behaviors/rieklingbehavior.bin");
    reveal_strlit("rieklingbehavior");
    assert("meshes/actors/dlc02/riekling/behaviors/rieklingbehavior.bin"@.subrange(38, 59) =~= "/"@ + "rieklingbehavior"@ + ".bin"@);
    assert("meshes/actors/dlc02/riekling/behaviors/rieklingbehavior.bin"@.subrange(0, 14) =~= "meshes/actors/"@);
}

proof fn lemma_third_person_template_48()
    ensures
        names_file("meshes/actors/sabrecat/behaviors/sabrecatbehavior.bin"@, "sabrecatbehavior"@),
        has_prefix_text("meshes/actors/sabrecat/behaviors/sabrecatbehavior.bin"@, "meshes/actors/"@),
{
    reveal_strlit("/");
    reveal_strlit(".bin");
    reveal_strlit("meshes/actors/");
    reveal_strlit("meshes/actors/sabrecat/behaviors/sabrecatbehavior.bin");
    reveal_strlit("sabrecatbehavior");
    assert("meshes/actors/sabrecat/behaviors/sabrecatbehavior.bin"@.subrange(32, 53) =~= "/"@ + "sabrecatbehavior"@ + ".bin"@);
    assert("meshes/actors/sabrecat/behaviors/sabrecatbehavior.bin"@.subrange(0, 14) =~= "meshes/actors/"@);
}

proof fn lemma_third_person_template_49()
    ensures
        names_file("meshes/actors/dwarvenspherecenturion/behaviors/scbehavior.bin"@, "scbehavior"@),
        has_prefix_text("meshes/actors/dwarvenspherecenturion/behaviors/scbehavior.bin"@, "meshes/actors/"@),
{
    reveal_strlit("/");
    reveal_strlit(".bin");
    reveal_strlit("meshes/actors/");
    reveal_strlit("meshes/actors/dwarvenspherecenturion/behaviors/scbehavior.bin");
    reveal_strlit("scbehavior");
    assert("meshes/actors/dwarvenspherecenturion/behaviors/scbehavior.bin"@.subrange(46, 61) =~= "/"@ + "scbehavior"@ + ".bin"@);
    assert("meshes/actors/dwarvenspherecenturion/behaviors/scbehavior.bin"@.subrange(0, 14) =~= "meshes/actors/"@);
}

proof fn lemma_third_person_template_50()
    ensures
        names_file("meshes/actors/dlc02/scrib/behaviors/scribbehavior.bin"@, "scribbehavior"@),
        has_prefix_text("meshes/actors/dlc02/scrib/behaviors/scribbehavior.bin"@, "meshes/actors/"@),
{
    reveal_strlit("/");
    reveal_strlit(".bin");
    reveal_strlit("meshes/actors/");
    reveal_strlit("meshes/actors/dlc02/scrib/behaviors/scribbehavior.bin");
    reveal_strlit("scribbehavior");
    assert("meshes/actors/dlc02/scrib/behaviors/scribbehavior.bin"@.subrange(35, 53) =~= "/"@ + "scribbehavior"@ + ".bin"@);
    assert("meshes/actors/dlc02/scrib/behaviors/scribbehavior.bin"@.subrange(0, 14) =~= "meshes/actors/"@);
}

proof fn lemma_third_person_template_51()
    ensures
        names_file("meshes/actors/character/behaviors/shout_behavior.bin"@, "shout_behavior"@),
        has_prefix_text("meshes/actors/character/behaviors/shout_behavior.bin"@, "meshes/actors/"@),
{
    reveal_strlit("/");
    reveal_strlit(".bin");
    reveal_strlit("meshes/actors/");
    reveal_strlit("meshes/actors/character/behaviors/shout_behavior.bin");
    reveal_strlit("shout_behavior");
    assert("meshes/actors/character/behaviors/shout_behavior.bin"@.subrange(33, 52) =~= "/"@ + "shout_behavior"@ + ".bin"@);
    assert("meshes/actors/character/behaviors/shout_behavior.bin"@.subrange(0, 14) =~= "meshes/actors/"@);
}

proof fn lemma_third_person_template_52()
    ensures
        names_file("meshes/actors/character/behaviors/shoutmounted_behavior.bin"@, "shoutmounted_behavior"@),
        has_prefix_text("meshes/actors/character/behaviors/shoutmounted_behavior.bin"@, "meshes/actors/"@),
{
    reveal_strlit("/");
    reveal_strlit(".bin");
    reveal_strlit("meshes/actors/");
    reveal_strlit("meshes/actors/character/behaviors/shoutmounted_behavior.bin");
    reveal_strlit("shoutmounted_behavior");
    assert("meshes/actors/character/behaviors/shoutmounted_behavior.bin"@.subrange(33, 59) =~= "/"@ + "shoutmounted_behavior"@ + ".bin"@);
    assert("meshes/actors/character/behaviors/shoutmounted_behavior.bin"@.subrange(0, 14) =~= "meshes/actors/"@);
}

proof fn lemma_third_person_template_53()
    ensures
        names_file("meshes/actors/skeever/behaviors/skeeverbehavior.bin"@, "skeeverbehavior"@),
        has_prefix_text("meshes/actors/skeever/behaviors/skeeverbehavior.bin"@, "meshes/actors/"@),
{
    reveal_strlit("/");
    reveal_strlit(".bin");
    reveal_strlit("meshes/actors/");
    reveal_strlit("meshes/actors/skeever/behaviors/skeeverbehavior.bin");
    reveal_strlit("skeeverbehavior");
    assert("meshes/actors/skeever/behaviors/skeeverbehavior.bin"@.subrange(31, 51) =~= "/"@ + "skeeverbehavior"@ + ".bin"@);
    assert("meshes/actors/skeever/behaviors/skeeverbehavior.bin"@.subrange(0, 14) =~= "meshes/actors/"@);
}

proof fn lemma_third_person_template_54()
    ensures
        names_file("meshes/actors/slaughterfish/behaviors/slaughterfishbehavior.bin"@, "slaughterfishbehavior"@),
        has_prefix_text("meshes/actors/slaughterfish/behaviors/slaughterfishbehavior.bin"@, "meshes/actors/"@),
{
    reveal_strlit("/");
    reveal_strlit(".bin");
    reveal_strlit("meshes/actors/");
    reveal_strlit("meshes/actors/slaughterfish/behaviors/slaughterfishbehavior.bin");
    reveal_strlit("slaughterfishbehavior");
    assert("meshes/actors/slaughterfish/behaviors/slaughterfishbehavior.bin"@.subrange(37, 63) =~= "/"@ + "slaughterfishbehavior"@ + ".bin"@);
    assert("meshes/actors/slaughterfish/behaviors/slaughterfishbehavior.bin"@.subrange(0, 14) =~= "meshes/actors/"@);
}

proof fn lemma_third_person_template_55()
    ensures
        names_file("meshes/actors/spriggan/behaviors/sprigganbehavior.bin"@, "sprigganbehavior"@),
        has_prefix_text("meshes/actors/spriggan/behaviors/sprigganbehavior.bin"@, "meshes/actors/"@),
{
    reveal_strlit("/");
    reveal_strlit(".bin");
    reveal_strlit("meshes/actors/");
    reveal_strlit("meshes/actors/spriggan/behaviors/sprigganbehavior.bin");
    reveal_strlit("sprigganbehavior");
    assert("meshes/actors/spriggan/behaviors/sprigganbehavior.bin"@.subrange(32, 53) =~= "/"@ + "sprigganbehavior"@ + ".bin"@);
    assert("meshes/actors/spriggan/behaviors/sprigganbehavior.bin"@.subrange(0, 14) =~= "meshes/actors/"@);
}

proof fn lemma_third_person_template_56()
    ensures
        names_file("meshes/actors/character/behaviors/sprintbehavior.bin"@, "sprintbehavior"@),
        has_prefix_text("meshes/actors/character/behaviors/sprintbehavior.bin"@, "meshes/actors/"@),
{
    reveal_strlit("/");
    reveal_strlit(".bin");
    reveal_strlit("meshes/actors/");
    reveal_strlit("meshes/actors/character/behaviors/sprintbehavior.bin");
    reveal_strlit("sprintbehavior");
    assert("meshes/actors/character/behaviors/sprintbehavior.bin"@.subrange(33, 52) =~= "/"@ + "sprintbehavior"@ + ".bin"@);
    assert("meshes/actors/character/behaviors/sprintbehavior.bin"@.subrange(0, 14) =~= "meshes/actors/"@);
}

proof fn lemma_third_person_template_57()
    ensures
        names_file("meshes/actors/character/behaviors/staggerbehavior.bin"@, "staggerbehavior"@),
        has_prefix_text("meshes/actors/character/behaviors/staggerbehavior.bin"@, "meshes/actors/"@),
{
    reveal_strlit("/");
    reveal_strlit(".bin");
    reveal_strlit("meshes/actors/");
    reveal_strlit("meshes/actors/character/behaviors/staggerbehavior.bin");
    reveal_strlit("staggerbehavior");
    assert("meshes/actors/character/behaviors/staggerbehavior.bin"@.subrange(33, 53) =~= "/"@ + "staggerbehavior"@ + ".bin"@);
    assert("meshes/actors/character/behaviors/staggerbehavior.bin"@.subrange(0, 14) =~= "meshes/actors/"@);
}

proof fn lemma_third_person_template_58()
    ensures
        names_file("meshes/actors/dwarvensteamcenturion/behaviors/steambehavior.bin"@, "steambehavior"@),
        has_prefix_text("meshes/actors/dwarvensteamcenturion/behaviors/steambehavior.bin"@, "meshes/actors/"@),
{
    reveal_strlit("/");
    reveal_strlit(".bin");
    reveal_strlit("meshes/actors/");
    reveal_strlit("meshes/actors/dwarvensteamcenturion/behaviors/steambehavior.bin");
    reveal_strlit("steambehavior");
    assert("meshes/actors/dwarvensteamcenturion/behaviors/steambehavior.bin"@.subrange(45, 63) =~= "/"@ + "steambehavior"@ + ".bin"@);
    assert("meshes/actors/dwarvensteamcenturion/behaviors/steambehavior.bin"@.subrange(0, 14) =~= "meshes/actors/"@);
}

proof fn lemma_third_person_template_59()
    ensures
        names_file("meshes/actors/troll/behaviors/trollbehavior.bin"@, "trollbehavior"@),
        has_prefix_text("meshes/actors/troll/behaviors/trollbehavior.bin"@, "meshes/actors/"@),
{
    reveal_strlit("/");
    reveal_strlit(".bin");
    reveal_strlit("meshes/actors/");
    reveal_strlit("meshes/actors/troll/behaviors/trollbehavior.bin");
    reveal_strlit("trollbehavior");
    assert("meshes/actors/troll/behaviors/trollbehavior.bin"@.subrange(29, 47) =~= "/"@ + "trollbehavior"@ + ".bin"@);
    assert("meshes/actors/troll/behaviors/trollbehavior.bin"@.subrange(0, 14) =~= "meshes/actors/"@);
}

proof fn lemma_third_person_template_60()
    ensures
        names_file("meshes/actors/dlc01/vampirebrute/behaviors/vampirebrutebehavior.bin"@, "vampirebrutebehavior"@),
        has_prefix_text("meshes/actors/dlc01/vampirebrute/behaviors/vampirebrutebehavior.bin"@, "meshes/actors/"@),
{
    reveal_strlit("/");
    reveal_strlit(".bin");
    reveal_strlit("meshes/actors/");
    reveal_strlit("meshes/actors/dlc01/vampirebrute/behaviors/vampirebrutebehavior.bin");
    reveal_strlit("vampirebrutebehavior");
    assert("meshes/actors/dlc01/vampirebrute/behaviors/vampirebrutebehavior.bin"@.subrange(42, 67) =~= "/"@ + "vampirebrutebehavior"@ + ".bin"@);
    assert("meshes/actors/dlc01/vampirebrute/behaviors/vampirebrutebehavior.bin"@.subrange(0, 14) =~= "meshes/actors/"@);
}

proof fn lemma_third_person_template_61()
    ensures
        names_file("meshes/actors/character/behaviors/weapequip.bin"@, "weapequip"@),
        has_prefix_text("meshes/actors/character/behaviors/weapequip.bin"@, "meshes/actors/"@),
{
    reveal_strlit("/");
    reveal_strlit(".bin");
    reveal_strlit("meshes/actors/");
    reveal_strlit("meshes/actors/character/behaviors/weapequip.bin");
    reveal_strlit("weapequip");
    assert("meshes/actors/character/behaviors/weapequip.bin"@.subrange(33, 47) =~= "/"@ + "weapequip"@ + ".bin"@);
    assert("meshes/actors/character/behaviors/weapequip.bin"@.subrange(0, 14) =~= "meshes/actors/"@);
}

proof fn lemma_third_person_template_62()
    ensures
        names_file("meshes/actors/werewolfbeast/characters/werewolf.bin"@, "werewolf"@),
        has_prefix_text("meshes/actors/werewolfbeast/characters/werewolf.bin"@, "meshes/actors/"@),
{
    reveal_strlit("/");
    reveal_strlit(".bin");
    reveal_strlit("meshes/actors/");
    reveal_strlit("meshes/actors/werewolfbeast/characters/werewolf.bin");
    reveal_strlit("werewolf");
    assert("meshes/actors/werewolfbeast/characters/werewolf.bin"@.subrange(38, 51) =~= "/"@ + "werewolf"@ + ".bin"@);
    assert("meshes/actors/werewolfbeast/characters/werewolf.bin"@.subrange(0, 14) =~= "meshes/actors/"@);
}

proof fn lemma_third_person_template_63()
    ensures
        names_file("meshes/actors/werewolfbeast/werewolfbeastproject.bin"@, "werewolfbeastproject"@),
        has_prefix_text("meshes/actors/werewolfbeast/werewolfbeastproject.bin"@, "meshes/actors/"@),
{
    reveal_strlit("/");
    reveal_strlit(".bin");
    reveal_strlit("meshes/actors/");
    reveal_strlit("meshes/actors/werewolfbeast/werewolfbeastproject.bin");
    reveal_strlit("werewolfbeastproject");
    assert("meshes/actors/werewolfbeast/werewolfbeastproject.bin"@.subrange(27, 52) =~= "/"@ + "werewolfbeastproject"@ + ".bin"@);
    assert("meshes/actors/werewolfbeast/werewolfbeastproject.bin"@.subrange(0, 14) =~= "meshes/actors/"@);
}

proof fn lemma_third_person_template_64()
    ensures
        names_file("meshes/actors/werewolfbeast/behaviors/werewolfbehavior.bin"@, "werewolfbehavior"@),
        has_prefix_text("meshes/actors/werewolfbeast/behaviors/werewolfbehavior.bin"@, "meshes/actors/"@),
{
    reveal_strlit("/");
    reveal_strlit(".bin");
    reveal_strlit("meshes/actors/");
    reveal_strlit("meshes/actors/werewolfbeast/behaviors/werewolfbehavior.bin");
    reveal_strlit("werewolfbehavior");
    assert("meshes/actors/werewolfbeast/behaviors/werewolfbehavior.bin"@.subrange(37, 58) =~= "/"@ + "werewolfbehavior"@ + ".bin"@);
    assert("meshes/actors/werewolfbeast/behaviors/werewolfbehavior.bin"@.subrange(0, 14) =~= "meshes/actors/"@);
}

proof fn lemma_third_person_template_65()
    ensures
        names_file("meshes/actors/wisp/behaviors/wispbehavior.bin"@, "wispbehavior"@),
        has_prefix_text("meshes/actors/wisp/behaviors/wispbehavior.bin"@, "meshes/actors/"@),
{
    reveal_strlit("/");
    reveal_strlit(".bin");
    reveal_strlit("meshes/actors/");
    reveal_strlit("meshes/actors/wisp/behaviors/wispbehavior.bin");
    reveal_strlit("wispbehavior");
    assert("meshes/actors/wisp/behaviors/wispbehavior.bin"@.subrange(28, 45) =~= "/"@ + "wispbehavior"@ + ".bin"@);
    assert("meshes/actors/wisp/behaviors/wispbehavior.bin"@.subrange(0, 14) =~= "meshes/actors/"@);
}

proof fn lemma_third_person_template_66()
    ensures
        names_file("meshes/actors/witchlight/behaviors/witchlightbehavior.bin"@, "witchlightbehavior"@),
        has_prefix_text("meshes/actors/witchlight/behaviors/witchlightbehavior.bin"@, "meshes/actors/"@),
{
    reveal_strlit("/");
    reveal_strlit(".bin");
    reveal_strlit("meshes/actors/");
    reveal_strlit("meshes/actors/witchlight/behaviors/witchlightbehavior.bin");
    reveal_strlit("witchlightbehavior");
    assert("meshes/actors/witchlight/behaviors/witchlightbehavior.bin"@.subrange(34, 57) =~= "/"@ + "witchlightbehavior"@ + ".bin"@);
    assert("meshes/actors/witchlight/behaviors/witchlightbehavior.bin"@.subrange(0, 14) =~= "meshes/actors/"@);
}

proof fn lemma_third_person_template_67()
    ensures
        names_file("meshes/actors/canine/behaviors wolf/wolfbehavior.bin"@, "wolfbehavior"@),
        has_prefix_text("meshes/actors/canine/behaviors wolf/wolfbehavior.bin"@, "meshes/actors/"@),
{
    reveal_strlit("/");
    reveal_strlit(".bin");
    reveal_strlit("meshes/actors/");
    reveal_strlit("meshes/actors/canine/behaviors wolf/wolfbehavior.bin");
    reveal_strlit("wolfbehavior");
    assert("meshes/actors/canine/behaviors wolf/wolfbehavior.bin"@.subrange(35, 52) =~= "/"@ + "wolfbehavior"@ + ".bin"@);
    assert("meshes/actors/canine/behaviors wolf/wolfbehavior.bin"@.subrange(0, 14) =~= "meshes/actors/"@);
}

proof fn lemma_first_person_template_0()
    ensures
        names_file("meshes/actors/character/_1stperson/behaviors/0_master.bin"@, "0_master"@),
        has_prefix_text("meshes/actors/character/_1stperson/behaviors/0_master.bin"@, "meshes/actors/"@),
        has_prefix_text("meshes/actors/character/_1stperson/behaviors/0_master.bin"@, "meshes/actors/character/_1stperson/"@),
{
    reveal_strlit("meshes/actors/character/_1stperson/");
    reveal_strlit("/");
    reveal_strlit(".bin");
    reveal_strlit("meshes/actors/");
    reveal_strlit("meshes/actors/character/_1stperson/behaviors/0_master.bin");
    reveal_strlit("0_master");
    assert("meshes/actors/character/_1stperson/behaviors/0_master.bin"@.subrange(44, 57) =~= "/"@ + "0_master"@ + ".bin"@);
    assert("meshes/actors/character/_1stperson/behaviors/0_master.bin"@.subrange(0, 14) =~= "meshes/actors/"@);
    assert("meshes/actors/character/_1stperson/behaviors/0_master.bin"@.subrange(0, 35) =~= "meshes/actors/character/_1stperson/"@);
}

proof fn lemma_first_person_template_1()
    ensures
        names_file("meshes/actors/character/_1stperson/behaviors/1hm_behavior.bin"@, "1hm_behavior"@),
        has_prefix_text("meshes/actors/character/_1stperson/behaviors/1hm_behavior.bin"@, "meshes/actors/"@),
        has_prefix_text("meshes/actors/character/_1stperson/behaviors/1hm_behavior.bin"@, "meshes/actors/character/_1stperson/"@),
{
    reveal_strlit("meshes/actors/character/_1stperson/");
    reveal_strlit("/");
    reveal_strlit(".bin");
    reveal_strlit("meshes/actors/");
    reveal_strlit("meshes/actors/character/_1stperson/behaviors/1hm_behavior.bin");
    reveal_strlit("1hm_behavior");
    assert("meshes/actors/character/_1stperson/behaviors/1hm_behavior.bin"@.subrange(44, 61) =~= "/"@ + "1hm_behavior"@ + ".bin"@);
    assert("meshes/actors/character/_1stperson/behaviors/1hm_behavior.bin"@.subrange(0, 14) =~= "meshes/actors/"@);
    assert("meshes/actors/character/_1stperson/behaviors/1hm_behavior.bin"@.subrange(0, 35) =~= "meshes/actors/character/_1stperson/"@);
}

proof fn lemma_first_person_template_2()
    ensures
        names_file("meshes/actors/character/_1stperson/behaviors/1hm_locomotion.bin"@, "1hm_locomotion"@),
        has_prefix_text("meshes/actors/character/_1stperson/behaviors/1hm_locomotion.bin"@, "meshes/actors/"@),
        has_prefix_text("meshes/actors/character/_1stperson/behaviors/1hm_locomotion.bin"@, "meshes/actors/character/_1stperson/"@),
{
    reveal_strlit("meshes/actors/character/_1stperson/");
    reveal_strlit("/");
    reveal_strlit(".bin");
    reveal_strlit("meshes/actors/");
    reveal_strlit("meshes/actors/character/_1stperson/behaviors/1hm_locomotion.bin");
    reveal_strlit("1hm_locomotion");
    assert("meshes/actors/character/_1stperson/behaviors/1hm_locomotion.bin"@.subrange(44, 63) =~= "/"@ + "1hm_locomotion"@ + ".bin"@);
    assert("meshes/actors/character/_1stperson/behaviors/1hm_locomotion.bin"@.subrange(0, 14) =~= "meshes/actors/"@);
    assert("meshes/actors/character/_1stperson/behaviors/1hm_locomotion.bin"@.subrange(0, 35) =~= "meshes/actors/character/_1stperson/"@);
}

proof fn lemma_first_person_template_3()
    ensures
        names_file("meshes/actors/character/_1stperson/behaviors/bashbehavior.bin"@, "bashbehavior"@),
        has_prefix_text("meshes/actors/character/_1stperson/behaviors/bashbehavior.bin"@, "meshes/actors/"@),
        has_prefix_text("meshes/actors/character/_1stperson/behaviors/bashbehavior.bin"@, "meshes/actors/character/_1stperson/"@),
{
    reveal_strlit("meshes/actors/character/_1stperson/");
    reveal_strlit("/");
    reveal_strlit(".bin");
    reveal_strlit("meshes/actors/");
    reveal_strlit("meshes/actors/character/_1stperson/behaviors/bashbehavior.bin");
    reveal_strlit("bashbehavior");
    assert("meshes/actors/character/_1stperson/behaviors/bashbehavior.bin"@.subrange(44, 61) =~= "/"@ + "bashbehavior"@ + ".bin"@);
    assert("meshes/actors/character/_1stperson/behaviors/bashbehavior.bin"@.subrange(0, 14) =~= "meshes/actors/"@);
    assert("meshes/actors/character/_1stperson/behaviors/bashbehavior.bin"@.subrange(0, 35) =~= "meshes/actors/character/_1stperson/"@);
}

proof fn lemma_first_person_template_4()
    ensures
        names_file("meshes/actors/character/_1stperson/behaviors/blockbehavior.bin"@, "blockbehavior"@),
        has_prefix_text("meshes/actors/character/_1stperson/behaviors/blockbehavior.bin"@, "meshes/actors/"@),
        has_prefix_text("meshes/actors/character/_1stperson/behaviors/blockbehavior.bin"@, "meshes/actors/character/_1stperson/"@),
{
    reveal_strlit("meshes/actors/character/_1stperson/");
    reveal_strlit("/");
    reveal_strlit(".bin");
    reveal_strlit("meshes/actors/");
    reveal_strlit("meshes/actors/character/_1stperson/behaviors/blockbehavior.bin");
    reveal_strlit("blockbehavior");
    assert("meshes/actors/character/_1stperson/behaviors/blockbehavior.bin"@.subrange(44, 62) =~= "/"@ + "blockbehavior"@ + ".bin"@);
    assert("meshes/actors/character/_1stperson/behaviors/blockbehavior.bin"@.subrange(0, 14) =~= "meshes/actors/"@);
    assert("meshes/actors/character/_1stperson/behaviors/blockbehavior.bin"@.subrange(0, 35) =~= "meshes/actors/character/_1stperson/"@);
}

proof fn lemma_first_person_template_5()
    ensures
        names_file("meshes/actors/character/_1stperson/behaviors/bow_direction_behavior.bin"@, "bow_direction_behavior"@),
        has_prefix_text("meshes/actors/character/_1stperson/behaviors/bow_direction_behavior.bin"@, "meshes/actors/"@),
        has_prefix_text("meshes/actors/character/_1stperson/behaviors/bow_direction_behavior.bin"@, "meshes/actors/character/_1stperson/"@),
{
    reveal_strlit("meshes/actors/character/_1stperson/");
    reveal_strlit("/");
    reveal_strlit(".bin");
    reveal_strlit("meshes/actors/");
    reveal_strlit("meshes/actors/character/_1stperson/behaviors/bow_direction_behavior.bin");
    reveal_strlit("bow_direction_behavior");
    assert("meshes/actors/character/_1stperson/behaviors/bow_direction_behavior.bin"@.subrange(44, 71) =~= "/"@ + "bow_direction_behavior"@ + ".bin"@);
    assert("meshes/actors/character/_1stperson/behaviors/bow_direction_behavior.bin"@.subrange(0, 14) =~= "meshes/actors/"@);
    assert("meshes/actors/character/_1stperson/behaviors/bow_direction_behavior.bin"@.subrange(0, 35) =~= "meshes/actors/character/_1stperson/"@);
}

proof fn lemma_first_person_template_6()
    ensures
        names_file("meshes/actors/character/_1stperson/behaviors/crossbow_direction_behavior.bin"@, "crossbow_direction_behavior"@),
        has_prefix_text("meshes/actors/character/_1stperson/behaviors/crossbow_direction_behavior.bin"@, "meshes/actors/"@),
        has_prefix_text("meshes/actors/character/_1stperson/behaviors/crossbow_direction_behavior.bin"@, "meshes/actors/character/_1stperson/"@),
{
    reveal_strlit("meshes/actors/character/_1stperson/");
    reveal_strlit("/");
    reveal_strlit(".bin");
    reveal_strlit("meshes/actors/");
    reveal_strlit("meshes/actors/character/_1stperson/behaviors/crossbow_direction_behavior.bin");
    reveal_strlit("crossbow_direction_behavior");
    assert("meshes/actors/character/_1stperson/behaviors/crossbow_direction_behavior.bin"@.subrange(44, 76) =~= "/"@ + "crossbow_direction_behavior"@ + ".bin"@);
    assert("meshes/actors/character/_1stperson/behaviors/crossbow_direction_behavior.bin"@.subrange(0, 14) =~= "meshes/actors/"@);
    assert("meshes/actors/character/_1stperson/behaviors/crossbow_direction_behavior.bin"@.subrange(0, 35) =~= "meshes/actors/character/_1stperson/"@);
}

proof fn lemma_first_person_template_7()
    ensures
        names_file("meshes/actors/character/_1stperson/characters/firstperson.bin"@, "firstperson"@),
        has_prefix_text("meshes/actors/character/_1stperson/characters/firstperson.bin"@, "meshes/actors/"@),
        has_prefix_text("meshes/actors/character/_1stperson/characters/firstperson.bin"@, "meshes/actors/character/_1stperson/"@),
{
    reveal_strlit("meshes/actors/character/_1stperson/");
    reveal_strlit("/");
    reveal_strlit(".bin");
    reveal_strlit("meshes/actors/");
    reveal_strlit("meshes/actors/character/_1stperson/characters/firstperson.bin");
    reveal_strlit("firstperson");
    assert("meshes/actors/character/_1stperson/characters/firstperson.bin"@.subrange(45, 61) =~= "/"@ + "firstperson"@ + ".bin"@);
    assert("meshes/actors/character/_1stperson/characters/firstperson.bin"@.subrange(0, 14) =~= "meshes/actors/"@);
    assert("meshes/actors/character/_1stperson/characters/firstperson.bin"@.subrange(0, 35) =~= "meshes/actors/character/_1stperson/"@);
}

proof fn lemma_first_person_template_8()
    ensures
        names_file("meshes/actors/character/_1stperson/firstperson_Project.bin"@, "firstperson_Project"@),
        has_prefix_text("meshes/actors/character/_1stperson/firstperson_Project.bin"@, "meshes/actors/"@),
        has_prefix_text("meshes/actors/character/_1stperson/firstperson_Project.bin"@, "meshes/actors/character/_1stperson/"@),
{
    reveal_strlit("meshes/actors/character/_1stperson/");
    reveal_strlit("/");
    reveal_strlit(".bin");
    reveal_strlit("meshes/actors/");
    reveal_strlit("meshes/actors/character/_1stperson/firstperson_Project.bin");
    reveal_strlit("firstperson_Project");
    assert("meshes/actors/character/_1stperson/firstperson_Project.bin"@.subrange(34, 58) =~= "/"@ + "firstperson_Project"@ + ".bin"@);
    assert("meshes/actors/character/_1stperson/firstperson_Project.bin"@.subrange(0, 14) =~= "meshes/actors/"@);
    assert("meshes/actors/character/_1stperson/firstperson_Project.bin"@.subrange(0, 35) =~= "meshes/actors/character/_1stperson/"@);
}

proof fn lemma_first_person_template_9()
    ensures
        names_file("meshes/actors/character/_1stperson/behaviors/horsebehavior.bin"@, "horsebehavior"@),
        has_prefix_text("meshes/actors/character/_1stperson/behaviors/horsebehavior.bin"@, "meshes/actors/"@),
        has_prefix_text("meshes/actors/character/_1stperson/behaviors/horsebehavior.bin"@, "meshes/actors/character/_1stperson/"@),
{
    reveal_strlit("meshes/actors/character/_1stperson/");
    reveal_strlit("/");
    reveal_strlit(".bin");
    reveal_strlit("meshes/actors/");
    reveal_strlit("meshes/actors/character/_1stperson/behaviors/horsebehavior.bin");
    reveal_strlit("horsebehavior");
    assert("meshes/actors/character/_1stperson/behaviors/horsebehavior.bin"@.subrange(44, 62) =~= "/"@ + "horsebehavior"@ + ".bin"@);
    assert("meshes/actors/character/_1stperson/behaviors/horsebehavior.bin"@.subrange(0, 14) =~= "meshes/actors/"@);
    assert("meshes/actors/character/_1stperson/behaviors/horsebehavior.bin"@.subrange(0, 35) =~= "meshes/actors/character/_1stperson/"@);
}

proof fn lemma_first_person_template_10()
    ensures
        names_file("meshes/actors/character/_1stperson/behaviors/idlebehavior.bin"@, "idlebehavior"@),
        has_prefix_text("meshes/actors/character/_1stperson/behaviors/idlebehavior.bin"@, "meshes/actors/"@),
        has_prefix_text("meshes/actors/character/_1stperson/behaviors/idlebehavior.bin"@, "meshes/actors/character/_1stperson/"@),
{
    reveal_strlit("meshes/actors/character/_1stperson/");
    reveal_strlit("/");
    reveal_strlit(".bin");
    reveal_strlit("meshes/actors/");
    reveal_strlit("meshes/actors/character/_1stperson/behaviors/idlebehavior.bin");
    reveal_strlit("idlebehavior");
    assert("meshes/actors/character/_1stperson/behaviors/idlebehavior.bin"@.subrange(44, 61) =~= "/"@ + "idlebehavior"@ + ".bin"@);
    assert("meshes/actors/character/_1stperson/behaviors/idlebehavior.bin"@.subrange(0, 14) =~= "meshes/actors/"@);
    assert("meshes/actors/character/_1stperson/behaviors/idlebehavior.bin"@.subrange(0, 35) =~= "meshes/actors/character/_1stperson/"@);
}

proof fn lemma_first_person_template_11()
    ensures
        names_file("meshes/actors/character/_1stperson/behaviors/magicbehavior.bin"@, "magicbehavior"@),
        has_prefix_text("meshes/actors/character/_1stperson/behaviors/magicbehavior.bin"@, "meshes/actors/"@),
        has_prefix_text("meshes/actors/character/_1stperson/behaviors/magicbehavior.bin"@, "meshes/actors/character/_1stperson/"@),
{
    reveal_strlit("meshes/actors/character/_1stperson/");
    reveal_strlit("/");
    reveal_strlit(".bin");
    reveal_strlit("meshes/actors/");
    reveal_strlit("meshes/actors/character/_1stperson/behaviors/magicbehavior.bin");
    reveal_strlit("magicbehavior");
    assert("meshes/actors/character/_1stperson/behaviors/magicbehavior.bin"@.subrange(44, 62) =~= "/"@ + "magicbehavior"@ + ".bin"@);
    assert("meshes/actors/character/_1stperson/behaviors/magicbehavior.bin"@.subrange(0, 14) =~= "meshes/actors/"@);
    assert("meshes/actors/character/_1stperson/behaviors/magicbehavior.bin"@.subrange(0, 35) =~= "meshes/actors/character/_1stperson/"@);
}

proof fn lemma_first_person_template_12()
    ensures
        names_file("meshes/actors/character/_1stperson/behaviors/magicmountedbehavior.bin"@, "magicmountedbehavior"@),
        has_prefix_text("meshes/actors/character/_1stperson/behaviors/magicmountedbehavior.bin"@, "meshes/actors/"@),
        has_prefix_text("meshes/actors/character/_1stperson/behaviors/magicmountedbehavior.bin"@, "meshes/actors/character/_1stperson/"@),
{
    reveal_strlit("meshes/actors/character/_1stperson/");
    reveal_strlit("/");
    reveal_strlit(".bin");
    reveal_strlit("meshes/actors/");
    reveal_strlit("meshes/actors/character/_1stperson/behaviors/magicmountedbehavior.bin");
    reveal_strlit("magicmountedbehavior");
    assert("meshes/actors/character/_1stperson/behaviors/magicmountedbehavior.bin"@.subrange(44, 69) =~= "/"@ + "magicmountedbehavior"@ + ".bin"@);
    assert("meshes/actors/character/_1stperson/behaviors/magicmountedbehavior.bin"@.subrange(0, 14) =~= "meshes/actors/"@);
    assert("meshes/actors/character/_1stperson/behaviors/magicmountedbehavior.bin"@.subrange(0, 35) =~= "meshes/actors/character/_1stperson/"@);
}

proof fn lemma_first_person_template_13()
    ensures
        names_file("meshes/actors/character/_1stperson/behaviors/mt_behavior.bin"@, "mt_behavior"@),
        has_prefix_text("meshes/actors/character/_1stperson/behaviors/mt_behavior.bin"@, "meshes/actors/"@),
        has_prefix_text("meshes/actors/character/_1stperson/behaviors/mt_behavior.bin"@, "meshes/actors/character/_1stperson/"@),
{
    reveal_strlit("meshes/actors/character/_1stperson/");
    reveal_strlit("/");
    reveal_strlit(".bin");
    reveal_strlit("meshes/actors/");
    reveal_strlit("meshes/actors/character/_1stperson/behaviors/mt_behavior.bin");
    reveal_strlit("mt_behavior");
    assert("meshes/actors/character/_1stperson/behaviors/mt_behavior.bin"@.subrange(44, 60) =~= "/"@ + "mt_behavior"@ + ".bin"@);
    assert("meshes/actors/character/_1stperson/behaviors/mt_behavior.bin"@.subrange(0, 14) =~= "meshes/actors/"@);
    assert("meshes/actors/character/_1stperson/behaviors/mt_behavior.bin"@.subrange(0, 35) =~= "meshes/actors/character/_1stperson/"@);
}

proof fn lemma_first_person_template_14()
    ensures
        names_file("meshes/actors/character/_1stperson/behaviors/shout_behavior.bin"@, "shout_behavior"@),
        has_prefix_text("meshes/actors/character/_1stperson/behaviors/shout_behavior.bin"@, "meshes/actors/"@),
        has_prefix_text("meshes/actors/character/_1stperson/behaviors/shout_behavior.bin"@, "meshes/actors/character/_1stperson/"@),
{
    reveal_strlit("meshes/actors/character/_1stperson/");
    reveal_strlit("/");
    reveal_strlit(".bin");
    reveal_strlit("meshes/actors/");
    reveal_strlit("meshes/actors/character/_1stperson/behaviors/shout_behavior.bin");
    reveal_strlit("shout_behavior");
    assert("meshes/actors/character/_1stperson/behaviors/shout_behavior.bin"@.subrange(44, 63) =~= "/"@ + "shout_behavior"@ + ".bin"@);
    assert("meshes/actors/character/_1stperson/behaviors/shout_behavior.bin"@.subrange(0, 14) =~= "meshes/actors/"@);
    assert("meshes/actors/character/_1stperson/behaviors/shout_behavior.bin"@.subrange(0, 35) =~= "meshes/actors/character/_1stperson/"@);
}

proof fn lemma_first_person_template_15()
    ensures
        names_file("meshes/actors/character/_1stperson/behaviors/shoutmounted_behavior.bin"@, "shoutmounted_behavior"@),
        has_prefix_text("meshes/actors/character/_1stperson/behaviors/shoutmounted_behavior.bin"@, "meshes/actors/"@),
        has_prefix_text("meshes/actors/character/_1stperson/behaviors/shoutmounted_behavior.bin"@, "meshes/actors/character/_1stperson/"@),
{
    reveal_strlit("meshes/actors/character/_1stperson/");
    reveal_strlit("/");
    reveal_strlit(".bin");
    reveal_strlit("meshes/actors/");
    reveal_strlit("meshes/actors/character/_1stperson/behaviors/shoutmounted_behavior.bin");
    reveal_strlit("shoutmounted_behavior");
    assert("meshes/actors/character/_1stperson/behaviors/shoutmounted_behavior.bin"@.subrange(44, 70) =~= "/"@ + "shoutmounted_behavior"@ + ".bin"@);
    assert("meshes/actors/character/_1stperson/behaviors/shoutmounted_behavior.bin"@.subrange(0, 14) =~= "meshes/actors/"@);
    assert("meshes/actors/character/_1stperson/behaviors/shoutmounted_behavior.bin"@.subrange(0, 35) =~= "meshes/actors/character/_1stperson/"@);
}

proof fn lemma_first_person_template_16()
    ensures
        names_file("meshes/actors/character/_1stperson/behaviors/sprintbehavior.bin"@, "sprintbehavior"@),
        has_prefix_text("meshes/actors/character/_1stperson/behaviors/sprintbehavior.bin"@, "meshes/actors/"@),
        has_prefix_text("meshes/actors/character/_1stperson/behaviors/sprintbehavior.bin"@, "meshes/actors/character/_1stperson/"@),
{
    reveal_strlit("meshes/actors/character/_1stperson/");
    reveal_strlit("/");
    reveal_strlit(".bin");
    reveal_strlit("meshes/actors/");
    reveal_strlit("meshes/actors/character/_1stperson/behaviors/sprintbehavior.bin");
    reveal_strlit("sprintbehavior");
    assert("meshes/actors/character/_1stperson/behaviors/sprintbehavior.bin"@.subrange(44, 63) =~= "/"@ + "sprintbehavior"@ + ".bin"@);
    assert("meshes/actors/character/_1stperson/behaviors/sprintbehavior.bin"@.subrange(0, 14) =~= "meshes/actors/"@);
    assert("meshes/actors/character/_1stperson/behaviors/sprintbehavior.bin"@.subrange(0, 35) =~= "meshes/actors/character/_1stperson/"@);
}

proof fn lemma_first_person_template_17()
    ensures
        names_file("meshes/actors/character/_1stperson/behaviors/staggerbehavior.bin"@, "staggerbehavior"@),
        has_prefix_text("meshes/actors/character/_1stperson/behaviors/staggerbehavior.bin"@, "meshes/actors/"@),
        has_prefix_text("meshes/actors/character/_1stperson/behaviors/staggerbehavior.bin"@, "meshes/actors/character/_1stperson/"@),
{
    reveal_strlit("meshes/actors/character/_1stperson/");
    reveal_strlit("/");
    reveal_strlit(".bin");
    reveal_strlit("meshes/actors/");
    reveal_strlit("meshes/actors/character/_1stperson/behaviors/staggerbehavior.bin");
    reveal_strlit("staggerbehavior");
    assert("meshes/actors/character/_1stperson/behaviors/staggerbehavior.bin"@.subrange(44, 64) =~= "/"@ + "staggerbehavior"@ + ".bin"@);
    assert("meshes/actors/character/_1stperson/behaviors/staggerbehavior.bin"@.subrange(0, 14) =~= "meshes/actors/"@);
    assert("meshes/actors/character/_1stperson/behaviors/staggerbehavior.bin"@.subrange(0, 35) =~= "meshes/actors/character/_1stperson/"@);
}

proof fn lemma_first_person_template_18()
    ensures
        names_file("meshes/actors/character/_1stperson/behaviors/weapequip.bin"@, "weapequip"@),
        has_prefix_text("meshes/actors/character/_1stperson/behaviors/weapequip.bin"@, "meshes/actors/"@),
        has_prefix_text("meshes/actors/character/_1stperson/behaviors/weapequip.bin"@, "meshes/actors/character/_1stperson/"@),
{
    reveal_strlit("meshes/actors/character/_1stperson/");
    reveal_strlit("/");
    reveal_strlit(".bin");
    reveal_strlit("meshes/actors/");
    reveal_strlit("meshes/actors/character/_1stperson/behaviors/weapequip.bin");
    reveal_strlit("weapequip");
    assert("meshes/actors/character/_1stperson/behaviors/weapequip.bin"@.subrange(44, 58) =~= "/"@ + "weapequip"@ + ".bin"@);
    assert("meshes/actors/character/_1stperson/behaviors/weapequip.bin"@.subrange(0, 14) =~= "meshes/actors/"@);
    assert("meshes/actors/character/_1stperson/behaviors/weapequip.bin"@.subrange(0, 35) =~= "meshes/actors/character/_1stperson/"@);
}

/// A template that exists in both persons is the same file, in 1st person under
/// `meshes/actors/character/_1stperson/` where the 3rd person one is under
/// `meshes/actors/character/`.
pub proof fn lemma_first_person_templates_mirror_third(stem: Seq<char>)
    ensures
        template_of(stem, true) matches Some(t1) ==> (template_of(stem, false) matches Some(t3) ==> has_prefix_text(
            t3,
            "meshes/actors/character/"@,
        ) && t1 == "meshes/actors/character/_1stperson/"@ + t3.subrange(24, t3.len() as int)),
{
    if stem == "0_master"@ {
        lemma_person_templates_0();
    } else if stem == "1hm_behavior"@ {
        lemma_person_templates_1();
    } else if stem == "1hm_locomotion"@ {
        lemma_person_templates_2();
    } else if stem == "bashbehavior"@ {
        lemma_person_templates_3();
    } else if stem == "blockbehavior"@ {
        lemma_person_templates_4();
    } else if stem == "bow_direction_behavior"@ {
        lemma_person_templates_5();
    } else if stem == "crossbow_direction_behavior"@ {
        lemma_person_templates_6();
    } else if stem == "firstperson"@ {
        lemma_person_templates_7();
    } else if stem == "firstperson_Project"@ {
        lemma_person_templates_8();
    } else if stem == "horsebehavior"@ {
        lemma_person_templates_9();
    } else if stem == "idlebehavior"@ {
        lemma_person_templates_10();
    } else if stem == "magicbehavior"@ {
        lemma_person_templates_11();
    } else if stem == "magicmountedbehavior"@ {
        lemma_person_templates_12();
    } else if stem == "mt_behavior"@ {
        lemma_person_templates_13();
    } else if stem == "shout_behavior"@ {
        lemma_person_templates_14();
    } else if stem == "shoutmounted_behavior"@ {
        lemma_person_templates_15();
    } else if stem == "sprintbehavior"@ {
        lemma_person_templates_16();
    } else if stem == "staggerbehavior"@ {
        lemma_person_templates_17();
    } else if stem == "weapequip"@ {
        lemma_person_templates_18();
    }
}

proof fn lemma_person_templates_0()
    ensures
        third_person_template("0_master"@) == Some("meshes/actors/character/behaviors/0_master.bin"@),
        has_prefix_text("meshes/actors/character/behaviors/0_master.bin"@, "meshes/actors/character/"@),
        "meshes/actors/character/_1stperson/behaviors/0_master.bin"@ == "meshes/actors/character/_1stperson/"@ + "meshes/actors/character/behaviors/0_master.bin"@.subrange(24, "meshes/actors/character/behaviors/0_master.bin"@.len() as int),
{
    reveal_strlit("0_master");
    reveal_strlit("meshes/actors/character/behaviors/0_master.bin");
    reveal_strlit("meshes/actors/character/_1stperson/behaviors/0_master.bin");
    reveal_strlit("meshes/actors/character/");
    reveal_strlit("meshes/actors/character/_1stperson/");
    assert("meshes/actors/character/behaviors/0_master.bin"@.subrange(0, 24) =~= "meshes/actors/character/"@);
    assert("meshes/actors/character/_1stperson/behaviors/0_master.bin"@ =~= "meshes/actors/character/_1stperson/"@ + "meshes/actors/character/behaviors/0_master.bin"@.subrange(24, 46));
}

proof fn lemma_person_templates_1()
    ensures
        third_person_template("1hm_behavior"@) == Some("meshes/actors/character/behaviors/1hm_behavior.bin"@),
        has_prefix_text("meshes/actors/character/behaviors/1hm_behavior.bin"@, "meshes/actors/character/"@),
        "meshes/actors/character/_1stperson/behaviors/1hm_behavior.bin"@ == "meshes/actors/character/_1stperson/"@ + "meshes/actors/character/behaviors/1hm_behavior.bin"@.subrange(24, "meshes/actors/character/behaviors/1hm_behavior.bin"@.len() as int),
{
    reveal_strlit("1hm_behavior");
    reveal_strlit("0_master");
    assert("1hm_behavior"@.len() != "0_master"@.len());
    reveal_strlit("meshes/actors/character/behaviors/1hm_behavior.bin");
    reveal_strlit("meshes/actors/character/_1stperson/behaviors/1hm_behavior.bin");
    reveal_strlit("meshes/actors/character/");
    reveal_strlit("meshes/actors/character/_1stperson/");
    assert("meshes/actors/character/behaviors/1hm_behavior.bin"@.subrange(0, 24) =~= "meshes/actors/character/"@);
    assert("meshes/actors/character/_1stperson/behaviors/1hm_behavior.bin"@ =~= "meshes/actors/character/_1stperson/"@ + "meshes/actors/character/behaviors/1hm_behavior.bin"@.subrange(24, 50));
}

proof fn lemma_person_templates_2()
    ensures
        third_person_template("1hm_locomotion"@) == Some("meshes/actors/character/behaviors/1hm_locomotion.bin"@),
        has_prefix_text("meshes/actors/character/behaviors/1hm_locomotion.bin"@, "meshes/actors/character/"@),
        "meshes/actors/character/_1stperson/behaviors/1hm_locomotion.bin"@ == "meshes/actors/character/_1stperson/"@ + "meshes/actors/character/behaviors/1hm_locomotion.bin"@.subrange(24, "meshes/actors/character/behaviors/1hm_locomotion.bin"@.len() as int),
{
    reveal_strlit("1hm_locomotion");
    reveal_strlit("0_master");
    assert("1hm_locomotion"@.len() != "0_master"@.len());
    reveal_strlit("1hm_behavior");
    assert("1hm_locomotion"@.len() != "1hm_behavior"@.len());
    reveal_strlit("meshes/actors/character/behaviors/1hm_locomotion.bin");
    reveal_strlit("meshes/actors/character/_1stperson/behaviors/1hm_locomotion.bin");
    reveal_strlit("meshes/actors/character/");
    reveal_strlit("meshes/actors/character/_1stperson/");
    assert("meshes/actors/character/behaviors/1hm_locomotion.bin"@.subrange(0, 24) =~= "meshes/actors/character/"@);
    assert("meshes/actors/character/_1stperson/behaviors/1hm_locomotion.bin"@ =~= "meshes/actors/character/_1stperson/"@ + "meshes/actors/character/behaviors/1hm_locomotion.bin"@.subrange(24, 52));
}

proof fn lemma_person_templates_3()
    ensures
        third_person_template("bashbehavior"@) == Some("meshes/actors/character/behaviors/bashbehavior.bin"@),
        has_prefix_text("meshes/actors/character/behaviors/bashbehavior.bin"@, "meshes/actors/character/"@),
        "meshes/actors/character/_1stperson/behaviors/bashbehavior.bin"@ == "meshes/actors/character/_1stperson/"@ + "meshes/actors/character/behaviors/bashbehavior.bin"@.subrange(24, "meshes/actors/character/behaviors/bashbehavior.bin"@.len() as int),
{
    reveal_strlit("bashbehavior");
    reveal_strlit("0_master");
    assert("bashbehavior"@.len() != "0_master"@.len());
    reveal_strlit("1hm_behavior");
    assert("bashbehavior"@[0] != "1hm_behavior"@[0]);
    reveal_strlit("1hm_locomotion");
    assert("bashbehavior"@.len() != "1hm_locomotion"@.len());
    reveal_strlit("atronachflamebehavior");
    assert("bashbehavior"@.len() != "atronachflamebehavior"@.len());
    reveal_strlit("atronachfrostbehavior");
    assert("bashbehavior"@.len() != "atronachfrostbehavior"@.len());
    reveal_strlit("atronachstormbehavior");
    assert("bashbehavior"@.len() != "atronachstormbehavior"@.len());
    reveal_strlit("meshes/actors/character/behaviors/bashbehavior.bin");
    reveal_strlit("meshes/actors/character/_1stperson/behaviors/bashbehavior.bin");
    reveal_strlit("meshes/actors/character/");
    reveal_strlit("meshes/actors/character/_1stperson/");
    assert("meshes/actors/character/behaviors/bashbehavior.bin"@.subrange(0, 24) =~= "meshes/actors/character/"@);
    assert("meshes/actors/character/_1stperson/behaviors/bashbehavior.bin"@ =~= "meshes/actors/character/_1stperson/"@ + "meshes/actors/character/behaviors/bashbehavior.bin"@.subrange(24, 50));
}

proof fn lemma_person_templates_4()
    ensures
        third_person_template("blockbehavior"@) == Some("meshes/actors/character/behaviors/blockbehavior.bin"@),
        has_prefix_text("meshes/actors/character/behaviors/blockbehavior.bin"@, "meshes/actors/character/"@),
        "meshes/actors/character/_1stperson/behaviors/blockbehavior.bin"@ == "meshes/actors/character/_1stperson/"@ + "meshes/actors/character/behaviors/blockbehavior.bin"@.subrange(24, "meshes/actors/character/behaviors/blockbehavior.bin"@.len() as int),
{
    reveal_strlit("blockbehavior");
    reveal_strlit("0_master");
    assert("blockbehavior"@.len() != "0_master"@.len());
    reveal_strlit("1hm_behavior");
    assert("blockbehavior"@.len() != "1hm_behavior"@.len());
    reveal_strlit("1hm_locomotion");
    assert("blockbehavior"@.len() != "1hm_locomotion"@.len());
    reveal_strlit("atronachflamebehavior");
    assert("blockbehavior"@.len() != "atronachflamebehavior"@.len());
    reveal_strlit("atronachfrostbehavior");
    assert("blockbehavior"@.len() != "atronachfrostbehavior"@.len());
    reveal_strlit("atronachstormbehavior");
    assert("blockbehavior"@.len() != "atronachstormbehavior"@.len());
    reveal_strlit("bashbehavior");
    assert("blockbehavior"@.len() != "bashbehavior"@.len());
    reveal_strlit("bcbehavior");
    assert("blockbehavior"@.len() != "bcbehavior"@.len());
    reveal_strlit("bearbehavior");
    assert("blockbehavior"@.len() != "bearbehavior"@.len());
    reveal_strlit("benthiclurkerbehavior");
    assert("blockbehavior"@.len() != "benthiclurkerbehavior"@.len());
    reveal_strlit("meshes/actors/character/behaviors/blockbehavior.bin");
    reveal_strlit("meshes/actors/character/_1stperson/behaviors/blockbehavior.bin");
    reveal_strlit("meshes/actors/character/");
    reveal_strlit("meshes/actors/character/_1stperson/");
    assert("meshes/actors/character/behaviors/blockbehavior.bin"@.subrange(0, 24) =~= "meshes/actors/character/"@);
    assert("meshes/actors/character/_1stperson/behaviors/blockbehavior.bin"@ =~= "meshes/actors/character/_1stperson/"@ + "meshes/actors/character/behaviors/blockbehavior.bin"@.subrange(24, 51));
}

proof fn lemma_person_templates_5()
    ensures
        third_person_template("bow_direction_behavior"@) == Some("meshes/actors/character/behaviors/bow_direction_behavior.bin"@),
        has_prefix_text("meshes/actors/character/behaviors/bow_direction_behavior.bin"@, "meshes/actors/character/"@),
        "meshes/actors/character/_1stperson/behaviors/bow_direction_behavior.bin"@ == "meshes/actors/character/_1stperson/"@ + "meshes/actors/character/behaviors/bow_direction_behavior.bin"@.subrange(24, "meshes/actors/character/behaviors/bow_direction_behavior.bin"@.len() as int),
{
    reveal_strlit("bow_direction_behavior");
    reveal_strlit("0_master");
    assert("bow_direction_behavior"@.len() != "0_master"@.len());
    reveal_strlit("1hm_behavior");
    assert("bow_direction_behavior"@.len() != "1hm_behavior"@.len());
    reveal_strlit("1hm_locomotion");
    assert("bow_direction_behavior"@.len() != "1hm_locomotion"@.len());
    reveal_strlit("atronachflamebehavior");
    assert("bow_direction_behavior"@.len() != "atronachflamebehavior"@.len());
    reveal_strlit("atronachfrostbehavior");
    assert("bow_direction_behavior"@.len() != "atronachfrostbehavior"@.len());
    reveal_strlit("atronachstormbehavior");
    assert("bow_direction_behavior"@.len() != "atronachstormbehavior"@.len());
    reveal_strlit("bashbehavior");
    assert("bow_direction_behavior"@.len() != "bashbehavior"@.len());
    reveal_strlit("bcbehavior");
    assert("bow_direction_behavior"@.len() != "bcbehavior"@.len());
    reveal_strlit("bearbehavior");
    assert("bow_direction_behavior"@.len() != "bearbehavior"@.len());
    reveal_strlit("benthiclurkerbehavior");
    assert("bow_direction_behavior"@.len() != "benthiclurkerbehavior"@.len());
    reveal_strlit("blockbehavior");
    assert("bow_direction_behavior"@.len() != "blockbehavior"@.len());
    reveal_strlit("boarbehavior");
    assert("bow_direction_behavior"@.len() != "boarbehavior"@.len());
    reveal_strlit("meshes/actors/character/behaviors/bow_direction_behavior.bin");
    reveal_strlit("meshes/actors/character/_1stperson/behaviors/bow_direction_behavior.bin");
    reveal_strlit("meshes/actors/character/");
    reveal_strlit("meshes/actors/character/_1stperson/");
    assert("meshes/actors/character/behaviors/bow_direction_behavior.bin"@.subrange(0, 24) =~= "meshes/actors/character/"@);
    assert("meshes/actors/character/_1stperson/behaviors/bow_direction_behavior.bin"@ =~= "meshes/actors/character/_1stperson/"@ + "meshes/actors/character/behaviors/bow_direction_behavior.bin"@.subrange(24, 60));
}

proof fn lemma_person_templates_6()
    ensures
        third_person_template("crossbow_direction_behavior"@) == Some("meshes/actors/character/behaviors/crossbow_direction_behavior.bin"@),
        has_prefix_text("meshes/actors/character/behaviors/crossbow_direction_behavior.bin"@, "meshes/actors/character/"@),
        "meshes/actors/character/_1stperson/behaviors/crossbow_direction_behavior.bin"@ == "meshes/actors/character/_1stperson/"@ + "meshes/actors/character/behaviors/crossbow_direction_behavior.bin"@.subrange(24, "meshes/actors/character/behaviors/crossbow_direction_behavior.bin"@.len() as int),
{
    reveal_strlit("crossbow_direction_behavior");
    reveal_strlit("0_master");
    assert("crossbow_direction_behavior"@.len() != "0_master"@.len());
    reveal_strlit("1hm_behavior");
    assert("crossbow_direction_behavior"@.len() != "1hm_behavior"@.len());
    reveal_strlit("1hm_locomotion");
    assert("crossbow_direction_behavior"@.len() != "1hm_locomotion"@.len());
    reveal_strlit("atronachflamebehavior");
    assert("crossbow_direction_behavior"@.len() != "atronachflamebehavior"@.len());
    reveal_strlit("atronachfrostbehavior");
    assert("crossbow_direction_behavior"@.len() != "atronachfrostbehavior"@.len());
    reveal_strlit("atronachstormbehavior");
    assert("crossbow_direction_behavior"@.len() != "atronachstormbehavior"@.len());
    reveal_strlit("bashbehavior");
    assert("crossbow_direction_behavior"@.len() != "bashbehavior"@.len());
    reveal_strlit("bcbehavior");
    assert("crossbow_direction_behavior"@.len() != "bcbehavior"@.len());
    reveal_strlit("bearbehavior");
    assert("crossbow_direction_behavior"@.len() != "bearbehavior"@.len());
    reveal_strlit("benthiclurkerbehavior");
    assert("crossbow_direction_behavior"@.len() != "benthiclurkerbehavior"@.len());
    reveal_strlit("blockbehavior");
    assert("crossbow_direction_behavior"@.len() != "blockbehavior"@.len());
    reveal_strlit("boarbehavior");
    assert("crossbow_direction_behavior"@.len() != "boarbehavior"@.len());
    reveal_strlit("bow_direction_behavior");
    assert("crossbow_direction_behavior"@.len() != "bow_direction_behavior"@.len());
    reveal_strlit("chaurusbehavior");
    assert("crossbow_direction_behavior"@.len() != "chaurusbehavior"@.len());
    reveal_strlit("chaurusflyerbehavior");
    assert("crossbow_direction_behavior"@.len() != "chaurusflyerbehavior"@.len());
    reveal_strlit("chickenbehavior");
    assert("crossbow_direction_behavior"@.len() != "chickenbehavior"@.len());
    reveal_strlit("meshes/actors/character/behaviors/crossbow_direction_behavior.bin");
    reveal_strlit("meshes/actors/character/_1stperson/behaviors/crossbow_direction_behavior.bin");
    reveal_strlit("meshes/actors/character/");
    reveal_strlit("meshes/actors/character/_1stperson/");
    assert("meshes/actors/character/behaviors/crossbow_direction_behavior.bin"@.subrange(0, 24) =~= "meshes/actors/character/"@);
    assert("meshes/actors/character/_1stperson/behaviors/crossbow_direction_behavior.bin"@ =~= "meshes/actors/character/_1stperson/"@ + "meshes/actors/character/behaviors/crossbow_direction_behavior.bin"@.subrange(24, 65));
}

proof fn lemma_person_templates_7()
    ensures
        third_person_template("firstperson"@) is None,
{
    reveal_strlit("firstperson");
    reveal_strlit("0_master");
    assert("firstperson"@.len() != "0_master"@.len());
    reveal_strlit("1hm_behavior");
    assert("firstperson"@.len() != "1hm_behavior"@.len());
    reveal_strlit("1hm_locomotion");
    assert("firstperson"@.len() != "1hm_locomotion"@.len());
    reveal_strlit("atronachflamebehavior");
    assert("firstperson"@.len() != "atronachflamebehavior"@.len());
    reveal_strlit("atronachfrostbehavior");
    assert("firstperson"@.len() != "atronachfrostbehavior"@.len());
    reveal_strlit("atronachstormbehavior");
    assert("firstperson"@.len() != "atronachstormbehavior"@.len());
    reveal_strlit("bashbehavior");
    assert("firstperson"@.len() != "bashbehavior"@.len());
    reveal_strlit("bcbehavior");
    assert("firstperson"@.len() != "bcbehavior"@.len());
    reveal_strlit("bearbehavior");
    assert("firstperson"@.len() != "bearbehavior"@.len());
    reveal_strlit("benthiclurkerbehavior");
    assert("firstperson"@.len() != "benthiclurkerbehavior"@.len());
    reveal_strlit("blockbehavior");
    assert("firstperson"@.len() != "blockbehavior"@.len());
    reveal_strlit("boarbehavior");
    assert("firstperson"@.len() != "boarbehavior"@.len());
    reveal_strlit("bow_direction_behavior");
    assert("firstperson"@.len() != "bow_direction_behavior"@.len());
    reveal_strlit("chaurusbehavior");
    assert("firstperson"@.len() != "chaurusbehavior"@.len());
    reveal_strlit("chaurusflyerbehavior");
    assert("firstperson"@.len() != "chaurusflyerbehavior"@.len());
    reveal_strlit("chickenbehavior");
    assert("firstperson"@.len() != "chickenbehavior"@.len());
    reveal_strlit("crossbow_direction_behavior");
    assert("firstperson"@.len() != "crossbow_direction_behavior"@.len());
    reveal_strlit("deerbehavior");
    assert("firstperson"@.len() != "deerbehavior"@.len());
    reveal_strlit("defaultfemale");
    assert("firstperson"@.len() != "defaultfemale"@.len());
    reveal_strlit("defaultmale");
    assert("firstperson"@[0] != "defaultmale"@[0]);
    reveal_strlit("dogbehavior");
    assert("firstperson"@[0] != "dogbehavior"@[0]);
    reveal_strlit("dragon_priest");
    assert("firstperson"@.len() != "dragon_priest"@.len());
    reveal_strlit("dragonbehavior");
    assert("firstperson"@.len() != "dragonbehavior"@.len());
    reveal_strlit("draugr");
    assert("firstperson"@.len() != "draugr"@.len());
    reveal_strlit("draugr_skeleton");
    assert("firstperson"@.len() != "draugr_skeleton"@.len());
    reveal_strlit("draugrbehavior");
    assert("firstperson"@.len() != "draugrbehavior"@.len());
    reveal_strlit("dwarvenspiderbehavior");
    assert("firstperson"@.len() != "dwarvenspiderbehavior"@.len());
    reveal_strlit("falmerbehavior");
    assert("firstperson"@.len() != "falmerbehavior"@.len());
    reveal_strlit("frostbitespiderbehavior");
    assert("firstperson"@.len() != "frostbitespiderbehavior"@.len());
    reveal_strlit("giantbehavior");
    assert("firstperson"@.len() != "giantbehavior"@.len());
    reveal_strlit("goatbehavior");
    assert("firstperson"@.len() != "goatbehavior"@.len());
    reveal_strlit("h-cowbehavior");
    assert("firstperson"@.len() != "h-cowbehavior"@.len());
    reveal_strlit("h-cowbehavior_lod");
    assert("firstperson"@.len() != "h-cowbehavior_lod"@.len());
    reveal_strlit("harebehavior");
    assert("firstperson"@.len() != "harebehavior"@.len());
    reveal_strlit("havgravenbehavior");
    assert("firstperson"@.len() != "havgravenbehavior"@.len());
    reveal_strlit("hmdaedra");
    assert("firstperson"@.len() != "hmdaedra"@.len());
    reveal_strlit("horkerbehavior");
    assert("firstperson"@.len() != "horkerbehavior"@.len());
    reveal_strlit("horsebehavior");
    assert("firstperson"@.len() != "horsebehavior"@.len());
    reveal_strlit("icewraithbehavior");
    assert("firstperson"@.len() != "icewraithbehavior"@.len());
    reveal_strlit("idlebehavior");
    assert("firstperson"@.len() != "idlebehavior"@.len());
    reveal_strlit("magic_readied_direction_behavior");
    assert("firstperson"@.len() != "magic_readied_direction_behavior"@.len());
    reveal_strlit("magicbehavior");
    assert("firstperson"@.len() != "magicbehavior"@.len());
    reveal_strlit("magicmountedbehavior");
    assert("firstperson"@.len() != "magicmountedbehavior"@.len());
    reveal_strlit("mammothbehavior");
    assert("firstperson"@.len() != "mammothbehavior"@.len());
    reveal_strlit("mt_behavior");
    assert("firstperson"@[0] != "mt_behavior"@[0]);
    reveal_strlit("mudcrabbehavior");
    assert("firstperson"@.len() != "mudcrabbehavior"@.len());
    reveal_strlit("netchbehavior");
    assert("firstperson"@.len() != "netchbehavior"@.len());
    reveal_strlit("rieklingbehavior");
    assert("firstperson"@.len() != "rieklingbehavior"@.len());
    reveal_strlit("sabrecatbehavior");
    assert("firstperson"@.len() != "sabrecatbehavior"@.len());
    reveal_strlit("scbehavior");
    assert("firstperson"@.len() != "scbehavior"@.len());
    reveal_strlit("scribbehavior");
    assert("firstperson"@.len() != "scribbehavior"@.len());
    reveal_strlit("shout_behavior");
    assert("firstperson"@.len() != "shout_behavior"@.len());
    reveal_strlit("shoutmounted_behavior");
    assert("firstperson"@.len() != "shoutmounted_behavior"@.len());
    reveal_strlit("skeeverbehavior");
    assert("firstperson"@.len() != "skeeverbehavior"@.len());
    reveal_strlit("slaughterfishbehavior");
    assert("firstperson"@.len() != "slaughterfishbehavior"@.len());
    reveal_strlit("sprigganbehavior");
    assert("firstperson"@.len() != "sprigganbehavior"@.len());
    reveal_strlit("sprintbehavior");
    assert("firstperson"@.len() != "sprintbehavior"@.len());
    reveal_strlit("staggerbehavior");
    assert("firstperson"@.len() != "staggerbehavior"@.len());
    reveal_strlit("steambehavior");
    assert("firstperson"@.len() != "steambehavior"@.len());
    reveal_strlit("trollbehavior");
    assert("firstperson"@.len() != "trollbehavior"@.len());
    reveal_strlit("vampirebrutebehavior");
    assert("firstperson"@.len() != "vampirebrutebehavior"@.len());
    reveal_strlit("weapequip");
    assert("firstperson"@.len() != "weapequip"@.len());
    reveal_strlit("werewolf");
    assert("firstperson"@.len() != "werewolf"@.len());
    reveal_strlit("werewolfbeastproject");
    assert("firstperson"@.len() != "werewolfbeastproject"@.len());
    reveal_strlit("werewolfbehavior");
    assert("firstperson"@.len() != "werewolfbehavior"@.len());
    reveal_strlit("wispbehavior");
    assert("firstperson"@.len() != "wispbehavior"@.len());
    reveal_strlit("witchlightbehavior");
    assert("firstperson"@.len() != "witchlightbehavior"@.len());
    reveal_strlit("wolfbehavior");
    assert("firstperson"@.len() != "wolfbehavior"@.len());
}

proof fn lemma_person_templates_8()
    ensures
        third_person_template("firstperson_Project"@) is None,
{
    reveal_strlit("firstperson_Project");
    reveal_strlit("0_master");
    assert("firstperson_Project"@.len() != "0_master"@.len());
    reveal_strlit("1hm_behavior");
    assert("firstperson_Project"@.len() != "1hm_behavior"@.len());
    reveal_strlit("1hm_locomotion");
    assert("firstperson_Project"@.len() != "1hm_locomotion"@.len());
    reveal_strlit("atronachflamebehavior");
    assert("firstperson_Project"@.len() != "atronachflamebehavior"@.len());
    reveal_strlit("atronachfrostbehavior");
    assert("firstperson_Project"@.len() != "atronachfrostbehavior"@.len());
    reveal_strlit("atronachstormbehavior");
    assert("firstperson_Project"@.len() != "atronachstormbehavior"@.len());
    reveal_strlit("bashbehavior");
    assert("firstperson_Project"@.len() != "bashbehavior"@.len());
    reveal_strlit("bcbehavior");
    assert("firstperson_Project"@.len() != "bcbehavior"@.len());
    reveal_strlit("bearbehavior");
    assert("firstperson_Project"@.len() != "bearbehavior"@.len());
    reveal_strlit("benthiclurkerbehavior");
    assert("firstperson_Project"@.len() != "benthiclurkerbehavior"@.len());
    reveal_strlit("blockbehavior");
    assert("firstperson_Project"@.len() != "blockbehavior"@.len());
    reveal_strlit("boarbehavior");
    assert("firstperson_Project"@.len() != "boarbehavior"@.len());
    reveal_strlit("bow_direction_behavior");
    assert("firstperson_Project"@.len() != "bow_direction_behavior"@.len());
    reveal_strlit("chaurusbehavior");
    assert("firstperson_Project"@.len() != "chaurusbehavior"@.len());
    reveal_strlit("chaurusflyerbehavior");
    assert("firstperson_Project"@.len() != "chaurusflyerbehavior"@.len());
    reveal_strlit("chickenbehavior");
    assert("firstperson_Project"@.len() != "chickenbehavior"@.len());
    reveal_strlit("crossbow_direction_behavior");
    assert("firstperson_Project"@.len() != "crossbow_direction_behavior"@.len());
    reveal_strlit("deerbehavior");
    assert("firstperson_Project"@.len() != "deerbehavior"@.len());
    reveal_strlit("defaultfemale");
    assert("firstperson_Project"@.len() != "defaultfemale"@.len());
    reveal_strlit("defaultmale");
    assert("firstperson_Project"@.len() != "defaultmale"@.len());
    reveal_strlit("dogbehavior");
    assert("firstperson_Project"@.len() != "dogbehavior"@.len());
    reveal_strlit("dragon_priest");
    assert("firstperson_Project"@.len() != "dragon_priest"@.len());
    reveal_strlit("dragonbehavior");
    assert("firstperson_Project"@.len() != "dragonbehavior"@.len());
    reveal_strlit("draugr");
    assert("firstperson_Project"@.len() != "draugr"@.len());
    reveal_strlit("draugr_skeleton");
    assert("firstperson_Project"@.len() != "draugr_skeleton"@.len());
    reveal_strlit("draugrbehavior");
    assert("firstperson_Project"@.len() != "draugrbehavior"@.len());
    reveal_strlit("dwarvenspiderbehavior");
    assert("firstperson_Project"@.len() != "dwarvenspiderbehavior"@.len());
    reveal_strlit("falmerbehavior");
    assert("firstperson_Project"@.len() != "falmerbehavior"@.len());
    reveal_strlit("frostbitespiderbehavior");
    assert("firstperson_Project"@.len() != "frostbitespiderbehavior"@.len());
    reveal_strlit("giantbehavior");
    assert("firstperson_Project"@.len() != "giantbehavior"@.len());
    reveal_strlit("goatbehavior");
    assert("firstperson_Project"@.len() != "goatbehavior"@.len());
    reveal_strlit("h-cowbehavior");
    assert("firstperson_Project"@.len() != "h-cowbehavior"@.len());
    reveal_strlit("h-cowbehavior_lod");
    assert("firstperson_Project"@.len() != "h-cowbehavior_lod"@.len());
    reveal_strlit("harebehavior");
    assert("firstperson_Project"@.len() != "harebehavior"@.len());
    reveal_strlit("havgravenbehavior");
    assert("firstperson_Project"@.len() != "havgravenbehavior"@.len());
    reveal_strlit("hmdaedra");
    assert("firstperson_Project"@.len() != "hmdaedra"@.len());
    reveal_strlit("horkerbehavior");
    assert("firstperson_Project"@.len() != "horkerbehavior"@.len());
    reveal_strlit("horsebehavior");
    assert("firstperson_Project"@.len() != "horsebehavior"@.len());
    reveal_strlit("icewraithbehavior");
    assert("firstperson_Project"@.len() != "icewraithbehavior"@.len());
    reveal_strlit("idlebehavior");
    assert("firstperson_Project"@.len() != "idlebehavior"@.len());
    reveal_strlit("magic_readied_direction_behavior");
    assert("firstperson_Project"@.len() != "magic_readied_direction_behavior"@.len());
    reveal_strlit("magicbehavior");
    assert("firstperson_Project"@.len() != "magicbehavior"@.len());
    reveal_strlit("magicmountedbehavior");
    assert("firstperson_Project"@.len() != "magicmountedbehavior"@.len());
    reveal_strlit("mammothbehavior");
    assert("firstperson_Project"@.len() != "mammothbehavior"@.len());
    reveal_strlit("mt_behavior");
    assert("firstperson_Project"@.len() != "mt_behavior"@.len());
    reveal_strlit("mudcrabbehavior");
    assert("firstperson_Project"@.len() != "mudcrabbehavior"@.len());
    reveal_strlit("netchbehavior");
    assert("firstperson_Project"@.len() != "netchbehavior"@.len());
    reveal_strlit("rieklingbehavior");
    assert("firstperson_Project"@.len() != "rieklingbehavior"@.len());
    reveal_strlit("sabrecatbehavior");
    assert("firstperson_Project"@.len() != "sabrecatbehavior"@.len());
    reveal_strlit("scbehavior");
    assert("firstperson_Project"@.len() != "scbehavior"@.len());
    reveal_strlit("scribbehavior");
    assert("firstperson_Project"@.len() != "scribbehavior"@.len());
    reveal_strlit("shout_behavior");
    assert("firstperson_Project"@.len() != "shout_behavior"@.len());
    reveal_strlit("shoutmounted_behavior");
    assert("firstperson_Project"@.len() != "shoutmounted_behavior"@.len());
    reveal_strlit("skeeverbehavior");
    assert("firstperson_Project"@.len() != "skeeverbehavior"@.len());
    reveal_strlit("slaughterfishbehavior");
    assert("firstperson_Project"@.len() != "slaughterfishbehavior"@.len());
    reveal_strlit("sprigganbehavior");
    assert("firstperson_Project"@.len() != "sprigganbehavior"@.len());
    reveal_strlit("sprintbehavior");
    assert("firstperson_Project"@.len() != "sprintbehavior"@.len());
    reveal_strlit("staggerbehavior");
    assert("firstperson_Project"@.len() != "staggerbehavior"@.len());
    reveal_strlit("steambehavior");
    assert("firstperson_Project"@.len() != "steambehavior"@.len());
    reveal_strlit("trollbehavior");
    assert("firstperson_Project"@.len() != "trollbehavior"@.len());
    reveal_strlit("vampirebrutebehavior");
    assert("firstperson_Project"@.len() != "vampirebrutebehavior"@.len());
    reveal_strlit("weapequip");
    assert("firstperson_Project"@.len() != "weapequip"@.len());
    reveal_strlit("werewolf");
    assert("firstperson_Project"@.len() != "werewolf"@.len());
    reveal_strlit("werewolfbeastproject");
    assert("firstperson_Project"@.len() != "werewolfbeastproject"@.len());
    reveal_strlit("werewolfbehavior");
    assert("firstperson_Project"@.len() != "werewolfbehavior"@.len());
    reveal_strlit("wispbehavior");
    assert("firstperson_Project"@.len() != "wispbehavior"@.len());
    reveal_strlit("witchlightbehavior");
    assert("firstperson_Project"@.len() != "witchlightbehavior"@.len());
    reveal_strlit("wolfbehavior");
    assert("firstperson_Project"@.len() != "wolfbehavior"@.len());
}

proof fn lemma_person_templates_9()
    ensures
        third_person_template("horsebehavior"@) == Some("meshes/actors/character/behaviors/horsebehavior.bin"@),
        has_prefix_text("meshes/actors/character/behaviors/horsebehavior.bin"@, "meshes/actors/character/"@),
        "meshes/actors/character/_1stperson/behaviors/horsebehavior.bin"@ == "meshes/actors/character/_1stperson/"@ + "meshes/actors/character/behaviors/horsebehavior.bin"@.subrange(24, "meshes/actors/character/behaviors/horsebehavior.bin"@.len() as int),
{
    reveal_strlit("horsebehavior");
    reveal_strlit("0_master");
    assert("horsebehavior"@.len() != "0_master"@.len());
    reveal_strlit("1hm_behavior");
    assert("horsebehavior"@.len() != "1hm_behavior"@.len());
    reveal_strlit("1hm_locomotion");
    assert("horsebehavior"@.len() != "1hm_locomotion"@.len());
    reveal_strlit("atronachflamebehavior");
    assert("horsebehavior"@.len() != "atronachflamebehavior"@.len());
    reveal_strlit("atronachfrostbehavior");
    assert("horsebehavior"@.len() != "atronachfrostbehavior"@.len());
    reveal_strlit("atronachstormbehavior");
    assert("horsebehavior"@.len() != "atronachstormbehavior"@.len());
    reveal_strlit("bashbehavior");
    assert("horsebehavior"@.len() != "bashbehavior"@.len());
    reveal_strlit("bcbehavior");
    assert("horsebehavior"@.len() != "bcbehavior"@.len());
    reveal_strlit("bearbehavior");
    assert("horsebehavior"@.len() != "bearbehavior"@.len());
    reveal_strlit("benthiclurkerbehavior");
    assert("horsebehavior"@.len() != "benthiclurkerbehavior"@.len());
    reveal_strlit("blockbehavior");
    assert("horsebehavior"@[0] != "blockbehavior"@[0]);
    reveal_strlit("boarbehavior");
    assert("horsebehavior"@.len() != "boarbehavior"@.len());
    reveal_strlit("bow_direction_behavior");
    assert("horsebehavior"@.len() != "bow_direction_behavior"@.len());
    reveal_strlit("chaurusbehavior");
    assert("horsebehavior"@.len() != "chaurusbehavior"@.len());
    reveal_strlit("chaurusflyerbehavior");
    assert("horsebehavior"@.len() != "chaurusflyerbehavior"@.len());
    reveal_strlit("chickenbehavior");
    assert("horsebehavior"@.len() != "chickenbehavior"@.len());
    reveal_strlit("crossbow_direction_behavior");
    assert("horsebehavior"@.len() != "crossbow_direction_behavior"@.len());
    reveal_strlit("deerbehavior");
    assert("horsebehavior"@.len() != "deerbehavior"@.len());
    reveal_strlit("defaultfemale");
    assert("horsebehavior"@[0] != "defaultfemale"@[0]);
    reveal_strlit("defaultmale");
    assert("horsebehavior"@.len() != "defaultmale"@.len());
    reveal_strlit("dogbehavior");
    assert("horsebehavior"@.len() != "dogbehavior"@.len());
    reveal_strlit("dragon_priest");
    assert("horsebehavior"@[0] != "dragon_priest"@[0]);
    reveal_strlit("dragonbehavior");
    assert("horsebehavior"@.len() != "dragonbehavior"@.len());
    reveal_strlit("draugr");
    assert("horsebehavior"@.len() != "draugr"@.len());
    reveal_strlit("draugr_skeleton");
    assert("horsebehavior"@.len() != "draugr_skeleton"@.len());
    reveal_strlit("draugrbehavior");
    assert("horsebehavior"@.len() != "draugrbehavior"@.len());
    reveal_strlit("dwarvenspiderbehavior");
    assert("horsebehavior"@.len() != "dwarvenspiderbehavior"@.len());
    reveal_strlit("falmerbehavior");
    assert("horsebehavior"@.len() != "falmerbehavior"@.len());
    reveal_strlit("frostbitespiderbehavior");
    assert("horsebehavior"@.len() != "frostbitespiderbehavior"@.len());
    reveal_strlit("giantbehavior");
    assert("horsebehavior"@[0] != "giantbehavior"@[0]);
    reveal_strlit("goatbehavior");
    assert("horsebehavior"@.len() != "goatbehavior"@.len());
    reveal_strlit("h-cowbehavior");
    assert("horsebehavior"@[1] != "h-cowbehavior"@[1]);
    reveal_strlit("h-cowbehavior_lod");
    assert("horsebehavior"@.len() != "h-cowbehavior_lod"@.len());
    reveal_strlit("harebehavior");
    assert("horsebehavior"@.len() != "harebehavior"@.len());
    reveal_strlit("havgravenbehavior");
    assert("horsebehavior"@.len() != "havgravenbehavior"@.len());
    reveal_strlit("hmdaedra");
    assert("horsebehavior"@.len() != "hmdaedra"@.len());
    reveal_strlit("horkerbehavior");
    assert("horsebehavior"@.len() != "horkerbehavior"@.len());
    reveal_strlit("meshes/actors/character/behaviors/horsebehavior.bin");
    reveal_strlit("meshes/actors/character/_1stperson/behaviors/horsebehavior.bin");
    reveal_strlit("meshes/actors/character/");
    reveal_strlit("meshes/actors/character/_1stperson/");
    assert("meshes/actors/character/behaviors/horsebehavior.bin"@.subrange(0, 24) =~= "meshes/actors/character/"@);
    assert("meshes/actors/character/_1stperson/behaviors/horsebehavior.bin"@ =~= "meshes/actors/character/_1stperson/"@ + "meshes/actors/character/behaviors/horsebehavior.bin"@.subrange(24, 51));
}

proof fn lemma_person_templates_10()
    ensures
        third_person_template("idlebehavior"@) == Some("meshes/actors/character/behaviors/idlebehavior.bin"@),
        has_prefix_text("meshes/actors/character/behaviors/idlebehavior.bin"@, "meshes/actors/character/"@),
        "meshes/actors/character/_1stperson/behaviors/idlebehavior.bin"@ == "meshes/actors/character/_1stperson/"@ + "meshes/actors/character/behaviors/idlebehavior.bin"@.subrange(24, "meshes/actors/character/behaviors/idlebehavior.bin"@.len() as int),
{
    reveal_strlit("idlebehavior");
    reveal_strlit("0_master");
    assert("idlebehavior"@.len() != "0_master"@.len());
    reveal_strlit("1hm_behavior");
    assert("idlebehavior"@[0] != "1hm_behavior"@[0]);
    reveal_strlit("1hm_locomotion");
    assert("idlebehavior"@.len() != "1hm_locomotion"@.len());
    reveal_strlit("atronachflamebehavior");
    assert("idlebehavior"@.len() != "atronachflamebehavior"@.len());
    reveal_strlit("atronachfrostbehavior");
    assert("idlebehavior"@.len() != "atronachfrostbehavior"@.len());
    reveal_strlit("atronachstormbehavior");
    assert("idlebehavior"@.len() != "atronachstormbehavior"@.len());
    reveal_strlit("bashbehavior");
    assert("idlebehavior"@[0] != "bashbehavior"@[0]);
    reveal_strlit("bcbehavior");
    assert("idlebehavior"@.len() != "bcbehavior"@.len());
    reveal_strlit("bearbehavior");
    assert("idlebehavior"@[0] != "bearbehavior"@[0]);
    reveal_strlit("benthiclurkerbehavior");
    assert("idlebehavior"@.len() != "benthiclurkerbehavior"@.len());
    reveal_strlit("blockbehavior");
    assert("idlebehavior"@.len() != "blockbehavior"@.len());
    reveal_strlit("boarbehavior");
    assert("idlebehavior"@[0] != "boarbehavior"@[0]);
    reveal_strlit("bow_direction_behavior");
    assert("idlebehavior"@.len() != "bow_direction_behavior"@.len());
    reveal_strlit("chaurusbehavior");
    assert("idlebehavior"@.len() != "chaurusbehavior"@.len());
    reveal_strlit("chaurusflyerbehavior");
    assert("idlebehavior"@.len() != "chaurusflyerbehavior"@.len());
    reveal_strlit("chickenbehavior");
    assert("idlebehavior"@.len() != "chickenbehavior"@.len());
    reveal_strlit("crossbow_direction_behavior");
    assert("idlebehavior"@.len() != "crossbow_direction_behavior"@.len());
    reveal_strlit("deerbehavior");
    assert("idlebehavior"@[0] != "deerbehavior"@[0]);
    reveal_strlit("defaultfemale");
    assert("idlebehavior"@.len() != "defaultfemale"@.len());
    reveal_strlit("defaultmale");
    assert("idlebehavior"@.len() != "defaultmale"@.len());
    reveal_strlit("dogbehavior");
    assert("idlebehavior"@.len() != "dogbehavior"@.len());
    reveal_strlit("dragon_priest");
    assert("idlebehavior"@.len() != "dragon_priest"@.len());
    reveal_strlit("dragonbehavior");
    assert("idlebehavior"@.len() != "dragonbehavior"@.len());
    reveal_strlit("draugr");
    assert("idlebehavior"@.len() != "draugr"@.len());
    reveal_strlit("draugr_skeleton");
    assert("idlebehavior"@.len() != "draugr_skeleton"@.len());
    reveal_strlit("draugrbehavior");
    assert("idlebehavior"@.len() != "draugrbehavior"@.len());
    reveal_strlit("dwarvenspiderbehavior");
    assert("idlebehavior"@.len() != "dwarvenspiderbehavior"@.len());
    reveal_strlit("falmerbehavior");
    assert("idlebehavior"@.len() != "falmerbehavior"@.len());
    reveal_strlit("frostbitespiderbehavior");
    assert("idlebehavior"@.len() != "frostbitespiderbehavior"@.len());
    reveal_strlit("giantbehavior");
    assert("idlebehavior"@.len() != "giantbehavior"@.len());
    reveal_strlit("goatbehavior");
    assert("idlebehavior"@[0] != "goatbehavior"@[0]);
    reveal_strlit("h-cowbehavior");
    assert("idlebehavior"@.len() != "h-cowbehavior"@.len());
    reveal_strlit("h-cowbehavior_lod");
    assert("idlebehavior"@.len() != "h-cowbehavior_lod"@.len());
    reveal_strlit("harebehavior");
    assert("idlebehavior"@[0] != "harebehavior"@[0]);
    reveal_strlit("havgravenbehavior");
    assert("idlebehavior"@.len() != "havgravenbehavior"@.len());
    reveal_strlit("hmdaedra");
    assert("idlebehavior"@.len() != "hmdaedra"@.len());
    reveal_strlit("horkerbehavior");
    assert("idlebehavior"@.len() != "horkerbehavior"@.len());
    reveal_strlit("horsebehavior");
    assert("idlebehavior"@.len() != "horsebehavior"@.len());
    reveal_strlit("icewraithbehavior");
    assert("idlebehavior"@.len() != "icewraithbehavior"@.len());
    reveal_strlit("meshes/actors/character/behaviors/idlebehavior.bin");
    reveal_strlit("meshes/actors/character/_1stperson/behaviors/idlebehavior.bin");
    reveal_strlit("meshes/actors/character/");
    reveal_strlit("meshes/actors/character/_1stperson/");
    assert("meshes/actors/character/behaviors/idlebehavior.bin"@.subrange(0, 24) =~= "meshes/actors/character/"@);
    assert("meshes/actors/character/_1stperson/behaviors/idlebehavior.bin"@ =~= "meshes/actors/character/_1stperson/"@ + "meshes/actors/character/behaviors/idlebehavior.bin"@.subrange(24, 50));
}

proof fn lemma_person_templates_11()
    ensures
        third_person_template("magicbehavior"@) == Some("meshes/actors/character/behaviors/magicbehavior.bin"@),
        has_prefix_text("meshes/actors/character/behaviors/magicbehavior.bin"@, "meshes/actors/character/"@),
        "meshes/actors/character/_1stperson/behaviors/magicbehavior.bin"@ == "meshes/actors/character/_1stperson/"@ + "meshes/actors/character/behaviors/magicbehavior.bin"@.subrange(24, "meshes/actors/character/behaviors/magicbehavior.bin"@.len() as int),
{
    reveal_strlit("magicbehavior");
    reveal_strlit("0_master");
    assert("magicbehavior"@.len() != "0_master"@.len());
    reveal_strlit("1hm_behavior");
    assert("magicbehavior"@.len() != "1hm_behavior"@.len());
    reveal_strlit("1hm_locomotion");
    assert("magicbehavior"@.len() != "1hm_locomotion"@.len());
    reveal_strlit("atronachflamebehavior");
    assert("magicbehavior"@.len() != "atronachflamebehavior"@.len());
    reveal_strlit("atronachfrostbehavior");
    assert("magicbehavior"@.len() != "atronachfrostbehavior"@.len());
    reveal_strlit("atronachstormbehavior");
    assert("magicbehavior"@.len() != "atronachstormbehavior"@.len());
    reveal_strlit("bashbehavior");
    assert("magicbehavior"@.len() != "bashbehavior"@.len());
    reveal_strlit("bcbehavior");
    assert("magicbehavior"@.len() != "bcbehavior"@.len());
    reveal_strlit("bearbehavior");
    assert("magicbehavior"@.len() != "bearbehavior"@.len());
    reveal_strlit("benthiclurkerbehavior");
    assert("magicbehavior"@.len() != "benthiclurkerbehavior"@.len());
    reveal_strlit("blockbehavior");
    assert("magicbehavior"@[0] != "blockbehavior"@[0]);
    reveal_strlit("boarbehavior");
    assert("magicbehavior"@.len() != "boarbehavior"@.len());
    reveal_strlit("bow_direction_behavior");
    assert("magicbehavior"@.len() != "bow_direction_behavior"@.len());
    reveal_strlit("chaurusbehavior");
    assert("magicbehavior"@.len() != "chaurusbehavior"@.len());
    reveal_strlit("chaurusflyerbehavior");
    assert("magicbehavior"@.len() != "chaurusflyerbehavior"@.len());
    reveal_strlit("chickenbehavior");
    assert("magicbehavior"@.len() != "chickenbehavior"@.len());
    reveal_strlit("crossbow_direction_behavior");
    assert("magicbehavior"@.len() != "crossbow_direction_behavior"@.len());
    reveal_strlit("deerbehavior");
    assert("magicbehavior"@.len() != "deerbehavior"@.len());
    reveal_strlit("defaultfemale");
    assert("magicbehavior"@[0] != "defaultfemale"@[0]);
    reveal_strlit("defaultmale");
    assert("magicbehavior"@.len() != "defaultmale"@.len());
    reveal_strlit("dogbehavior");
    assert("magicbehavior"@.len() != "dogbehavior"@.len());
    reveal_strlit("dragon_priest");
    assert("magicbehavior"@[0] != "dragon_priest"@[0]);
    reveal_strlit("dragonbehavior");
    assert("magicbehavior"@.len() != "dragonbehavior"@.len());
    reveal_strlit("draugr");
    assert("magicbehavior"@.len() != "draugr"@.len());
    reveal_strlit("draugr_skeleton");
    assert("magicbehavior"@.len() != "draugr_skeleton"@.len());
    reveal_strlit("draugrbehavior");
    assert("magicbehavior"@.len() != "draugrbehavior"@.len());
    reveal_strlit("dwarvenspiderbehavior");
    assert("magicbehavior"@.len() != "dwarvenspiderbehavior"@.len());
    reveal_strlit("falmerbehavior");
    assert("magicbehavior"@.len() != "falmerbehavior"@.len());
    reveal_strlit("frostbitespiderbehavior");
    assert("magicbehavior"@.len() != "frostbitespiderbehavior"@.len());
    reveal_strlit("giantbehavior");
    assert("magicbehavior"@[0] != "giantbehavior"@[0]);
    reveal_strlit("goatbehavior");
    assert("magicbehavior"@.len() != "goatbehavior"@.len());
    reveal_strlit("h-cowbehavior");
    assert("magicbehavior"@[0] != "h-cowbehavior"@[0]);
    reveal_strlit("h-cowbehavior_lod");
    assert("magicbehavior"@.len() != "h-cowbehavior_lod"@.len());
    reveal_strlit("harebehavior");
    assert("magicbehavior"@.len() != "harebehavior"@.len());
    reveal_strlit("havgravenbehavior");
    assert("magicbehavior"@.len() != "havgravenbehavior"@.len());
    reveal_strlit("hmdaedra");
    assert("magicbehavior"@.len() != "hmdaedra"@.len());
    reveal_strlit("horkerbehavior");
    assert("magicbehavior"@.len() != "horkerbehavior"@.len());
    reveal_strlit("horsebehavior");
    assert("magicbehavior"@[0] != "horsebehavior"@[0]);
    reveal_strlit("icewraithbehavior");
    assert("magicbehavior"@.len() != "icewraithbehavior"@.len());
    reveal_strlit("idlebehavior");
    assert("magicbehavior"@.len() != "idlebehavior"@.len());
    reveal_strlit("magic_readied_direction_behavior");
    assert("magicbehavior"@.len() != "magic_readied_direction_behavior"@.len());
    reveal_strlit("meshes/actors/character/behaviors/magicbehavior.bin");
    reveal_strlit("meshes/actors/character/_1stperson/behaviors/magicbehavior.bin");
    reveal_strlit("meshes/actors/character/");
    reveal_strlit("meshes/actors/character/_1stperson/");
    assert("meshes/actors/character/behaviors/magicbehavior.bin"@.subrange(0, 24) =~= "meshes/actors/character/"@);
    assert("meshes/actors/character/_1stperson/behaviors/magicbehavior.bin"@ =~= "meshes/actors/character/_1stperson/"@ + "meshes/actors/character/behaviors/magicbehavior.bin"@.subrange(24, 51));
}

proof fn lemma_person_templates_12()
    ensures
        third_person_template("magicmountedbehavior"@) == Some("meshes/actors/character/behaviors/magicmountedbehavior.bin"@),
        has_prefix_text("meshes/actors/character/behaviors/magicmountedbehavior.bin"@, "meshes/actors/character/"@),
        "meshes/actors/character/_1stperson/behaviors/magicmountedbehavior.bin"@ == "meshes/actors/character/_1stperson/"@ + "meshes/actors/character/behaviors/magicmountedbehavior.bin"@.subrange(24, "meshes/actors/character/behaviors/magicmountedbehavior.bin"@.len() as int),
{
    reveal_strlit("magicmountedbehavior");
    reveal_strlit("0_master");
    assert("magicmountedbehavior"@.len() != "0_master"@.len());
    reveal_strlit("1hm_behavior");
    assert("magicmountedbehavior"@.len() != "1hm_behavior"@.len());
    reveal_strlit("1hm_locomotion");
    assert("magicmountedbehavior"@.len() != "1hm_locomotion"@.len());
    reveal_strlit("atronachflamebehavior");
    assert("magicmountedbehavior"@.len() != "atronachflamebehavior"@.len());
    reveal_strlit("atronachfrostbehavior");
    assert("magicmountedbehavior"@.len() != "atronachfrostbehavior"@.len());
    reveal_strlit("atronachstormbehavior");
    assert("magicmountedbehavior"@.len() != "atronachstormbehavior"@.len());
    reveal_strlit("bashbehavior");
    assert("magicmountedbehavior"@.len() != "bashbehavior"@.len());
    reveal_strlit("bcbehavior");
    assert("magicmountedbehavior"@.len() != "bcbehavior"@.len());
    reveal_strlit("bearbehavior");
    assert("magicmountedbehavior"@.len() != "bearbehavior"@.len());
    reveal_strlit("benthiclurkerbehavior");
    assert("magicmountedbehavior"@.len() != "benthiclurkerbehavior"@.len());
    reveal_strlit("blockbehavior");
    assert("magicmountedbehavior"@.len() != "blockbehavior"@.len());
    reveal_strlit("boarbehavior");
    assert("magicmountedbehavior"@.len() != "boarbehavior"@.len());
    reveal_strlit("bow_direction_behavior");
    assert("magicmountedbehavior"@.len() != "bow_direction_behavior"@.len());
    reveal_strlit("chaurusbehavior");
    assert("magicmountedbehavior"@.len() != "chaurusbehavior"@.len());
    reveal_strlit("chaurusflyerbehavior");
    assert("magicmountedbehavior"@[0] != "chaurusflyerbehavior"@[0]);
    reveal_strlit("chickenbehavior");
    assert("magicmountedbehavior"@.len() != "chickenbehavior"@.len());
    reveal_strlit("crossbow_direction_behavior");
    assert("magicmountedbehavior"@.len() != "crossbow_direction_behavior"@.len());
    reveal_strlit("deerbehavior");
    assert("magicmountedbehavior"@.len() != "deerbehavior"@.len());
    reveal_strlit("defaultfemale");
    assert("magicmountedbehavior"@.len() != "defaultfemale"@.len());
    reveal_strlit("defaultmale");
    assert("magicmountedbehavior"@.len() != "defaultmale"@.len());
    reveal_strlit("dogbehavior");
    assert("magicmountedbehavior"@.len() != "dogbehavior"@.len());
    reveal_strlit("dragon_priest");
    assert("magicmountedbehavior"@.len() != "dragon_priest"@.len());
    reveal_strlit("dragonbehavior");
    assert("magicmountedbehavior"@.len() != "dragonbehavior"@.len());
    reveal_strlit("draugr");
    assert("magicmountedbehavior"@.len() != "draugr"@.len());
    reveal_strlit("draugr_skeleton");
    assert("magicmountedbehavior"@.len() != "draugr_skeleton"@.len());
    reveal_strlit("draugrbehavior");
    assert("magicmountedbehavior"@.len() != "draugrbehavior"@.len());
    reveal_strlit("dwarvenspiderbehavior");
    assert("magicmountedbehavior"@.len() != "dwarvenspiderbehavior"@.len());
    reveal_strlit("falmerbehavior");
    assert("magicmountedbehavior"@.len() != "falmerbehavior"@.len());
    reveal_strlit("frostbitespiderbehavior");
    assert("magicmountedbehavior"@.len() != "frostbitespiderbehavior"@.len());
    reveal_strlit("giantbehavior");
    assert("magicmountedbehavior"@.len() != "giantbehavior"@.len());
    reveal_strlit("goatbehavior");
    assert("magicmountedbehavior"@.len() != "goatbehavior"@.len());
    reveal_strlit("h-cowbehavior");
    assert("magicmountedbehavior"@.len() != "h-cowbehavior"@.len());
    reveal_strlit("h-cowbehavior_lod");
    assert("magicmountedbehavior"@.len() != "h-cowbehavior_lod"@.len());
    reveal_strlit("harebehavior");
    assert("magicmountedbehavior"@.len() != "harebehavior"@.len());
    reveal_strlit("havgravenbehavior");
    assert("magicmountedbehavior"@.len() != "havgravenbehavior"@.len());
    reveal_strlit("hmdaedra");
    assert("magicmountedbehavior"@.len() != "hmdaedra"@.len());
    reveal_strlit("horkerbehavior");
    assert("magicmountedbehavior"@.len() != "horkerbehavior"@.len());
    reveal_strlit("horsebehavior");
    assert("magicmountedbehavior"@.len() != "horsebehavior"@.len());
    reveal_strlit("icewraithbehavior");
    assert("magicmountedbehavior"@.len() != "icewraithbehavior"@.len());
    reveal_strlit("idlebehavior");
    assert("magicmountedbehavior"@.len() != "idlebehavior"@.len());
    reveal_strlit("magic_readied_direction_behavior");
    assert("magicmountedbehavior"@.len() != "magic_readied_direction_behavior"@.len());
    reveal_strlit("magicbehavior");
    assert("magicmountedbehavior"@.len() != "magicbehavior"@.len());
    reveal_strlit("meshes/actors/character/behaviors/magicmountedbehavior.bin");
    reveal_strlit("meshes/actors/character/_1stperson/behaviors/magicmountedbehavior.bin");
    reveal_strlit("meshes/actors/character/");
    reveal_strlit("meshes/actors/character/_1stperson/");
    assert("meshes/actors/character/behaviors/magicmountedbehavior.bin"@.subrange(0, 24) =~= "meshes/actors/character/"@);
    assert("meshes/actors/character/_1stperson/behaviors/magicmountedbehavior.bin"@ =~= "meshes/actors/character/_1stperson/"@ + "meshes/actors/character/behaviors/magicmountedbehavior.bin"@.subrange(24, 58));
}

proof fn lemma_person_templates_13()
    ensures
        third_person_template("mt_behavior"@) == Some("meshes/actors/character/behaviors/mt_behavior.bin"@),
        has_prefix_text("meshes/actors/character/behaviors/mt_behavior.bin"@, "meshes/actors/character/"@),
        "meshes/actors/character/_1stperson/behaviors/mt_behavior.bin"@ == "meshes/actors/character/_1stperson/"@ + "meshes/actors/character/behaviors/mt_behavior.bin"@.subrange(24, "meshes/actors/character/behaviors/mt_behavior.bin"@.len() as int),
{
    reveal_strlit("mt_behavior");
    reveal_strlit("0_master");
    assert("mt_behavior"@.len() != "0_master"@.len());
    reveal_strlit("1hm_behavior");
    assert("mt_behavior"@.len() != "1hm_behavior"@.len());
    reveal_strlit("1hm_locomotion");
    assert("mt_behavior"@.len() != "1hm_locomotion"@.len());
    reveal_strlit("atronachflamebehavior");
    assert("mt_behavior"@.len() != "atronachflamebehavior"@.len());
    reveal_strlit("atronachfrostbehavior");
    assert("mt_behavior"@.len() != "atronachfrostbehavior"@.len());
    reveal_strlit("atronachstormbehavior");
    assert("mt_behavior"@.len() != "atronachstormbehavior"@.len());
    reveal_strlit("bashbehavior");
    assert("mt_behavior"@.len() != "bashbehavior"@.len());
    reveal_strlit("bcbehavior");
    assert("mt_behavior"@.len() != "bcbehavior"@.len());
    reveal_strlit("bearbehavior");
    assert("mt_behavior"@.len() != "bearbehavior"@.len());
    reveal_strlit("benthiclurkerbehavior");
    assert("mt_behavior"@.len() != "benthiclurkerbehavior"@.len());
    reveal_strlit("blockbehavior");
    assert("mt_behavior"@.len() != "blockbehavior"@.len());
    reveal_strlit("boarbehavior");
    assert("mt_behavior"@.len() != "boarbehavior"@.len());
    reveal_strlit("bow_direction_behavior");
    assert("mt_behavior"@.len() != "bow_direction_behavior"@.len());
    reveal_strlit("chaurusbehavior");
    assert("mt_behavior"@.len() != "chaurusbehavior"@.len());
    reveal_strlit("chaurusflyerbehavior");
    assert("mt_behavior"@.len() != "chaurusflyerbehavior"@.len());
    reveal_strlit("chickenbehavior");
    assert("mt_behavior"@.len() != "chickenbehavior"@.len());
    reveal_strlit("crossbow_direction_behavior");
    assert("mt_behavior"@.len() != "crossbow_direction_behavior"@.len());
    reveal_strlit("deerbehavior");
    assert("mt_behavior"@.len() != "deerbehavior"@.len());
    reveal_strlit("defaultfemale");
    assert("mt_behavior"@.len() != "defaultfemale"@.len());
    reveal_strlit("defaultmale");
    assert("mt_behavior"@[0] != "defaultmale"@[0]);
    reveal_strlit("dogbehavior");
    assert("mt_behavior"@[0] != "dogbehavior"@[0]);
    reveal_strlit("dragon_priest");
    assert("mt_behavior"@.len() != "dragon_priest"@.len());
    reveal_strlit("dragonbehavior");
    assert("mt_behavior"@.len() != "dragonbehavior"@.len());
    reveal_strlit("draugr");
    assert("mt_behavior"@.len() != "draugr"@.len());
    reveal_strlit("draugr_skeleton");
    assert("mt_behavior"@.len() != "draugr_skeleton"@.len());
    reveal_strlit("draugrbehavior");
    assert("mt_behavior"@.len() != "draugrbehavior"@.len());
    reveal_strlit("dwarvenspiderbehavior");
    assert("mt_behavior"@.len() != "dwarvenspiderbehavior"@.len());
    reveal_strlit("falmerbehavior");
    assert("mt_behavior"@.len() != "falmerbehavior"@.len());
    reveal_strlit("frostbitespiderbehavior");
    assert("mt_behavior"@.len() != "frostbitespiderbehavior"@.len());
    reveal_strlit("giantbehavior");
    assert("mt_behavior"@.len() != "giantbehavior"@.len());
    reveal_strlit("goatbehavior");
    assert("mt_behavior"@.len() != "goatbehavior"@.len());
    reveal_strlit("h-cowbehavior");
    assert("mt_behavior"@.len() != "h-cowbehavior"@.len());
    reveal_strlit("h-cowbehavior_lod");
    assert("mt_behavior"@.len() != "h-cowbehavior_lod"@.len());
    reveal_strlit("harebehavior");
    assert("mt_behavior"@.len() != "harebehavior"@.len());
    reveal_strlit("havgravenbehavior");
    assert("mt_behavior"@.len() != "havgravenbehavior"@.len());
    reveal_strlit("hmdaedra");
    assert("mt_behavior"@.len() != "hmdaedra"@.len());
    reveal_strlit("horkerbehavior");
    assert("mt_behavior"@.len() != "horkerbehavior"@.len());
    reveal_strlit("horsebehavior");
    assert("mt_behavior"@.len() != "horsebehavior"@.len());
    reveal_strlit("icewraithbehavior");
    assert("mt_behavior"@.len() != "icewraithbehavior"@.len());
    reveal_strlit("idlebehavior");
    assert("mt_behavior"@.len() != "idlebehavior"@.len());
    reveal_strlit("magic_readied_direction_behavior");
    assert("mt_behavior"@.len() != "magic_readied_direction_behavior"@.len());
    reveal_strlit("magicbehavior");
    assert("mt_behavior"@.len() != "magicbehavior"@.len());
    reveal_strlit("magicmountedbehavior");
    assert("mt_behavior"@.len() != "magicmountedbehavior"@.len());
    reveal_strlit("mammothbehavior");
    assert("mt_behavior"@.len() != "mammothbehavior"@.len());
    reveal_strlit("meshes/actors/character/behaviors/mt_behavior.bin");
    reveal_strlit("meshes/actors/character/_1stperson/behaviors/mt_behavior.bin");
    reveal_strlit("meshes/actors/character/");
    reveal_strlit("meshes/actors/character/_1stperson/");
    assert("meshes/actors/character/behaviors/mt_behavior.bin"@.subrange(0, 24) =~= "meshes/actors/character/"@);
    assert("meshes/actors/character/_1stperson/behaviors/mt_behavior.bin"@ =~= "meshes/actors/character/_1stperson/"@ + "meshes/actors/character/behaviors/mt_behavior.bin"@.subrange(24, 49));
}

proof fn lemma_person_templates_14()
    ensures
        third_person_template("shout_behavior"@) == Some("meshes/actors/character/behaviors/shout_behavior.bin"@),
        has_prefix_text("meshes/actors/character/behaviors/shout_behavior.bin"@, "meshes/actors/character/"@),
        "meshes/actors/character/_1stperson/behaviors/shout_behavior.bin"@ == "meshes/actors/character/_1stperson/"@ + "meshes/actors/character/behaviors/shout_behavior.bin"@.subrange(24, "meshes/actors/character/behaviors/shout_behavior.bin"@.len() as int),
{
    reveal_strlit("shout_behavior");
    reveal_strlit("0_master");
    assert("shout_behavior"@.len() != "0_master"@.len());
    reveal_strlit("1hm_behavior");
    assert("shout_behavior"@.len() != "1hm_behavior"@.len());
    reveal_strlit("1hm_locomotion");
    assert("shout_behavior"@[0] != "1hm_locomotion"@[0]);
    reveal_strlit("atronachflamebehavior");
    assert("shout_behavior"@.len() != "atronachflamebehavior"@.len());
    reveal_strlit("atronachfrostbehavior");
    assert("shout_behavior"@.len() != "atronachfrostbehavior"@.len());
    reveal_strlit("atronachstormbehavior");
    assert("shout_behavior"@.len() != "atronachstormbehavior"@.len());
    reveal_strlit("bashbehavior");
    assert("shout_behavior"@.len() != "bashbehavior"@.len());
    reveal_strlit("bcbehavior");
    assert("shout_behavior"@.len() != "bcbehavior"@.len());
    reveal_strlit("bearbehavior");
    assert("shout_behavior"@.len() != "bearbehavior"@.len());
    reveal_strlit("benthiclurkerbehavior");
    assert("shout_behavior"@.len() != "benthiclurkerbehavior"@.len());
    reveal_strlit("blockbehavior");
    assert("shout_behavior"@.len() != "blockbehavior"@.len());
    reveal_strlit("boarbehavior");
    assert("shout_behavior"@.len() != "boarbehavior"@.len());
    reveal_strlit("bow_direction_behavior");
    assert("shout_behavior"@.len() != "bow_direction_behavior"@.len());
    reveal_strlit("chaurusbehavior");
    assert("shout_behavior"@.len() != "chaurusbehavior"@.len());
    reveal_strlit("chaurusflyerbehavior");
    assert("shout_behavior"@.len() != "chaurusflyerbehavior"@.len());
    reveal_strlit("chickenbehavior");
    assert("shout_behavior"@.len() != "chickenbehavior"@.len());
    reveal_strlit("crossbow_direction_behavior");
    assert("shout_behavior"@.len() != "crossbow_direction_behavior"@.len());
    reveal_strlit("deerbehavior");
    assert("shout_behavior"@.len() != "deerbehavior"@.len());
    reveal_strlit("defaultfemale");
    assert("shout_behavior"@.len() != "defaultfemale"@.len());
    reveal_strlit("defaultmale");
    assert("shout_behavior"@.len() != "defaultmale"@.len());
    reveal_strlit("dogbehavior");
    assert("shout_behavior"@.len() != "dogbehavior"@.len());
    reveal_strlit("dragon_priest");
    assert("shout_behavior"@.len() != "dragon_priest"@.len());
    reveal_strlit("dragonbehavior");
    assert("shout_behavior"@[0] != "dragonbehavior"@[0]);
    reveal_strlit("draugr");
    assert("shout_behavior"@.len() != "draugr"@.len());
    reveal_strlit("draugr_skeleton");
    assert("shout_behavior"@.len() != "draugr_skeleton"@.len());
    reveal_strlit("draugrbehavior");
    assert("shout_behavior"@[0] != "draugrbehavior"@[0]);
    reveal_strlit("dwarvenspiderbehavior");
    assert("shout_behavior"@.len() != "dwarvenspiderbehavior"@.len());
    reveal_strlit("falmerbehavior");
    assert("shout_behavior"@[0] != "falmerbehavior"@[0]);
    reveal_strlit("frostbitespiderbehavior");
    assert("shout_behavior"@.len() != "frostbitespiderbehavior"@.len());
    reveal_strlit("giantbehavior");
    assert("shout_behavior"@.len() != "giantbehavior"@.len());
    reveal_strlit("goatbehavior");
    assert("shout_behavior"@.len() != "goatbehavior"@.len());
    reveal_strlit("h-cowbehavior");
    assert("shout_behavior"@.len() != "h-cowbehavior"@.len());
    reveal_strlit("h-cowbehavior_lod");
    assert("shout_behavior"@.len() != "h-cowbehavior_lod"@.len());
    reveal_strlit("harebehavior");
    assert("shout_behavior"@.len() != "harebehavior"@.len());
    reveal_strlit("havgravenbehavior");
    assert("shout_behavior"@.len() != "havgravenbehavior"@.len());
    reveal_strlit("hmdaedra");
    assert("shout_behavior"@.len() != "hmdaedra"@.len());
    reveal_strlit("horkerbehavior");
    assert("shout_behavior"@[0] != "horkerbehavior"@[0]);
    reveal_strlit("horsebehavior");
    assert("shout_behavior"@.len() != "horsebehavior"@.len());
    reveal_strlit("icewraithbehavior");
    assert("shout_behavior"@.len() != "icewraithbehavior"@.len());
    reveal_strlit("idlebehavior");
    assert("shout_behavior"@.len() != "idlebehavior"@.len());
    reveal_strlit("magic_readied_direction_behavior");
    assert("shout_behavior"@.len() != "magic_readied_direction_behavior"@.len());
    reveal_strlit("magicbehavior");
    assert("shout_behavior"@.len() != "magicbehavior"@.len());
    reveal_strlit("magicmountedbehavior");
    assert("shout_behavior"@.len() != "magicmountedbehavior"@.len());
    reveal_strlit("mammothbehavior");
    assert("shout_behavior"@.len() != "mammothbehavior"@.len());
    reveal_strlit("mt_behavior");
    assert("shout_behavior"@.len() != "mt_behavior"@.len());
    reveal_strlit("mudcrabbehavior");
    assert("shout_behavior"@.len() != "mudcrabbehavior"@.len());
    reveal_strlit("netchbehavior");
    assert("shout_behavior"@.len() != "netchbehavior"@.len());
    reveal_strlit("rieklingbehavior");
    assert("shout_behavior"@.len() != "rieklingbehavior"@.len());
    reveal_strlit("sabrecatbehavior");
    assert("shout_behavior"@.len() != "sabrecatbehavior"@.len());
    reveal_strlit("scbehavior");
    assert("shout_behavior"@.len() != "scbehavior"@.len());
    reveal_strlit("scribbehavior");
    assert("shout_behavior"@.len() != "scribbehavior"@.len());
    reveal_strlit("meshes/actors/character/behaviors/shout_behavior.bin");
    reveal_strlit("meshes/actors/character/_1stperson/behaviors/shout_behavior.bin");
    reveal_strlit("meshes/actors/character/");
    reveal_strlit("meshes/actors/character/_1stperson/");
    assert("meshes/actors/character/behaviors/shout_behavior.bin"@.subrange(0, 24) =~= "meshes/actors/character/"@);
    assert("meshes/actors/character/_1stperson/behaviors/shout_behavior.bin"@ =~= "meshes/actors/character/_1stperson/"@ + "meshes/actors/character/behaviors/shout_behavior.bin"@.subrange(24, 52));
}

proof fn lemma_person_templates_15()
    ensures
        third_person_template("shoutmounted_behavior"@) == Some("meshes/actors/character/behaviors/shoutmounted_behavior.bin"@),
        has_prefix_text("meshes/actors/character/behaviors/shoutmounted_behavior.bin"@, "meshes/actors/character/"@),
        "meshes/actors/character/_1stperson/behaviors/shoutmounted_behavior.bin"@ == "meshes/actors/character/_1stperson/"@ + "meshes/actors/character/behaviors/shoutmounted_behavior.bin"@.subrange(24, "meshes/actors/character/behaviors/shoutmounted_behavior.bin"@.len() as int),
{
    reveal_strlit("shoutmounted_behavior");
    reveal_strlit("0_master");
    assert("shoutmounted_behavior"@.len() != "0_master"@.len());
    reveal_strlit("1hm_behavior");
    assert("shoutmounted_behavior"@.len() != "1hm_behavior"@.len());
    reveal_strlit("1hm_locomotion");
    assert("shoutmounted_behavior"@.len() != "1hm_locomotion"@.len());
    reveal_strlit("atronachflamebehavior");
    assert("shoutmounted_behavior"@[0] != "atronachflamebehavior"@[0]);
    reveal_strlit("atronachfrostbehavior");
    assert("shoutmounted_behavior"@[0] != "atronachfrostbehavior"@[0]);
    reveal_strlit("atronachstormbehavior");
    assert("shoutmounted_behavior"@[0] != "atronachstormbehavior"@[0]);
    reveal_strlit("bashbehavior");
    assert("shoutmounted_behavior"@.len() != "bashbehavior"@.len());
    reveal_strlit("bcbehavior");
    assert("shoutmounted_behavior"@.len() != "bcbehavior"@.len());
    reveal_strlit("bearbehavior");
    assert("shoutmounted_behavior"@.len() != "bearbehavior"@.len());
    reveal_strlit("benthiclurkerbehavior");
    assert("shoutmounted_behavior"@[0] != "benthiclurkerbehavior"@[0]);
    reveal_strlit("blockbehavior");
    assert("shoutmounted_behavior"@.len() != "blockbehavior"@.len());
    reveal_strlit("boarbehavior");
    assert("shoutmounted_behavior"@.len() != "boarbehavior"@.len());
    reveal_strlit("bow_direction_behavior");
    assert("shoutmounted_behavior"@.len() != "bow_direction_behavior"@.len());
    reveal_strlit("chaurusbehavior");
    assert("shoutmounted_behavior"@.len() != "chaurusbehavior"@.len());
    reveal_strlit("chaurusflyerbehavior");
    assert("shoutmounted_behavior"@.len() != "chaurusflyerbehavior"@.len());
    reveal_strlit("chickenbehavior");
    assert("shoutmounted_behavior"@.len() != "chickenbehavior"@.len());
    reveal_strlit("crossbow_direction_behavior");
    assert("shoutmounted_behavior"@.len() != "crossbow_direction_behavior"@.len());
    reveal_strlit("deerbehavior");
    assert("shoutmounted_behavior"@.len() != "deerbehavior"@.len());
    reveal_strlit("defaultfemale");
    assert("shoutmounted_behavior"@.len() != "defaultfemale"@.len());
    reveal_strlit("defaultmale");
    assert("shoutmounted_behavior"@.len() != "defaultmale"@.len());
    reveal_strlit("dogbehavior");
    assert("shoutmounted_behavior"@.len() != "dogbehavior"@.len());
    reveal_strlit("dragon_priest");
    assert("shoutmounted_behavior"@.len() != "dragon_priest"@.len());
    reveal_strlit("dragonbehavior");
    assert("shoutmounted_behavior"@.len() != "dragonbehavior"@.len());
    reveal_strlit("draugr");
    assert("shoutmounted_behavior"@.len() != "draugr"@.len());
    reveal_strlit("draugr_skeleton");
    assert("shoutmounted_behavior"@.len() != "draugr_skeleton"@.len());
    reveal_strlit("draugrbehavior");
    assert("shoutmounted_behavior"@.len() != "draugrbehavior"@.len());
    reveal_strlit("dwarvenspiderbehavior");
    assert("shoutmounted_behavior"@[0] != "dwarvenspiderbehavior"@[0]);
    reveal_strlit("falmerbehavior");
    assert("shoutmounted_behavior"@.len() != "falmerbehavior"@.len());
    reveal_strlit("frostbitespiderbehavior");
    assert("shoutmounted_behavior"@.len() != "frostbitespiderbehavior"@.len());
    reveal_strlit("giantbehavior");
    assert("shoutmounted_behavior"@.len() != "giantbehavior"@.len());
    reveal_strlit("goatbehavior");
    assert("shoutmounted_behavior"@.len() != "goatbehavior"@.len());
    reveal_strlit("h-cowbehavior");
    assert("shoutmounted_behavior"@.len() != "h-cowbehavior"@.len());
    reveal_strlit("h-cowbehavior_lod");
    assert("shoutmounted_behavior"@.len() != "h-cowbehavior_lod"@.len());
    reveal_strlit("harebehavior");
    assert("shoutmounted_behavior"@.len() != "harebehavior"@.len());
    reveal_strlit("havgravenbehavior");
    assert("shoutmounted_behavior"@.len() != "havgravenbehavior"@.len());
    reveal_strlit("hmdaedra");
    assert("shoutmounted_behavior"@.len() != "hmdaedra"@.len());
    reveal_strlit("horkerbehavior");
    assert("shoutmounted_behavior"@.len() != "horkerbehavior"@.len());
    reveal_strlit("horsebehavior");
    assert("shoutmounted_behavior"@.len() != "horsebehavior"@.len());
    reveal_strlit("icewraithbehavior");
    assert("shoutmounted_behavior"@.len() != "icewraithbehavior"@.len());
    reveal_strlit("idlebehavior");
    assert("shoutmounted_behavior"@.len() != "idlebehavior"@.len());
    reveal_strlit("magic_readied_direction_behavior");
    assert("shoutmounted_behavior"@.len() != "magic_readied_direction_behavior"@.len());
    reveal_strlit("magicbehavior");
    assert("shoutmounted_behavior"@.len() != "magicbehavior"@.len());
    reveal_strlit("magicmountedbehavior");
    assert("shoutmounted_behavior"@.len() != "magicmountedbehavior"@.len());
    reveal_strlit("mammothbehavior");
    assert("shoutmounted_behavior"@.len() != "mammothbehavior"@.len());
    reveal_strlit("mt_behavior");
    assert("shoutmounted_behavior"@.len() != "mt_behavior"@.len());
    reveal_strlit("mudcrabbehavior");
    assert("shoutmounted_behavior"@.len() != "mudcrabbehavior"@.len());
    reveal_strlit("netchbehavior");
    assert("shoutmounted_behavior"@.len() != "netchbehavior"@.len());
    reveal_strlit("rieklingbehavior");
    assert("shoutmounted_behavior"@.len() != "rieklingbehavior"@.len());
    reveal_strlit("sabrecatbehavior");
    assert("shoutmounted_behavior"@.len() != "sabrecatbehavior"@.len());
    reveal_strlit("scbehavior");
    assert("shoutmounted_behavior"@.len() != "scbehavior"@.len());
    reveal_strlit("scribbehavior");
    assert("shoutmounted_behavior"@.len() != "scribbehavior"@.len());
    reveal_strlit("shout_behavior");
    assert("shoutmounted_behavior"@.len() != "shout_behavior"@.len());
    reveal_strlit("meshes/actors/character/behaviors/shoutmounted_behavior.bin");
    reveal_strlit("meshes/actors/character/_1stperson/behaviors/shoutmounted_behavior.bin");
    reveal_strlit("meshes/actors/character/");
    reveal_strlit("meshes/actors/character/_1stperson/");
    assert("meshes/actors/character/behaviors/shoutmounted_behavior.bin"@.subrange(0, 24) =~= "meshes/actors/character/"@);
    assert("meshes/actors/character/_1stperson/behaviors/shoutmounted_behavior.bin"@ =~= "meshes/actors/character/_1stperson/"@ + "meshes/actors/character/behaviors/shoutmounted_behavior.bin"@.subrange(24, 59));
}

proof fn lemma_person_templates_16()
    ensures
        third_person_template("sprintbehavior"@) == Some("meshes/actors/character/behaviors/sprintbehavior.bin"@),
        has_prefix_text("meshes/actors/character/behaviors/sprintbehavior.bin"@, "meshes/actors/character/"@),
        "meshes/actors/character/_1stperson/behaviors/sprintbehavior.bin"@ == "meshes/actors/character/_1stperson/"@ + "meshes/actors/character/behaviors/sprintbehavior.bin"@.subrange(24, "meshes/actors/character/behaviors/sprintbehavior.bin"@.len() as int),
{
    reveal_strlit("sprintbehavior");
    reveal_strlit("0_master");
    assert("sprintbehavior"@.len() != "0_master"@.len());
    reveal_strlit("1hm_behavior");
    assert("sprintbehavior"@.len() != "1hm_behavior"@.len());
    reveal_strlit("1hm_locomotion");
    assert("sprintbehavior"@[0] != "1hm_locomotion"@[0]);
    reveal_strlit("atronachflamebehavior");
    assert("sprintbehavior"@.len() != "atronachflamebehavior"@.len());
    reveal_strlit("atronachfrostbehavior");
    assert("sprintbehavior"@.len() != "atronachfrostbehavior"@.len());
    reveal_strlit("atronachstormbehavior");
    assert("sprintbehavior"@.len() != "atronachstormbehavior"@.len());
    reveal_strlit("bashbehavior");
    assert("sprintbehavior"@.len() != "bashbehavior"@.len());
    reveal_strlit("bcbehavior");
    assert("sprintbehavior"@.len() != "bcbehavior"@.len());
    reveal_strlit("bearbehavior");
    assert("sprintbehavior"@.len() != "bearbehavior"@.len());
    reveal_strlit("benthiclurkerbehavior");
    assert("sprintbehavior"@.len() != "benthiclurkerbehavior"@.len());
    reveal_strlit("blockbehavior");
    assert("sprintbehavior"@.len() != "blockbehavior"@.len());
    reveal_strlit("boarbehavior");
    assert("sprintbehavior"@.len() != "boarbehavior"@.len());
    reveal_strlit("bow_direction_behavior");
    assert("sprintbehavior"@.len() != "bow_direction_behavior"@.len());
    reveal_strlit("chaurusbehavior");
    assert("sprintbehavior"@.len() != "chaurusbehavior"@.len());
    reveal_strlit("chaurusflyerbehavior");
    assert("sprintbehavior"@.len() != "chaurusflyerbehavior"@.len());
    reveal_strlit("chickenbehavior");
    assert("sprintbehavior"@.len() != "chickenbehavior"@.len());
    reveal_strlit("crossbow_direction_behavior");
    assert("sprintbehavior"@.len() != "crossbow_direction_behavior"@.len());
    reveal_strlit("deerbehavior");
    assert("sprintbehavior"@.len() != "deerbehavior"@.len());
    reveal_strlit("defaultfemale");
    assert("sprintbehavior"@.len() != "defaultfemale"@.len());
    reveal_strlit("defaultmale");
    assert("sprintbehavior"@.len() != "defaultmale"@.len());
    reveal_strlit("dogbehavior");
    assert("sprintbehavior"@.len() != "dogbehavior"@.len());
    reveal_strlit("dragon_priest");
    assert("sprintbehavior"@.len() != "dragon_priest"@.len());
    reveal_strlit("dragonbehavior");
    assert("sprintbehavior"@[0] != "dragonbehavior"@[0]);
    reveal_strlit("draugr");
    assert("sprintbehavior"@.len() != "draugr"@.len());
    reveal_strlit("draugr_skeleton");
    assert("sprintbehavior"@.len() != "draugr_skeleton"@.len());
    reveal_strlit("draugrbehavior");
    assert("sprintbehavior"@[0] != "draugrbehavior"@[0]);
    reveal_strlit("dwarvenspiderbehavior");
    assert("sprintbehavior"@.len() != "dwarvenspiderbehavior"@.len());
    reveal_strlit("falmerbehavior");
    assert("sprintbehavior"@[0] != "falmerbehavior"@[0]);
    reveal_strlit("frostbitespiderbehavior");
    assert("sprintbehavior"@.len() != "frostbitespiderbehavior"@.len());
    reveal_strlit("giantbehavior");
    assert("sprintbehavior"@.len() != "giantbehavior"@.len());
    reveal_strlit("goatbehavior");
    assert("sprintbehavior"@.len() != "goatbehavior"@.len());
    reveal_strlit("h-cowbehavior");
    assert("sprintbehavior"@.len() != "h-cowbehavior"@.len());
    reveal_strlit("h-cowbehavior_lod");
    assert("sprintbehavior"@.len() != "h-cowbehavior_lod"@.len());
    reveal_strlit("harebehavior");
    assert("sprintbehavior"@.len() != "harebehavior"@.len());
    reveal_strlit("havgravenbehavior");
    assert("sprintbehavior"@.len() != "havgravenbehavior"@.len());
    reveal_strlit("hmdaedra");
    assert("sprintbehavior"@.len() != "hmdaedra"@.len());
    reveal_strlit("horkerbehavior");
    assert("sprintbehavior"@[0] != "horkerbehavior"@[0]);
    reveal_strlit("horsebehavior");
    assert("sprintbehavior"@.len() != "horsebehavior"@.len());
    reveal_strlit("icewraithbehavior");
    assert("sprintbehavior"@.len() != "icewraithbehavior"@.len());
    reveal_strlit("idlebehavior");
    assert("sprintbehavior"@.len() != "idlebehavior"@.len());
    reveal_strlit("magic_readied_direction_behavior");
    assert("sprintbehavior"@.len() != "magic_readied_direction_behavior"@.len());
    reveal_strlit("magicbehavior");
    assert("sprintbehavior"@.len() != "magicbehavior"@.len());
    reveal_strlit("magicmountedbehavior");
    assert("sprintbehavior"@.len() != "magicmountedbehavior"@.len());
    reveal_strlit("mammothbehavior");
    assert("sprintbehavior"@.len() != "mammothbehavior"@.len());
    reveal_strlit("mt_behavior");
    assert("sprintbehavior"@.len() != "mt_behavior"@.len());
    reveal_strlit("mudcrabbehavior");
    assert("sprintbehavior"@.len() != "mudcrabbehavior"@.len());
    reveal_strlit("netchbehavior");
    assert("sprintbehavior"@.len() != "netchbehavior"@.len());
    reveal_strlit("rieklingbehavior");
    assert("sprintbehavior"@.len() != "rieklingbehavior"@.len());
    reveal_strlit("sabrecatbehavior");
    assert("sprintbehavior"@.len() != "sabrecatbehavior"@.len());
    reveal_strlit("scbehavior");
    assert("sprintbehavior"@.len() != "scbehavior"@.len());
    reveal_strlit("scribbehavior");
    assert("sprintbehavior"@.len() != "scribbehavior"@.len());
    reveal_strlit("shout_behavior");
    assert("sprintbehavior"@[1] != "shout_behavior"@[1]);
    reveal_strlit("shoutmounted_behavior");
    assert("sprintbehavior"@.len() != "shoutmounted_behavior"@.len());
    reveal_strlit("skeeverbehavior");
    assert("sprintbehavior"@.len() != "skeeverbehavior"@.len());
    reveal_strlit("slaughterfishbehavior");
    assert("sprintbehavior"@.len() != "slaughterfishbehavior"@.len());
    reveal_strlit("sprigganbehavior");
    assert("sprintbehavior"@.len() != "sprigganbehavior"@.len());
    reveal_strlit("meshes/actors/character/behaviors/sprintbehavior.bin");
    reveal_strlit("meshes/actors/character/_1stperson/behaviors/sprintbehavior.bin");
    reveal_strlit("meshes/actors/character/");
    reveal_strlit("meshes/actors/character/_1stperson/");
    assert("meshes/actors/character/behaviors/sprintbehavior.bin"@.subrange(0, 24) =~= "meshes/actors/character/"@);
    assert("meshes/actors/character/_1stperson/behaviors/sprintbehavior.bin"@ =~= "meshes/actors/character/_1stperson/"@ + "meshes/actors/character/behaviors/sprintbehavior.bin"@.subrange(24, 52));
}

proof fn lemma_person_templates_17()
    ensures
        third_person_template("staggerbehavior"@) == Some("meshes/actors/character/behaviors/staggerbehavior.bin"@),
        has_prefix_text("meshes/actors/character/behaviors/staggerbehavior.bin"@, "meshes/actors/character/"@),
        "meshes/actors/character/_1stperson/behaviors/staggerbehavior.bin"@ == "meshes/actors/character/_1stperson/"@ + "meshes/actors/character/behaviors/staggerbehavior.bin"@.subrange(24, "meshes/actors/character/behaviors/staggerbehavior.bin"@.len() as int),
{
    reveal_strlit("staggerbehavior");
    reveal_strlit("0_master");
    assert("staggerbehavior"@.len() != "0_master"@.len());
    reveal_strlit("1hm_behavior");
    assert("staggerbehavior"@.len() != "1hm_behavior"@.len());
    reveal_strlit("1hm_locomotion");
    assert("staggerbehavior"@.len() != "1hm_locomotion"@.len());
    reveal_strlit("atronachflamebehavior");
    assert("staggerbehavior"@.len() != "atronachflamebehavior"@.len());
    reveal_strlit("atronachfrostbehavior");
    assert("staggerbehavior"@.len() != "atronachfrostbehavior"@.len());
    reveal_strlit("atronachstormbehavior");
    assert("staggerbehavior"@.len() != "atronachstormbehavior"@.len());
    reveal_strlit("bashbehavior");
    assert("staggerbehavior"@.len() != "bashbehavior"@.len());
    reveal_strlit("bcbehavior");
    assert("staggerbehavior"@.len() != "bcbehavior"@.len());
    reveal_strlit("bearbehavior");
    assert("staggerbehavior"@.len() != "bearbehavior"@.len());
    reveal_strlit("benthiclurkerbehavior");
    assert("staggerbehavior"@.len() != "benthiclurkerbehavior"@.len());
    reveal_strlit("blockbehavior");
    assert("staggerbehavior"@.len() != "blockbehavior"@.len());
    reveal_strlit("boarbehavior");
    assert("staggerbehavior"@.len() != "boarbehavior"@.len());
    reveal_strlit("bow_direction_behavior");
    assert("staggerbehavior"@.len() != "bow_direction_behavior"@.len());
    reveal_strlit("chaurusbehavior");
    assert("staggerbehavior"@[0] != "chaurusbehavior"@[0]);
    reveal_strlit("chaurusflyerbehavior");
    assert("staggerbehavior"@.len() != "chaurusflyerbehavior"@.len());
    reveal_strlit("chickenbehavior");
    assert("staggerbehavior"@[0] != "chickenbehavior"@[0]);
    reveal_strlit("crossbow_direction_behavior");
    assert("staggerbehavior"@.len() != "crossbow_direction_behavior"@.len());
    reveal_strlit("deerbehavior");
    assert("staggerbehavior"@.len() != "deerbehavior"@.len());
    reveal_strlit("defaultfemale");
    assert("staggerbehavior"@.len() != "defaultfemale"@.len());
    reveal_strlit("defaultmale");
    assert("staggerbehavior"@.len() != "defaultmale"@.len());
    reveal_strlit("dogbehavior");
    assert("staggerbehavior"@.len() != "dogbehavior"@.len());
    reveal_strlit("dragon_priest");
    assert("staggerbehavior"@.len() != "dragon_priest"@.len());
    reveal_strlit("dragonbehavior");
    assert("staggerbehavior"@.len() != "dragonbehavior"@.len());
    reveal_strlit("draugr");
    assert("staggerbehavior"@.len() != "draugr"@.len());
    reveal_strlit("draugr_skeleton");
    assert("staggerbehavior"@[0] != "draugr_skeleton"@[0]);
    reveal_strlit("draugrbehavior");
    assert("staggerbehavior"@.len() != "draugrbehavior"@.len());
    reveal_strlit("dwarvenspiderbehavior");
    assert("staggerbehavior"@.len() != "dwarvenspiderbehavior"@.len());
    reveal_strlit("falmerbehavior");
    assert("staggerbehavior"@.len() != "falmerbehavior"@.len());
    reveal_strlit("frostbitespiderbehavior");
    assert("staggerbehavior"@.len() != "frostbitespiderbehavior"@.len());
    reveal_strlit("giantbehavior");
    assert("staggerbehavior"@.len() != "giantbehavior"@.len());
    reveal_strlit("goatbehavior");
    assert("staggerbehavior"@.len() != "goatbehavior"@.len());
    reveal_strlit("h-cowbehavior");
    assert("staggerbehavior"@.len() != "h-cowbehavior"@.len());
    reveal_strlit("h-cowbehavior_lod");
    assert("staggerbehavior"@.len() != "h-cowbehavior_lod"@.len());
    reveal_strlit("harebehavior");
    assert("staggerbehavior"@.len() != "harebehavior"@.len());
    reveal_strlit("havgravenbehavior");
    assert("staggerbehavior"@.len() != "havgravenbehavior"@.len());
    reveal_strlit("hmdaedra");
    assert("staggerbehavior"@.len() != "hmdaedra"@.len());
    reveal_strlit("horkerbehavior");
    assert("staggerbehavior"@.len() != "horkerbehavior"@.len());
    reveal_strlit("horsebehavior");
    assert("staggerbehavior"@.len() != "horsebehavior"@.len());
    reveal_strlit("icewraithbehavior");
    assert("staggerbehavior"@.len() != "icewraithbehavior"@.len());
    reveal_strlit("idlebehavior");
    assert("staggerbehavior"@.len() != "idlebehavior"@.len());
    reveal_strlit("magic_readied_direction_behavior");
    assert("staggerbehavior"@.len() != "magic_readied_direction_behavior"@.len());
    reveal_strlit("magicbehavior");
    assert("staggerbehavior"@.len() != "magicbehavior"@.len());
    reveal_strlit("magicmountedbehavior");
    assert("staggerbehavior"@.len() != "magicmountedbehavior"@.len());
    reveal_strlit("mammothbehavior");
    assert("staggerbehavior"@[0] != "mammothbehavior"@[0]);
    reveal_strlit("mt_behavior");
    assert("staggerbehavior"@.len() != "mt_behavior"@.len());
    reveal_strlit("mudcrabbehavior");
    assert("staggerbehavior"@[0] != "mudcrabbehavior"@[0]);
    reveal_strlit("netchbehavior");
    assert("staggerbehavior"@.len() != "netchbehavior"@.len());
    reveal_strlit("rieklingbehavior");
    assert("staggerbehavior"@.len() != "rieklingbehavior"@.len());
    reveal_strlit("sabrecatbehavior");
    assert("staggerbehavior"@.len() != "sabrecatbehavior"@.len());
    reveal_strlit("scbehavior");
    assert("staggerbehavior"@.len() != "scbehavior"@.len());
    reveal_strlit("scribbehavior");
    assert("staggerbehavior"@.len() != "scribbehavior"@.len());
    reveal_strlit("shout_behavior");
    assert("staggerbehavior"@.len() != "shout_behavior"@.len());
    reveal_strlit("shoutmounted_behavior");
    assert("staggerbehavior"@.len() != "shoutmounted_behavior"@.len());
    reveal_strlit("skeeverbehavior");
    assert("staggerbehavior"@[1] != "skeeverbehavior"@[1]);
    reveal_strlit("slaughterfishbehavior");
    assert("staggerbehavior"@.len() != "slaughterfishbehavior"@.len());
    reveal_strlit("sprigganbehavior");
    assert("staggerbehavior"@.len() != "sprigganbehavior"@.len());
    reveal_strlit("sprintbehavior");
    assert("staggerbehavior"@.len() != "sprintbehavior"@.len());
    reveal_strlit("meshes/actors/character/behaviors/staggerbehavior.bin");
    reveal_strlit("meshes/actors/character/_1stperson/behaviors/staggerbehavior.bin");
    reveal_strlit("meshes/actors/character/");
    reveal_strlit("meshes/actors/character/_1stperson/");
    assert("meshes/actors/character/behaviors/staggerbehavior.bin"@.subrange(0, 24) =~= "meshes/actors/character/"@);
    assert("meshes/actors/character/_1stperson/behaviors/staggerbehavior.bin"@ =~= "meshes/actors/character/_1stperson/"@ + "meshes/actors/character/behaviors/staggerbehavior.bin"@.subrange(24, 53));
}

proof fn lemma_person_templates_18()
    ensures
        third_person_template("weapequip"@) == Some("meshes/actors/character/behaviors/weapequip.bin"@),
        has_prefix_text("meshes/actors/character/behaviors/weapequip.bin"@, "meshes/actors/character/"@),
        "meshes/actors/character/_1stperson/behaviors/weapequip.bin"@ == "meshes/actors/character/_1stperson/"@ + "meshes/actors/character/behaviors/weapequip.bin"@.subrange(24, "meshes/actors/character/behaviors/weapequip.bin"@.len() as int),
{
    reveal_strlit("weapequip");
    reveal_strlit("0_master");
    assert("weapequip"@.len() != "0_master"@.len());
    reveal_strlit("1hm_behavior");
    assert("weapequip"@.len() != "1hm_behavior"@.len());
    reveal_strlit("1hm_locomotion");
    assert("weapequip"@.len() != "1hm_locomotion"@.len());
    reveal_strlit("atronachflamebehavior");
    assert("weapequip"@.len() != "atronachflamebehavior"@.len());
    reveal_strlit("atronachfrostbehavior");
    assert("weapequip"@.len() != "atronachfrostbehavior"@.len());
    reveal_strlit("atronachstormbehavior");
    assert("weapequip"@.len() != "atronachstormbehavior"@.len());
    reveal_strlit("bashbehavior");
    assert("weapequip"@.len() != "bashbehavior"@.len());
    reveal_strlit("bcbehavior");
    assert("weapequip"@.len() != "bcbehavior"@.len());
    reveal_strlit("bearbehavior");
    assert("weapequip"@.len() != "bearbehavior"@.len());
    reveal_strlit("benthiclurkerbehavior");
    assert("weapequip"@.len() != "benthiclurkerbehavior"@.len());
    reveal_strlit("blockbehavior");
    assert("weapequip"@.len() != "blockbehavior"@.len());
    reveal_strlit("boarbehavior");
    assert("weapequip"@.len() != "boarbehavior"@.len());
    reveal_strlit("bow_direction_behavior");
    assert("weapequip"@.len() != "bow_direction_behavior"@.len());
    reveal_strlit("chaurusbehavior");
    assert("weapequip"@.len() != "chaurusbehavior"@.len());
    reveal_strlit("chaurusflyerbehavior");
    assert("weapequip"@.len() != "chaurusflyerbehavior"@.len());
    reveal_strlit("chickenbehavior");
    assert("weapequip"@.len() != "chickenbehavior"@.len());
    reveal_strlit("crossbow_direction_behavior");
    assert("weapequip"@.len() != "crossbow_direction_behavior"@.len());
    reveal_strlit("deerbehavior");
    assert("weapequip"@.len() != "deerbehavior"@.len());
    reveal_strlit("defaultfemale");
    assert("weapequip"@.len() != "defaultfemale"@.len());
    reveal_strlit("defaultmale");
    assert("weapequip"@.len() != "defaultmale"@.len());
    reveal_strlit("dogbehavior");
    assert("weapequip"@.len() != "dogbehavior"@.len());
    reveal_strlit("dragon_priest");
    assert("weapequip"@.len() != "dragon_priest"@.len());
    reveal_strlit("dragonbehavior");
    assert("weapequip"@.len() != "dragonbehavior"@.len());
    reveal_strlit("draugr");
    assert("weapequip"@.len() != "draugr"@.len());
    reveal_strlit("draugr_skeleton");
    assert("weapequip"@.len() != "draugr_skeleton"@.len());
    reveal_strlit("draugrbehavior");
    assert("weapequip"@.len() != "draugrbehavior"@.len());
    reveal_strlit("dwarvenspiderbehavior");
    assert("weapequip"@.len() != "dwarvenspiderbehavior"@.len());
    reveal_strlit("falmerbehavior");
    assert("weapequip"@.len() != "falmerbehavior"@.len());
    reveal_strlit("frostbitespiderbehavior");
    assert("weapequip"@.len() != "frostbitespiderbehavior"@.len());
    reveal_strlit("giantbehavior");
    assert("weapequip"@.len() != "giantbehavior"@.len());
    reveal_strlit("goatbehavior");
    assert("weapequip"@.len() != "goatbehavior"@.len());
    reveal_strlit("h-cowbehavior");
    assert("weapequip"@.len() != "h-cowbehavior"@.len());
    reveal_strlit("h-cowbehavior_lod");
    assert("weapequip"@.len() != "h-cowbehavior_lod"@.len());
    reveal_strlit("harebehavior");
    assert("weapequip"@.len() != "harebehavior"@.len());
    reveal_strlit("havgravenbehavior");
    assert("weapequip"@.len() != "havgravenbehavior"@.len());
    reveal_strlit("hmdaedra");
    assert("weapequip"@.len() != "hmdaedra"@.len());
    reveal_strlit("horkerbehavior");
    assert("weapequip"@.len() != "horkerbehavior"@.len());
    reveal_strlit("horsebehavior");
    assert("weapequip"@.len() != "horsebehavior"@.len());
    reveal_strlit("icewraithbehavior");
    assert("weapequip"@.len() != "icewraithbehavior"@.len());
    reveal_strlit("idlebehavior");
    assert("weapequip"@.len() != "idlebehavior"@.len());
    reveal_strlit("magic_readied_direction_behavior");
    assert("weapequip"@.len() != "magic_readied_direction_behavior"@.len());
    reveal_strlit("magicbehavior");
    assert("weapequip"@.len() != "magicbehavior"@.len());
    reveal_strlit("magicmountedbehavior");
    assert("weapequip"@.len() != "magicmountedbehavior"@.len());
    reveal_strlit("mammothbehavior");
    assert("weapequip"@.len() != "mammothbehavior"@.len());
    reveal_strlit("mt_behavior");
    assert("weapequip"@.len() != "mt_behavior"@.len());
    reveal_strlit("mudcrabbehavior");
    assert("weapequip"@.len() != "mudcrabbehavior"@.len());
    reveal_strlit("netchbehavior");
    assert("weapequip"@.len() != "netchbehavior"@.len());
    reveal_strlit("rieklingbehavior");
    assert("weapequip"@.len() != "rieklingbehavior"@.len());
    reveal_strlit("sabrecatbehavior");
    assert("weapequip"@.len() != "sabrecatbehavior"@.len());
    reveal_strlit("scbehavior");
    assert("weapequip"@.len() != "scbehavior"@.len());
    reveal_strlit("scribbehavior");
    assert("weapequip"@.len() != "scribbehavior"@.len());
    reveal_strlit("shout_behavior");
    assert("weapequip"@.len() != "shout_behavior"@.len());
    reveal_strlit("shoutmounted_behavior");
    assert("weapequip"@.len() != "shoutmounted_behavior"@.len());
    reveal_strlit("skeeverbehavior");
    assert("weapequip"@.len() != "skeeverbehavior"@.len());
    reveal_strlit("slaughterfishbehavior");
    assert("weapequip"@.len() != "slaughterfishbehavior"@.len());
    reveal_strlit("sprigganbehavior");
    assert("weapequip"@.len() != "sprigganbehavior"@.len());
    reveal_strlit("sprintbehavior");
    assert("weapequip"@.len() != "sprintbehavior"@.len());
    reveal_strlit("staggerbehavior");
    assert("weapequip"@.len() != "staggerbehavior"@.len());
    reveal_strlit("steambehavior");
    assert("weapequip"@.len() != "steambehavior"@.len());
    reveal_strlit("trollbehavior");
    assert("weapequip"@.len() != "trollbehavior"@.len());
    reveal_strlit("vampirebrutebehavior");
    assert("weapequip"@.len() != "vampirebrutebehavior"@.len());
    reveal_strlit("meshes/actors/character/behaviors/weapequip.bin");
    reveal_strlit("meshes/actors/character/_1stperson/behaviors/weapequip.bin");
    reveal_strlit("meshes/actors/character/");
    reveal_strlit("meshes/actors/character/_1stperson/");
    assert("meshes/actors/character/behaviors/weapequip.bin"@.subrange(0, 24) =~= "meshes/actors/character/"@);
    assert("meshes/actors/character/_1stperson/behaviors/weapequip.bin"@ =~= "meshes/actors/character/_1stperson/"@ + "meshes/actors/character/behaviors/weapequip.bin"@.subrange(24, 47));
}

} // verus!
