//! Where the FNIS generators register what they add: the string data, value set and graph
//! data of their target behavior, as the master index table gives them.
use vstd::prelude::*;

use crate::chair::{spec_chair_seq, ChairAnimation};
use crate::furniture::{spec_fu_anim_seq, FurnitureAnim};
use crate::master_global::spec_push_alt_anim_values;
use crate::templates::{index_number, master_index_of};

verus! {

/// The events and variables that chair and furniture entries add to `mt_behavior` go to the
/// string data and graph data that the 3rd person master index table gives for
/// `mt_behavior`, and their variable values to the value set between the two.
pub proof fn lemma_mt_behavior_registrations_use_its_master_index(
    chair: ChairAnimation,
    furniture: FurnitureAnim,
    p: usize,
    ci: Seq<Seq<char>>,
)
    ensures
        ({
            let c = spec_chair_seq(chair, p, ci);
            let f = spec_fu_anim_seq(furniture, p, ci);
            &&& master_index_of("mt_behavior"@, false) == Some((c[0].0[0], c[1].0[0]))
            &&& c[0].0[1] == "hkbBehaviorGraphStringData"@ && c[1].0[1] == "hkbBehaviorGraphData"@
            &&& master_index_of("mt_behavior"@, false) == Some((f[0].0[0], f[1].0[0]))
            &&& f[0].0[1] == "hkbBehaviorGraphStringData"@ && f[1].0[1] == "hkbBehaviorGraphData"@
            &&& chair.anim_vars@.len() > 0 ==> c[3].0[1] == "hkbVariableValueSet"@
                && index_number(c[3].0[0]) == index_number(c[0].0[0]) + 1
                && index_number(c[3].0[0]) + 1 == index_number(c[1].0[0])
        }),
{
    reveal_strlit("mt_behavior");
    reveal_strlit("0_master");
    assert("0_master"@.len() != "mt_behavior"@.len());
    reveal_strlit("1hm_behavior");
    assert("1hm_behavior"@.len() != "mt_behavior"@.len());
    reveal_strlit("1hm_locomotion");
    assert("1hm_locomotion"@.len() != "mt_behavior"@.len());
    reveal_strlit("atronachflamebehavior");
    assert("atronachflamebehavior"@.len() != "mt_behavior"@.len());
    reveal_strlit("atronachfrostbehavior");
    assert("atronachfrostbehavior"@.len() != "mt_behavior"@.len());
    reveal_strlit("atronachstormbehavior");
    assert("atronachstormbehavior"@.len() != "mt_behavior"@.len());
    reveal_strlit("bashbehavior");
    assert("bashbehavior"@.len() != "mt_behavior"@.len());
    reveal_strlit("bcbehavior");
    assert("bcbehavior"@.len() != "mt_behavior"@.len());
    reveal_strlit("bearbehavior");
    assert("bearbehavior"@.len() != "mt_behavior"@.len());
    reveal_strlit("benthiclurkerbehavior");
    assert("benthiclurkerbehavior"@.len() != "mt_behavior"@.len());
    reveal_strlit("blockbehavior");
    assert("blockbehavior"@.len() != "mt_behavior"@.len());
    reveal_strlit("boarbehavior");
    assert("boarbehavior"@.len() != "mt_behavior"@.len());
    reveal_strlit("bow_direction_behavior");
    assert("bow_direction_behavior"@.len() != "mt_behavior"@.len());
    reveal_strlit("chaurusbehavior");
    assert("chaurusbehavior"@.len() != "mt_behavior"@.len());
    reveal_strlit("chaurusflyerbehavior");
    assert("chaurusflyerbehavior"@.len() != "mt_behavior"@.len());
    reveal_strlit("chickenbehavior");
    assert("chickenbehavior"@.len() != "mt_behavior"@.len());
    reveal_strlit("crossbow_direction_behavior");
    assert("crossbow_direction_behavior"@.len() != "mt_behavior"@.len());
    reveal_strlit("deerbehavior");
    assert("deerbehavior"@.len() != "mt_behavior"@.len());
    reveal_strlit("dogbehavior");
    assert("dogbehavior"@[0] != "mt_behavior"@[0]);
    reveal_strlit("dragon_priest");
    assert("dragon_priest"@.len() != "mt_behavior"@.len());
    reveal_strlit("dragonbehavior");
    assert("dragonbehavior"@.len() != "mt_behavior"@.len());
    reveal_strlit("draugrbehavior");
    assert("draugrbehavior"@.len() != "mt_behavior"@.len());
    reveal_strlit("dwarvenspiderbehavior");
    assert("dwarvenspiderbehavior"@.len() != "mt_behavior"@.len());
    reveal_strlit("falmerbehavior");
    assert("falmerbehavior"@.len() != "mt_behavior"@.len());
    reveal_strlit("frostbitespiderbehavior");
    assert("frostbitespiderbehavior"@.len() != "mt_behavior"@.len());
    reveal_strlit("giantbehavior");
    assert("giantbehavior"@.len() != "mt_behavior"@.len());
    reveal_strlit("goatbehavior");
    assert("goatbehavior"@.len() != "mt_behavior"@.len());
    reveal_strlit("h-cowbehavior");
    assert("h-cowbehavior"@.len() != "mt_behavior"@.len());
    reveal_strlit("h-cowbehavior_lod");
    assert("h-cowbehavior_lod"@.len() != "mt_behavior"@.len());
    reveal_strlit("harebehavior");
    assert("harebehavior"@.len() != "mt_behavior"@.len());
    reveal_strlit("havgravenbehavior");
    assert("havgravenbehavior"@.len() != "mt_behavior"@.len());
    reveal_strlit("hmdaedra");
    assert("hmdaedra"@.len() != "mt_behavior"@.len());
    reveal_strlit("horkerbehavior");
    assert("horkerbehavior"@.len() != "mt_behavior"@.len());
    reveal_strlit("horsebehavior");
    assert("horsebehavior"@.len() != "mt_behavior"@.len());
    reveal_strlit("icewraithbehavior");
    assert("icewraithbehavior"@.len() != "mt_behavior"@.len());
    reveal_strlit("idlebehavior");
    assert("idlebehavior"@.len() != "mt_behavior"@.len());
    reveal_strlit("magic_readied_direction_behavior");
    assert("magic_readied_direction_behavior"@.len() != "mt_behavior"@.len());
    reveal_strlit("magicbehavior");
    assert("magicbehavior"@.len() != "mt_behavior"@.len());
    reveal_strlit("magicmountedbehavior");
    assert("magicmountedbehavior"@.len() != "mt_behavior"@.len());
    reveal_strlit("mammothbehavior");
    assert("mammothbehavior"@.len() != "mt_behavior"@.len());
    reveal_strlit("#0083");
    reveal_strlit("#0084");
    reveal_strlit("#0085");
    let c = spec_chair_seq(chair, p, ci);
    let f = spec_fu_anim_seq(furniture, p, ci);
    assert(master_index_of("mt_behavior"@, false) == Some(("#0083"@, "#0085"@)));
    assert(c[0].0[0] == "#0083"@);
    assert(c[1].0[0] == "#0085"@);
    assert(f[0].0[0] == "#0083"@);
    assert(f[1].0[0] == "#0085"@);
    if chair.anim_vars@.len() > 0 {
        assert(c[3].0[0] == "#0084"@);
    }
}

/// The variables of alternate animations go to the string data and graph data that the 3rd
/// person master index table gives for `0_master`, and their values to the value set
/// between the two.
pub proof fn lemma_alt_anim_values_use_master_index(p: usize)
    ensures
        ({
            let a = spec_push_alt_anim_values(p);
            &&& master_index_of("0_master"@, false) == Some((a[2].0[0], a[1].0[0]))
            &&& a[2].0[1] == "hkbBehaviorGraphStringData"@ && a[1].0[1] == "hkbBehaviorGraphData"@
            &&& a[0].0[1] == "hkbVariableValueSet"@
            &&& index_number(a[0].0[0]) == index_number(a[2].0[0]) + 1
            &&& index_number(a[0].0[0]) + 1 == index_number(a[1].0[0])
        }),
{
    reveal_strlit("0_master");
    reveal_strlit("#0106");
    reveal_strlit("#0107");
    reveal_strlit("#0108");
}

} // verus!
