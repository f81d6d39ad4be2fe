//! OpenAnimationReplacer (OAR) settings of FNIS alternate animations.
//!
//! FNIS alternate animations (`<prefix><slot>_<animation>.hkx`) are moved into OAR
//! directories, one per group and slot, each with a `config.json` whose condition
//! compares the graph variable `FNISaa<group>` with the slot's value, and a
//! namespace-level `config.json`. This module computes the values those files hold;
//! writing them as JSON is left to the caller.
use vstd::prelude::*;

use crate::bdi::{spec_fnis_aa_groups, spec_group_variable};
use crate::group_names::{spec_fnis_str, AAGroupName};
use crate::text::{decimal, u64_to_decimal};

verus! {

/// Represents the configuration structure for the namespace-level `config.json`.
#[derive(Debug, Clone, Copy, PartialEq, Eq, Default)]
pub struct NamespaceConfig<'a> {
    /// The name associated with the configuration.
    pub name: &'a str,
    /// The description associated with the configuration.
    pub description: &'a str,
    /// The author associated with the configuration.
    pub author: &'a str,
}

/// The text of an optional override, or `default` when there is none.
pub open spec fn or_default(value: Option<&str>, default: Seq<char>) -> Seq<char> {
    match value {
        Some(v) => v@,
        None => default,
    }
}

/// The namespace-level configuration of an FNIS namespace: the name, description and
/// author of the override config where it gives them; otherwise the namespace as the
/// name, and an empty description and author.
pub fn prepare_namespace_config<'a>(
    namespace: &'a str,
    name: Option<&'a str>,
    description: Option<&'a str>,
    author: Option<&'a str>,
) -> (r: NamespaceConfig<'a>)
    ensures
        r.name@ == or_default(name, namespace@),
        r.description@ == or_default(description, Seq::empty()),
        r.author@ == or_default(author, Seq::empty()),
{
    proof {
        reveal_strlit("");
    }
    NamespaceConfig {
        name: match name {
            Some(n) => n,
            None => namespace,
        },
        description: match description {
            Some(d) => d,
            None => "",
        },
        author: match author {
            Some(a) => a,
            None => "",
        },
    }
}

/// `<prefix><group>_<slot + 1>`: the default directory name of a slot.
pub open spec fn spec_default_slot_dir(prefix: Seq<char>, group_name: Seq<char>, slot: u64) -> Seq<
    char,
> {
    prefix + group_name + "_"@ + decimal((slot + 1) as nat)
}

/// The directory of a slot, shown in the OAR GUI: the slot's `rename_to` override, or
/// `<prefix><group>_<slot + 1>` (the prefix keeps two mods declaring one group apart; the
/// number starts from 1).
pub fn slot_config_dir_name(prefix: &str, group_name: &str, slot: u64, rename_to: Option<&str>) -> (r:
    String)
    requires
        slot < u64::MAX,
    ensures
        r@ == or_default(rename_to, spec_default_slot_dir(prefix@, group_name@, slot)),
{
    match rename_to {
        Some(name) => name.to_owned(),
        None => {
            let mut r = String::from_str(prefix);
            r.append(group_name);
            r.append("_");
            r.append(u64_to_decimal(slot + 1).as_str());
            r
        },
    }
}

/// The graph variable that the OAR condition of a group compares: `FNISaa<group>`, e.g.
/// `FNISaa_1hmeqp`.
pub open spec fn spec_slot_variable(g: AAGroupName) -> Seq<char> {
    "FNISaa"@ + spec_fnis_str(g)
}

/// `base(<base>) + value(<slot>)`: the default description of a slot.
pub open spec fn spec_default_slot_description(base: u64, slot: u64) -> Seq<char> {
    "base("@ + decimal(base as nat) + ") + value("@ + decimal(slot as nat) + ")"@
}

/// The priority of a slot: the override's priority as an `i32` (a value above `i32::MAX`
/// wraps), or `i32::MAX`.
pub open spec fn spec_slot_priority(priority: Option<u32>) -> i32 {
    match priority {
        Some(p) => p as i32,
        None => i32::MAX,
    }
}

/// What a slot's OAR `config.json` states, apart from the user's own conditions, which
/// follow the FNIS condition.
#[derive(Debug, Clone, PartialEq, Eq)]
pub struct AaSlotConfig {
    /// The directory name shown in the OAR GUI.
    pub name: String,
    /// The description of the slot.
    pub description: String,
    /// The OAR priority of the slot.
    pub priority: i32,
    /// The graph variable of the FNIS condition, e.g. `FNISaa_1hmeqp`.
    pub condition_variable: String,
    /// The value that the variable must equal: `base + slot`.
    pub condition_value: u64,
}

/// The settings of the per-slot OAR `config.json` of `group_name`: slot `slot` of a mod
/// whose base is `base` is chosen when `FNISaa<group>` equals `base + slot` (slot 0 of a mod
/// with base 6 gives 6, slot 1 gives 7). `description` and `priority` are the slot's
/// overrides, if any.
pub fn new_fnis_aa_slot_config(
    group_config_dir: &str,
    group_name: AAGroupName,
    slot: u64,
    base: u64,
    description: Option<&str>,
    priority: Option<u32>,
) -> (r: AaSlotConfig)
    requires
        base + slot <= u64::MAX,
    ensures
        r.name@ == group_config_dir@,
        r.description@ == or_default(description, spec_default_slot_description(base, slot)),
        r.priority == spec_slot_priority(priority),
        r.condition_variable@ == spec_slot_variable(group_name),
        r.condition_value == base + slot,
{
    let description = match description {
        Some(d) => d.to_owned(),
        None => {
            let mut d = String::from_str("base(");
            d.append(u64_to_decimal(base).as_str());
            d.append(") + value(");
            d.append(u64_to_decimal(slot).as_str());
            d.append(")");
            d
        },
    };
    let priority = match priority {
        Some(p) => p as i32,
        None => i32::MAX,
    };
    let mut condition_variable = String::from_str("FNISaa");
    condition_variable.append(group_name.as_fnis_str());
    AaSlotConfig {
        name: group_config_dir.to_owned(),
        description,
        priority,
        condition_variable,
        condition_value: base + slot,
    }
}

/// The variable that the OAR condition of a group compares is registered by the BDI
/// config, for every group but `Shout` and `MagAtk`, which have no `FNISaa_*` variable there.
pub proof fn lemma_slot_variable_registered(g: AAGroupName)
    requires
        g != AAGroupName::Shout,
        g != AAGroupName::MagAtk,
    ensures
        exists|k: int|
            0 <= k < spec_fnis_aa_groups().len() && #[trigger] spec_group_variable(
                spec_fnis_aa_groups()[k],
            ) == spec_slot_variable(g),
{
    reveal_strlit("FNISaa");
    reveal_strlit("FNISaa_");
    match g {
        AAGroupName::MtIdle => {
            reveal_strlit("_mtidle");
            reveal_strlit("mtidle");
            assert(spec_group_variable(spec_fnis_aa_groups()[0]) =~= spec_slot_variable(g));
        },
        AAGroupName::OneHmIdle => {
            reveal_strlit("_1hmidle");
            reveal_strlit("1hmidle");
            assert(spec_group_variable(spec_fnis_aa_groups()[1]) =~= spec_slot_variable(g));
        },
        AAGroupName::TwoHmIdle => {
            reveal_strlit("_2hmidle");
            reveal_strlit("2hmidle");
            assert(spec_group_variable(spec_fnis_aa_groups()[2]) =~= spec_slot_variable(g));
        },
        AAGroupName::TwoHwIdle => {
            reveal_strlit("_2hwidle");
            reveal_strlit("2hwidle");
            assert(spec_group_variable(spec_fnis_aa_groups()[3]) =~= spec_slot_variable(g));
        },
        AAGroupName::BowIdle => {
            reveal_strlit("_bowidle");
            reveal_strlit("bowidle");
            assert(spec_group_variable(spec_fnis_aa_groups()[4]) =~= spec_slot_variable(g));
        },
        AAGroupName::CBowIdle => {
            reveal_strlit("_cbowidle");
            reveal_strlit("cbowidle");
            assert(spec_group_variable(spec_fnis_aa_groups()[5]) =~= spec_slot_variable(g));
        },
        AAGroupName::H2HIdle => {
            reveal_strlit("_h2hidle");
            reveal_strlit("h2hidle");
            assert(spec_group_variable(spec_fnis_aa_groups()[6]) =~= spec_slot_variable(g));
        },
        AAGroupName::MagIdle => {
            reveal_strlit("_magidle");
            reveal_strlit("magidle");
            assert(spec_group_variable(spec_fnis_aa_groups()[7]) =~= spec_slot_variable(g));
        },
        AAGroupName::SneakIdle => {
            reveal_strlit("_sneakidle");
            reveal_strlit("sneakidle");
            assert(spec_group_variable(spec_fnis_aa_groups()[8]) =~= spec_slot_variable(g));
        },
        AAGroupName::StaffIdle => {
            reveal_strlit("_staffidle");
            reveal_strlit("staffidle");
            assert(spec_group_variable(spec_fnis_aa_groups()[9]) =~= spec_slot_variable(g));
        },
        AAGroupName::MagMt => {
            reveal_strlit("_magmt");
            reveal_strlit("magmt");
            assert(spec_group_variable(spec_fnis_aa_groups()[10]) =~= spec_slot_variable(g));
        },
        AAGroupName::MagCastMt => {
            reveal_strlit("_magcastmt");
            reveal_strlit("magcastmt");
            assert(spec_group_variable(spec_fnis_aa_groups()[11]) =~= spec_slot_variable(g));
        },
        AAGroupName::OneHmAtk => {
            reveal_strlit("_1hmatk");
            reveal_strlit("1hmatk");
            assert(spec_group_variable(spec_fnis_aa_groups()[13]) =~= spec_slot_variable(g));
        },
        AAGroupName::H2HAtk => {
            reveal_strlit("_h2hatk");
            reveal_strlit("h2hatk");
            assert(spec_group_variable(spec_fnis_aa_groups()[14]) =~= spec_slot_variable(g));
        },
        AAGroupName::H2HAtkPow => {
            reveal_strlit("_h2hatkpow");
            reveal_strlit("h2hatkpow");
            assert(spec_group_variable(spec_fnis_aa_groups()[15]) =~= spec_slot_variable(g));
        },
        AAGroupName::MagAtk => {},
        AAGroupName::OneHmEqp => {
            reveal_strlit("_1hmeqp");
            reveal_strlit("1hmeqp");
            assert(spec_group_variable(spec_fnis_aa_groups()[16]) =~= spec_slot_variable(g));
        },
        AAGroupName::TwoHwEqp => {
            reveal_strlit("_2hweqp");
            reveal_strlit("2hweqp");
            assert(spec_group_variable(spec_fnis_aa_groups()[17]) =~= spec_slot_variable(g));
        },
        AAGroupName::TwoHmEqp => {
            reveal_strlit("_2hmeqp");
            reveal_strlit("2hmeqp");
            assert(spec_group_variable(spec_fnis_aa_groups()[18]) =~= spec_slot_variable(g));
        },
        AAGroupName::AxeEqp => {
            reveal_strlit("_axeeqp");
            reveal_strlit("axeeqp");
            assert(spec_group_variable(spec_fnis_aa_groups()[19]) =~= spec_slot_variable(g));
        },
        AAGroupName::BowEqp => {
            reveal_strlit("_boweqp");
            reveal_strlit("boweqp");
            assert(spec_group_variable(spec_fnis_aa_groups()[20]) =~= spec_slot_variable(g));
        },
        AAGroupName::CBowEqp => {
            reveal_strlit("_cboweqp");
            reveal_strlit("cboweqp");
            assert(spec_group_variable(spec_fnis_aa_groups()[21]) =~= spec_slot_variable(g));
        },
        AAGroupName::DagEqp => {
            reveal_strlit("_dageqp");
            reveal_strlit("dageqp");
            assert(spec_group_variable(spec_fnis_aa_groups()[22]) =~= spec_slot_variable(g));
        },
        AAGroupName::H2HEqp => {
            reveal_strlit("_h2heqp");
            reveal_strlit("h2heqp");
            assert(spec_group_variable(spec_fnis_aa_groups()[23]) =~= spec_slot_variable(g));
        },
        AAGroupName::MaceEqp => {
            reveal_strlit("_maceqp");
            reveal_strlit("maceqp");
            assert(spec_group_variable(spec_fnis_aa_groups()[24]) =~= spec_slot_variable(g));
        },
        AAGroupName::MagEqp => {
            reveal_strlit("_mageqp");
            reveal_strlit("mageqp");
            assert(spec_group_variable(spec_fnis_aa_groups()[25]) =~= spec_slot_variable(g));
        },
        AAGroupName::StfEqp => {
            reveal_strlit("_stfeqp");
            reveal_strlit("stfeqp");
            assert(spec_group_variable(spec_fnis_aa_groups()[26]) =~= spec_slot_variable(g));
        },
        AAGroupName::Shout => {},
        AAGroupName::MagCon => {
            reveal_strlit("_magcon");
            reveal_strlit("magcon");
            assert(spec_group_variable(spec_fnis_aa_groups()[27]) =~= spec_slot_variable(g));
        },
        AAGroupName::DW => {
            reveal_strlit("_dw");
            reveal_strlit("dw");
            assert(spec_group_variable(spec_fnis_aa_groups()[28]) =~= spec_slot_variable(g));
        },
        AAGroupName::Jump => {
            reveal_strlit("_jump");
            reveal_strlit("jump");
            assert(spec_group_variable(spec_fnis_aa_groups()[29]) =~= spec_slot_variable(g));
        },
        AAGroupName::Sprint => {
            reveal_strlit("_sprint");
            reveal_strlit("sprint");
            assert(spec_group_variable(spec_fnis_aa_groups()[30]) =~= spec_slot_variable(g));
        },
        AAGroupName::Shield => {
            reveal_strlit("_shield");
            reveal_strlit("shield");
            assert(spec_group_variable(spec_fnis_aa_groups()[31]) =~= spec_slot_variable(g));
        },
    }
}

} // verus!
