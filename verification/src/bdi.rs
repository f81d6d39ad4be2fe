//! BehaviorDataInjector (BDI) configuration: instead of a Nemesis patch, the graph
//! variables that serve as an index for FNIS alternate animations are registered through a
//! BDI config file (`SKSE/Plugins/BehaviorDataInjector/FNIS_AA_to_OAR_BDI.json`).
use vstd::prelude::*;

use crate::behaviors::BehaviorEntry;

verus! {

/// A single BDI graph variable entry.
#[derive(Debug, Clone, PartialEq, Eq)]
pub struct BdiEntry {
    /// Relative to `Data/Meshes/`, e.g. `actors/character`.
    pub project_path: &'static str,
    /// Always `kInt` for FNIS alternate animation variables.
    pub ty: &'static str,
    /// e.g. `FNISaa_mtidle` or `FNISaa_mtidle_crc`
    pub name: String,
    /// Initial value: always 0.
    pub value: i32,
}

/// The FNIS alternate animation groups that have an `FNISaa_*` variable (names without the
/// `FNISaa_` prefix and the `_crc` suffix).
pub open spec fn spec_fnis_aa_groups() -> Seq<Seq<char>> {
    seq![
        "mtidle"@,
        "1hmidle"@,
        "2hmidle"@,
        "2hwidle"@,
        "bowidle"@,
        "cbowidle"@,
        "h2hidle"@,
        "magidle"@,
        "sneakidle"@,
        "staffidle"@,
        "magmt"@,
        "magcastmt"@,
        "sneakmt"@,
        "1hmatk"@,
        "h2hatk"@,
        "h2hatkpow"@,
        "1hmeqp"@,
        "2hweqp"@,
        "2hmeqp"@,
        "axeeqp"@,
        "boweqp"@,
        "cboweqp"@,
        "dageqp"@,
        "h2heqp"@,
        "maceqp"@,
        "mageqp"@,
        "stfeqp"@,
        "magcon"@,
        "dw"@,
        "jump"@,
        "sprint"@,
        "shield"@,
    ]
}

fn fnis_aa_groups() -> (r: [&'static str; 32])
    ensures
        forall|i: int| 0 <= i < 32 ==> #[trigger] r@[i]@ == spec_fnis_aa_groups()[i],
{
    let r = [
        "mtidle",
        "1hmidle",
        "2hmidle",
        "2hwidle",
        "bowidle",
        "cbowidle",
        "h2hidle",
        "magidle",
        "sneakidle",
        "staffidle",
        "magmt",
        "magcastmt",
        "sneakmt",
        "1hmatk",
        "h2hatk",
        "h2hatkpow",
        "1hmeqp",
        "2hweqp",
        "2hmeqp",
        "axeeqp",
        "boweqp",
        "cboweqp",
        "dageqp",
        "h2heqp",
        "maceqp",
        "mageqp",
        "stfeqp",
        "magcon",
        "dw",
        "jump",
        "sprint",
        "shield",
    ];
    assert(forall|i: int| 0 <= i < 32 ==> #[trigger] r@[i]@ == spec_fnis_aa_groups()[i]);
    r
}

/// The variable of a group: `FNISaa_<group>`.
pub open spec fn spec_group_variable(group: Seq<char>) -> Seq<char> {
    "FNISaa_"@ + group
}

/// Entry `k` of the BDI config of `entry`: the variable of group `k / 2`, with the `_crc`
/// suffix when `k` is odd; `kInt`, value 0, in the project of the behavior's base directory.
pub open spec fn spec_is_bdi_entry(e: BdiEntry, entry: BehaviorEntry, k: int) -> bool {
    let variable = spec_group_variable(spec_fnis_aa_groups()[k / 2]);
    &&& e.project_path == entry.base_dir
    &&& e.ty@ == "kInt"@
    &&& e.value == 0
    &&& e.name@ == (if k % 2 == 0 {
        variable
    } else {
        variable + "_crc"@
    })
}

/// The entries of the BDI config of a behavior: for each group in order, the variables
/// `FNISaa_<group>` and `FNISaa_<group>_crc`, both `kInt` with value 0, in the project of
/// the behavior's base directory.
pub fn bdi_entries(entry: &BehaviorEntry) -> (r: Vec<BdiEntry>)
    ensures
        r@.len() == 2 * spec_fnis_aa_groups().len(),
        forall|k: int| 0 <= k < r@.len() ==> #[trigger] spec_is_bdi_entry(r@[k], *entry, k),
{
    let groups = fnis_aa_groups();
    let mut entries: Vec<BdiEntry> = Vec::new();
    let mut i: usize = 0;
    while i < 32
        invariant
            i <= 32,
            spec_fnis_aa_groups().len() == 32,
            forall|j: int| 0 <= j < 32 ==> #[trigger] groups@[j]@ == spec_fnis_aa_groups()[j],
            entries@.len() == 2 * i,
            forall|k: int|
                0 <= k < entries@.len() ==> #[trigger] spec_is_bdi_entry(entries@[k], *entry, k),
        decreases 32 - i,
    {
        let mut name = String::from_str("FNISaa_");
        name.append(groups[i]);
        let mut crc_name = String::from_str("FNISaa_");
        crc_name.append(groups[i]);
        crc_name.append("_crc");
        entries.push(BdiEntry { project_path: entry.base_dir, ty: "kInt", name, value: 0 });
        entries.push(BdiEntry { project_path: entry.base_dir, ty: "kInt", name: crc_name, value: 0 });
        proof {
            reveal_strlit("kInt");
            assert(spec_is_bdi_entry(entries@[2 * i], *entry, 2 * i));
            assert(spec_is_bdi_entry(entries@[2 * i + 1], *entry, 2 * i + 1));
        }
        i = i + 1;
    }
    entries
}

/// A character of a group name: an ASCII lower-case letter or digit.
pub open spec fn is_group_char(c: char) -> bool {
    ('a' <= c && c <= 'z') || ('0' <= c && c <= '9')
}

/// The BDI groups are 32 distinct names of ASCII lower-case letters and digits, so that
/// each variable `FNISaa_<group>` has a single `_` after `FNISaa` and no two groups share a
/// variable.
pub proof fn lemma_bdi_group_names()
    ensures
        spec_fnis_aa_groups().len() == 32,
        forall|i: int|
            0 <= i < 32 ==> #[trigger] spec_fnis_aa_groups()[i].len() > 0 && forall|j: int|
                0 <= j < spec_fnis_aa_groups()[i].len() ==> is_group_char(spec_fnis_aa_groups()[i][j]),
        spec_fnis_aa_groups().no_duplicates(),
{
    reveal_strlit("1hmatk");
    reveal_strlit("1hmeqp");
    reveal_strlit("1hmidle");
    reveal_strlit("2hmeqp");
    reveal_strlit("2hmidle");
    reveal_strlit("2hweqp");
    reveal_strlit("2hwidle");
    reveal_strlit("axeeqp");
    reveal_strlit("boweqp");
    reveal_strlit("bowidle");
    reveal_strlit("cboweqp");
    reveal_strlit("cbowidle");
    reveal_strlit("dageqp");
    reveal_strlit("dw");
    reveal_strlit("h2hatk");
    reveal_strlit("h2hatkpow");
    reveal_strlit("h2heqp");
    reveal_strlit("h2hidle");
    reveal_strlit("jump");
    reveal_strlit("maceqp");
    reveal_strlit("magcastmt");
    reveal_strlit("magcon");
    reveal_strlit("mageqp");
    reveal_strlit("magidle");
    reveal_strlit("magmt");
    reveal_strlit("mtidle");
    reveal_strlit("shield");
    reveal_strlit("sneakidle");
    reveal_strlit("sneakmt");
    reveal_strlit("sprint");
    reveal_strlit("staffidle");
    reveal_strlit("stfeqp");
    assert("1hmatk"@[3] != "1hmeqp"@[3]);
    assert("1hmatk"@[0] != "2hmeqp"@[0]);
    assert("1hmatk"@[0] != "2hweqp"@[0]);
    assert("1hmatk"@[0] != "axeeqp"@[0]);
    assert("1hmatk"@[0] != "boweqp"@[0]);
    assert("1hmatk"@[0] != "dageqp"@[0]);
    assert("1hmatk"@[0] != "h2hatk"@[0]);
    assert("1hmatk"@[0] != "h2heqp"@[0]);
    assert("1hmatk"@[0] != "maceqp"@[0]);
    assert("1hmatk"@[0] != "magcon"@[0]);
    assert("1hmatk"@[0] != "mageqp"@[0]);
    assert("1hmatk"@[0] != "mtidle"@[0]);
    assert("1hmatk"@[0] != "shield"@[0]);
    assert("1hmatk"@[0] != "sprint"@[0]);
    assert("1hmatk"@[0] != "stfeqp"@[0]);
    assert("1hmeqp"@[0] != "2hmeqp"@[0]);
    assert("1hmeqp"@[0] != "2hweqp"@[0]);
    assert("1hmeqp"@[0] != "axeeqp"@[0]);
    assert("1hmeqp"@[0] != "boweqp"@[0]);
    assert("1hmeqp"@[0] != "dageqp"@[0]);
    assert("1hmeqp"@[0] != "h2hatk"@[0]);
    assert("1hmeqp"@[0] != "h2heqp"@[0]);
    assert("1hmeqp"@[0] != "maceqp"@[0]);
    assert("1hmeqp"@[0] != "magcon"@[0]);
    assert("1hmeqp"@[0] != "mageqp"@[0]);
    assert("1hmeqp"@[0] != "mtidle"@[0]);
    assert("1hmeqp"@[0] != "shield"@[0]);
    assert("1hmeqp"@[0] != "sprint"@[0]);
    assert("1hmeqp"@[0] != "stfeqp"@[0]);
    assert("1hmidle"@[0] != "2hmidle"@[0]);
    assert("1hmidle"@[0] != "2hwidle"@[0]);
    assert("1hmidle"@[0] != "bowidle"@[0]);
    assert("1hmidle"@[0] != "cboweqp"@[0]);
    assert("1hmidle"@[0] != "h2hidle"@[0]);
    assert("1hmidle"@[0] != "magidle"@[0]);
    assert("1hmidle"@[0] != "sneakmt"@[0]);
    assert("2hmeqp"@[2] != "2hweqp"@[2]);
    assert("2hmeqp"@[0] != "axeeqp"@[0]);
    assert("2hmeqp"@[0] != "boweqp"@[0]);
    assert("2hmeqp"@[0] != "dageqp"@[0]);
    assert("2hmeqp"@[0] != "h2hatk"@[0]);
    assert("2hmeqp"@[0] != "h2heqp"@[0]);
    assert("2hmeqp"@[0] != "maceqp"@[0]);
    assert("2hmeqp"@[0] != "magcon"@[0]);
    assert("2hmeqp"@[0] != "mageqp"@[0]);
    assert("2hmeqp"@[0] != "mtidle"@[0]);
    assert("2hmeqp"@[0] != "shield"@[0]);
    assert("2hmeqp"@[0] != "sprint"@[0]);
    assert("2hmeqp"@[0] != "stfeqp"@[0]);
    assert("2hmidle"@[2] != "2hwidle"@[2]);
    assert("2hmidle"@[0] != "bowidle"@[0]);
    assert("2hmidle"@[0] != "cboweqp"@[0]);
    assert("2hmidle"@[0] != "h2hidle"@[0]);
    assert("2hmidle"@[0] != "magidle"@[0]);
    assert("2hmidle"@[0] != "sneakmt"@[0]);
    assert("2hweqp"@[0] != "axeeqp"@[0]);
    assert("2hweqp"@[0] != "boweqp"@[0]);
    assert("2hweqp"@[0] != "dageqp"@[0]);
    assert("2hweqp"@[0] != "h2hatk"@[0]);
    assert("2hweqp"@[0] != "h2heqp"@[0]);
    assert("2hweqp"@[0] != "maceqp"@[0]);
    assert("2hweqp"@[0] != "magcon"@[0]);
    assert("2hweqp"@[0] != "mageqp"@[0]);
    assert("2hweqp"@[0] != "mtidle"@[0]);
    assert("2hweqp"@[0] != "shield"@[0]);
    assert("2hweqp"@[0] != "sprint"@[0]);
    assert("2hweqp"@[0] != "stfeqp"@[0]);
    assert("2hwidle"@[0] != "bowidle"@[0]);
    assert("2hwidle"@[0] != "cboweqp"@[0]);
    assert("2hwidle"@[0] != "h2hidle"@[0]);
    assert("2hwidle"@[0] != "magidle"@[0]);
    assert("2hwidle"@[0] != "sneakmt"@[0]);
    assert("axeeqp"@[0] != "boweqp"@[0]);
    assert("axeeqp"@[0] != "dageqp"@[0]);
    assert("axeeqp"@[0] != "h2hatk"@[0]);
    assert("axeeqp"@[0] != "h2heqp"@[0]);
    assert("axeeqp"@[0] != "maceqp"@[0]);
    assert("axeeqp"@[0] != "magcon"@[0]);
    assert("axeeqp"@[0] != "mageqp"@[0]);
    assert("axeeqp"@[0] != "mtidle"@[0]);
    assert("axeeqp"@[0] != "shield"@[0]);
    assert("axeeqp"@[0] != "sprint"@[0]);
    assert("axeeqp"@[0] != "stfeqp"@[0]);
    assert("boweqp"@[0] != "dageqp"@[0]);
    assert("boweqp"@[0] != "h2hatk"@[0]);
    assert("boweqp"@[0] != "h2heqp"@[0]);
    assert("boweqp"@[0] != "maceqp"@[0]);
    assert("boweqp"@[0] != "magcon"@[0]);
    assert("boweqp"@[0] != "mageqp"@[0]);
    assert("boweqp"@[0] != "mtidle"@[0]);
    assert("boweqp"@[0] != "shield"@[0]);
    assert("boweqp"@[0] != "sprint"@[0]);
    assert("boweqp"@[0] != "stfeqp"@[0]);
    assert("bowidle"@[0] != "cboweqp"@[0]);
    assert("bowidle"@[0] != "h2hidle"@[0]);
    assert("bowidle"@[0] != "magidle"@[0]);
    assert("bowidle"@[0] != "sneakmt"@[0]);
    assert("cboweqp"@[0] != "h2hidle"@[0]);
    assert("cboweqp"@[0] != "magidle"@[0]);
    assert("cboweqp"@[0] != "sneakmt"@[0]);
    assert("dageqp"@[0] != "h2hatk"@[0]);
    assert("dageqp"@[0] != "h2heqp"@[0]);
    assert("dageqp"@[0] != "maceqp"@[0]);
    assert("dageqp"@[0] != "magcon"@[0]);
    assert("dageqp"@[0] != "mageqp"@[0]);
    assert("dageqp"@[0] != "mtidle"@[0]);
    assert("dageqp"@[0] != "shield"@[0]);
    assert("dageqp"@[0] != "sprint"@[0]);
    assert("dageqp"@[0] != "stfeqp"@[0]);
    assert("h2hatk"@[3] != "h2heqp"@[3]);
    assert("h2hatk"@[0] != "maceqp"@[0]);
    assert("h2hatk"@[0] != "magcon"@[0]);
    assert("h2hatk"@[0] != "mageqp"@[0]);
    assert("h2hatk"@[0] != "mtidle"@[0]);
    assert("h2hatk"@[0] != "shield"@[0]);
    assert("h2hatk"@[0] != "sprint"@[0]);
    assert("h2hatk"@[0] != "stfeqp"@[0]);
    assert("h2hatkpow"@[0] != "magcastmt"@[0]);
    assert("h2hatkpow"@[0] != "sneakidle"@[0]);
    assert("h2hatkpow"@[0] != "staffidle"@[0]);
    assert("h2heqp"@[0] != "maceqp"@[0]);
    assert("h2heqp"@[0] != "magcon"@[0]);
    assert("h2heqp"@[0] != "mageqp"@[0]);
    assert("h2heqp"@[0] != "mtidle"@[0]);
    assert("h2heqp"@[0] != "shield"@[0]);
    assert("h2heqp"@[0] != "sprint"@[0]);
    assert("h2heqp"@[0] != "stfeqp"@[0]);
    assert("h2hidle"@[0] != "magidle"@[0]);
    assert("h2hidle"@[0] != "sneakmt"@[0]);
    assert("maceqp"@[2] != "magcon"@[2]);
    assert("maceqp"@[2] != "mageqp"@[2]);
    assert("maceqp"@[1] != "mtidle"@[1]);
    assert("maceqp"@[0] != "shield"@[0]);
    assert("maceqp"@[0] != "sprint"@[0]);
    assert("maceqp"@[0] != "stfeqp"@[0]);
    assert("magcastmt"@[0] != "sneakidle"@[0]);
    assert("magcastmt"@[0] != "staffidle"@[0]);
    assert("magcon"@[3] != "mageqp"@[3]);
    assert("magcon"@[1] != "mtidle"@[1]);
    assert("magcon"@[0] != "shield"@[0]);
    assert("magcon"@[0] != "sprint"@[0]);
    assert("magcon"@[0] != "stfeqp"@[0]);
    assert("mageqp"@[1] != "mtidle"@[1]);
    assert("mageqp"@[0] != "shield"@[0]);
    assert("mageqp"@[0] != "sprint"@[0]);
    assert("mageqp"@[0] != "stfeqp"@[0]);
    assert("magidle"@[0] != "sneakmt"@[0]);
    assert("mtidle"@[0] != "shield"@[0]);
    assert("mtidle"@[0] != "sprint"@[0]);
    assert("mtidle"@[0] != "stfeqp"@[0]);
    assert("shield"@[1] != "sprint"@[1]);
    assert("shield"@[1] != "stfeqp"@[1]);
    assert("sneakidle"@[1] != "staffidle"@[1]);
    assert("sprint"@[1] != "stfeqp"@[1]);
    assert("1hmatk"@.len() == 6);
    assert("1hmeqp"@.len() == 6);
    assert("1hmidle"@.len() == 7);
    assert("2hmeqp"@.len() == 6);
    assert("2hmidle"@.len() == 7);
    assert("2hweqp"@.len() == 6);
    assert("2hwidle"@.len() == 7);
    assert("axeeqp"@.len() == 6);
    assert("boweqp"@.len() == 6);
    assert("bowidle"@.len() == 7);
    assert("cboweqp"@.len() == 7);
    assert("cbowidle"@.len() == 8);
    assert("dageqp"@.len() == 6);
    assert("dw"@.len() == 2);
    assert("h2hatk"@.len() == 6);
    assert("h2hatkpow"@.len() == 9);
    assert("h2heqp"@.len() == 6);
    assert("h2hidle"@.len() == 7);
    assert("jump"@.len() == 4);
    assert("maceqp"@.len() == 6);
    assert("magcastmt"@.len() == 9);
    assert("magcon"@.len() == 6);
    assert("mageqp"@.len() == 6);
    assert("magidle"@.len() == 7);
    assert("magmt"@.len() == 5);
    assert("mtidle"@.len() == 6);
    assert("shield"@.len() == 6);
    assert("sneakidle"@.len() == 9);
    assert("sneakmt"@.len() == 7);
    assert("sprint"@.len() == 6);
    assert("staffidle"@.len() == 9);
    assert("stfeqp"@.len() == 6);
    let g = spec_fnis_aa_groups();
    assert forall|i: int| 0 <= i < 32 implies #[trigger] g[i].len() > 0 && forall|j: int|
        0 <= j < g[i].len() ==> is_group_char(g[i][j]) by {
        assert(g[i] == g[i]);
    }
    assert forall|i: int, j: int| 0 <= i < 32 && 0 <= j < 32 && i != j implies g[i] != g[j] by {
        assert(g[i].len() == g[i].len());
    }
}

} // verus!
