//! The patches of one FNIS list: each entry is checked against the behavior the list
//! belongs to and handed to its generator, in list order.
use vstd::prelude::*;

use crate::anim_var::{
    new_push_anim_vars_patch, spec_push_anim_vars, spec_var_info, spec_var_word, var_names, AnimVar,
};
use crate::chair::{new_chair_patches, spec_chair_one, spec_chair_seq, ChairAnimation};
use crate::furniture::{
    furniture_class_count, new_furniture_one_group_patches, spec_furniture_group_one,
    spec_furniture_group_root, spec_furniture_group_seq, FurnitureAnim, FurnitureGroup,
};
use crate::fnis_anim::{
    pairs_view, patch2, patch3, patch_of, spec_state_info, state_info_text, FnisAnimation, PatchPair,
};
use crate::fnis_names::{numbered, numbered_text};
use crate::json::{
    json_array, json_array_text, json_object, json_object_text, json_string, json_string_text,
    member_texts, texts,
};

use crate::kill_move::{new_kill_patches, spec_kill_one, spec_kill_seq, PairedAndKillAnimation, Trigger};
use crate::offset_arm::{new_offset_arm_patches, spec_offset_arm_one, spec_offset_arm_seq};
use crate::pair::{new_pair_patches, spec_pair_one, spec_pair_seq};
use crate::text::{decimal, str_eq, u64_to_decimal};

verus! {

/// Whether a paired entry is a kill move (`km`) or a paired animation (`pa`).
#[derive(Debug, Clone, Copy, PartialEq, Eq)]
pub enum PairedKind {
    KillMove,
    Paired,
}

/// One animation of a sequenced entry (`s`, `so`).
#[derive(Debug, Clone, PartialEq, Eq)]
pub struct SequencedAnim {
    pub anim_event: String,
    pub anim_file: String,
    /// The `k` flag: the game knows the file already.
    pub known: bool,
}

/// An entry of an FNIS list, as patch generation reads it. `known` is the `k` flag: the
/// animation file is one the game already knows, so it is not registered again.
#[derive(Debug, Clone, PartialEq, Eq)]
pub enum FnisListEntry {
    /// `AnimVar <name> <type> <value>`
    AnimVar(AnimVar),
    /// `pa` / `km`
    PairAndKillMove { kind: PairedKind, anim: PairedAndKillAnimation, known: bool },
    /// `ch`
    Chair(ChairAnimation),
    /// `fu` / `fuo`
    Furniture(FurnitureGroup),
    /// `s` / `so`
    Sequenced { animations: Vec<SequencedAnim> },
    /// `ofa`
    OffsetArm { anim: FnisAnimation, known: bool },
    /// `b` and `o`: a basic animation or one with animation objects.
    Basic { anim_event: String, anim_file: String, known: bool },
}

/// What an entry needs of the list and of the behavior the list belongs to.
#[derive(Debug, Clone, PartialEq, Eq)]
pub struct ListContext {
    /// The list file's path, for errors.
    pub list_path: String,
    /// The mod's namespace.
    pub namespace: String,
    /// The mod's priority.
    pub priority: usize,
    /// The behavior object of the list, e.g. `character` or `dog`.
    pub behavior_object: String,
    /// The master behavior's `hkbBehaviorGraphStringData`, e.g. `#0083`.
    pub master_string_data_index: String,
    /// The master behavior's `hkbVariableValueSet`, e.g. `#0084`.
    pub master_value_set_index: String,
    /// The master behavior's `hkbBehaviorGraphData`, e.g. `#0085`.
    pub master_behavior_graph_index: String,
}

/// The kinds of entries that only the 3rd person `character` takes.
#[derive(Debug, Clone, Copy, PartialEq, Eq)]
pub enum Refusal {
    PairAndKillMove,
    Furniture,
    OffsetArm,
}

/// Why the patches of a list could not be made, with the list's path.
#[derive(Debug, Clone, PartialEq, Eq)]
pub enum FnisPatchGenerationError {
    /// Paired animations and kill moves apply only to the 3rd person `character`.
    UnsupportedPairAndKillMoveForCreature { path: String },
    /// Furniture animations apply only to the 3rd person `character`.
    UnsupportedFurnitureAnimationToCreature { path: String },
    /// Offset arm animations apply only to the 3rd person `character`.
    UnsupportedOffsetArmAnimationToCreature { path: String },
}

/// The kind and the path of an error.
pub open spec fn error_view(e: FnisPatchGenerationError) -> (Refusal, Seq<char>) {
    match e {
        FnisPatchGenerationError::UnsupportedPairAndKillMoveForCreature { path } => (Refusal::PairAndKillMove, path@),
        FnisPatchGenerationError::UnsupportedFurnitureAnimationToCreature { path } => (Refusal::Furniture, path@),
        FnisPatchGenerationError::UnsupportedOffsetArmAnimationToCreature { path } => (Refusal::OffsetArm, path@),
    }
}

fn refusal_error(kind: Refusal, path: &String) -> (r: FnisPatchGenerationError)
    ensures
        error_view(r) == (kind, path@),
{
    match kind {
        Refusal::PairAndKillMove => FnisPatchGenerationError::UnsupportedPairAndKillMoveForCreature { path: path.clone() },
        Refusal::Furniture => FnisPatchGenerationError::UnsupportedFurnitureAnimationToCreature { path: path.clone() },
        Refusal::OffsetArm => FnisPatchGenerationError::UnsupportedOffsetArmAnimationToCreature { path: path.clone() },
    }
}

/// The patches of one list.
#[derive(Debug)]
pub struct OneListPatch {
    /// Animation files to register in the default behaviors, relative to the namespace; no
    /// file occurs twice.
    pub animation_paths: Vec<String>,
    /// Events to register in the master behaviors; no event occurs twice.
    pub events: Vec<String>,
    /// Single-value patches of the master behavior (`0_master`).
    pub one_master_patches: Vec<PatchPair>,
    /// Array patches of the master behavior.
    pub seq_master_patches: Vec<PatchPair>,
    /// Single-value patches of `mt_behavior`.
    pub one_mt_behavior_patches: Vec<PatchPair>,
    /// Array patches of `mt_behavior`.
    pub seq_mt_behavior_patches: Vec<PatchPair>,
    /// The root states of the list's furniture groups, for the furniture root.
    pub furniture_group_root_indexes: Vec<String>,
}

/// The value of a [`OneListPatch`].
pub struct ListPatchView {
    pub animation_paths: Seq<Seq<char>>,
    pub events: Seq<Seq<char>>,
    pub one_master: Seq<(Seq<Seq<char>>, (Seq<char>, usize))>,
    pub seq_master: Seq<(Seq<Seq<char>>, (Seq<char>, usize))>,
    pub one_mt: Seq<(Seq<Seq<char>>, (Seq<char>, usize))>,
    pub seq_mt: Seq<(Seq<Seq<char>>, (Seq<char>, usize))>,
    pub furniture_roots: Seq<Seq<char>>,
}

impl View for OneListPatch {
    type V = ListPatchView;

    open spec fn view(&self) -> ListPatchView {
        ListPatchView {
            animation_paths: texts(self.animation_paths@),
            events: texts(self.events@),
            one_master: pairs_view(self.one_master_patches@),
            seq_master: pairs_view(self.seq_master_patches@),
            one_mt: pairs_view(self.one_mt_behavior_patches@),
            seq_mt: pairs_view(self.seq_mt_behavior_patches@),
            furniture_roots: texts(self.furniture_group_root_indexes@),
        }
    }
}

/// The number of new class names an entry's generator takes.
pub open spec fn class_name_count(e: FnisListEntry) -> nat {
    match e {
        FnisListEntry::PairAndKillMove { kind, anim, .. } => match kind {
            PairedKind::KillMove => 26 + anim.anim_objects@.len(),
            PairedKind::Paired => 22 + anim.anim_objects@.len(),
        },
        FnisListEntry::Chair(c) => 19 + c.anim_objects@.len(),
        FnisListEntry::Furniture(g) => furniture_class_count(g),
        FnisListEntry::OffsetArm { anim, .. } => 5 + anim.anim_objects@.len(),
        _ => 0,
    }
}

/// Whether an entry is well formed: a furniture group has an animation.
pub open spec fn entry_wf(e: FnisListEntry) -> bool {
    match e {
        FnisListEntry::Furniture(g) => g.animations@.len() >= 1,
        _ => true,
    }
}

/// `s` with the texts `items` added in order, each one only if `s` does not hold it yet.
pub open spec fn add_new(s: Seq<Seq<char>>, items: Seq<Seq<char>>) -> Seq<Seq<char>>
    decreases items.len(),
{
    if items.len() == 0 {
        s
    } else {
        let t = add_new(s, items.drop_last());
        if t.contains(items.last()) {
            t
        } else {
            t.push(items.last())
        }
    }
}

/// Adding texts keeps a sequence free of repeats.
pub proof fn lemma_add_new_no_duplicates(s: Seq<Seq<char>>, items: Seq<Seq<char>>)
    requires
        s.no_duplicates(),
    ensures
        add_new(s, items).no_duplicates(),
    decreases items.len(),
{
    if items.len() > 0 {
        lemma_add_new_no_duplicates(s, items.drop_last());
        let t = add_new(s, items.drop_last());
        if !t.contains(items.last()) {
            assert forall|i: int, j: int| 0 <= i < j < t.push(items.last()).len() implies t.push(items.last())[i]
                != t.push(items.last())[j] by {
                if j == t.len() {
                    assert(t[i] == t.push(items.last())[i]);
                }
            }
        }
    }
}

proof fn lemma_add_new_concat(s: Seq<Seq<char>>, a: Seq<Seq<char>>, b: Seq<Seq<char>>)
    ensures
        add_new(add_new(s, a), b) == add_new(s, a + b),
    decreases b.len(),
{
    if b.len() == 0 {
        assert(a + b =~= a);
    } else {
        lemma_add_new_concat(s, a, b.drop_last());
        assert((a + b).drop_last() =~= a + b.drop_last());
        assert((a + b).last() == b.last());
    }
}

/// The file of an entry to register, unless the game knows it already.
pub open spec fn unknown_file(file: Seq<char>, known: bool) -> Seq<Seq<char>> {
    if known {
        Seq::empty()
    } else {
        seq![file]
    }
}

/// The events of the triggers.
pub open spec fn trigger_events(triggers: Seq<Trigger>) -> Seq<Seq<char>> {
    triggers.map_values(|t: Trigger| t.event@)
}

/// The files of a sequence's animations that the game does not know yet.
pub open spec fn sequenced_files(anims: Seq<SequencedAnim>) -> Seq<Seq<char>>
    decreases anims.len(),
{
    if anims.len() == 0 {
        Seq::empty()
    } else {
        sequenced_files(anims.drop_last()) + unknown_file(anims.last().anim_file@, anims.last().known)
    }
}

/// The events of a sequence's animations.
pub open spec fn sequenced_events(anims: Seq<SequencedAnim>) -> Seq<Seq<char>> {
    anims.map_values(|a: SequencedAnim| a.anim_event@)
}

/// The files of a furniture group's animations.
pub open spec fn furniture_files(g: FurnitureGroup) -> Seq<Seq<char>> {
    g.animations@.map_values(|a: FurnitureAnim| a.anim_file@)
}

/// The event under which a basic animation is registered: the mod `FNISFlyer` prefixes its
/// events with `FNISFlyer_`.
pub open spec fn registered_event(namespace: Seq<char>, event: Seq<char>) -> Seq<char> {
    if namespace == "FNISFlyer"@ {
        namespace + "_"@ + event
    } else {
        event
    }
}

/// `acc` with the patches of entry `e` (its new class names `ci`) added, or the kind of
/// entry that the behavior `ctx` refuses.
pub open spec fn spec_entry_step(
    acc: ListPatchView,
    e: FnisListEntry,
    ctx: ListContext,
    ci: Seq<Seq<char>>,
) -> Result<ListPatchView, Refusal> {
    let ns = ctx.namespace@;
    let p = ctx.priority;
    let character = ctx.behavior_object@ == "character"@;
    match e {
        FnisListEntry::AnimVar(v) => Ok(
            ListPatchView {
                seq_master: acc.seq_master + spec_push_anim_vars(
                    seq![v],
                    ctx.master_string_data_index@,
                    ctx.master_value_set_index@,
                    ctx.master_behavior_graph_index@,
                    p,
                ),
                ..acc
            },
        ),
        FnisListEntry::PairAndKillMove { kind, anim, known } => if !character {
            Err(Refusal::PairAndKillMove)
        } else {
            let one = match kind {
                PairedKind::KillMove => spec_kill_one(anim, ns, p, ci),
                PairedKind::Paired => spec_pair_one(anim, ns, p, ci),
            };
            let sq = match kind {
                PairedKind::KillMove => spec_kill_seq(anim, p, ci),
                PairedKind::Paired => spec_pair_seq(anim, p, ci),
            };
            Ok(
                ListPatchView {
                    animation_paths: add_new(acc.animation_paths, unknown_file(anim.anim_file@, known)),
                    events: add_new(add_new(acc.events, trigger_events(anim.triggers@)), trigger_events(anim.triggers2@)),
                    one_master: acc.one_master + one,
                    seq_master: acc.seq_master + sq,
                    ..acc
                },
            )
        },
        FnisListEntry::Chair(c) => Ok(
            ListPatchView {
                animation_paths: add_new(add_new(acc.animation_paths, seq![c.anim_file@]), texts(c.sequenced@)),
                one_mt: acc.one_mt + spec_chair_one(c, ns, p, ci),
                seq_mt: acc.seq_mt + spec_chair_seq(c, p, ci),
                ..acc
            },
        ),
        FnisListEntry::Furniture(g) => if !character {
            Err(Refusal::Furniture)
        } else {
            Ok(
                ListPatchView {
                    animation_paths: add_new(acc.animation_paths, furniture_files(g)),
                    one_mt: acc.one_mt + spec_furniture_group_one(g, ns, p, ci),
                    seq_mt: acc.seq_mt + spec_furniture_group_seq(g, p, ci),
                    furniture_roots: acc.furniture_roots.push(spec_furniture_group_root(g, ci)),
                    ..acc
                },
            )
        },
        FnisListEntry::Sequenced { animations } => Ok(
            ListPatchView {
                animation_paths: add_new(acc.animation_paths, sequenced_files(animations@)),
                events: add_new(acc.events, sequenced_events(animations@)),
                ..acc
            },
        ),
        FnisListEntry::OffsetArm { anim, known } => if !character {
            Err(Refusal::OffsetArm)
        } else {
            Ok(
                ListPatchView {
                    animation_paths: add_new(acc.animation_paths, unknown_file(anim.anim_file@, known)),
                    one_mt: acc.one_mt + spec_offset_arm_one(anim, ns, p, ci),
                    seq_mt: acc.seq_mt + spec_offset_arm_seq(p, ci),
                    ..acc
                },
            )
        },
        FnisListEntry::Basic { anim_event, anim_file, known } => Ok(
            ListPatchView {
                animation_paths: add_new(acc.animation_paths, unknown_file(anim_file@, known)),
                events: add_new(acc.events, seq![registered_event(ns, anim_event@)]),
                ..acc
            },
        ),
    }
}

/// No patches.
pub open spec fn empty_list_patch() -> ListPatchView {
    ListPatchView {
        animation_paths: Seq::empty(),
        events: Seq::empty(),
        one_master: Seq::empty(),
        seq_master: Seq::empty(),
        one_mt: Seq::empty(),
        seq_mt: Seq::empty(),
        furniture_roots: Seq::empty(),
    }
}

/// The patches of the entries `entries` (entry `i` taking the class names
/// `class_names[i]`), in order; the first entry that the behavior refuses decides the
/// result.
pub open spec fn spec_list_patch(
    entries: Seq<FnisListEntry>,
    ctx: ListContext,
    class_names: Seq<Seq<Seq<char>>>,
) -> Result<ListPatchView, Refusal>
    decreases entries.len(),
{
    if entries.len() == 0 {
        Ok(empty_list_patch())
    } else {
        match spec_list_patch(entries.drop_last(), ctx, class_names) {
            Err(e) => Err(e),
            Ok(acc) => spec_entry_step(acc, entries.last(), ctx, class_names[entries.len() - 1]),
        }
    }
}

/// The files and events of a list's patches never repeat.
pub proof fn lemma_list_patch_no_duplicates(
    entries: Seq<FnisListEntry>,
    ctx: ListContext,
    class_names: Seq<Seq<Seq<char>>>,
)
    ensures
        spec_list_patch(entries, ctx, class_names) matches Ok(v) ==> v.animation_paths.no_duplicates()
            && v.events.no_duplicates(),
    decreases entries.len(),
{
    if entries.len() > 0 {
        lemma_list_patch_no_duplicates(entries.drop_last(), ctx, class_names);
        if let Ok(acc) = spec_list_patch(entries.drop_last(), ctx, class_names) {
            let f = acc.animation_paths;
            let ev = acc.events;
            match entries.last() {
                FnisListEntry::PairAndKillMove { anim, known, .. } => {
                    lemma_add_new_no_duplicates(f, unknown_file(anim.anim_file@, known));
                    lemma_add_new_no_duplicates(ev, trigger_events(anim.triggers@));
                    lemma_add_new_no_duplicates(add_new(ev, trigger_events(anim.triggers@)), trigger_events(anim.triggers2@));
                },
                FnisListEntry::Chair(c) => {
                    lemma_add_new_no_duplicates(f, seq![c.anim_file@]);
                    lemma_add_new_no_duplicates(add_new(f, seq![c.anim_file@]), texts(c.sequenced@));
                },
                FnisListEntry::Furniture(g) => {
                    lemma_add_new_no_duplicates(f, furniture_files(g));
                },
                FnisListEntry::Sequenced { animations } => {
                    lemma_add_new_no_duplicates(f, sequenced_files(animations@));
                    lemma_add_new_no_duplicates(ev, sequenced_events(animations@));
                },
                FnisListEntry::OffsetArm { anim, known } => {
                    lemma_add_new_no_duplicates(f, unknown_file(anim.anim_file@, known));
                },
                FnisListEntry::Basic { anim_event, anim_file, known } => {
                    lemma_add_new_no_duplicates(f, unknown_file(anim_file@, known));
                    lemma_add_new_no_duplicates(ev, seq![registered_event(ctx.namespace@, anim_event@)]);
                },
                FnisListEntry::AnimVar(_) => {},
            }
        }
    }
}

fn append_patches(dst: &mut Vec<PatchPair>, src: Vec<PatchPair>)
    ensures
        pairs_view(final(dst)@) == pairs_view(old(dst)@) + pairs_view(src@),
{
    let ghost before = dst@;
    let mut src = src;
    let ghost added = src@;
    dst.append(&mut src);
    assert(dst@ =~= before + added);
    assert(pairs_view(dst@) =~= pairs_view(before) + pairs_view(added));
}

fn contains_text(v: &Vec<String>, x: &str) -> (r: bool)
    ensures
        r == texts(v@).contains(x@),
{
    let mut i: usize = 0;
    while i < v.len()
        invariant
            i <= v@.len(),
            forall|j: int| 0 <= j < i ==> v@[j]@ != x@,
        decreases v@.len() - i,
    {
        if str_eq(v[i].as_str(), x) {
            assert(texts(v@)[i as int] == x@);
            return true;
        }
        i = i + 1;
    }
    assert(!texts(v@).contains(x@)) by {
        if texts(v@).contains(x@) {
            let j = choose|j: int| 0 <= j < texts(v@).len() && texts(v@)[j] == x@;
            assert(v@[j]@ == x@);
        }
    }
    false
}

fn push_new(dst: &mut Vec<String>, x: &String)
    ensures
        texts(final(dst)@) == add_new(texts(old(dst)@), seq![x@]),
{
    let ghost before = texts(dst@);
    assert(seq![x@].drop_last() =~= Seq::<Seq<char>>::empty());
    assert(seq![x@].last() == x@);
    assert(add_new(before, Seq::<Seq<char>>::empty()) == before);
    if !contains_text(dst, x.as_str()) {
        let ghost prev = dst@;
        dst.push(x.clone());
        assert(texts(dst@) =~= texts(prev).push(x@));
    }
}

fn push_texts(dst: &mut Vec<String>, src: &Vec<String>)
    ensures
        texts(final(dst)@) == add_new(texts(old(dst)@), texts(src@)),
{
    let ghost before = texts(dst@);
    let mut i: usize = 0;
    while i < src.len()
        invariant
            i <= src@.len(),
            texts(dst@) == add_new(before, texts(src@).take(i as int)),
        decreases src@.len() - i,
    {
        proof {
            lemma_add_new_concat(before, texts(src@).take(i as int), seq![src@[i as int]@]);
            assert(texts(src@).take(i as int) + seq![src@[i as int]@] =~= texts(src@).take(i + 1));
        }
        push_new(dst, &src[i]);
        i = i + 1;
    }
    assert(texts(src@).take(src@.len() as int) =~= texts(src@));
}

fn push_trigger_events(dst: &mut Vec<String>, triggers: &Vec<Trigger>)
    ensures
        texts(final(dst)@) == add_new(texts(old(dst)@), trigger_events(triggers@)),
{
    let ghost before = texts(dst@);
    let mut i: usize = 0;
    while i < triggers.len()
        invariant
            i <= triggers@.len(),
            texts(dst@) == add_new(before, trigger_events(triggers@).take(i as int)),
        decreases triggers@.len() - i,
    {
        proof {
            lemma_add_new_concat(before, trigger_events(triggers@).take(i as int), seq![triggers@[i as int].event@]);
            assert(trigger_events(triggers@).take(i as int) + seq![triggers@[i as int].event@] =~= trigger_events(triggers@).take(i + 1));
        }
        push_new(dst, &triggers[i].event);
        i = i + 1;
    }
    assert(trigger_events(triggers@).take(triggers@.len() as int) =~= trigger_events(triggers@));
}

fn push_unknown_file(dst: &mut Vec<String>, file: &String, known: bool)
    ensures
        texts(final(dst)@) == add_new(texts(old(dst)@), unknown_file(file@, known)),
{
    if !known {
        push_new(dst, file);
    }
}

fn push_sequenced(files: &mut Vec<String>, events: &mut Vec<String>, anims: &Vec<SequencedAnim>)
    ensures
        texts(final(files)@) == add_new(texts(old(files)@), sequenced_files(anims@)),
        texts(final(events)@) == add_new(texts(old(events)@), sequenced_events(anims@)),
{
    let ghost (f0, e0) = (texts(files@), texts(events@));
    let mut i: usize = 0;
    while i < anims.len()
        invariant
            i <= anims@.len(),
            texts(files@) == add_new(f0, sequenced_files(anims@.take(i as int))),
            texts(events@) == add_new(e0, sequenced_events(anims@).take(i as int)),
        decreases anims@.len() - i,
    {
        let a = &anims[i];
        proof {
            assert(anims@.take(i + 1).drop_last() =~= anims@.take(i as int));
            lemma_add_new_concat(f0, sequenced_files(anims@.take(i as int)), unknown_file(a.anim_file@, a.known));
            lemma_add_new_concat(e0, sequenced_events(anims@).take(i as int), seq![a.anim_event@]);
            assert(sequenced_events(anims@).take(i as int) + seq![a.anim_event@] =~= sequenced_events(anims@).take(i + 1));
        }
        push_unknown_file(files, &a.anim_file, a.known);
        push_new(events, &a.anim_event);
        i = i + 1;
    }
    assert(anims@.take(anims@.len() as int) =~= anims@);
    assert(sequenced_events(anims@).take(anims@.len() as int) =~= sequenced_events(anims@));
}

fn push_furniture_files(files: &mut Vec<String>, g: &FurnitureGroup)
    ensures
        texts(final(files)@) == add_new(texts(old(files)@), furniture_files(*g)),
{
    let ghost f0 = texts(files@);
    let mut i: usize = 0;
    while i < g.animations.len()
        invariant
            i <= g.animations@.len(),
            texts(files@) == add_new(f0, furniture_files(*g).take(i as int)),
        decreases g.animations@.len() - i,
    {
        proof {
            lemma_add_new_concat(f0, furniture_files(*g).take(i as int), seq![g.animations@[i as int].anim_file@]);
            assert(furniture_files(*g).take(i as int) + seq![g.animations@[i as int].anim_file@] =~= furniture_files(*g).take(i + 1));
        }
        push_new(files, &g.animations[i].anim_file);
        i = i + 1;
    }
    assert(furniture_files(*g).take(g.animations@.len() as int) =~= furniture_files(*g));
}

/// The patches of the animation variable `v` depend only on its name and value.
proof fn lemma_anim_vars_by_view(a: Seq<AnimVar>, b: Seq<AnimVar>, sd: Seq<char>, vs: Seq<char>, bg: Seq<char>, p: usize)
    requires
        a.len() == b.len(),
        forall|i: int| 0 <= i < a.len() ==> a[i].name@ == b[i].name@ && a[i].value == b[i].value,
    ensures
        spec_push_anim_vars(a, sd, vs, bg, p) == spec_push_anim_vars(b, sd, vs, bg, p),
{
    assert(var_names(a) =~= var_names(b));
    assert(Seq::new(a.len(), |i: int| spec_var_word(a[i].value)) =~= Seq::new(b.len(), |i: int| spec_var_word(b[i].value)));
    assert(Seq::new(a.len(), |i: int| spec_var_info(a[i].value)) =~= Seq::new(b.len(), |i: int| spec_var_info(b[i].value)));
}

/// Adds the patches of entry `e`, whose new class names are `ci`, or returns the kind of
/// entry that the behavior refuses.
#[verifier::rlimit(80)]
fn add_entry(out: &mut OneListPatch, e: &FnisListEntry, ctx: &ListContext, ci: &Vec<String>) -> (r: Result<(), Refusal>)
    requires
        ci@.len() == class_name_count(*e),
        entry_wf(*e),
    ensures
        match spec_entry_step(old(out)@, *e, *ctx, texts(ci@)) {
            Ok(v) => r is Ok && final(out)@ == v,
            Err(x) => r == Err::<(), Refusal>(x),
        },
{
    let character = str_eq(ctx.behavior_object.as_str(), "character");
    match e {
        FnisListEntry::AnimVar(v) => {
            let mut vs: Vec<AnimVar> = Vec::new();
            vs.push(AnimVar { name: v.name.clone(), value: v.value });
            let x = new_push_anim_vars_patch(
                &vs,
                ctx.master_string_data_index.as_str(),
                ctx.master_value_set_index.as_str(),
                ctx.master_behavior_graph_index.as_str(),
                ctx.priority,
            );
            proof {
                lemma_anim_vars_by_view(
                    vs@,
                    seq![*v],
                    ctx.master_string_data_index@,
                    ctx.master_value_set_index@,
                    ctx.master_behavior_graph_index@,
                    ctx.priority,
                );
            }
            append_patches(&mut out.seq_master_patches, x);
            Ok(())
        },
        FnisListEntry::PairAndKillMove { kind, anim, known } => {
            if !character {
                return Err(Refusal::PairAndKillMove);
            }
            let (one, sq) = match kind {
                PairedKind::KillMove => new_kill_patches(anim, ctx.namespace.as_str(), ctx.priority, ci),
                PairedKind::Paired => new_pair_patches(anim, ctx.namespace.as_str(), ctx.priority, ci),
            };
            push_unknown_file(&mut out.animation_paths, &anim.anim_file, *known);
            push_trigger_events(&mut out.events, &anim.triggers);
            push_trigger_events(&mut out.events, &anim.triggers2);
            append_patches(&mut out.one_master_patches, one);
            append_patches(&mut out.seq_master_patches, sq);
            Ok(())
        },
        FnisListEntry::Chair(c) => {
            let (one, sq) = new_chair_patches(c, ctx.namespace.as_str(), ctx.priority, ci);
            push_new(&mut out.animation_paths, &c.anim_file);
            push_texts(&mut out.animation_paths, &c.sequenced);
            append_patches(&mut out.one_mt_behavior_patches, one);
            append_patches(&mut out.seq_mt_behavior_patches, sq);
            Ok(())
        },
        FnisListEntry::Furniture(g) => {
            if !character {
                return Err(Refusal::Furniture);
            }
            let (one, sq, root) = new_furniture_one_group_patches(g, ctx.namespace.as_str(), ctx.priority, ci);
            push_furniture_files(&mut out.animation_paths, g);
            append_patches(&mut out.one_mt_behavior_patches, one);
            append_patches(&mut out.seq_mt_behavior_patches, sq);
            let ghost roots = out.furniture_group_root_indexes@;
            out.furniture_group_root_indexes.push(root);
            assert(texts(out.furniture_group_root_indexes@) =~= texts(roots).push(spec_furniture_group_root(*g, texts(ci@))));
            Ok(())
        },
        FnisListEntry::Sequenced { animations } => {
            push_sequenced(&mut out.animation_paths, &mut out.events, animations);
            Ok(())
        },
        FnisListEntry::OffsetArm { anim, known } => {
            if !character {
                return Err(Refusal::OffsetArm);
            }
            let (one, sq) = new_offset_arm_patches(anim, ctx.namespace.as_str(), ctx.priority, ci);
            push_unknown_file(&mut out.animation_paths, &anim.anim_file, *known);
            append_patches(&mut out.one_mt_behavior_patches, one);
            append_patches(&mut out.seq_mt_behavior_patches, sq);
            Ok(())
        },
        FnisListEntry::Basic { anim_event, anim_file, known } => {
            push_unknown_file(&mut out.animation_paths, anim_file, *known);
            let event = if str_eq(ctx.namespace.as_str(), "FNISFlyer") {
                let mut t = ctx.namespace.clone();
                t.append("_");
                t.append(anim_event.as_str());
                t
            } else {
                anim_event.clone()
            };
            assert(event@ == registered_event(ctx.namespace@, anim_event@));
            push_new(&mut out.events, &event);
            Ok(())
        },
    }
}

/// Whether an entry is one that only the 3rd person `character` takes.
pub open spec fn needs_character(e: FnisListEntry) -> bool {
    e is PairAndKillMove || e is Furniture || e is OffsetArm
}

proof fn lemma_entry_fails_iff(acc: ListPatchView, e: FnisListEntry, ctx: ListContext, ci: Seq<Seq<char>>)
    ensures
        spec_entry_step(acc, e, ctx, ci) is Err <==> (needs_character(e) && ctx.behavior_object@ != "character"@),
{
    match e {
        FnisListEntry::AnimVar(_) => {},
        FnisListEntry::PairAndKillMove { .. } => {},
        FnisListEntry::Chair(_) => {},
        FnisListEntry::Furniture(_) => {},
        FnisListEntry::Sequenced { .. } => {},
        FnisListEntry::OffsetArm { .. } => {},
        FnisListEntry::Basic { .. } => {},
    }
}

/// A list's patches can be made exactly when its behavior is the 3rd person `character` or
/// none of its entries is a paired animation, kill move, furniture or offset arm animation.
#[verifier::rlimit(80)]
pub proof fn lemma_list_patch_fails_iff(
    entries: Seq<FnisListEntry>,
    ctx: ListContext,
    class_names: Seq<Seq<Seq<char>>>,
)
    ensures
        spec_list_patch(entries, ctx, class_names) is Err <==> (ctx.behavior_object@ != "character"@ && exists|i: int|
            0 <= i < entries.len() && #[trigger] needs_character(entries[i])),
    decreases entries.len(),
{
    if entries.len() > 0 {
        let init = entries.drop_last();
        lemma_list_patch_fails_iff(init, ctx, class_names);
        if let Ok(acc) = spec_list_patch(init, ctx, class_names) {
            lemma_entry_fails_iff(acc, entries.last(), ctx, class_names[entries.len() - 1]);
        }
        if exists|i: int| 0 <= i < init.len() && #[trigger] needs_character(init[i]) {
            let i = choose|i: int| 0 <= i < init.len() && #[trigger] needs_character(init[i]);
            assert(needs_character(entries[i]));
        }
        if exists|i: int| 0 <= i < entries.len() && #[trigger] needs_character(entries[i]) {
            let i = choose|i: int| 0 <= i < entries.len() && #[trigger] needs_character(entries[i]);
            if i < entries.len() - 1 {
                assert(needs_character(init[i]));
            }
        }
    }
}

/// The class names of each entry, as texts.
pub open spec fn names_view(class_names: Seq<Vec<String>>) -> Seq<Seq<Seq<char>>> {
    class_names.map_values(|v: Vec<String>| texts(v@))
}

proof fn lemma_error_persists(
    entries: Seq<FnisListEntry>,
    ctx: ListContext,
    class_names: Seq<Seq<Seq<char>>>,
    k: int,
    j: int,
)
    requires
        0 <= k <= j <= entries.len(),
        spec_list_patch(entries.take(k), ctx, class_names) is Err,
    ensures
        spec_list_patch(entries.take(j), ctx, class_names) == spec_list_patch(entries.take(k), ctx, class_names),
    decreases j - k,
{
    if j > k {
        lemma_error_persists(entries, ctx, class_names, k, j - 1);
        assert(entries.take(j).drop_last() =~= entries.take(j - 1));
    }
}

/// The patches of one list's entries for the behavior `ctx`, in list order
/// ([`spec_list_patch`]); entry `i` takes the new class names `class_names[i]`.
///
/// A paired animation, kill move, furniture or offset arm animation in a list of another
/// behavior than the 3rd person `character` is refused, with the list's path.
#[verifier::rlimit(40)]
pub fn generate_patch(entries: &Vec<FnisListEntry>, ctx: &ListContext, class_names: &Vec<Vec<String>>) -> (r: Result<
    OneListPatch,
    FnisPatchGenerationError,
>)
    requires
        class_names@.len() == entries@.len(),
        forall|i: int| 0 <= i < entries@.len() ==> #[trigger] class_names@[i]@.len() == class_name_count(entries@[i]),
        forall|i: int| 0 <= i < entries@.len() ==> #[trigger] entry_wf(entries@[i]),
    ensures
        match r {
            Ok(p) => spec_list_patch(entries@, *ctx, names_view(class_names@)) == Ok::<ListPatchView, Refusal>(p@),
            Err(e) => spec_list_patch(entries@, *ctx, names_view(class_names@)) == Err::<ListPatchView, Refusal>(
                error_view(e).0,
            ) && error_view(e).1 == ctx.list_path@,
        },
{
    let ghost cn = names_view(class_names@);
    let mut out = OneListPatch {
        animation_paths: Vec::new(),
        events: Vec::new(),
        one_master_patches: Vec::new(),
        seq_master_patches: Vec::new(),
        one_mt_behavior_patches: Vec::new(),
        seq_mt_behavior_patches: Vec::new(),
        furniture_group_root_indexes: Vec::new(),
    };
    assert(out@ == empty_list_patch()) by {
        assert(texts(out.animation_paths@) =~= Seq::<Seq<char>>::empty());
        assert(texts(out.events@) =~= Seq::<Seq<char>>::empty());
        assert(texts(out.furniture_group_root_indexes@) =~= Seq::<Seq<char>>::empty());
        assert(pairs_view(out.one_master_patches@) =~= Seq::empty());
        assert(pairs_view(out.seq_master_patches@) =~= Seq::empty());
        assert(pairs_view(out.one_mt_behavior_patches@) =~= Seq::empty());
        assert(pairs_view(out.seq_mt_behavior_patches@) =~= Seq::empty());
    }
    assert(entries@.take(0) =~= Seq::<FnisListEntry>::empty());
    let mut i: usize = 0;
    while i < entries.len()
        invariant
            i <= entries@.len(),
            class_names@.len() == entries@.len(),
            cn == names_view(class_names@),
            forall|k: int| 0 <= k < entries@.len() ==> #[trigger] class_names@[k]@.len() == class_name_count(entries@[k]),
            forall|k: int| 0 <= k < entries@.len() ==> #[trigger] entry_wf(entries@[k]),
            spec_list_patch(entries@.take(i as int), *ctx, cn) == Ok::<ListPatchView, Refusal>(out@),
        decreases entries@.len() - i,
    {
        assert(entries@.take(i + 1).drop_last() =~= entries@.take(i as int));
        assert(cn[i as int] == texts(class_names@[i as int]@));
        let step = add_entry(&mut out, &entries[i], ctx, &class_names[i]);
        if let Err(kind) = step {
            proof {
                lemma_error_persists(entries@, *ctx, cn, i + 1, entries@.len() as int);
                assert(entries@.take(entries@.len() as int) =~= entries@);
            }
            return Err(refusal_error(kind, &ctx.list_path));
        }
        i = i + 1;
    }
    assert(entries@.take(entries@.len() as int) =~= entries@);
    Ok(out)
}

/// The `hkbBehaviorReferenceGenerator` that plays a mod's root behavior.
pub open spec fn spec_root_generator(ptr: Seq<char>, namespace: Seq<char>, priority: nat, behavior_path: Seq<char>) -> Seq<char> {
    json_object(
        seq![
            ("__ptr"@, json_string(ptr)),
            ("variableBindingSet"@, json_string("#0000"@)),
            ("userData"@, "0"@),
            ("name"@, json_string("FNIS_ROOT_BFR_"@ + namespace + "_"@ + decimal(priority))),
            ("behaviorName"@, json_string(behavior_path)),
        ],
    )
}

/// The three patches that register a mod's root behavior `behavior_path` in a master
/// behavior: a reference generator (class name `generator_index`), the state
/// `FNIS_State<priority>` (class name `state_index`, state id `1000 + priority`) that plays
/// it, and that state pushed to the master state machine `master_index`.
pub open spec fn spec_mod_root_behavior(
    namespace: Seq<char>,
    priority: usize,
    behavior_path: Seq<char>,
    master_index: Seq<char>,
    generator_index: Seq<char>,
    state_index: Seq<char>,
) -> Seq<(Seq<Seq<char>>, (Seq<char>, usize))> {
    seq![
        patch_of(
            seq![generator_index, "hkbBehaviorReferenceGenerator"@],
            spec_root_generator(generator_index, namespace, priority as nat, behavior_path),
            priority,
        ),
        patch_of(
            seq![state_index, "hkbStateMachineStateInfo"@],
            spec_state_info(
                state_index,
                "#0000"@,
                "#0000"@,
                "#0000"@,
                generator_index,
                numbered("FNIS_State"@, priority as nat),
                decimal(1000 + priority as nat),
            ),
            priority,
        ),
        patch_of(seq![master_index, "hkbStateMachine"@, "states"@], json_array(seq![json_string(state_index)]), priority),
    ]
}

/// Registers the mod root behavior `behavior_path` (e.g. `Behaviors\FNIS_Zoo_Behavior.hkx`)
/// of the mod `namespace` in the master state machine `master_index`:
/// `[generator, state, push of the state]`.
pub fn new_injectable_mod_root_behavior(
    namespace: &str,
    priority: usize,
    behavior_path: &str,
    master_index: &str,
    generator_index: &str,
    state_index: &str,
) -> (r: Vec<PatchPair>)
    requires
        priority as int + 1000 <= u64::MAX,
    ensures
        pairs_view(r@) == spec_mod_root_behavior(
            namespace@,
            priority,
            behavior_path@,
            master_index@,
            generator_index@,
            state_index@,
        ),
{
    let mut name = String::from_str("FNIS_ROOT_BFR_");
    name.append(namespace);
    name.append("_");
    name.append(u64_to_decimal(priority as u64).as_str());
    let fields = vec![
        ("__ptr", json_string_text(generator_index)),
        ("variableBindingSet", json_string_text("#0000")),
        ("userData", String::from_str("0")),
        ("name", json_string_text(name.as_str())),
        ("behaviorName", json_string_text(behavior_path)),
    ];
    assert(member_texts(fields@) =~= seq![
        ("__ptr"@, json_string(generator_index@)),
        ("variableBindingSet"@, json_string("#0000"@)),
        ("userData"@, "0"@),
        ("name"@, json_string("FNIS_ROOT_BFR_"@ + namespace@ + "_"@ + decimal(priority as nat))),
        ("behaviorName"@, json_string(behavior_path@)),
    ]);
    let generator = patch2(generator_index, "hkbBehaviorReferenceGenerator", json_object_text(&fields), priority);
    let state_name = numbered_text("FNIS_State", priority as u64);
    let state_id: u64 = 1000 + priority as u64;
    let state = patch2(
        state_index,
        "hkbStateMachineStateInfo",
        state_info_text(state_index, "#0000", "#0000", "#0000", generator_index, state_name.as_str(), u64_to_decimal(state_id)),
        priority,
    );
    let states = vec![json_string_text(state_index)];
    assert(texts(states@) =~= seq![json_string(state_index@)]);
    let push = patch3(master_index, "hkbStateMachine", "states", json_array_text(&states), priority);
    let r = vec![generator, state, push];
    assert(pairs_view(r@) =~= spec_mod_root_behavior(
        namespace@,
        priority,
        behavior_path@,
        master_index@,
        generator_index@,
        state_index@,
    ));
    r
}

} // verus!
