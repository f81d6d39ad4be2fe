//! The patches of all templates, gathered from many patch files.
//!
//! - [`RawBorrowedPatches`]: for each template, its single-value and array patch maps.
//! - [`BehaviorStringDataMap`]: for each template, the class index used to resolve Nemesis
//!   variables (`$variableID[..]$`, `$eventID[..]$`) in it.
//! - [`PatchAggregate`]: both, as gathered from a group of files.
//!
//! Both maps keep their entries in a `dashmap::DashMap`; their contents are stated as a
//! `Map` from the text of each template key.
use vstd::prelude::*;

use dashmap::DashMap;

use crate::error::Error;
use crate::nemesis_patches::{
    collect_file_patches, spec_array_patches, spec_file_index, spec_file_template,
    spec_pure_patches, ParsedPatch, TemplatePatches,
};
use crate::nemesis_path::spec_nemesis_path;
use crate::patch_map::{spec_merge_one, spec_merge_seq, HkxPatchMaps};
use crate::templates::{spec_key_text, TemplateKey};

verus! {

/// What the patches of all templates hold: template text to the contents of its
/// single-value map and of its array map.
pub uninterp spec fn template_entries(m: DashMap<TemplateKey, HkxPatchMaps>) -> Map<
    Seq<char>,
    (Map<Seq<Seq<char>>, (Seq<char>, usize)>, Map<Seq<Seq<char>>, Seq<(Seq<char>, usize)>>),
>;

/// What a map of class indexes holds: template text to index text.
pub uninterp spec fn index_entries(m: DashMap<TemplateKey, String>) -> Map<Seq<char>, Seq<char>>;

/// `DashMap::new`: an empty map.
#[verifier::external_body]
fn tp_new() -> (r: DashMap<TemplateKey, HkxPatchMaps>)
    ensures
        template_entries(r) =~= Map::empty(),
{
    DashMap::new()
}

/// `DashMap::remove`: takes out the entry of `key`, if there is one.
#[verifier::external_body]
fn tp_remove(m: &mut DashMap<TemplateKey, HkxPatchMaps>, key: &TemplateKey) -> (r: Option<
    (TemplateKey, HkxPatchMaps),
>)
    ensures
        template_entries(*final(m)) == template_entries(*old(m)).remove(key@),
        r is Some <==> template_entries(*old(m)).contains_key(key@),
        r matches Some(kv) ==> kv.0@ == key@ && (kv.1.one@, kv.1.seq@) == template_entries(
            *old(m),
        )[key@],
{
    m.remove(key)
}

/// `DashMap::insert`: sets the maps of `key`, replacing any previous ones.
#[verifier::external_body]
fn tp_insert(m: &mut DashMap<TemplateKey, HkxPatchMaps>, key: TemplateKey, value: HkxPatchMaps)
    ensures
        template_entries(*final(m)) == template_entries(*old(m)).insert(
            key@,
            (value.one@, value.seq@),
        ),
{
    m.insert(key, value);
}

/// `DashMap::into_iter`: every entry, once each, in no particular order.
#[verifier::external_body]
fn tp_into_entries(m: DashMap<TemplateKey, HkxPatchMaps>) -> (r: Vec<(TemplateKey, HkxPatchMaps)>)
    ensures
        forall|i: int|
            0 <= i < r@.len() ==> #[trigger] template_entries(m).contains_key(r@[i].0@)
                && template_entries(m)[r@[i].0@] == (r@[i].1.one@, r@[i].1.seq@),
        forall|i: int, j: int| 0 <= i < j < r@.len() ==> #[trigger] r@[i].0@ != #[trigger] r@[j].0@,
        forall|k: Seq<char>|
            #[trigger] template_entries(m).contains_key(k) ==> exists|i: int|
                0 <= i < r@.len() && #[trigger] r@[i].0@ == k,
{
    m.into_iter().collect()
}

/// `DashMap::new`: an empty map.
#[verifier::external_body]
fn ix_new() -> (r: DashMap<TemplateKey, String>)
    ensures
        index_entries(r) =~= Map::empty(),
{
    DashMap::new()
}

/// `DashMap::contains_key`: whether `key` has an entry.
#[verifier::external_body]
fn ix_contains_key(m: &DashMap<TemplateKey, String>, key: &TemplateKey) -> (r: bool)
    ensures
        r == index_entries(*m).contains_key(key@),
{
    m.contains_key(key)
}

/// `DashMap::insert`: sets the index of `key`, replacing any previous one.
#[verifier::external_body]
fn ix_insert(m: &mut DashMap<TemplateKey, String>, key: TemplateKey, value: String)
    ensures
        index_entries(*final(m)) == index_entries(*old(m)).insert(key@, value@),
{
    m.insert(key, value);
}

/// `DashMap::into_iter`: every entry, once each, in no particular order.
#[verifier::external_body]
fn ix_into_entries(m: DashMap<TemplateKey, String>) -> (r: Vec<(TemplateKey, String)>)
    ensures
        forall|i: int|
            0 <= i < r@.len() ==> #[trigger] index_entries(m).contains_key(r@[i].0@)
                && index_entries(m)[r@[i].0@] == r@[i].1@,
        forall|i: int, j: int| 0 <= i < j < r@.len() ==> #[trigger] r@[i].0@ != #[trigger] r@[j].0@,
        forall|k: Seq<char>|
            #[trigger] index_entries(m).contains_key(k) ==> exists|i: int|
                0 <= i < r@.len() && #[trigger] r@[i].0@ == k,
{
    m.into_iter().collect()
}

/// The template keys of the entries from position `i` on.
pub open spec fn template_keys_from<V>(entries: Seq<(TemplateKey, V)>, i: int) -> Set<Seq<char>> {
    Set::new(|k: Seq<char>| exists|j: int| i <= j < entries.len() && entries[j].0@ == k)
}

/// The contents after adding the maps `v` of template `k`: merged into its maps when it has
/// some (see [`HkxPatchMaps::merge`]), as they are otherwise.
pub open spec fn spec_add_template(
    m: Map<
        Seq<char>,
        (Map<Seq<Seq<char>>, (Seq<char>, usize)>, Map<Seq<Seq<char>>, Seq<(Seq<char>, usize)>>),
    >,
    k: Seq<char>,
    v: (Map<Seq<Seq<char>>, (Seq<char>, usize)>, Map<Seq<Seq<char>>, Seq<(Seq<char>, usize)>>),
) -> Map<
    Seq<char>,
    (Map<Seq<Seq<char>>, (Seq<char>, usize)>, Map<Seq<Seq<char>>, Seq<(Seq<char>, usize)>>),
> {
    if m.contains_key(k) {
        m.insert(k, (spec_merge_one(m[k].0, v.0), spec_merge_seq(m[k].1, v.1)))
    } else {
        m.insert(k, v)
    }
}

/// The contents after merging `b` into `a`: every template of either; where both hold one,
/// the maps of `b` are merged into those of `a`.
pub open spec fn spec_merge_templates(
    a: Map<
        Seq<char>,
        (Map<Seq<Seq<char>>, (Seq<char>, usize)>, Map<Seq<Seq<char>>, Seq<(Seq<char>, usize)>>),
    >,
    b: Map<
        Seq<char>,
        (Map<Seq<Seq<char>>, (Seq<char>, usize)>, Map<Seq<Seq<char>>, Seq<(Seq<char>, usize)>>),
    >,
) -> Map<
    Seq<char>,
    (Map<Seq<Seq<char>>, (Seq<char>, usize)>, Map<Seq<Seq<char>>, Seq<(Seq<char>, usize)>>),
> {
    Map::new(
        |k: Seq<char>| a.contains_key(k) || b.contains_key(k),
        |k: Seq<char>|
            if a.contains_key(k) && b.contains_key(k) {
                (spec_merge_one(a[k].0, b[k].0), spec_merge_seq(a[k].1, b[k].1))
            } else if a.contains_key(k) {
                a[k]
            } else {
                b[k]
            },
    )
}

proof fn lemma_merge_templates_step(
    a: Map<
        Seq<char>,
        (Map<Seq<Seq<char>>, (Seq<char>, usize)>, Map<Seq<Seq<char>>, Seq<(Seq<char>, usize)>>),
    >,
    b: Map<
        Seq<char>,
        (Map<Seq<Seq<char>>, (Seq<char>, usize)>, Map<Seq<Seq<char>>, Seq<(Seq<char>, usize)>>),
    >,
    s: Set<Seq<char>>,
    k: Seq<char>,
)
    requires
        b.contains_key(k),
        !s.contains(k),
    ensures
        spec_add_template(spec_merge_templates(a, b.restrict(s)), k, b[k]) == spec_merge_templates(
            a,
            b.restrict(s.insert(k)),
        ),
{
    assert(spec_add_template(spec_merge_templates(a, b.restrict(s)), k, b[k])
        =~= spec_merge_templates(a, b.restrict(s.insert(k))));
}

/// For each template, its single-value and array patch maps.
pub struct RawBorrowedPatches(pub DashMap<TemplateKey, HkxPatchMaps>);

impl View for RawBorrowedPatches {
    type V = Map<
        Seq<char>,
        (Map<Seq<Seq<char>>, (Seq<char>, usize)>, Map<Seq<Seq<char>>, Seq<(Seq<char>, usize)>>),
    >;

    open spec fn view(&self) -> Self::V {
        template_entries(self.0)
    }
}

impl RawBorrowedPatches {
    /// No template.
    pub fn new() -> (r: RawBorrowedPatches)
        ensures
            r@ =~= Map::empty(),
    {
        RawBorrowedPatches(tp_new())
    }

    /// Adds the maps of one template: they are merged into the template's maps when it has
    /// some.
    pub fn add(&mut self, template: TemplateKey, maps: HkxPatchMaps)
        ensures
            final(self)@ == spec_add_template(old(self)@, template@, (maps.one@, maps.seq@)),
    {
        match tp_remove(&mut self.0, &template) {
            Some((existing_key, mut existing)) => {
                existing.merge(maps);
                tp_insert(&mut self.0, existing_key, existing);
            },
            None => {
                tp_insert(&mut self.0, template, maps);
            },
        }
    }

    /// Merges the templates of `other` into these.
    pub fn merge(&mut self, other: RawBorrowedPatches)
        ensures
            final(self)@ == spec_merge_templates(old(self)@, other@),
    {
        let ghost a = self@;
        let ghost b = other@;
        let mut entries = tp_into_entries(other.0);
        let ghost all = entries@;
        proof {
            assert(b.restrict(template_keys_from(all, all.len() as int)) =~= Map::empty());
            assert(spec_merge_templates(a, Map::empty()) =~= a);
        }
        while entries.len() > 0
            invariant
                entries@.len() <= all.len(),
                entries@ == all.subrange(0, entries@.len() as int),
                forall|n: int|
                    0 <= n < all.len() ==> #[trigger] b.contains_key(all[n].0@) && b[all[n].0@]
                        == (all[n].1.one@, all[n].1.seq@),
                forall|n: int, m: int|
                    0 <= n < m < all.len() ==> #[trigger] all[n].0@ != #[trigger] all[m].0@,
                self@ == spec_merge_templates(
                    a,
                    b.restrict(template_keys_from(all, entries@.len() as int)),
                ),
            decreases entries@.len(),
        {
            let ghost i = entries@.len() - 1;
            let (key, maps) = match entries.pop() {
                Some(kv) => kv,
                None => {
                    return;
                },
            };
            let ghost k = all[i].0@;
            self.add(key, maps);
            proof {
                assert(!template_keys_from(all, i + 1).contains(k));
                assert(template_keys_from(all, i) =~= template_keys_from(all, i + 1).insert(k));
                lemma_merge_templates_step(a, b, template_keys_from(all, i + 1), k);
            }
        }
        proof {
            assert(b.restrict(template_keys_from(all, 0)) =~= b);
        }
    }
}

/// For each template, the class index (e.g. `#0000`) of its `hkbBehaviorGraphStringData`.
pub struct BehaviorStringDataMap(pub DashMap<TemplateKey, String>);

impl View for BehaviorStringDataMap {
    type V = Map<Seq<char>, Seq<char>>;

    open spec fn view(&self) -> Map<Seq<char>, Seq<char>> {
        index_entries(self.0)
    }
}

impl BehaviorStringDataMap {
    /// No template.
    pub fn new() -> (r: BehaviorStringDataMap)
        ensures
            r@ =~= Map::empty(),
    {
        BehaviorStringDataMap(ix_new())
    }

    /// Sets the index of `template` unless it already has one.
    pub fn or_insert(&mut self, template: TemplateKey, index: String)
        ensures
            final(self)@ == (if old(self)@.contains_key(template@) {
                old(self)@
            } else {
                old(self)@.insert(template@, index@)
            }),
    {
        if !ix_contains_key(&self.0, &template) {
            ix_insert(&mut self.0, template, index);
        }
    }

    /// Sets the indexes of `other`, replacing those of the same templates.
    pub fn extend(&mut self, other: BehaviorStringDataMap)
        ensures
            final(self)@ == old(self)@.union_prefer_right(other@),
    {
        let ghost a = self@;
        let ghost b = other@;
        let mut entries = ix_into_entries(other.0);
        let ghost all = entries@;
        proof {
            assert(b.restrict(template_keys_from(all, all.len() as int)) =~= Map::empty());
            assert(a.union_prefer_right(Map::empty()) =~= a);
        }
        while entries.len() > 0
            invariant
                entries@.len() <= all.len(),
                entries@ == all.subrange(0, entries@.len() as int),
                forall|n: int|
                    0 <= n < all.len() ==> #[trigger] b.contains_key(all[n].0@) && b[all[n].0@]
                        == all[n].1@,
                forall|n: int, m: int|
                    0 <= n < m < all.len() ==> #[trigger] all[n].0@ != #[trigger] all[m].0@,
                self@ == a.union_prefer_right(
                    b.restrict(template_keys_from(all, entries@.len() as int)),
                ),
            decreases entries@.len(),
        {
            let ghost i = entries@.len() - 1;
            let (key, index) = match entries.pop() {
                Some(kv) => kv,
                None => {
                    return;
                },
            };
            let ghost k = all[i].0@;
            ix_insert(&mut self.0, key, index);
            proof {
                assert(!template_keys_from(all, i + 1).contains(k));
                assert(template_keys_from(all, i) =~= template_keys_from(all, i + 1).insert(k));
                assert(self@ =~= a.union_prefer_right(b.restrict(template_keys_from(all, i))));
            }
        }
        proof {
            assert(b.restrict(template_keys_from(all, 0)) =~= b);
        }
    }
}

/// The patches and class indexes gathered from a group of patch files.
pub struct PatchAggregate {
    /// The patch maps of each template.
    pub patches: RawBorrowedPatches,
    /// The class index of each template.
    pub variable_class_map: BehaviorStringDataMap,
}

impl PatchAggregate {
    /// Nothing gathered.
    pub fn new() -> (r: PatchAggregate)
        ensures
            r.patches@ =~= Map::empty(),
            r.variable_class_map@ =~= Map::empty(),
    {
        PatchAggregate { patches: RawBorrowedPatches::new(), variable_class_map: BehaviorStringDataMap::new() }
    }

    /// What one file gives: its maps for its template, and its class index, if it has one,
    /// filed under the template's normalized key, so that paths that compare equal share
    /// one entry.
    pub fn from_file(file: TemplatePatches) -> (r: PatchAggregate)
        ensures
            r.patches@ == Map::empty().insert(spec_key_text(file.template@), (file.maps.one@, file.maps.seq@)),
            r.variable_class_map@ == match file.variable_class_index {
                Some(i) => Map::empty().insert(spec_key_text(file.template@), i@),
                None => Map::empty(),
            },
    {
        let mut agg = PatchAggregate::new();
        let TemplatePatches { template, maps, variable_class_index } = file;
        let key = template.normalized();
        if let Some(index) = variable_class_index {
            agg.variable_class_map.or_insert(key.duplicate(), index);
        }
        agg.patches.add(key, maps);
        agg
    }

    /// Gathers `other` into this: the patch maps are merged template by template; the class
    /// indexes of `other` replace those of the same templates.
    pub fn merge(self, other: PatchAggregate) -> (r: PatchAggregate)
        ensures
            r.patches@ == spec_merge_templates(self.patches@, other.patches@),
            r.variable_class_map@ == self.variable_class_map@.union_prefer_right(
                other.variable_class_map@,
            ),
    {
        let mut agg = self;
        agg.patches.merge(other.patches);
        agg.variable_class_map.extend(other.variable_class_map);
        agg
    }
}

/// A parsed Nemesis patch file: its path, its JSON patches, the class index the parser found
/// in it (if any) and the priority of its mod.
pub struct ParsedPatchFile {
    /// The file's path, e.g. `.../Nemesis_Engine/mod/flinch/0_master/#0106.txt`.
    pub path: String,
    /// Its JSON patches, in file order.
    pub patches: Vec<ParsedPatch>,
    /// The class index the parser found in it, if any.
    pub parsed_var_index: Option<String>,
    /// The priority of its mod; a higher one wins.
    pub priority: usize,
}

/// The text of an optional string.
pub open spec fn opt_view(o: Option<String>) -> Option<Seq<char>> {
    match o {
        Some(s) => Some(s@),
        None => None,
    }
}

/// The patch maps gathered from `files`, in order: those of each file whose path names a
/// template are merged into that template's, under its normalized key.
pub open spec fn spec_gather_patches(files: Seq<ParsedPatchFile>) -> Map<
    Seq<char>,
    (Map<Seq<Seq<char>>, (Seq<char>, usize)>, Map<Seq<Seq<char>>, Seq<(Seq<char>, usize)>>),
>
    decreases files.len(),
{
    if files.len() == 0 {
        Map::empty()
    } else {
        let before = spec_gather_patches(files.drop_last());
        let f = files.last();
        match spec_file_template(f.path@) {
            Some(t) => spec_merge_templates(
                before,
                Map::empty().insert(
                    spec_key_text(t),
                    (spec_pure_patches(f.patches@, f.priority), spec_array_patches(f.patches@, f.priority)),
                ),
            ),
            None => before,
        }
    }
}

/// The class indexes gathered from `files`, in order: a later file's index replaces an
/// earlier one of the same template.
pub open spec fn spec_gather_indexes(files: Seq<ParsedPatchFile>) -> Map<Seq<char>, Seq<char>>
    decreases files.len(),
{
    if files.len() == 0 {
        Map::empty()
    } else {
        let before = spec_gather_indexes(files.drop_last());
        let f = files.last();
        match (spec_file_template(f.path@), spec_file_index(f.path@, opt_view(f.parsed_var_index))) {
            (Some(t), Some(i)) => before.union_prefer_right(Map::empty().insert(spec_key_text(t), i)),
            _ => before,
        }
    }
}

/// The files whose path names no template, in order: each path, and whether it is not a
/// Nemesis patch path at all (rather than naming an unknown template).
pub open spec fn spec_failed_files(files: Seq<ParsedPatchFile>) -> Seq<(Seq<char>, bool)>
    decreases files.len(),
{
    if files.len() == 0 {
        Seq::empty()
    } else {
        let before = spec_failed_files(files.drop_last());
        let f = files.last();
        if spec_file_template(f.path@) is None {
            before.push((f.path@, spec_nemesis_path(f.path@) is None))
        } else {
            before
        }
    }
}

/// The error reported for a failed file.
pub open spec fn is_file_error(e: Error, failed: (Seq<char>, bool)) -> bool {
    if failed.1 {
        e matches Error::FailedParseNemesisPath { path } && path@ == failed.0
    } else {
        e matches Error::FailedToCastNemesisPathToTemplateKey { path } && path@ == failed.0
    }
}

/// Gathers the patches of parsed Nemesis patch files, in order, and merges them on top of
/// `base` (the FNIS patches): the maps of each file go to its template; class indexes of
/// later files replace earlier ones. A file whose path names no template is left out and
/// reported.
pub fn collect_borrowed_patches(base: PatchAggregate, files: Vec<ParsedPatchFile>) -> (r: (
    PatchAggregate,
    Vec<Error>,
))
    ensures
        r.0.patches@ == spec_merge_templates(base.patches@, spec_gather_patches(files@)),
        r.0.variable_class_map@ == base.variable_class_map@.union_prefer_right(
            spec_gather_indexes(files@),
        ),
        r.1@.len() == spec_failed_files(files@).len(),
        forall|j: int| 0 <= j < r.1@.len() ==> is_file_error(#[trigger] r.1@[j], spec_failed_files(files@)[j]),
{
    let ghost all = files@;
    let mut gathered = PatchAggregate::new();
    let mut errors: Vec<Error> = Vec::new();
    for f in it: files.into_iter()
        invariant
            it.seq() == all,
            gathered.patches@ == spec_gather_patches(all.take(it.index() as int)),
            gathered.variable_class_map@ == spec_gather_indexes(all.take(it.index() as int)),
            errors@.len() == spec_failed_files(all.take(it.index() as int)).len(),
            forall|j: int|
                0 <= j < errors@.len() ==> is_file_error(
                    #[trigger] errors@[j],
                    spec_failed_files(all.take(it.index() as int))[j],
                ),
    {
        let ghost i = it.index() as int;
        let ghost fv = f;
        proof {
            assert(all.take(i + 1).drop_last() =~= all.take(i));
            assert(all.take(i + 1).last() == fv);
        }
        let ParsedPatchFile { path, patches, parsed_var_index, priority } = f;
        let parsed = match &parsed_var_index {
            Some(index) => Some(index.as_str()),
            None => None,
        };
        match collect_file_patches(path.as_str(), patches, parsed, priority) {
            Ok(file) => {
                let ghost before_indexes = gathered.variable_class_map@;
                gathered = gathered.merge(PatchAggregate::from_file(file));
                proof {
                    assert(before_indexes.union_prefer_right(Map::empty()) =~= before_indexes);
                }
            },
            Err(e) => {
                errors.push(e);
            },
        }
    }
    proof {
        assert(all.take(all.len() as int) =~= all);
    }
    (base.merge(gathered), errors)
}

} // verus!
