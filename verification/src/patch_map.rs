//! # Patch Maps
//!
//! - [`OnePatchMap`]: one value per JSON path; the value with the highest priority is kept.
//! - [`SeqPatchMap`]: a list of values per JSON path; values are appended in arrival order.
//! - [`HkxPatchMaps`]: both, for one template.
//!
//! Both maps keep their entries in a `dashmap::DashMap`. The contents of a map are stated
//! as a `Map` from the text of each path component to the view of its value(s).
use vstd::prelude::*;

use dashmap::DashMap;

verus! {

#[verifier::external_type_specification]
#[verifier::external_body]
#[verifier::reject_recursive_types(K)]
#[verifier::reject_recursive_types(V)]
#[verifier::reject_recursive_types(S)]
pub struct ExDashMap<K, V, S>(DashMap<K, V, S>);

/// A JSON path, e.g. `["#0001", "hkbProjectData", "variable"]`.
pub type JsonPath = Vec<String>;

/// A JSON patch (as JSON text) with the priority of the mod it comes from.
#[derive(Debug, Clone, PartialEq, Eq)]
pub struct ValueWithPriority {
    /// The patch, as JSON text.
    pub patch: String,
    /// The priority; a higher one wins.
    pub priority: usize,
}

impl View for ValueWithPriority {
    type V = (Seq<char>, usize);

    open spec fn view(&self) -> (Seq<char>, usize) {
        (self.patch@, self.priority)
    }
}

/// The views of a list of values.
pub open spec fn values_view(v: Vec<ValueWithPriority>) -> Seq<(Seq<char>, usize)> {
    v@.map_values(|x: ValueWithPriority| x@)
}

/// What a map of single patches holds: path text to `(patch, priority)`.
pub uninterp spec fn one_entries(m: DashMap<JsonPath, ValueWithPriority>) -> Map<
    Seq<Seq<char>>,
    (Seq<char>, usize),
>;

/// What a map of patch lists holds: path text to the list of `(patch, priority)`.
pub uninterp spec fn seq_entries(m: DashMap<JsonPath, Vec<ValueWithPriority>>) -> Map<
    Seq<Seq<char>>,
    Seq<(Seq<char>, usize)>,
>;

/// `DashMap::new`: an empty map.
#[verifier::external_body]
fn one_new() -> (r: DashMap<JsonPath, ValueWithPriority>)
    ensures
        one_entries(r) =~= Map::empty(),
{
    DashMap::new()
}

/// `DashMap::remove`: takes out the entry of `key`, if there is one.
#[verifier::external_body]
fn one_remove(m: &mut DashMap<JsonPath, ValueWithPriority>, key: &JsonPath) -> (r: Option<
    (JsonPath, ValueWithPriority),
>)
    ensures
        one_entries(*final(m)) == one_entries(*old(m)).remove(key.deep_view()),
        r is Some <==> one_entries(*old(m)).contains_key(key.deep_view()),
        r matches Some(kv) ==> kv.0.deep_view() == key.deep_view() && kv.1@ == one_entries(
            *old(m),
        )[key.deep_view()],
{
    m.remove(key)
}

/// `DashMap::insert`: sets the value of `key`, replacing any previous one.
#[verifier::external_body]
fn one_insert(m: &mut DashMap<JsonPath, ValueWithPriority>, key: JsonPath, value: ValueWithPriority)
    ensures
        one_entries(*final(m)) == one_entries(*old(m)).insert(key.deep_view(), value@),
{
    m.insert(key, value);
}

/// `DashMap::len`: the number of entries.
#[verifier::external_body]
fn one_len(m: &DashMap<JsonPath, ValueWithPriority>) -> (r: usize)
    ensures
        r == one_entries(*m).len(),
{
    m.len()
}

/// `DashMap::into_iter`: every entry, once each, in no particular order.
#[verifier::external_body]
fn one_into_entries(m: DashMap<JsonPath, ValueWithPriority>) -> (r: Vec<
    (JsonPath, ValueWithPriority),
>)
    ensures
        forall|i: int|
            0 <= i < r@.len() ==> #[trigger] one_entries(m).contains_key(r@[i].0.deep_view())
                && one_entries(m)[r@[i].0.deep_view()] == r@[i].1@,
        forall|i: int, j: int|
            0 <= i < j < r@.len() ==> #[trigger] r@[i].0.deep_view() != #[trigger] r@[j].0.deep_view(),
        forall|k: Seq<Seq<char>>|
            #[trigger] one_entries(m).contains_key(k) ==> exists|i: int|
                0 <= i < r@.len() && #[trigger] r@[i].0.deep_view() == k,
{
    m.into_iter().collect()
}

/// `DashMap::new`: an empty map.
#[verifier::external_body]
fn seq_new() -> (r: DashMap<JsonPath, Vec<ValueWithPriority>>)
    ensures
        seq_entries(r) =~= Map::empty(),
{
    DashMap::new()
}

/// `DashMap::remove`: takes out the entry of `key`, if there is one.
#[verifier::external_body]
fn seq_remove(m: &mut DashMap<JsonPath, Vec<ValueWithPriority>>, key: &JsonPath) -> (r: Option<
    (JsonPath, Vec<ValueWithPriority>),
>)
    ensures
        seq_entries(*final(m)) == seq_entries(*old(m)).remove(key.deep_view()),
        r is Some <==> seq_entries(*old(m)).contains_key(key.deep_view()),
        r matches Some(kv) ==> kv.0.deep_view() == key.deep_view() && values_view(kv.1)
            == seq_entries(*old(m))[key.deep_view()],
{
    m.remove(key)
}

/// `DashMap::insert`: sets the list of `key`, replacing any previous one.
#[verifier::external_body]
fn seq_insert(
    m: &mut DashMap<JsonPath, Vec<ValueWithPriority>>,
    key: JsonPath,
    value: Vec<ValueWithPriority>,
)
    ensures
        seq_entries(*final(m)) == seq_entries(*old(m)).insert(key.deep_view(), values_view(value)),
{
    m.insert(key, value);
}

/// `DashMap::len`: the number of entries.
#[verifier::external_body]
fn seq_len(m: &DashMap<JsonPath, Vec<ValueWithPriority>>) -> (r: usize)
    ensures
        r == seq_entries(*m).len(),
{
    m.len()
}

/// `DashMap::into_iter`: every entry, once each, in no particular order.
#[verifier::external_body]
fn seq_into_entries(m: DashMap<JsonPath, Vec<ValueWithPriority>>) -> (r: Vec<
    (JsonPath, Vec<ValueWithPriority>),
>)
    ensures
        forall|i: int|
            0 <= i < r@.len() ==> #[trigger] seq_entries(m).contains_key(r@[i].0.deep_view())
                && seq_entries(m)[r@[i].0.deep_view()] == values_view(r@[i].1),
        forall|i: int, j: int|
            0 <= i < j < r@.len() ==> #[trigger] r@[i].0.deep_view() != #[trigger] r@[j].0.deep_view(),
        forall|k: Seq<Seq<char>>|
            #[trigger] seq_entries(m).contains_key(k) ==> exists|i: int|
                0 <= i < r@.len() && #[trigger] r@[i].0.deep_view() == k,
{
    m.into_iter().collect()
}

/// The contents after offering `v` for path `k`: it replaces the current value only when
/// there is none or its priority is higher.
pub open spec fn spec_keep_higher(
    m: Map<Seq<Seq<char>>, (Seq<char>, usize)>,
    k: Seq<Seq<char>>,
    v: (Seq<char>, usize),
) -> Map<Seq<Seq<char>>, (Seq<char>, usize)> {
    if m.contains_key(k) && v.1 <= m[k].1 {
        m
    } else {
        m.insert(k, v)
    }
}

/// The contents after merging `b` into `a`: every path of either; where both hold one,
/// the value of `b` is kept only when its priority is higher.
pub open spec fn spec_merge_one(
    a: Map<Seq<Seq<char>>, (Seq<char>, usize)>,
    b: Map<Seq<Seq<char>>, (Seq<char>, usize)>,
) -> Map<Seq<Seq<char>>, (Seq<char>, usize)> {
    Map::new(
        |k: Seq<Seq<char>>| a.contains_key(k) || b.contains_key(k),
        |k: Seq<Seq<char>>|
            if b.contains_key(k) && (!a.contains_key(k) || a[k].1 < b[k].1) {
                b[k]
            } else {
                a[k]
            },
    )
}

/// The contents after appending `v` to the list of `k`.
pub open spec fn spec_push(
    m: Map<Seq<Seq<char>>, Seq<(Seq<char>, usize)>>,
    k: Seq<Seq<char>>,
    v: (Seq<char>, usize),
) -> Map<Seq<Seq<char>>, Seq<(Seq<char>, usize)>> {
    if m.contains_key(k) {
        m.insert(k, m[k].push(v))
    } else {
        m.insert(k, seq![v])
    }
}

/// The list of `k` in `m`, empty when `m` holds none.
pub open spec fn list_of(m: Map<Seq<Seq<char>>, Seq<(Seq<char>, usize)>>, k: Seq<Seq<char>>) -> Seq<
    (Seq<char>, usize),
> {
    if m.contains_key(k) {
        m[k]
    } else {
        Seq::empty()
    }
}

/// The contents after merging `b` into `a`: every path of either, with the list of `a`
/// followed by the list of `b`.
pub open spec fn spec_merge_seq(
    a: Map<Seq<Seq<char>>, Seq<(Seq<char>, usize)>>,
    b: Map<Seq<Seq<char>>, Seq<(Seq<char>, usize)>>,
) -> Map<Seq<Seq<char>>, Seq<(Seq<char>, usize)>> {
    Map::new(
        |k: Seq<Seq<char>>| a.contains_key(k) || b.contains_key(k),
        |k: Seq<Seq<char>>| list_of(a, k) + list_of(b, k),
    )
}

/// The path keys of the entries from position `i` on.
pub open spec fn keys_from<V>(entries: Seq<(JsonPath, V)>, i: int) -> Set<Seq<Seq<char>>> {
    Set::new(
        |k: Seq<Seq<char>>| exists|j: int| i <= j < entries.len() && entries[j].0.deep_view() == k,
    )
}

/// Offering a value keeps every other path as it was, and leaves the offered path with the
/// higher of the two priorities.
pub proof fn lemma_keep_higher(
    m: Map<Seq<Seq<char>>, (Seq<char>, usize)>,
    k: Seq<Seq<char>>,
    v: (Seq<char>, usize),
)
    ensures
        spec_keep_higher(m, k, v).contains_key(k),
        spec_keep_higher(m, k, v)[k].1 == (if m.contains_key(k) && v.1 <= m[k].1 {
            m[k].1
        } else {
            v.1
        }),
        forall|j: Seq<Seq<char>>|
            j != k ==> (#[trigger] spec_keep_higher(m, k, v).contains_key(j) <==> m.contains_key(j))
                && (m.contains_key(j) ==> spec_keep_higher(m, k, v)[j] == m[j]),
{
}

/// After a merge, a path held by both maps carries the higher of its two priorities, and a
/// path held by one carries that one's value.
pub proof fn lemma_merge_one_priority(
    a: Map<Seq<Seq<char>>, (Seq<char>, usize)>,
    b: Map<Seq<Seq<char>>, (Seq<char>, usize)>,
    k: Seq<Seq<char>>,
)
    ensures
        spec_merge_one(a, b).contains_key(k) <==> a.contains_key(k) || b.contains_key(k),
        a.contains_key(k) && b.contains_key(k) ==> spec_merge_one(a, b)[k].1 == (if a[k].1
            < b[k].1 {
            b[k].1
        } else {
            a[k].1
        }),
        a.contains_key(k) && !b.contains_key(k) ==> spec_merge_one(a, b)[k] == a[k],
        !a.contains_key(k) && b.contains_key(k) ==> spec_merge_one(a, b)[k] == b[k],
{
}

/// The priorities after merging three maps do not depend on how the merges are grouped.
pub proof fn lemma_merge_one_priority_assoc(
    a: Map<Seq<Seq<char>>, (Seq<char>, usize)>,
    b: Map<Seq<Seq<char>>, (Seq<char>, usize)>,
    c: Map<Seq<Seq<char>>, (Seq<char>, usize)>,
    k: Seq<Seq<char>>,
)
    ensures
        spec_merge_one(spec_merge_one(a, b), c).contains_key(k) <==> spec_merge_one(
            a,
            spec_merge_one(b, c),
        ).contains_key(k),
        spec_merge_one(spec_merge_one(a, b), c).contains_key(k) ==> spec_merge_one(
            spec_merge_one(a, b),
            c,
        )[k].1 == spec_merge_one(a, spec_merge_one(b, c))[k].1,
{
}

/// The priorities after a merge do not depend on which map is merged into which.
pub proof fn lemma_merge_one_priority_comm(
    a: Map<Seq<Seq<char>>, (Seq<char>, usize)>,
    b: Map<Seq<Seq<char>>, (Seq<char>, usize)>,
    k: Seq<Seq<char>>,
)
    ensures
        spec_merge_one(a, b).contains_key(k) <==> spec_merge_one(b, a).contains_key(k),
        spec_merge_one(a, b).contains_key(k) ==> spec_merge_one(a, b)[k].1 == spec_merge_one(
            b,
            a,
        )[k].1,
{
}

/// Merging lists keeps the lists of both maps, those of the first map first.
pub proof fn lemma_merge_seq_lists(
    a: Map<Seq<Seq<char>>, Seq<(Seq<char>, usize)>>,
    b: Map<Seq<Seq<char>>, Seq<(Seq<char>, usize)>>,
    k: Seq<Seq<char>>,
)
    ensures
        list_of(spec_merge_seq(a, b), k) == list_of(a, k) + list_of(b, k),
{
    if !a.contains_key(k) && !b.contains_key(k) {
        assert(list_of(a, k) + list_of(b, k) =~= Seq::empty());
    }
}

/// Offering `b`'s value of one more path `k` extends a merge with the part of `b` on `s` to
/// the part of `b` on `s` and `k`.
proof fn lemma_merge_one_step(
    a: Map<Seq<Seq<char>>, (Seq<char>, usize)>,
    b: Map<Seq<Seq<char>>, (Seq<char>, usize)>,
    s: Set<Seq<Seq<char>>>,
    k: Seq<Seq<char>>,
)
    requires
        b.contains_key(k),
        !s.contains(k),
    ensures
        spec_keep_higher(spec_merge_one(a, b.restrict(s)), k, b[k]) == spec_merge_one(
            a,
            b.restrict(s.insert(k)),
        ),
{
    assert(spec_keep_higher(spec_merge_one(a, b.restrict(s)), k, b[k]) =~= spec_merge_one(
        a,
        b.restrict(s.insert(k)),
    ));
}

/// A map that stores a **single** value for each JSON path, keeping the value with the
/// highest priority.
pub struct OnePatchMap(pub DashMap<JsonPath, ValueWithPriority>);

impl View for OnePatchMap {
    type V = Map<Seq<Seq<char>>, (Seq<char>, usize)>;

    open spec fn view(&self) -> Map<Seq<Seq<char>>, (Seq<char>, usize)> {
        one_entries(self.0)
    }
}

impl OnePatchMap {
    /// Constructs a new, empty map.
    pub fn new() -> (r: OnePatchMap)
        ensures
            r@ =~= Map::empty(),
    {
        OnePatchMap(one_new())
    }

    /// The number of paths.
    pub fn len(&self) -> (r: usize)
        ensures
            r == self@.len(),
    {
        one_len(&self.0)
    }

    /// Inserts a value for the given JSON path. If the path already has a value, the one
    /// with the **higher** priority is kept; on equal priorities the existing one stays.
    pub fn insert(&mut self, key: JsonPath, new_value: ValueWithPriority)
        ensures
            final(self)@ == spec_keep_higher(old(self)@, key.deep_view(), new_value@),
    {
        let ghost old_map = self@;
        match one_remove(&mut self.0, &key) {
            Some((existing_key, existing)) => {
                if new_value.priority > existing.priority {
                    one_insert(&mut self.0, key, new_value);
                } else {
                    one_insert(&mut self.0, existing_key, existing);
                    assert(self@ =~= old_map);
                }
            },
            None => {
                one_insert(&mut self.0, key, new_value);
            },
        }
    }

    /// Merges another map into this one, keeping for each path the value with the highest
    /// priority (the existing one on equal priorities).
    pub fn merge(&mut self, other: OnePatchMap)
        ensures
            final(self)@ == spec_merge_one(old(self)@, other@),
    {
        let ghost a = self@;
        let ghost b = other@;
        let mut entries = one_into_entries(other.0);
        let ghost all = entries@;
        proof {
            assert(b.restrict(keys_from(all, all.len() as int)) =~= Map::empty());
            assert(spec_merge_one(a, Map::empty()) =~= a);
        }
        while entries.len() > 0
            invariant
                entries@.len() <= all.len(),
                entries@ == all.subrange(0, entries@.len() as int),
                forall|n: int|
                    0 <= n < all.len() ==> #[trigger] b.contains_key(all[n].0.deep_view())
                        && b[all[n].0.deep_view()] == all[n].1@,
                forall|n: int, m: int|
                    0 <= n < m < all.len() ==> #[trigger] all[n].0.deep_view()
                        != #[trigger] all[m].0.deep_view(),
                self@ == spec_merge_one(a, b.restrict(keys_from(all, entries@.len() as int))),
            decreases entries@.len(),
        {
            let ghost i = entries@.len() - 1;
            let (key, value) = match entries.pop() {
                Some(kv) => kv,
                None => {
                    return;
                },
            };
            let ghost k = all[i].0.deep_view();
            self.insert(key, value);
            proof {
                assert(!keys_from(all, i + 1).contains(k));
                assert(keys_from(all, i) =~= keys_from(all, i + 1).insert(k));
                lemma_merge_one_step(a, b, keys_from(all, i + 1), k);
            }
        }
        proof {
            assert(b.restrict(keys_from(all, 0)) =~= b);
        }
    }
}

/// A map that stores **multiple** values per JSON path, in arrival order.
pub struct SeqPatchMap(pub DashMap<JsonPath, Vec<ValueWithPriority>>);

impl View for SeqPatchMap {
    type V = Map<Seq<Seq<char>>, Seq<(Seq<char>, usize)>>;

    open spec fn view(&self) -> Map<Seq<Seq<char>>, Seq<(Seq<char>, usize)>> {
        seq_entries(self.0)
    }
}

impl SeqPatchMap {
    /// Constructs a new, empty map.
    pub fn new() -> (r: SeqPatchMap)
        ensures
            r@ =~= Map::empty(),
    {
        SeqPatchMap(seq_new())
    }

    /// The number of paths.
    pub fn len(&self) -> (r: usize)
        ensures
            r == self@.len(),
    {
        seq_len(&self.0)
    }

    /// Inserts a value for the given JSON path: it is pushed to the path's list, which is
    /// created when the path has none.
    pub fn insert(&mut self, key: JsonPath, new_value: ValueWithPriority)
        ensures
            final(self)@ == spec_push(old(self)@, key.deep_view(), new_value@),
    {
        match seq_remove(&mut self.0, &key) {
            Some((existing_key, mut values)) => {
                let ghost before = values_view(values);
                values.push(new_value);
                assert(values_view(values) =~= before.push(new_value@));
                seq_insert(&mut self.0, existing_key, values);
            },
            None => {
                let mut values = Vec::new();
                values.push(new_value);
                assert(values_view(values) =~= seq![new_value@]);
                seq_insert(&mut self.0, key, values);
            },
        }
    }

    /// Extends the lists of this map by those of another: for each path, the values of
    /// `other` come after the existing ones.
    #[verifier::spinoff_prover]
    pub fn merge(&mut self, other: SeqPatchMap)
        ensures
            final(self)@ == spec_merge_seq(old(self)@, other@),
    {
        let ghost a = self@;
        let ghost b = other@;
        let mut entries = seq_into_entries(other.0);
        let ghost all = entries@;
        proof {
            assert(b.restrict(keys_from(all, all.len() as int)) =~= Map::empty());
            assert(spec_merge_seq(a, Map::empty()) =~= a);
        }
        while entries.len() > 0
            invariant
                entries@.len() <= all.len(),
                entries@ == all.subrange(0, entries@.len() as int),
                forall|n: int|
                    0 <= n < all.len() ==> #[trigger] b.contains_key(all[n].0.deep_view())
                        && b[all[n].0.deep_view()] == values_view(all[n].1),
                forall|n: int, m: int|
                    0 <= n < m < all.len() ==> #[trigger] all[n].0.deep_view()
                        != #[trigger] all[m].0.deep_view(),
                self@ == spec_merge_seq(a, b.restrict(keys_from(all, entries@.len() as int))),
            decreases entries@.len(),
        {
            let ghost i = entries@.len() - 1;
            let (key, other_values) = match entries.pop() {
                Some(kv) => kv,
                None => {
                    return;
                },
            };
            let ghost k = all[i].0.deep_view();
            match seq_remove(&mut self.0, &key) {
                Some((existing_key, mut values)) => {
                    let ghost before = values_view(values);
                    let mut tail = other_values;
                    let ghost tail_view = values_view(tail);
                    values.append(&mut tail);
                    assert(values_view(values) =~= before + tail_view);
                    seq_insert(&mut self.0, existing_key, values);
                },
                None => {
                    seq_insert(&mut self.0, key, other_values);
                },
            }
            proof {
                assert(!keys_from(all, i + 1).contains(k));
                assert(keys_from(all, i) =~= keys_from(all, i + 1).insert(k));
                assert(self@ =~= spec_merge_seq(a, b.restrict(keys_from(all, i))));
            }
        }
        proof {
            assert(b.restrict(keys_from(all, 0)) =~= b);
        }
    }
}

/// The single and sequence patches of one template.
pub struct HkxPatchMaps {
    /// One value per path (highest priority wins).
    pub one: OnePatchMap,
    /// Multiple values per path.
    pub seq: SeqPatchMap,
}

impl HkxPatchMaps {
    /// Empty maps.
    pub fn new() -> (r: HkxPatchMaps)
        ensures
            r.one@ =~= Map::empty(),
            r.seq@ =~= Map::empty(),
    {
        HkxPatchMaps { one: OnePatchMap::new(), seq: SeqPatchMap::new() }
    }

    /// The number of paths of both maps.
    pub fn len(&self) -> (r: usize)
        requires
            self.one@.len() + self.seq@.len() <= usize::MAX,
        ensures
            r == self.one@.len() + self.seq@.len(),
    {
        self.one.len() + self.seq.len()
    }

    /// Merges both maps of `other` into these.
    pub fn merge(&mut self, other: HkxPatchMaps)
        ensures
            final(self).one@ == spec_merge_one(old(self).one@, other.one@),
            final(self).seq@ == spec_merge_seq(old(self).seq@, other.seq@),
    {
        self.one.merge(other.one);
        self.seq.merge(other.seq);
    }
}

} // verus!
