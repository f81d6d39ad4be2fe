//! The text form of a JSON path, used as the key of a serialized patch map.
//!
//! JSON object keys must be strings, so a path such as `["#0001", "hkbProjectData", "[0:10]"]`
//! is written as its components joined by `/`: `#0001/hkbProjectData/[0:10]`, and read back
//! by splitting at every `/`.
use vstd::prelude::*;

use crate::patch_map::JsonPath;
use crate::text::chars_of;

verus! {

/// The components of `p` joined by `/`.
pub open spec fn spec_join(p: Seq<Seq<char>>) -> Seq<char>
    decreases p.len(),
{
    if p.len() == 0 {
        Seq::empty()
    } else if p.len() == 1 {
        p[0]
    } else {
        p[0] + seq!['/'] + spec_join(p.drop_first())
    }
}

/// The first position `j >= i` where `s` holds `/`, or -1.
pub open spec fn slash_pos(s: Seq<char>, i: int) -> int
    decreases s.len() - i,
{
    if i < 0 || i >= s.len() {
        -1
    } else if s[i] == '/' {
        i
    } else {
        slash_pos(s, i + 1)
    }
}

/// `s` split at every `/` (one component more than there are `/`).
pub open spec fn spec_split(s: Seq<char>) -> Seq<Seq<char>>
    decreases s.len(),
{
    let k = slash_pos(s, 0);
    if k < 0 {
        seq![s]
    } else {
        proof {
            lemma_slash_pos(s, 0);
        }
        seq![s.subrange(0, k)] + spec_split(s.subrange(k + 1, s.len() as int))
    }
}

/// `s` holds no `/`.
pub open spec fn no_slash(s: Seq<char>) -> bool {
    forall|j: int| 0 <= j < s.len() ==> s[j] != '/'
}

/// Facts about `slash_pos`: a hit is the first `/` at or after `i`.
pub proof fn lemma_slash_pos(s: Seq<char>, i: int)
    requires
        0 <= i,
    ensures
        slash_pos(s, i) == -1 || (i <= slash_pos(s, i) < s.len() && s[slash_pos(s, i)] == '/'),
        forall|j: int|
            i <= j < s.len() && (slash_pos(s, i) == -1 || j < slash_pos(s, i)) ==> s[j] != '/',
    decreases s.len() - i,
{
    if i < s.len() && s[i] != '/' {
        lemma_slash_pos(s, i + 1);
    }
}

proof fn lemma_slash_pos_shift(s: Seq<char>, a: int, j: int)
    requires
        0 <= a <= j <= s.len(),
    ensures
        slash_pos(s.subrange(a, s.len() as int), j - a) == (if slash_pos(s, j) < 0 {
            -1
        } else {
            slash_pos(s, j) - a
        }),
    decreases s.len() - j,
{
    if j < s.len() && s[j] != '/' {
        lemma_slash_pos_shift(s, a, j + 1);
    }
}

proof fn lemma_no_slash_pos(s: Seq<char>, i: int)
    requires
        0 <= i,
        no_slash(s),
    ensures
        slash_pos(s, i) == -1,
    decreases s.len() - i,
{
    if i < s.len() {
        lemma_no_slash_pos(s, i + 1);
    }
}

/// Splitting never gives an empty list.
pub proof fn lemma_split_nonempty(s: Seq<char>)
    ensures
        spec_split(s).len() >= 1,
    decreases s.len(),
{
    let k = slash_pos(s, 0);
    if k >= 0 {
        lemma_slash_pos(s, 0);
        lemma_split_nonempty(s.subrange(k + 1, s.len() as int));
    }
}

proof fn lemma_join_push(q: Seq<Seq<char>>, x: Seq<char>)
    requires
        q.len() >= 1,
    ensures
        spec_join(q.push(x)) == spec_join(q) + seq!['/'] + x,
    decreases q.len(),
{
    if q.len() == 1 {
        assert(q.push(x).drop_first() =~= seq![x]);
        assert(spec_join(seq![x]) == x);
        assert(q.push(x)[0] == q[0]);
    } else {
        lemma_join_push(q.drop_first(), x);
        assert(q.push(x).drop_first() =~= q.drop_first().push(x));
        assert(spec_join(q.push(x)) =~= spec_join(q) + seq!['/'] + x);
    }
}

/// Joining the pieces of a split gives the text back.
pub proof fn lemma_join_split(s: Seq<char>)
    ensures
        spec_join(spec_split(s)) == s,
    decreases s.len(),
{
    let k = slash_pos(s, 0);
    if k >= 0 {
        lemma_slash_pos(s, 0);
        let rest = s.subrange(k + 1, s.len() as int);
        lemma_join_split(rest);
        lemma_split_nonempty(rest);
        let parts = seq![s.subrange(0, k)] + spec_split(rest);
        assert(parts.drop_first() =~= spec_split(rest));
        assert(s =~= s.subrange(0, k) + seq!['/'] + rest);
    }
}

/// Splitting a joined path gives the path back, when it has a component and none of its
/// components holds `/`.
pub proof fn lemma_split_join(p: Seq<Seq<char>>)
    requires
        p.len() >= 1,
        forall|i: int| 0 <= i < p.len() ==> no_slash(#[trigger] p[i]),
    ensures
        spec_split(spec_join(p)) == p,
    decreases p.len(),
{
    if p.len() == 1 {
        lemma_no_slash_pos(p[0], 0);
        assert(seq![p[0]] =~= p);
    } else {
        let rest = p.drop_first();
        lemma_split_join(rest);
        let s = spec_join(p);
        let n = p[0].len() as int;
        assert(s =~= p[0] + seq!['/'] + spec_join(rest));
        lemma_no_slash_pos(p[0], 0);
        lemma_slash_pos(p[0], 0);
        assert(s[n] == '/');
        assert forall|j: int| 0 <= j < n implies s[j] != '/' by {
            assert(s[j] == p[0][j]);
        }
        lemma_first_slash_at(s, n);
        assert(s.subrange(0, n) =~= p[0]);
        assert(s.subrange(n + 1, s.len() as int) =~= spec_join(rest));
        assert(seq![p[0]] + rest =~= p);
    }
}

proof fn lemma_first_slash_at(s: Seq<char>, n: int)
    requires
        0 <= n < s.len(),
        s[n] == '/',
        forall|j: int| 0 <= j < n ==> s[j] != '/',
    ensures
        slash_pos(s, 0) == n,
{
    lemma_slash_pos(s, 0);
    if slash_pos(s, 0) == -1 {
        assert(s[n] != '/');
    }
}

/// The text of a path: its components joined by `/`, e.g. `#0001/hkbProjectData/[0:10]`.
pub fn json_path_to_key(path: &JsonPath) -> (r: String)
    ensures
        r@ == spec_join(path.deep_view()),
{
    let ghost p = path.deep_view();
    if path.len() == 0 {
        return String::new();
    }
    let mut r = path[0].clone();
    let mut i: usize = 1;
    assert(p.take(1) =~= seq![p[0]]);
    while i < path.len()
        invariant
            p == path.deep_view(),
            1 <= i <= path@.len(),
            r@ == spec_join(p.take(i as int)),
        decreases path@.len() - i,
    {
        r.append("/");
        r.append(path[i].as_str());
        proof {
            reveal_strlit("/");
            lemma_join_push(p.take(i as int), p[i as int]);
            assert(p.take(i + 1) =~= p.take(i as int).push(p[i as int]));
        }
        i = i + 1;
    }
    assert(p.take(path@.len() as int) =~= p);
    r
}

/// The path of a text: the text split at every `/`.
pub fn json_path_from_key(key: &str) -> (r: JsonPath)
    ensures
        r.deep_view() == spec_split(key@),
{
    let s = chars_of(key);
    let n = s.len();
    let mut parts: Vec<String> = Vec::new();
    let mut start: usize = 0;
    assert(key@.subrange(0, n as int) =~= key@);
    assert(parts.deep_view() + spec_split(key@) =~= spec_split(key@));
    loop
        invariant
            s@ == key@,
            n == s@.len(),
            start <= n,
            spec_split(key@) == parts.deep_view() + spec_split(key@.subrange(start as int, n as int)),
        decreases n - start,
    {
        let ghost t = key@.subrange(start as int, n as int);
        let mut k = start;
        while k < n && s[k] != '/'
            invariant
                s@ == key@,
                n == s@.len(),
                start <= k <= n,
                slash_pos(key@, start as int) == slash_pos(key@, k as int),
            decreases n - k,
        {
            k = k + 1;
        }
        proof {
            lemma_slash_pos_shift(key@, start as int, start as int);
        }
        if k == n {
            let last = key.substring_char(start, n).to_owned();
            proof {
                assert(t.subrange(0, t.len() as int) =~= t);
            }
            let ghost before = parts.deep_view();
            parts.push(last);
            assert(parts.deep_view() =~= before.push(t));
            assert(spec_split(t) =~= seq![t]);
            return parts;
        }
        let piece = key.substring_char(start, k).to_owned();
        proof {
            lemma_slash_pos(key@, start as int);
            assert(t.subrange(0, k - start) =~= key@.subrange(start as int, k as int));
            assert(t.subrange(k - start + 1, t.len() as int) =~= key@.subrange(k + 1, n as int));
        }
        let ghost before = parts.deep_view();
        parts.push(piece);
        assert(parts.deep_view() =~= before.push(key@.subrange(start as int, k as int)));
        start = k + 1;
    }
}

} // verus!
